//! Request shapes of the multi-signature wallet service.

use vstd::prelude::*;

verus! {

/// One signer's approval of a pending transaction.
#[derive(Clone, Debug)]
pub struct SignTransactionRequest {
    pub signature: String,
    pub public_key: String,
}

} // verus!
