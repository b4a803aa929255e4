//! Subscription records, kept here only as far as account destruction
//! must erase them.

use vstd::prelude::*;

verus! {

/// A paid or free subscription owned by a user.
pub struct Subscription {
    pub id: u64,
    pub user_id: u64,
    pub tier: String,
    pub created_at: u64,
}

impl Subscription {
    /// An exact copy of the record.
    pub fn duplicate(&self) -> (r: Subscription)
        ensures
            r == *self,
    {
        Subscription {
            id: self.id,
            user_id: self.user_id,
            tier: self.tier.clone(),
            created_at: self.created_at,
        }
    }
}

} // verus!
