//! Shared vocabulary of the language-processing services.

use vstd::prelude::*;

verus! {

/// Overall sentiment assigned to a text.
#[derive(Clone, Copy, Debug, PartialEq, Eq, Structural)]
pub enum Sentiment {
    Positive,
    Negative,
    Neutral,
    Mixed,
}

/// Kinds of named entities recognized in a text.
#[derive(Clone, Debug)]
pub enum EntityType {
    Person,
    Organization,
    Location,
    Date,
    Money,
    Email,
    Phone,
    Url,
    Custom(String),
}

} // verus!
