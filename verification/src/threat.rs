//! Shared vocabulary of the threat assessment services.

use vstd::prelude::*;

verus! {

/// Assessed likelihood band of a threat.
#[derive(Clone, Copy, Debug, PartialEq, Eq, Structural)]
pub enum ThreatLevel {
    Low,
    Medium,
    High,
    Critical,
}

/// Assessed damage band of a threat.
#[derive(Clone, Copy, Debug, PartialEq, Eq, Structural)]
pub enum ImpactLevel {
    Minimal,
    Moderate,
    Significant,
    Severe,
}

} // verus!
