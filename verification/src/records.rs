use vstd::prelude::*;

verus! {

/// One immutable location proof, as persisted for a merchant identifier.
#[derive(Clone, Copy, Debug, PartialEq, Eq, Structural)]
pub struct LocationProof {
    /// Latitude scaled by one million.
    pub lat: i64,
    /// Longitude scaled by one million.
    pub lng: i64,
    /// Unix timestamp, set once from the host clock when the record is created.
    pub verified_at: i64,
    /// Derivation nonce fixed at creation; the record's authorization token.
    pub bump: u8,
}

/// Emitted to external indexers after a successful creation. Purely
/// observational: it carries no authority and never affects the outcome.
#[derive(Clone, Copy, Debug, PartialEq, Eq, Structural)]
pub struct LocationVerifiedEvent {
    pub lat: i64,
    pub lng: i64,
    pub timestamp: i64,
}

/// What the store holds under one key: the identity that created the record,
/// which alone may close it, and the proof record itself.
#[derive(Clone, Copy, Debug, PartialEq, Eq, Structural)]
pub struct RecordSlot {
    pub owner: u64,
    pub record: LocationProof,
}

} // verus!
