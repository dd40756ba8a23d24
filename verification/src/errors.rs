use vstd::prelude::*;

verus! {

/// Every way a registry operation can fail.
///
/// Input-validation errors (`MerchantIdTooLong`, `InvalidLatitude`,
/// `InvalidLongitude`) are detected before any store interaction.
/// State-conflict errors (`AlreadyExists`, `NotFound`) reflect the current
/// durable state. `Unauthorized` signals a caller that does not own the
/// record it tried to close.
#[derive(Clone, Copy, Debug, PartialEq, Eq, Structural)]
pub enum ErrorCode {
    MerchantIdTooLong,
    InvalidLatitude,
    InvalidLongitude,
    AlreadyExists,
    NotFound,
    Unauthorized,
}

} // verus!
