use vstd::prelude::*;

use crate::errors::ErrorCode;

verus! {

/// Largest admissible latitude: 90 degrees scaled by one million.
pub const LAT_BOUND: i64 = 90_000_000;

/// Largest admissible longitude: 180 degrees scaled by one million.
pub const LNG_BOUND: i64 = 180_000_000;

/// A latitude is valid when it lies in [-90, 90] degrees, scaled by one million.
pub open spec fn valid_lat(lat: i64) -> bool {
    -LAT_BOUND <= lat <= LAT_BOUND
}

/// A longitude is valid when it lies in [-180, 180] degrees, scaled by one million.
pub open spec fn valid_lng(lng: i64) -> bool {
    -LNG_BOUND <= lng <= LNG_BOUND
}

/// Checks both coordinates, latitude first, so that doubly-invalid input
/// deterministically reports `InvalidLatitude`.
pub fn validate_coordinates(lat: i64, lng: i64) -> (r: Result<(), ErrorCode>)
    ensures
        r == (if !valid_lat(lat) {
            Err::<(), ErrorCode>(ErrorCode::InvalidLatitude)
        } else if !valid_lng(lng) {
            Err::<(), ErrorCode>(ErrorCode::InvalidLongitude)
        } else {
            Ok::<(), ErrorCode>(())
        }),
{
    if lat < -LAT_BOUND || lat > LAT_BOUND {
        Err(ErrorCode::InvalidLatitude)
    } else if lng < -LNG_BOUND || lng > LNG_BOUND {
        Err(ErrorCode::InvalidLongitude)
    } else {
        Ok(())
    }
}

} // verus!
