use vstd::prelude::*;

use crate::address::{derive_proof_address, spec_derive_key, valid_merchant_id, MAX_MERCHANT_ID_LEN};
use crate::errors::ErrorCode;
use crate::records::{LocationProof, LocationVerifiedEvent, RecordSlot};
use crate::store::RecordStore;
use crate::validate::{valid_lat, valid_lng, validate_coordinates};

verus! {

/// The host-supplied context of a creation call: the server identity that
/// pays for the record (checked by the host's signer-verification layer
/// before the call reaches this core) and the derivation nonce for the
/// record's slot.
#[derive(Clone, Copy, Debug, PartialEq, Eq, Structural)]
pub struct CreateLocationProof {
    pub payer: u64,
    pub bump: u8,
}

/// The host-supplied context of a closure call: the identity asking to close
/// the record, which the store holds against the owner fixed at creation.
#[derive(Clone, Copy, Debug, PartialEq, Eq, Structural)]
pub struct CloseLocationProof {
    pub authority: u64,
}

/// What a creation call does to the store, and what it returns: identifier
/// length, latitude, then longitude are checked in that order; then the key
/// is derived and the record inserted only if the key is free.
pub open spec fn spec_create(
    m: Map<Seq<u8>, RecordSlot>,
    ctx: CreateLocationProof,
    lat: i64,
    lng: i64,
    id: Seq<u8>,
    now: i64,
) -> (Map<Seq<u8>, RecordSlot>, Result<LocationVerifiedEvent, ErrorCode>) {
    if !valid_merchant_id(id) {
        (m, Err(ErrorCode::MerchantIdTooLong))
    } else if !valid_lat(lat) {
        (m, Err(ErrorCode::InvalidLatitude))
    } else if !valid_lng(lng) {
        (m, Err(ErrorCode::InvalidLongitude))
    } else if m.contains_key(spec_derive_key(id)) {
        (m, Err(ErrorCode::AlreadyExists))
    } else {
        (
            m.insert(
                spec_derive_key(id),
                RecordSlot {
                    owner: ctx.payer,
                    record: LocationProof { lat, lng, verified_at: now, bump: ctx.bump },
                },
            ),
            Ok(LocationVerifiedEvent { lat, lng, timestamp: now }),
        )
    }
}

/// What a closure call does to the store, and what it returns: the key is
/// derived from the identifier exactly as at creation; the record is removed
/// only when it exists and the caller is the owner fixed at creation.
pub open spec fn spec_close(m: Map<Seq<u8>, RecordSlot>, ctx: CloseLocationProof, id: Seq<u8>) -> (
    Map<Seq<u8>, RecordSlot>,
    Result<(), ErrorCode>,
) {
    if !valid_merchant_id(id) {
        (m, Err(ErrorCode::MerchantIdTooLong))
    } else if !m.contains_key(spec_derive_key(id)) {
        (m, Err(ErrorCode::NotFound))
    } else if m[spec_derive_key(id)].owner != ctx.authority {
        (m, Err(ErrorCode::Unauthorized))
    } else {
        (m.remove(spec_derive_key(id)), Ok(()))
    }
}

/// What a read returns: the record under the identifier's derived key, if
/// the identifier is valid and the key holds one.
pub open spec fn spec_read(m: Map<Seq<u8>, RecordSlot>, id: Seq<u8>) -> Option<LocationProof> {
    if valid_merchant_id(id) && m.contains_key(spec_derive_key(id)) {
        Some(m[spec_derive_key(id)].record)
    } else {
        None
    }
}

/// Creates the one immutable location proof for `merchant_id`.
///
/// Validation runs before any store interaction, so every failure leaves the
/// store exactly as it was; `now` is the host clock's timestamp for the call.
/// On success the event for external indexers is returned.
pub fn create_location_proof(
    store: &mut RecordStore,
    ctx: CreateLocationProof,
    lat: i64,
    lng: i64,
    merchant_id: &Vec<u8>,
    now: i64,
) -> (r: Result<LocationVerifiedEvent, ErrorCode>)
    requires
        old(store).wf(),
    ensures
        final(store).wf(),
        final(store)@ == spec_create(old(store)@, ctx, lat, lng, merchant_id@, now).0,
        r == spec_create(old(store)@, ctx, lat, lng, merchant_id@, now).1,
{
    // The identifier's length is checked before the coordinates, and both
    // before the key is derived, so the error order is deterministic and no
    // key is ever computed from an oversized identifier.
    if merchant_id.len() > MAX_MERCHANT_ID_LEN {
        return Err(ErrorCode::MerchantIdTooLong);
    }
    if let Err(e) = validate_coordinates(lat, lng) {
        return Err(e);
    }
    let key = match derive_proof_address(merchant_id) {
        Ok(key) => key,
        Err(e) => {
            return Err(e);
        },
    };
    let record = LocationProof { lat, lng, verified_at: now, bump: ctx.bump };
    match store.create_if_absent(key, ctx.payer, record) {
        Ok(()) => Ok(LocationVerifiedEvent { lat, lng, timestamp: now }),
        Err(e) => Err(e),
    }
}

/// Closes the location proof for `merchant_id` on behalf of the caller named
/// in `ctx`, freeing the slot for a later creation. Only the identity that
/// created the record may close it; every failure leaves the store unchanged.
pub fn close_location_proof(
    store: &mut RecordStore,
    ctx: CloseLocationProof,
    merchant_id: &Vec<u8>,
) -> (r: Result<(), ErrorCode>)
    requires
        old(store).wf(),
    ensures
        final(store).wf(),
        final(store)@ == spec_close(old(store)@, ctx, merchant_id@).0,
        r == spec_close(old(store)@, ctx, merchant_id@).1,
{
    let key = match derive_proof_address(merchant_id) {
        Ok(key) => key,
        Err(e) => {
            return Err(e);
        },
    };
    store.delete(&key, ctx.authority)
}

/// Reads the location proof currently held for `merchant_id`, if any.
pub fn get_location_proof(store: &RecordStore, merchant_id: &Vec<u8>) -> (r: Option<
    LocationProof,
>)
    requires
        store.wf(),
    ensures
        r == spec_read(store@, merchant_id@),
{
    match derive_proof_address(merchant_id) {
        Ok(key) => store.read(&key),
        Err(_) => None,
    }
}

} // verus!
