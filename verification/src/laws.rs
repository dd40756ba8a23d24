use vstd::prelude::*;

use crate::address::{spec_derive_key, valid_merchant_id};
use crate::errors::ErrorCode;
use crate::machine::{
    spec_close, spec_create, spec_read, CloseLocationProof, CreateLocationProof,
};
use crate::records::{LocationProof, LocationVerifiedEvent, RecordSlot};
use crate::validate::{valid_lat, valid_lng};

verus! {

/// Every record the store holds satisfies the coordinate bounds.
pub open spec fn all_records_in_bounds(m: Map<Seq<u8>, RecordSlot>) -> bool {
    forall|k: Seq<u8>| #[trigger] m.contains_key(k) ==> valid_lat(m[k].record.lat) && valid_lng(
        m[k].record.lng,
    )
}

/// For in-range coordinates and a valid identifier with a free key, a first
/// creation succeeds with the expected record and event, and any second
/// creation for the same identifier fails with `AlreadyExists`, leaving the
/// stored record and the rest of the store unchanged.
pub proof fn lemma_create_then_create(
    m: Map<Seq<u8>, RecordSlot>,
    ctx1: CreateLocationProof,
    lat1: i64,
    lng1: i64,
    id: Seq<u8>,
    now1: i64,
    ctx2: CreateLocationProof,
    lat2: i64,
    lng2: i64,
    now2: i64,
)
    requires
        valid_merchant_id(id),
        valid_lat(lat1),
        valid_lng(lng1),
        !m.contains_key(spec_derive_key(id)),
        valid_lat(lat2),
        valid_lng(lng2),
    ensures
        ({
            let (m1, r1) = spec_create(m, ctx1, lat1, lng1, id, now1);
            let (m2, r2) = spec_create(m1, ctx2, lat2, lng2, id, now2);
            &&& r1 == Ok::<LocationVerifiedEvent, ErrorCode>(
                LocationVerifiedEvent { lat: lat1, lng: lng1, timestamp: now1 },
            )
            &&& m1[spec_derive_key(id)] == (RecordSlot {
                owner: ctx1.payer,
                record: LocationProof { lat: lat1, lng: lng1, verified_at: now1, bump: ctx1.bump },
            })
            &&& r2 == Err::<LocationVerifiedEvent, ErrorCode>(ErrorCode::AlreadyExists)
            &&& m2 == m1
        }),
{
}

/// When both coordinates are out of range, the latitude error is the one
/// reported, and the store is untouched.
pub proof fn lemma_latitude_error_precedence(
    m: Map<Seq<u8>, RecordSlot>,
    ctx: CreateLocationProof,
    lat: i64,
    lng: i64,
    id: Seq<u8>,
    now: i64,
)
    requires
        valid_merchant_id(id),
        !valid_lat(lat),
        !valid_lng(lng),
    ensures
        spec_create(m, ctx, lat, lng, id, now) == (
            m,
            Err::<LocationVerifiedEvent, ErrorCode>(ErrorCode::InvalidLatitude),
        ),
{
}

/// A creation never mutates or removes a record that already exists: every
/// key held before is held after, with the same slot.
pub proof fn lemma_create_preserves_existing(
    m: Map<Seq<u8>, RecordSlot>,
    ctx: CreateLocationProof,
    lat: i64,
    lng: i64,
    id: Seq<u8>,
    now: i64,
    k: Seq<u8>,
)
    requires
        m.contains_key(k),
    ensures
        spec_create(m, ctx, lat, lng, id, now).0.contains_key(k),
        spec_create(m, ctx, lat, lng, id, now).0[k] == m[k],
{
}

/// A closure touches at most the closed identifier's own key: every other
/// key is held after exactly as before.
pub proof fn lemma_close_preserves_others(
    m: Map<Seq<u8>, RecordSlot>,
    ctx: CloseLocationProof,
    id: Seq<u8>,
    k: Seq<u8>,
)
    requires
        m.contains_key(k),
        k != spec_derive_key(id),
    ensures
        spec_close(m, ctx, id).0.contains_key(k),
        spec_close(m, ctx, id).0[k] == m[k],
{
}

/// A closure by a caller other than the record's owner fails with
/// `Unauthorized`, and the record stays readable with its original fields.
pub proof fn lemma_close_unauthorized(
    m: Map<Seq<u8>, RecordSlot>,
    ctx: CloseLocationProof,
    id: Seq<u8>,
)
    requires
        valid_merchant_id(id),
        m.contains_key(spec_derive_key(id)),
        m[spec_derive_key(id)].owner != ctx.authority,
    ensures
        spec_close(m, ctx, id) == (m, Err::<(), ErrorCode>(ErrorCode::Unauthorized)),
        spec_read(spec_close(m, ctx, id).0, id) == Some(m[spec_derive_key(id)].record),
{
}

/// A closure of a never-created identifier fails with `NotFound`, and the
/// store is untouched.
pub proof fn lemma_close_not_found(
    m: Map<Seq<u8>, RecordSlot>,
    ctx: CloseLocationProof,
    id: Seq<u8>,
)
    requires
        valid_merchant_id(id),
        !m.contains_key(spec_derive_key(id)),
    ensures
        spec_close(m, ctx, id) == (m, Err::<(), ErrorCode>(ErrorCode::NotFound)),
{
}

/// A closure by the record's owner succeeds and makes the record unreadable;
/// a subsequent creation for the same identifier then succeeds and carries
/// the fresh timestamp of the second call.
pub proof fn lemma_close_then_create(
    m: Map<Seq<u8>, RecordSlot>,
    close_ctx: CloseLocationProof,
    id: Seq<u8>,
    ctx: CreateLocationProof,
    lat: i64,
    lng: i64,
    now: i64,
)
    requires
        valid_merchant_id(id),
        m.contains_key(spec_derive_key(id)),
        m[spec_derive_key(id)].owner == close_ctx.authority,
        valid_lat(lat),
        valid_lng(lng),
    ensures
        ({
            let (m1, r1) = spec_close(m, close_ctx, id);
            let (m2, r2) = spec_create(m1, ctx, lat, lng, id, now);
            &&& r1 == Ok::<(), ErrorCode>(())
            &&& spec_read(m1, id) is None
            &&& r2 == Ok::<LocationVerifiedEvent, ErrorCode>(
                LocationVerifiedEvent { lat, lng, timestamp: now },
            )
            &&& m2[spec_derive_key(id)].record.verified_at == now
        }),
{
}

/// Creation preserves the coordinate-bounds invariant: it only ever inserts
/// a record whose coordinates were just validated.
pub proof fn lemma_create_preserves_bounds(
    m: Map<Seq<u8>, RecordSlot>,
    ctx: CreateLocationProof,
    lat: i64,
    lng: i64,
    id: Seq<u8>,
    now: i64,
)
    requires
        all_records_in_bounds(m),
    ensures
        all_records_in_bounds(spec_create(m, ctx, lat, lng, id, now).0),
{
}

/// Closure preserves the coordinate-bounds invariant: it never inserts at all.
pub proof fn lemma_close_preserves_bounds(
    m: Map<Seq<u8>, RecordSlot>,
    ctx: CloseLocationProof,
    id: Seq<u8>,
)
    requires
        all_records_in_bounds(m),
    ensures
        all_records_in_bounds(spec_close(m, ctx, id).0),
{
}

} // verus!
