use vstd::prelude::*;

use crate::errors::ErrorCode;

verus! {

/// Longest admissible merchant identifier, in bytes.
pub const MAX_MERCHANT_ID_LEN: usize = 32;

/// The namespace tag that prefixes every derived key: the bytes of "proof".
pub open spec fn proof_namespace() -> Seq<u8> {
    seq![112u8, 114u8, 111u8, 111u8, 102u8]
}

/// A merchant identifier is valid when it is at most 32 bytes long.
pub open spec fn valid_merchant_id(id: Seq<u8>) -> bool {
    id.len() <= MAX_MERCHANT_ID_LEN
}

/// The storage key a merchant identifier maps to: the namespace tag
/// followed by the identifier bytes.
pub open spec fn spec_derive_key(id: Seq<u8>) -> Seq<u8> {
    proof_namespace() + id
}

/// Distinct merchant identifiers derive distinct storage keys: the namespace
/// prefix has fixed length, so the identifier can be read back out of the key.
pub proof fn lemma_derive_key_injective(a: Seq<u8>, b: Seq<u8>)
    requires
        spec_derive_key(a) == spec_derive_key(b),
    ensures
        a == b,
{
    let ka = spec_derive_key(a);
    let kb = spec_derive_key(b);
    assert(ka.len() == 5 + a.len());
    assert(kb.len() == 5 + b.len());
    assert(a.len() == b.len());
    assert forall|i: int| 0 <= i < a.len() implies a[i] == b[i] by {
        assert(ka[5 + i] == a[i]);
        assert(kb[5 + i] == b[i]);
    }
    assert(a =~= b);
}

/// Derives the storage key for a merchant identifier, rejecting oversized
/// identifiers before any key is computed.
pub fn derive_proof_address(merchant_id: &Vec<u8>) -> (r: Result<Vec<u8>, ErrorCode>)
    ensures
        match r {
            Ok(key) => valid_merchant_id(merchant_id@) && key@ == spec_derive_key(merchant_id@),
            Err(e) => !valid_merchant_id(merchant_id@) && e == ErrorCode::MerchantIdTooLong,
        },
{
    if merchant_id.len() > MAX_MERCHANT_ID_LEN {
        return Err(ErrorCode::MerchantIdTooLong);
    }
    let mut key: Vec<u8> = Vec::new();
    key.push(112u8);
    key.push(114u8);
    key.push(111u8);
    key.push(111u8);
    key.push(102u8);
    assert(key@ =~= proof_namespace());
    let mut i: usize = 0;
    while i < merchant_id.len()
        invariant
            i <= merchant_id@.len(),
            key@ == proof_namespace() + merchant_id@.subrange(0, i as int),
        decreases merchant_id@.len() - i,
    {
        key.push(merchant_id[i]);
        assert(key@ =~= proof_namespace() + merchant_id@.subrange(0, i + 1 as int));
        i = i + 1;
    }
    assert(merchant_id@.subrange(0, merchant_id@.len() as int) =~= merchant_id@);
    Ok(key)
}

} // verus!
