use vstd::prelude::*;

use crate::errors::ErrorCode;
use crate::records::{LocationProof, RecordSlot};

verus! {

/// One key/slot pair as the in-memory store lays it out.
struct StoreEntry {
    key: Vec<u8>,
    slot: RecordSlot,
}

/// What a sequence of entries holds under a key: the slot of the last entry
/// whose key matches, if any.
spec fn lookup(s: Seq<StoreEntry>, k: Seq<u8>) -> Option<RecordSlot>
    decreases s.len(),
{
    if s.len() == 0 {
        None
    } else if s.last().key@ == k {
        Some(s.last().slot)
    } else {
        lookup(s.drop_last(), k)
    }
}

/// No two entries share a key.
spec fn keys_distinct(s: Seq<StoreEntry>) -> bool {
    forall|i: int, j: int| 0 <= i < j < s.len() ==> s[i].key@ != s[j].key@
}

proof fn lemma_lookup_push(s: Seq<StoreEntry>, e: StoreEntry, k: Seq<u8>)
    ensures
        lookup(s.push(e), k) == (if e.key@ == k {
            Some(e.slot)
        } else {
            lookup(s, k)
        }),
{
    assert(s.push(e).last() == e);
    assert(s.push(e).drop_last() =~= s);
}

proof fn lemma_lookup_none(s: Seq<StoreEntry>, k: Seq<u8>)
    requires
        forall|i: int| 0 <= i < s.len() ==> s[i].key@ != k,
    ensures
        lookup(s, k) is None,
    decreases s.len(),
{
    if s.len() > 0 {
        assert(forall|i: int| 0 <= i < s.drop_last().len() ==> s.drop_last()[i] == s[i]);
        lemma_lookup_none(s.drop_last(), k);
    }
}

proof fn lemma_lookup_index(s: Seq<StoreEntry>, i: int)
    requires
        0 <= i < s.len(),
        keys_distinct(s),
    ensures
        lookup(s, s[i].key@) == Some(s[i].slot),
    decreases s.len(),
{
    if i == s.len() - 1 {
        assert(s.last() == s[i]);
    } else {
        assert(s.last().key@ != s[i].key@);
        assert(forall|p: int| 0 <= p < s.drop_last().len() ==> s.drop_last()[p] == s[p]);
        assert(keys_distinct(s.drop_last()));
        lemma_lookup_index(s.drop_last(), i);
    }
}

proof fn lemma_lookup_remove(s: Seq<StoreEntry>, i: int, k: Seq<u8>)
    requires
        0 <= i < s.len(),
        keys_distinct(s),
    ensures
        lookup(s.remove(i), k) == (if s[i].key@ == k {
            None::<RecordSlot>
        } else {
            lookup(s, k)
        }),
    decreases s.len(),
{
    s.remove_ensures(i);
    let t = s.remove(i);
    if i == s.len() - 1 {
        assert(t =~= s.drop_last());
        if s[i].key@ == k {
            assert(forall|p: int| 0 <= p < s.drop_last().len() ==> s.drop_last()[p] == s[p]);
            assert forall|p: int| 0 <= p < s.drop_last().len() implies s.drop_last()[p].key@
                != k by {
                assert(s[p].key@ != s[i].key@);
            }
            lemma_lookup_none(s.drop_last(), k);
        }
    } else {
        assert(t.last() == s.last());
        assert(forall|p: int| 0 <= p < s.drop_last().len() ==> s.drop_last()[p] == s[p]);
        assert(keys_distinct(s.drop_last()));
        s.drop_last().remove_ensures(i);
        assert(t.drop_last() =~= s.drop_last().remove(i));
        lemma_lookup_remove(s.drop_last(), i, k);
        assert(s.last().key@ != s[i].key@);
    }
}

/// The record store port: an in-memory atomic key-value space offering
/// create-if-absent, read, and delete-with-authorization, viewed as a map
/// from storage keys to record slots.
pub struct RecordStore {
    entries: Vec<StoreEntry>,
}

impl View for RecordStore {
    type V = Map<Seq<u8>, RecordSlot>;

    closed spec fn view(&self) -> Map<Seq<u8>, RecordSlot> {
        Map::new(
            |k: Seq<u8>| lookup(self.entries@, k) is Some,
            |k: Seq<u8>| lookup(self.entries@, k).unwrap(),
        )
    }
}

impl RecordStore {
    /// Well-formedness: no two entries share a storage key.
    pub closed spec fn wf(&self) -> bool {
        keys_distinct(self.entries@)
    }

    /// An empty store, holding no record under any key.
    pub fn new() -> (r: RecordStore)
        ensures
            r.wf(),
            r@ == Map::<Seq<u8>, RecordSlot>::empty(),
    {
        let r = RecordStore { entries: Vec::new() };
        proof {
            assert(r@ =~= Map::<Seq<u8>, RecordSlot>::empty());
        }
        r
    }

    /// Byte-for-byte key equality.
    fn keys_equal(a: &Vec<u8>, b: &Vec<u8>) -> (r: bool)
        ensures
            r <==> a@ == b@,
    {
        if a.len() != b.len() {
            return false;
        }
        let mut i: usize = 0;
        while i < a.len()
            invariant
                a@.len() == b@.len(),
                i <= a@.len(),
                forall|j: int| 0 <= j < i ==> a@[j] == b@[j],
            decreases a@.len() - i,
        {
            if a[i] != b[i] {
                return false;
            }
            i = i + 1;
        }
        proof {
            assert(a@ =~= b@);
        }
        true
    }

    /// Index of the entry holding `key`, if one does.
    fn find_index(&self, key: &Vec<u8>) -> (r: Option<usize>)
        ensures
            match r {
                Some(i) => i < self.entries@.len() && self.entries@[i as int].key@ == key@,
                None => forall|i: int| 0 <= i < self.entries@.len() ==> self.entries@[i].key@
                    != key@,
            },
    {
        let mut i: usize = 0;
        while i < self.entries.len()
            invariant
                i <= self.entries@.len(),
                forall|j: int| 0 <= j < i ==> self.entries@[j].key@ != key@,
            decreases self.entries@.len() - i,
        {
            if Self::keys_equal(&self.entries[i].key, key) {
                return Some(i);
            }
            i = i + 1;
        }
        None
    }

    /// Atomically creates the record under `key` if the key is free; an
    /// occupied key fails with `AlreadyExists` and changes nothing.
    pub fn create_if_absent(&mut self, key: Vec<u8>, owner: u64, record: LocationProof) -> (r:
        Result<(), ErrorCode>)
        requires
            old(self).wf(),
        ensures
            final(self).wf(),
            old(self)@.contains_key(key@) ==> r == Err::<(), ErrorCode>(ErrorCode::AlreadyExists)
                && final(self)@ == old(self)@,
            !old(self)@.contains_key(key@) ==> r == Ok::<(), ErrorCode>(()) && final(self)@ == old(
            self)@.insert(key@, RecordSlot { owner, record }),
    {
        match self.find_index(&key) {
            Some(i) => {
                proof {
                    lemma_lookup_index(self.entries@, i as int);
                }
                Err(ErrorCode::AlreadyExists)
            },
            None => {
                proof {
                    lemma_lookup_none(self.entries@, key@);
                }
                let ghost s_old = self.entries@;
                let slot = RecordSlot { owner, record };
                let e = StoreEntry { key, slot };
                self.entries.push(e);
                proof {
                    let s_new = self.entries@;
                    assert forall|p: int, q: int| 0 <= p < q < s_new.len() implies s_new[p].key@
                        != s_new[q].key@ by {
                        if q < s_new.len() - 1 {
                            assert(s_new[p] == s_old[p] && s_new[q] == s_old[q]);
                        } else {
                            assert(s_new[p] == s_old[p] && s_new[q] == e);
                        }
                    }
                    assert forall|k2: Seq<u8>| #[trigger] lookup(s_new, k2) == (if k2 == e.key@ {
                        Some(slot)
                    } else {
                        lookup(s_old, k2)
                    }) by {
                        lemma_lookup_push(s_old, e, k2);
                    }
                    assert(self@ =~= old(self)@.insert(e.key@, slot));
                }
                Ok(())
            },
        }
    }

    /// Reads the record under `key`, if the key holds one.
    pub fn read(&self, key: &Vec<u8>) -> (r: Option<LocationProof>)
        requires
            self.wf(),
        ensures
            r == (if self@.contains_key(key@) {
                Some(self@[key@].record)
            } else {
                None::<LocationProof>
            }),
    {
        match self.find_index(key) {
            Some(i) => {
                proof {
                    lemma_lookup_index(self.entries@, i as int);
                }
                Some(self.entries[i].slot.record)
            },
            None => {
                proof {
                    lemma_lookup_none(self.entries@, key@);
                }
                None
            },
        }
    }

    /// Deletes the record under `key` for `requester`. A missing key fails
    /// with `NotFound`; a requester other than the recorded owner fails with
    /// `Unauthorized`; either failure changes nothing.
    pub fn delete(&mut self, key: &Vec<u8>, requester: u64) -> (r: Result<(), ErrorCode>)
        requires
            old(self).wf(),
        ensures
            final(self).wf(),
            !old(self)@.contains_key(key@) ==> r == Err::<(), ErrorCode>(ErrorCode::NotFound)
                && final(self)@ == old(self)@,
            old(self)@.contains_key(key@) && old(self)@[key@].owner != requester ==> r == Err::<
                (),
                ErrorCode,
            >(ErrorCode::Unauthorized) && final(self)@ == old(self)@,
            old(self)@.contains_key(key@) && old(self)@[key@].owner == requester ==> r == Ok::<
                (),
                ErrorCode,
            >(()) && final(self)@ == old(self)@.remove(key@),
    {
        match self.find_index(key) {
            None => {
                proof {
                    lemma_lookup_none(self.entries@, key@);
                }
                Err(ErrorCode::NotFound)
            },
            Some(i) => {
                proof {
                    lemma_lookup_index(self.entries@, i as int);
                }
                if self.entries[i].slot.owner != requester {
                    Err(ErrorCode::Unauthorized)
                } else {
                    let ghost s_old = self.entries@;
                    let _ = self.entries.remove(i);
                    proof {
                        let s_new = self.entries@;
                        s_old.remove_ensures(i as int);
                        assert forall|p: int, q: int| 0 <= p < q < s_new.len() implies s_new[p].key@
                            != s_new[q].key@ by {
                            if p < i {
                                assert(s_new[p] == s_old[p]);
                            } else {
                                assert(s_new[p] == s_old[p + 1]);
                            }
                            if q < i {
                                assert(s_new[q] == s_old[q]);
                            } else {
                                assert(s_new[q] == s_old[q + 1]);
                            }
                        }
                        assert forall|k2: Seq<u8>| #[trigger] lookup(s_new, k2) == (if k2 == key@ {
                            None::<RecordSlot>
                        } else {
                            lookup(s_old, k2)
                        }) by {
                            lemma_lookup_remove(s_old, i as int, k2);
                        }
                        assert(self@ =~= old(self)@.remove(key@));
                    }
                    Ok(())
                }
            },
        }
    }
}

} // verus!
