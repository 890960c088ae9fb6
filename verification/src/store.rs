//! An in-memory record store honouring the collaborator contract the
//! lifecycle rules are written against: `insert`, `get`, `list` and
//! `soft_delete`, single-record writes only. The store enforces nothing
//! beyond persistence and identifier uniqueness; every visibility rule
//! lives in the lifecycle module.

use vstd::prelude::*;

use crate::errors::JwkError;
use crate::models::{JwkData, JwkDataView};

verus! {

/// Some record in `s` carries the identifier `id`.
pub open spec fn contains_id(s: Seq<JwkDataView>, id: u128) -> bool {
    exists|i: int| 0 <= i < s.len() && s[i].id == id
}

/// No two records of `s` share an identifier.
pub open spec fn unique_ids(s: Seq<JwkDataView>) -> bool {
    forall|i: int, j: int| 0 <= i < j < s.len() ==> s[i].id != s[j].id
}

/// The index of the record carrying `id`; meaningful when `contains_id`
/// holds and identifiers are unique.
pub open spec fn idx_of(s: Seq<JwkDataView>, id: u128) -> int {
    choose|i: int| 0 <= i < s.len() && s[i].id == id
}

/// The record of `s` carrying `id`, if any.
pub open spec fn spec_lookup(s: Seq<JwkDataView>, id: u128) -> Option<JwkDataView> {
    if contains_id(s, id) {
        Some(s[idx_of(s, id)])
    } else {
        None
    }
}

/// Under unique identifiers, any index holding `id` is the index of `id`.
pub proof fn lemma_idx_of_unique(s: Seq<JwkDataView>, id: u128, i: int)
    requires
        unique_ids(s),
        0 <= i < s.len(),
        s[i].id == id,
    ensures
        contains_id(s, id),
        idx_of(s, id) == i,
{
    assert(contains_id(s, id));
    let j = idx_of(s, id);
    assert(0 <= j < s.len() && s[j].id == id);
    if i < j {
        assert(s[i].id != s[j].id);
    } else if j < i {
        assert(s[j].id != s[i].id);
    }
}

/// The record as `soft_delete` leaves it: only the deletion mark changes.
pub open spec fn mark_deleted(k: JwkDataView, now: i64) -> JwkDataView {
    JwkDataView { deleted_at: Some(now), ..k }
}

/// A delete request would take effect: a record carries `id` and is not yet
/// deleted.
pub open spec fn deletable(s: Seq<JwkDataView>, id: u128) -> bool {
    contains_id(s, id) && s[idx_of(s, id)].deleted_at is None
}

/// The in-memory record store. Its value is the sequence of record values,
/// in insertion order; no record is ever physically removed.
pub struct KeyStore {
    records: Vec<JwkData>,
}

impl View for KeyStore {
    type V = Seq<JwkDataView>;

    closed spec fn view(&self) -> Seq<JwkDataView> {
        self.records.deep_view()
    }
}

impl KeyStore {
    /// Identifiers are unique: the store's one structural invariant,
    /// matching a primary key.
    pub open spec fn inv(&self) -> bool {
        unique_ids(self@)
    }

    /// An empty store.
    pub fn new() -> (r: KeyStore)
        ensures
            r@ == Seq::<JwkDataView>::empty(),
            r.inv(),
    {
        let store = KeyStore { records: Vec::new() };
        proof {
            assert(store@ =~= Seq::<JwkDataView>::empty());
        }
        store
    }

    /// Appends a record. A second record under an already-stored identifier
    /// is refused, like a primary-key violation, and nothing changes.
    pub fn insert(&mut self, record: JwkData) -> (r: Result<(), JwkError>)
        requires
            old(self).inv(),
        ensures
            final(self).inv(),
            contains_id(old(self)@, record@.id) ==> r == Err::<(), JwkError>(JwkError::StoreError)
                && final(self)@ == old(self)@,
            !contains_id(old(self)@, record@.id) ==> r == Ok::<(), JwkError>(()) && final(self)@
                == old(self)@.push(record@),
    {
        let mut i: usize = 0;
        while i < self.records.len()
            invariant
                old(self).inv(),
                self@ == old(self)@,
                i <= self.records.len(),
                forall|j: int| 0 <= j < i ==> self@[j].id != record@.id,
            decreases self.records.len() - i,
        {
            if self.records[i].id == record.id {
                proof {
                    assert(self@[i as int].id == record@.id);
                }
                return Err(JwkError::StoreError);
            }
            i = i + 1;
        }
        let ghost before = self@;
        self.records.push(record);
        proof {
            assert(self@ =~= before.push(record@));
        }
        Ok(())
    }

    /// Looks a record up by identifier, applying no visibility rule.
    pub fn get(&self, id: u128) -> (r: Option<&JwkData>)
        requires
            self.inv(),
        ensures
            r matches Some(k) ==> spec_lookup(self@, id) == Some(k@),
            r is None <==> !contains_id(self@, id),
    {
        let mut i: usize = 0;
        while i < self.records.len()
            invariant
                self.inv(),
                i <= self.records.len(),
                forall|j: int| 0 <= j < i ==> self@[j].id != id,
            decreases self.records.len() - i,
        {
            if self.records[i].id == id {
                proof {
                    lemma_idx_of_unique(self@, id, i as int);
                }
                return Some(&self.records[i]);
            }
            i = i + 1;
        }
        None
    }

    /// Every stored record, in insertion order, with no filtering: the
    /// lifecycle rules decide what a caller may see.
    pub fn list(&self) -> (r: &Vec<JwkData>)
        ensures
            r.deep_view() == self@,
    {
        &self.records
    }

    /// Marks the record carrying `id` as deleted at time `now` and reports
    /// one affected row; an absent or already-deleted record affects none.
    /// A deletion mark is never cleared or overwritten.
    pub fn soft_delete(&mut self, id: u128, now: i64) -> (rows: usize)
        requires
            old(self).inv(),
        ensures
            final(self).inv(),
            deletable(old(self)@, id) ==> rows == 1 && final(self)@ == old(self)@.update(
                idx_of(old(self)@, id),
                mark_deleted(old(self)@[idx_of(old(self)@, id)], now),
            ),
            !deletable(old(self)@, id) ==> rows == 0 && final(self)@ == old(self)@,
    {
        let mut i: usize = 0;
        while i < self.records.len()
            invariant
                old(self).inv(),
                self@ == old(self)@,
                i <= self.records.len(),
                forall|j: int| 0 <= j < i ==> !(self@[j].id == id && self@[j].deleted_at is None),
            decreases self.records.len() - i,
        {
            if self.records[i].id == id && self.records[i].deleted_at.is_none() {
                proof {
                    lemma_idx_of_unique(self@, id, i as int);
                }
                let ghost before = self@;
                let record = self.records.remove(i);
                let updated = JwkData { deleted_at: Some(now), ..record };
                self.records.insert(i, updated);
                proof {
                    assert(self@ =~= before.update(i as int, mark_deleted(before[i as int], now)));
                    assert forall|p: int, q: int| 0 <= p < q < self@.len() implies self@[p].id
                        != self@[q].id by {
                        assert(self@[p].id == before[p].id);
                        assert(self@[q].id == before[q].id);
                    }
                }
                return 1;
            }
            i = i + 1;
        }
        proof {
            if deletable(old(self)@, id) {
                let ix = idx_of(old(self)@, id);
                assert(0 <= ix < old(self)@.len() && old(self)@[ix].id == id);
            }
        }
        0
    }
}

} // verus!
