//! A verified in-memory datastore providing the port the allocator needs:
//! occupant lookup, tombstoning eviction, unique insert, and creation
//! timestamps. It is the single source of truth the allocator is verified
//! against; rows are tombstoned, never removed.

use vstd::prelude::*;

use crate::record::{RecordModel, SlugRecord};

verus! {

/// What an occupancy lookup reports about a slug: who holds the current
/// record and whether that record is a tombstone.
#[derive(Clone, Copy, PartialEq, Eq, Structural, Debug)]
pub struct Occupant {
    pub owner_id: i64,
    pub is_deleted: bool,
}

/// The current record of `slug`: the last one holding it, tombstoned or not.
pub open spec fn occupant_of(s: Seq<RecordModel>, slug: Seq<char>) -> Option<RecordModel>
    decreases s.len(),
{
    if s.len() == 0 {
        None
    } else if s.last().slug == slug {
        Some(s.last())
    } else {
        occupant_of(s.drop_last(), slug)
    }
}

/// The live (non-deleted) record holding `slug`, if any.
pub open spec fn live_record(s: Seq<RecordModel>, slug: Seq<char>) -> Option<RecordModel>
    decreases s.len(),
{
    if s.len() == 0 {
        None
    } else if s.last().slug == slug && !s.last().deleted {
        Some(s.last())
    } else {
        live_record(s.drop_last(), slug)
    }
}

/// The store's invariant: of two records holding the same slug, the earlier
/// one is a tombstone. Hence at most one record per slug is live, and the
/// live one, if any, is the slug's last record.
pub open spec fn store_records_wf(s: Seq<RecordModel>) -> bool {
    forall|i: int, j: int|
        0 <= i < j < s.len() && #[trigger] s[i].slug == #[trigger] s[j].slug ==> s[i].deleted
}

/// `m` with its tombstone flag set.
pub open spec fn tombstoned(m: RecordModel) -> RecordModel {
    RecordModel {
        slug: m.slug,
        destination: m.destination,
        created: m.created,
        expiry: m.expiry,
        deleted: true,
        owner_id: m.owner_id,
    }
}

/// `s` with the live record of `slug`, if any, tombstoned in place.
pub open spec fn mark_deleted(s: Seq<RecordModel>, slug: Seq<char>) -> Seq<RecordModel> {
    Seq::new(
        s.len(),
        |i: int|
            if s[i].slug == slug && !s[i].deleted {
                tombstoned(s[i])
            } else {
                s[i]
            },
    )
}

/// What a live record looks like: it holds the slug, it is not a tombstone,
/// and it is one of the store's records.
pub proof fn lemma_live_record_characterizes(s: Seq<RecordModel>, slug: Seq<char>)
    ensures
        live_record(s, slug) matches Some(m) ==> m.slug == slug && !m.deleted && (exists|k: int|
            0 <= k < s.len() && s[k] == m),
        live_record(s, slug) is None ==> forall|k: int|
            0 <= k < s.len() ==> !(#[trigger] s[k].slug == slug && !s[k].deleted),
    decreases s.len(),
{
    if s.len() > 0 {
        lemma_live_record_characterizes(s.drop_last(), slug);
        if !(s.last().slug == slug && !s.last().deleted) {
            if let Some(m) = live_record(s.drop_last(), slug) {
                let k = choose|k: int| 0 <= k < s.drop_last().len() && s.drop_last()[k] == m;
                assert(s[k] == m);
            } else {
                assert forall|k: int|
                    0 <= k < s.len() implies !(#[trigger] s[k].slug == slug
                    && !s[k].deleted) by {
                    if k < s.len() - 1 {
                        assert(s.drop_last()[k] == s[k]);
                    }
                }
            }
        }
    }
}

/// What an occupant is: it holds the slug and is one of the store's
/// records; when no occupant exists, no record holds the slug at all.
pub proof fn lemma_occupant_characterizes(s: Seq<RecordModel>, slug: Seq<char>)
    ensures
        occupant_of(s, slug) matches Some(m) ==> m.slug == slug && (exists|k: int|
            0 <= k < s.len() && s[k] == m),
        occupant_of(s, slug) is None ==> forall|k: int| 0 <= k < s.len() ==> #[trigger] s[k].slug != slug,
    decreases s.len(),
{
    if s.len() > 0 {
        lemma_occupant_characterizes(s.drop_last(), slug);
        if s.last().slug != slug {
            if let Some(m) = occupant_of(s.drop_last(), slug) {
                let k = choose|k: int| 0 <= k < s.drop_last().len() && s.drop_last()[k] == m;
                assert(s[k] == m);
            } else {
                assert forall|k: int| 0 <= k < s.len() implies #[trigger] s[k].slug != slug by {
                    if k < s.len() - 1 {
                        assert(s.drop_last()[k] == s[k]);
                    }
                }
            }
        }
    }
}

/// Under the store invariant, the occupant decides liveness: no occupant or
/// a tombstoned occupant means the slug is free, and a live occupant is the
/// slug's unique live record.
pub proof fn lemma_occupant_live(s: Seq<RecordModel>, slug: Seq<char>)
    requires
        store_records_wf(s),
    ensures
        occupant_of(s, slug) is None ==> live_record(s, slug) is None,
        occupant_of(s, slug) matches Some(m) && m.deleted ==> live_record(s, slug) is None,
        occupant_of(s, slug) matches Some(m) ==> (!m.deleted ==> live_record(s, slug) == Some(m)),
    decreases s.len(),
{
    if s.len() > 0 {
        assert forall|i: int, j: int|
            0 <= i < j < s.drop_last().len() && #[trigger] s.drop_last()[i].slug
                == #[trigger] s.drop_last()[j].slug implies s.drop_last()[i].deleted by {
            assert(s[i].slug == s[j].slug);
        }
        lemma_occupant_live(s.drop_last(), slug);
        if s.last().slug == slug && s.last().deleted {
            // Every earlier record of this slug is a tombstone, so none is live.
            lemma_live_record_characterizes(s.drop_last(), slug);
            if let Some(m) = live_record(s.drop_last(), slug) {
                let k = choose|k: int|
                    0 <= k < s.drop_last().len() && s.drop_last()[k] == m;
                assert(s[k].slug == s[s.len() - 1].slug);
                assert(false);
            }
        }
    }
}

/// After tombstoning, no live record holds the slug.
pub proof fn lemma_mark_deleted_free(s: Seq<RecordModel>, slug: Seq<char>)
    ensures
        live_record(mark_deleted(s, slug), slug) is None,
{
    lemma_live_record_characterizes(mark_deleted(s, slug), slug);
    if let Some(m) = live_record(mark_deleted(s, slug), slug) {
        let k = choose|k: int|
            0 <= k < mark_deleted(s, slug).len() && mark_deleted(s, slug)[k] == m;
        assert(false);
    }
}

/// Tombstoning a slug nobody holds changes nothing.
pub proof fn lemma_mark_deleted_absent(s: Seq<RecordModel>, slug: Seq<char>)
    requires
        occupant_of(s, slug) is None,
    ensures
        mark_deleted(s, slug) == s,
{
    lemma_occupant_characterizes(s, slug);
    assert(mark_deleted(s, slug) =~= s);
}

/// In-memory datastore: a record log with the store invariant, plus a
/// monotone clock that stamps each insert with its creation time.
pub struct MemStore {
    records: Vec<SlugRecord>,
    clock: i64,
}

impl View for MemStore {
    type V = Seq<RecordModel>;

    closed spec fn view(&self) -> Seq<RecordModel> {
        self.records@.map_values(|r: SlugRecord| r@)
    }
}

/// The outcome the datastore port reports for an insert.
#[derive(Clone, Copy, PartialEq, Eq, Structural, Debug)]
pub enum InsertOutcome {
    /// The record was durably created.
    Inserted,
    /// A live record already holds the slug: the uniqueness constraint on
    /// live slugs rejected the insert and the store is unchanged.
    UniqueViolation,
}

impl MemStore {
    /// The store invariant.
    pub open spec fn wf(&self) -> bool {
        store_records_wf(self@)
    }

    /// The timestamp the next successful insert will carry.
    pub closed spec fn spec_clock(&self) -> int {
        self.clock as int
    }

    /// An empty store.
    pub fn new() -> (s: Self)
        ensures
            s@ == Seq::<RecordModel>::empty(),
            s.wf(),
            s.spec_clock() == 0,
    {
        let s = MemStore { records: Vec::new(), clock: 0 };
        proof {
            assert(s@ =~= Seq::<RecordModel>::empty());
        }
        s
    }

    /// Read-only access to the record log, latest record last.
    pub fn records(&self) -> (r: &Vec<SlugRecord>)
        ensures
            r@.len() == self@.len(),
            forall|i: int| 0 <= i < r@.len() ==> #[trigger] r@[i]@ == self@[i],
    {
        &self.records
    }

    /// Index of the live record of `slug`, scanning from the latest record.
    fn find_live_index(&self, slug: &String) -> (r: Option<usize>)
        ensures
            match live_record(self@, slug@) {
                Some(m) => r matches Some(i) && i < self@.len() && self@[i as int] == m,
                None => r is None,
            },
    {
        let mut i = self.records.len();
        proof {
            assert(self@.take(self@.len() as int) =~= self@);
        }
        while i > 0
            invariant
                i <= self.records.len(),
                self@.len() == self.records@.len(),
                live_record(self@, slug@) == live_record(self@.take(i as int), slug@),
            decreases i,
        {
            i = i - 1;
            proof {
                assert(self@.take(i + 1).drop_last() =~= self@.take(i as int));
                assert(self@.take(i + 1).last() == self@[i as int]);
            }
            let rec = &self.records[i];
            if rec.slug == *slug && !rec.deleted {
                return Some(i);
            }
        }
        proof {
            assert(self@.take(0) =~= Seq::<RecordModel>::empty());
        }
        None
    }

    /// Datastore port: look up the current record of a slug, tombstoned or
    /// not, and report its owner and tombstone flag.
    pub fn find_occupant(&self, slug: &String) -> (r: Option<Occupant>)
        ensures
            match occupant_of(self@, slug@) {
                Some(m) => r matches Some(o) && o.owner_id as int == m.owner_id && o.is_deleted
                    == m.deleted,
                None => r is None,
            },
    {
        let mut i = self.records.len();
        proof {
            assert(self@.take(self@.len() as int) =~= self@);
        }
        while i > 0
            invariant
                i <= self.records.len(),
                self@.len() == self.records@.len(),
                occupant_of(self@, slug@) == occupant_of(self@.take(i as int), slug@),
            decreases i,
        {
            i = i - 1;
            proof {
                assert(self@.take(i + 1).drop_last() =~= self@.take(i as int));
                assert(self@.take(i + 1).last() == self@[i as int]);
            }
            let rec = &self.records[i];
            if rec.slug == *slug {
                return Some(Occupant { owner_id: rec.owner_id, is_deleted: rec.deleted });
            }
        }
        proof {
            assert(self@.take(0) =~= Seq::<RecordModel>::empty());
        }
        None
    }

    /// Datastore port: tombstone the live record of a slug. The row is
    /// retained, never removed; evicting a slug with no live record
    /// succeeds as a no-op.
    pub fn evict(&mut self, slug: &String) -> (ok: bool)
        requires
            old(self).wf(),
        ensures
            ok,
            final(self)@ == mark_deleted(old(self)@, slug@),
            final(self).wf(),
            final(self).spec_clock() == old(self).spec_clock(),
    {
        match self.find_live_index(slug) {
            Some(i) => {
                proof {
                    lemma_live_record_characterizes(self@, slug@);
                    // The invariant makes the live record unique, so
                    // tombstoning this one index is the whole change.
                    assert forall|k: int|
                        0 <= k < self@.len() && k != i implies !(#[trigger] self@[k].slug == slug@
                        && !self@[k].deleted) by {
                        if self@[k].slug == slug@ && !self@[k].deleted {
                            if k < i as int {
                                assert(self@[k].slug == self@[i as int].slug);
                            } else {
                                assert(self@[i as int].slug == self@[k].slug);
                            }
                        }
                    }
                }
                let tomb = SlugRecord {
                    slug: self.records[i].slug.clone(),
                    destination: self.records[i].destination.clone(),
                    created: self.records[i].created,
                    expiry: self.records[i].expiry,
                    deleted: true,
                    owner_id: self.records[i].owner_id,
                };
                self.records[i] = tomb;
                proof {
                    assert(final(self)@ =~= mark_deleted(old(self)@, slug@));
                }
            },
            None => {
                proof {
                    lemma_live_record_characterizes(self@, slug@);
                    assert(self@ =~= mark_deleted(self@, slug@));
                }
            },
        }
        true
    }

    /// Datastore port: durably create a record. Fails with a uniqueness
    /// violation, leaving the store unchanged, exactly when a live record
    /// already holds the slug; otherwise appends the record live, stamped
    /// with the store's clock.
    pub fn insert(&mut self, slug: &String, destination: &String, expiry: Option<i64>, owner_id: i64)
        -> (r: InsertOutcome)
        requires
            old(self).wf(),
        ensures
            final(self).wf(),
            match live_record(old(self)@, slug@) {
                Some(_) => r == InsertOutcome::UniqueViolation && final(self)@ == old(self)@
                    && final(self).spec_clock() == old(self).spec_clock(),
                None => r == InsertOutcome::Inserted && final(self)@ == old(self)@.push(
                    RecordModel {
                        slug: slug@,
                        destination: destination@,
                        created: old(self).spec_clock(),
                        expiry: match expiry {
                            Some(t) => Some(t as int),
                            None => None,
                        },
                        deleted: false,
                        owner_id: owner_id as int,
                    },
                ) && final(self).spec_clock() == (if old(self).spec_clock() < i64::MAX {
                    old(self).spec_clock() + 1
                } else {
                    old(self).spec_clock()
                }),
            },
    {
        match self.find_live_index(slug) {
            Some(_) => InsertOutcome::UniqueViolation,
            None => {
                proof {
                    lemma_live_record_characterizes(self@, slug@);
                }
                let rec = SlugRecord {
                    slug: slug.clone(),
                    destination: destination.clone(),
                    created: self.clock,
                    expiry,
                    deleted: false,
                    owner_id,
                };
                self.records.push(rec);
                if self.clock < i64::MAX {
                    self.clock = self.clock + 1;
                }
                proof {
                    assert(final(self)@ =~= old(self)@.push(
                        RecordModel {
                            slug: slug@,
                            destination: destination@,
                            created: old(self).spec_clock(),
                            expiry: match expiry {
                                Some(t) => Some(t as int),
                                None => None,
                            },
                            deleted: false,
                            owner_id: owner_id as int,
                        },
                    ));
                    assert forall|i: int, j: int|
                        0 <= i < j < final(self)@.len() && #[trigger] final(self)@[i].slug
                            == #[trigger] final(self)@[j].slug implies final(self)@[i].deleted by {
                        if j < final(self)@.len() - 1 {
                            assert(old(self)@[i].slug == old(self)@[j].slug);
                        }
                    }
                }
                InsertOutcome::Inserted
            },
        }
    }

    /// Datastore port: the server-assigned creation timestamp of the live
    /// record holding a slug; used after a successful insert to report the
    /// stored creation time back to the caller.
    pub fn read_created(&self, slug: &String) -> (r: Option<i64>)
        ensures
            match live_record(self@, slug@) {
                Some(m) => r matches Some(t) && t as int == m.created,
                None => r is None,
            },
    {
        match self.find_live_index(slug) {
            Some(i) => Some(self.records[i].created),
            None => None,
        }
    }
}

} // verus!
