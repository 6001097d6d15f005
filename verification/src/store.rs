//! The generic resource store: a synchronized, typed collection mapping keys
//! to records of one resource kind, ordered by revision.
//!
//! The store is generic over the metadata capability a backing coordinator
//! must supply: a stable identity and a monotonically advancing revision
//! marker. Updates are applied only when not older than what is stored;
//! stale updates are dropped silently. A read hands out the whole current
//! contents, so a reader sees one snapshot, never a mixture. Waking
//! reconciliation loops on change is the surrounding runtime's concern: the
//! boolean returned by `apply_update` says whether anything changed.

use vstd::prelude::*;

verus! {

/// The capability a backing coordinator's metadata must provide for any
/// stored object: a stable identity and a revision marker comparable for
/// staleness detection.
pub trait MetadataItem: Sized {
    /// The coordinator-assigned identity, immutable for the object's
    /// lifetime.
    spec fn spec_uid(&self) -> int;

    /// The monotonically advancing revision marker.
    spec fn spec_revision(&self) -> int;

    /// Whether this metadata's revision is at least as new as `other`'s.
    fn not_older_than(&self, other: &Self) -> (r: bool)
        ensures
            r == (self.spec_revision() >= other.spec_revision()),
    ;
}

/// A plain in-memory coordinator metadata: an identity and a revision
/// counter.
#[derive(Debug, Clone, Copy, PartialEq, Eq, Structural)]
pub struct SimpleMetaItem {
    pub uid: u64,
    pub revision: u64,
}

impl MetadataItem for SimpleMetaItem {
    open spec fn spec_uid(&self) -> int {
        self.uid as int
    }

    open spec fn spec_revision(&self) -> int {
        self.revision as int
    }

    fn not_older_than(&self, other: &Self) -> (r: bool) {
        self.revision >= other.revision
    }
}

/// One stored object of one resource kind: the key, the resource-specific
/// spec (opaque to the store), an optional status, and the coordinator
/// metadata.
#[derive(Debug)]
pub struct Record<S, C> {
    pub key: String,
    pub spec: S,
    pub status: Option<String>,
    pub meta: C,
}

/// Keys are unique within one store.
pub open spec fn wf_entries<S, C>(s: Seq<Record<S, C>>) -> bool {
    forall|i: int, j: int| 0 <= i < j < s.len() ==> s[i].key@ != s[j].key@
}

/// Whether some entry carries the key.
pub open spec fn contains_key<S, C>(s: Seq<Record<S, C>>, key: Seq<char>) -> bool {
    exists|i: int| 0 <= i < s.len() && s[i].key@ == key
}

/// The position of the entry carrying the key; meaningful when the key is
/// contained and the entries are well formed.
pub open spec fn index_of_key<S, C>(s: Seq<Record<S, C>>, key: Seq<char>) -> int {
    choose|i: int| 0 <= i < s.len() && s[i].key@ == key
}

/// What applying one record does to a store's contents: a fresh key is
/// appended; a known key is replaced when the incoming revision is not older
/// than the stored one; a stale record changes nothing.
pub open spec fn spec_apply<S, C: MetadataItem>(s: Seq<Record<S, C>>, rec: Record<S, C>) -> Seq<
    Record<S, C>,
> {
    if !contains_key(s, rec.key@) {
        s.push(rec)
    } else {
        let i = index_of_key(s, rec.key@);
        if rec.meta.spec_revision() >= s[i].meta.spec_revision() {
            s.update(i, rec)
        } else {
            s
        }
    }
}

/// Whether applying `rec` changes the contents.
pub open spec fn spec_applies<S, C: MetadataItem>(s: Seq<Record<S, C>>, rec: Record<S, C>) -> bool {
    !contains_key(s, rec.key@) || rec.meta.spec_revision() >= s[
        index_of_key(s, rec.key@)
    ].meta.spec_revision()
}

/// A synchronized, typed collection of records of one resource kind, built
/// generically over the metadata capability.
#[derive(Debug)]
pub struct StoreContext<S, C: MetadataItem> {
    pub entries: Vec<Record<S, C>>,
}

impl<S, C: MetadataItem> StoreContext<S, C> {
    /// The current contents, as seen by specifications.
    pub open spec fn spec_entries(&self) -> Seq<Record<S, C>> {
        self.entries@
    }

    /// Well-formedness: keys are unique. Construction establishes it and
    /// every update preserves it.
    pub open spec fn wf(&self) -> bool {
        wf_entries(self.entries@)
    }

    /// Builds an empty store.
    pub fn new() -> (r: StoreContext<S, C>)
        ensures
            r.spec_entries() == Seq::<Record<S, C>>::empty(),
            r.wf(),
    {
        StoreContext { entries: Vec::new() }
    }

    /// Point lookup: the record stored under `key`, if any.
    pub fn get(&self, key: &str) -> (r: Option<&Record<S, C>>)
        requires
            self.wf(),
        ensures
            match r {
                Some(rec) => contains_key(self.spec_entries(), key@) && rec.key@ == key@ && *rec
                    == self.spec_entries()[index_of_key(self.spec_entries(), key@)],
                None => !contains_key(self.spec_entries(), key@),
            },
    {
        let n: usize = self.entries.len();
        let mut i: usize = 0;
        while i < n
            invariant
                self.wf(),
                n == self.entries@.len(),
                i <= n,
                forall|j: int| 0 <= j < i ==> self.entries@[j].key@ != key@,
            decreases n - i,
        {
            if str_eq(self.entries[i].key.as_str(), key) {
                return Some(&self.entries[i]);
            }
            i = i + 1;
        }
        None
    }

    /// Full snapshot: the whole current contents, consistent at a single
    /// instant.
    pub fn list(&self) -> (r: &Vec<Record<S, C>>)
        ensures
            r@ == self.spec_entries(),
    {
        &self.entries
    }

    /// The number of records stored.
    pub fn count(&self) -> (r: usize)
        ensures
            r == self.spec_entries().len(),
    {
        self.entries.len()
    }

    /// Inserts or replaces the record if its revision is not older than the
    /// stored one; a stale record is dropped silently. Returns whether the
    /// contents changed; the surrounding runtime wakes change listeners when
    /// they did.
    pub fn apply_update(&mut self, rec: Record<S, C>) -> (applied: bool)
        requires
            old(self).wf(),
        ensures
            final(self).spec_entries() == spec_apply(old(self).spec_entries(), rec),
            applied == spec_applies(old(self).spec_entries(), rec),
            final(self).wf(),
    {
        let ghost s0: Seq<Record<S, C>> = self.entries@;
        let ghost grec: Record<S, C> = rec;
        proof {
            assert(s0 == old(self).spec_entries());
        }
        let n: usize = self.entries.len();
        let mut i: usize = 0;
        while i < n
            invariant
                wf_entries(s0),
                s0 == old(self).spec_entries(),
                grec == rec,
                s0 == self.entries@,
                n == self.entries@.len(),
                i <= n,
                forall|j: int| 0 <= j < i ==> self.entries@[j].key@ != rec.key@,
            decreases n - i,
        {
            if str_eq(self.entries[i].key.as_str(), rec.key.as_str()) {
                proof {
                    assert(s0[i as int].key@ == rec.key@);
                    assert(contains_key(s0, rec.key@));
                    let k = index_of_key(s0, rec.key@);
                    assert(0 <= k < s0.len() && s0[k].key@ == rec.key@);
                    if k < i as int {
                        assert(s0[k].key@ != s0[i as int].key@);
                    } else if (i as int) < k {
                        assert(s0[i as int].key@ != s0[k].key@);
                    }
                    assert(k == i as int);
                }
                if rec.meta.not_older_than(&self.entries[i].meta) {
                    proof {
                        assert(grec.meta.spec_revision() >= s0[i as int].meta.spec_revision());
                    }
                    self.entries.remove(i);
                    self.entries.insert(i, rec);
                    proof {
                        assert(self.entries@ =~= s0.update(i as int, grec));
                        assert(contains_key(s0, grec.key@));
                        assert(index_of_key(s0, grec.key@) == i as int);
                        assert(spec_apply(s0, grec) == s0.update(i as int, grec));
                        assert(self.entries@ == spec_apply(s0, grec));
                        assert(spec_applies(s0, grec));
                        assert(wf_entries(self.entries@)) by {
                            assert forall|a: int, b: int|
                                0 <= a < b < self.entries@.len() implies self.entries@[a].key@
                                != self.entries@[b].key@ by {
                                assert(s0[a].key@ != s0[b].key@);
                            }
                        }
                    }
                    return true;
                } else {
                    return false;
                }
            }
            i = i + 1;
        }
        proof {
            assert(!contains_key(s0, rec.key@));
        }
        self.entries.push(rec);
        proof {
            assert(self.entries@ =~= s0.push(rec));
            assert(wf_entries(self.entries@)) by {
                assert forall|a: int, b: int|
                    0 <= a < b < self.entries@.len() implies self.entries@[a].key@
                    != self.entries@[b].key@ by {
                    if b < s0.len() {
                        assert(s0[a].key@ != s0[b].key@);
                    } else {
                        assert(self.entries@[b] == rec);
                        assert(s0[a].key@ != rec.key@);
                    }
                }
            }
        }
        true
    }
}

/// Character-wise string equality, proved against the views.
pub fn str_eq(a: &str, b: &str) -> (r: bool)
    ensures
        r == (a@ == b@),
{
    let na: usize = a.unicode_len();
    let nb: usize = b.unicode_len();
    if na != nb {
        assert(a@ != b@) by {
            assert(a@.len() != b@.len());
        }
        return false;
    }
    let mut i: usize = 0;
    while i < na
        invariant
            na == a@.len(),
            nb == b@.len(),
            na == nb,
            i <= na,
            forall|j: int| 0 <= j < i ==> a@[j] == b@[j],
        decreases na - i,
    {
        if a.get_char(i) != b.get_char(i) {
            return false;
        }
        i = i + 1;
    }
    proof {
        assert(a@ =~= b@);
    }
    true
}

/// A snapshot taken after an update that applied includes that update: the
/// new contents carry the record under its key. Interleaved readers see
/// either the old contents or the new ones, never a mixture, because a read
/// hands out one of the two whole sequences.
pub proof fn lemma_apply_update_visible<S, C: MetadataItem>(s: Seq<Record<S, C>>, rec: Record<S, C>)
    requires
        wf_entries(s),
        spec_applies(s, rec),
    ensures
        contains_key(spec_apply(s, rec), rec.key@),
        spec_apply(s, rec)[index_of_key(spec_apply(s, rec), rec.key@)] == rec,
{
    let s2 = spec_apply(s, rec);
    if !contains_key(s, rec.key@) {
        assert(s2[s.len() as int].key@ == rec.key@);
        assert(contains_key(s2, rec.key@));
        let k = index_of_key(s2, rec.key@);
        assert(0 <= k < s2.len() && s2[k].key@ == rec.key@);
        if k < s.len() {
            assert(s[k].key@ == rec.key@);
            assert(false);
        }
    } else {
        let i = index_of_key(s, rec.key@);
        assert(0 <= i < s.len() && s[i].key@ == rec.key@);
        assert(s2 == s.update(i, rec));
        assert(s2[i].key@ == rec.key@);
        assert(contains_key(s2, rec.key@));
        let k = index_of_key(s2, rec.key@);
        assert(0 <= k < s2.len() && s2[k].key@ == rec.key@);
        if k != i {
            assert(s2[k] == s[k]);
            assert(s[k].key@ == s[i].key@);
            assert(false);
        }
    }
}

/// Out-of-order updates are idempotent: after a record at revision `n` is
/// applied, applying a record with an older revision under the same key
/// changes nothing, and the store still carries the revision-`n` record.
pub proof fn lemma_stale_update_dropped<S, C: MetadataItem>(
    s: Seq<Record<S, C>>,
    newer: Record<S, C>,
    older: Record<S, C>,
)
    requires
        wf_entries(s),
        spec_applies(s, newer),
        newer.key@ == older.key@,
        older.meta.spec_revision() < newer.meta.spec_revision(),
    ensures
        spec_apply(spec_apply(s, newer), older) == spec_apply(s, newer),
{
    let s2 = spec_apply(s, newer);
    lemma_apply_update_visible(s, newer);
    let k = index_of_key(s2, older.key@);
    assert(s2[index_of_key(s2, newer.key@)] == newer);
    assert(0 <= k < s2.len() && s2[k].key@ == older.key@);
    assert(k == index_of_key(s2, newer.key@)) by {
        if !contains_key(s, newer.key@) {
        } else {
        }
    }
    assert(!spec_applies(s2, older));
}


/// Health tracker: per storage/processing unit liveness, shared by the
/// controller context with every connection task.
#[derive(Debug)]
pub struct HealthCheck {
    pub entries: Vec<(u64, bool)>,
}

/// Whether some liveness entry carries the unit's identity.
pub open spec fn health_contains(s: Seq<(u64, bool)>, uid: u64) -> bool {
    exists|i: int| 0 <= i < s.len() && s[i].0 == uid
}

/// The position of the unit's liveness entry; meaningful when present and
/// the entries are well formed.
pub open spec fn health_index_of(s: Seq<(u64, bool)>, uid: u64) -> int {
    choose|i: int| 0 <= i < s.len() && s[i].0 == uid
}

impl HealthCheck {
    /// The current liveness entries, as seen by specifications.
    pub open spec fn spec_entries(&self) -> Seq<(u64, bool)> {
        self.entries@
    }

    /// Well-formedness: one entry per unit.
    pub open spec fn wf(&self) -> bool {
        forall|i: int, j: int|
            0 <= i < j < self.entries@.len() ==> self.entries@[i].0 != self.entries@[j].0
    }

    /// Builds an empty tracker.
    pub fn new() -> (r: HealthCheck)
        ensures
            r.spec_entries() == Seq::<(u64, bool)>::empty(),
            r.wf(),
    {
        HealthCheck { entries: Vec::new() }
    }

    /// Builds an empty tracker behind a shared handle.
    pub fn shared() -> (r: std::sync::Arc<HealthCheck>)
        ensures
            r.spec_entries() == Seq::<(u64, bool)>::empty(),
            r.wf(),
    {
        std::sync::Arc::new(HealthCheck::new())
    }

    /// The unit's recorded liveness, if any was reported.
    pub fn status(&self, uid: u64) -> (r: Option<bool>)
        requires
            self.wf(),
        ensures
            match r {
                Some(ok) => health_contains(self.spec_entries(), uid) && ok == self.spec_entries()[
                    health_index_of(self.spec_entries(), uid)
                ].1,
                None => !health_contains(self.spec_entries(), uid),
            },
    {
        let n: usize = self.entries.len();
        let mut i: usize = 0;
        while i < n
            invariant
                self.wf(),
                n == self.entries@.len(),
                i <= n,
                forall|j: int| 0 <= j < i ==> self.entries@[j].0 != uid,
            decreases n - i,
        {
            if self.entries[i].0 == uid {
                proof {
                    let k = health_index_of(self.entries@, uid);
                    assert(0 <= k < self.entries@.len() && self.entries@[k].0 == uid);
                }
                return Some(self.entries[i].1);
            }
            i = i + 1;
        }
        None
    }

    /// Records the unit's liveness, replacing what was recorded before.
    pub fn update(&mut self, uid: u64, ok: bool)
        requires
            old(self).wf(),
        ensures
            final(self).wf(),
            health_contains(final(self).spec_entries(), uid),
            final(self).spec_entries()[health_index_of(final(self).spec_entries(), uid)].1 == ok,
            final(self).spec_entries().len() == if health_contains(old(self).spec_entries(), uid) {
                old(self).spec_entries().len()
            } else {
                old(self).spec_entries().len() + 1
            },
            forall|i: int|
                0 <= i < old(self).spec_entries().len() && old(self).spec_entries()[i].0 != uid
                    ==> final(self).spec_entries().contains(#[trigger] old(self).spec_entries()[i]),
    {
        let ghost s0: Seq<(u64, bool)> = self.entries@;
        proof {
            assert(s0 == old(self).spec_entries());
        }
        let n: usize = self.entries.len();
        let mut i: usize = 0;
        while i < n
            invariant
                s0 == self.entries@,
                s0 == old(self).spec_entries(),
                forall|a: int, b: int| 0 <= a < b < s0.len() ==> s0[a].0 != s0[b].0,
                n == self.entries@.len(),
                i <= n,
                forall|j: int| 0 <= j < i ==> self.entries@[j].0 != uid,
            decreases n - i,
        {
            if self.entries[i].0 == uid {
                proof {
                    assert(s0[i as int].0 == uid);
                    assert(health_contains(s0, uid));
                }
                self.entries.remove(i);
                self.entries.insert(i, (uid, ok));
                proof {
                    assert(self.entries@ =~= s0.update(i as int, (uid, ok)));
                    assert forall|x: int| 0 <= x < s0.len() implies #[trigger] self.entries@[x].0
                        == s0[x].0 by {}
                    assert(self.entries@[i as int].0 == uid);
                    assert(health_contains(self.entries@, uid));
                    let k = health_index_of(self.entries@, uid);
                    assert(0 <= k < self.entries@.len() && self.entries@[k].0 == uid);
                    if k < i as int {
                        assert(s0[k].0 != s0[i as int].0);
                    } else if (i as int) < k {
                        assert(s0[i as int].0 != s0[k].0);
                    }
                    assert(k == i as int);
                    assert forall|a: int|
                        0 <= a < s0.len() && s0[a].0 != uid implies self.entries@.contains(
                        #[trigger] s0[a],
                    ) by {
                        assert(self.entries@[a] == s0[a]);
                    }
                }
                return ;
            }
            i = i + 1;
        }
        proof {
            assert(!health_contains(s0, uid));
        }
        self.entries.push((uid, ok));
        proof {
            assert(self.entries@ =~= s0.push((uid, ok)));
            assert(self.entries@[s0.len() as int].0 == uid);
            assert(health_contains(self.entries@, uid));
            let k = health_index_of(self.entries@, uid);
            assert(0 <= k < self.entries@.len() && self.entries@[k].0 == uid);
            if k < s0.len() {
                assert(s0[k].0 == uid);
                assert(false);
            }
            assert(k == s0.len() as int);
            assert forall|a: int, b: int|
                0 <= a < b < self.entries@.len() implies self.entries@[a].0
                != self.entries@[b].0 by {
                if b < s0.len() {
                    assert(s0[a].0 != s0[b].0);
                } else {
                    assert(self.entries@[b].0 == uid);
                    assert(s0[a].0 != uid);
                }
            }
            assert forall|a: int|
                0 <= a < s0.len() && s0[a].0 != uid implies self.entries@.contains(
                #[trigger] s0[a],
            ) by {
                assert(self.entries@[a] == s0[a]);
            }
        }
    }
}

} // verus!
