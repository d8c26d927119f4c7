//! The lock and artifact storage interface, and an in-memory backend.
//!
//! Per build target — a (container name, version) pair — the backend keeps an
//! exclusive advisory lock and the last committed record: the declared
//! fingerprint the build was keyed by, the fully resolved fingerprint it
//! produced, and a reference to the committed artifact. The trait contract
//! pins down mutual exclusion (a grant is possible only while nobody holds
//! the lock) and atomic commit (a commit either replaces the record wholly
//! or changes nothing — a reader never observes a mixture).
//!
//! `MemoryStore` is a verified in-memory backend; tests substitute it for a
//! filesystem-backed one without weakening either guarantee.

use vstd::prelude::*;

use crate::error::BuildError;
use crate::error::ErrorClass;
use crate::fingerprint::Fingerprint;
use crate::fingerprint::FingerprintModel;
use crate::fingerprint::ResolvedFingerprint;
use crate::fingerprint::ResolvedFingerprintModel;
use crate::fingerprint::copy_fingerprint;
use crate::fingerprint::copy_resolved_fingerprint;

verus! {

/// Identity of one build target: container name and version.
pub struct TargetKey {
    pub container: String,
    pub version: String,
}

impl View for TargetKey {
    type V = (Seq<char>, Seq<char>);

    open spec fn view(&self) -> (Seq<char>, Seq<char>) {
        (self.container@, self.version@)
    }
}

/// A copy of a target key whose model equals the original's.
pub fn copy_key(k: &TargetKey) -> (r: TargetKey)
    ensures
        r@ == k@,
{
    TargetKey { container: k.container.clone(), version: k.version.clone() }
}

/// Reference to a committed artifact: the path of its build root.
pub struct ArtifactRef {
    pub root: String,
}

impl View for ArtifactRef {
    type V = Seq<char>;

    open spec fn view(&self) -> Seq<char> {
        self.root@
    }
}

/// What a successful build commits for its target: the declared fingerprint
/// it was keyed by, the resolved fingerprint it produced, and the artifact.
pub struct CommittedRecord {
    pub declared: Fingerprint,
    pub resolved: ResolvedFingerprint,
    pub artifact: ArtifactRef,
}

/// Mathematical model of a committed record.
#[verifier::ext_equal]
pub struct CommittedRecordModel {
    pub declared: FingerprintModel,
    pub resolved: ResolvedFingerprintModel,
    pub artifact: Seq<char>,
}

impl View for CommittedRecord {
    type V = CommittedRecordModel;

    open spec fn view(&self) -> CommittedRecordModel {
        CommittedRecordModel {
            declared: self.declared@,
            resolved: self.resolved@,
            artifact: self.artifact@,
        }
    }
}

/// A copy of a committed record whose model equals the original's.
pub fn copy_record(a: &CommittedRecord) -> (r: CommittedRecord)
    ensures
        r@ == a@,
{
    let r = CommittedRecord {
        declared: copy_fingerprint(&a.declared),
        resolved: copy_resolved_fingerprint(&a.resolved),
        artifact: ArtifactRef { root: a.artifact.root.clone() },
    };
    proof {
        assert(r@ =~= a@);
    }
    r
}

/// Witness that a build holds the exclusive lock of one target.
pub struct LockHandle {
    pub key: TargetKey,
}

impl View for LockHandle {
    type V = (Seq<char>, Seq<char>);

    open spec fn view(&self) -> (Seq<char>, Seq<char>) {
        self.key@
    }
}

/// An acquire can be granted only while nobody holds the target's lock.
pub open spec fn acquire_grants(held: Set<(Seq<char>, Seq<char>)>, k: (Seq<char>, Seq<char>)) -> bool {
    !held.contains(k)
}

/// Lock and artifact storage, keyed by build target.
///
/// `locked()` is the set of targets whose lock is currently held;
/// `committed()` maps each target to its last committed record.
pub trait LockStore: Sized {
    /// Targets whose exclusive lock is currently held.
    spec fn locked(&self) -> Set<(Seq<char>, Seq<char>)>;

    /// Last committed record of each target that has one.
    spec fn committed(&self) -> Map<(Seq<char>, Seq<char>), CommittedRecordModel>;

    /// The backend's internal well-formedness.
    spec fn wf(&self) -> bool;

    /// Acquires the target's exclusive lock: granted exactly when nobody
    /// holds it, else refused with the lock set unchanged. Never touches
    /// committed records.
    fn acquire(&mut self, key: &TargetKey) -> (r: Option<LockHandle>)
        requires
            old(self).wf(),
        ensures
            final(self).wf(),
            final(self).committed() == old(self).committed(),
            match r {
                Some(h) => acquire_grants(old(self).locked(), key@) && h@ == key@
                    && final(self).locked() == old(self).locked().insert(key@),
                None => !acquire_grants(old(self).locked(), key@)
                    && final(self).locked() == old(self).locked(),
            },
    ;

    /// Releases a held lock. Never touches committed records.
    fn release(&mut self, h: LockHandle)
        requires
            old(self).wf(),
            old(self).locked().contains(h@),
        ensures
            final(self).wf(),
            final(self).committed() == old(self).committed(),
            final(self).locked() == old(self).locked().remove(h@),
    ;

    /// Reads the target's last committed record, if one exists.
    fn read_committed(&self, key: &TargetKey) -> (r: Option<CommittedRecord>)
        requires
            self.wf(),
        ensures
            match r {
                Some(rec) => self.committed().contains_key(key@) && rec@ == self.committed()[
                    key@
                ],
                None => !self.committed().contains_key(key@),
            },
    ;

    /// Atomically replaces the locked target's committed record. Either the
    /// whole new record is committed, or — on a storage failure — nothing
    /// changed; there is no third outcome a reader could observe.
    fn commit(&mut self, h: &LockHandle, rec: CommittedRecord) -> (r: Result<(), BuildError>)
        requires
            old(self).wf(),
            old(self).locked().contains(h@),
        ensures
            final(self).wf(),
            final(self).locked() == old(self).locked(),
            match r {
                Ok(()) => final(self).committed() == old(self).committed().insert(h@, rec@),
                Err(e) => final(self).committed() == old(self).committed() && e.class
                    == ErrorClass::Transient,
            },
    ;
}

/// Law: mutual exclusion. While some build holds a target's lock, no second
/// acquire of that target can be granted; with `acquire`'s contract, the
/// second caller observes contention or waits — never a concurrent grant.
pub proof fn lemma_mutual_exclusion(
    held: Set<(Seq<char>, Seq<char>)>,
    k: (Seq<char>, Seq<char>),
)
    requires
        held.contains(k),
    ensures
        !acquire_grants(held, k),
{
}

/// Law: atomic commit. A commit transition either installs the whole new
/// record or leaves the map unchanged, so an observer of the target sees the
/// old record or the new one — never a mixture — and no other target moves.
pub proof fn lemma_atomic_commit(
    pre: Map<(Seq<char>, Seq<char>), CommittedRecordModel>,
    post: Map<(Seq<char>, Seq<char>), CommittedRecordModel>,
    k: (Seq<char>, Seq<char>),
    rec: CommittedRecordModel,
)
    requires
        post == pre.insert(k, rec) || post == pre,
    ensures
        post.contains_key(k) ==> post[k] == rec || (pre.contains_key(k) && post[k] == pre[k]),
        forall|k2: (Seq<char>, Seq<char>)|
            k2 != k && pre.contains_key(k2) ==> post.contains_key(k2) && post[k2] == pre[k2],
        forall|k2: (Seq<char>, Seq<char>)| k2 != k && !pre.contains_key(k2) ==> !post.contains_key(
            k2,
        ),
{
}

/// Set of target keys a lock list holds.
pub closed spec fn lock_set(s: Seq<TargetKey>) -> Set<(Seq<char>, Seq<char>)>
    decreases s.len(),
{
    if s.len() == 0 {
        Set::empty()
    } else {
        lock_set(s.drop_last()).insert(s.last()@)
    }
}

/// No two entries of a lock list name the same target.
pub open spec fn keys_distinct(s: Seq<TargetKey>) -> bool {
    forall|i: int, j: int| 0 <= i < j < s.len() ==> s[i]@ != s[j]@
}

proof fn lemma_lock_set_contains(s: Seq<TargetKey>, k: (Seq<char>, Seq<char>))
    ensures
        lock_set(s).contains(k) <==> exists|i: int| 0 <= i < s.len() && s[i]@ == k,
    decreases s.len(),
{
    if s.len() > 0 {
        lemma_lock_set_contains(s.drop_last(), k);
        if s.last()@ == k {
            assert(s[s.len() - 1]@ == k);
        } else {
            if lock_set(s).contains(k) {
                let i = choose|i: int| 0 <= i < s.drop_last().len() && s.drop_last()[i]@ == k;
                assert(s[i]@ == k);
            }
            if exists|i: int| 0 <= i < s.len() && s[i]@ == k {
                let i = choose|i: int| 0 <= i < s.len() && s[i]@ == k;
                assert(i < s.len() - 1);
                assert(s.drop_last()[i]@ == k);
            }
        }
    }
}

proof fn lemma_lock_set_push(s: Seq<TargetKey>, t: TargetKey)
    ensures
        lock_set(s.push(t)) == lock_set(s).insert(t@),
{
    assert(s.push(t).drop_last() =~= s);
    assert(s.push(t).last() == t);
}

proof fn lemma_lock_set_remove(s: Seq<TargetKey>, i: int)
    requires
        0 <= i < s.len(),
        keys_distinct(s),
    ensures
        lock_set(s.remove(i)) == lock_set(s).remove(s[i]@),
    decreases s.len(),
{
    if i == s.len() - 1 {
        assert(s.remove(i) =~= s.drop_last());
        lemma_lock_set_contains(s.drop_last(), s[i]@);
        assert(!lock_set(s.drop_last()).contains(s[i]@));
        assert(lock_set(s.drop_last()) =~= lock_set(s.drop_last()).insert(s.last()@).remove(
            s[i]@,
        ));
    } else {
        let shorter = s.drop_last();
        assert(keys_distinct(shorter));
        lemma_lock_set_remove(shorter, i);
        assert(s.remove(i) =~= shorter.remove(i).push(s.last()));
        lemma_lock_set_push(shorter.remove(i), s.last());
        assert(lock_set(s.remove(i)) == lock_set(shorter).remove(s[i]@).insert(s.last()@));
        assert(s.last()@ != s[i]@);
        assert(lock_set(shorter).remove(s[i]@).insert(s.last()@) =~= lock_set(shorter).insert(
            s.last()@,
        ).remove(s[i]@));
    }
}

/// Map from target keys to committed records a record list holds; a later
/// entry for the same target overrides an earlier one.
pub closed spec fn record_map(s: Seq<(TargetKey, CommittedRecord)>) -> Map<
    (Seq<char>, Seq<char>),
    CommittedRecordModel,
>
    decreases s.len(),
{
    if s.len() == 0 {
        Map::empty()
    } else {
        record_map(s.drop_last()).insert(s.last().0@, s.last().1@)
    }
}

/// Verified in-memory lock and artifact storage: the locks currently held
/// and, per target, the record committed last.
pub struct MemoryStore {
    pub locks: Vec<TargetKey>,
    pub records: Vec<(TargetKey, CommittedRecord)>,
}

impl MemoryStore {
    /// An empty store: no lock held, nothing committed.
    pub fn new() -> (s: MemoryStore)
        ensures
            s.wf(),
            s.locked() == Set::<(Seq<char>, Seq<char>)>::empty(),
            s.committed() == Map::<(Seq<char>, Seq<char>), CommittedRecordModel>::empty(),
    {
        let s = MemoryStore { locks: Vec::new(), records: Vec::new() };
        proof {
            assert(s.locks@.len() == 0);
            assert(s.records@.len() == 0);
        }
        s
    }
}

impl LockStore for MemoryStore {
    closed spec fn locked(&self) -> Set<(Seq<char>, Seq<char>)> {
        lock_set(self.locks@)
    }

    closed spec fn committed(&self) -> Map<(Seq<char>, Seq<char>), CommittedRecordModel> {
        record_map(self.records@)
    }

    closed spec fn wf(&self) -> bool {
        keys_distinct(self.locks@)
    }

    fn acquire(&mut self, key: &TargetKey) -> (r: Option<LockHandle>) {
        let n = self.locks.len();
        let mut i: usize = 0;
        #[verifier::loop_isolation(false)]
        while i < n
            invariant
                0 <= i <= n,
                forall|j: int| 0 <= j < i ==> self.locks@[j]@ != key@,
            decreases n - i,
        {
            if self.locks[i].container == key.container && self.locks[i].version == key.version {
                proof {
                    lemma_lock_set_contains(self.locks@, key@);
                }
                return None;
            }
            i += 1;
        }
        let stored = copy_key(key);
        let ghost prev = self.locks@;
        proof {
            lemma_lock_set_contains(prev, key@);
            assert(!lock_set(prev).contains(key@));
            lemma_lock_set_push(prev, stored);
        }
        self.locks.push(stored);
        proof {
            assert forall|a: int, b: int|
                0 <= a < b < self.locks@.len() implies self.locks@[a]@ != self.locks@[b]@ by {
                if b == self.locks@.len() - 1 {
                    assert(self.locks@[a] == prev[a]);
                    assert(self.locks@[b] == stored);
                } else {
                    assert(self.locks@[a] == prev[a]);
                    assert(self.locks@[b] == prev[b]);
                }
            }
        }
        Some(LockHandle { key: copy_key(key) })
    }

    fn release(&mut self, h: LockHandle) {
        let n = self.locks.len();
        let mut i: usize = 0;
        #[verifier::loop_isolation(false)]
        while i < n
            invariant
                0 <= i <= n,
                n == self.locks.len(),
                self.locks@ == old(self).locks@,
                self.records@ == old(self).records@,
                forall|j: int| 0 <= j < i ==> self.locks@[j]@ != h@,
            decreases n - i,
        {
            if self.locks[i].container == h.key.container && self.locks[i].version
                == h.key.version {
                let ghost prev = self.locks@;
                proof {
                    lemma_lock_set_remove(prev, i as int);
                }
                self.locks.remove(i);
                proof {
                    assert(self.locks@ == prev.remove(i as int));
                    assert forall|a: int, b: int|
                        0 <= a < b < self.locks@.len() implies self.locks@[a]@
                        != self.locks@[b]@ by {
                        let la: int = if a < i { a } else { a + 1 };
                        let lb: int = if b < i { b } else { b + 1 };
                        assert(self.locks@[a] == prev[la]);
                        assert(self.locks@[b] == prev[lb]);
                    }
                }
                return ;
            }
            i += 1;
        }
        proof {
            lemma_lock_set_contains(self.locks@, h@);
        }
    }

    fn read_committed(&self, key: &TargetKey) -> (r: Option<CommittedRecord>) {
        let n = self.records.len();
        proof {
            assert(self.records@.subrange(0, n as int) =~= self.records@);
        }
        let mut i: usize = n;
        #[verifier::loop_isolation(false)]
        while i > 0
            invariant
                0 <= i <= n,
                record_map(self.records@.subrange(0, i as int)).contains_key(key@)
                    == record_map(self.records@).contains_key(key@),
                record_map(self.records@.subrange(0, i as int)).contains_key(key@)
                    ==> record_map(self.records@.subrange(0, i as int))[key@] == record_map(
                    self.records@,
                )[key@],
            decreases i,
        {
            let ghost pre = self.records@.subrange(0, i as int);
            proof {
                assert(pre.drop_last() =~= self.records@.subrange(0, i as int - 1));
            }
            i -= 1;
            if self.records[i].0.container == key.container && self.records[i].0.version
                == key.version {
                proof {
                    assert(pre.last() == self.records@[i as int]);
                    assert(record_map(pre).contains_key(key@));
                    assert(record_map(pre)[key@] == self.records@[i as int].1@);
                }
                return Some(copy_record(&self.records[i].1));
            }
            proof {
                assert(pre.last().0@ != key@);
            }
        }
        proof {
            assert(self.records@.subrange(0, 0).len() == 0);
        }
        None
    }

    fn commit(&mut self, h: &LockHandle, rec: CommittedRecord) -> (r: Result<(), BuildError>) {
        let ghost pre = self.records@;
        self.records.push((copy_key(&h.key), rec));
        proof {
            assert(self.records@.drop_last() =~= pre);
        }
        Ok(())
    }
}

} // verus!
