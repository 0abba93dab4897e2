//! The scheduler: a per-key delay queue that coalesces multiple requeues
//! into a single earliest-due firing.
//!
//! Instants and durations are carried as milliseconds on a monotonic
//! clock.

use vstd::prelude::*;

use crate::object_ref::{ObjectRef, RefView};

verus! {

/// A request to emit `message` once `run_at` has been reached.
#[derive(Clone, Debug)]
pub struct ScheduleRequest {
    /// The key to emit.
    pub message: ObjectRef,
    /// The instant at which it becomes due, in milliseconds.
    pub run_at: u64,
}

/// What one accepted request does to the pending map: while a key is
/// pending, further requests only pull its due time earlier and keep its
/// insertion rank; a key not pending starts a fresh entry with the next
/// rank.
pub open spec fn enqueue_spec(
    m: Map<RefView, (u64, u64)>,
    k: RefView,
    run_at: u64,
    fresh_rank: u64,
) -> Map<RefView, (u64, u64)> {
    if m.contains_key(k) {
        if run_at < m[k].0 {
            m.insert(k, (run_at, m[k].1))
        } else {
            m
        }
    } else {
        m.insert(k, (run_at, fresh_rank))
    }
}

/// The pending entries as a sequence-backed map.
pub open spec fn sched_map(s: Seq<(ObjectRef, u64, u64)>) -> Map<RefView, (u64, u64)>
    decreases s.len(),
{
    if s.len() == 0 {
        Map::empty()
    } else {
        sched_map(s.drop_last()).insert(s.last().0@, (s.last().1, s.last().2))
    }
}

/// No two pending entries carry the same key.
pub open spec fn sched_unique(s: Seq<(ObjectRef, u64, u64)>) -> bool {
    forall|i: int, j: int|
        0 <= i < j < s.len() ==> (#[trigger] s[i]).0@ != (#[trigger] s[j]).0@
}

proof fn lemma_sched_map_contains(s: Seq<(ObjectRef, u64, u64)>, k: RefView)
    ensures
        sched_map(s).contains_key(k) <==> exists|i: int|
            0 <= i < s.len() && (#[trigger] s[i]).0@ == k,
    decreases s.len(),
{
    if s.len() > 0 {
        lemma_sched_map_contains(s.drop_last(), k);
        if s.last().0@ == k {
            assert(s[s.len() - 1].0@ == k);
        } else {
            if exists|i: int| 0 <= i < s.len() && (#[trigger] s[i]).0@ == k {
                let i = choose|i: int| 0 <= i < s.len() && (#[trigger] s[i]).0@ == k;
                if i < s.len() - 1 {
                    assert(s.drop_last()[i].0@ == k);
                }
            }
            if sched_map(s.drop_last()).contains_key(k) {
                let i = choose|i: int|
                    0 <= i < s.drop_last().len() && (#[trigger] s.drop_last()[i]).0@ == k;
                assert(s[i].0@ == k);
            }
        }
    }
}

proof fn lemma_sched_map_value(s: Seq<(ObjectRef, u64, u64)>, i: int)
    requires
        sched_unique(s),
        0 <= i < s.len(),
    ensures
        sched_map(s).contains_key(s[i].0@),
        sched_map(s)[s[i].0@] == (s[i].1, s[i].2),
    decreases s.len(),
{
    if i == s.len() - 1 {
    } else {
        assert(sched_unique(s.drop_last())) by {
            assert(forall|x: int, y: int|
                0 <= x < y < s.drop_last().len() ==> (#[trigger] s.drop_last()[x]).0@ != (
                #[trigger] s.drop_last()[y]).0@);
        }
        assert(s.drop_last()[i] == s[i]);
        lemma_sched_map_value(s.drop_last(), i);
        assert(s[i].0@ != s.last().0@);
    }
}

proof fn lemma_sched_map_remove(s: Seq<(ObjectRef, u64, u64)>, i: int)
    requires
        sched_unique(s),
        0 <= i < s.len(),
    ensures
        sched_map(s.remove(i)) =~= sched_map(s).remove(s[i].0@),
    decreases s.len(),
{
    assert(sched_unique(s.drop_last())) by {
        assert(forall|x: int, y: int|
            0 <= x < y < s.drop_last().len() ==> (#[trigger] s.drop_last()[x]).0@ != (
            #[trigger] s.drop_last()[y]).0@);
    }
    if i == s.len() - 1 {
        assert(s.remove(i) =~= s.drop_last());
        lemma_sched_map_contains(s.drop_last(), s[i].0@);
        assert(forall|j: int|
            0 <= j < s.drop_last().len() ==> (#[trigger] s.drop_last()[j]).0@ != s[i].0@);
    } else {
        lemma_sched_map_remove(s.drop_last(), i);
        assert(s.remove(i).drop_last() =~= s.drop_last().remove(i));
        assert(s.remove(i).last() == s.last());
        assert(sched_map(s.remove(i)) == sched_map(s.drop_last().remove(i)).insert(
            s.last().0@,
            (s.last().1, s.last().2),
        ));
        assert(s[i].0@ != s.last().0@);
    }
}

proof fn lemma_sched_remove_keeps_unique(s: Seq<(ObjectRef, u64, u64)>, i: int)
    requires
        sched_unique(s),
        0 <= i < s.len(),
    ensures
        sched_unique(s.remove(i)),
{
    assert forall|x: int, y: int|
        0 <= x < y < s.remove(i).len() implies (#[trigger] s.remove(i)[x]).0@ != (#[trigger] s
        .remove(i)[y]).0@ by {
        let x0 = if x < i {
            x
        } else {
            x + 1
        };
        let y0 = if y < i {
            y
        } else {
            y + 1
        };
        assert(s.remove(i)[x] == s[x0]);
        assert(s.remove(i)[y] == s[y0]);
    }
}

/// The delay queue: pending entries keyed by reference, each with a due
/// instant and the rank its first request was accepted at.
pub struct Scheduler {
    entries: Vec<(ObjectRef, u64, u64)>,
    next_rank: u64,
}

impl View for Scheduler {
    type V = Map<RefView, (u64, u64)>;

    closed spec fn view(&self) -> Map<RefView, (u64, u64)> {
        sched_map(self.entries@)
    }
}

impl Scheduler {
    /// Keys are unique, and every pending rank is below the counter.
    pub closed spec fn wf(&self) -> bool {
        sched_unique(self.entries@) && forall|i: int|
            0 <= i < self.entries@.len() ==> (#[trigger] self.entries@[i]).2 < self.next_rank
    }

    /// The rank the next fresh entry will be accepted at.
    pub closed spec fn rank(&self) -> u64 {
        self.next_rank
    }

    /// An empty queue.
    pub fn new() -> (r: Self)
        ensures
            r.wf(),
            r@ =~= Map::<RefView, (u64, u64)>::empty(),
            r.rank() == 0,
    {
        Scheduler { entries: Vec::new(), next_rank: 0 }
    }

    /// Whether any entry is pending.
    pub fn has_pending(&self) -> (r: bool)
        ensures
            r <==> self@ != Map::<RefView, (u64, u64)>::empty(),
    {
        proof {
            if self.entries@.len() > 0 {
                lemma_sched_map_contains(self.entries@, self.entries@.last().0@);
                assert(self.entries@[self.entries@.len() - 1].0@ == self.entries@.last().0@);
                assert(sched_map(self.entries@).contains_key(self.entries@.last().0@));
            } else {
                assert(sched_map(self.entries@) =~= Map::<RefView, (u64, u64)>::empty());
            }
        }
        self.entries.len() > 0
    }

    fn find_index(&self, key: &ObjectRef) -> (r: Option<usize>)
        ensures
            match r {
                Some(i) => i < self.entries@.len() && self.entries@[i as int].0@ == key@,
                None => forall|i: int|
                    0 <= i < self.entries@.len() ==> (#[trigger] self.entries@[i]).0@ != key@,
            },
    {
        let mut i: usize = 0;
        while i < self.entries.len()
            invariant
                i <= self.entries@.len(),
                forall|j: int| 0 <= j < i ==> (#[trigger] self.entries@[j]).0@ != key@,
            decreases self.entries@.len() - i,
        {
            if &self.entries[i].0 == key {
                return Some(i);
            }
            i = i + 1;
        }
        None
    }

    /// Accept a request. While the key is pending this only pulls its due
    /// time earlier (earliest wins) and produces no additional firing; a
    /// key that is not pending starts a fresh entry.
    pub fn enqueue(&mut self, req: ScheduleRequest)
        requires
            old(self).wf(),
            old(self).rank() < u64::MAX,
        ensures
            final(self).wf(),
            final(self)@ =~= enqueue_spec(
                old(self)@,
                req.message@,
                req.run_at,
                old(self).rank(),
            ),
            old(self)@.contains_key(req.message@) ==> final(self).rank() == old(self).rank(),
            !old(self)@.contains_key(req.message@) ==> final(self).rank() == old(self).rank() + 1,
    {
        let ghost s0 = self.entries@;
        proof {
            lemma_sched_map_contains(s0, req.message@);
        }
        match self.find_index(&req.message) {
            Some(i) => {
                proof {
                    lemma_sched_map_value(s0, i as int);
                }
                let (key, due, seqno) = self.entries.remove(i);
                proof {
                    lemma_sched_map_remove(s0, i as int);
                    lemma_sched_remove_keeps_unique(s0, i as int);
                    assert forall|j: int| 0 <= j < self.entries@.len() implies (
                    #[trigger] self.entries@[j]).0@ != req.message@ by {
                        let j0 = if j < i as int {
                            j
                        } else {
                            j + 1
                        };
                        assert(self.entries@[j] == s0[j0]);
                    }
                }
                let new_due = if req.run_at < due {
                    req.run_at
                } else {
                    due
                };
                self.entries.push((key, new_due, seqno));
                proof {
                    assert(self.entries@.drop_last() =~= s0.remove(i as int));
                    assert(sched_map(self.entries@) =~= enqueue_spec(
                        sched_map(s0),
                        req.message@,
                        req.run_at,
                        self.next_rank,
                    ));
                    assert forall|x: int, y: int|
                        0 <= x < y < self.entries@.len() implies (#[trigger] self.entries@[x]).0@
                        != (#[trigger] self.entries@[y]).0@ by {
                        if y < self.entries@.len() - 1 {
                            assert(self.entries@[x] == s0.remove(i as int)[x]);
                            assert(self.entries@[y] == s0.remove(i as int)[y]);
                        } else {
                            assert(self.entries@[x] == s0.remove(i as int)[x]);
                        }
                    }
                }
            },
            None => {
                self.entries.push((req.message, req.run_at, self.next_rank));
                self.next_rank = self.next_rank + 1;
                proof {
                    assert(self.entries@.drop_last() =~= s0);
                    assert(sched_map(self.entries@) =~= sched_map(s0).insert(
                        self.entries@.last().0@,
                        (req.run_at, old(self).next_rank),
                    ));
                    assert forall|x: int, y: int|
                        0 <= x < y < self.entries@.len() implies (#[trigger] self.entries@[x]).0@
                        != (#[trigger] self.entries@[y]).0@ by {
                        if y < self.entries@.len() - 1 {
                            assert(self.entries@[x] == s0[x]);
                            assert(self.entries@[y] == s0[y]);
                        } else {
                            assert(self.entries@[x] == s0[x]);
                        }
                    }
                }
            },
        }
    }

    /// Emit the key whose entry is due and least in `(due, rank)` order:
    /// due times drive the order and ties go to the earlier insertion. The
    /// fired entry is removed, so the next request for that key starts
    /// fresh; a queue with nothing due emits nothing and is unchanged. A
    /// due time already in the past fires on the next poll with no delay.
    pub fn pop_due(&mut self, now: u64) -> (r: Option<ObjectRef>)
        requires
            old(self).wf(),
        ensures
            final(self).wf(),
            final(self).rank() == old(self).rank(),
            match r {
                Some(key) => {
                    &&& old(self)@.contains_key(key@)
                    &&& old(self)@[key@].0 <= now
                    &&& final(self)@ =~= old(self)@.remove(key@)
                    &&& forall|k: RefView|
                        old(self)@.contains_key(k) && k != key@ && #[trigger] old(self)@[k].0
                            <= now ==> (old(self)@[key@].0 < old(self)@[k].0 || (old(self)@[key@].0
                            == old(self)@[k].0 && old(self)@[key@].1 <= old(self)@[k].1))
                },
                None => {
                    &&& final(self)@ =~= old(self)@
                    &&& forall|k: RefView|
                        old(self)@.contains_key(k) ==> #[trigger] old(self)@[k].0 > now
                },
            },
    {
        let ghost s0 = self.entries@;
        let mut best: Option<usize> = None;
        let mut i: usize = 0;
        while i < self.entries.len()
            invariant
                self.entries@ == s0,
                i <= s0.len(),
                match best {
                    Some(b) => {
                        &&& b < i
                        &&& s0[b as int].1 <= now
                        &&& forall|j: int|
                            0 <= j < i && j != b && (#[trigger] s0[j]).1 <= now ==> (s0[b as int].1
                                < s0[j].1 || (s0[b as int].1 == s0[j].1 && s0[b as int].2
                                <= s0[j].2))
                    },
                    None => forall|j: int| 0 <= j < i ==> (#[trigger] s0[j]).1 > now,
                },
            decreases s0.len() - i,
        {
            let (_, due, seqno) = &self.entries[i];
            if *due <= now {
                match best {
                    Some(b) => {
                        let (_, bdue, bseq) = &self.entries[b];
                        if *due < *bdue || (*due == *bdue && *seqno < *bseq) {
                            best = Some(i);
                        }
                    },
                    None => {
                        best = Some(i);
                    },
                }
            }
            i = i + 1;
        }
        match best {
            Some(b) => {
                proof {
                    lemma_sched_map_value(s0, b as int);
                    lemma_sched_map_remove(s0, b as int);
                    lemma_sched_remove_keeps_unique(s0, b as int);
                }
                let (key, _, _) = self.entries.remove(b);
                proof {
                    assert forall|k: RefView|
                        sched_map(s0).contains_key(k) && k != key@ && #[trigger] sched_map(s0)[k].0
                            <= now implies (sched_map(s0)[key@].0 < sched_map(s0)[k].0 || (
                    sched_map(s0)[key@].0 == sched_map(s0)[k].0 && sched_map(s0)[key@].1
                        <= sched_map(s0)[k].1)) by {
                        lemma_sched_map_contains(s0, k);
                        let j = choose|j: int| 0 <= j < s0.len() && (#[trigger] s0[j]).0@ == k;
                        lemma_sched_map_value(s0, j);
                        assert(j != b as int);
                    }
                }
                Some(key)
            },
            None => {
                proof {
                    assert forall|k: RefView| sched_map(s0).contains_key(k) implies #[trigger] sched_map(
                        s0,
                    )[k].0 > now by {
                        lemma_sched_map_contains(s0, k);
                        let j = choose|j: int| 0 <= j < s0.len() && (#[trigger] s0[j]).0@ == k;
                        lemma_sched_map_value(s0, j);
                    }
                }
                None
            },
        }
    }
}

/// Earliest-wins coalescing: when a key not yet pending is requested at
/// `t1` and again at `t2` before it fires, the single pending entry is due
/// at the earlier of the two and keeps the rank of the first request.
pub proof fn lemma_scheduler_coalesces(
    m: Map<RefView, (u64, u64)>,
    k: RefView,
    t1: u64,
    t2: u64,
    r1: u64,
    r2: u64,
)
    requires
        !m.contains_key(k),
    ensures
        enqueue_spec(enqueue_spec(m, k, t1, r1), k, t2, r2).contains_key(k),
        enqueue_spec(enqueue_spec(m, k, t1, r1), k, t2, r2)[k].0 == if t1 <= t2 {
            t1
        } else {
            t2
        },
        enqueue_spec(enqueue_spec(m, k, t1, r1), k, t2, r2)[k].1 == r1,
{
}

} // verus!
