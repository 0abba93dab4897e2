//! The runner: a per-key single-flight table. While a key's task is in
//! flight, further firings for that key are held as a pending flag
//! (last-writer wins) and replayed on completion.

use vstd::prelude::*;

use crate::object_ref::{ObjectRef, RefView};

verus! {

/// The in-flight table as a sequence-backed map: each in-flight key with
/// its pending flag.
pub open spec fn runner_map(s: Seq<(ObjectRef, bool)>) -> Map<RefView, bool>
    decreases s.len(),
{
    if s.len() == 0 {
        Map::empty()
    } else {
        runner_map(s.drop_last()).insert(s.last().0@, s.last().1)
    }
}

/// No two in-flight entries carry the same key.
pub open spec fn runner_unique(s: Seq<(ObjectRef, bool)>) -> bool {
    forall|i: int, j: int|
        0 <= i < j < s.len() ==> (#[trigger] s[i]).0@ != (#[trigger] s[j]).0@
}

/// How many in-flight entries carry the key.
pub open spec fn count_in_flight(s: Seq<(ObjectRef, bool)>, k: RefView) -> int
    decreases s.len(),
{
    if s.len() == 0 {
        0
    } else {
        count_in_flight(s.drop_last(), k) + if s.last().0@ == k {
            1int
        } else {
            0int
        }
    }
}

proof fn lemma_runner_map_contains(s: Seq<(ObjectRef, bool)>, k: RefView)
    ensures
        runner_map(s).contains_key(k) <==> exists|i: int|
            0 <= i < s.len() && (#[trigger] s[i]).0@ == k,
    decreases s.len(),
{
    if s.len() > 0 {
        lemma_runner_map_contains(s.drop_last(), k);
        if s.last().0@ == k {
            assert(s[s.len() - 1].0@ == k);
        } else {
            if exists|i: int| 0 <= i < s.len() && (#[trigger] s[i]).0@ == k {
                let i = choose|i: int| 0 <= i < s.len() && (#[trigger] s[i]).0@ == k;
                if i < s.len() - 1 {
                    assert(s.drop_last()[i].0@ == k);
                }
            }
            if runner_map(s.drop_last()).contains_key(k) {
                let i = choose|i: int|
                    0 <= i < s.drop_last().len() && (#[trigger] s.drop_last()[i]).0@ == k;
                assert(s[i].0@ == k);
            }
        }
    }
}

proof fn lemma_runner_map_value(s: Seq<(ObjectRef, bool)>, i: int)
    requires
        runner_unique(s),
        0 <= i < s.len(),
    ensures
        runner_map(s).contains_key(s[i].0@),
        runner_map(s)[s[i].0@] == s[i].1,
    decreases s.len(),
{
    if i == s.len() - 1 {
    } else {
        assert(runner_unique(s.drop_last())) by {
            assert(forall|x: int, y: int|
                0 <= x < y < s.drop_last().len() ==> (#[trigger] s.drop_last()[x]).0@ != (
                #[trigger] s.drop_last()[y]).0@);
        }
        assert(s.drop_last()[i] == s[i]);
        lemma_runner_map_value(s.drop_last(), i);
        assert(s[i].0@ != s.last().0@);
    }
}

proof fn lemma_runner_map_remove(s: Seq<(ObjectRef, bool)>, i: int)
    requires
        runner_unique(s),
        0 <= i < s.len(),
    ensures
        runner_map(s.remove(i)) =~= runner_map(s).remove(s[i].0@),
    decreases s.len(),
{
    assert(runner_unique(s.drop_last())) by {
        assert(forall|x: int, y: int|
            0 <= x < y < s.drop_last().len() ==> (#[trigger] s.drop_last()[x]).0@ != (
            #[trigger] s.drop_last()[y]).0@);
    }
    if i == s.len() - 1 {
        assert(s.remove(i) =~= s.drop_last());
        lemma_runner_map_contains(s.drop_last(), s[i].0@);
        assert(forall|j: int|
            0 <= j < s.drop_last().len() ==> (#[trigger] s.drop_last()[j]).0@ != s[i].0@);
    } else {
        lemma_runner_map_remove(s.drop_last(), i);
        assert(s.remove(i).drop_last() =~= s.drop_last().remove(i));
        assert(s.remove(i).last() == s.last());
        assert(runner_map(s.remove(i)) == runner_map(s.drop_last().remove(i)).insert(
            s.last().0@,
            s.last().1,
        ));
        assert(s[i].0@ != s.last().0@);
    }
}

proof fn lemma_runner_remove_keeps_unique(s: Seq<(ObjectRef, bool)>, i: int)
    requires
        runner_unique(s),
        0 <= i < s.len(),
    ensures
        runner_unique(s.remove(i)),
{
    assert forall|x: int, y: int|
        0 <= x < y < s.remove(i).len() implies (#[trigger] s.remove(i)[x]).0@ != (#[trigger] s
        .remove(i)[y]).0@ by {
        let x0 = if x < i {
            x
        } else {
            x + 1
        };
        let y0 = if y < i {
            y
        } else {
            y + 1
        };
        assert(s.remove(i)[x] == s[x0]);
        assert(s.remove(i)[y] == s[y0]);
    }
}

/// The single-flight table: each in-flight key appears once, mapped to
/// whether another firing arrived while it ran.
pub struct Runner {
    tasks: Vec<(ObjectRef, bool)>,
}

impl View for Runner {
    type V = Map<RefView, bool>;

    closed spec fn view(&self) -> Map<RefView, bool> {
        runner_map(self.tasks@)
    }
}

impl Runner {
    /// No key appears twice in the table.
    pub closed spec fn wf(&self) -> bool {
        runner_unique(self.tasks@)
    }

    /// A table with nothing in flight.
    pub fn new() -> (r: Self)
        ensures
            r.wf(),
            r@ =~= Map::<RefView, bool>::empty(),
    {
        Runner { tasks: Vec::new() }
    }

    fn find_index(&self, key: &ObjectRef) -> (r: Option<usize>)
        ensures
            match r {
                Some(i) => i < self.tasks@.len() && self.tasks@[i as int].0@ == key@,
                None => forall|i: int|
                    0 <= i < self.tasks@.len() ==> (#[trigger] self.tasks@[i]).0@ != key@,
            },
    {
        let mut i: usize = 0;
        while i < self.tasks.len()
            invariant
                i <= self.tasks@.len(),
                forall|j: int| 0 <= j < i ==> (#[trigger] self.tasks@[j]).0@ != key@,
            decreases self.tasks@.len() - i,
        {
            if &self.tasks[i].0 == key {
                return Some(i);
            }
            i = i + 1;
        }
        None
    }

    /// Whether the key's task is in flight.
    pub fn in_flight(&self, key: &ObjectRef) -> (r: bool)
        ensures
            r == self@.contains_key(key@),
    {
        proof {
            lemma_runner_map_contains(self.tasks@, key@);
        }
        match self.find_index(key) {
            Some(_) => true,
            None => false,
        }
    }

    /// A key fired: launch it if nothing for it is in flight, otherwise
    /// hold it by raising the pending flag (no second task is started).
    pub fn on_key(&mut self, key: &ObjectRef) -> (launch: bool)
        requires
            old(self).wf(),
        ensures
            final(self).wf(),
            launch == !old(self)@.contains_key(key@),
            launch ==> final(self)@ =~= old(self)@.insert(key@, false),
            !launch ==> final(self)@ =~= old(self)@.insert(key@, true),
    {
        let ghost s0 = self.tasks@;
        proof {
            lemma_runner_map_contains(s0, key@);
        }
        match self.find_index(key) {
            Some(i) => {
                proof {
                    lemma_runner_map_value(s0, i as int);
                    lemma_runner_map_remove(s0, i as int);
                    lemma_runner_remove_keeps_unique(s0, i as int);
                }
                let (k, _) = self.tasks.remove(i);
                proof {
                    assert forall|j: int| 0 <= j < self.tasks@.len() implies (
                    #[trigger] self.tasks@[j]).0@ != key@ by {
                        let j0 = if j < i as int {
                            j
                        } else {
                            j + 1
                        };
                        assert(self.tasks@[j] == s0[j0]);
                    }
                }
                self.tasks.push((k, true));
                proof {
                    assert(self.tasks@.drop_last() =~= s0.remove(i as int));
                    assert(runner_map(self.tasks@) =~= runner_map(s0).insert(key@, true));
                    assert forall|x: int, y: int|
                        0 <= x < y < self.tasks@.len() implies (#[trigger] self.tasks@[x]).0@ != (
                    #[trigger] self.tasks@[y]).0@ by {
                        if y < self.tasks@.len() - 1 {
                            assert(self.tasks@[x] == s0.remove(i as int)[x]);
                            assert(self.tasks@[y] == s0.remove(i as int)[y]);
                        } else {
                            assert(self.tasks@[x] == s0.remove(i as int)[x]);
                        }
                    }
                }
                false
            },
            None => {
                self.tasks.push((key.duplicate(), false));
                proof {
                    assert(self.tasks@.drop_last() =~= s0);
                    assert(runner_map(self.tasks@) =~= runner_map(s0).insert(key@, false));
                    assert forall|x: int, y: int|
                        0 <= x < y < self.tasks@.len() implies (#[trigger] self.tasks@[x]).0@ != (
                    #[trigger] self.tasks@[y]).0@ by {
                        if y < self.tasks@.len() - 1 {
                            assert(self.tasks@[x] == s0[x]);
                            assert(self.tasks@[y] == s0[y]);
                        } else {
                            assert(self.tasks@[x] == s0[x]);
                        }
                    }
                }
                true
            },
        }
    }

    /// A key's task completed: if a firing was held while it ran, the task
    /// relaunches at once (flag cleared, still in flight); otherwise the
    /// key leaves the table.
    pub fn on_complete(&mut self, key: &ObjectRef) -> (relaunch: bool)
        requires
            old(self).wf(),
            old(self)@.contains_key(key@),
        ensures
            final(self).wf(),
            relaunch == old(self)@[key@],
            relaunch ==> final(self)@ =~= old(self)@.insert(key@, false),
            !relaunch ==> final(self)@ =~= old(self)@.remove(key@),
    {
        let ghost s0 = self.tasks@;
        proof {
            lemma_runner_map_contains(s0, key@);
        }
        match self.find_index(key) {
            Some(i) => {
                proof {
                    lemma_runner_map_value(s0, i as int);
                    lemma_runner_map_remove(s0, i as int);
                    lemma_runner_remove_keeps_unique(s0, i as int);
                }
                let (k, pending) = self.tasks.remove(i);
                if pending {
                    proof {
                        assert forall|j: int| 0 <= j < self.tasks@.len() implies (
                        #[trigger] self.tasks@[j]).0@ != key@ by {
                            let j0 = if j < i as int {
                                j
                            } else {
                                j + 1
                            };
                            assert(self.tasks@[j] == s0[j0]);
                        }
                    }
                    self.tasks.push((k, false));
                    proof {
                        assert(self.tasks@.drop_last() =~= s0.remove(i as int));
                        assert(runner_map(self.tasks@) =~= runner_map(s0).insert(key@, false));
                        assert forall|x: int, y: int|
                            0 <= x < y < self.tasks@.len() implies (#[trigger] self.tasks@[x]).0@
                            != (#[trigger] self.tasks@[y]).0@ by {
                            if y < self.tasks@.len() - 1 {
                                assert(self.tasks@[x] == s0.remove(i as int)[x]);
                                assert(self.tasks@[y] == s0.remove(i as int)[y]);
                            } else {
                                assert(self.tasks@[x] == s0.remove(i as int)[x]);
                            }
                        }
                    }
                    true
                } else {
                    false
                }
            },
            None => {
                proof {
                    assert(false);
                }
                false
            },
        }
    }

    /// Drop every in-flight task: the table empties and nothing is
    /// emitted for the cancelled tasks.
    pub fn cancel_all(&mut self)
        ensures
            final(self).wf(),
            final(self)@ =~= Map::<RefView, bool>::empty(),
    {
        self.tasks = Vec::new();
    }
}

/// Single flight per key: in a well-formed table, at most one in-flight
/// entry exists for any key, whatever its pending flag.
pub proof fn lemma_single_flight(s: Seq<(ObjectRef, bool)>, k: RefView)
    requires
        runner_unique(s),
    ensures
        count_in_flight(s, k) <= 1,
    decreases s.len(),
{
    if s.len() > 0 {
        assert(runner_unique(s.drop_last())) by {
            assert(forall|x: int, y: int|
                0 <= x < y < s.drop_last().len() ==> (#[trigger] s.drop_last()[x]).0@ != (
                #[trigger] s.drop_last()[y]).0@);
        }
        lemma_single_flight(s.drop_last(), k);
        if s.last().0@ == k {
            assert(count_in_flight(s.drop_last(), k) == 0) by {
                lemma_no_key_no_count(s.drop_last(), k);
            }
        }
    }
}

/// A sequence none of whose entries carries the key counts zero for it.
proof fn lemma_no_key_no_count(s: Seq<(ObjectRef, bool)>, k: RefView)
    requires
        forall|i: int| 0 <= i < s.len() ==> (#[trigger] s[i]).0@ != k,
    ensures
        count_in_flight(s, k) == 0,
    decreases s.len(),
{
    if s.len() > 0 {
        assert(forall|i: int|
            0 <= i < s.drop_last().len() ==> (#[trigger] s.drop_last()[i]).0@ != k);
        lemma_no_key_no_count(s.drop_last(), k);
        assert(s[s.len() - 1].0@ != k);
    }
}

} // verus!
