//! The reflector: watch events, and the local cache (the [`Store`]) they
//! keep in sync with a server-side collection.

use vstd::prelude::*;

use crate::object::{DynamicObject, ObjectView};
use crate::object_ref::{ref_of_obj, ObjectRef, RefView};

verus! {

/// A change notification produced by the watcher.
#[derive(Clone, Debug)]
pub enum Event {
    /// The object was created or modified.
    Applied(DynamicObject),
    /// The object was deleted.
    Deleted(DynamicObject),
    /// The cache must be reinitialized from this snapshot.
    Restarted(Vec<DynamicObject>),
}

/// The mathematical value of an [`Event`].
pub enum EventView {
    Applied(ObjectView),
    Deleted(ObjectView),
    Restarted(Seq<ObjectView>),
}

impl DeepView for DynamicObject {
    type V = ObjectView;

    open spec fn deep_view(&self) -> ObjectView {
        self@
    }
}

impl View for Event {
    type V = EventView;

    open spec fn view(&self) -> EventView {
        match self {
            Event::Applied(o) => EventView::Applied(o@),
            Event::Deleted(o) => EventView::Deleted(o@),
            Event::Restarted(list) => EventView::Restarted(list.deep_view()),
        }
    }
}

impl Event {
    /// A copy of the event with the same mathematical value.
    pub fn duplicate_event(&self) -> (r: Event)
        ensures
            r@ == self@,
    {
        match self {
            Event::Applied(o) => Event::Applied(o.duplicate()),
            Event::Deleted(o) => Event::Deleted(o.duplicate()),
            Event::Restarted(list) => {
                let mut copy: Vec<DynamicObject> = Vec::new();
                let mut i: usize = 0;
                while i < list.len()
                    invariant
                        i <= list@.len(),
                        copy.deep_view() =~= list.deep_view().subrange(0, i as int),
                    decreases list@.len() - i,
                {
                    proof {
                        assert(copy.deep_view().len() == i);
                    }
                    copy.push(list[i].duplicate());
                    proof {
                        assert(copy.deep_view().len() == i + 1);
                        assert(copy.deep_view() =~= list.deep_view().subrange(0, i + 1 as int));
                    }
                    i = i + 1;
                }
                proof {
                    assert(copy.deep_view() =~= list.deep_view());
                }
                Event::Restarted(copy)
            },
        }
    }
}

/// The store state a restart snapshot implies: every listed object under
/// its own reference, later entries winning, and nothing else.
pub open spec fn restart_map(list: Seq<ObjectView>) -> Map<RefView, ObjectView>
    decreases list.len(),
{
    if list.len() == 0 {
        Map::empty()
    } else {
        restart_map(list.drop_last()).insert(ref_of_obj(list.last()), list.last())
    }
}

/// The store state after one event: `Applied` inserts or overwrites,
/// `Deleted` removes, `Restarted` replaces the contents wholesale.
pub open spec fn store_apply(m: Map<RefView, ObjectView>, e: EventView) -> Map<
    RefView,
    ObjectView,
> {
    match e {
        EventView::Applied(o) => m.insert(ref_of_obj(o), o),
        EventView::Deleted(o) => m.remove(ref_of_obj(o)),
        EventView::Restarted(list) => restart_map(list),
    }
}

/// The store state after a whole sequence of events, applied in order.
pub open spec fn store_apply_all(m: Map<RefView, ObjectView>, es: Seq<EventView>) -> Map<
    RefView,
    ObjectView,
>
    decreases es.len(),
{
    if es.len() == 0 {
        m
    } else {
        store_apply(store_apply_all(m, es.drop_last()), es.last())
    }
}

/// The map a sequence of keyed entries denotes, later entries winning.
pub open spec fn entries_map(s: Seq<(ObjectRef, DynamicObject)>) -> Map<RefView, ObjectView>
    decreases s.len(),
{
    if s.len() == 0 {
        Map::empty()
    } else {
        entries_map(s.drop_last()).insert(s.last().0@, s.last().1@)
    }
}

/// No two entries carry the same key.
pub open spec fn unique_keys(s: Seq<(ObjectRef, DynamicObject)>) -> bool {
    forall|i: int, j: int|
        0 <= i < j < s.len() ==> (#[trigger] s[i]).0@ != (#[trigger] s[j]).0@
}

/// A key is present in the map exactly when some entry carries it.
proof fn lemma_entries_map_contains(s: Seq<(ObjectRef, DynamicObject)>, k: RefView)
    ensures
        entries_map(s).contains_key(k) <==> exists|i: int|
            0 <= i < s.len() && (#[trigger] s[i]).0@ == k,
    decreases s.len(),
{
    if s.len() > 0 {
        lemma_entries_map_contains(s.drop_last(), k);
        if s.last().0@ == k {
            assert(s[s.len() - 1].0@ == k);
        } else {
            if exists|i: int| 0 <= i < s.len() && (#[trigger] s[i]).0@ == k {
                let i = choose|i: int| 0 <= i < s.len() && (#[trigger] s[i]).0@ == k;
                if i < s.len() - 1 {
                    assert(s.drop_last()[i].0@ == k);
                }
            }
            if entries_map(s.drop_last()).contains_key(k) {
                let i = choose|i: int|
                    0 <= i < s.drop_last().len() && (#[trigger] s.drop_last()[i]).0@ == k;
                assert(s[i].0@ == k);
            }
        }
    }
}

/// With unique keys, the entry that carries a key gives its value.
proof fn lemma_entries_map_value(s: Seq<(ObjectRef, DynamicObject)>, i: int)
    requires
        unique_keys(s),
        0 <= i < s.len(),
    ensures
        entries_map(s).contains_key(s[i].0@),
        entries_map(s)[s[i].0@] == s[i].1@,
    decreases s.len(),
{
    if i == s.len() - 1 {
    } else {
        assert(unique_keys(s.drop_last())) by {
            assert(forall|x: int, y: int|
                0 <= x < y < s.drop_last().len() ==> (#[trigger] s.drop_last()[x]).0@ != (
                #[trigger] s.drop_last()[y]).0@);
        }
        assert(s.drop_last()[i] == s[i]);
        lemma_entries_map_value(s.drop_last(), i);
        assert(s[i].0@ != s.last().0@);
    }
}

/// With unique keys, removing the entry at an index removes its key.
proof fn lemma_entries_map_remove(s: Seq<(ObjectRef, DynamicObject)>, i: int)
    requires
        unique_keys(s),
        0 <= i < s.len(),
    ensures
        entries_map(s.remove(i)) =~= entries_map(s).remove(s[i].0@),
    decreases s.len(),
{
    assert(unique_keys(s.drop_last())) by {
        assert(forall|x: int, y: int|
            0 <= x < y < s.drop_last().len() ==> (#[trigger] s.drop_last()[x]).0@ != (
            #[trigger] s.drop_last()[y]).0@);
    }
    if i == s.len() - 1 {
        assert(s.remove(i) =~= s.drop_last());
        lemma_entries_map_contains(s.drop_last(), s[i].0@);
        assert(forall|j: int|
            0 <= j < s.drop_last().len() ==> (#[trigger] s.drop_last()[j]).0@ != s[i].0@);
    } else {
        lemma_entries_map_remove(s.drop_last(), i);
        assert(s.remove(i).drop_last() =~= s.drop_last().remove(i));
        assert(s.remove(i).last() == s.last());
        assert(entries_map(s.remove(i)) == entries_map(s.drop_last().remove(i)).insert(
            s.last().0@,
            s.last().1@,
        ));
        assert(s[i].0@ != s.last().0@);
    }
}

/// The local cache: a mapping from references to the latest observed
/// objects, mutated only by applying watch events.
pub struct Store {
    entries: Vec<(ObjectRef, DynamicObject)>,
}

impl View for Store {
    type V = Map<RefView, ObjectView>;

    closed spec fn view(&self) -> Map<RefView, ObjectView> {
        entries_map(self.entries@)
    }
}

impl Store {
    /// Every entry is keyed by its own object's reference, and no key
    /// repeats.
    pub closed spec fn wf(&self) -> bool {
        unique_keys(self.entries@) && forall|i: int|
            0 <= i < self.entries@.len() ==> (#[trigger] self.entries@[i]).0@ == ref_of_obj(
                self.entries@[i].1@,
            )
    }

    /// An empty store.
    pub fn new() -> (r: Self)
        ensures
            r.wf(),
            r@ =~= Map::<RefView, ObjectView>::empty(),
    {
        Store { entries: Vec::new() }
    }

    /// The index of the entry carrying the key, if any.
    fn find_index(&self, key: &ObjectRef) -> (r: Option<usize>)
        ensures
            match r {
                Some(i) => i < self.entries@.len() && self.entries@[i as int].0@ == key@,
                None => forall|i: int|
                    0 <= i < self.entries@.len() ==> (#[trigger] self.entries@[i]).0@ != key@,
            },
    {
        let mut i: usize = 0;
        while i < self.entries.len()
            invariant
                i <= self.entries@.len(),
                forall|j: int| 0 <= j < i ==> (#[trigger] self.entries@[j]).0@ != key@,
            decreases self.entries@.len() - i,
        {
            if &self.entries[i].0 == key {
                return Some(i);
            }
            i = i + 1;
        }
        None
    }

    /// The number of objects held.
    pub fn len(&self) -> (r: usize)
        requires
            self.wf(),
        ensures
            r == self@.dom().len(),
            r == 0 <==> self@ =~= Map::<RefView, ObjectView>::empty(),
    {
        proof {
            lemma_entries_map_card(self.entries@);
            if self.entries@.len() > 0 {
                lemma_entries_map_value(self.entries@, self.entries@.len() - 1);
            }
        }
        self.entries.len()
    }

    /// Whether the key is present.
    pub fn contains(&self, key: &ObjectRef) -> (r: bool)
        ensures
            r == self@.contains_key(key@),
    {
        proof {
            lemma_entries_map_contains(self.entries@, key@);
        }
        match self.find_index(key) {
            Some(_) => true,
            None => false,
        }
    }

    /// The latest observed object under the key, if one is present.
    pub fn get(&self, key: &ObjectRef) -> (r: Option<&DynamicObject>)
        requires
            self.wf(),
        ensures
            match r {
                Some(o) => self@.contains_key(key@) && o@ == self@[key@],
                None => !self@.contains_key(key@),
            },
    {
        proof {
            lemma_entries_map_contains(self.entries@, key@);
        }
        match self.find_index(key) {
            Some(i) => {
                proof {
                    lemma_entries_map_value(self.entries@, i as int);
                }
                Some(&self.entries[i].1)
            },
            None => None,
        }
    }

    /// Insert or overwrite the entry for the object's own reference.
    fn upsert(&mut self, obj: DynamicObject)
        requires
            old(self).wf(),
        ensures
            final(self).wf(),
            final(self)@ =~= old(self)@.insert(ref_of_obj(obj@), obj@),
    {
        let key = ObjectRef::from_obj(&obj);
        let ghost s0 = self.entries@;
        match self.find_index(&key) {
            Some(i) => {
                proof {
                    lemma_entries_map_remove(s0, i as int);
                    lemma_remove_keeps_unique(s0, i as int);
                }
                let _ = self.entries.remove(i);
                proof {
                    assert forall|j: int| 0 <= j < self.entries@.len() implies (
                    #[trigger] self.entries@[j]).0@ != key@ by {
                        let j0 = if j < i as int {
                            j
                        } else {
                            j + 1
                        };
                        assert(self.entries@[j] == s0[j0]);
                    }
                }
                self.entries.push((key, obj));
                proof {
                    assert(self.entries@.drop_last() =~= s0.remove(i as int));
                    assert(entries_map(self.entries@) =~= entries_map(s0).insert(key@, obj@));
                    assert forall|x: int, y: int|
                        0 <= x < y < self.entries@.len() implies (#[trigger] self.entries@[x]).0@
                        != (#[trigger] self.entries@[y]).0@ by {
                        if y < self.entries@.len() - 1 {
                            assert(self.entries@[x] == s0.remove(i as int)[x]);
                            assert(self.entries@[y] == s0.remove(i as int)[y]);
                        } else {
                            assert(self.entries@[x] == s0.remove(i as int)[x]);
                        }
                    }
                }
            },
            None => {
                self.entries.push((key, obj));
                proof {
                    assert(self.entries@.drop_last() =~= s0);
                    assert(entries_map(self.entries@) =~= entries_map(s0).insert(key@, obj@));
                    assert forall|x: int, y: int|
                        0 <= x < y < self.entries@.len() implies (#[trigger] self.entries@[x]).0@
                        != (#[trigger] self.entries@[y]).0@ by {
                        if y < self.entries@.len() - 1 {
                            assert(self.entries@[x] == s0[x]);
                            assert(self.entries@[y] == s0[y]);
                        } else {
                            assert(self.entries@[x] == s0[x]);
                        }
                    }
                }
            },
        }
    }

    /// Remove the entry for the object's own reference, if present.
    fn delete(&mut self, obj: &DynamicObject)
        requires
            old(self).wf(),
        ensures
            final(self).wf(),
            final(self)@ =~= old(self)@.remove(ref_of_obj(obj@)),
    {
        let key = ObjectRef::from_obj(obj);
        proof {
            lemma_entries_map_contains(self.entries@, key@);
        }
        match self.find_index(&key) {
            Some(i) => {
                proof {
                    lemma_entries_map_remove(self.entries@, i as int);
                    lemma_remove_keeps_unique(self.entries@, i as int);
                }
                let _ = self.entries.remove(i);
            },
            None => {},
        }
    }

    /// Replace the contents wholesale with the snapshot: afterwards the
    /// store holds exactly the listed objects.
    fn restart(&mut self, list: &Vec<DynamicObject>)
        ensures
            final(self).wf(),
            final(self)@ =~= restart_map(list.deep_view()),
    {
        let mut fresh = Store::new();
        let mut i: usize = 0;
        while i < list.len()
            invariant
                i <= list@.len(),
                fresh.wf(),
                fresh@ =~= restart_map(list.deep_view().subrange(0, i as int)),
            decreases list@.len() - i,
        {
            proof {
                assert(list.deep_view().subrange(0, i + 1 as int).drop_last() =~= list.deep_view()
                    .subrange(0, i as int));
                assert(list.deep_view().subrange(0, i + 1 as int).last() == list@[i as int]@);
            }
            fresh.upsert(list[i].duplicate());
            i = i + 1;
        }
        proof {
            assert(list.deep_view().subrange(0, list@.len() as int) =~= list.deep_view());
        }
        *self = fresh;
    }

    /// Apply one watch event: the store afterwards holds exactly the state
    /// the event implies.
    pub fn apply_watcher_event(&mut self, event: &Event)
        requires
            old(self).wf(),
        ensures
            final(self).wf(),
            final(self)@ =~= store_apply(old(self)@, event@),
    {
        match event {
            Event::Applied(o) => self.upsert(o.duplicate()),
            Event::Deleted(o) => self.delete(o),
            Event::Restarted(list) => self.restart(list),
        }
    }

    /// Apply a whole sequence of events in order: the store afterwards
    /// equals the state implied by folding the events over the starting
    /// state.
    pub fn apply_all(&mut self, events: &Vec<Event>)
        requires
            old(self).wf(),
        ensures
            final(self).wf(),
            final(self)@ =~= store_apply_all(old(self)@, events.deep_view()),
    {
        let ghost m0 = self@;
        let mut i: usize = 0;
        while i < events.len()
            invariant
                i <= events@.len(),
                self.wf(),
                self@ =~= store_apply_all(m0, events.deep_view().subrange(0, i as int)),
            decreases events@.len() - i,
        {
            proof {
                assert(events.deep_view().subrange(0, i + 1 as int).drop_last() =~= events
                    .deep_view().subrange(0, i as int));
                assert(events.deep_view().subrange(0, i + 1 as int).last() == events@[i as int]@);
            }
            self.apply_watcher_event(&events[i]);
            i = i + 1;
        }
        proof {
            assert(events.deep_view().subrange(0, events@.len() as int) =~= events.deep_view());
        }
    }
}

impl DeepView for Event {
    type V = EventView;

    open spec fn deep_view(&self) -> EventView {
        self@
    }
}

/// Removing an entry keeps the keys unique.
proof fn lemma_remove_keeps_unique(s: Seq<(ObjectRef, DynamicObject)>, i: int)
    requires
        unique_keys(s),
        0 <= i < s.len(),
    ensures
        unique_keys(s.remove(i)),
{
    assert forall|x: int, y: int|
        0 <= x < y < s.remove(i).len() implies (#[trigger] s.remove(i)[x]).0@ != (#[trigger] s
        .remove(i)[y]).0@ by {
        let x0 = if x < i {
            x
        } else {
            x + 1
        };
        let y0 = if y < i {
            y
        } else {
            y + 1
        };
        assert(s.remove(i)[x] == s[x0]);
        assert(s.remove(i)[y] == s[y0]);
    }
}

/// With unique keys, the map holds exactly as many objects as there are
/// entries.
proof fn lemma_entries_map_card(s: Seq<(ObjectRef, DynamicObject)>)
    requires
        unique_keys(s),
    ensures
        entries_map(s).dom().finite(),
        entries_map(s).dom().len() == s.len(),
    decreases s.len(),
{
    if s.len() == 0 {
        assert(entries_map(s).dom() =~= Set::<RefView>::empty());
    } else {
        assert(unique_keys(s.drop_last())) by {
            assert(forall|x: int, y: int|
                0 <= x < y < s.drop_last().len() ==> (#[trigger] s.drop_last()[x]).0@ != (
                #[trigger] s.drop_last()[y]).0@);
        }
        lemma_entries_map_card(s.drop_last());
        lemma_entries_map_contains(s.drop_last(), s.last().0@);
        assert(forall|j: int|
            0 <= j < s.drop_last().len() ==> (#[trigger] s.drop_last()[j]).0@ != s.last().0@);
        assert(!entries_map(s.drop_last()).contains_key(s.last().0@));
        assert(entries_map(s).dom() =~= entries_map(s.drop_last()).dom().insert(s.last().0@));
    }
}

/// The reflector's single step: apply the event to the store, then forward
/// the event unchanged.
pub fn reflect(store: &mut Store, event: Event) -> (out: Event)
    requires
        old(store).wf(),
    ensures
        final(store).wf(),
        final(store)@ =~= store_apply(old(store)@, event@),
        out == event,
{
    store.apply_watcher_event(&event);
    event
}

/// Applying a duplicate `Applied` notification is idempotent: the second
/// application leaves the store exactly as the first left it.
pub proof fn lemma_reflector_idempotent(m: Map<RefView, ObjectView>, o: ObjectView)
    ensures
        store_apply(store_apply(m, EventView::Applied(o)), EventView::Applied(o)) =~= store_apply(
            m,
            EventView::Applied(o),
        ),
{
}

} // verus!
