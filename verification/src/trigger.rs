//! Trigger mappers: pure functions from an event's objects to the
//! references that should be reconciled, and the controller's routing
//! table that applies one mapper per watch source.

use vstd::prelude::*;

use crate::kind::{GroupVersionKind, GvkView};
use crate::object::{DynamicObject, ObjectView, OwnerRefView};
use crate::object_ref::{ObjectRef, RefView};
use crate::reflector::{Event, EventView};

verus! {

/// The objects an event touches when only live objects matter: `Applied`
/// yields its object, `Deleted` nothing, `Restarted` every listed object.
pub open spec fn flatten_applied_spec(e: EventView) -> Seq<ObjectView> {
    match e {
        EventView::Applied(o) => seq![o],
        EventView::Deleted(_) => Seq::empty(),
        EventView::Restarted(list) => list,
    }
}

/// The objects an event touches including removals: `Applied` and
/// `Deleted` yield their object, `Restarted` every listed object.
pub open spec fn flatten_touched_spec(e: EventView) -> Seq<ObjectView> {
    match e {
        EventView::Applied(o) => seq![o],
        EventView::Deleted(o) => seq![o],
        EventView::Restarted(list) => list,
    }
}

/// Keep only `Applied` objects: drop `Deleted`, explode `Restarted` into
/// its objects.
pub fn flatten_applied(event: Event) -> (r: Vec<DynamicObject>)
    ensures
        r.deep_view() == flatten_applied_spec(event@),
{
    match event {
        Event::Applied(o) => {
            let mut v: Vec<DynamicObject> = Vec::new();
            v.push(o);
            proof {
                assert(v.deep_view() =~= flatten_applied_spec(event@));
            }
            v
        },
        Event::Deleted(_) => {
            let v: Vec<DynamicObject> = Vec::new();
            proof {
                assert(v.deep_view() =~= flatten_applied_spec(event@));
            }
            v
        },
        Event::Restarted(list) => {
            proof {
                assert(list.deep_view() =~= flatten_applied_spec(event@));
            }
            list
        },
    }
}

/// Keep every touched object: `Deleted` objects are included so the
/// owners of removed children can be retriggered.
pub fn flatten_touched(event: Event) -> (r: Vec<DynamicObject>)
    ensures
        r.deep_view() == flatten_touched_spec(event@),
{
    match event {
        Event::Applied(o) => {
            let mut v: Vec<DynamicObject> = Vec::new();
            v.push(o);
            proof {
                assert(v.deep_view() =~= flatten_touched_spec(event@));
            }
            v
        },
        Event::Deleted(o) => {
            let mut v: Vec<DynamicObject> = Vec::new();
            v.push(o);
            proof {
                assert(v.deep_view() =~= flatten_touched_spec(event@));
            }
            v
        },
        Event::Restarted(list) => {
            proof {
                assert(list.deep_view() =~= flatten_touched_spec(event@));
            }
            list
        },
    }
}

/// The object's own reference under the given kind descriptor.
pub fn trigger_self(obj: &DynamicObject, gvk: GroupVersionKind) -> (r: ObjectRef)
    ensures
        r@ == (RefView { gvk: gvk@, name: obj@.meta.name, namespace: obj@.meta.namespace }),
{
    ObjectRef::from_obj_with(obj, gvk)
}

/// Whether an owner-reference record points at the given kind.
pub open spec fn owner_matches(o: OwnerRefView, gvk: GvkView) -> bool {
    o.api_version == gvk.api_version() && o.kind == gvk.kind
}

/// The owner references pointing at `gvk`, as references scoped to the
/// child's namespace, in record order.
pub open spec fn trigger_owners_spec(
    owners: Seq<OwnerRefView>,
    gvk: GvkView,
    namespace: Option<Seq<char>>,
) -> Seq<RefView>
    decreases owners.len(),
{
    if owners.len() == 0 {
        Seq::empty()
    } else {
        let rest = trigger_owners_spec(owners.drop_last(), gvk, namespace);
        if owner_matches(owners.last(), gvk) {
            rest.push(RefView { gvk, name: owners.last().name, namespace })
        } else {
            rest
        }
    }
}

/// For every owner-reference record whose `(api_version, kind)` matches
/// the given kind descriptor, the owner's reference scoped to the child's
/// namespace.
pub fn trigger_owners(obj: &DynamicObject, gvk: &GroupVersionKind) -> (r: Vec<ObjectRef>)
    ensures
        r.deep_view() == trigger_owners_spec(
            obj@.meta.owner_references,
            gvk@,
            obj@.meta.namespace,
        ),
{
    let mut out: Vec<ObjectRef> = Vec::new();
    let mut i: usize = 0;
    let owners = &obj.meta.owner_references;
    while i < owners.len()
        invariant
            i <= owners@.len(),
            owners == &obj.meta.owner_references,
            out.deep_view() =~= trigger_owners_spec(
                obj@.meta.owner_references.subrange(0, i as int),
                gvk@,
                obj@.meta.namespace,
            ),
        decreases owners@.len() - i,
    {
        let ns: Option<&str> = match &obj.meta.namespace {
            Some(n) => Some(n.as_str()),
            None => None,
        };
        let made = ObjectRef::from_owner_ref(ns, &owners[i], gvk.duplicate());
        proof {
            assert(obj@.meta.owner_references.subrange(0, i + 1 as int).drop_last() =~= obj@.meta
                .owner_references.subrange(0, i as int));
            assert(obj@.meta.owner_references.subrange(0, i + 1 as int).last() == obj@.meta
                .owner_references[i as int]);
        }
        match made {
            Some(oref) => {
                out.push(oref);
            },
            None => {},
        }
        proof {
            assert(out.deep_view() =~= trigger_owners_spec(
                obj@.meta.owner_references.subrange(0, i + 1 as int),
                gvk@,
                obj@.meta.namespace,
            ));
        }
        i = i + 1;
    }
    proof {
        assert(obj@.meta.owner_references.subrange(0, owners@.len() as int) =~= obj@.meta
            .owner_references);
    }
    out
}

/// How one watch source maps its events to reconcile requests.
#[derive(Clone, Debug)]
pub enum TriggerSource {
    /// The primary watch: every applied object triggers itself (restarts
    /// explode into applications; deletions need no trigger, the store
    /// lookup already reports them).
    SelfObjects,
    /// A watch on owned children of this kind: every touched child
    /// triggers the owners of the controller's kind named in its
    /// owner references.
    OwnedBy(GroupVersionKind),
}

/// The references one source derives from one event.
pub open spec fn route_spec(
    source: TriggerSource,
    dyntype: GvkView,
    e: EventView,
) -> Seq<RefView>
    decreases flatten_touched_spec(e).len(),
{
    match source {
        TriggerSource::SelfObjects => Seq::new(
            flatten_applied_spec(e).len(),
            |i: int|
                RefView {
                    gvk: dyntype,
                    name: flatten_applied_spec(e)[i].meta.name,
                    namespace: flatten_applied_spec(e)[i].meta.namespace,
                },
        ),
        TriggerSource::OwnedBy(_) => route_owners_spec(flatten_touched_spec(e), dyntype),
    }
}

/// The owner-triggered references of a sequence of touched objects, in
/// object order.
pub open spec fn route_owners_spec(objs: Seq<ObjectView>, dyntype: GvkView) -> Seq<RefView>
    decreases objs.len(),
{
    if objs.len() == 0 {
        Seq::empty()
    } else {
        route_owners_spec(objs.drop_last(), dyntype) + trigger_owners_spec(
            objs.last().meta.owner_references,
            dyntype,
            objs.last().meta.namespace,
        )
    }
}

/// The typed façade's wiring decisions: the controlled kind and the watch
/// sources feeding its reconcile queue. The primary source triggering the
/// object itself is registered first; `owns` adds a child watch mapped
/// through owner references. The streams themselves are driven by the
/// caller, which routes each source's events through [`Controller::route`].
#[derive(Clone, Debug)]
pub struct Controller {
    dyntype: GroupVersionKind,
    sources: Vec<TriggerSource>,
}

impl Controller {
    /// The kind being controlled.
    pub closed spec fn dyntype_spec(&self) -> GvkView {
        self.dyntype@
    }

    /// The registered sources, primary first.
    pub closed spec fn sources_spec(&self) -> Seq<TriggerSource> {
        self.sources@
    }

    /// A controller on the given kind, with the primary self-trigger
    /// source registered.
    pub fn new_with(dyntype: GroupVersionKind) -> (r: Self)
        ensures
            r.dyntype_spec() == dyntype@,
            r.sources_spec() =~= seq![TriggerSource::SelfObjects],
    {
        let mut sources: Vec<TriggerSource> = Vec::new();
        sources.push(TriggerSource::SelfObjects);
        Controller { dyntype, sources }
    }

    /// Register a watch on children of the given kind, triggering their
    /// owners of the controlled kind.
    pub fn owns(self, child: GroupVersionKind) -> (r: Self)
        ensures
            r.dyntype_spec() == self.dyntype_spec(),
            r.sources_spec() =~= self.sources_spec().push(TriggerSource::OwnedBy(child)),
    {
        let mut sources = self.sources;
        sources.push(TriggerSource::OwnedBy(child));
        Controller { dyntype: self.dyntype, sources }
    }

    /// How many sources feed the queue.
    pub fn source_count(&self) -> (r: usize)
        ensures
            r == self.sources_spec().len(),
    {
        self.sources.len()
    }

    /// Map one event of one source to the references to reconcile, in
    /// order.
    pub fn route(&self, source: usize, event: &Event) -> (r: Vec<ObjectRef>)
        requires
            source < self.sources_spec().len(),
        ensures
            r.deep_view() == route_spec(
                self.sources_spec()[source as int],
                self.dyntype_spec(),
                event@,
            ),
    {
        match &self.sources[source] {
            TriggerSource::SelfObjects => {
                let objs = flatten_applied(event.duplicate_event());
                let mut out: Vec<ObjectRef> = Vec::new();
                let mut i: usize = 0;
                while i < objs.len()
                    invariant
                        i <= objs@.len(),
                        objs.deep_view() == flatten_applied_spec(event@),
                        out.deep_view() =~= route_spec(
                            TriggerSource::SelfObjects,
                            self.dyntype_spec(),
                            event@,
                        ).subrange(0, i as int),
                    decreases objs@.len() - i,
                {
                    proof {
                        assert(out.deep_view().len() == i);
                        assert(flatten_applied_spec(event@)[i as int] == objs@[i as int]@);
                    }
                    out.push(trigger_self(&objs[i], self.dyntype.duplicate()));
                    proof {
                        assert(out.deep_view().len() == i + 1);
                        assert(out.deep_view() =~= route_spec(
                            TriggerSource::SelfObjects,
                            self.dyntype_spec(),
                            event@,
                        ).subrange(0, i + 1 as int));
                    }
                    i = i + 1;
                }
                proof {
                    assert(out.deep_view() =~= route_spec(
                        TriggerSource::SelfObjects,
                        self.dyntype_spec(),
                        event@,
                    ));
                }
                out
            },
            TriggerSource::OwnedBy(_) => {
                let objs = flatten_touched(event.duplicate_event());
                let mut out: Vec<ObjectRef> = Vec::new();
                let mut i: usize = 0;
                while i < objs.len()
                    invariant
                        i <= objs@.len(),
                        objs.deep_view() == flatten_touched_spec(event@),
                        out.deep_view() =~= route_owners_spec(
                            flatten_touched_spec(event@).subrange(0, i as int),
                            self.dyntype_spec(),
                        ),
                    decreases objs@.len() - i,
                {
                    let mut refs = trigger_owners(&objs[i], &self.dyntype);
                    proof {
                        assert(flatten_touched_spec(event@).subrange(0, i + 1 as int).drop_last()
                            =~= flatten_touched_spec(event@).subrange(0, i as int));
                        assert(flatten_touched_spec(event@).subrange(0, i + 1 as int).last()
                            == objs@[i as int]@);
                    }
                    out.append(&mut refs);
                    proof {
                        assert(out.deep_view() =~= route_owners_spec(
                            flatten_touched_spec(event@).subrange(0, i + 1 as int),
                            self.dyntype_spec(),
                        ));
                    }
                    i = i + 1;
                }
                proof {
                    assert(flatten_touched_spec(event@).subrange(
                        0,
                        flatten_touched_spec(event@).len() as int,
                    ) =~= flatten_touched_spec(event@));
                }
                out
            },
        }
    }
}

} // verus!
