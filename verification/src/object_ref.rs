//! Typed and namespaced (if relevant) references to objects: the equality
//! and hashing key for every queue and map in the runtime.

use vstd::prelude::*;
use vstd::string::*;

use crate::kind::{GroupVersionKind, GvkView, Scope};
use crate::object::{DynamicObject, ObjectView, OwnerReference};

verus! {

/// The mathematical value of an [`ObjectRef`]: equality considers all of
/// kind descriptor, namespace, and name.
#[verifier::ext_equal]
pub struct RefView {
    pub gvk: GvkView,
    pub name: Seq<char>,
    pub namespace: Option<Seq<char>>,
}

/// Erasure keeps the whole reference, kind descriptor included: an erased
/// reference is the same mathematical value.
pub open spec fn erase_view(r: RefView) -> RefView {
    r
}

/// The reference an object denotes: its own kind, name, and namespace.
pub open spec fn ref_of_obj(o: ObjectView) -> RefView {
    RefView { gvk: o.types, name: o.meta.name, namespace: o.meta.namespace }
}

/// `Kind.Version.Group/name`, then `.namespace` when one is present.
pub open spec fn display_of(r: RefView) -> Seq<char> {
    let base = r.gvk.kind + "."@ + r.gvk.version + "."@ + r.gvk.group + "/"@ + r.name;
    match r.namespace {
        Some(ns) => base + "."@ + ns,
        None => base,
    }
}

impl Default for GroupVersionKind {
    /// The descriptor a bare reference starts from: all parts empty,
    /// cluster scope.
    fn default() -> (r: Self)
        ensures
            r@ == (GvkView {
                group: Seq::<char>::empty(),
                version: Seq::<char>::empty(),
                kind: Seq::<char>::empty(),
                plural: Seq::<char>::empty(),
                scope: Scope::Cluster,
            }),
    {
        GroupVersionKind {
            group: String::new(),
            version: String::new(),
            kind: String::new(),
            plural: String::new(),
            scope: Scope::Cluster,
        }
    }
}

/// A reference to an object: kind descriptor, name, and namespace.
///
/// The namespace may only be `None` if the kind is cluster-scoped. It is
/// acceptable for a reference to a cluster-scoped kind to carry a
/// namespace, but such a reference is a different value from the bare one.
#[derive(Clone, Debug)]
pub struct ObjectRef {
    /// The kind of the object.
    pub gvk: GroupVersionKind,
    /// The name of the object.
    pub name: String,
    /// The namespace of the object.
    pub namespace: Option<String>,
}

impl View for ObjectRef {
    type V = RefView;

    open spec fn view(&self) -> RefView {
        RefView {
            gvk: self.gvk@,
            name: self.name@,
            namespace: match self.namespace {
                Some(ns) => Some(ns@),
                None => None,
            },
        }
    }
}

impl PartialEq for ObjectRef {
    fn eq(&self, other: &Self) -> (r: bool) {
        match (&self.namespace, &other.namespace) {
            (Some(a), Some(b)) => {
                let r = self.gvk == other.gvk && self.name == other.name && *a == *b;
                proof {
                    if r {
                        assert(self@ =~= other@);
                    }
                }
                r
            },
            (None, None) => {
                let r = self.gvk == other.gvk && self.name == other.name;
                proof {
                    if r {
                        assert(self@ =~= other@);
                    }
                }
                r
            },
            _ => false,
        }
    }
}

impl vstd::std_specs::cmp::PartialEqSpecImpl for ObjectRef {
    open spec fn obeys_eq_spec() -> bool {
        true
    }

    open spec fn eq_spec(&self, other: &Self) -> bool {
        self@ == other@
    }
}

impl ObjectRef {
    /// A reference with the given name and the default kind descriptor.
    pub fn new(name: &str) -> (r: Self)
        ensures
            r@ == (RefView {
                gvk: GvkView {
                    group: Seq::<char>::empty(),
                    version: Seq::<char>::empty(),
                    kind: Seq::<char>::empty(),
                    plural: Seq::<char>::empty(),
                    scope: Scope::Cluster,
                },
                name: name@,
                namespace: None,
            }),
    {
        Self::new_with(name, GroupVersionKind::default())
    }

    /// A reference with the given name and kind descriptor, no namespace.
    pub fn new_with(name: &str, gvk: GroupVersionKind) -> (r: Self)
        ensures
            r@ == (RefView { gvk: gvk@, name: name@, namespace: None }),
    {
        ObjectRef { gvk, name: name.to_owned(), namespace: None }
    }

    /// Move the reference into the given namespace.
    pub fn within(self, namespace: &str) -> (r: Self)
        ensures
            r@ == (RefView { namespace: Some(namespace@), ..self@ }),
    {
        ObjectRef { namespace: Some(namespace.to_owned()), ..self }
    }

    /// The reference of the object itself, under the object's own kind.
    pub fn from_obj(obj: &DynamicObject) -> (r: Self)
        ensures
            r@ == ref_of_obj(obj@),
    {
        ObjectRef {
            gvk: obj.types.duplicate(),
            name: obj.meta.name.clone(),
            namespace: match &obj.meta.namespace {
                Some(ns) => Some(ns.clone()),
                None => None,
            },
        }
    }

    /// The reference of the object under the given kind descriptor.
    pub fn from_obj_with(obj: &DynamicObject, gvk: GroupVersionKind) -> (r: Self)
        ensures
            r@ == (RefView { gvk: gvk@, name: obj@.meta.name, namespace: obj@.meta.namespace }),
    {
        ObjectRef {
            gvk,
            name: obj.meta.name.clone(),
            namespace: match &obj.meta.namespace {
                Some(ns) => Some(ns.clone()),
                None => None,
            },
        }
    }

    /// A reference built from an owner-reference record and a namespace
    /// hint: `Some` exactly when the record's `(api_version, kind)` matches
    /// the given kind descriptor.
    pub fn from_owner_ref(
        namespace: Option<&str>,
        owner: &OwnerReference,
        gvk: GroupVersionKind,
    ) -> (r: Option<Self>)
        ensures
            (owner@.api_version == gvk@.api_version() && owner@.kind == gvk@.kind) ==> (r matches Some(
                oref,
            ) && oref@ == (RefView {
                gvk: gvk@,
                name: owner@.name,
                namespace: match namespace {
                    Some(ns) => Some(ns@),
                    None => None,
                },
            })),
            !(owner@.api_version == gvk@.api_version() && owner@.kind == gvk@.kind) ==> r is None,
    {
        let api_version = gvk.api_version();
        if owner.api_version == api_version && owner.kind == gvk.kind {
            Some(
                ObjectRef {
                    gvk,
                    name: owner.name.clone(),
                    namespace: match namespace {
                        Some(ns) => Some(ns.to_owned()),
                        None => None,
                    },
                },
            )
        } else {
            None
        }
    }

    /// Re-key the reference to another kind descriptor. No checking is done
    /// on whether the conversion makes sense.
    pub fn into_kind_unchecked(self, gvk: GroupVersionKind) -> (r: Self)
        ensures
            r@ == (RefView { gvk: gvk@, ..self@ }),
    {
        ObjectRef { gvk, ..self }
    }

    /// Erase the static kind into the runtime-carried descriptor. The
    /// descriptor is kept, so references of different kinds stay different.
    pub fn erase(self) -> (r: Self)
        ensures
            r@ == erase_view(self@),
    {
        self
    }

    /// A copy of the reference with the same mathematical value.
    pub fn duplicate(&self) -> (r: Self)
        ensures
            r@ == self@,
    {
        let r = ObjectRef {
            gvk: self.gvk.duplicate(),
            name: self.name.clone(),
            namespace: match &self.namespace {
                Some(ns) => Some(ns.clone()),
                None => None,
            },
        };
        proof {
            assert(r@ =~= self@);
        }
        r
    }

    /// The display form `Kind.Version.Group/name[.namespace]`.
    pub fn to_display_string(&self) -> (r: String)
        ensures
            r@ == display_of(self@),
    {
        let mut s = self.gvk.kind.clone();
        s.append(".");
        s.append(self.gvk.version.as_str());
        s.append(".");
        s.append(self.gvk.group.as_str());
        s.append("/");
        s.append(self.name.as_str());
        match &self.namespace {
            Some(ns) => {
                s.append(".");
                s.append(ns.as_str());
            },
            None => {},
        }
        s
    }
}

/// Two references of different kinds stay different after erasure: erasing
/// keeps the kind descriptor.
pub proof fn lemma_erase_keeps_kinds_distinct(a: RefView, b: RefView)
    requires
        a.gvk != b.gvk,
    ensures
        erase_view(a) != erase_view(b),
{
}

/// Building a reference reads only the object's mathematical value: an
/// object and any copy of it yield the same reference.
pub proof fn lemma_ref_of_copy(a: ObjectView, b: ObjectView)
    requires
        a == b,
    ensures
        ref_of_obj(a) == ref_of_obj(b),
{
}

/// The display form is transparent to erasure: a reference and its erased
/// form print the same.
pub proof fn lemma_display_transparent_to_erasure(r: RefView)
    ensures
        display_of(erase_view(r)) == display_of(r),
{
}

impl DeepView for ObjectRef {
    type V = RefView;

    open spec fn deep_view(&self) -> RefView {
        self@
    }
}

} // verus!
