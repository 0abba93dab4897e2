//! The object model: metadata, owner references, and the dynamic object
//! carried through the runtime. The runtime treats objects as opaque except
//! for these metadata fields.

use vstd::prelude::*;

use crate::kind::{GroupVersionKind, GvkView};

verus! {

/// The mathematical value of an [`OwnerReference`].
#[verifier::ext_equal]
pub struct OwnerRefView {
    pub api_version: Seq<char>,
    pub kind: Seq<char>,
    pub name: Seq<char>,
    pub uid: Seq<char>,
}

/// A metadata pointer on a child object to a parent object; enables
/// owner-driven triggering.
#[derive(Clone, Debug)]
pub struct OwnerReference {
    pub api_version: String,
    pub kind: String,
    pub name: String,
    pub uid: String,
}

impl View for OwnerReference {
    type V = OwnerRefView;

    open spec fn view(&self) -> OwnerRefView {
        OwnerRefView {
            api_version: self.api_version@,
            kind: self.kind@,
            name: self.name@,
            uid: self.uid@,
        }
    }
}

impl OwnerReference {
    /// Build an owner reference record.
    pub fn new(api_version: String, kind: String, name: String, uid: String) -> (r: Self)
        ensures
            r@ == (OwnerRefView { api_version: api_version@, kind: kind@, name: name@, uid: uid@ }),
    {
        OwnerReference { api_version, kind, name, uid }
    }

    /// An exact copy of the record.
    pub fn duplicate(&self) -> (r: Self)
        ensures
            r == *self,
    {
        OwnerReference {
            api_version: self.api_version.clone(),
            kind: self.kind.clone(),
            name: self.name.clone(),
            uid: self.uid.clone(),
        }
    }
}

/// The mathematical value of an [`ObjectMeta`].
#[verifier::ext_equal]
pub struct MetaView {
    pub name: Seq<char>,
    pub namespace: Option<Seq<char>>,
    pub resource_version: Seq<char>,
    pub uid: Seq<char>,
    pub owner_references: Seq<OwnerRefView>,
    pub deletion_timestamp: Option<Seq<char>>,
}

/// The metadata every object carries: name, namespace, resource version,
/// uid, owner references, and an optional deletion timestamp.
#[derive(Clone, Debug)]
pub struct ObjectMeta {
    pub name: String,
    pub namespace: Option<String>,
    pub resource_version: String,
    pub uid: String,
    pub owner_references: Vec<OwnerReference>,
    pub deletion_timestamp: Option<String>,
}

impl View for ObjectMeta {
    type V = MetaView;

    open spec fn view(&self) -> MetaView {
        MetaView {
            name: self.name@,
            namespace: match self.namespace {
                Some(ns) => Some(ns@),
                None => None,
            },
            resource_version: self.resource_version@,
            uid: self.uid@,
            owner_references: self.owner_references.deep_view(),
            deletion_timestamp: match self.deletion_timestamp {
                Some(ts) => Some(ts@),
                None => None,
            },
        }
    }
}

impl DeepView for OwnerReference {
    type V = OwnerRefView;

    open spec fn deep_view(&self) -> OwnerRefView {
        self@
    }
}

impl ObjectMeta {
    /// Metadata with the given name, no namespace, and empty remaining
    /// fields.
    pub fn named(name: String) -> (r: Self)
        ensures
            r@ == (MetaView {
                name: name@,
                namespace: None,
                resource_version: Seq::<char>::empty(),
                uid: Seq::<char>::empty(),
                owner_references: Seq::<OwnerRefView>::empty(),
                deletion_timestamp: None,
            }),
    {
        let r = ObjectMeta {
            name,
            namespace: None,
            resource_version: String::new(),
            uid: String::new(),
            owner_references: Vec::new(),
            deletion_timestamp: None,
        };
        proof {
            assert(r.owner_references.deep_view() =~= Seq::<OwnerRefView>::empty());
        }
        r
    }

    /// A copy of the metadata with the same mathematical value.
    pub fn duplicate(&self) -> (r: Self)
        ensures
            r@ == self@,
    {
        let mut owners: Vec<OwnerReference> = Vec::new();
        let mut i: usize = 0;
        while i < self.owner_references.len()
            invariant
                i <= self.owner_references.len(),
                owners@ =~= self.owner_references@.subrange(0, i as int),
            decreases self.owner_references.len() - i,
        {
            owners.push(self.owner_references[i].duplicate());
            i = i + 1;
        }
        proof {
            assert(owners@ =~= self.owner_references@);
        }
        let r = ObjectMeta {
            name: self.name.clone(),
            namespace: match &self.namespace {
                Some(ns) => Some(ns.clone()),
                None => None,
            },
            resource_version: self.resource_version.clone(),
            uid: self.uid.clone(),
            owner_references: owners,
            deletion_timestamp: match &self.deletion_timestamp {
                Some(ts) => Some(ts.clone()),
                None => None,
            },
        };
        proof {
            assert(r@ =~= self@);
        }
        r
    }
}

/// The mathematical value of a [`DynamicObject`].
#[verifier::ext_equal]
pub struct ObjectView {
    pub types: GvkView,
    pub meta: MetaView,
}

/// An object as the runtime sees it: a kind descriptor plus metadata. The
/// `spec` and `status` payloads are opaque to the runtime and are not
/// carried here.
#[derive(Clone, Debug)]
pub struct DynamicObject {
    pub types: GroupVersionKind,
    pub meta: ObjectMeta,
}

impl View for DynamicObject {
    type V = ObjectView;

    open spec fn view(&self) -> ObjectView {
        ObjectView { types: self.types@, meta: self.meta@ }
    }
}

impl DynamicObject {
    /// An object of the given kind with the given metadata.
    pub fn new(types: GroupVersionKind, meta: ObjectMeta) -> (r: Self)
        ensures
            r@ == (ObjectView { types: types@, meta: meta@ }),
    {
        DynamicObject { types, meta }
    }

    /// A copy of the object with the same mathematical value.
    pub fn duplicate(&self) -> (r: Self)
        ensures
            r@ == self@,
    {
        let r = DynamicObject { types: self.types.duplicate(), meta: self.meta.duplicate() };
        proof {
            assert(r@ =~= self@);
        }
        r
    }
}

} // verus!
