//! Kind descriptors: the runtime identity of a resource type.

use vstd::prelude::*;
use vstd::string::*;

use crate::outside::{ascii_lowercase, lower_ascii, plural_of, to_plural_word};

verus! {

/// Whether objects of a kind live inside a namespace or at cluster level.
#[derive(Clone, Copy, Debug, PartialEq, Eq, Structural)]
pub enum Scope {
    Namespaced,
    Cluster,
}

/// The mathematical value of a [`GroupVersionKind`].
#[verifier::ext_equal]
pub struct GvkView {
    pub group: Seq<char>,
    pub version: Seq<char>,
    pub kind: Seq<char>,
    pub plural: Seq<char>,
    pub scope: Scope,
}

impl GvkView {
    /// `group/version`, or just `version` when the group is the core group.
    pub open spec fn api_version(self) -> Seq<char> {
        if self.group.len() == 0 {
            self.version
        } else {
            self.group + "/"@ + self.version
        }
    }
}

/// A kind descriptor names a resource type: group (empty for the core
/// group), version, kind, plural, and scope. Refs and request builders
/// carry one at runtime; differently-kinded keys always compare unequal.
#[derive(Clone, Debug)]
pub struct GroupVersionKind {
    pub group: String,
    pub version: String,
    pub kind: String,
    pub plural: String,
    pub scope: Scope,
}

impl View for GroupVersionKind {
    type V = GvkView;

    open spec fn view(&self) -> GvkView {
        GvkView {
            group: self.group@,
            version: self.version@,
            kind: self.kind@,
            plural: self.plural@,
            scope: self.scope,
        }
    }
}

impl PartialEq for GroupVersionKind {
    fn eq(&self, other: &Self) -> (r: bool) {
        self.group == other.group && self.version == other.version && self.kind == other.kind
            && self.plural == other.plural && self.scope == other.scope
    }
}

impl vstd::std_specs::cmp::PartialEqSpecImpl for GroupVersionKind {
    open spec fn obeys_eq_spec() -> bool {
        true
    }

    open spec fn eq_spec(&self, other: &Self) -> bool {
        self@ == other@
    }
}

impl GroupVersionKind {
    /// Build a descriptor from its five parts.
    pub fn new(group: String, version: String, kind: String, plural: String, scope: Scope) -> (r:
        Self)
        ensures
            r@ == (GvkView {
                group: group@,
                version: version@,
                kind: kind@,
                plural: plural@,
                scope,
            }),
    {
        GroupVersionKind { group, version, kind, plural, scope }
    }

    /// Build a descriptor whose plural is inferred by inflection from
    /// the lowercased kind.
    pub fn with_inferred_plural(group: String, version: String, kind: String, scope: Scope) -> (r:
        Self)
        ensures
            r@ == (GvkView {
                group: group@,
                version: version@,
                kind: kind@,
                plural: plural_of(lower_ascii(kind@)),
                scope,
            }),
    {
        let plural = to_plural_word(ascii_lowercase(kind.as_str()).as_str());
        GroupVersionKind { group, version, kind, plural, scope }
    }

    /// An exact copy of the descriptor.
    pub fn duplicate(&self) -> (r: Self)
        ensures
            r == *self,
    {
        GroupVersionKind {
            group: self.group.clone(),
            version: self.version.clone(),
            kind: self.kind.clone(),
            plural: self.plural.clone(),
            scope: self.scope,
        }
    }

    /// `group/version`, or just `version` when the group is empty.
    pub fn api_version(&self) -> (r: String)
        ensures
            r@ == self@.api_version(),
    {
        if self.group.as_str().unicode_len() == 0 {
            self.version.clone()
        } else {
            let mut s = self.group.clone();
            s.append("/");
            s.append(self.version.as_str());
            s
        }
    }
}

} // verus!
