//! Custom resources: the smallest amount of naming data needed to run
//! the API against a kind that is not known at compile time.

use vstd::prelude::*;
use vstd::string::*;

use crate::outside::{
    ascii_lowercase, is_pascal_case_word, lower_ascii, pascal_case, plural_of, to_plural_word,
};
use crate::request::{Resource, ResourceView};

verus! {

/// The mathematical value of a [`CustomResource`].
#[verifier::ext_equal]
pub struct CustomResourceView {
    pub kind: Seq<char>,
    pub group: Seq<char>,
    pub version: Seq<char>,
    pub api_version: Seq<char>,
    pub namespace: Option<Seq<char>>,
}

/// A data equivalent of a compiled-in kind for a custom resource: the
/// version and group must be set by the builder.
#[derive(Clone, Debug)]
pub struct CustomResource {
    kind: String,
    group: String,
    version: String,
    api_version: String,
    namespace: Option<String>,
}

impl View for CustomResource {
    type V = CustomResourceView;

    closed spec fn view(&self) -> CustomResourceView {
        CustomResourceView {
            kind: self.kind@,
            group: self.group@,
            version: self.version@,
            api_version: self.api_version@,
            namespace: match self.namespace {
                Some(ns) => Some(ns@),
                None => None,
            },
        }
    }
}

/// The mathematical value of a [`CrBuilder`].
#[verifier::ext_equal]
pub struct CrBuilderView {
    pub kind: Seq<char>,
    pub version: Option<Seq<char>>,
    pub group: Option<Seq<char>>,
    pub namespace: Option<Seq<char>>,
}

/// A builder for a [`CustomResource`]: the kind is fixed at construction,
/// group and version must be supplied before building.
#[derive(Clone, Debug)]
pub struct CrBuilder {
    pub kind: String,
    pub version: Option<String>,
    pub group: Option<String>,
    pub namespace: Option<String>,
}

impl View for CrBuilder {
    type V = CrBuilderView;

    open spec fn view(&self) -> CrBuilderView {
        CrBuilderView {
            kind: self.kind@,
            version: match self.version {
                Some(v) => Some(v@),
                None => None,
            },
            group: match self.group {
                Some(g) => Some(g@),
                None => None,
            },
            namespace: match self.namespace {
                Some(ns) => Some(ns@),
                None => None,
            },
        }
    }
}

impl CustomResource {
    /// Start a builder for the kind, rejecting a plural or non-PascalCase
    /// kind name: `Ok` exactly when the kind is not its own plural and is
    /// PascalCase.
    pub fn try_kind(kind: &str) -> (r: Result<CrBuilder, &'static str>)
        ensures
            (plural_of(kind@) != kind@ && pascal_case(kind@)) <==> r is Ok,
            r matches Ok(b) ==> b@ == (CrBuilderView {
                kind: kind@,
                version: None,
                group: None,
                namespace: None,
            }),
            r matches Err(msg) ==> (plural_of(kind@) == kind@ && msg@ == "kind must not be plural"@)
                || (plural_of(kind@) != kind@ && !pascal_case(kind@) && msg@
                == "kind must be in PascalCase"@),
    {
        let plural = to_plural_word(kind);
        if plural == kind.to_owned() {
            Err("kind must not be plural")
        } else if !is_pascal_case_word(kind) {
            Err("kind must be in PascalCase")
        } else {
            Ok(CustomResource::kind(kind))
        }
    }

    /// Start a builder for a kind already known to be singular and
    /// PascalCase; [`CustomResource::try_kind`] checks and reports
    /// instead.
    pub fn kind(kind: &str) -> (r: CrBuilder)
        requires
            plural_of(kind@) != kind@,
            pascal_case(kind@),
        ensures
            r@ == (CrBuilderView { kind: kind@, version: None, group: None, namespace: None }),
    {
        CrBuilder { kind: kind.to_owned(), version: None, group: None, namespace: None }
    }

    /// The request builder this custom resource scopes: URLs under its
    /// group and version, the plural inferred by inflection from the
    /// lowercased kind.
    pub fn into_resource(self) -> (r: Resource)
        ensures
            r@ == (ResourceView {
                api_version: self@.api_version,
                group: self@.group,
                version: self@.version,
                kind: self@.kind,
                plural: plural_of(lower_ascii(self@.kind)),
                namespace: self@.namespace,
            }),
    {
        let plural = to_plural_word(ascii_lowercase(self.kind.as_str()).as_str());
        let r = Resource {
            api_version: self.api_version,
            group: self.group,
            version: self.version,
            kind: self.kind,
            plural,
            namespace: self.namespace,
        };
        proof {
            assert(r@ =~= (ResourceView {
                api_version: self@.api_version,
                group: self@.group,
                version: self@.version,
                kind: self@.kind,
                plural: plural_of(lower_ascii(self@.kind)),
                namespace: self@.namespace,
            }));
        }
        r
    }
}

impl CrBuilder {
    /// Set the api group of the custom resource.
    pub fn group(self, group: &str) -> (r: Self)
        ensures
            r@ == (CrBuilderView { group: Some(group@), ..self@ }),
    {
        let r = CrBuilder { group: Some(group.to_owned()), ..self };
        proof {
            assert(r@ =~= (CrBuilderView { group: Some(group@), ..self@ }));
        }
        r
    }

    /// Set the api version of the custom resource.
    pub fn version(self, version: &str) -> (r: Self)
        ensures
            r@ == (CrBuilderView { version: Some(version@), ..self@ }),
    {
        let r = CrBuilder { version: Some(version.to_owned()), ..self };
        proof {
            assert(r@ =~= (CrBuilderView { version: Some(version@), ..self@ }));
        }
        r
    }

    /// Set the namespace of the custom resource.
    pub fn within(self, ns: &str) -> (r: Self)
        ensures
            r@ == (CrBuilderView { namespace: Some(ns@), ..self@ }),
    {
        let r = CrBuilder { namespace: Some(ns.to_owned()), ..self };
        proof {
            assert(r@ =~= (CrBuilderView { namespace: Some(ns@), ..self@ }));
        }
        r
    }

    /// Consume the builder and build the custom resource. The group and
    /// version must have been set; the api version is `group/version`, or
    /// just `version` for the core group.
    pub fn build(self) -> (r: CustomResource)
        requires
            self@.version is Some,
            self@.group is Some,
        ensures
            r@ == (CustomResourceView {
                kind: self@.kind,
                group: self@.group.unwrap(),
                version: self@.version.unwrap(),
                api_version: if self@.group.unwrap().len() == 0 {
                    self@.version.unwrap()
                } else {
                    self@.group.unwrap() + "/"@ + self@.version.unwrap()
                },
                namespace: self@.namespace,
            }),
    {
        let version = self.version.unwrap();
        let group = self.group.unwrap();
        let api_version: String = if group.as_str().unicode_len() == 0 {
            version.clone()
        } else {
            let mut s = group.clone();
            s.append("/");
            s.append(version.as_str());
            s
        };
        let r = CustomResource {
            api_version,
            kind: self.kind,
            version,
            group,
            namespace: self.namespace,
        };
        proof {
            assert(r@ =~= (CustomResourceView {
                kind: self@.kind,
                group: self@.group.unwrap(),
                version: self@.version.unwrap(),
                api_version: if self@.group.unwrap().len() == 0 {
                    self@.version.unwrap()
                } else {
                    self@.group.unwrap() + "/"@ + self@.version.unwrap()
                },
                namespace: self@.namespace,
            }));
        }
        r
    }

    /// Consume the builder and convert straight to a request builder.
    pub fn into_resource(self) -> (r: Resource)
        requires
            self@.version is Some,
            self@.group is Some,
        ensures
            r@ == (ResourceView {
                api_version: if self@.group.unwrap().len() == 0 {
                    self@.version.unwrap()
                } else {
                    self@.group.unwrap() + "/"@ + self@.version.unwrap()
                },
                group: self@.group.unwrap(),
                version: self@.version.unwrap(),
                kind: self@.kind,
                plural: plural_of(lower_ascii(self@.kind)),
                namespace: self@.namespace,
            }),
    {
        self.build().into_resource()
    }
}

} // verus!
