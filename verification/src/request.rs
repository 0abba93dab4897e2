//! Request descriptors: the URL, method and body of every operation on a
//! resource collection, built and proved against exact string
//! specifications.

use vstd::prelude::*;
use vstd::string::*;

use crate::decimal::{dec_int_str, dec_str, i64_to_string, u64_to_string};
use crate::kind::GroupVersionKind;
use crate::outside::{append_query_pair, query_encoded, string_into_bytes, utf8_of};
use crate::params::{
    AttachParams, DeleteParams, DeleteParamsView, ListParams, ListParamsView, LogParams,
    PatchParams, PostParams, PreconditionsView, PropagationPolicy,
};

verus! {

/// The mathematical value of an [`HttpRequest`].
#[verifier::ext_equal]
pub struct ReqView {
    pub method: Seq<char>,
    pub uri: Seq<char>,
    pub body: Seq<u8>,
}

/// A fully-specified request descriptor: method, URI and body. The
/// transport executing it lives outside this crate.
#[derive(Clone, Debug)]
pub struct HttpRequest {
    method: String,
    uri: String,
    body: Vec<u8>,
}

impl View for HttpRequest {
    type V = ReqView;

    closed spec fn view(&self) -> ReqView {
        ReqView { method: self.method@, uri: self.uri@, body: self.body@ }
    }
}

impl HttpRequest {
    /// The request method.
    pub fn method(&self) -> (r: &str)
        ensures
            r@ == self@.method,
    {
        self.method.as_str()
    }

    /// The request URI.
    pub fn uri(&self) -> (r: &str)
        ensures
            r@ == self@.uri,
    {
        self.uri.as_str()
    }

    /// The request body.
    pub fn body(&self) -> (r: &Vec<u8>)
        ensures
            r@ == self@.body,
    {
        &self.body
    }
}

/// Why a request could not be built.
#[derive(Clone, Debug)]
pub enum RequestError {
    /// The parameters contradict each other or exceed what the server
    /// accepts; the message says how.
    Validation(String),
}

/// The mathematical value of a [`Resource`].
#[verifier::ext_equal]
pub struct ResourceView {
    pub api_version: Seq<char>,
    pub group: Seq<char>,
    pub version: Seq<char>,
    pub kind: Seq<char>,
    pub plural: Seq<char>,
    pub namespace: Option<Seq<char>>,
}

/// A scoped request builder for one kind: enough naming data to produce
/// the URL of every operation, and the namespace the calls are bound to.
#[derive(Clone, Debug)]
pub struct Resource {
    /// The `group/version` the URLs name (just `version` for the core
    /// group).
    pub api_version: String,
    /// The API group, empty for the core group.
    pub group: String,
    /// The API version within the group.
    pub version: String,
    /// The kind's name.
    pub kind: String,
    /// The plural collection segment of the URLs.
    pub plural: String,
    /// The namespace the calls are bound to, if any.
    pub namespace: Option<String>,
}

impl View for Resource {
    type V = ResourceView;

    open spec fn view(&self) -> ResourceView {
        ResourceView {
            api_version: self.api_version@,
            group: self.group@,
            version: self.version@,
            kind: self.kind@,
            plural: self.plural@,
            namespace: match self.namespace {
                Some(ns) => Some(ns@),
                None => None,
            },
        }
    }
}

/// The collection URL: `/api/{version}/{plural}` for the core group,
/// `/apis/{group}/{version}/{plural}` otherwise, with
/// `namespaces/{namespace}/` inserted for a namespaced builder.
pub open spec fn url_of(r: ResourceView) -> Seq<char> {
    let prefix = if r.group.len() == 0 {
        "/api/"@
    } else {
        "/apis/"@
    };
    let base = prefix + r.api_version + "/"@;
    let scoped = match r.namespace {
        Some(ns) => base + "namespaces/"@ + ns + "/"@,
        None => base,
    };
    scoped + r.plural
}

/// One encoded query pair, with its leading separator.
pub open spec fn qpair(k: Seq<char>, v: Seq<char>) -> Seq<char> {
    "&"@ + query_encoded(k) + "="@ + query_encoded(v)
}

/// Append one encoded query pair to the URL being built.
fn push_pair(url: String, k: &str, v: &str) -> (r: String)
    requires
        url@.len() > 0,
    ensures
        r@ == url@ + qpair(k@, v@),
{
    let r = append_query_pair(url, k, v);
    proof {
        assert(r@ =~= url@ + qpair(k@, v@));
    }
    r
}

impl Resource {
    /// A cluster-scoped builder for the kind.
    pub fn all(gvk: &GroupVersionKind) -> (r: Self)
        ensures
            r@ == (ResourceView {
                api_version: gvk@.api_version(),
                group: gvk@.group,
                version: gvk@.version,
                kind: gvk@.kind,
                plural: gvk@.plural,
                namespace: None,
            }),
    {
        Resource {
            api_version: gvk.api_version(),
            group: gvk.group.clone(),
            version: gvk.version.clone(),
            kind: gvk.kind.clone(),
            plural: gvk.plural.clone(),
            namespace: None,
        }
    }

    /// A builder for the kind bound to the given namespace.
    pub fn namespaced(gvk: &GroupVersionKind, ns: &str) -> (r: Self)
        ensures
            r@ == (ResourceView {
                api_version: gvk@.api_version(),
                group: gvk@.group,
                version: gvk@.version,
                kind: gvk@.kind,
                plural: gvk@.plural,
                namespace: Some(ns@),
            }),
    {
        Resource {
            api_version: gvk.api_version(),
            group: gvk.group.clone(),
            version: gvk.version.clone(),
            kind: gvk.kind.clone(),
            plural: gvk.plural.clone(),
            namespace: Some(ns.to_owned()),
        }
    }

    /// The collection URL of this builder.
    pub fn make_url(&self) -> (r: String)
        ensures
            r@ == url_of(self@),
    {
        let mut s: String = if self.group.as_str().unicode_len() == 0 {
            String::from_str("/api/")
        } else {
            String::from_str("/apis/")
        };
        s.append(self.api_version.as_str());
        s.append("/");
        match &self.namespace {
            Some(ns) => {
                s.append("namespaces/");
                s.append(ns.as_str());
                s.append("/");
            },
            None => {},
        }
        s.append(self.plural.as_str());
        s
    }

    /// The collection URL with the query started: `{url}?`.
    fn url_query(&self) -> (r: String)
        ensures
            r@ == url_of(self@) + "?"@,
            r@.len() > 0,
    {
        let mut s = self.make_url();
        s.append("?");
        proof {
            reveal_strlit("?");
        }
        s
    }

    /// The URL of one named object with the query started:
    /// `{url}/{name}?`.
    fn named_url_query(&self, name: &str) -> (r: String)
        ensures
            r@ == url_of(self@) + "/"@ + name@ + "?"@,
            r@.len() > 0,
    {
        let mut s = self.make_url();
        s.append("/");
        s.append(name);
        s.append("?");
        proof {
            reveal_strlit("?");
        }
        s
    }

    /// The URL of one named object's subresource with the query started:
    /// `{url}/{name}/{subresource}?`.
    fn subresource_url_query(&self, name: &str, subresource: &str) -> (r: String)
        ensures
            r@ == url_of(self@) + "/"@ + name@ + "/"@ + subresource@ + "?"@,
            r@.len() > 0,
    {
        let mut s = self.make_url();
        s.append("/");
        s.append(name);
        s.append("/");
        s.append(subresource);
        s.append("?");
        proof {
            reveal_strlit("?");
        }
        s
    }
}

/// The query of a list call: the selectors, timeout, page size, and
/// continue token that are set, in that order.
pub open spec fn list_query(u: Seq<char>, lp: ListParamsView) -> Seq<char> {
    let u1 = match lp.label_selector {
        Some(s) => u + qpair("labelSelector"@, s),
        None => u,
    };
    let u2 = match lp.field_selector {
        Some(s) => u1 + qpair("fieldSelector"@, s),
        None => u1,
    };
    let u3 = match lp.timeout {
        Some(t) => u2 + qpair("timeoutSeconds"@, dec_str(t as int)),
        None => u2,
    };
    let u4 = match lp.limit {
        Some(l) => u3 + qpair("limit"@, dec_str(l as int)),
        None => u3,
    };
    match lp.continue_token {
        Some(t) => u4 + qpair("continue"@, t),
        None => u4,
    }
}

impl Resource {
    fn append_list_params(&self, url: String, lp: &ListParams) -> (r: String)
        requires
            url@.len() > 0,
        ensures
            r@ == list_query(url@, lp@),
            r@.len() > 0,
    {
        let mut s = url;
        match &lp.label_selector {
            Some(sel) => {
                s = push_pair(s, "labelSelector", sel.as_str());
            },
            None => {},
        }
        match &lp.field_selector {
            Some(sel) => {
                s = push_pair(s, "fieldSelector", sel.as_str());
            },
            None => {},
        }
        match &lp.timeout {
            Some(t) => {
                s = push_pair(s, "timeoutSeconds", u64_to_string(*t as u64).as_str());
            },
            None => {},
        }
        match &lp.limit {
            Some(l) => {
                s = push_pair(s, "limit", u64_to_string(*l as u64).as_str());
            },
            None => {},
        }
        match &lp.continue_token {
            Some(t) => {
                s = push_pair(s, "continue", t.as_str());
            },
            None => {},
        }
        s
    }

    /// List the collection: a GET on the collection URL carrying the list
    /// parameters.
    pub fn list(&self, lp: &ListParams) -> (r: Result<HttpRequest, RequestError>)
        ensures
            r matches Ok(req) && req@ == (ReqView {
                method: "GET"@,
                uri: list_query(url_of(self@) + "?"@, lp@),
                body: Seq::<u8>::empty(),
            }),
    {
        let uri = self.append_list_params(self.url_query(), lp);
        let req = HttpRequest { method: String::from_str("GET"), uri, body: Vec::new() };
        proof {
            assert(req@ =~= (ReqView {
                method: "GET"@,
                uri: list_query(url_of(self@) + "?"@, lp@),
                body: Seq::<u8>::empty(),
            }));
        }
        Ok(req)
    }

    /// Watch the collection from a resource version: a GET with
    /// `watch=true`, the long-poll timeout (defaulting to 290 seconds),
    /// any selectors, and `resourceVersion`.
    pub fn watch(&self, lp: &ListParams, resource_version: &str) -> (r: Result<
        HttpRequest,
        RequestError,
    >)
        ensures
            r matches Ok(req) && req@ == (ReqView {
                method: "GET"@,
                uri: watch_query(url_of(self@) + "?"@, lp@, resource_version@),
                body: Seq::<u8>::empty(),
            }),
    {
        let mut s = self.url_query();
        s = push_pair(s, "watch", "true");
        let timeout: u32 = match &lp.timeout {
            Some(t) => *t,
            None => 290,
        };
        s = push_pair(s, "timeoutSeconds", u64_to_string(timeout as u64).as_str());
        match &lp.label_selector {
            Some(sel) => {
                s = push_pair(s, "labelSelector", sel.as_str());
            },
            None => {},
        }
        match &lp.field_selector {
            Some(sel) => {
                s = push_pair(s, "fieldSelector", sel.as_str());
            },
            None => {},
        }
        s = push_pair(s, "resourceVersion", resource_version);
        let req = HttpRequest { method: String::from_str("GET"), uri: s, body: Vec::new() };
        proof {
            assert(req@ =~= (ReqView {
                method: "GET"@,
                uri: watch_query(url_of(self@) + "?"@, lp@, resource_version@),
                body: Seq::<u8>::empty(),
            }));
        }
        Ok(req)
    }

    /// Fetch one named object: a GET on its URL.
    pub fn get(&self, name: &str) -> (r: Result<HttpRequest, RequestError>)
        ensures
            r matches Ok(req) && req@ == (ReqView {
                method: "GET"@,
                uri: url_of(self@) + "/"@ + name@ + "?"@,
                body: Seq::<u8>::empty(),
            }),
    {
        let uri = self.named_url_query(name);
        Ok(HttpRequest { method: String::from_str("GET"), uri, body: Vec::new() })
    }

    /// Create an object from the serialized data: a POST on the
    /// collection URL, with `dryRun=All` when asked for. `Ok` exactly when
    /// the post parameters validate.
    pub fn create(&self, pp: &PostParams, data: Vec<u8>) -> (r: Result<HttpRequest, RequestError>)
        ensures
            (match pp@.field_manager {
                Some(fm) => fm.len() <= 128,
                None => true,
            }) ==> (r matches Ok(req) && req@ == (ReqView {
                method: "POST"@,
                uri: dry_run_query(url_of(self@) + "?"@, pp@.dry_run),
                body: data@,
            })),
            !(match pp@.field_manager {
                Some(fm) => fm.len() <= 128,
                None => true,
            }) ==> r is Err,
    {
        match pp.validate() {
            Ok(()) => {},
            Err(msg) => {
                return Err(RequestError::Validation(msg));
            },
        }
        let mut s = self.url_query();
        if pp.dry_run {
            s = push_pair(s, "dryRun", "All");
        }
        Ok(HttpRequest { method: String::from_str("POST"), uri: s, body: data })
    }

    /// Replace one named object with the serialized data: a PUT on its
    /// URL, with `dryRun=All` when asked for. `Ok` exactly when the post
    /// parameters validate.
    pub fn replace(&self, name: &str, pp: &PostParams, data: Vec<u8>) -> (r: Result<
        HttpRequest,
        RequestError,
    >)
        ensures
            (match pp@.field_manager {
                Some(fm) => fm.len() <= 128,
                None => true,
            }) ==> (r matches Ok(req) && req@ == (ReqView {
                method: "PUT"@,
                uri: dry_run_query(url_of(self@) + "/"@ + name@ + "?"@, pp@.dry_run),
                body: data@,
            })),
            !(match pp@.field_manager {
                Some(fm) => fm.len() <= 128,
                None => true,
            }) ==> r is Err,
    {
        match pp.validate() {
            Ok(()) => {},
            Err(msg) => {
                return Err(RequestError::Validation(msg));
            },
        }
        let mut s = self.named_url_query(name);
        if pp.dry_run {
            s = push_pair(s, "dryRun", "All");
        }
        Ok(HttpRequest { method: String::from_str("PUT"), uri: s, body: data })
    }

    /// Patch one named object with the serialized patch: a PATCH on its
    /// URL carrying `dryRun`, `force` and `fieldManager` as set. `Ok`
    /// exactly when the patch parameters validate (`force` only with
    /// server-side apply).
    pub fn patch(&self, name: &str, pp: &PatchParams, patch: Vec<u8>) -> (r: Result<
        HttpRequest,
        RequestError,
    >)
        ensures
            (!pp@.force || pp@.patch_strategy == crate::params::PatchStrategy::Apply) ==> (r
                matches Ok(req) && req@ == (ReqView {
                method: "PATCH"@,
                uri: patch_query(url_of(self@) + "/"@ + name@ + "?"@, pp@),
                body: patch@,
            })),
            !(!pp@.force || pp@.patch_strategy == crate::params::PatchStrategy::Apply) ==> r is Err,
    {
        match pp.validate() {
            Ok(()) => {},
            Err(msg) => {
                return Err(RequestError::Validation(msg));
            },
        }
        let mut s = self.named_url_query(name);
        if pp.dry_run {
            s = push_pair(s, "dryRun", "All");
        }
        if pp.force {
            s = push_pair(s, "force", "true");
        }
        match &pp.field_manager {
            Some(fm) => {
                s = push_pair(s, "fieldManager", fm.as_str());
            },
            None => {},
        }
        Ok(HttpRequest { method: String::from_str("PATCH"), uri: s, body: patch })
    }

    /// Delete one named object: a DELETE on its URL, with `dryRun=All`
    /// when asked for and the delete parameters as the JSON body.
    pub fn delete(&self, name: &str, dp: &DeleteParams) -> (r: Result<HttpRequest, RequestError>)
        ensures
            r matches Ok(req) && req@ == (ReqView {
                method: "DELETE"@,
                uri: dry_run_query(url_of(self@) + "/"@ + name@ + "?"@, dp@.dry_run),
                body: utf8_of(json_of_delete(dp@)),
            }),
    {
        let mut s = self.named_url_query(name);
        if dp.dry_run {
            s = push_pair(s, "dryRun", "All");
        }
        let body = string_into_bytes(delete_params_json(dp));
        Ok(HttpRequest { method: String::from_str("DELETE"), uri: s, body })
    }

    /// Delete every object the list parameters select: a DELETE on the
    /// collection URL carrying the selectors, with the delete parameters
    /// as the JSON body.
    pub fn delete_collection(&self, dp: &DeleteParams, lp: &ListParams) -> (r: Result<
        HttpRequest,
        RequestError,
    >)
        ensures
            r matches Ok(req) && req@ == (ReqView {
                method: "DELETE"@,
                uri: dry_run_query(list_query(url_of(self@) + "?"@, lp@), dp@.dry_run),
                body: utf8_of(json_of_delete(dp@)),
            }),
    {
        let mut s = self.append_list_params(self.url_query(), lp);
        if dp.dry_run {
            s = push_pair(s, "dryRun", "All");
        }
        let body = string_into_bytes(delete_params_json(dp));
        Ok(HttpRequest { method: String::from_str("DELETE"), uri: s, body })
    }
}

/// The query of a watch call: `watch=true`, the timeout (defaulting to
/// 290 seconds), the selectors that are set, and the resource version.
pub open spec fn watch_query(u: Seq<char>, lp: ListParamsView, rv: Seq<char>) -> Seq<char> {
    let u1 = u + qpair("watch"@, "true"@);
    let u2 = u1 + qpair(
        "timeoutSeconds"@,
        dec_str(
            match lp.timeout {
                Some(t) => t as int,
                None => 290,
            },
        ),
    );
    let u3 = match lp.label_selector {
        Some(s) => u2 + qpair("labelSelector"@, s),
        None => u2,
    };
    let u4 = match lp.field_selector {
        Some(s) => u3 + qpair("fieldSelector"@, s),
        None => u3,
    };
    u4 + qpair("resourceVersion"@, rv)
}

/// The query with `dryRun=All` appended when dry-running.
pub open spec fn dry_run_query(u: Seq<char>, dry_run: bool) -> Seq<char> {
    if dry_run {
        u + qpair("dryRun"@, "All"@)
    } else {
        u
    }
}

/// The query of a patch call: `dryRun`, `force` and `fieldManager` as
/// set, in that order.
pub open spec fn patch_query(u: Seq<char>, pp: crate::params::PatchParamsView) -> Seq<char> {
    let u1 = if pp.dry_run {
        u + qpair("dryRun"@, "All"@)
    } else {
        u
    };
    let u2 = if pp.force {
        u1 + qpair("force"@, "true"@)
    } else {
        u1
    };
    match pp.field_manager {
        Some(fm) => u2 + qpair("fieldManager"@, fm),
        None => u2,
    }
}

/// One character of a JSON string body: quotes and backslashes are
/// escaped, everything else stands as itself.
pub open spec fn esc_char(c: char) -> Seq<char> {
    if c == '"' {
        seq!['\\', '"']
    } else if c == '\\' {
        seq!['\\', '\\']
    } else {
        seq![c]
    }
}

/// A string's characters after JSON escaping.
pub open spec fn escaped_of(s: Seq<char>) -> Seq<char>
    decreases s.len(),
{
    if s.len() == 0 {
        Seq::empty()
    } else {
        escaped_of(s.drop_last()) + esc_char(s.last())
    }
}

/// A JSON string literal: the escaped characters between quotes.
pub open spec fn json_str(s: Seq<char>) -> Seq<char> {
    seq!['"'] + escaped_of(s) + seq!['"']
}

/// The escaped characters of the string, built character by character.
fn escape_chars(s: &str) -> (r: String)
    ensures
        r@ == escaped_of(s@),
{
    let mut out = String::new();
    let n = s.unicode_len();
    let mut i: usize = 0;
    while i < n
        invariant
            i <= n,
            n == s@.len(),
            out@ =~= escaped_of(s@.subrange(0, i as int)),
        decreases n - i,
    {
        let c = s.get_char(i);
        proof {
            assert(s@.subrange(0, i + 1 as int).drop_last() =~= s@.subrange(0, i as int));
            assert(s@.subrange(0, i + 1 as int).last() == s@[i as int]);
        }
        if c == '"' {
            out.append("\\\"");
            proof {
                reveal_strlit("\\\"");
                assert(out@ =~= escaped_of(s@.subrange(0, i + 1 as int)));
            }
        } else if c == '\\' {
            out.append("\\\\");
            proof {
                reveal_strlit("\\\\");
                assert(out@ =~= escaped_of(s@.subrange(0, i + 1 as int)));
            }
        } else {
            let piece = s.substring_char(i, i + 1);
            out.append(piece);
            proof {
                assert(piece@ =~= seq![s@[i as int]]);
                assert(out@ =~= escaped_of(s@.subrange(0, i + 1 as int)));
            }
        }
        i = i + 1;
    }
    proof {
        assert(s@.subrange(0, n as int) =~= s@);
    }
    out
}

/// A JSON string literal of the given string.
fn json_string_of(s: &str) -> (r: String)
    ensures
        r@ == json_str(s@),
{
    let mut out = String::from_str("\"");
    out.append(escape_chars(s).as_str());
    out.append("\"");
    proof {
        reveal_strlit("\"");
        assert(out@ =~= json_str(s@));
    }
    out
}

/// The JSON value of the preconditions: both keys always present, `null`
/// when unset.
pub open spec fn json_of_preconditions(p: PreconditionsView) -> Seq<char> {
    let s1 = "{\"resourceVersion\":"@ + (match p.resource_version {
        Some(rv) => json_str(rv),
        None => "null"@,
    });
    let s2 = s1 + ",\"uid\":"@ + (match p.uid {
        Some(uid) => json_str(uid),
        None => "null"@,
    });
    s2 + "}"@
}

/// The name of a propagation policy.
pub open spec fn policy_name(p: PropagationPolicy) -> Seq<char> {
    match p {
        PropagationPolicy::Orphan => "\"Orphan\""@,
        PropagationPolicy::Background => "\"Background\""@,
        PropagationPolicy::Foreground => "\"Foreground\""@,
    }
}

/// The JSON body of a delete call: every key always present, `null` (or
/// an empty dry-run list) when unset.
pub open spec fn json_of_delete(dp: DeleteParamsView) -> Seq<char> {
    let s1 = "{\"dryRun\":"@ + (if dp.dry_run {
        "[\"All\"]"@
    } else {
        "[]"@
    });
    let s2 = s1 + ",\"gracePeriodSeconds\":"@ + (match dp.grace_period_seconds {
        Some(n) => dec_str(n as int),
        None => "null"@,
    });
    let s3 = s2 + ",\"propagationPolicy\":"@ + (match dp.propagation_policy {
        Some(p) => policy_name(p),
        None => "null"@,
    });
    let s4 = s3 + ",\"preconditions\":"@ + (match dp.preconditions {
        Some(p) => json_of_preconditions(p),
        None => "null"@,
    });
    s4 + "}"@
}

/// The JSON value of the preconditions, built piece by piece.
fn preconditions_json(p: &crate::params::Preconditions) -> (r: String)
    ensures
        r@ == json_of_preconditions(p@),
{
    let mut s = String::from_str("{\"resourceVersion\":");
    match &p.resource_version {
        Some(rv) => {
            s.append(json_string_of(rv.as_str()).as_str());
        },
        None => {
            s.append("null");
        },
    }
    proof {
        assert(s@ =~= "{\"resourceVersion\":"@ + (match p@.resource_version {
            Some(rv) => json_str(rv),
            None => "null"@,
        }));
    }
    s.append(",\"uid\":");
    match &p.uid {
        Some(uid) => {
            s.append(json_string_of(uid.as_str()).as_str());
        },
        None => {
            s.append("null");
        },
    }
    s.append("}");
    proof {
        assert(s@ =~= json_of_preconditions(p@));
    }
    s
}

/// The JSON body of a delete call, built piece by piece.
fn delete_params_json(dp: &DeleteParams) -> (r: String)
    ensures
        r@ == json_of_delete(dp@),
{
    let ghost p1 = "{\"dryRun\":"@ + (if dp@.dry_run {
        "[\"All\"]"@
    } else {
        "[]"@
    });
    let ghost p2 = p1 + ",\"gracePeriodSeconds\":"@ + (match dp@.grace_period_seconds {
        Some(n) => dec_str(n as int),
        None => "null"@,
    });
    let ghost p3 = p2 + ",\"propagationPolicy\":"@ + (match dp@.propagation_policy {
        Some(p) => policy_name(p),
        None => "null"@,
    });
    let ghost p4 = p3 + ",\"preconditions\":"@ + (match dp@.preconditions {
        Some(p) => json_of_preconditions(p),
        None => "null"@,
    });
    let mut s = String::from_str("{\"dryRun\":");
    if dp.dry_run {
        s.append("[\"All\"]");
    } else {
        s.append("[]");
    }
    proof {
        assert(s@ =~= p1);
    }
    s.append(",\"gracePeriodSeconds\":");
    match &dp.grace_period_seconds {
        Some(n) => {
            s.append(u64_to_string(*n as u64).as_str());
        },
        None => {
            s.append("null");
        },
    }
    proof {
        assert(s@ =~= p2);
    }
    s.append(",\"propagationPolicy\":");
    match &dp.propagation_policy {
        Some(PropagationPolicy::Orphan) => {
            s.append("\"Orphan\"");
        },
        Some(PropagationPolicy::Background) => {
            s.append("\"Background\"");
        },
        Some(PropagationPolicy::Foreground) => {
            s.append("\"Foreground\"");
        },
        None => {
            s.append("null");
        },
    }
    proof {
        assert(s@ =~= p3);
    }
    s.append(",\"preconditions\":");
    match &dp.preconditions {
        Some(p) => {
            s.append(preconditions_json(p).as_str());
        },
        None => {
            s.append("null");
        },
    }
    proof {
        assert(s@ =~= p4);
    }
    s.append("}");
    proof {
        assert(s@ =~= json_of_delete(dp@));
    }
    s
}

/// The query of a log call: the log parameters that are set, in a fixed
/// order.
pub open spec fn log_query(u: Seq<char>, lp: crate::params::LogParamsView) -> Seq<char> {
    let u1 = match lp.container {
        Some(c) => u + qpair("container"@, c),
        None => u,
    };
    let u2 = if lp.follow {
        u1 + qpair("follow"@, "true"@)
    } else {
        u1
    };
    let u3 = match lp.limit_bytes {
        Some(n) => u2 + qpair("limitBytes"@, dec_int_str(n as int)),
        None => u2,
    };
    let u4 = if lp.pretty {
        u3 + qpair("pretty"@, "true"@)
    } else {
        u3
    };
    let u5 = if lp.previous {
        u4 + qpair("previous"@, "true"@)
    } else {
        u4
    };
    let u6 = match lp.since_seconds {
        Some(n) => u5 + qpair("sinceSeconds"@, dec_int_str(n as int)),
        None => u5,
    };
    let u7 = match lp.tail_lines {
        Some(n) => u6 + qpair("tailLines"@, dec_int_str(n as int)),
        None => u6,
    };
    if lp.timestamps {
        u7 + qpair("timestamps"@, "true"@)
    } else {
        u7
    }
}

/// The stream-selection query of an attach or exec call: the streams that
/// are enabled, then the container if one is named.
pub open spec fn attach_query(u: Seq<char>, ap: crate::params::AttachParamsView) -> Seq<char> {
    let u1 = if ap.stdin {
        u + qpair("stdin"@, "true"@)
    } else {
        u
    };
    let u2 = if ap.stdout {
        u1 + qpair("stdout"@, "true"@)
    } else {
        u1
    };
    let u3 = if ap.stderr {
        u2 + qpair("stderr"@, "true"@)
    } else {
        u2
    };
    let u4 = if ap.tty {
        u3 + qpair("tty"@, "true"@)
    } else {
        u3
    };
    match ap.container {
        Some(c) => u4 + qpair("container"@, c),
        None => u4,
    }
}

/// The query pairs naming each word of an exec command, in order.
pub open spec fn command_query(u: Seq<char>, cmd: Seq<Seq<char>>) -> Seq<char>
    decreases cmd.len(),
{
    if cmd.len() == 0 {
        u
    } else {
        command_query(u, cmd.drop_last()) + qpair("command"@, cmd.last())
    }
}

/// The JSON body of an eviction: the delete options (or `null`) and the
/// target's name.
pub open spec fn json_of_evict(name: Seq<char>, d: Option<DeleteParamsView>) -> Seq<char> {
    let s1 = "{\"delete_options\":"@ + (match d {
        Some(dp) => json_of_delete(dp),
        None => "null"@,
    });
    s1 + ",\"metadata\":{\"name\":"@ + json_str(name) + "}}"@
}

/// Whether the attach parameters validate: at least one stream attached,
/// and no TTY sharing the connection with stderr.
pub open spec fn attach_params_ok(ap: crate::params::AttachParamsView) -> bool {
    (ap.stdin || ap.stdout || ap.stderr) && !(ap.stderr && ap.tty)
}

impl Resource {
    /// Fetch the scale subresource of one named object.
    pub fn get_scale(&self, name: &str) -> (r: Result<HttpRequest, RequestError>)
        ensures
            r matches Ok(req) && req@ == (ReqView {
                method: "GET"@,
                uri: url_of(self@) + "/"@ + name@ + "/"@ + "scale"@ + "?"@,
                body: Seq::<u8>::empty(),
            }),
    {
        let uri = self.subresource_url_query(name, "scale");
        Ok(HttpRequest { method: String::from_str("GET"), uri, body: Vec::new() })
    }

    /// Patch the scale subresource of one named object. `Ok` exactly when
    /// the patch parameters validate.
    pub fn patch_scale(&self, name: &str, pp: &PatchParams, patch: Vec<u8>) -> (r: Result<
        HttpRequest,
        RequestError,
    >)
        ensures
            (!pp@.force || pp@.patch_strategy == crate::params::PatchStrategy::Apply) ==> (r
                matches Ok(req) && req@ == (ReqView {
                method: "PATCH"@,
                uri: patch_query(url_of(self@) + "/"@ + name@ + "/"@ + "scale"@ + "?"@, pp@),
                body: patch@,
            })),
            !(!pp@.force || pp@.patch_strategy == crate::params::PatchStrategy::Apply) ==> r is Err,
    {
        match pp.validate() {
            Ok(()) => {},
            Err(msg) => {
                return Err(RequestError::Validation(msg));
            },
        }
        let mut s = self.subresource_url_query(name, "scale");
        if pp.dry_run {
            s = push_pair(s, "dryRun", "All");
        }
        if pp.force {
            s = push_pair(s, "force", "true");
        }
        match &pp.field_manager {
            Some(fm) => {
                s = push_pair(s, "fieldManager", fm.as_str());
            },
            None => {},
        }
        Ok(HttpRequest { method: String::from_str("PATCH"), uri: s, body: patch })
    }

    /// Replace the scale subresource of one named object. `Ok` exactly
    /// when the post parameters validate.
    pub fn replace_scale(&self, name: &str, pp: &PostParams, data: Vec<u8>) -> (r: Result<
        HttpRequest,
        RequestError,
    >)
        ensures
            (match pp@.field_manager {
                Some(fm) => fm.len() <= 128,
                None => true,
            }) ==> (r matches Ok(req) && req@ == (ReqView {
                method: "PUT"@,
                uri: dry_run_query(url_of(self@) + "/"@ + name@ + "/"@ + "scale"@ + "?"@, pp@.dry_run),
                body: data@,
            })),
            !(match pp@.field_manager {
                Some(fm) => fm.len() <= 128,
                None => true,
            }) ==> r is Err,
    {
        match pp.validate() {
            Ok(()) => {},
            Err(msg) => {
                return Err(RequestError::Validation(msg));
            },
        }
        let mut s = self.subresource_url_query(name, "scale");
        if pp.dry_run {
            s = push_pair(s, "dryRun", "All");
        }
        Ok(HttpRequest { method: String::from_str("PUT"), uri: s, body: data })
    }

    /// Fetch one named object through its status subresource: the whole
    /// object, metadata and spec included.
    pub fn get_status(&self, name: &str) -> (r: Result<HttpRequest, RequestError>)
        ensures
            r matches Ok(req) && req@ == (ReqView {
                method: "GET"@,
                uri: url_of(self@) + "/"@ + name@ + "/"@ + "status"@ + "?"@,
                body: Seq::<u8>::empty(),
            }),
    {
        let uri = self.subresource_url_query(name, "status");
        Ok(HttpRequest { method: String::from_str("GET"), uri, body: Vec::new() })
    }

    /// Patch the status subresource of one named object. `Ok` exactly
    /// when the patch parameters validate.
    pub fn patch_status(&self, name: &str, pp: &PatchParams, patch: Vec<u8>) -> (r: Result<
        HttpRequest,
        RequestError,
    >)
        ensures
            (!pp@.force || pp@.patch_strategy == crate::params::PatchStrategy::Apply) ==> (r
                matches Ok(req) && req@ == (ReqView {
                method: "PATCH"@,
                uri: patch_query(url_of(self@) + "/"@ + name@ + "/"@ + "status"@ + "?"@, pp@),
                body: patch@,
            })),
            !(!pp@.force || pp@.patch_strategy == crate::params::PatchStrategy::Apply) ==> r is Err,
    {
        match pp.validate() {
            Ok(()) => {},
            Err(msg) => {
                return Err(RequestError::Validation(msg));
            },
        }
        let mut s = self.subresource_url_query(name, "status");
        if pp.dry_run {
            s = push_pair(s, "dryRun", "All");
        }
        if pp.force {
            s = push_pair(s, "force", "true");
        }
        match &pp.field_manager {
            Some(fm) => {
                s = push_pair(s, "fieldManager", fm.as_str());
            },
            None => {},
        }
        Ok(HttpRequest { method: String::from_str("PATCH"), uri: s, body: patch })
    }

    /// Replace the status subresource of one named object. `Ok` exactly
    /// when the post parameters validate.
    pub fn replace_status(&self, name: &str, pp: &PostParams, data: Vec<u8>) -> (r: Result<
        HttpRequest,
        RequestError,
    >)
        ensures
            (match pp@.field_manager {
                Some(fm) => fm.len() <= 128,
                None => true,
            }) ==> (r matches Ok(req) && req@ == (ReqView {
                method: "PUT"@,
                uri: dry_run_query(url_of(self@) + "/"@ + name@ + "/"@ + "status"@ + "?"@, pp@.dry_run),
                body: data@,
            })),
            !(match pp@.field_manager {
                Some(fm) => fm.len() <= 128,
                None => true,
            }) ==> r is Err,
    {
        match pp.validate() {
            Ok(()) => {},
            Err(msg) => {
                return Err(RequestError::Validation(msg));
            },
        }
        let mut s = self.subresource_url_query(name, "status");
        if pp.dry_run {
            s = push_pair(s, "dryRun", "All");
        }
        Ok(HttpRequest { method: String::from_str("PUT"), uri: s, body: data })
    }

    /// Fetch the logs of one named object: a GET on its log subresource
    /// carrying the log parameters.
    pub fn logs(&self, name: &str, lp: &LogParams) -> (r: Result<HttpRequest, RequestError>)
        ensures
            r matches Ok(req) && req@ == (ReqView {
                method: "GET"@,
                uri: log_query(url_of(self@) + "/"@ + name@ + "/"@ + "log"@ + "?"@, lp@),
                body: Seq::<u8>::empty(),
            }),
    {
        let mut s = self.subresource_url_query(name, "log");
        match &lp.container {
            Some(c) => {
                s = push_pair(s, "container", c.as_str());
            },
            None => {},
        }
        if lp.follow {
            s = push_pair(s, "follow", "true");
        }
        match &lp.limit_bytes {
            Some(n) => {
                s = push_pair(s, "limitBytes", i64_to_string(*n).as_str());
            },
            None => {},
        }
        if lp.pretty {
            s = push_pair(s, "pretty", "true");
        }
        if lp.previous {
            s = push_pair(s, "previous", "true");
        }
        match &lp.since_seconds {
            Some(n) => {
                s = push_pair(s, "sinceSeconds", i64_to_string(*n).as_str());
            },
            None => {},
        }
        match &lp.tail_lines {
            Some(n) => {
                s = push_pair(s, "tailLines", i64_to_string(*n).as_str());
            },
            None => {},
        }
        if lp.timestamps {
            s = push_pair(s, "timestamps", "true");
        }
        Ok(HttpRequest { method: String::from_str("GET"), uri: s, body: Vec::new() })
    }

    /// Evict one named object: a POST on its eviction subresource, with
    /// the delete options and the target's name as the JSON body. `Ok`
    /// exactly when the post options validate.
    pub fn evict(&self, name: &str, ep: &crate::params::EvictParams) -> (r: Result<
        HttpRequest,
        RequestError,
    >)
        ensures
            (match ep@.post_options.field_manager {
                Some(fm) => fm.len() <= 128,
                None => true,
            }) ==> (r matches Ok(req) && req@ == (ReqView {
                method: "POST"@,
                uri: dry_run_query(
                    url_of(self@) + "/"@ + name@ + "/"@ + "eviction"@ + "?"@,
                    ep@.post_options.dry_run,
                ),
                body: utf8_of(json_of_evict(name@, ep@.delete_options)),
            })),
            !(match ep@.post_options.field_manager {
                Some(fm) => fm.len() <= 128,
                None => true,
            }) ==> r is Err,
    {
        match ep.post_options.validate() {
            Ok(()) => {},
            Err(msg) => {
                return Err(RequestError::Validation(msg));
            },
        }
        let mut s = self.subresource_url_query(name, "eviction");
        if ep.post_options.dry_run {
            s = push_pair(s, "dryRun", "All");
        }
        let mut body = String::from_str("{\"delete_options\":");
        match &ep.delete_options {
            Some(dp) => {
                body.append(delete_params_json(dp).as_str());
            },
            None => {
                body.append("null");
            },
        }
        proof {
            assert(body@ =~= "{\"delete_options\":"@ + (match ep@.delete_options {
                Some(dp) => json_of_delete(dp),
                None => "null"@,
            }));
        }
        body.append(",\"metadata\":{\"name\":");
        body.append(json_string_of(name).as_str());
        body.append("}}");
        proof {
            assert(body@ =~= json_of_evict(name@, ep@.delete_options));
        }
        Ok(HttpRequest {
            method: String::from_str("POST"),
            uri: s,
            body: string_into_bytes(body),
        })
    }

    fn append_attach_params(&self, url: String, ap: &AttachParams) -> (r: String)
        requires
            url@.len() > 0,
        ensures
            r@ == attach_query(url@, ap@),
            r@.len() > 0,
    {
        let mut s = url;
        if ap.stdin {
            s = push_pair(s, "stdin", "true");
        }
        if ap.stdout {
            s = push_pair(s, "stdout", "true");
        }
        if ap.stderr {
            s = push_pair(s, "stderr", "true");
        }
        if ap.tty {
            s = push_pair(s, "tty", "true");
        }
        match &ap.container {
            Some(c) => {
                s = push_pair(s, "container", c.as_str());
            },
            None => {},
        }
        s
    }

    /// Attach to one named object: a GET on its attach subresource
    /// carrying the stream selection. `Ok` exactly when the attach
    /// parameters validate.
    pub fn attach(&self, name: &str, ap: &AttachParams) -> (r: Result<HttpRequest, RequestError>)
        ensures
            attach_params_ok(ap@) ==> (r matches Ok(req) && req@ == (ReqView {
                method: "GET"@,
                uri: attach_query(url_of(self@) + "/"@ + name@ + "/"@ + "attach"@ + "?"@, ap@),
                body: Seq::<u8>::empty(),
            })),
            !attach_params_ok(ap@) ==> r is Err,
    {
        match ap.validate() {
            Ok(()) => {},
            Err(msg) => {
                return Err(RequestError::Validation(msg));
            },
        }
        let s = self.append_attach_params(self.subresource_url_query(name, "attach"), ap);
        Ok(HttpRequest { method: String::from_str("GET"), uri: s, body: Vec::new() })
    }

    /// Execute a command in one named object: a GET on its exec
    /// subresource carrying the stream selection and each word of the
    /// command. `Ok` exactly when the attach parameters validate.
    pub fn exec(&self, name: &str, command: &Vec<String>, ap: &AttachParams) -> (r: Result<
        HttpRequest,
        RequestError,
    >)
        ensures
            attach_params_ok(ap@) ==> (r matches Ok(req) && req@ == (ReqView {
                method: "GET"@,
                uri: command_query(
                    attach_query(url_of(self@) + "/"@ + name@ + "/"@ + "exec"@ + "?"@, ap@),
                    command.deep_view(),
                ),
                body: Seq::<u8>::empty(),
            })),
            !attach_params_ok(ap@) ==> r is Err,
    {
        match ap.validate() {
            Ok(()) => {},
            Err(msg) => {
                return Err(RequestError::Validation(msg));
            },
        }
        let mut s = self.append_attach_params(self.subresource_url_query(name, "exec"), ap);
        let ghost base = s@;
        let mut i: usize = 0;
        while i < command.len()
            invariant
                i <= command@.len(),
                s@ == command_query(base, command.deep_view().subrange(0, i as int)),
                s@.len() > 0,
                base.len() > 0,
            decreases command@.len() - i,
        {
            proof {
                assert(command.deep_view().subrange(0, i + 1 as int).drop_last() =~= command
                    .deep_view().subrange(0, i as int));
                assert(command.deep_view().subrange(0, i + 1 as int).last() == command@[i as int]@);
            }
            s = push_pair(s, "command", command[i].as_str());
            i = i + 1;
        }
        proof {
            assert(command.deep_view().subrange(0, command@.len() as int) =~= command.deep_view());
        }
        Ok(HttpRequest { method: String::from_str("GET"), uri: s, body: Vec::new() })
    }
}

} // verus!
