use kube_runtime::crds::CustomResource;
use kube_runtime::decimal::{i64_to_string, u64_to_string};
use kube_runtime::kind::{GroupVersionKind, Scope};
use kube_runtime::params::{
    AttachParams, DeleteParams, EvictParams, ListParams, LogParams, PatchParams, PostParams,
    PropagationPolicy,
};
use kube_runtime::request::{RequestError, Resource};

fn pod_resource() -> Resource {
    let gvk = GroupVersionKind::with_inferred_plural(
        "".to_string(),
        "v1".to_string(),
        "Pod".to_string(),
        Scope::Namespaced,
    );
    Resource::namespaced(&gvk, "ns")
}

#[test]
fn raw_custom_resource() {
    let r: Resource = CustomResource::kind("Foo")
        .group("clux.dev")
        .version("v1")
        .within("myns")
        .into_resource();

    let pp = PostParams::default();
    let req = r.create(&pp, vec![]).unwrap();
    assert_eq!(req.uri(), "/apis/clux.dev/v1/namespaces/myns/foos?");
    let patch_params = PatchParams::default();
    let req = r.patch("baz", &patch_params, vec![]).unwrap();
    assert_eq!(req.uri(), "/apis/clux.dev/v1/namespaces/myns/foos/baz?");
    assert_eq!(req.method(), "PATCH");
}

#[test]
fn raw_resource_in_default_group() {
    let r: Resource = CustomResource::kind("Service").group("").version("v1").into_resource();

    let pp = PostParams::default();
    let req = r.create(&pp, vec![]).unwrap();
    assert_eq!(req.uri(), "/api/v1/services?");
}

#[test]
fn log_path() {
    let r = pod_resource();
    let lp = LogParams { container: Some("blah".into()), ..LogParams::default() };
    let req = r.logs("foo", &lp).unwrap();
    assert_eq!(req.uri(), "/api/v1/namespaces/ns/pods/foo/log?&container=blah");
}

#[test]
fn evict_path() {
    let r = pod_resource();
    let ep = EvictParams::default();
    let req = r.evict("foo", &ep).unwrap();
    assert_eq!(req.uri(), "/api/v1/namespaces/ns/pods/foo/eviction?");
}

#[test]
fn attach_path() {
    let r = pod_resource();
    let ap = AttachParams { container: Some("blah".into()), ..AttachParams::default() };
    let req = r.attach("foo", &ap).unwrap();
    assert_eq!(
        req.uri(),
        "/api/v1/namespaces/ns/pods/foo/attach?&stdout=true&stderr=true&container=blah"
    );
}

#[test]
fn exec_path() {
    let r = pod_resource();
    let ap = AttachParams { container: Some("blah".into()), ..AttachParams::default() };
    let command: Vec<String> = vec!["echo".to_string(), "foo".to_string(), "bar".to_string()];
    let req = r.exec("foo", &command, &ap).unwrap();
    assert_eq!(
        req.uri(),
        "/api/v1/namespaces/ns/pods/foo/exec?&stdout=true&stderr=true&container=blah&command=echo&command=foo&command=bar"
    );
}

#[test]
fn list_and_watch_paths_carry_parameters() {
    let r = pod_resource();
    let lp = ListParams::default().labels("app=blog").timeout(20);
    let req = r.list(&lp).unwrap();
    assert_eq!(
        req.uri(),
        "/api/v1/namespaces/ns/pods?&labelSelector=app%3Dblog&timeoutSeconds=20"
    );
    let req = r.watch(&lp, "0").unwrap();
    assert_eq!(
        req.uri(),
        "/api/v1/namespaces/ns/pods?&watch=true&timeoutSeconds=20&labelSelector=app%3Dblog&resourceVersion=0"
    );
    assert_eq!(req.method(), "GET");
}

#[test]
fn list_pagination_parameters_are_carried() {
    let r = pod_resource();
    let lp = ListParams::default().fields("metadata.name=x").limit(50).continue_token("tok");
    let req = r.list(&lp).unwrap();
    assert_eq!(
        req.uri(),
        "/api/v1/namespaces/ns/pods?&fieldSelector=metadata.name%3Dx&limit=50&continue=tok"
    );
}

#[test]
fn get_and_subresource_paths() {
    let r = pod_resource();
    assert_eq!(r.get("foo").unwrap().uri(), "/api/v1/namespaces/ns/pods/foo?");
    assert_eq!(r.get_status("foo").unwrap().uri(), "/api/v1/namespaces/ns/pods/foo/status?");
    assert_eq!(r.get_scale("foo").unwrap().uri(), "/api/v1/namespaces/ns/pods/foo/scale?");
    let req = r.replace("foo", &PostParams::default(), vec![1, 2]).unwrap();
    assert_eq!(req.method(), "PUT");
    assert_eq!(req.uri(), "/api/v1/namespaces/ns/pods/foo?");
    assert_eq!(req.body(), &vec![1, 2]);
}

#[test]
fn delete_carries_options_as_json_body() {
    let r = pod_resource();
    let dp = DeleteParams {
        dry_run: false,
        grace_period_seconds: Some(30),
        propagation_policy: Some(PropagationPolicy::Background),
        preconditions: None,
    };
    let req = r.delete("foo", &dp).unwrap();
    assert_eq!(req.method(), "DELETE");
    assert_eq!(req.uri(), "/api/v1/namespaces/ns/pods/foo?");
    let body = String::from_utf8(req.body().clone()).unwrap();
    assert_eq!(
        body,
        "{\"dryRun\":[],\"gracePeriodSeconds\":30,\"propagationPolicy\":\"Background\",\"preconditions\":null}"
    );
}

#[test]
fn dry_run_appends_marker_pair() {
    let r = pod_resource();
    let pp = PostParams { dry_run: true, field_manager: None };
    let req = r.create(&pp, vec![]).unwrap();
    assert_eq!(req.uri(), "/api/v1/namespaces/ns/pods?&dryRun=All");
}

#[test]
fn create_rejects_overlong_field_manager() {
    let r = pod_resource();
    let pp = PostParams { dry_run: false, field_manager: Some("x".repeat(129)) };
    assert!(matches!(r.create(&pp, vec![]), Err(RequestError::Validation(_))));
    let pp = PostParams { dry_run: false, field_manager: Some("x".repeat(128)) };
    assert!(r.create(&pp, vec![]).is_ok());
}

#[test]
fn patch_force_requires_server_side_apply() {
    let r = pod_resource();
    let pp = PatchParams { force: true, ..PatchParams::default() };
    assert!(matches!(r.patch("foo", &pp, vec![]), Err(RequestError::Validation(_))));

    let mut pp = PatchParams::apply("mgr");
    pp.force = true;
    let req = r.patch("foo", &pp, vec![]).unwrap();
    assert_eq!(req.uri(), "/api/v1/namespaces/ns/pods/foo?&force=true&fieldManager=mgr");
}

#[test]
fn attach_params_reject_contradictory_streams() {
    let r = pod_resource();
    let ap = AttachParams { stdin: false, stdout: false, stderr: false, ..AttachParams::default() };
    assert!(matches!(r.attach("foo", &ap), Err(RequestError::Validation(_))));
    let ap = AttachParams { tty: true, ..AttachParams::default() };
    assert!(matches!(r.attach("foo", &ap), Err(RequestError::Validation(_))));
    assert!(AttachParams::interactive_tty().validate().is_ok());
}

#[test]
fn attach_params_builders_set_their_fields() {
    let ap = AttachParams::default()
        .container("main")
        .stdin(true)
        .stdout(false)
        .stderr(false)
        .tty(true)
        .max_stdin_buf_size(512)
        .max_stdout_buf_size(1024)
        .max_stderr_buf_size(2048);
    assert_eq!(ap.container.as_deref(), Some("main"));
    assert!(ap.stdin && !ap.stdout && !ap.stderr && ap.tty);
    assert_eq!(ap.max_stdin_buf_size, Some(512));
    assert_eq!(ap.max_stdout_buf_size, Some(1024));
    assert_eq!(ap.max_stderr_buf_size, Some(2048));
}

#[test]
fn try_kind_rejects_plural_and_non_pascal_kinds() {
    assert_eq!(CustomResource::try_kind("foos").unwrap_err(), "kind must not be plural");
    assert_eq!(CustomResource::try_kind("foo").unwrap_err(), "kind must be in PascalCase");
    let builder = CustomResource::try_kind("Foo").unwrap();
    assert_eq!(builder.kind, "Foo");
}

#[test]
fn builder_without_namespace_stays_cluster_scoped() {
    let r = CustomResource::kind("Foo").group("clux.dev").version("v1").into_resource();
    assert_eq!(r.make_url(), "/apis/clux.dev/v1/foos");
    assert_eq!(r.api_version, "clux.dev/v1");
}

#[test]
fn decimal_renderings_are_exact() {
    assert_eq!(u64_to_string(0), "0");
    assert_eq!(u64_to_string(10), "10");
    assert_eq!(u64_to_string(12045), "12045");
    assert_eq!(i64_to_string(-42), "-42");
    assert_eq!(i64_to_string(7), "7");
    assert_eq!(i64_to_string(i64::MIN), "-9223372036854775808");
}

#[test]
fn evict_body_names_the_target() {
    let r = pod_resource();
    let req = r.evict("foo", &EvictParams::default()).unwrap();
    let body = String::from_utf8(req.body().clone()).unwrap();
    assert_eq!(body, "{\"delete_options\":null,\"metadata\":{\"name\":\"foo\"}}");
}
