use kube_runtime::kind::{GroupVersionKind, Scope};
use kube_runtime::object::{DynamicObject, ObjectMeta, OwnerReference};
use kube_runtime::object_ref::ObjectRef;

fn gvk(group: &str, version: &str, kind: &str, scope: Scope) -> GroupVersionKind {
    GroupVersionKind::with_inferred_plural(
        group.to_string(),
        version.to_string(),
        kind.to_string(),
        scope,
    )
}

#[test]
fn display_should_follow_expected_format() {
    assert_eq!(
        ObjectRef::new_with("my-pod", gvk("", "v1", "Pod", Scope::Namespaced))
            .within("my-namespace")
            .to_display_string(),
        "Pod.v1./my-pod.my-namespace"
    );
    assert_eq!(
        ObjectRef::new_with("my-deploy", gvk("apps", "v1", "Deployment", Scope::Namespaced))
            .within("my-namespace")
            .to_display_string(),
        "Deployment.v1.apps/my-deploy.my-namespace"
    );
    assert_eq!(
        ObjectRef::new_with("my-node", gvk("", "v1", "Node", Scope::Cluster)).to_display_string(),
        "Node.v1./my-node"
    );
}

#[test]
fn display_should_be_transparent_to_representation() {
    let pod_ref = ObjectRef::new_with("my-pod", gvk("", "v1", "Pod", Scope::Namespaced))
        .within("my-namespace");
    assert_eq!(pod_ref.to_display_string(), pod_ref.duplicate().erase().to_display_string());
    let deploy_ref =
        ObjectRef::new_with("my-deploy", gvk("apps", "v1", "Deployment", Scope::Namespaced))
            .within("my-namespace");
    assert_eq!(deploy_ref.to_display_string(), deploy_ref.duplicate().erase().to_display_string());
    let node_ref = ObjectRef::new_with("my-node", gvk("", "v1", "Node", Scope::Cluster));
    assert_eq!(node_ref.to_display_string(), node_ref.duplicate().erase().to_display_string());
}

#[test]
fn erased_refs_of_different_kinds_stay_different() {
    let a = ObjectRef::new_with("a", gvk("", "v1", "ConfigMap", Scope::Namespaced)).erase();
    let b = ObjectRef::new_with("a", gvk("", "v1", "Secret", Scope::Namespaced)).erase();
    assert_ne!(a, b);
}

#[test]
fn namespaced_ref_differs_from_bare_ref() {
    let bare = ObjectRef::new_with("foo", gvk("", "v1", "ConfigMap", Scope::Namespaced));
    let scoped = bare.duplicate().within("bar");
    assert_ne!(bare, scoped);
}

#[test]
fn ref_from_object_ignores_identity() {
    let obj = DynamicObject::new(
        gvk("", "v1", "ConfigMap", Scope::Namespaced),
        ObjectMeta {
            name: "cm".to_string(),
            namespace: Some("ns".to_string()),
            resource_version: "7".to_string(),
            uid: "u-1".to_string(),
            owner_references: vec![],
            deletion_timestamp: None,
        },
    );
    assert_eq!(ObjectRef::from_obj(&obj), ObjectRef::from_obj(&obj.duplicate()));
}

#[test]
fn owner_ref_builds_ref_only_for_matching_kind() {
    let owner = OwnerReference::new(
        "clux.dev/v1".to_string(),
        "Foo".to_string(),
        "f".to_string(),
        "u-owner".to_string(),
    );
    let foo = gvk("clux.dev", "v1", "Foo", Scope::Namespaced);
    let made = ObjectRef::from_owner_ref(Some("n"), &owner, foo.duplicate());
    let made = made.expect("matching owner kind should build a ref");
    assert_eq!(made, ObjectRef::new_with("f", foo).within("n"));

    let bar = gvk("clux.dev", "v1", "Bar", Scope::Namespaced);
    assert!(ObjectRef::from_owner_ref(Some("n"), &owner, bar).is_none());
}

#[test]
fn api_version_joins_group_and_version() {
    assert_eq!(gvk("apps", "v1", "Deployment", Scope::Namespaced).api_version(), "apps/v1");
    assert_eq!(gvk("", "v1", "Pod", Scope::Namespaced).api_version(), "v1");
}
