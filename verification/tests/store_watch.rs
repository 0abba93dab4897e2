use kube_runtime::kind::{GroupVersionKind, Scope};
use kube_runtime::object::{DynamicObject, ObjectMeta};
use kube_runtime::object_ref::ObjectRef;
use kube_runtime::reflector::{reflect, Event, Store};
use kube_runtime::status::Status;
use kube_runtime::watcher::{
    desired_request, step_list_page, step_watch_line, ListPage, WatchEvent, WatcherOutput,
    WatcherRequest, WatcherState,
};

fn widget_gvk() -> GroupVersionKind {
    GroupVersionKind::with_inferred_plural(
        "clux.dev".to_string(),
        "v1".to_string(),
        "Widget".to_string(),
        Scope::Namespaced,
    )
}

fn widget(name: &str, rv: &str) -> DynamicObject {
    DynamicObject::new(
        widget_gvk(),
        ObjectMeta {
            name: name.to_string(),
            namespace: Some("default".to_string()),
            resource_version: rv.to_string(),
            uid: format!("uid-{}", name),
            owner_references: vec![],
            deletion_timestamp: None,
        },
    )
}

#[test]
fn store_follows_applied_events() {
    let mut store = Store::new();
    store.apply_watcher_event(&Event::Restarted(vec![widget("a", "1")]));
    let key = ObjectRef::from_obj(&widget("a", "1"));
    assert_eq!(store.len(), 1);
    assert_eq!(store.get(&key).expect("a is cached").meta.resource_version, "1");

    store.apply_watcher_event(&Event::Applied(widget("a", "2")));
    assert_eq!(store.len(), 1);
    assert_eq!(store.get(&key).expect("a is cached").meta.resource_version, "2");

    store.apply_watcher_event(&Event::Deleted(widget("a", "3")));
    assert_eq!(store.len(), 0);
    assert!(store.get(&key).is_none());
}

#[test]
fn store_equals_fold_of_event_sequence() {
    let mut all_at_once = Store::new();
    let events = vec![
        Event::Restarted(vec![widget("a", "1"), widget("b", "1")]),
        Event::Applied(widget("c", "2")),
        Event::Deleted(widget("b", "3")),
        Event::Applied(widget("a", "4")),
    ];
    all_at_once.apply_all(&events);

    let mut one_by_one = Store::new();
    for event in &events {
        one_by_one.apply_watcher_event(event);
    }

    assert_eq!(all_at_once.len(), 2);
    assert_eq!(one_by_one.len(), 2);
    for name in ["a", "c"] {
        let key = ObjectRef::from_obj(&widget(name, "0"));
        let left = all_at_once.get(&key).expect("present");
        let right = one_by_one.get(&key).expect("present");
        assert_eq!(left.meta.resource_version, right.meta.resource_version);
    }
    assert!(all_at_once.get(&ObjectRef::from_obj(&widget("b", "0"))).is_none());
}

#[test]
fn restart_replaces_contents_wholesale() {
    let mut store = Store::new();
    store.apply_watcher_event(&Event::Restarted(vec![widget("a", "1"), widget("b", "1")]));
    assert_eq!(store.len(), 2);
    store.apply_watcher_event(&Event::Restarted(vec![widget("c", "5")]));
    assert_eq!(store.len(), 1);
    assert!(store.get(&ObjectRef::from_obj(&widget("a", "0"))).is_none());
    assert!(store.get(&ObjectRef::from_obj(&widget("c", "0"))).is_some());
}

#[test]
fn reflector_is_idempotent_under_duplicate_applied() {
    let mut store = Store::new();
    store.apply_watcher_event(&Event::Applied(widget("a", "2")));
    store.apply_watcher_event(&Event::Applied(widget("a", "2")));
    assert_eq!(store.len(), 1);
    let key = ObjectRef::from_obj(&widget("a", "0"));
    assert_eq!(store.get(&key).expect("a is cached").meta.resource_version, "2");
}

#[test]
fn reflector_forwards_events_unchanged() {
    let mut store = Store::new();
    let out = reflect(&mut store, Event::Applied(widget("a", "1")));
    assert!(matches!(out, Event::Applied(o) if o.meta.name == "a"));
    assert_eq!(store.len(), 1);
}

#[test]
fn empty_list_emits_empty_restart_and_store_stays_empty() {
    let page = ListPage { items: vec![], continue_token: None, resource_version: "5".to_string() };
    let (state, output) = step_list_page(WatcherState::Empty, page);
    assert!(matches!(&state, WatcherState::Watching { resource_version } if resource_version == "5"));
    let event = match output {
        WatcherOutput::Emit(event) => event,
        other => panic!("expected an emitted event, got {:?}", other),
    };
    assert!(matches!(&event, Event::Restarted(list) if list.is_empty()));
    let mut store = Store::new();
    store.apply_watcher_event(&event);
    assert_eq!(store.len(), 0);
}

#[test]
fn pagination_accumulates_until_final_page() {
    let first = ListPage {
        items: vec![widget("a", "1")],
        continue_token: Some("tok".to_string()),
        resource_version: "9".to_string(),
    };
    let (state, output) = step_list_page(WatcherState::Empty, first);
    assert!(matches!(output, WatcherOutput::Silent));
    assert!(matches!(
        desired_request(&state),
        WatcherRequest::List { continue_token: Some(t) } if t == "tok"
    ));

    let last = ListPage {
        items: vec![widget("b", "2")],
        continue_token: None,
        resource_version: "10".to_string(),
    };
    let (state, output) = step_list_page(state, last);
    assert!(matches!(&state, WatcherState::Watching { resource_version } if resource_version == "10"));
    match output {
        WatcherOutput::Emit(Event::Restarted(list)) => {
            assert_eq!(list.len(), 2);
            assert_eq!(list[0].meta.name, "a");
            assert_eq!(list[1].meta.name, "b");
        }
        other => panic!("expected a single full restart, got {:?}", other),
    }
}

#[test]
fn watch_lines_advance_resource_version_and_emit() {
    let state = WatcherState::Watching { resource_version: "100".to_string() };
    let (state, output) = step_watch_line(state, WatchEvent::Added(widget("a", "101")));
    assert!(matches!(&output, WatcherOutput::Emit(Event::Applied(o)) if o.meta.name == "a"));
    assert!(matches!(&state, WatcherState::Watching { resource_version } if resource_version == "101"));

    let (state, output) = step_watch_line(state, WatchEvent::Bookmark("150".to_string()));
    assert!(matches!(output, WatcherOutput::Silent));
    assert!(matches!(
        desired_request(&state),
        WatcherRequest::Watch { resource_version } if resource_version == "150"
    ));

    let (state, output) = step_watch_line(state, WatchEvent::Deleted(widget("a", "151")));
    assert!(matches!(&output, WatcherOutput::Emit(Event::Deleted(o)) if o.meta.name == "a"));
    assert!(matches!(&state, WatcherState::Watching { resource_version } if resource_version == "151"));
}

#[test]
fn gone_during_watch_forces_relist_and_restart_resynchronises() {
    let state = WatcherState::Watching { resource_version: "100".to_string() };
    let expired = Status::from_reason_code("Expired".to_string(), 410);
    let (state, output) = step_watch_line(state, WatchEvent::ErrorStatus(expired));
    assert!(matches!(output, WatcherOutput::Silent));
    assert!(matches!(&state, WatcherState::Empty));
    assert!(matches!(desired_request(&state), WatcherRequest::List { continue_token: None }));

    let mut store = Store::new();
    store.apply_watcher_event(&Event::Restarted(vec![widget("old", "90")]));
    let snapshot = ListPage {
        items: vec![widget("new", "200")],
        continue_token: None,
        resource_version: "200".to_string(),
    };
    let (state, output) = step_list_page(state, snapshot);
    assert!(matches!(&state, WatcherState::Watching { resource_version } if resource_version == "200"));
    match output {
        WatcherOutput::Emit(event) => {
            assert!(matches!(&event, Event::Restarted(list) if list.len() == 1));
            store.apply_watcher_event(&event);
        }
        other => panic!("expected the resynchronising restart, got {:?}", other),
    }
    assert!(store.get(&ObjectRef::from_obj(&widget("old", "0"))).is_none());
    assert!(store.get(&ObjectRef::from_obj(&widget("new", "0"))).is_some());
}

#[test]
fn non_desync_watch_error_is_surfaced_and_watch_continues() {
    let state = WatcherState::Watching { resource_version: "100".to_string() };
    let denied = Status::from_reason_code("Forbidden".to_string(), 403);
    let (state, output) = step_watch_line(state, WatchEvent::ErrorStatus(denied));
    assert!(matches!(
        &output,
        WatcherOutput::EmitErr(kube_runtime::watcher::WatcherError::WatchError { status })
            if status.code == 403
    ));
    assert!(matches!(&state, WatcherState::Watching { resource_version } if resource_version == "100"));
}
