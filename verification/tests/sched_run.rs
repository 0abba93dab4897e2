use kube_runtime::applier::{
    reconcile_input, settle_reconciliation, ApplierCore, Context, Error, NextOutcome,
    ReconcilerAction,
};
use kube_runtime::kind::{GroupVersionKind, Scope};
use kube_runtime::object::{DynamicObject, ObjectMeta, OwnerReference};
use kube_runtime::object_ref::ObjectRef;
use kube_runtime::reflector::{Event, Store};
use kube_runtime::runner::Runner;
use kube_runtime::scheduler::{ScheduleRequest, Scheduler};
use kube_runtime::trigger::{trigger_owners, Controller};

fn widget_gvk() -> GroupVersionKind {
    GroupVersionKind::with_inferred_plural(
        "clux.dev".to_string(),
        "v1".to_string(),
        "Widget".to_string(),
        Scope::Namespaced,
    )
}

fn widget(name: &str, rv: &str) -> DynamicObject {
    DynamicObject::new(
        widget_gvk(),
        ObjectMeta {
            name: name.to_string(),
            namespace: Some("default".to_string()),
            resource_version: rv.to_string(),
            uid: format!("uid-{}", name),
            owner_references: vec![],
            deletion_timestamp: None,
        },
    )
}

fn key(name: &str) -> ObjectRef {
    ObjectRef::new_with(name, widget_gvk()).within("default")
}

#[test]
fn scheduler_coalesces_to_earliest_due_time() {
    let now: u64 = 1_000;
    let mut scheduler = Scheduler::new();
    scheduler.enqueue(ScheduleRequest { message: key("k"), run_at: now + 100 });
    scheduler.enqueue(ScheduleRequest { message: key("k"), run_at: now + 200 });
    scheduler.enqueue(ScheduleRequest { message: key("k"), run_at: now + 50 });

    assert!(scheduler.pop_due(now + 49).is_none());
    let fired = scheduler.pop_due(now + 50).expect("due at the earliest requested time");
    assert_eq!(fired, key("k"));
    assert!(!scheduler.has_pending());
    assert!(scheduler.pop_due(now + 400).is_none());

    scheduler.enqueue(ScheduleRequest { message: key("k"), run_at: now + 400 });
    assert!(scheduler.pop_due(now + 399).is_none());
    assert_eq!(scheduler.pop_due(now + 400), Some(key("k")));
}

#[test]
fn scheduler_fires_past_due_entries_on_next_poll() {
    let mut scheduler = Scheduler::new();
    scheduler.enqueue(ScheduleRequest { message: key("k"), run_at: 50 });
    assert_eq!(scheduler.pop_due(100), Some(key("k")));
}

#[test]
fn scheduler_orders_by_due_time_then_insertion() {
    let mut scheduler = Scheduler::new();
    scheduler.enqueue(ScheduleRequest { message: key("late"), run_at: 30 });
    scheduler.enqueue(ScheduleRequest { message: key("first"), run_at: 10 });
    scheduler.enqueue(ScheduleRequest { message: key("tied"), run_at: 10 });
    assert_eq!(scheduler.pop_due(100), Some(key("first")));
    assert_eq!(scheduler.pop_due(100), Some(key("tied")));
    assert_eq!(scheduler.pop_due(100), Some(key("late")));
    assert!(scheduler.pop_due(100).is_none());
}

#[test]
fn runner_holds_second_firing_until_completion() {
    let mut runner = Runner::new();
    assert!(runner.on_key(&key("k")));
    assert!(!runner.on_key(&key("k")));
    assert!(!runner.on_key(&key("k")));
    assert!(runner.in_flight(&key("k")));
    assert!(runner.on_key(&key("other")));

    assert!(runner.on_complete(&key("k")));
    assert!(runner.in_flight(&key("k")));
    assert!(!runner.on_complete(&key("k")));
    assert!(!runner.in_flight(&key("k")));
}

#[test]
fn single_flight_produces_two_outputs_for_three_rapid_firings() {
    let mut core = ApplierCore::new();
    core.enqueue_trigger(key("k"), 0);
    let outcome = core.next_ready(1);
    assert!(matches!(&outcome, NextOutcome::Launch(k) if *k == key("k")));
    let mut outputs: Vec<(ObjectRef, ReconcilerAction)> = Vec::new();

    core.enqueue_trigger(key("k"), 10);
    let held = core.next_ready(11);
    assert!(matches!(&held, NextOutcome::Held(k) if *k == key("k")));
    core.enqueue_trigger(key("k"), 20);
    let held = core.next_ready(21);
    assert!(matches!(&held, NextOutcome::Held(k) if *k == key("k")));

    let action = ReconcilerAction { requeue_after: None };
    let (out, requeue) = settle_reconciliation::<String, String>(key("k"), Ok(action), action, 301);
    assert!(requeue.is_none());
    outputs.push(out.expect("first attempt settles"));
    let relaunch = core.complete(&key("k"), requeue);
    assert!(relaunch);

    let (out, requeue) = settle_reconciliation::<String, String>(key("k"), Ok(action), action, 602);
    outputs.push(out.expect("second attempt settles"));
    let relaunch = core.complete(&key("k"), requeue);
    assert!(!relaunch);

    assert_eq!(outputs.len(), 2);
    assert!(matches!(core.next_ready(1_000), NextOutcome::Idle));
}

#[test]
fn requeue_after_fires_again_at_now_plus_delay() {
    let mut core = ApplierCore::new();
    let mut store = Store::new();
    store.apply_watcher_event(&Event::Restarted(vec![widget("a", "1")]));
    store.apply_watcher_event(&Event::Applied(widget("a", "2")));

    core.enqueue_trigger(key("a"), 0);
    let launched = match core.next_ready(1) {
        NextOutcome::Launch(k) => k,
        _ => panic!("expected a launch"),
    };
    let obj = reconcile_input::<String, String>(&store, &launched).expect("a is in the store");
    assert_eq!(obj.meta.resource_version, "2");

    let action = ReconcilerAction { requeue_after: Some(5_000) };
    let now: u64 = 301;
    let (out, requeue) =
        settle_reconciliation::<String, String>(launched.duplicate(), Ok(action), action, now);
    let (out_ref, out_action) = out.expect("reconciliation succeeded");
    assert_eq!(out_ref, key("a"));
    assert_eq!(out_action, action);
    let req = requeue.expect("requeue_after asks for a firing");
    assert_eq!(req.run_at, now + 5_000);
    assert!(!core.complete(&launched, Some(req)));

    assert!(matches!(core.next_ready(now + 4_999), NextOutcome::Idle));
    assert!(matches!(core.next_ready(now + 5_000), NextOutcome::Launch(k) if k == key("a")));
}

#[test]
fn reconciler_error_settles_through_error_policy() {
    let policy_action = ReconcilerAction { requeue_after: Some(60_000) };
    let (out, requeue) = settle_reconciliation::<String, String>(
        key("a"),
        Err("boom".to_string()),
        policy_action,
        100,
    );
    match out {
        Err(Error::ReconcilerFailed { source }) => assert_eq!(source, "boom"),
        _ => panic!("a reconciler error settles as ReconcilerFailed"),
    }
    assert_eq!(requeue.expect("the policy asked for a retry").run_at, 60_100);
}

#[test]
fn missing_object_reports_object_not_found_with_erased_ref() {
    let store = Store::new();
    let foo_gvk = GroupVersionKind::with_inferred_plural(
        "clux.dev".to_string(),
        "v1".to_string(),
        "Foo".to_string(),
        Scope::Namespaced,
    );
    let wanted = ObjectRef::new_with("f", foo_gvk).within("n");
    match reconcile_input::<String, String>(&store, &wanted) {
        Err(Error::ObjectNotFound { obj_ref }) => {
            assert_eq!(obj_ref, wanted.duplicate().erase());
        }
        _ => panic!("a missing key reports ObjectNotFound"),
    }
}

#[test]
fn owner_trigger_enqueues_parent_ref() {
    let foo_gvk = GroupVersionKind::with_inferred_plural(
        "clux.dev".to_string(),
        "v1".to_string(),
        "Foo".to_string(),
        Scope::Namespaced,
    );
    let cm_gvk = GroupVersionKind::with_inferred_plural(
        "".to_string(),
        "v1".to_string(),
        "ConfigMap".to_string(),
        Scope::Namespaced,
    );
    let child = DynamicObject::new(
        cm_gvk.duplicate(),
        ObjectMeta {
            name: "c".to_string(),
            namespace: Some("n".to_string()),
            resource_version: "1".to_string(),
            uid: "uid-c".to_string(),
            owner_references: vec![OwnerReference::new(
                "clux.dev/v1".to_string(),
                "Foo".to_string(),
                "f".to_string(),
                "uid-f".to_string(),
            )],
            deletion_timestamp: None,
        },
    );
    let refs = trigger_owners(&child, &foo_gvk);
    assert_eq!(refs.len(), 1);
    assert_eq!(refs[0], ObjectRef::new_with("f", foo_gvk.duplicate()).within("n"));

    let controller = Controller::new_with(foo_gvk.duplicate()).owns(cm_gvk);
    assert_eq!(controller.source_count(), 2);
    let routed = controller.route(1, &Event::Applied(child));
    assert_eq!(routed.len(), 1);
    assert_eq!(routed[0], ObjectRef::new_with("f", foo_gvk).within("n"));
}

#[test]
fn self_trigger_routes_applied_and_restarted_objects() {
    let controller = Controller::new_with(widget_gvk());
    assert!(matches!(
        controller
            .route(0, &Event::Restarted(vec![widget("a", "1"), widget("b", "1")]))
            .as_slice(),
        [a, b] if *a == key("a") && *b == key("b")
    ));
    assert!(controller.route(0, &Event::Deleted(widget("a", "2"))).is_empty());
}

#[test]
fn cancellation_releases_in_flight_tasks_without_output() {
    let mut core = ApplierCore::new();
    core.enqueue_trigger(key("k"), 0);
    assert!(matches!(core.next_ready(1), NextOutcome::Launch(_)));
    core.cancel();
    assert!(!core.runner.in_flight(&key("k")));
    assert!(matches!(core.next_ready(1_000), NextOutcome::Idle));
}

#[test]
fn context_shares_state_across_clones() {
    let ctx = Context::new(42_u64);
    let copy = ctx.clone();
    assert_eq!(*ctx.get_ref(), 42);
    assert_eq!(*copy.get_ref(), 42);
    assert_eq!(*ctx.into_inner(), 42);
}
