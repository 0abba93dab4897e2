//! The applier: the decision logic that wires triggers, store, scheduler,
//! runner, reconciler and error policy. Each completed reconciliation
//! attempt yields exactly one output item: `Ok((ref, action))` or an
//! error.
//!
//! The reconciler itself is user code that runs outside this crate; the
//! functions here take its results as arguments and decide everything
//! else: store lookup, error policy application, requeueing, and the
//! single-flight bookkeeping.

use std::sync::Arc;
use vstd::prelude::*;

use crate::object::DynamicObject;
use crate::object_ref::{erase_view, ObjectRef};
use crate::reflector::Store;
use crate::runner::Runner;
use crate::scheduler::{enqueue_spec, ScheduleRequest, Scheduler};

verus! {

/// A read-only, cheaply cloneable handle to user-provided state, passed to
/// both the reconciler and the error policy.
#[derive(Debug)]
pub struct Context<T> {
    inner: Arc<T>,
}

/// Relies on `alloc::sync::Arc::clone`: the clone shares the same value.
#[verifier::external_body]
fn arc_clone<T>(a: &Arc<T>) -> (r: Arc<T>)
    ensures
        *r == **a,
{
    Arc::clone(a)
}

impl<T> Context<T> {
    /// The user state the context carries.
    pub closed spec fn data(&self) -> T {
        *self.inner
    }

    /// Create a new context around the given state.
    pub fn new(state: T) -> (r: Context<T>)
        ensures
            r.data() == state,
    {
        Context { inner: Arc::new(state) }
    }

    /// A reference to the inner state.
    pub fn get_ref(&self) -> (r: &T)
        ensures
            *r == self.data(),
    {
        &*self.inner
    }

    /// Convert to the shared pointer itself.
    pub fn into_inner(self) -> (r: Arc<T>)
        ensures
            *r == self.data(),
    {
        self.inner
    }
}

impl<T> Clone for Context<T> {
    /// Another handle to the same state.
    fn clone(&self) -> (r: Self)
        ensures
            r.data() == self.data(),
    {
        Context { inner: arc_clone(&self.inner) }
    }
}

/// The result a reconciler reports: whether (and in how many milliseconds)
/// to trigger the next reconciliation if no watch trigger arrives first.
#[derive(Clone, Copy, Debug, PartialEq, Eq, Structural)]
pub struct ReconcilerAction {
    /// `Some(d)`: schedule a re-run at roughly `now + d` milliseconds,
    /// subject to earliest-wins coalescing. `None`: no automatic re-run.
    pub requeue_after: Option<u64>,
}

/// Why a reconciliation attempt produced no action.
#[derive(Debug)]
pub enum Error<ReconcilerErr, QueueErr> {
    /// The fired key was no longer in the store.
    ObjectNotFound { obj_ref: ObjectRef },
    /// The reconciler returned an error.
    ReconcilerFailed { source: ReconcilerErr },
    /// The scheduler failed to dequeue; unreachable with this scheduler,
    /// kept so callers can match the whole taxonomy.
    SchedulerDequeueFailed,
    /// The trigger input stream yielded an error.
    QueueError { source: QueueErr },
}

/// The action that takes effect: the reconciler's own on success, the
/// error policy's on failure.
pub open spec fn effective_action<E>(
    result: Result<ReconcilerAction, E>,
    policy_action: ReconcilerAction,
) -> ReconcilerAction {
    match result {
        Ok(action) => action,
        Err(_) => policy_action,
    }
}

/// Look the fired key up in the store: the object to reconcile, or
/// `ObjectNotFound` carrying the erased reference exactly when the store
/// has no entry for the key.
pub fn reconcile_input<E, Q>(store: &Store, key: &ObjectRef) -> (r: Result<
    DynamicObject,
    Error<E, Q>,
>)
    requires
        store.wf(),
    ensures
        store@.contains_key(key@) ==> (r matches Ok(obj) && obj@ == store@[key@]),
        !store@.contains_key(key@) ==> (r matches Err(e) && e matches Error::ObjectNotFound {
            obj_ref,
        } && obj_ref@ == erase_view(key@)),
{
    match store.get(key) {
        Some(obj) => Ok(obj.duplicate()),
        None => Err(Error::ObjectNotFound { obj_ref: key.duplicate().erase() }),
    }
}

/// Settle one completed reconciliation attempt: derive the effective
/// action through the error policy's action, decide the requeue request,
/// and emit exactly one output item for the attempt.
pub fn settle_reconciliation<E, Q>(
    obj_ref: ObjectRef,
    result: Result<ReconcilerAction, E>,
    policy_action: ReconcilerAction,
    now: u64,
) -> (r: (Result<(ObjectRef, ReconcilerAction), Error<E, Q>>, Option<ScheduleRequest>))
    requires
        effective_action(result, policy_action).requeue_after matches Some(d) ==> now + d
            <= u64::MAX,
    ensures
        match effective_action(result, policy_action).requeue_after {
            Some(d) => r.1 matches Some(req) && req.message@ == obj_ref@ && req.run_at == now + d,
            None => r.1 is None,
        },
        match result {
            Ok(action) => r.0 matches Ok(out) && out.0@ == obj_ref@ && out.1 == action,
            Err(e) => r.0 matches Err(err) && (err matches Error::ReconcilerFailed { source }
                && source == e),
        },
{
    let action = match &result {
        Ok(action) => *action,
        Err(_) => policy_action,
    };
    let requeue = match action.requeue_after {
        Some(d) => Some(ScheduleRequest { message: obj_ref.duplicate(), run_at: now + d }),
        None => None,
    };
    let out = match result {
        Ok(action) => Ok((obj_ref, action)),
        Err(e) => Err(Error::ReconcilerFailed { source: e }),
    };
    (out, requeue)
}

/// What one poll of the applier's ready queue produced.
pub enum NextOutcome {
    /// Nothing is due yet.
    Idle,
    /// A key fired and its reconciliation should be launched now.
    Launch(ObjectRef),
    /// A key fired but its previous reconciliation is still in flight;
    /// the firing is held and replays on completion.
    Held(ObjectRef),
}

/// The applier's mutable state: the delay queue feeding the single-flight
/// table. The store is read separately, and the reconciler itself runs
/// outside.
pub struct ApplierCore {
    /// The delay queue of pending keys.
    pub scheduler: Scheduler,
    /// The single-flight table of in-flight keys.
    pub runner: Runner,
}

impl ApplierCore {
    /// Both components are well-formed.
    pub open spec fn wf(&self) -> bool {
        self.scheduler.wf() && self.runner.wf()
    }

    /// An applier with nothing pending and nothing in flight.
    pub fn new() -> (r: Self)
        ensures
            r.wf(),
            r.scheduler@ =~= Map::<crate::object_ref::RefView, (u64, u64)>::empty(),
            r.runner@ =~= Map::<crate::object_ref::RefView, bool>::empty(),
    {
        ApplierCore { scheduler: Scheduler::new(), runner: Runner::new() }
    }

    /// Accept a trigger from the user queue: the key is scheduled to fire
    /// one millisecond from now, coalescing with whatever is pending.
    pub fn enqueue_trigger(&mut self, obj_ref: ObjectRef, now: u64)
        requires
            old(self).wf(),
            now < u64::MAX,
            old(self).scheduler.rank() < u64::MAX,
        ensures
            final(self).wf(),
            final(self).scheduler@ =~= enqueue_spec(
                old(self).scheduler@,
                obj_ref@,
                (now + 1) as u64,
                old(self).scheduler.rank(),
            ),
            final(self).runner@ == old(self).runner@,
    {
        self.scheduler.enqueue(ScheduleRequest { message: obj_ref, run_at: now + 1 });
    }

    /// Accept a requeue request decided by [`settle_reconciliation`]. A
    /// requeue is never discarded: it always reaches the delay queue.
    pub fn enqueue_requeue(&mut self, req: ScheduleRequest)
        requires
            old(self).wf(),
            old(self).scheduler.rank() < u64::MAX,
        ensures
            final(self).wf(),
            final(self).scheduler@ =~= enqueue_spec(
                old(self).scheduler@,
                req.message@,
                req.run_at,
                old(self).scheduler.rank(),
            ),
            final(self).runner@ == old(self).runner@,
    {
        self.scheduler.enqueue(req);
    }

    /// Poll for the next firing: take the earliest-due pending key, and
    /// either launch it or hold it behind the reconciliation already in
    /// flight for it. At most one launch per key is ever outstanding.
    pub fn next_ready(&mut self, now: u64) -> (r: NextOutcome)
        requires
            old(self).wf(),
        ensures
            final(self).wf(),
            final(self).scheduler.rank() == old(self).scheduler.rank(),
            match r {
                NextOutcome::Idle => {
                    &&& final(self).scheduler@ =~= old(self).scheduler@
                    &&& final(self).runner@ == old(self).runner@
                    &&& forall|k: crate::object_ref::RefView|
                        old(self).scheduler@.contains_key(k) ==> #[trigger] old(
                            self,
                        ).scheduler@[k].0 > now
                },
                NextOutcome::Launch(key) => {
                    &&& old(self).scheduler@.contains_key(key@)
                    &&& old(self).scheduler@[key@].0 <= now
                    &&& final(self).scheduler@ =~= old(self).scheduler@.remove(key@)
                    &&& !old(self).runner@.contains_key(key@)
                    &&& final(self).runner@ =~= old(self).runner@.insert(key@, false)
                },
                NextOutcome::Held(key) => {
                    &&& old(self).scheduler@.contains_key(key@)
                    &&& old(self).scheduler@[key@].0 <= now
                    &&& final(self).scheduler@ =~= old(self).scheduler@.remove(key@)
                    &&& old(self).runner@.contains_key(key@)
                    &&& final(self).runner@ =~= old(self).runner@.insert(key@, true)
                },
            },
    {
        match self.scheduler.pop_due(now) {
            Some(key) => {
                let launch = self.runner.on_key(&key);
                if launch {
                    NextOutcome::Launch(key)
                } else {
                    NextOutcome::Held(key)
                }
            },
            None => NextOutcome::Idle,
        }
    }

    /// A launched reconciliation finished: requeue it if its settled
    /// action asks for one, and report whether a held firing relaunches
    /// it at once.
    pub fn complete(&mut self, key: &ObjectRef, requeue: Option<ScheduleRequest>) -> (relaunch:
        bool)
        requires
            old(self).wf(),
            old(self).runner@.contains_key(key@),
            old(self).scheduler.rank() < u64::MAX,
        ensures
            final(self).wf(),
            relaunch == old(self).runner@[key@],
            relaunch ==> final(self).runner@ =~= old(self).runner@.insert(key@, false),
            !relaunch ==> final(self).runner@ =~= old(self).runner@.remove(key@),
            match requeue {
                Some(req) => final(self).scheduler@ =~= enqueue_spec(
                    old(self).scheduler@,
                    req.message@,
                    req.run_at,
                    old(self).scheduler.rank(),
                ),
                None => final(self).scheduler@ =~= old(self).scheduler@,
            },
    {
        match requeue {
            Some(req) => self.scheduler.enqueue(req),
            None => {},
        }
        self.runner.on_complete(key)
    }

    /// Drop the applier: every in-flight task is cancelled, its resources
    /// released, and no output item is emitted for it.
    pub fn cancel(&mut self)
        requires
            old(self).wf(),
        ensures
            final(self).wf(),
            final(self).runner@ =~= Map::<crate::object_ref::RefView, bool>::empty(),
            final(self).scheduler@ == old(self).scheduler@,
            final(self).scheduler.rank() == old(self).scheduler.rank(),
    {
        self.runner.cancel_all();
    }
}

} // verus!
