//! The watcher: a state machine that turns list+watch responses into an
//! infinite stream of [`Event`]s, relisting on desync.
//!
//! The surrounding driver performs the network calls: it asks
//! [`desired_request`] what to fetch, hands each response to a step
//! function, and forwards what the step emits. Transient errors are
//! surfaced as items and the stream stays live; end-of-stream re-enters
//! the watch at the current resource version; a "gone"/"expired" error
//! forces a fresh list.

use vstd::prelude::*;
use vstd::string::*;

use crate::object::{DynamicObject, ObjectView};
use crate::reflector::{Event, EventView};
use crate::status::{Status, StatusView};

verus! {

/// One decoded frame of the watch stream.
#[derive(Clone, Debug)]
pub enum WatchEvent {
    /// The object was created.
    Added(DynamicObject),
    /// The object was modified.
    Modified(DynamicObject),
    /// The object was deleted.
    Deleted(DynamicObject),
    /// Advance the resource version; nothing is emitted downstream.
    Bookmark(String),
    /// The server reported an error for this watch.
    ErrorStatus(Status),
}

/// One page of a paginated list response.
#[derive(Clone, Debug)]
pub struct ListPage {
    /// The objects on this page.
    pub items: Vec<DynamicObject>,
    /// The token for the next page, if the list continues.
    pub continue_token: Option<String>,
    /// The collection's resource version as of this response.
    pub resource_version: String,
}

/// The mathematical value of a [`WatcherState`].
pub enum StateView {
    Empty,
    InitPage { objects: Seq<ObjectView>, token: Seq<char> },
    Watching { resource_version: Seq<char> },
}

/// Where the watcher stands.
#[derive(Clone, Debug)]
pub enum WatcherState {
    /// No known resource version: a fresh paginated list starts next.
    /// Relist-on-desync returns here.
    Empty,
    /// Mid-pagination: the objects gathered so far and the token for the
    /// next page. No partial restart is ever emitted.
    InitPage { objects: Vec<DynamicObject>, token: String },
    /// Long-poll watching from this resource version.
    Watching { resource_version: String },
}

impl View for WatcherState {
    type V = StateView;

    open spec fn view(&self) -> StateView {
        match self {
            WatcherState::Empty => StateView::Empty,
            WatcherState::InitPage { objects, token } => StateView::InitPage {
                objects: objects.deep_view(),
                token: token@,
            },
            WatcherState::Watching { resource_version } => StateView::Watching {
                resource_version: resource_version@,
            },
        }
    }
}

/// An error the watcher surfaces as an item while the stream stays live.
#[derive(Clone, Debug)]
pub enum WatcherError {
    /// The paginated list failed; the next step starts a fresh list.
    InitialListFailed { status: Status },
    /// The server sent an ERROR frame that does not force a relist.
    WatchError { status: Status },
    /// The transport failed mid-watch.
    WatchFailed { message: String },
}

/// What one step hands downstream.
#[derive(Clone, Debug)]
pub enum WatcherOutput {
    /// Nothing to emit for this input.
    Silent,
    /// Emit this event.
    Emit(Event),
    /// Surface this error as an item; the stream stays live.
    EmitErr(WatcherError),
}

/// The call the surrounding driver should make next.
#[derive(Clone, Debug)]
pub enum WatcherRequest {
    /// List the collection, continuing from the token if one is given.
    List { continue_token: Option<String> },
    /// Open a long-poll watch from this resource version.
    Watch { resource_version: String },
}

/// Whether the server's error frame means the resource version is gone
/// and a relist is required.
pub open spec fn is_desync(s: StatusView) -> bool {
    s.code == 410 || s.reason == "Expired"@ || s.reason == "Gone"@
}

/// Whether the status frame forces a relist: its code is the
/// gone-semantics 410 or its reason names an expired resource version.
pub fn status_is_desync(s: &Status) -> (r: bool)
    ensures
        r == is_desync(s@),
{
    if s.code == 410 {
        true
    } else {
        let expired: String = "Expired".to_owned();
        let gone: String = "Gone".to_owned();
        s.reason == expired || s.reason == gone
    }
}

/// The objects accumulated so far in a list state.
pub open spec fn accumulated(s: StateView) -> Seq<ObjectView> {
    match s {
        StateView::InitPage { objects, .. } => objects,
        _ => Seq::empty(),
    }
}

/// The request the current state calls for: a fresh or continued list
/// while (re)initializing, a watch from the current resource version
/// otherwise.
pub fn desired_request(state: &WatcherState) -> (r: WatcherRequest)
    ensures
        match state@ {
            StateView::Empty => r matches WatcherRequest::List { continue_token } && continue_token
                is None,
            StateView::InitPage { token, .. } => r matches WatcherRequest::List { continue_token }
                && (continue_token matches Some(t) && t@ == token),
            StateView::Watching { resource_version } => r matches WatcherRequest::Watch {
                resource_version: rv,
            } && rv@ == resource_version,
        },
{
    match state {
        WatcherState::Empty => WatcherRequest::List { continue_token: None },
        WatcherState::InitPage { token, .. } => WatcherRequest::List {
            continue_token: Some(token.clone()),
        },
        WatcherState::Watching { resource_version } => WatcherRequest::Watch {
            resource_version: resource_version.clone(),
        },
    }
}

/// Take one list page. A further page is accumulated silently; the final
/// page emits a single `Restarted` carrying every accumulated object and
/// enters `Watching` at the list's resource version. A page arriving in
/// `Watching` is ignored.
pub fn step_list_page(state: WatcherState, page: ListPage) -> (r: (WatcherState, WatcherOutput))
    ensures
        !(state@ is Watching) ==> match page.continue_token {
            Some(t) => r.0@ == (StateView::InitPage {
                objects: accumulated(state@) + page.items.deep_view(),
                token: t@,
            }) && r.1 is Silent,
            None => r.0@ == (StateView::Watching { resource_version: page.resource_version@ }) && (
            r.1 matches WatcherOutput::Emit(ev) && ev@ == EventView::Restarted(
                accumulated(state@) + page.items.deep_view(),
            )),
        },
        state@ is Watching ==> r.0@ == state@ && r.1 is Silent,
{
    let mut acc: Vec<DynamicObject> = match state {
        WatcherState::Empty => Vec::new(),
        WatcherState::InitPage { objects, .. } => objects,
        WatcherState::Watching { resource_version } => {
            return (WatcherState::Watching { resource_version }, WatcherOutput::Silent);
        },
    };
    let ghost acc0 = acc.deep_view();
    let mut items = page.items;
    acc.append(&mut items);
    proof {
        assert(acc0 =~= accumulated(state@));
        assert(acc.deep_view() =~= accumulated(state@) + page.items.deep_view());
    }
    match page.continue_token {
        Some(t) => (WatcherState::InitPage { objects: acc, token: t }, WatcherOutput::Silent),
        None => (
            WatcherState::Watching { resource_version: page.resource_version },
            WatcherOutput::Emit(Event::Restarted(acc)),
        ),
    }
}

/// Take a list failure: any partial pagination is discarded, the error is
/// surfaced, and the next step starts a fresh list. No partial restart is
/// emitted. A failure arriving in `Watching` is ignored.
pub fn step_list_error(state: WatcherState, status: Status) -> (r: (WatcherState, WatcherOutput))
    ensures
        !(state@ is Watching) ==> r.0@ == StateView::Empty && (r.1 matches WatcherOutput::EmitErr(
            e,
        ) && (e matches WatcherError::InitialListFailed { status: s } && s@ == status@)),
        state@ is Watching ==> r.0@ == state@ && r.1 is Silent,
{
    match state {
        WatcherState::Watching { resource_version } => (
            WatcherState::Watching { resource_version },
            WatcherOutput::Silent,
        ),
        _ => (
            WatcherState::Empty,
            WatcherOutput::EmitErr(WatcherError::InitialListFailed { status }),
        ),
    }
}

/// Take one decoded watch frame, in `Watching`:
/// - `ADDED`/`MODIFIED` emit `Applied` and advance the resource version
///   to the object's;
/// - `DELETED` emits `Deleted` and advances likewise;
/// - `BOOKMARK` advances the resource version and emits nothing;
/// - an ERROR frame with gone/expired semantics forces a relist (nothing
///   is emitted; the relist's `Restarted` resynchronises downstream);
///   any other ERROR frame is surfaced and the watch continues.
///
/// A frame arriving in a list state is ignored.
pub fn step_watch_line(state: WatcherState, line: WatchEvent) -> (r: (WatcherState, WatcherOutput))
    ensures
        state@ matches StateView::Watching { resource_version: rv } ==> match line {
            WatchEvent::Added(o) => r.0@ == (StateView::Watching {
                resource_version: o@.meta.resource_version,
            }) && (r.1 matches WatcherOutput::Emit(ev) && ev@ == EventView::Applied(o@)),
            WatchEvent::Modified(o) => r.0@ == (StateView::Watching {
                resource_version: o@.meta.resource_version,
            }) && (r.1 matches WatcherOutput::Emit(ev) && ev@ == EventView::Applied(o@)),
            WatchEvent::Deleted(o) => r.0@ == (StateView::Watching {
                resource_version: o@.meta.resource_version,
            }) && (r.1 matches WatcherOutput::Emit(ev) && ev@ == EventView::Deleted(o@)),
            WatchEvent::Bookmark(v) => r.0@ == (StateView::Watching { resource_version: v@ })
                && r.1 is Silent,
            WatchEvent::ErrorStatus(s) => if is_desync(s@) {
                r.0@ == StateView::Empty && r.1 is Silent
            } else {
                r.0@ == (StateView::Watching { resource_version: rv }) && (r.1
                    matches WatcherOutput::EmitErr(e) && (e matches WatcherError::WatchError {
                    status,
                } && status@ == s@))
            },
        },
        !(state@ is Watching) ==> r.0@ == state@ && r.1 is Silent,
{
    match state {
        WatcherState::Watching { resource_version } => match line {
            WatchEvent::Added(o) => {
                let rv = o.meta.resource_version.clone();
                (WatcherState::Watching { resource_version: rv }, WatcherOutput::Emit(
                    Event::Applied(o),
                ))
            },
            WatchEvent::Modified(o) => {
                let rv = o.meta.resource_version.clone();
                (WatcherState::Watching { resource_version: rv }, WatcherOutput::Emit(
                    Event::Applied(o),
                ))
            },
            WatchEvent::Deleted(o) => {
                let rv = o.meta.resource_version.clone();
                (WatcherState::Watching { resource_version: rv }, WatcherOutput::Emit(
                    Event::Deleted(o),
                ))
            },
            WatchEvent::Bookmark(v) => (
                WatcherState::Watching { resource_version: v },
                WatcherOutput::Silent,
            ),
            WatchEvent::ErrorStatus(s) => {
                if status_is_desync(&s) {
                    (WatcherState::Empty, WatcherOutput::Silent)
                } else {
                    (
                        WatcherState::Watching { resource_version },
                        WatcherOutput::EmitErr(WatcherError::WatchError { status: s }),
                    )
                }
            },
        },
        other => (other, WatcherOutput::Silent),
    }
}

/// Take a clean end of the watch stream: not fatal, the watcher re-enters
/// `Watching` at its current resource version and nothing is emitted.
pub fn step_watch_end(state: WatcherState) -> (r: (WatcherState, WatcherOutput))
    ensures
        r.0@ == state@,
        r.1 is Silent,
{
    (state, WatcherOutput::Silent)
}

/// Take a transport failure mid-watch: the error is surfaced as an item
/// and the watch continues from the current resource version.
pub fn step_watch_failure(state: WatcherState, message: String) -> (r: (
    WatcherState,
    WatcherOutput,
))
    ensures
        r.0@ == state@,
        r.1 matches WatcherOutput::EmitErr(e) && (e matches WatcherError::WatchFailed {
            message: m,
        } && m@ == message@),
{
    (state, WatcherOutput::EmitErr(WatcherError::WatchFailed { message }))
}

} // verus!
