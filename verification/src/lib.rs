//! Core runtime of a controller framework for a declarative cluster
//! orchestration API.
//!
//! The crate turns a noisy, lossy stream of object change notifications into
//! an ordered sequence of per-object reconciliation invocations:
//! - [`watcher`]: a resilient change-notification state machine over
//!   list+watch semantics with relist-on-desync recovery;
//! - [`reflector`]: a local cache (a [`reflector::Store`]) kept in sync by
//!   applying watch events;
//! - [`object_ref`]: typed, cluster/namespace-scoped identity keys;
//! - [`scheduler`]: a per-key delay queue that coalesces requeues into a
//!   single earliest-due firing;
//! - [`runner`]: a per-key single-flight table guaranteeing at most one
//!   concurrent reconciliation per key;
//! - [`applier`]: the decision logic wiring triggers, store, scheduler,
//!   runner, reconciler and error policy;
//! - [`request`]: request descriptors (URLs, methods, bodies) for the
//!   remote collection, with [`params`] shaping them and [`crds`] naming
//!   kinds only known at runtime.

pub mod applier;
pub mod crds;
pub mod decimal;
pub mod kind;
pub mod object;
pub mod object_ref;
pub mod outside;
pub mod params;
pub mod reflector;
pub mod request;
pub mod runner;
pub mod scheduler;
pub mod status;
pub mod trigger;
pub mod upgrade;
pub mod watcher;
