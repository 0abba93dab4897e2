//! The parameter types that shape list, watch, mutation and subresource
//! requests.

use vstd::prelude::*;
use vstd::string::*;

verus! {

/// The mathematical value of a [`ListParams`].
#[verifier::ext_equal]
pub struct ListParamsView {
    pub label_selector: Option<Seq<char>>,
    pub field_selector: Option<Seq<char>>,
    pub timeout: Option<u32>,
    pub limit: Option<u32>,
    pub continue_token: Option<Seq<char>>,
}

/// Selectors, page size, and a long-poll timeout hint for list and watch
/// calls.
#[derive(Clone, Debug)]
pub struct ListParams {
    /// A label selector restricting the objects returned.
    pub label_selector: Option<String>,
    /// A field selector restricting the objects returned.
    pub field_selector: Option<String>,
    /// A server-side long-poll timeout hint, in seconds.
    pub timeout: Option<u32>,
    /// The page size for paginated lists.
    pub limit: Option<u32>,
    /// The continue token of the next page.
    pub continue_token: Option<String>,
}

impl View for ListParams {
    type V = ListParamsView;

    open spec fn view(&self) -> ListParamsView {
        ListParamsView {
            label_selector: match self.label_selector {
                Some(s) => Some(s@),
                None => None,
            },
            field_selector: match self.field_selector {
                Some(s) => Some(s@),
                None => None,
            },
            timeout: self.timeout,
            limit: self.limit,
            continue_token: match self.continue_token {
                Some(s) => Some(s@),
                None => None,
            },
        }
    }
}

impl Default for ListParams {
    /// No selectors, no timeout, no pagination.
    fn default() -> (r: Self)
        ensures
            r@ == (ListParamsView {
                label_selector: None,
                field_selector: None,
                timeout: None,
                limit: None,
                continue_token: None,
            }),
    {
        ListParams {
            label_selector: None,
            field_selector: None,
            timeout: None,
            limit: None,
            continue_token: None,
        }
    }
}

impl ListParams {
    /// Restrict the returned objects by a label selector.
    pub fn labels(self, selector: &str) -> (r: Self)
        ensures
            r@ == (ListParamsView { label_selector: Some(selector@), ..self@ }),
    {
        let r = ListParams { label_selector: Some(selector.to_owned()), ..self };
        proof {
            assert(r@ =~= (ListParamsView { label_selector: Some(selector@), ..self@ }));
        }
        r
    }

    /// Restrict the returned objects by a field selector.
    pub fn fields(self, selector: &str) -> (r: Self)
        ensures
            r@ == (ListParamsView { field_selector: Some(selector@), ..self@ }),
    {
        let r = ListParams { field_selector: Some(selector.to_owned()), ..self };
        proof {
            assert(r@ =~= (ListParamsView { field_selector: Some(selector@), ..self@ }));
        }
        r
    }

    /// Set the server-side long-poll timeout hint, in seconds.
    pub fn timeout(self, seconds: u32) -> (r: Self)
        ensures
            r@ == (ListParamsView { timeout: Some(seconds), ..self@ }),
    {
        let r = ListParams { timeout: Some(seconds), ..self };
        proof {
            assert(r@ =~= (ListParamsView { timeout: Some(seconds), ..self@ }));
        }
        r
    }

    /// Set the page size for paginated lists.
    pub fn limit(self, count: u32) -> (r: Self)
        ensures
            r@ == (ListParamsView { limit: Some(count), ..self@ }),
    {
        let r = ListParams { limit: Some(count), ..self };
        proof {
            assert(r@ =~= (ListParamsView { limit: Some(count), ..self@ }));
        }
        r
    }

    /// Continue a paginated list from the given token.
    pub fn continue_token(self, token: &str) -> (r: Self)
        ensures
            r@ == (ListParamsView { continue_token: Some(token@), ..self@ }),
    {
        let r = ListParams { continue_token: Some(token.to_owned()), ..self };
        proof {
            assert(r@ =~= (ListParamsView { continue_token: Some(token@), ..self@ }));
        }
        r
    }
}

/// The mathematical value of a [`PostParams`].
#[verifier::ext_equal]
pub struct PostParamsView {
    pub dry_run: bool,
    pub field_manager: Option<Seq<char>>,
}

/// How a create or replace call should be performed.
#[derive(Clone, Debug)]
pub struct PostParams {
    /// Process the request without persisting it.
    pub dry_run: bool,
    /// The name under which field ownership is recorded.
    pub field_manager: Option<String>,
}

impl View for PostParams {
    type V = PostParamsView;

    open spec fn view(&self) -> PostParamsView {
        PostParamsView {
            dry_run: self.dry_run,
            field_manager: match self.field_manager {
                Some(s) => Some(s@),
                None => None,
            },
        }
    }
}

impl Default for PostParams {
    /// A persisted request with no field manager.
    fn default() -> (r: Self)
        ensures
            r@ == (PostParamsView { dry_run: false, field_manager: None }),
    {
        PostParams { dry_run: false, field_manager: None }
    }
}

impl PostParams {
    /// Reject a field manager longer than the server accepts: `Ok` exactly
    /// when the field manager is absent or at most 128 characters long.
    pub fn validate(&self) -> (r: Result<(), String>)
        ensures
            match self@.field_manager {
                Some(fm) => (r is Ok <==> fm.len() <= 128),
                None => r is Ok,
            },
            r matches Err(msg) ==> msg@ == "Failed to validate PostParams::field_manager!"@,
    {
        match &self.field_manager {
            Some(fm) => {
                if fm.as_str().unicode_len() > 128 {
                    Err("Failed to validate PostParams::field_manager!".to_owned())
                } else {
                    Ok(())
                }
            },
            None => Ok(()),
        }
    }
}

/// The strategy a patch body is interpreted under.
#[derive(Clone, Copy, Debug, PartialEq, Eq, Structural)]
pub enum PatchStrategy {
    JsonPatch,
    MergePatch,
    StrategicMerge,
    Apply,
}

/// The mathematical value of a [`PatchParams`].
#[verifier::ext_equal]
pub struct PatchParamsView {
    pub dry_run: bool,
    pub force: bool,
    pub field_manager: Option<Seq<char>>,
    pub patch_strategy: PatchStrategy,
}

/// How a patch call should be performed.
#[derive(Clone, Debug)]
pub struct PatchParams {
    /// Process the request without persisting it.
    pub dry_run: bool,
    /// Force server-side apply to take over conflicting fields.
    pub force: bool,
    /// The name under which field ownership is recorded.
    pub field_manager: Option<String>,
    /// The strategy the patch body is interpreted under.
    pub patch_strategy: PatchStrategy,
}

impl View for PatchParams {
    type V = PatchParamsView;

    open spec fn view(&self) -> PatchParamsView {
        PatchParamsView {
            dry_run: self.dry_run,
            force: self.force,
            field_manager: match self.field_manager {
                Some(s) => Some(s@),
                None => None,
            },
            patch_strategy: self.patch_strategy,
        }
    }
}

impl Default for PatchParams {
    /// A persisted strategic-merge patch with no force and no field
    /// manager.
    fn default() -> (r: Self)
        ensures
            r@ == (PatchParamsView {
                dry_run: false,
                force: false,
                field_manager: None,
                patch_strategy: PatchStrategy::StrategicMerge,
            }),
    {
        PatchParams {
            dry_run: false,
            force: false,
            field_manager: None,
            patch_strategy: PatchStrategy::StrategicMerge,
        }
    }
}

impl PatchParams {
    /// Server-side apply under the given field manager.
    pub fn apply(manager: &str) -> (r: Self)
        ensures
            r@ == (PatchParamsView {
                dry_run: false,
                force: false,
                field_manager: Some(manager@),
                patch_strategy: PatchStrategy::Apply,
            }),
    {
        PatchParams {
            dry_run: false,
            force: false,
            field_manager: Some(manager.to_owned()),
            patch_strategy: PatchStrategy::Apply,
        }
    }

    /// Reject force outside server-side apply: `Ok` exactly when `force`
    /// is unset or the strategy is `Apply`.
    pub fn validate(&self) -> (r: Result<(), String>)
        ensures
            r is Ok <==> (!self@.force || self@.patch_strategy == PatchStrategy::Apply),
            r matches Err(msg) ==> msg@ == "PatchParams::force only works with Apply patches"@,
    {
        if self.force && !matches!(self.patch_strategy, PatchStrategy::Apply) {
            Err("PatchParams::force only works with Apply patches".to_owned())
        } else {
            Ok(())
        }
    }
}

/// What happens to a deleted object's dependents.
#[derive(Clone, Copy, Debug, PartialEq, Eq, Structural)]
pub enum PropagationPolicy {
    /// Orphan the dependents.
    Orphan,
    /// Delete the object and let the garbage collector delete the
    /// dependents in the background.
    Background,
    /// Delete the dependents before the object.
    Foreground,
}

/// The mathematical value of a [`Preconditions`].
#[verifier::ext_equal]
pub struct PreconditionsView {
    pub resource_version: Option<Seq<char>>,
    pub uid: Option<Seq<char>>,
}

/// What the target object must match for a deletion to be carried out.
#[derive(Clone, Debug)]
pub struct Preconditions {
    pub resource_version: Option<String>,
    pub uid: Option<String>,
}

impl View for Preconditions {
    type V = PreconditionsView;

    open spec fn view(&self) -> PreconditionsView {
        PreconditionsView {
            resource_version: match self.resource_version {
                Some(s) => Some(s@),
                None => None,
            },
            uid: match self.uid {
                Some(s) => Some(s@),
                None => None,
            },
        }
    }
}

/// The mathematical value of a [`DeleteParams`].
#[verifier::ext_equal]
pub struct DeleteParamsView {
    pub dry_run: bool,
    pub grace_period_seconds: Option<u32>,
    pub propagation_policy: Option<PropagationPolicy>,
    pub preconditions: Option<PreconditionsView>,
}

/// How a delete call should be performed.
#[derive(Clone, Debug)]
pub struct DeleteParams {
    /// Process the request without persisting it.
    pub dry_run: bool,
    /// Seconds the object is given to terminate gracefully.
    pub grace_period_seconds: Option<u32>,
    /// What happens to the object's dependents.
    pub propagation_policy: Option<PropagationPolicy>,
    /// What the target must match for the deletion to be carried out.
    pub preconditions: Option<Preconditions>,
}

impl View for DeleteParams {
    type V = DeleteParamsView;

    open spec fn view(&self) -> DeleteParamsView {
        DeleteParamsView {
            dry_run: self.dry_run,
            grace_period_seconds: self.grace_period_seconds,
            propagation_policy: self.propagation_policy,
            preconditions: match self.preconditions {
                Some(p) => Some(p@),
                None => None,
            },
        }
    }
}

impl Default for DeleteParams {
    /// A persisted deletion with server-side defaults.
    fn default() -> (r: Self)
        ensures
            r@ == (DeleteParamsView {
                dry_run: false,
                grace_period_seconds: None,
                propagation_policy: None,
                preconditions: None,
            }),
    {
        DeleteParams {
            dry_run: false,
            grace_period_seconds: None,
            propagation_policy: None,
            preconditions: None,
        }
    }
}

/// The mathematical value of a [`LogParams`].
#[verifier::ext_equal]
pub struct LogParamsView {
    pub container: Option<Seq<char>>,
    pub follow: bool,
    pub limit_bytes: Option<i64>,
    pub pretty: bool,
    pub previous: bool,
    pub since_seconds: Option<i64>,
    pub tail_lines: Option<i64>,
    pub timestamps: bool,
}

/// How logs should be fetched.
#[derive(Clone, Debug)]
pub struct LogParams {
    /// The container for which to stream logs. Defaults to the only
    /// container if there is one container in the pod.
    pub container: Option<String>,
    /// Follow the log stream of the pod. Defaults to `false`.
    pub follow: bool,
    /// If set, the number of bytes to read from the server before
    /// terminating the log output.
    pub limit_bytes: Option<i64>,
    /// If `true`, then the output is pretty printed.
    pub pretty: bool,
    /// Return previous terminated container logs. Defaults to `false`.
    pub previous: bool,
    /// A relative time in seconds before the current time from which to
    /// show logs.
    pub since_seconds: Option<i64>,
    /// If set, the number of lines from the end of the logs to show.
    pub tail_lines: Option<i64>,
    /// If `true`, add a timestamp at the beginning of every line of log
    /// output. Defaults to `false`.
    pub timestamps: bool,
}

impl View for LogParams {
    type V = LogParamsView;

    open spec fn view(&self) -> LogParamsView {
        LogParamsView {
            container: match self.container {
                Some(s) => Some(s@),
                None => None,
            },
            follow: self.follow,
            limit_bytes: self.limit_bytes,
            pretty: self.pretty,
            previous: self.previous,
            since_seconds: self.since_seconds,
            tail_lines: self.tail_lines,
            timestamps: self.timestamps,
        }
    }
}

impl Default for LogParams {
    /// The current logs of the default container, unlimited and without
    /// timestamps.
    fn default() -> (r: Self)
        ensures
            r@ == (LogParamsView {
                container: None,
                follow: false,
                limit_bytes: None,
                pretty: false,
                previous: false,
                since_seconds: None,
                tail_lines: None,
                timestamps: false,
            }),
    {
        LogParams {
            container: None,
            follow: false,
            limit_bytes: None,
            pretty: false,
            previous: false,
            since_seconds: None,
            tail_lines: None,
            timestamps: false,
        }
    }
}

/// The mathematical value of an [`EvictParams`].
#[verifier::ext_equal]
pub struct EvictParamsView {
    pub delete_options: Option<DeleteParamsView>,
    pub post_options: PostParamsView,
}

/// How an eviction should occur, and how its post should be performed.
#[derive(Clone, Debug)]
pub struct EvictParams {
    /// How the eviction should occur.
    pub delete_options: Option<DeleteParams>,
    /// How the http post should occur.
    pub post_options: PostParams,
}

impl View for EvictParams {
    type V = EvictParamsView;

    open spec fn view(&self) -> EvictParamsView {
        EvictParamsView {
            delete_options: match self.delete_options {
                Some(d) => Some(d@),
                None => None,
            },
            post_options: self.post_options@,
        }
    }
}

impl Default for EvictParams {
    /// Server-side deletion defaults and a plain persisted post.
    fn default() -> (r: Self)
        ensures
            r@ == (EvictParamsView {
                delete_options: None,
                post_options: PostParamsView { dry_run: false, field_manager: None },
            }),
    {
        EvictParams { delete_options: None, post_options: PostParams::default() }
    }
}

/// The mathematical value of an [`AttachParams`].
#[verifier::ext_equal]
pub struct AttachParamsView {
    pub container: Option<Seq<char>>,
    pub stdin: bool,
    pub stdout: bool,
    pub stderr: bool,
    pub tty: bool,
    pub max_stdin_buf_size: Option<usize>,
    pub max_stdout_buf_size: Option<usize>,
    pub max_stderr_buf_size: Option<usize>,
}

/// Parameters for attaching to (or executing in) a container.
///
/// - One of `stdin`, `stdout`, or `stderr` must be `true`.
/// - `stderr` and `tty` cannot both be `true`, because multiplexing is
///   not supported with TTY.
#[derive(Clone, Debug)]
pub struct AttachParams {
    /// The name of the container to attach. Defaults to the only
    /// container if there is only one container in the pod.
    pub container: Option<String>,
    /// Attach to the container's standard input. Defaults to `false`.
    pub stdin: bool,
    /// Attach to the container's standard output. Defaults to `true`.
    pub stdout: bool,
    /// Attach to the container's standard error. Defaults to `true`.
    pub stderr: bool,
    /// Allocate a TTY. Defaults to `false`.
    pub tty: bool,
    /// The most bytes the internal `stdin` pipe buffers before a write
    /// waits. Not sent to the server.
    pub max_stdin_buf_size: Option<usize>,
    /// The most bytes the internal `stdout` pipe buffers before a write
    /// waits. Not sent to the server.
    pub max_stdout_buf_size: Option<usize>,
    /// The most bytes the internal `stderr` pipe buffers before a write
    /// waits. Not sent to the server.
    pub max_stderr_buf_size: Option<usize>,
}

impl View for AttachParams {
    type V = AttachParamsView;

    open spec fn view(&self) -> AttachParamsView {
        AttachParamsView {
            container: match self.container {
                Some(s) => Some(s@),
                None => None,
            },
            stdin: self.stdin,
            stdout: self.stdout,
            stderr: self.stderr,
            tty: self.tty,
            max_stdin_buf_size: self.max_stdin_buf_size,
            max_stdout_buf_size: self.max_stdout_buf_size,
            max_stderr_buf_size: self.max_stderr_buf_size,
        }
    }
}

impl Default for AttachParams {
    /// The server's defaults: stdout and stderr attached, nothing else.
    fn default() -> (r: Self)
        ensures
            r@ == (AttachParamsView {
                container: None,
                stdin: false,
                stdout: true,
                stderr: true,
                tty: false,
                max_stdin_buf_size: None,
                max_stdout_buf_size: None,
                max_stderr_buf_size: None,
            }),
    {
        AttachParams {
            container: None,
            stdin: false,
            stdout: true,
            stderr: true,
            tty: false,
            max_stdin_buf_size: None,
            max_stdout_buf_size: None,
            max_stderr_buf_size: None,
        }
    }
}

impl AttachParams {
    /// Default parameters for a TTY exec with stdin and stdout.
    pub fn interactive_tty() -> (r: Self)
        ensures
            r@ == (AttachParamsView {
                container: None,
                stdin: true,
                stdout: true,
                stderr: false,
                tty: true,
                max_stdin_buf_size: None,
                max_stdout_buf_size: None,
                max_stderr_buf_size: None,
            }),
    {
        AttachParams {
            stdin: true,
            stdout: true,
            stderr: false,
            tty: true,
            ..AttachParams::default()
        }
    }

    /// Specify the container to execute in.
    pub fn container(self, name: &str) -> (r: Self)
        ensures
            r@ == (AttachParamsView { container: Some(name@), ..self@ }),
    {
        let r = AttachParams { container: Some(name.to_owned()), ..self };
        proof {
            assert(r@ =~= (AttachParamsView { container: Some(name@), ..self@ }));
        }
        r
    }

    /// Set the `stdin` field.
    pub fn stdin(self, enable: bool) -> (r: Self)
        ensures
            r@ == (AttachParamsView { stdin: enable, ..self@ }),
    {
        let r = AttachParams { stdin: enable, ..self };
        proof {
            assert(r@ =~= (AttachParamsView { stdin: enable, ..self@ }));
        }
        r
    }

    /// Set the `stdout` field.
    pub fn stdout(self, enable: bool) -> (r: Self)
        ensures
            r@ == (AttachParamsView { stdout: enable, ..self@ }),
    {
        let r = AttachParams { stdout: enable, ..self };
        proof {
            assert(r@ =~= (AttachParamsView { stdout: enable, ..self@ }));
        }
        r
    }

    /// Set the `stderr` field.
    pub fn stderr(self, enable: bool) -> (r: Self)
        ensures
            r@ == (AttachParamsView { stderr: enable, ..self@ }),
    {
        let r = AttachParams { stderr: enable, ..self };
        proof {
            assert(r@ =~= (AttachParamsView { stderr: enable, ..self@ }));
        }
        r
    }

    /// Set the `tty` field.
    pub fn tty(self, enable: bool) -> (r: Self)
        ensures
            r@ == (AttachParamsView { tty: enable, ..self@ }),
    {
        let r = AttachParams { tty: enable, ..self };
        proof {
            assert(r@ =~= (AttachParamsView { tty: enable, ..self@ }));
        }
        r
    }

    /// Set the `max_stdin_buf_size` field.
    pub fn max_stdin_buf_size(self, size: usize) -> (r: Self)
        ensures
            r@ == (AttachParamsView { max_stdin_buf_size: Some(size), ..self@ }),
    {
        let r = AttachParams { max_stdin_buf_size: Some(size), ..self };
        proof {
            assert(r@ =~= (AttachParamsView { max_stdin_buf_size: Some(size), ..self@ }));
        }
        r
    }

    /// Set the `max_stdout_buf_size` field.
    pub fn max_stdout_buf_size(self, size: usize) -> (r: Self)
        ensures
            r@ == (AttachParamsView { max_stdout_buf_size: Some(size), ..self@ }),
    {
        let r = AttachParams { max_stdout_buf_size: Some(size), ..self };
        proof {
            assert(r@ =~= (AttachParamsView { max_stdout_buf_size: Some(size), ..self@ }));
        }
        r
    }

    /// Set the `max_stderr_buf_size` field.
    pub fn max_stderr_buf_size(self, size: usize) -> (r: Self)
        ensures
            r@ == (AttachParamsView { max_stderr_buf_size: Some(size), ..self@ }),
    {
        let r = AttachParams { max_stderr_buf_size: Some(size), ..self };
        proof {
            assert(r@ =~= (AttachParamsView { max_stderr_buf_size: Some(size), ..self@ }));
        }
        r
    }

    /// Reject contradictory stream choices: `Ok` exactly when at least one
    /// of stdin, stdout and stderr is attached and stderr does not share
    /// the connection with a TTY.
    pub fn validate(&self) -> (r: Result<(), String>)
        ensures
            r is Ok <==> ((self@.stdin || self@.stdout || self@.stderr) && !(self@.stderr
                && self@.tty)),
            r matches Err(msg) ==> (!(self@.stdin || self@.stdout || self@.stderr) && msg@
                == "AttachParams: one of stdin, stdout, or stderr must be true"@) || ((self@.stdin
                || self@.stdout || self@.stderr) && self@.stderr && self@.tty && msg@
                == "AttachParams: tty and stderr cannot both be true"@),
    {
        if !self.stdin && !self.stdout && !self.stderr {
            Err("AttachParams: one of stdin, stdout, or stderr must be true".to_owned())
        } else if self.stderr && self.tty {
            Err("AttachParams: tty and stderr cannot both be true".to_owned())
        } else {
            Ok(())
        }
    }
}

/// Marker for kinds whose objects expose the log subresource.
pub trait Loggable {

}

/// Marker for kinds whose objects can be evicted.
pub trait Evictable {

}

/// Marker for kinds whose objects expose the attach subresource.
pub trait Attachable {

}

/// Marker for kinds whose objects expose the exec subresource.
pub trait Executable {

}

} // verus!
