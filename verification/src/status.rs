//! The structured result object the server returns for operations and
//! errors.

use vstd::prelude::*;

verus! {

/// The mathematical value of a [`StatusCause`].
#[verifier::ext_equal]
pub struct StatusCauseView {
    pub reason: Seq<char>,
    pub message: Seq<char>,
    pub field: Seq<char>,
}

/// One cause contributing to a failure status.
#[derive(Clone, Debug)]
pub struct StatusCause {
    pub reason: String,
    pub message: String,
    pub field: String,
}

impl View for StatusCause {
    type V = StatusCauseView;

    open spec fn view(&self) -> StatusCauseView {
        StatusCauseView { reason: self.reason@, message: self.message@, field: self.field@ }
    }
}

impl DeepView for StatusCause {
    type V = StatusCauseView;

    open spec fn deep_view(&self) -> StatusCauseView {
        self@
    }
}

/// The mathematical value of a [`StatusDetails`].
#[verifier::ext_equal]
pub struct StatusDetailsView {
    pub name: Seq<char>,
    pub group: Seq<char>,
    pub kind: Seq<char>,
    pub uid: Seq<char>,
    pub causes: Seq<StatusCauseView>,
    pub retry_after_seconds: u32,
}

/// Extended failure data attached to a status.
#[derive(Clone, Debug)]
pub struct StatusDetails {
    pub name: String,
    pub group: String,
    pub kind: String,
    pub uid: String,
    pub causes: Vec<StatusCause>,
    pub retry_after_seconds: u32,
}

impl View for StatusDetails {
    type V = StatusDetailsView;

    open spec fn view(&self) -> StatusDetailsView {
        StatusDetailsView {
            name: self.name@,
            group: self.group@,
            kind: self.kind@,
            uid: self.uid@,
            causes: self.causes.deep_view(),
            retry_after_seconds: self.retry_after_seconds,
        }
    }
}

/// The mathematical value of a [`Status`].
#[verifier::ext_equal]
pub struct StatusView {
    pub status: Seq<char>,
    pub message: Seq<char>,
    pub reason: Seq<char>,
    pub details: Option<StatusDetailsView>,
    pub code: u16,
}

/// The structured result the server returns: a human-readable message, a
/// machine-readable reason, an HTTP-semantic code, and optional details.
#[derive(Clone, Debug)]
pub struct Status {
    pub status: String,
    pub message: String,
    pub reason: String,
    pub details: Option<StatusDetails>,
    pub code: u16,
}

impl View for Status {
    type V = StatusView;

    open spec fn view(&self) -> StatusView {
        StatusView {
            status: self.status@,
            message: self.message@,
            reason: self.reason@,
            details: match self.details {
                Some(d) => Some(d@),
                None => None,
            },
            code: self.code,
        }
    }
}

impl Status {
    /// A status carrying only a reason and a code, as the watch stream's
    /// ERROR frames usually do.
    pub fn from_reason_code(reason: String, code: u16) -> (r: Self)
        ensures
            r@ == (StatusView {
                status: Seq::<char>::empty(),
                message: Seq::<char>::empty(),
                reason: reason@,
                details: None,
                code,
            }),
    {
        Status { status: String::new(), message: String::new(), reason, details: None, code }
    }
}

} // verus!
