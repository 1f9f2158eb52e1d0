use std::sync::Arc;

use vstd::prelude::*;

use crate::response::{AppResponse, STATUS_INTERNAL_SERVER_ERROR};

verus! {

/// What the service knows of a failure: the text it displays and its
/// detailed (debug) rendering, chain of causes included.
#[derive(Debug)]
pub struct ErrorReport {
    pub message: String,
    pub detail: String,
}

impl ErrorReport {
    /// The detail starts with the message, as a report with its chain of
    /// causes does.
    pub open spec fn message_starts_detail(&self) -> bool {
        &&& self.message@.len() <= self.detail@.len()
        &&& self.detail@.subrange(0, self.message@.len() as int) == self.message@
    }

    pub fn new(message: String, detail: String) -> (r: ErrorReport)
        ensures
            r.message@ == message@,
            r.detail@ == detail@,
    {
        ErrorReport { message, detail }
    }
}

/// The one error kind at the HTTP boundary. The report is shared: the same
/// failure is read when the response body is built and again when the
/// middleware finds it attached to the response.
#[derive(Debug, Clone)]
pub enum AppError {
    Internal(Arc<ErrorReport>),
}

/// The prefix of the plain-text body of an error response in development
/// mode.
pub open spec fn error_body_prefix() -> Seq<char> {
    "Something went wrong: "@
}

/// The one sentence shown in place of any detail outside development mode.
pub open spec fn generic_failure_text() -> Seq<char> {
    "Internal server error; Something went terribly wrong! Please contant the site's administrators if you can."@
}

/// The generic sentence, outside development mode.
pub fn generic_failure_message() -> (r: String)
    ensures
        r@ == generic_failure_text(),
{
    String::from_str(
        "Internal server error; Something went terribly wrong! Please contant the site's administrators if you can.",
    )
}

/// The body of an error response: the message in development mode, the
/// generic sentence otherwise.
pub open spec fn error_body_view(dev_mode: bool, e: AppError) -> Seq<char> {
    if dev_mode {
        error_body_prefix() + e.message_view()
    } else {
        generic_failure_text()
    }
}

impl AppError {
    /// The failure's display text.
    pub open spec fn message_view(&self) -> Seq<char> {
        match self {
            AppError::Internal(r) => r.message@,
        }
    }

    /// The failure's detailed rendering.
    pub open spec fn detail_view(&self) -> Seq<char> {
        match self {
            AppError::Internal(r) => r.detail@,
        }
    }

    /// The report is well formed: its detail starts with its message.
    pub open spec fn wf(&self) -> bool {
        match self {
            AppError::Internal(r) => r.message_starts_detail(),
        }
    }

    /// The error's debug text: the variant wrapped round the detail.
    pub open spec fn debug_view(&self) -> Seq<char> {
        "Internal("@ + self.detail_view() + ")"@
    }

    /// Lifts a failure into the error type.
    pub fn internal(report: ErrorReport) -> (r: AppError)
        ensures
            r.message_view() == report.message@,
            r.detail_view() == report.detail@,
            r.wf() == report.message_starts_detail(),
    {
        AppError::Internal(Arc::new(report))
    }

    pub fn message(&self) -> (r: &String)
        ensures
            r@ == self.message_view(),
    {
        match self {
            AppError::Internal(rep) => &rep.message,
        }
    }

    pub fn detail(&self) -> (r: &String)
        ensures
            r@ == self.detail_view(),
    {
        match self {
            AppError::Internal(rep) => &rep.detail,
        }
    }

    /// The debug text of the error, as the diagnostic page shows it.
    pub fn debug_text(&self) -> (r: String)
        ensures
            r@ == self.debug_view(),
    {
        let mut s = String::from_str("Internal(");
        s.append(self.detail().as_str());
        s.append(")");
        s
    }

    /// The response for the error: status 500, a plain-text body that names
    /// the failure only in development mode, and the error itself attached
    /// for the middleware.
    pub fn into_response(self, dev_mode: bool) -> (r: AppResponse)
        ensures
            r.status == STATUS_INTERNAL_SERVER_ERROR,
            r.body@ == error_body_view(dev_mode, self),
            !r.html,
            r.error == Some(self),
    {
        let body = if dev_mode {
            let mut body = String::from_str("Something went wrong: ");
            body.append(self.message().as_str());
            body
        } else {
            generic_failure_message()
        };
        AppResponse { status: STATUS_INTERNAL_SERVER_ERROR, body, html: false, error: Some(self) }
    }
}

} // verus!
