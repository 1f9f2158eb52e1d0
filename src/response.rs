use vstd::prelude::*;

use crate::error::AppError;

verus! {

/// The HTTP status "OK".
pub const STATUS_OK: u16 = 200;

/// The HTTP status "Not Found".
pub const STATUS_NOT_FOUND: u16 = 404;

/// The HTTP status "Internal Server Error".
pub const STATUS_INTERNAL_SERVER_ERROR: u16 = 500;

/// A response as the handlers and the middleware produce it. The transport
/// layer turns it into an HTTP response; `error` is the side channel on which
/// a failure travels from a handler to the middleware.
pub struct AppResponse {
    pub status: u16,
    pub body: String,
    /// The body is an HTML page (otherwise plain text).
    pub html: bool,
    pub error: Option<AppError>,
}

impl AppResponse {
    /// An HTML page with status 200.
    pub fn page(body: String) -> (r: AppResponse)
        ensures
            r.status == STATUS_OK,
            r.body@ == body@,
            r.html,
            r.error.is_none(),
    {
        AppResponse { status: STATUS_OK, body, html: true, error: None }
    }

    /// A plain-text response with the given status and nothing attached.
    pub fn text(status: u16, body: String) -> (r: AppResponse)
        ensures
            r.status == status,
            r.body@ == body@,
            !r.html,
            r.error.is_none(),
    {
        AppResponse { status, body, html: false, error: None }
    }
}

} // verus!
