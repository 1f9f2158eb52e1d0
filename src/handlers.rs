use vstd::prelude::*;

use crate::context::Cx;
use crate::error::{error_body_view, AppError};
use crate::response::{AppResponse, STATUS_INTERNAL_SERVER_ERROR, STATUS_NOT_FOUND, STATUS_OK};

verus! {

/// The name of the home page's template.
pub const HOME_TEMPLATE: &'static str = "home.jinja2";

/// What a response is when a handler fails with `e`.
pub open spec fn is_error_response(r: AppResponse, e: AppError, dev_mode: bool) -> bool {
    &&& r.status == STATUS_INTERNAL_SERVER_ERROR
    &&& r.body@ == error_body_view(dev_mode, e)
    &&& !r.html
    &&& r.error == Some(e)
}

/// What the home page is, given what rendering its template gave.
pub open spec fn is_home_response(
    r: AppResponse,
    rendered: Result<String, AppError>,
    dev_mode: bool,
) -> bool {
    match rendered {
        Ok(page) => r.status == STATUS_OK && r.body@ == page@ && r.html && r.error.is_none(),
        Err(e) => is_error_response(r, e, dev_mode),
    }
}

/// What the answer to a reload is, given how the reload went.
pub open spec fn is_reload_response(
    r: AppResponse,
    result: Result<(), AppError>,
    dev_mode: bool,
) -> bool {
    match result {
        Ok(()) => r.status == STATUS_OK && r.body@.len() == 0 && !r.html && r.error.is_none(),
        Err(e) => is_error_response(r, e, dev_mode),
    }
}

/// The home page, given what rendering its template gave: the page with
/// status 200, or the error's response.
pub fn home_response(rendered: Result<String, AppError>, dev_mode: bool) -> (r: AppResponse)
    ensures
        is_home_response(r, rendered, dev_mode),
{
    match rendered {
        Ok(page) => AppResponse::page(page),
        Err(e) => e.into_response(dev_mode),
    }
}

/// `GET /`: renders the home page with the request's common variables;
/// whatever the engine gives, the response is the home response for it.
pub fn root(cx: &Cx) -> (r: AppResponse)
    ensures
        exists|rendered: Result<String, AppError>|
            is_home_response(r, rendered, cx.server.in_dev_mode()) && (rendered matches Err(e)
                ==> e.wf()),
{
    let rendered = cx.render(HOME_TEMPLATE, None);
    let ghost g = rendered;
    let r = home_response(rendered, cx.server.dev_mode());
    assert(is_home_response(r, g, cx.server.in_dev_mode()));
    r
}

/// The answer to a reload: status 200 with an empty body, or the error's
/// response.
pub fn reload_response(result: Result<(), AppError>, dev_mode: bool) -> (r: AppResponse)
    ensures
        is_reload_response(r, result, dev_mode),
{
    match result {
        Ok(()) => AppResponse::text(STATUS_OK, String::new()),
        Err(e) => e.into_response(dev_mode),
    }
}

/// `POST /reload`: recompiles the templates.
pub fn reload_templates(cx: &Cx) -> (r: AppResponse)
    ensures
        exists|result: Result<(), AppError>|
            is_reload_response(r, result, cx.server.in_dev_mode()) && (result matches Err(e)
                ==> e.wf()),
{
    let result = cx.server.reload_templates();
    let ghost g = result;
    let r = reload_response(result, cx.server.dev_mode());
    assert(is_reload_response(r, g, cx.server.in_dev_mode()));
    r
}

/// Any path that no route matches: 404, "Not found".
pub fn handle_404() -> (r: AppResponse)
    ensures
        r.status == STATUS_NOT_FOUND,
        r.body@ == "Not found"@,
        !r.html,
        r.error.is_none(),
{
    AppResponse::text(STATUS_NOT_FOUND, String::from_str("Not found"))
}

} // verus!
