use vstd::prelude::*;

use crate::context::Cx;
use crate::error::{
    error_body_prefix, error_body_view, generic_failure_message, generic_failure_text, AppError,
};
use crate::response::{AppResponse, STATUS_INTERNAL_SERVER_ERROR, STATUS_OK};

verus! {

/// The name of the diagnostic page's template.
pub const DEBUG_TEMPLATE: &'static str = "500.jinja2";

/// `t` occurs in `s` as a contiguous run of characters.
pub open spec fn contains(s: Seq<char>, t: Seq<char>) -> bool {
    exists|i: int| 0 <= i && i + t.len() <= s.len() && #[trigger] s.subrange(i, i + t.len()) == t
}

/// What the diagnostic page shows in place of detail outside development
/// mode.
pub open spec fn no_debug_info() -> Seq<char> {
    "No debug info available."@
}

/// The `error` variable handed to the diagnostic template.
pub open spec fn debug_payload_view(dev_mode: bool, err: AppError) -> Seq<char> {
    if dev_mode {
        err.debug_view()
    } else {
        no_debug_info()
    }
}

/// The plain text shown when rendering the diagnostic page failed with
/// `failure` while reporting `err`.
pub open spec fn fallback_view(dev_mode: bool, err: AppError, failure: AppError) -> Seq<char> {
    if dev_mode {
        "Failed to render `500.jinja2`: "@ + failure.debug_view() + " to display another error: "@
            + err.debug_view()
    } else {
        generic_failure_text()
    }
}

/// The diagnostic page's body, given what rendering its template gave.
pub open spec fn debug_page_view(
    dev_mode: bool,
    err: AppError,
    rendered: Result<String, AppError>,
) -> Seq<char> {
    match rendered {
        Ok(page) => page@,
        Err(failure) => fallback_view(dev_mode, err, failure),
    }
}

/// The `error` variable of the diagnostic page: the error's debug text in
/// development mode, a fixed notice otherwise.
pub fn debug_payload(dev_mode: bool, err: &AppError) -> (r: String)
    ensures
        r@ == debug_payload_view(dev_mode, *err),
{
    if dev_mode {
        err.debug_text()
    } else {
        String::from_str("No debug info available.")
    }
}

/// The diagnostic page's body: the rendered page, or, where its template
/// failed, a plain-text fallback.
pub fn debug_page(dev_mode: bool, err: &AppError, rendered: Result<String, AppError>) -> (r: String)
    ensures
        r@ == debug_page_view(dev_mode, *err, rendered),
{
    match rendered {
        Ok(page) => page,
        Err(failure) => {
            if dev_mode {
                let mut s = String::from_str("Failed to render `500.jinja2`: ");
                s.append(failure.debug_text().as_str());
                s.append(" to display another error: ");
                s.append(err.debug_text().as_str());
                s
            } else {
                generic_failure_message()
            }
        },
    }
}

/// Renders the diagnostic page for `err`, with as much detail as the
/// server's mode allows. It never fails: a page always comes back.
pub fn maybe_render_debug_info(cx: &Cx, err: &AppError) -> (r: AppResponse)
    ensures
        r.status == STATUS_OK,
        r.html,
        r.error.is_none(),
        exists|rendered: Result<String, AppError>|
            r.body@ == debug_page_view(cx.server.in_dev_mode(), *err, rendered) && (
            rendered matches Err(f) ==> f.wf()),
{
    let dev_mode = cx.server.dev_mode();
    let payload = debug_payload(dev_mode, err);
    let rendered = cx.render(DEBUG_TEMPLATE, Some(payload.as_str()));
    let ghost g = rendered;
    let r = AppResponse::page(debug_page(dev_mode, err, rendered));
    assert(r.body@ == debug_page_view(cx.server.in_dev_mode(), *err, g));
    r
}

/// The middleware's decision once the inner handler has answered with
/// `status` and, possibly, an error attached: a 500 that carries an error
/// is replaced by the diagnostic page; any other response passes through
/// unchanged (`None`).
pub fn recover_response(cx: &Cx, status: u16, attached: Option<&AppError>) -> (r: Option<AppResponse>)
    ensures
        r.is_some() <==> (status == STATUS_INTERNAL_SERVER_ERROR && attached.is_some()),
        r matches Some(resp) ==> resp.status == STATUS_OK && resp.html && resp.error.is_none()
            && exists|rendered: Result<String, AppError>|
            resp.body@ == debug_page_view(cx.server.in_dev_mode(), *attached.unwrap(), rendered)
                && (rendered matches Err(f) ==> f.wf()),
{
    if status == STATUS_INTERNAL_SERVER_ERROR {
        match attached {
            Some(err) => Some(maybe_render_debug_info(cx, err)),
            None => None,
        }
    } else {
        None
    }
}

proof fn lemma_contains_start_of_middle(a: Seq<char>, d: Seq<char>, c: Seq<char>, m: Seq<char>)
    requires
        m.len() <= d.len(),
        d.subrange(0, m.len() as int) == m,
    ensures
        contains(a + d + c, m),
{
    let s = a + d + c;
    assert(s.subrange(a.len() as int, (a.len() + m.len()) as int) =~= m);
}

proof fn lemma_contains_trans(s: Seq<char>, t: Seq<char>, m: Seq<char>)
    requires
        contains(s, t),
        contains(t, m),
    ensures
        contains(s, m),
{
    let i = choose|i: int| 0 <= i && i + t.len() <= s.len() && #[trigger] s.subrange(i, i + t.len()) == t;
    let j = choose|j: int| 0 <= j && j + m.len() <= t.len() && #[trigger] t.subrange(j, j + m.len()) == m;
    assert(s.subrange(i + j, i + j + m.len()) =~= t.subrange(j, j + m.len()));
}

/// An error is disclosed only in development mode. For a well-formed error
/// whose message the fixed notices do not happen to hold: in development
/// mode the error response, the diagnostic template's `error` variable and
/// the fallback page all hold the message; otherwise none of them holds the
/// message or the debug text, so the two modes' pages differ. The fallback
/// page is never empty.
pub proof fn lemma_error_page_disclosure(err: AppError, failure: AppError)
    requires
        err.wf(),
        !contains(no_debug_info(), err.message_view()),
        !contains(generic_failure_text(), err.message_view()),
    ensures
        fallback_view(true, err, failure).len() > 0,
        fallback_view(false, err, failure).len() > 0,
        debug_page_view(true, err, Err(failure)) == fallback_view(true, err, failure),
        debug_page_view(false, err, Err(failure)) == fallback_view(false, err, failure),
        contains(error_body_view(true, err), err.message_view()),
        contains(debug_payload_view(true, err), err.message_view()),
        contains(fallback_view(true, err, failure), err.message_view()),
        !contains(error_body_view(false, err), err.message_view()),
        !contains(error_body_view(false, err), err.debug_view()),
        !contains(debug_payload_view(false, err), err.message_view()),
        !contains(debug_payload_view(false, err), err.debug_view()),
        !contains(fallback_view(false, err, failure), err.message_view()),
        !contains(fallback_view(false, err, failure), err.debug_view()),
        error_body_view(true, err) != error_body_view(false, err),
        debug_payload_view(true, err) != debug_payload_view(false, err),
        fallback_view(true, err, failure) != fallback_view(false, err, failure),
{
    reveal_strlit("Internal(");
    reveal_strlit(")");
    reveal_strlit("Failed to render `500.jinja2`: ");
    reveal_strlit(" to display another error: ");
    reveal_strlit("Something went wrong: ");
    reveal_strlit(
        "Internal server error; Something went terribly wrong! Please contant the site's administrators if you can.",
    );
    let m = err.message_view();
    let d = err.detail_view();
    let pre = "Internal("@;
    let post = ")"@;
    lemma_contains_start_of_middle(pre, d, post, m);
    assert(m.subrange(0, m.len() as int) =~= m);
    lemma_contains_start_of_middle(error_body_prefix(), m, Seq::<char>::empty(), m);
    assert(error_body_prefix() + m + Seq::<char>::empty() =~= error_body_view(true, err));
    let head = "Failed to render `500.jinja2`: "@ + failure.debug_view() + " to display another error: "@ + pre;
    lemma_contains_start_of_middle(head, d, post, m);
    assert(head + d + post =~= fallback_view(true, err, failure));
    if contains(no_debug_info(), err.debug_view()) {
        lemma_contains_trans(no_debug_info(), err.debug_view(), m);
    }
    if contains(generic_failure_text(), err.debug_view()) {
        lemma_contains_trans(generic_failure_text(), err.debug_view(), m);
    }
}

} // verus!
