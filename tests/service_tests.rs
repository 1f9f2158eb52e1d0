use std::sync::Arc;

use service::context::{lift_render, Cx, ServerState};
use service::error::{AppError, ErrorReport};
use service::handlers::{handle_404, home_response, reload_response, reload_templates, root};
use service::middleware::{debug_page, debug_payload, recover_response};

const GENERIC: &str = "Internal server error; Something went terribly wrong! Please contant the site's administrators if you can.";

fn failure(message: &str, detail: &str) -> AppError {
    AppError::internal(ErrorReport::new(message.to_string(), detail.to_string()))
}

fn templates(pages: &[(&str, &str)]) -> tera::Tera {
    let mut t = tera::Tera::default();
    for (name, body) in pages {
        t.add_raw_template(name, body).unwrap();
    }
    t
}

fn context(pages: &[(&str, &str)], dev_mode: bool) -> Cx {
    Cx::new(Arc::new(ServerState::new(templates(pages), dev_mode)), "req-1".to_string())
}

#[test]
fn error_response_is_500_with_error_attached() {
    let e = failure("disk full", "disk full\n\nCaused by: no space");
    let r = e.clone().into_response(true);
    assert_eq!(r.status, 500);
    assert_eq!(r.body, "Something went wrong: disk full");
    let quiet = e.into_response(false);
    assert_eq!(quiet.status, 500);
    assert_eq!(quiet.body, GENERIC);
    assert!(quiet.error.is_some());
    assert!(!r.html);
    let attached = r.error.expect("the error travels with the response");
    assert_eq!(attached.message(), "disk full");
    assert_eq!(attached.detail(), "disk full\n\nCaused by: no space");
}

#[test]
fn debug_text_wraps_detail() {
    assert_eq!(failure("m", "boom").debug_text(), "Internal(boom)");
}

#[test]
fn unmatched_path_is_not_found() {
    let r = handle_404();
    assert_eq!(r.status, 404);
    assert_eq!(r.body, "Not found");
    assert!(r.error.is_none());
}

#[test]
fn home_response_of_page_and_of_failure() {
    let ok = home_response(Ok("<h1>Home</h1>".to_string()), true);
    assert_eq!(ok.status, 200);
    assert_eq!(ok.body, "<h1>Home</h1>");
    assert!(ok.html);
    let err = home_response(Err(failure("no template", "d")), true);
    assert_eq!(err.status, 500);
    assert_eq!(err.body, "Something went wrong: no template");
    assert!(err.error.is_some());
}

#[test]
fn reload_response_of_success_and_failure() {
    let ok = reload_response(Ok(()), true);
    assert_eq!(ok.status, 200);
    assert_eq!(ok.body, "");
    let err = reload_response(Err(failure("bad", "d")), true);
    assert_eq!(err.status, 500);
    assert_eq!(err.body, "Something went wrong: bad");
}

#[test]
fn payload_depends_on_mode() {
    let e = failure("m", "secret detail");
    assert_eq!(debug_payload(true, &e), "Internal(secret detail)");
    assert_eq!(debug_payload(false, &e), "No debug info available.");
}

#[test]
fn debug_page_keeps_rendered_page() {
    let e = failure("m", "d");
    assert_eq!(debug_page(true, &e, Ok("<p>page</p>".to_string())), "<p>page</p>");
}

#[test]
fn debug_page_fallback_in_dev_mode_names_both_errors() {
    let e = failure("m", "original");
    let f = failure("m2", "template missing");
    assert_eq!(
        debug_page(true, &e, Err(f)),
        "Failed to render `500.jinja2`: Internal(template missing) to display another error: Internal(original)"
    );
}

#[test]
fn debug_page_fallback_outside_dev_mode_is_generic() {
    let e = failure("m", "original");
    let page = debug_page(false, &e, Err(failure("m2", "template missing")));
    assert_eq!(page, GENERIC);
}

#[test]
fn root_renders_home_template() {
    let cx = context(&[("home.jinja2", "<h1>Home {{ request_id }}</h1>")], true);
    let r = root(&cx);
    assert_eq!(r.status, 200);
    assert_eq!(r.body, "<h1>Home req-1</h1>");
    assert!(r.html);
}

#[test]
fn root_without_home_template_is_500() {
    let cx = context(&[], true);
    let r = root(&cx);
    assert_eq!(r.status, 500);
    assert!(r.body.starts_with("Something went wrong: "));
    assert!(r.error.is_some());
}

#[test]
fn render_is_deterministic() {
    let cx = context(&[("home.jinja2", "{{ dev_mode }}/{{ request_id }}")], false);
    let a = cx.render("home.jinja2", None).unwrap();
    let b = cx.render("home.jinja2", None).unwrap();
    assert_eq!(a, "false/req-1");
    assert_eq!(a, b);
}

#[test]
fn middleware_passes_other_responses_through() {
    let cx = context(&[], true);
    let e = failure("m", "d");
    assert!(recover_response(&cx, 200, Some(&e)).is_none());
    assert!(recover_response(&cx, 404, None).is_none());
    assert!(recover_response(&cx, 500, None).is_none());
}

#[test]
fn middleware_replaces_500_with_debug_page() {
    let pages = [("500.jinja2", "<pre>{{ error }}</pre>")];
    let e = failure("m", "db unreachable");
    let dev = recover_response(&context(&pages, true), 500, Some(&e)).unwrap();
    assert_eq!(dev.status, 200);
    assert!(dev.html);
    assert_eq!(dev.body, "<pre>Internal(db unreachable)</pre>");
    let prod = recover_response(&context(&pages, false), 500, Some(&e)).unwrap();
    assert_eq!(prod.body, "<pre>No debug info available.</pre>");
    assert_ne!(dev.body, prod.body);
    assert!(!prod.body.contains("db unreachable"));
}

#[test]
fn middleware_falls_back_when_debug_template_fails() {
    let e = failure("m", "db unreachable");
    let dev = recover_response(&context(&[], true), 500, Some(&e)).unwrap();
    assert!(dev.body.starts_with("Failed to render `500.jinja2`: Internal("));
    assert!(dev.body.ends_with(" to display another error: Internal(db unreachable)"));
    let prod = recover_response(&context(&[], false), 500, Some(&e)).unwrap();
    assert_eq!(prod.body, GENERIC);
}

#[test]
fn request_ids_are_fresh() {
    let server = Arc::new(ServerState::new(templates(&[]), true));
    let a = Cx::for_request(server.clone());
    let b = Cx::for_request(server);
    assert_eq!(a.request_id.len(), 36);
    for (i, c) in a.request_id.chars().enumerate() {
        if [8, 13, 18, 23].contains(&i) {
            assert_eq!(c, '-');
        } else {
            assert!(c.is_ascii_digit() || ('a'..='f').contains(&c));
        }
    }
    assert_eq!(a.request_id.chars().nth(14), Some('4'));
    assert!("89ab".contains(a.request_id.chars().nth(19).unwrap()));
    assert_ne!(a.request_id, b.request_id);
    assert!(a.user.is_none());
}

#[test]
fn reload_without_glob_reports_error() {
    let cx = context(&[("home.jinja2", "x")], true);
    let r = reload_templates(&cx);
    assert_eq!(r.status, 500);
    assert!(r.body.contains("glob"));
}

#[test]
fn dev_mode_is_kept() {
    assert!(ServerState::new(templates(&[]), true).dev_mode());
    assert!(!ServerState::new(templates(&[]), false).dev_mode());
}

#[test]
fn lift_render_keeps_page_and_lifts_failure() {
    assert_eq!(lift_render(Ok("<p>x</p>".to_string())).unwrap(), "<p>x</p>");
    let e = lift_render(Err(tera::Error::msg("template broke"))).unwrap_err();
    assert_eq!(e.message(), "template broke");
    assert!(e.detail().starts_with("template broke"));
}

#[test]
fn failed_reload_keeps_templates() {
    let cx = context(&[("home.jinja2", "<h1>kept</h1>")], false);
    assert!(cx.server.reload_templates().is_err());
    let r = root(&cx);
    assert_eq!(r.status, 200);
    assert_eq!(r.body, "<h1>kept</h1>");
}

#[test]
fn template_receives_common_and_error_variables() {
    let cx = context(&[("vars.jinja2", "{% if user %}user{% else %}none{% endif %}|{{ dev_mode }}|{{ request_id }}|{{ error }}")], true);
    assert_eq!(cx.render("vars.jinja2", Some("oops")).unwrap(), "none|true|req-1|oops");
}

#[test]
fn error_response_outside_dev_mode_hides_message() {
    let r = home_response(Err(failure("secret path /etc", "secret path /etc")), false);
    assert_eq!(r.status, 500);
    assert!(!r.body.contains("secret"));
}
