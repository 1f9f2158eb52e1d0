use std::sync::{Arc, RwLock};

use vstd::prelude::*;

use crate::error::AppError;
use crate::templates::{
    context_vars, empty_context, full_reload, insert_empty_object, insert_flag, insert_null,
    insert_text, install_templates, is_uuid_v4_text, lock_templates, new_request_id,
    render_locked, report_of, snapshot_templates, TemplateVar,
};

verus! {

/// Process-wide state, built once at startup and shared by every request:
/// the compiled templates behind a reader/writer lock, and whether error
/// pages may show internal detail (never so in production).
pub struct ServerState {
    templates: RwLock<tera::Tera>,
    dev_mode: bool,
}

/// The library's result for what the template engine returned: the page as
/// it is, or the engine's failure lifted into the error type.
pub fn lift_render(result: Result<String, tera::Error>) -> (r: Result<String, AppError>)
    ensures
        r is Ok <==> result is Ok,
        result matches Ok(page) ==> r == Ok::<String, AppError>(page),
        r matches Err(e) ==> e.wf(),
{
    match result {
        Ok(page) => Ok(page),
        Err(e) => Err(AppError::internal(report_of(e))),
    }
}

impl ServerState {
    /// Whether error pages may show internal detail.
    pub closed spec fn in_dev_mode(&self) -> bool {
        self.dev_mode
    }

    pub fn new(templates: tera::Tera, dev_mode: bool) -> (r: ServerState)
        ensures
            r.in_dev_mode() == dev_mode,
    {
        ServerState { templates: lock_templates(templates), dev_mode }
    }

    pub fn dev_mode(&self) -> (r: bool)
        ensures
            r == self.in_dev_mode(),
    {
        self.dev_mode
    }

    /// Ends a reload with what re-parsing a copy of the templates gave: a
    /// fresh set is swapped in whole; on a failure the current set stays as
    /// it was and the failure is lifted into the error type.
    pub fn finish_reload(&self, reloaded: Result<tera::Tera, tera::Error>) -> (r: Result<
        (),
        AppError,
    >)
        ensures
            r is Ok <==> reloaded is Ok,
            r matches Err(e) ==> e.wf(),
    {
        match reloaded {
            Ok(fresh) => {
                install_templates(&self.templates, fresh);
                Ok(())
            },
            Err(e) => Err(AppError::internal(report_of(e))),
        }
    }

    /// Recompiles every template from its source directory. Readers go on
    /// with the current set meanwhile and see the new one only once it is
    /// complete.
    pub fn reload_templates(&self) -> (r: Result<(), AppError>)
        ensures
            r matches Err(e) ==> e.wf(),
    {
        self.finish_reload(full_reload(snapshot_templates(&self.templates)))
    }
}

/// The session of a signed-in user. Sessions are not resolved yet: the
/// slot for one in the request context is always empty.
#[derive(Clone, Debug)]
pub struct UserSession {}

/// The per-request context: a handle on the server state, the request's
/// identifier (for correlation only), and the session, if any.
pub struct Cx {
    pub server: Arc<ServerState>,
    pub request_id: String,
    pub user: Option<UserSession>,
}

pub open spec fn opt_text_view(text: Option<&str>) -> Option<Seq<char>> {
    match text {
        Some(t) => Some(t@),
        None => None,
    }
}

impl Cx {
    /// How the session is shown to templates: null where there is none.
    pub open spec fn user_var(&self) -> TemplateVar {
        match self.user {
            Some(_) => TemplateVar::EmptyObject,
            None => TemplateVar::Null,
        }
    }

    /// The variables of every page (`user`, `dev_mode`, `request_id`) and,
    /// where given, the `error` text.
    pub open spec fn common_vars(&self, error: Option<Seq<char>>) -> Map<Seq<char>, TemplateVar> {
        let base = Map::<Seq<char>, TemplateVar>::empty().insert("user"@, self.user_var()).insert(
            "dev_mode"@,
            TemplateVar::Flag(self.server.in_dev_mode()),
        ).insert("request_id"@, TemplateVar::Text(self.request_id@));
        match error {
            Some(e) => base.insert("error"@, TemplateVar::Text(e)),
            None => base,
        }
    }

    pub fn new(server: Arc<ServerState>, request_id: String) -> (r: Cx)
        ensures
            r.server == server,
            r.request_id@ == request_id@,
            r.user.is_none(),
    {
        Cx { server, request_id, user: None }
    }

    /// The context of a fresh request: a new random identifier and no
    /// session.
    pub fn for_request(server: Arc<ServerState>) -> (r: Cx)
        ensures
            r.server == server,
            is_uuid_v4_text(r.request_id@),
            r.user.is_none(),
    {
        Cx::new(server, new_request_id())
    }

    /// The template context for this request.
    pub fn template_vars(&self, error: Option<&str>) -> (r: tera::Context)
        ensures
            context_vars(r) == self.common_vars(opt_text_view(error)),
    {
        let vars = empty_context();
        let ghost start = context_vars(vars);
        let vars = match &self.user {
            Some(_) => insert_empty_object(vars, "user"),
            None => insert_null(vars, "user"),
        };
        let vars = insert_flag(vars, "dev_mode", self.server.dev_mode());
        let vars = insert_text(vars, "request_id", self.request_id.as_str());
        proof {
            assert(start =~= Map::<Seq<char>, TemplateVar>::empty());
        }
        match error {
            Some(text) => insert_text(vars, "error", text),
            None => vars,
        }
    }

    /// Renders the named template with `template_vars(error)`. A failure of
    /// the template engine is lifted into the error type.
    pub fn render(&self, template: &str, error: Option<&str>) -> (r: Result<String, AppError>)
        ensures
            r matches Err(e) ==> e.wf(),
    {
        let vars = self.template_vars(error);
        lift_render(render_locked(&self.server.templates, template, &vars))
    }
}

} // verus!
