use std::sync::RwLock;

use vstd::prelude::*;

use crate::error::ErrorReport;

verus! {

#[verifier::external_type_specification]
#[verifier::external_body]
pub struct ExTera(tera::Tera);

#[verifier::external_type_specification]
#[verifier::external_body]
pub struct ExTemplateContext(tera::Context);

#[verifier::external_type_specification]
#[verifier::external_body]
pub struct ExTemplateError(tera::Error);

#[verifier::external_type_specification]
#[verifier::external_body]
#[verifier::reject_recursive_types(T)]
pub struct ExRwLock<T: ?Sized>(RwLock<T>);

/// A value bound to a name in a template context.
pub enum TemplateVar {
    Text(Seq<char>),
    Flag(bool),
    Null,
    EmptyObject,
}

/// The variables that a template context binds.
pub uninterp spec fn context_vars(c: tera::Context) -> Map<Seq<char>, TemplateVar>;

pub open spec fn is_lower_hex(c: char) -> bool {
    ('0' <= c && c <= '9') || ('a' <= c && c <= 'f')
}

/// A version-4 UUID in its hyphenated lower-case form.
pub open spec fn is_uuid_v4_text(s: Seq<char>) -> bool {
    &&& s.len() == 36
    &&& forall|i: int|
        0 <= i < 36 ==> if i == 8 || i == 13 || i == 18 || i == 23 {
            s[i] == '-'
        } else {
            is_lower_hex(#[trigger] s[i])
        }
    &&& s[14] == '4'
    &&& (s[19] == '8' || s[19] == '9' || s[19] == 'a' || s[19] == 'b')
}

/// Relies on std's `RwLock::new`: the compiled templates go behind a
/// reader/writer lock.
#[verifier::external_body]
pub(crate) fn lock_templates(templates: tera::Tera) -> (r: RwLock<tera::Tera>) {
    RwLock::new(templates)
}

/// Relies on tera's `Context::new`: a template context with no variables.
#[verifier::external_body]
pub(crate) fn empty_context() -> (r: tera::Context)
    ensures
        forall|k: Seq<char>| !(#[trigger] context_vars(r).contains_key(k)),
{
    tera::Context::new()
}

/// Relies on tera's `Context::insert`: binds `key` to a string value,
/// replacing what it was bound to.
#[verifier::external_body]
pub(crate) fn insert_text(vars: tera::Context, key: &str, value: &str) -> (r: tera::Context)
    ensures
        context_vars(r) == context_vars(vars).insert(key@, TemplateVar::Text(value@)),
{
    let mut vars = vars;
    vars.insert(key, value);
    vars
}

/// Relies on tera's `Context::insert`: binds `key` to a boolean value.
#[verifier::external_body]
pub(crate) fn insert_flag(vars: tera::Context, key: &str, value: bool) -> (r: tera::Context)
    ensures
        context_vars(r) == context_vars(vars).insert(key@, TemplateVar::Flag(value)),
{
    let mut vars = vars;
    vars.insert(key, &value);
    vars
}

/// Relies on tera's `Context::insert`: binds `key` to null.
#[verifier::external_body]
pub(crate) fn insert_null(vars: tera::Context, key: &str) -> (r: tera::Context)
    ensures
        context_vars(r) == context_vars(vars).insert(key@, TemplateVar::Null),
{
    let mut vars = vars;
    vars.insert(key, &serde_json::Value::Null);
    vars
}

/// Relies on tera's `Context::insert`: binds `key` to an empty object.
#[verifier::external_body]
pub(crate) fn insert_empty_object(vars: tera::Context, key: &str) -> (r: tera::Context)
    ensures
        context_vars(r) == context_vars(vars).insert(key@, TemplateVar::EmptyObject),
{
    let mut vars = vars;
    vars.insert(key, &serde_json::Map::new());
    vars
}

/// Relies on tera's `Tera::render`, under a read lock of the store: many
/// readers at once, none while new templates are swapped in. A poisoned
/// lock still hands out the templates, which are only ever replaced whole.
#[verifier::external_body]
pub(crate) fn render_locked(
    store: &RwLock<tera::Tera>,
    name: &str,
    vars: &tera::Context,
) -> (r: Result<String, tera::Error>) {
    match store.read() {
        Ok(templates) => templates.render(name, vars),
        Err(poisoned) => poisoned.into_inner().render(name, vars),
    }
}

/// Relies on tera's `Clone` for `Tera`, under a read lock of the store: a
/// copy of the current template set.
#[verifier::external_body]
pub(crate) fn snapshot_templates(store: &RwLock<tera::Tera>) -> (r: tera::Tera) {
    match store.read() {
        Ok(templates) => templates.clone(),
        Err(poisoned) => poisoned.into_inner().clone(),
    }
}

/// Relies on tera's `Tera::full_reload`: re-parses every template found by
/// the set's glob, and hands the set back where that succeeded.
#[verifier::external_body]
pub(crate) fn full_reload(templates: tera::Tera) -> (r: Result<tera::Tera, tera::Error>) {
    let mut templates = templates;
    templates.full_reload().map(|()| templates)
}

/// Relies on std's `RwLock::write`: swaps a whole template set in while no
/// reader holds the lock.
#[verifier::external_body]
pub(crate) fn install_templates(store: &RwLock<tera::Tera>, templates: tera::Tera) {
    match store.write() {
        Ok(mut current) => *current = templates,
        Err(poisoned) => *poisoned.into_inner() = templates,
    }
}

/// Relies on anyhow's conversion of a tera error and on its `Display` and
/// `Debug` impls: the message, and the detailed report, which starts with
/// the message and goes on with the chain of causes.
#[verifier::external_body]
pub(crate) fn report_of(e: tera::Error) -> (r: ErrorReport)
    ensures
        r.message_starts_detail(),
{
    let e = anyhow::Error::from(e);
    ErrorReport { message: format!("{}", e), detail: format!("{:?}", e) }
}

/// Relies on uuid's `Uuid::new_v4` and its `Display`: a random version-4
/// identifier in the hyphenated lower-case form.
#[verifier::external_body]
pub(crate) fn new_request_id() -> (r: String)
    ensures
        is_uuid_v4_text(r@),
{
    uuid::Uuid::new_v4().to_string()
}

} // verus!
