//! The template engine as the library sees it: what an engine, a rendering
//! context and an engine error hold, and the calls that the library makes on
//! them. Rendering is not among these calls: what renders a template is
//! handed to the library ([`crate::renderer`]).

use crate::json::{json_error_text, json_of, Json};
use serde_json::Value;
use std::sync::Arc;
use tera::{Context, Tera};
use vstd::prelude::*;

verus! {

/// `tera::Tera`, the engine. What the library knows of one is [`engine_of`].
#[verifier::external_type_specification]
#[verifier::external_body]
pub struct ExTera(tera::Tera);

/// `tera::Context`. What the library knows of one is [`context_entries`].
#[verifier::external_type_specification]
#[verifier::external_body]
pub struct ExContext(tera::Context);

/// `tera::Error`. What the library knows of one is [`failure_of`].
#[verifier::external_type_specification]
#[verifier::external_body]
pub struct ExEngineError(tera::Error);

/// A template function that the application supplies: a shared handle on a
/// value of `dyn tera::Function`. A trait object has no declaration to give to
/// the verifier, so the handle is carried opaquely. The engine calls the
/// function as it is, and escapes its output unless the function reports it
/// as safe.
#[verifier::external_body]
pub struct TemplateFunction(pub Arc<dyn tera::Function>);

/// A template filter that the application supplies: a shared handle on a value
/// of `dyn tera::Filter`, carried opaquely like [`TemplateFunction`].
#[verifier::external_body]
pub struct TemplateFilter(pub Arc<dyn tera::Filter>);

/// A handle that can be taken again on the callable it stands for.
pub trait Shared: Sized {
    /// Another handle on the same callable.
    fn share(&self) -> (other: Self)
        ensures
            other == *self,
    ;
}

/// `Arc::clone`: the new handle points to the same function.
#[verifier::external_body]
fn share_function(function: &TemplateFunction) -> (other: TemplateFunction)
    ensures
        other == *function,
{
    let handle = function.0.clone();
    TemplateFunction(handle)
}

/// `Arc::clone`: the new handle points to the same filter.
#[verifier::external_body]
fn share_filter(filter: &TemplateFilter) -> (other: TemplateFilter)
    ensures
        other == *filter,
{
    let handle = filter.0.clone();
    TemplateFilter(handle)
}

impl Shared for TemplateFunction {
    fn share(&self) -> (other: Self) {
        share_function(self)
    }
}

impl Shared for TemplateFilter {
    fn share(&self) -> (other: Self) {
        share_filter(self)
    }
}

/// What stands behind the name of a function in an engine.
pub enum FunctionBinding {
    /// A function that the application supplied.
    Supplied(TemplateFunction),
    /// The inclusion function, closed over the engine that it renders with and
    /// over the entries of the context of the template that calls it.
    Inclusion { engine: EngineModel, parent: Map<Seq<char>, Json> },
}

/// What stands behind the name of a filter in an engine.
pub enum FilterBinding {
    /// A filter that the application supplied.
    Supplied(TemplateFilter),
    /// The filter that decodes JSON text.
    JsonDecode,
}

/// What an engine holds, as far as the library reads and writes it.
pub struct EngineModel {
    /// The names of the compiled templates.
    pub templates: Set<Seq<char>>,
    /// The functions that templates can call, by name.
    pub functions: Map<Seq<char>, FunctionBinding>,
    /// The filters that templates can apply, by name.
    pub filters: Map<Seq<char>, FilterBinding>,
}

/// What an engine error holds, as far as the library reads it.
pub struct Failure {
    /// The error says that a template of the requested name does not exist.
    pub not_found: bool,
    /// The text that the error displays.
    pub text: Seq<char>,
}

/// The templates, functions and filters of a `tera::Tera`.
pub uninterp spec fn engine_of(engine: Tera) -> EngineModel;

/// The entries of a `tera::Context`: its keys with the values under them.
pub uninterp spec fn context_entries(context: Context) -> Map<Seq<char>, Json>;

/// The kind and the displayed text of a `tera::Error`.
pub uninterp spec fn failure_of(error: tera::Error) -> Failure;

/// The entries of a context that holds nothing.
pub open spec fn no_entries() -> Map<Seq<char>, Json> {
    Map::empty()
}

/// The text with which the engine reports that no template is named `name`.
pub open spec fn missing_template_text(name: Seq<char>) -> Seq<char> {
    "Template '"@ + name + "' not found"@
}

/// `Context::new`: a context without entries.
#[verifier::external_body]
pub(crate) fn empty_context() -> (context: Context)
    ensures
        context_entries(context) == no_entries(),
{
    Context::new()
}

/// `Context::insert` with a JSON value: the value stands under the key
/// afterwards, in place of what stood there, and the other entries stay.
#[verifier::external_body]
pub(crate) fn put(context: &mut Context, key: &str, value: &Value)
    ensures
        context_entries(*final(context)) == context_entries(*old(context)).insert(
            key@,
            json_of(*value),
        ),
{
    context.insert(key, value);
}

/// `Context::clone`: a context with the same entries.
#[verifier::external_body]
pub(crate) fn copy_context(context: &Context) -> (copy: Context)
    ensures
        context_entries(copy) == context_entries(*context),
{
    context.clone()
}

/// `Context::into_json`: the JSON object made of the entries of the context.
#[verifier::external_body]
pub(crate) fn into_json(context: Context) -> (value: Value)
    ensures
        json_of(value) == Json::Object(context_entries(context)),
{
    context.into_json()
}

/// The entries of a context as one JSON object. The context is copied first
/// and stays as it is: what happens to it later does not reach the object.
pub fn snapshot(context: &Context) -> (value: Value)
    ensures
        json_of(value) == Json::Object(context_entries(*context)),
{
    into_json(copy_context(context))
}

/// `Tera::clone`: an engine with the same templates, functions and filters.
#[verifier::external_body]
pub(crate) fn copy_engine(engine: &Tera) -> (copy: Tera)
    ensures
        engine_of(copy) == engine_of(*engine),
{
    engine.clone()
}

/// Puts a supplied function into `Tera::functions` under `name`, as
/// `Tera::register_function` does with the function it is given: an earlier
/// function of that name is replaced, everything else stays. The field is
/// public, but the engine's documentation does not list it: the contract
/// holds of the engine as long as it keeps the field.
#[verifier::external_body]
pub(crate) fn supply_function(engine: &mut Tera, name: &str, function: &TemplateFunction)
    ensures
        engine_of(*final(engine)) == (EngineModel {
            functions: engine_of(*old(engine)).functions.insert(
                name@,
                FunctionBinding::Supplied(*function),
            ),
            ..engine_of(*old(engine))
        }),
{
    engine.functions.insert(name.to_owned(), function.0.clone());
}

/// Puts a supplied filter into `Tera::filters` under `name`, as
/// `Tera::register_filter` does with the filter it is given: an earlier filter
/// of that name is replaced, everything else stays. Of the field the same
/// holds as of `Tera::functions`.
#[verifier::external_body]
pub(crate) fn supply_filter(engine: &mut Tera, name: &str, filter: &TemplateFilter)
    ensures
        engine_of(*final(engine)) == (EngineModel {
            filters: engine_of(*old(engine)).filters.insert(
                name@,
                FilterBinding::Supplied(*filter),
            ),
            ..engine_of(*old(engine))
        }),
{
    engine.filters.insert(name.to_owned(), filter.0.clone());
}

/// `Tera::get_template`, read for whether it finds the template: it does
/// where the engine holds a template of that name, and only there.
#[verifier::external_body]
pub(crate) fn has_template(engine: &Tera, name: &str) -> (found: bool)
    ensures
        found == engine_of(*engine).templates.contains(name@),
{
    engine.get_template(name).is_ok()
}

/// `tera::Error::template_not_found`: the error of the kind
/// `TemplateNotFound` for `name`, which displays [`missing_template_text`].
/// It is the error with which the engine itself answers a request to render a
/// template that it does not hold.
#[verifier::external_body]
pub(crate) fn missing_template(name: &str) -> (error: tera::Error)
    ensures
        failure_of(error) == (Failure { not_found: true, text: missing_template_text(name@) }),
{
    tera::Error::template_not_found(name)
}

/// `tera::Error::msg`: an error of the kind `Msg`, which displays `text`.
#[verifier::external_body]
pub(crate) fn failure(text: &str) -> (error: tera::Error)
    ensures
        failure_of(error) == (Failure { not_found: false, text: text@ }),
{
    tera::Error::msg(text)
}

/// `tera::Error::json`: an error of the kind `Json`, which displays what its
/// cause displays.
#[verifier::external_body]
pub(crate) fn parse_failure(cause: serde_json::Error) -> (error: tera::Error)
    ensures
        failure_of(error) == (Failure { not_found: false, text: json_error_text(cause) }),
{
    tera::Error::json(cause)
}

/// Reads the field `kind` of a `tera::Error`: whether it is `TemplateNotFound`.
#[verifier::external_body]
pub(crate) fn is_not_found(error: &tera::Error) -> (found: bool)
    ensures
        found == failure_of(*error).not_found,
{
    matches!(error.kind, tera::ErrorKind::TemplateNotFound(_))
}

/// `ToString::to_string` on a `tera::Error`: the text that it displays.
#[verifier::external_body]
pub(crate) fn describe(error: &tera::Error) -> (text: String)
    ensures
        text@ == failure_of(*error).text,
{
    error.to_string()
}

} // verus!
