//! The inclusion function: a template names another template and hands it a
//! payload, and the other template is rendered against a context that holds
//! the payload and a snapshot of the caller's context. The engine calls the
//! function while it renders, so the function renders the other template
//! itself, with the renderer that it was installed with.

use crate::engine::{
    context_entries, copy_context, copy_engine, empty_context, engine_of, failure, failure_of,
    has_template, missing_template, missing_template_text, put, snapshot, EngineModel, Failure,
    FunctionBinding,
};
use crate::errors::ErrorClass;
use crate::json::{json_of, json_text_value, null_value, parse_json, text_of, text_value, Json};
use crate::renderer::{render_with, rendered_by, takes_every_call};
use serde_json::Value;
use std::collections::HashMap;
use tera::{Context, Tera};
use vstd::prelude::*;
use vstd::string::StringExecFns;

verus! {

/// The name under which templates call the inclusion function.
pub const INCLUSION_FUNCTION: &'static str = "include_file";

/// The argument that names the template to render.
pub const PATH_ARGUMENT: &'static str = "path";

/// The argument that carries the payload, as JSON text.
pub const CONTEXT_ARGUMENT: &'static str = "context";

/// The key under which a rendered template finds its payload.
pub const PAYLOAD_KEY: &'static str = "context";

/// The key under which a rendered template finds the context of its caller.
pub const PARENT_KEY: &'static str = "__Parent";

/// What is wrong with the arguments of a call of the inclusion function.
#[derive(Clone, Copy, Debug, PartialEq, Eq, Structural)]
pub enum IncludeArgumentError {
    /// The call names no template.
    PathMissing,
    /// The payload is not a text, or a text that is not JSON.
    ContextNotJsonText,
    /// The name of the template is not a text.
    PathNotText,
}

impl IncludeArgumentError {
    /// The text that reports the error.
    pub open spec fn text(self) -> Seq<char> {
        match self {
            IncludeArgumentError::PathMissing => "template path missing"@,
            IncludeArgumentError::ContextNotJsonText => "context must be a json object string"@,
            IncludeArgumentError::PathNotText => "template render error"@,
        }
    }

    /// The kind of failure that the error is.
    pub fn class(&self) -> (class: ErrorClass)
        ensures
            class == ErrorClass::IncludeArgumentError,
    {
        ErrorClass::IncludeArgumentError
    }

    /// The text that reports the error.
    pub fn message(&self) -> (text: &'static str)
        ensures
            text@ == self.text(),
    {
        match self {
            IncludeArgumentError::PathMissing => "template path missing",
            IncludeArgumentError::ContextNotJsonText => "context must be a json object string",
            IncludeArgumentError::PathNotText => "template render error",
        }
    }
}

/// What a call of the inclusion function asks for.
#[derive(Debug, PartialEq)]
pub struct Inclusion {
    /// The name of the template to render.
    pub path: String,
    /// The payload that the template finds under the key `context`.
    pub payload: Value,
}

/// The mathematical form of an [`Inclusion`].
pub struct InclusionModel {
    /// The name of the template to render.
    pub path: Seq<char>,
    /// The payload that the template finds under the key `context`.
    pub payload: Json,
}

impl View for Inclusion {
    type V = InclusionModel;

    open spec fn view(&self) -> InclusionModel {
        InclusionModel { path: self.path@, payload: json_of(self.payload) }
    }
}

/// The arguments of a call of a template function, by name.
pub uninterp spec fn call_arguments(args: HashMap<String, Value>) -> Map<Seq<char>, Json>;

/// The payload that a call hands over: null where it gives no `context`
/// argument, and else what the argument, a text, denotes as JSON.
pub open spec fn requested_payload(context: Option<Json>) -> Result<Json, IncludeArgumentError> {
    match context {
        None => Ok(Json::Null),
        Some(Json::Text(text)) => match json_text_value(text) {
            Ok(payload) => Ok(payload),
            Err(_) => Err(IncludeArgumentError::ContextNotJsonText),
        },
        Some(_) => Err(IncludeArgumentError::ContextNotJsonText),
    }
}

/// What a call with the arguments `path` and `context` asks for. A missing
/// path is reported first, then a payload that cannot be read, then a path
/// that is not a text.
pub open spec fn requested_inclusion(path: Option<Json>, context: Option<Json>) -> Result<
    InclusionModel,
    IncludeArgumentError,
> {
    match path {
        None => Err(IncludeArgumentError::PathMissing),
        Some(name) => match requested_payload(context) {
            Err(error) => Err(error),
            Ok(payload) => match name {
                Json::Text(path) => Ok(InclusionModel { path, payload }),
                _ => Err(IncludeArgumentError::PathNotText),
            },
        },
    }
}

/// The entries of the context against which an included template is rendered:
/// the payload, and the caller's whole context as one JSON object.
pub open spec fn child_entries(payload: Json, parent: Map<Seq<char>, Json>) -> Map<
    Seq<char>,
    Json,
> {
    Map::empty().insert(PAYLOAD_KEY@, payload).insert(PARENT_KEY@, Json::Object(parent))
}

/// The engine with which an included template is rendered: the caller's
/// engine, in which the inclusion function is closed over the new context.
pub open spec fn scoped_engine(engine: EngineModel, child: Map<Seq<char>, Json>) -> EngineModel {
    EngineModel {
        functions: engine.functions.insert(
            INCLUSION_FUNCTION@,
            FunctionBinding::Inclusion { engine, parent: child },
        ),
        ..engine
    }
}

/// `HashMap::get` on the arguments of a call: the argument of that name, if
/// the call gives one.
#[verifier::external_body]
fn argument<'a>(args: &'a HashMap<String, Value>, name: &str) -> (found: Option<&'a Value>)
    ensures
        match found {
            Some(value) => call_arguments(*args).get(name@) == Some(json_of(*value)),
            None => call_arguments(*args).get(name@) is None,
        },
{
    args.get(name)
}

/// `Tera::register_function` with the inclusion function: afterwards the
/// engine calls [`include_file`] with `captured`, `parent` and `renderer`
/// under the name `include_file`, in place of what stood under that name. Its
/// templates, filters and other functions stay.
#[verifier::external_body]
fn bind_inclusion<R>(engine: &mut Tera, captured: Tera, parent: Context, renderer: R) where
    R: Fn(&Tera, &str, &Context) -> Result<String, tera::Error> + Copy + Send + Sync + 'static,

    requires
        takes_every_call(renderer),
    ensures
        engine_of(*final(engine)) == (EngineModel {
            functions: engine_of(*old(engine)).functions.insert(
                INCLUSION_FUNCTION@,
                FunctionBinding::Inclusion {
                    engine: engine_of(captured),
                    parent: context_entries(parent),
                },
            ),
            ..engine_of(*old(engine))
        }),
{
    engine.register_function(
        INCLUSION_FUNCTION,
        move |args: &HashMap<String, Value>| include_file(args, &captured, &parent, renderer),
    );
}

/// Puts the inclusion function into `engine`, closed over a copy of the
/// engine as it is, over a copy of `parent`, and over the renderer with which
/// it renders the templates that it is asked for.
pub fn install_inclusion<R>(engine: &mut Tera, parent: &Context, renderer: R) where
    R: Fn(&Tera, &str, &Context) -> Result<String, tera::Error> + Copy + Send + Sync + 'static,

    requires
        takes_every_call(renderer),
    ensures
        engine_of(*final(engine)) == scoped_engine(
            engine_of(*old(engine)),
            context_entries(*parent),
        ),
{
    let captured = copy_engine(engine);
    bind_inclusion(engine, captured, copy_context(parent), renderer);
}

/// The payload of a call whose `context` argument was read as JSON with the
/// outcome `parsed`: the value that was read, and an error where none was.
pub fn payload_of(parsed: Result<Value, serde_json::Error>) -> (payload: Result<
    Value,
    IncludeArgumentError,
>)
    ensures
        match parsed {
            Ok(value) => payload == Ok::<Value, IncludeArgumentError>(value),
            Err(_) => payload == Err::<Value, IncludeArgumentError>(
                IncludeArgumentError::ContextNotJsonText,
            ),
        },
{
    match parsed {
        Ok(value) => Ok(value),
        Err(_) => Err(IncludeArgumentError::ContextNotJsonText),
    }
}

/// Reads the payload of a call from its `context` argument.
pub fn read_payload(context: Option<&Value>) -> (payload: Result<Value, IncludeArgumentError>)
    ensures
        match requested_payload(
            match context {
                Some(value) => Some(json_of(*value)),
                None => None,
            },
        ) {
            Ok(json) => payload is Ok && json_of(payload->Ok_0) == json,
            Err(error) => payload == Err::<Value, IncludeArgumentError>(error),
        },
{
    match context {
        None => Ok(null_value()),
        Some(value) => match text_of(value) {
            Some(text) => payload_of(parse_json(text)),
            None => Err(IncludeArgumentError::ContextNotJsonText),
        },
    }
}

/// Decides what a call with the arguments `path` and `context` asks for.
pub fn plan_inclusion(path: Option<&Value>, context: Option<&Value>) -> (plan: Result<
    Inclusion,
    IncludeArgumentError,
>)
    ensures
        match requested_inclusion(
            match path {
                Some(value) => Some(json_of(*value)),
                None => None,
            },
            match context {
                Some(value) => Some(json_of(*value)),
                None => None,
            },
        ) {
            Ok(model) => plan is Ok && plan->Ok_0@ == model,
            Err(error) => plan == Err::<Inclusion, IncludeArgumentError>(error),
        },
{
    match path {
        None => Err(IncludeArgumentError::PathMissing),
        Some(name) => match read_payload(context) {
            Err(error) => Err(error),
            Ok(payload) => match text_of(name) {
                Some(text) => Ok(Inclusion { path: String::from_str(text), payload }),
                None => Err(IncludeArgumentError::PathNotText),
            },
        },
    }
}

/// The context against which an included template is rendered. It holds the
/// caller's context by value: what happens to `parent` later does not reach it.
pub fn child_context(payload: &Value, parent: &Context) -> (child: Context)
    ensures
        context_entries(child) == child_entries(json_of(*payload), context_entries(*parent)),
{
    let mut child = empty_context();
    put(&mut child, PAYLOAD_KEY, payload);
    let ancestors = snapshot(parent);
    put(&mut child, PARENT_KEY, &ancestors);
    child
}

/// Makes what an included template is rendered with: a copy of the caller's
/// engine in which the inclusion function is closed over the child context,
/// and the child context itself, which holds the payload and the caller's
/// context. The caller's engine and context stay as they are.
pub fn prepare_inclusion<R>(payload: &Value, engine: &Tera, parent: &Context, renderer: R) -> (prepared:
    (Tera, Context)) where
    R: Fn(&Tera, &str, &Context) -> Result<String, tera::Error> + Copy + Send + Sync + 'static,

    requires
        takes_every_call(renderer),
    ensures
        context_entries(prepared.1) == child_entries(json_of(*payload), context_entries(*parent)),
        engine_of(prepared.0) == scoped_engine(engine_of(*engine), context_entries(prepared.1)),
{
    let child = child_context(payload, parent);
    let mut scoped = copy_engine(engine);
    install_inclusion(&mut scoped, &child, renderer);
    (scoped, child)
}

/// What the inclusion function returns for the outcome `rendered` of
/// rendering the included template: the rendered text as a JSON string, or
/// the error as it is.
pub open spec fn included_as(
    rendered: Result<String, tera::Error>,
    result: Result<Value, tera::Error>,
) -> bool {
    match rendered {
        Ok(text) => result is Ok && json_of(result->Ok_0) == Json::Text(text@),
        Err(error) => result == Err::<Value, tera::Error>(error),
    }
}

/// What the inclusion function returns for the outcome of rendering the
/// included template: the rendered text as a JSON string, or the error as it
/// is.
pub fn included(rendered: Result<String, tera::Error>) -> (result: Result<Value, tera::Error>)
    ensures
        included_as(rendered, result),
{
    match rendered {
        Ok(text) => Ok(text_value(text)),
        Err(error) => Err(error),
    }
}

/// The inclusion function. It reads the arguments `path` and `context`
/// ([`plan_inclusion`]) and reports arguments that it does not take with the
/// text of the [`IncludeArgumentError`]. A template that the engine does not
/// hold is reported with the engine's error for a missing template. Else the
/// renderer is handed the engine and the context of [`prepare_inclusion`] and
/// the name of the template, and what it returns is returned: the rendered
/// text as a JSON string, or its error as it is ([`included`]).
pub fn include_file<R>(
    args: &HashMap<String, Value>,
    engine: &Tera,
    parent: &Context,
    renderer: R,
) -> (result: Result<Value, tera::Error>) where
    R: Fn(&Tera, &str, &Context) -> Result<String, tera::Error> + Copy + Send + Sync + 'static,

    requires
        takes_every_call(renderer),
    ensures
        match requested_inclusion(
            call_arguments(*args).get(PATH_ARGUMENT@),
            call_arguments(*args).get(CONTEXT_ARGUMENT@),
        ) {
            Err(error) => result is Err && failure_of(result->Err_0) == (Failure {
                not_found: false,
                text: error.text(),
            }),
            Ok(model) => if !engine_of(*engine).templates.contains(model.path) {
                result is Err && failure_of(result->Err_0) == (Failure {
                    not_found: true,
                    text: missing_template_text(model.path),
                })
            } else {
                exists|rendered: Result<String, tera::Error>|
                    #[trigger] rendered_by(
                        renderer,
                        scoped_engine(
                            engine_of(*engine),
                            child_entries(model.payload, context_entries(*parent)),
                        ),
                        model.path,
                        child_entries(model.payload, context_entries(*parent)),
                        rendered,
                    ) && included_as(rendered, result)
            },
        },
{
    let path = argument(args, PATH_ARGUMENT);
    let context = argument(args, CONTEXT_ARGUMENT);
    match plan_inclusion(path, context) {
        Err(error) => Err(failure(error.message())),
        Ok(plan) => {
            if !has_template(engine, plan.path.as_str()) {
                Err(missing_template(plan.path.as_str()))
            } else {
                let (scoped, child) = prepare_inclusion(&plan.payload, engine, parent, renderer);
                let rendered = render_with(renderer, &scoped, plan.path.as_str(), &child);
                included(rendered)
            }
        },
    }
}

/// An included template finds its payload under `context` and the whole
/// context of its caller under `__Parent`, and nothing else.
pub proof fn law_child_context(payload: Json, parent: Map<Seq<char>, Json>)
    ensures
        child_entries(payload, parent).dom() =~= set![PAYLOAD_KEY@, PARENT_KEY@],
        child_entries(payload, parent)[PAYLOAD_KEY@] == payload,
        child_entries(payload, parent)[PARENT_KEY@] == Json::Object(parent),
{
    reveal_strlit("context");
    reveal_strlit("__Parent");
    assert(PAYLOAD_KEY@.len() != PARENT_KEY@.len());
}

/// The child context holds the caller's context as it was when the child was
/// made: an entry that the caller's context gets later is not in it.
pub proof fn law_snapshot_ignores_later_changes(
    payload: Json,
    parent: Map<Seq<char>, Json>,
    key: Seq<char>,
    value: Json,
)
    requires
        !parent.contains_key(key),
    ensures
        child_entries(payload, parent)[PARENT_KEY@] == Json::Object(parent),
        child_entries(payload, parent)[PARENT_KEY@] != Json::Object(parent.insert(key, value)),
{
    law_child_context(payload, parent);
    assert(parent.insert(key, value).contains_key(key));
}

/// Without a `context` argument the payload is null, whatever the path.
pub proof fn law_payload_defaults_to_null(path: Seq<char>)
    ensures
        requested_inclusion(Some(Json::Text(path)), None) == Ok::<
            InclusionModel,
            IncludeArgumentError,
        >(InclusionModel { path, payload: Json::Null }),
{
}

/// A call without a path, with a payload that is not a text, or with a
/// payload that is a text but not JSON, is refused.
pub proof fn law_refused_arguments(path: Option<Json>, context: Option<Json>)
    ensures
        path is None ==> requested_inclusion(path, context) is Err,
        context matches Some(value) && !(value is Text) ==> requested_inclusion(path, context)
            is Err,
        context matches Some(Json::Text(text)) && json_text_value(text) is Err
            ==> requested_inclusion(path, context) is Err,
{
}

/// The contexts of nested inclusions form a chain: a template that was
/// included by an included template finds its caller's context under
/// `__Parent`, and the context of the caller's caller under the `__Parent` of
/// that.
pub proof fn law_ancestor_chain(
    root: Map<Seq<char>, Json>,
    first_payload: Json,
    second_payload: Json,
)
    ensures
        ({
            let first = child_entries(first_payload, root);
            let second = child_entries(second_payload, first);
            &&& second[PARENT_KEY@] == Json::Object(first)
            &&& first[PARENT_KEY@] == Json::Object(root)
        }),
{
    law_child_context(first_payload, root);
    law_child_context(second_payload, child_entries(first_payload, root));
}

} // verus!
