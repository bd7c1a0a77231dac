//! The course of one request: resolve the path, assemble the context, build
//! the engine, render, reply. The handler decides each step; what it cannot
//! do itself — collect the metadata of the request, compile the templates,
//! render — it asks for, and goes on with the outcome. A failure at any
//! stage ends the request with a classified reply.

use crate::builder::{collected_entries, equipped, TeraBuilder, TeraBuilderModel};
use crate::engine::{
    context_entries, describe, engine_of, failure_of, has_template, missing_template,
    missing_template_text,
};
use crate::errors::{class_of, classify, ErrorClass, Stage, STATUS_NOT_FOUND, STATUS_OK};
use crate::path::{resolve, resolved_path};
use crate::reload::ReloadPolicy;
use crate::renderer::takes_every_call;
use serde_json::Value;
use tera::{Context, Tera};
use vstd::prelude::*;
use vstd::string::StringExecFns;

verus! {

/// The text that reports a request for which the routing layer handed over
/// no path.
pub const INVALID_PATH: &'static str = "invalid request path";

/// The answer to a request.
#[derive(Debug, PartialEq, Eq)]
pub enum Reply {
    /// The rendered page, to be sent as HTML with the status 200.
    Page(String),
    /// A failure, to be sent with the status of its kind and with the text
    /// that describes it.
    Failure { class: ErrorClass, detail: String },
}

/// The mathematical form of a [`Reply`].
pub enum ReplyModel {
    /// The rendered page.
    Page(Seq<char>),
    /// A failure of the kind `class`, which `detail` describes.
    Failure { class: ErrorClass, detail: Seq<char> },
}

impl ReplyModel {
    /// The status to send: 200 with a page, and else the status of the kind
    /// of failure.
    pub open spec fn status_code(self) -> u16 {
        match self {
            ReplyModel::Page(_) => STATUS_OK,
            ReplyModel::Failure { class, .. } => class.status_code(),
        }
    }

    /// The text to send: the page, or the description of the failure.
    pub open spec fn body(self) -> Seq<char> {
        match self {
            ReplyModel::Page(page) => page,
            ReplyModel::Failure { detail, .. } => detail,
        }
    }
}

impl View for Reply {
    type V = ReplyModel;

    open spec fn view(&self) -> ReplyModel {
        match self {
            Reply::Page(page) => ReplyModel::Page(page@),
            Reply::Failure { class, detail } => ReplyModel::Failure {
                class: *class,
                detail: detail@,
            },
        }
    }
}

impl Reply {
    /// The status to send.
    pub fn status(&self) -> (code: u16)
        ensures
            code == self@.status_code(),
    {
        match self {
            Reply::Page(_) => STATUS_OK,
            Reply::Failure { class, .. } => class.status(),
        }
    }

    /// The text to send.
    pub fn body(&self) -> (text: &str)
        ensures
            text@ == self@.body(),
    {
        match self {
            Reply::Page(page) => page.as_str(),
            Reply::Failure { detail, .. } => detail.as_str(),
        }
    }

    /// Tells whether the reply carries a rendered page.
    pub fn is_page(&self) -> (page: bool)
        ensures
            page == (self@ is Page),
    {
        match self {
            Reply::Page(_) => true,
            Reply::Failure { .. } => false,
        }
    }
}

/// A request whose path is resolved, and which waits for its metadata.
pub struct Resolved {
    /// The name of the template to render.
    pub path: String,
}

/// A request whose path is resolved and whose context is assembled, and
/// which waits for the templates to be compiled.
pub struct Pending {
    /// The name of the template to render.
    pub path: String,
    /// The context to render it against.
    pub context: Context,
}

/// A request whose engine is built, and which waits to be rendered.
pub struct Ready {
    /// The engine to render with. It holds the template to render.
    pub engine: Tera,
    /// The name of the template to render.
    pub path: String,
    /// The context to render it against.
    pub context: Context,
}

/// What is to be done next for a request.
pub enum Step {
    /// Run the metadata collector, if one is configured, and go on with
    /// [`ViewHandler::assemble`].
    Collect(Resolved),
    /// Compile the templates, and go on with [`ViewHandler::build`].
    Load(Pending),
    /// Render the template, and go on with [`respond`].
    Render(Ready),
    /// Send the reply: the request is over.
    Respond(Reply),
}

/// The reply to a failure that the engine reported at `stage`: it carries the
/// kind of the failure and the text of the engine's error.
pub fn refusal(stage: Stage, error: &tera::Error) -> (reply: Reply)
    ensures
        reply@ == (ReplyModel::Failure {
            class: class_of(stage, failure_of(*error)),
            detail: failure_of(*error).text,
        }),
{
    Reply::Failure { class: classify(stage, error), detail: describe(error) }
}

/// The reply to the outcome of rendering the requested template: the page, or
/// the failure that the engine reported.
pub fn respond(rendered: Result<String, tera::Error>) -> (reply: Reply)
    ensures
        match rendered {
            Ok(page) => reply@ == ReplyModel::Page(page@),
            Err(error) => reply@ == (ReplyModel::Failure {
                class: class_of(Stage::Render, failure_of(error)),
                detail: failure_of(error).text,
            }),
        },
{
    match rendered {
        Ok(page) => Reply::Page(page),
        Err(error) => refusal(Stage::Render, &error),
    }
}

/// What a [`ViewHandler`] holds.
pub struct ViewHandlerModel {
    /// The builder of engines and contexts.
    pub tera_builder: TeraBuilderModel,
    /// The extension of a path that names none.
    pub default_postfix: Seq<char>,
    /// The template that the empty path stands for.
    pub default_view_file_name: Seq<char>,
    /// When the templates are compiled.
    pub reload_policy: ReloadPolicy,
}

/// Answers the requests for rendered templates.
pub struct ViewHandler {
    tera_builder: TeraBuilder,
    default_postfix: String,
    default_view_file_name: String,
    reload_policy: ReloadPolicy,
}

impl View for ViewHandler {
    type V = ViewHandlerModel;

    closed spec fn view(&self) -> ViewHandlerModel {
        ViewHandlerModel {
            tera_builder: self.tera_builder@,
            default_postfix: self.default_postfix@,
            default_view_file_name: self.default_view_file_name@,
            reload_policy: self.reload_policy,
        }
    }
}

impl ViewHandler {
    /// A handler that builds its engines with `tera_builder`, for templates
    /// that are compiled for every request.
    pub fn new(
        tera_builder: TeraBuilder,
        default_postfix: String,
        default_view_file_name: String,
    ) -> (handler: Self)
        ensures
            handler@ == (ViewHandlerModel {
                tera_builder: tera_builder@,
                default_postfix: default_postfix@,
                default_view_file_name: default_view_file_name@,
                reload_policy: ReloadPolicy::EveryRequest,
            }),
    {
        ViewHandler {
            tera_builder,
            default_postfix,
            default_view_file_name,
            reload_policy: ReloadPolicy::EveryRequest,
        }
    }

    /// The handler with another policy on when the templates are compiled.
    pub fn with_reload_policy(self, policy: ReloadPolicy) -> (handler: Self)
        ensures
            handler@ == (ViewHandlerModel { reload_policy: policy, ..self@ }),
    {
        ViewHandler {
            tera_builder: self.tera_builder,
            default_postfix: self.default_postfix,
            default_view_file_name: self.default_view_file_name,
            reload_policy: policy,
        }
    }

    /// When the templates are compiled.
    pub fn reload_policy(&self) -> (policy: ReloadPolicy)
        ensures
            policy == self@.reload_policy,
    {
        self.reload_policy
    }

    /// The pattern that selects the template files to compile for a request.
    pub fn template_pattern(&self) -> (pattern: &str)
        ensures
            pattern@ == self@.tera_builder.tpl_dir,
    {
        self.tera_builder.tpl_dir()
    }

    /// Takes up a request. `rest_path` is the path that the routing layer
    /// captured, `None` where it captured none.
    ///
    /// Without a path the request is refused as invalid. Else the path is
    /// resolved, and the metadata of the request is to be collected.
    pub fn begin(&self, rest_path: Option<&str>) -> (step: Step)
        ensures
            match rest_path {
                None => step matches Step::Respond(reply) && reply@ == (ReplyModel::Failure {
                    class: ErrorClass::InvalidRequestPath,
                    detail: INVALID_PATH@,
                }),
                Some(path) => step matches Step::Collect(resolved) && resolved.path@
                    == resolved_path(path@, self@.default_view_file_name, self@.default_postfix),
            },
    {
        match rest_path {
            None => Step::Respond(
                Reply::Failure {
                    class: ErrorClass::InvalidRequestPath,
                    detail: String::from_str(INVALID_PATH),
                },
            ),
            Some(path) => Step::Collect(
                Resolved {
                    path: resolve(
                        path,
                        self.default_view_file_name.as_str(),
                        self.default_postfix.as_str(),
                    ),
                },
            ),
        }
    }

    /// Goes on with what the metadata collector returned for the request,
    /// `None` where no collector is configured: the context is assembled, and
    /// the templates are to be compiled.
    pub fn assemble(&self, resolved: Resolved, collected: Option<Vec<(String, Value)>>) -> (step:
        Step)
        ensures
            step matches Step::Load(pending) && pending.path@ == resolved.path@ && context_entries(
                pending.context,
            ) == collected_entries(collected),
    {
        let context = self.tera_builder.gen_context(collected);
        Step::Load(Pending { path: resolved.path, context })
    }

    /// Goes on with the outcome of compiling the templates.
    ///
    /// A compilation that failed is answered with its kind and its text. A
    /// template that was not compiled is answered as missing, with the
    /// engine's error for it. Else the engine is built, with an inclusion
    /// function that renders with `renderer`, and the template is to be
    /// rendered with that engine against the context of the request.
    pub fn build<R>(&self, pending: Pending, loaded: Result<Tera, tera::Error>, renderer: R) -> (step:
        Step) where
        R: Fn(&Tera, &str, &Context) -> Result<String, tera::Error> + Copy + Send + Sync + 'static,

        requires
            takes_every_call(renderer),
        ensures
            match loaded {
                Err(error) => step matches Step::Respond(reply) && reply@ == (ReplyModel::Failure {
                    class: class_of(Stage::BuildEnvironment, failure_of(error)),
                    detail: failure_of(error).text,
                }),
                Ok(engine) => if !engine_of(engine).templates.contains(pending.path@) {
                    step matches Step::Respond(reply) && reply@ == (ReplyModel::Failure {
                        class: ErrorClass::TemplateNotFound,
                        detail: missing_template_text(pending.path@),
                    }) && reply@.status_code() == STATUS_NOT_FOUND
                } else {
                    step matches Step::Render(ready) && ready.path@ == pending.path@
                        && engine_of(ready.engine).templates.contains(ready.path@)
                        && context_entries(ready.context) == context_entries(pending.context)
                        && engine_of(ready.engine) == equipped(
                        engine_of(engine),
                        self@.tera_builder.tpl_funcs,
                        self@.tera_builder.tpl_filters,
                        context_entries(pending.context),
                    )
                },
            },
    {
        match self.tera_builder.build(loaded, pending.context, renderer) {
            Err(error) => Step::Respond(refusal(Stage::BuildEnvironment, &error)),
            Ok((engine, context)) => {
                if has_template(&engine, pending.path.as_str()) {
                    Step::Render(Ready { engine, path: pending.path, context })
                } else {
                    let error = missing_template(pending.path.as_str());
                    Step::Respond(refusal(Stage::Render, &error))
                }
            },
        }
    }
}

/// A page is sent with 200, a failure with 404 where a template is missing
/// and with 400 otherwise.
pub proof fn law_status_of_replies(reply: ReplyModel)
    ensures
        reply is Page <==> reply.status_code() == 200,
        reply matches ReplyModel::Failure { class, .. } && class == ErrorClass::TemplateNotFound
            <==> reply.status_code() == 404,
        reply matches ReplyModel::Failure { class, .. } && class != ErrorClass::TemplateNotFound
            <==> reply.status_code() == 400,
{
}

} // verus!
