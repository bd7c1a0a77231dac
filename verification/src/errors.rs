//! The kinds of failure of a request, and the status that answers each.

use crate::engine::{failure_of, is_not_found, Failure};
use vstd::prelude::*;

verus! {

/// The status of a page that was rendered.
pub const STATUS_OK: u16 = 200;

/// The status of a request that failed for another reason than a missing
/// template.
pub const STATUS_BAD_REQUEST: u16 = 400;

/// The status of a request for a template that does not exist.
pub const STATUS_NOT_FOUND: u16 = 404;

/// Why a request failed. Every kind ends the request; none is retried.
#[derive(Clone, Copy, Debug, PartialEq, Eq, Structural)]
pub enum ErrorClass {
    /// The routing layer handed over no path.
    InvalidRequestPath,
    /// No template has the requested name.
    TemplateNotFound,
    /// The templates could not be compiled.
    TemplateCompileError,
    /// The template could not be rendered.
    TemplateRenderError,
    /// A filter was applied to a value that it does not take.
    FilterArgumentError,
    /// The inclusion function was called with arguments that it does not take.
    IncludeArgumentError,
}

impl ErrorClass {
    /// The status that answers a failure of this kind: 404 for a missing
    /// template, 400 for every other kind.
    pub open spec fn status_code(self) -> u16 {
        if self == ErrorClass::TemplateNotFound {
            STATUS_NOT_FOUND
        } else {
            STATUS_BAD_REQUEST
        }
    }

    /// The status that answers a failure of this kind.
    pub fn status(&self) -> (code: u16)
        ensures
            code == self.status_code(),
    {
        match self {
            ErrorClass::TemplateNotFound => STATUS_NOT_FOUND,
            _ => STATUS_BAD_REQUEST,
        }
    }
}

/// The stage of a request at which the engine reported an error.
#[derive(Clone, Copy, Debug, PartialEq, Eq, Structural)]
pub enum Stage {
    /// The templates were being compiled.
    BuildEnvironment,
    /// The requested template was being rendered.
    Render,
}

/// The kind of failure that an engine error at `stage` stands for.
pub open spec fn class_of(stage: Stage, failure: Failure) -> ErrorClass {
    if failure.not_found {
        ErrorClass::TemplateNotFound
    } else if stage == Stage::BuildEnvironment {
        ErrorClass::TemplateCompileError
    } else {
        ErrorClass::TemplateRenderError
    }
}

/// Classifies an error that the engine reported at `stage`.
pub fn classify(stage: Stage, error: &tera::Error) -> (class: ErrorClass)
    ensures
        class == class_of(stage, failure_of(*error)),
{
    if is_not_found(error) {
        ErrorClass::TemplateNotFound
    } else {
        match stage {
            Stage::BuildEnvironment => ErrorClass::TemplateCompileError,
            Stage::Render => ErrorClass::TemplateRenderError,
        }
    }
}

/// Only a missing template is answered with 404, and every failure with 400
/// or 404.
pub proof fn law_status_of_failures(class: ErrorClass)
    ensures
        class.status_code() == STATUS_NOT_FOUND <==> class == ErrorClass::TemplateNotFound,
        class.status_code() == STATUS_BAD_REQUEST <==> class != ErrorClass::TemplateNotFound,
{
}

} // verus!
