//! Server-side rendering of templates: from the path of a request to a page
//! or a classified failure.
//!
//! A request names a template by its path ([`path`]). The metadata that was
//! collected for the request becomes the context of the rendering
//! ([`builder`]). The compiled templates are equipped with the callables of
//! the application ([`registry`]) and with two built-in ones: a filter that
//! decodes JSON text ([`filters`]) and a function with which a template
//! renders another template against a context of its own ([`inclusion`]). The
//! outcome is a page or a failure with its status ([`dispatch`], [`errors`]).
//! The library does not render: it is handed what does ([`renderer`]).
//! Whether the templates are compiled for every request is a matter of policy
//! ([`reload`]).

pub mod builder;
pub mod config;
pub mod dispatch;
pub mod engine;
pub mod errors;
pub mod filters;
pub mod inclusion;
pub mod json;
pub mod pairs;
pub mod path;
pub mod registry;
pub mod reload;
pub mod renderer;

pub use crate::builder::TeraBuilder;
pub use crate::config::{Http3Certification, SSRender};
pub use crate::dispatch::{Pending, Ready, Reply, Resolved, Step, ViewHandler};
pub use crate::engine::{TemplateFilter, TemplateFunction};
pub use crate::errors::ErrorClass;
pub use crate::registry::Registry;
pub use crate::reload::ReloadPolicy;
pub use serde_json::{self, Value};
pub use tera::{self, Context, Filter, Function, Tera};
