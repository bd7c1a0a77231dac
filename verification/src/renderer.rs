//! What renders a template. Rendering runs the callables of the application
//! and the arithmetic of the engine, which the library cannot answer for, so
//! the library is handed the function that renders: it says what it hands to
//! that function, and what it does with the outcome.

use crate::engine::{context_entries, engine_of, EngineModel};
use crate::json::Json;
use tera::{Context, Tera};
use vstd::prelude::*;

verus! {

/// The renderer takes every engine, name and context: it returns an outcome
/// for each of them.
pub open spec fn takes_every_call<R: Fn(&Tera, &str, &Context) -> Result<String, tera::Error>>(
    renderer: R,
) -> bool {
    forall|engine: &Tera, name: &str, context: &Context| #[trigger]
        renderer.requires((engine, name, context))
}

/// `outcome` is what the renderer returned for an engine that holds `engine`,
/// the name `name` and a context with the entries `context`.
pub open spec fn rendered_by<R: Fn(&Tera, &str, &Context) -> Result<String, tera::Error>>(
    renderer: R,
    engine: EngineModel,
    name: Seq<char>,
    context: Map<Seq<char>, Json>,
    outcome: Result<String, tera::Error>,
) -> bool {
    exists|held: Tera, named: &str, given: Context|
        engine_of(held) == engine && named@ == name && context_entries(given) == context
            && #[trigger] renderer.ensures((&held, named, &given), outcome)
}

/// Renders the template `name` of `engine` against `context` with the
/// renderer.
pub fn render_with<R>(renderer: R, engine: &Tera, name: &str, context: &Context) -> (outcome:
    Result<String, tera::Error>) where
    R: Fn(&Tera, &str, &Context) -> Result<String, tera::Error>,

    requires
        takes_every_call(renderer),
    ensures
        rendered_by(renderer, engine_of(*engine), name@, context_entries(*context), outcome),
{
    let outcome = renderer(engine, name, context);
    assert(renderer.ensures((engine, name, context), outcome));
    outcome
}

} // verus!
