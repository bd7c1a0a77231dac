//! The factory of engines: it equips the templates that were compiled for a
//! request with the callables of the application and with the two built-in
//! ones, and assembles the context that the request is rendered against.

use crate::engine::{
    context_entries, empty_context, engine_of, no_entries, put, supply_filter, supply_function,
    EngineModel, FilterBinding, FunctionBinding, TemplateFilter, TemplateFunction,
};
use crate::filters::{bind_json_decode, JSON_DECODE_FILTER};
use crate::inclusion::{install_inclusion, scoped_engine, INCLUSION_FUNCTION};
use crate::json::{json_of, Json};
use crate::pairs::{
    distinct_names, folded, lemma_folded_keys, lemma_folded_push, lemma_folded_value, names_key,
};
use crate::registry::Registry;
use crate::renderer::takes_every_call;
use serde_json::Value;
use tera::{Context, Tera};
use vstd::prelude::*;

verus! {

/// The functions of an application as an engine holds them.
pub open spec fn supplied_functions(functions: Map<Seq<char>, TemplateFunction>) -> Map<
    Seq<char>,
    FunctionBinding,
> {
    functions.map_values(|function: TemplateFunction| FunctionBinding::Supplied(function))
}

/// The filters of an application as an engine holds them.
pub open spec fn supplied_filters(filters: Map<Seq<char>, TemplateFilter>) -> Map<
    Seq<char>,
    FilterBinding,
> {
    filters.map_values(|filter: TemplateFilter| FilterBinding::Supplied(filter))
}

/// An engine after the callables of an application were registered in it:
/// each takes the place of what stood under its name.
pub open spec fn with_utilities(
    engine: EngineModel,
    functions: Map<Seq<char>, TemplateFunction>,
    filters: Map<Seq<char>, TemplateFilter>,
) -> EngineModel {
    EngineModel {
        templates: engine.templates,
        functions: engine.functions.union_prefer_right(supplied_functions(functions)),
        filters: engine.filters.union_prefer_right(supplied_filters(filters)),
    }
}

/// An engine that is ready to render: the compiled templates, the callables
/// of the application, then the filter that decodes JSON, then the inclusion
/// function closed over the engine so far and over the context of the request.
pub open spec fn equipped(
    loaded: EngineModel,
    functions: Map<Seq<char>, TemplateFunction>,
    filters: Map<Seq<char>, TemplateFilter>,
    context: Map<Seq<char>, Json>,
) -> EngineModel {
    let supplied = with_utilities(loaded, functions, filters);
    let decoding = EngineModel {
        filters: supplied.filters.insert(JSON_DECODE_FILTER@, FilterBinding::JsonDecode),
        ..supplied
    };
    scoped_engine(decoding, context)
}

/// The named values that a metadata collector returned, in their mathematical
/// form.
pub open spec fn collected_pairs(collected: Seq<(String, Value)>) -> Seq<(Seq<char>, Json)> {
    collected.map_values(|pair: (String, Value)| (pair.0@, json_of(pair.1)))
}

/// The entries of the context of a request: none where no collector is
/// configured, and else what the collector returned, each value under its key.
pub open spec fn collected_entries(collected: Option<Vec<(String, Value)>>) -> Map<
    Seq<char>,
    Json,
> {
    match collected {
        None => no_entries(),
        Some(pairs) => folded(collected_pairs(pairs@)),
    }
}

/// What a [`TeraBuilder`] holds.
pub struct TeraBuilderModel {
    /// The pattern that selects the template files.
    pub tpl_dir: Seq<char>,
    /// The functions of the application, by name.
    pub tpl_funcs: Map<Seq<char>, TemplateFunction>,
    /// The filters of the application, by name.
    pub tpl_filters: Map<Seq<char>, TemplateFilter>,
}

/// Builds the engine and the context of each request.
pub struct TeraBuilder {
    tpl_dir: String,
    tpl_funcs: Registry<TemplateFunction>,
    tpl_filters: Registry<TemplateFilter>,
}

impl View for TeraBuilder {
    type V = TeraBuilderModel;

    closed spec fn view(&self) -> TeraBuilderModel {
        TeraBuilderModel {
            tpl_dir: self.tpl_dir@,
            tpl_funcs: self.tpl_funcs@,
            tpl_filters: self.tpl_filters@,
        }
    }
}

impl TeraBuilder {
    /// A builder for the templates that the pattern `tpl_dir` selects, with
    /// the callables of the application.
    pub fn new(
        tpl_dir: String,
        tpl_funcs: Registry<TemplateFunction>,
        tpl_filters: Registry<TemplateFilter>,
    ) -> (builder: Self)
        ensures
            builder@ == (TeraBuilderModel {
                tpl_dir: tpl_dir@,
                tpl_funcs: tpl_funcs@,
                tpl_filters: tpl_filters@,
            }),
    {
        TeraBuilder { tpl_dir, tpl_funcs, tpl_filters }
    }

    /// The pattern that selects the template files to compile.
    pub fn tpl_dir(&self) -> (pattern: &str)
        ensures
            pattern@ == self@.tpl_dir,
    {
        self.tpl_dir.as_str()
    }

    /// Registers the functions of the application in `tera`.
    fn register_functions(&self, tera: &mut Tera)
        ensures
            engine_of(*final(tera)) == (EngineModel {
                functions: engine_of(*old(tera)).functions.union_prefer_right(
                    supplied_functions(self@.tpl_funcs),
                ),
                ..engine_of(*old(tera))
            }),
    {
        let ghost before = engine_of(*tera);
        let ghost pairs = self.tpl_funcs.pairs();
        let count = self.tpl_funcs.len();
        proof {
            self.tpl_funcs.lemma_view();
            assert(pairs.take(0) =~= Seq::empty());
            assert(before.functions.union_prefer_right(supplied_functions(folded(pairs.take(0))))
                =~= before.functions);
        }
        let mut i: usize = 0;
        while i < count
            invariant
                i <= count,
                count == pairs.len(),
                pairs == self.tpl_funcs.pairs(),
                engine_of(*tera) == (EngineModel {
                    functions: before.functions.union_prefer_right(
                        supplied_functions(folded(pairs.take(i as int))),
                    ),
                    ..before
                }),
            decreases count - i,
        {
            let name = self.tpl_funcs.name_at(i);
            let function = self.tpl_funcs.item_at(i);
            supply_function(tera, name, function);
            proof {
                let done = pairs.take(i as int);
                assert(pairs.take(i + 1) =~= done.push(pairs[i as int]));
                lemma_folded_push(done, pairs[i as int].0, pairs[i as int].1);
                assert(before.functions.union_prefer_right(
                    supplied_functions(folded(done)),
                ).insert(name@, FunctionBinding::Supplied(*function))
                    =~= before.functions.union_prefer_right(
                    supplied_functions(folded(pairs.take(i + 1))),
                ));
            }
            i += 1;
        }
        proof {
            assert(pairs.take(count as int) =~= pairs);
        }
    }

    /// Registers the filters of the application in `tera`.
    fn register_filters(&self, tera: &mut Tera)
        ensures
            engine_of(*final(tera)) == (EngineModel {
                filters: engine_of(*old(tera)).filters.union_prefer_right(
                    supplied_filters(self@.tpl_filters),
                ),
                ..engine_of(*old(tera))
            }),
    {
        let ghost before = engine_of(*tera);
        let ghost pairs = self.tpl_filters.pairs();
        let count = self.tpl_filters.len();
        proof {
            self.tpl_filters.lemma_view();
            assert(pairs.take(0) =~= Seq::empty());
            assert(before.filters.union_prefer_right(supplied_filters(folded(pairs.take(0))))
                =~= before.filters);
        }
        let mut i: usize = 0;
        while i < count
            invariant
                i <= count,
                count == pairs.len(),
                pairs == self.tpl_filters.pairs(),
                engine_of(*tera) == (EngineModel {
                    filters: before.filters.union_prefer_right(
                        supplied_filters(folded(pairs.take(i as int))),
                    ),
                    ..before
                }),
            decreases count - i,
        {
            let name = self.tpl_filters.name_at(i);
            let filter = self.tpl_filters.item_at(i);
            supply_filter(tera, name, filter);
            proof {
                let done = pairs.take(i as int);
                assert(pairs.take(i + 1) =~= done.push(pairs[i as int]));
                lemma_folded_push(done, pairs[i as int].0, pairs[i as int].1);
                assert(before.filters.union_prefer_right(supplied_filters(folded(done))).insert(
                    name@,
                    FilterBinding::Supplied(*filter),
                ) =~= before.filters.union_prefer_right(
                    supplied_filters(folded(pairs.take(i + 1))),
                ));
            }
            i += 1;
        }
        proof {
            assert(pairs.take(count as int) =~= pairs);
        }
    }

    /// Registers the functions and the filters of the application in `tera`.
    /// Each takes the place of what stood under its name; the templates stay.
    pub fn register_utilities(&self, tera: &mut Tera)
        ensures
            engine_of(*final(tera)) == with_utilities(
                engine_of(*old(tera)),
                self@.tpl_funcs,
                self@.tpl_filters,
            ),
    {
        self.register_functions(tera);
        self.register_filters(tera);
    }

    /// Makes the engine of a request from the outcome of compiling the
    /// templates. A compilation that failed is handed on as it is. Compiled
    /// templates get the callables of the application, then the built-in
    /// filter and the inclusion function, which take the place of callables
    /// of the application with their names. The inclusion function renders
    /// with `renderer`. The context is handed back.
    pub fn build<R>(&self, loaded: Result<Tera, tera::Error>, ctx: Context, renderer: R) -> (built:
        Result<(Tera, Context), tera::Error>) where
        R: Fn(&Tera, &str, &Context) -> Result<String, tera::Error> + Copy + Send + Sync + 'static,

        requires
            takes_every_call(renderer),
        ensures
            match loaded {
                Err(error) => built == Err::<(Tera, Context), tera::Error>(error),
                Ok(engine) => built is Ok && engine_of(built->Ok_0.0) == equipped(
                    engine_of(engine),
                    self@.tpl_funcs,
                    self@.tpl_filters,
                    context_entries(ctx),
                ) && built->Ok_0.1 == ctx,
            },
    {
        match loaded {
            Err(error) => Err(error),
            Ok(engine) => {
                let mut tera = engine;
                self.register_utilities(&mut tera);
                bind_json_decode(&mut tera);
                install_inclusion(&mut tera, &ctx, renderer);
                Ok((tera, ctx))
            },
        }
    }

    /// Assembles the context of a request from what the metadata collector
    /// returned for it: `None` where no collector is configured. Where a key
    /// comes twice, the later value stands.
    pub fn gen_context(&self, collected: Option<Vec<(String, Value)>>) -> (context: Context)
        ensures
            context_entries(context) == collected_entries(collected),
    {
        let mut context = empty_context();
        match collected {
            None => {},
            Some(pairs) => {
                let ghost all = collected_pairs(pairs@);
                proof {
                    assert(all.take(0) =~= Seq::empty());
                }
                let mut i: usize = 0;
                while i < pairs.len()
                    invariant
                        i <= pairs.len(),
                        all == collected_pairs(pairs@),
                        context_entries(context) == folded(all.take(i as int)),
                    decreases pairs.len() - i,
                {
                    put(&mut context, pairs[i].0.as_str(), &pairs[i].1);
                    proof {
                        let done = all.take(i as int);
                        assert(all.take(i + 1) =~= done.push(all[i as int]));
                        lemma_folded_push(done, all[i as int].0, all[i as int].1);
                    }
                    i += 1;
                }
                proof {
                    assert(all.take(pairs.len() as int) =~= all);
                }
            },
        }
        context
    }
}

/// Without a collector the context of a request is empty.
pub proof fn law_no_collector_no_entries()
    ensures
        collected_entries(None) == Map::<Seq<char>, Json>::empty(),
{
}

/// The context of a request holds the keys that the collector returned and no
/// others, and under each key that the collector returned once, the value
/// that came with it.
pub proof fn law_collected_context(collected: Vec<(String, Value)>, key: Seq<char>, i: int)
    ensures
        collected_entries(Some(collected)).contains_key(key) <==> names_key(
            collected_pairs(collected@),
            key,
        ),
        distinct_names(collected_pairs(collected@)) && 0 <= i < collected@.len()
            ==> collected_entries(Some(collected)).get(collected@[i].0@) == Some(
            json_of(collected@[i].1),
        ),
{
    let pairs = collected_pairs(collected@);
    lemma_folded_keys(pairs, key);
    if distinct_names(pairs) && 0 <= i < collected@.len() {
        lemma_folded_value(pairs, i);
    }
}

/// In an engine that was built, the built-in filter and the inclusion
/// function stand under their names, whatever the application registered
/// there. Every other callable of the application stands under its name, and
/// the templates are those that were compiled.
pub proof fn law_built_ins_override(
    loaded: EngineModel,
    functions: Map<Seq<char>, TemplateFunction>,
    filters: Map<Seq<char>, TemplateFilter>,
    context: Map<Seq<char>, Json>,
    name: Seq<char>,
)
    ensures
        ({
            let built = equipped(loaded, functions, filters, context);
            &&& built.templates == loaded.templates
            &&& built.filters[JSON_DECODE_FILTER@] == FilterBinding::JsonDecode
            &&& built.functions[INCLUSION_FUNCTION@] matches FunctionBinding::Inclusion {
                parent,
                ..
            } && parent == context
            &&& functions.contains_key(name) && name != INCLUSION_FUNCTION@
                ==> built.functions[name] == FunctionBinding::Supplied(functions[name])
            &&& filters.contains_key(name) && name != JSON_DECODE_FILTER@ ==> built.filters[name]
                == FilterBinding::Supplied(filters[name])
        }),
{
}

} // verus!
