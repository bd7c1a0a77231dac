use ssrender::builder::TeraBuilder;
use ssrender::engine::{TemplateFilter, TemplateFunction};
use ssrender::registry::Registry;
use ssrender::tera;
use ssrender::{Context, Tera, Value};
use std::collections::HashMap;
use std::sync::Arc;

fn text(s: &str) -> Value {
    Value::String(s.to_owned())
}

fn number(n: u64) -> Value {
    Value::Number(serde_json::Number::from(n))
}

fn constant(result: &'static str) -> TemplateFunction {
    TemplateFunction(Arc::new(
        move |_args: &HashMap<String, Value>| -> tera::Result<Value> { Ok(text(result)) },
    ))
}

fn suffix(tail: &'static str) -> TemplateFilter {
    TemplateFilter(Arc::new(
        move |value: &Value, _args: &HashMap<String, Value>| -> tera::Result<Value> {
            Ok(text(&format!("{}{}", value.as_str().unwrap_or(""), tail)))
        },
    ))
}

fn engine(templates: Vec<(&str, &str)>) -> Tera {
    let mut tera = Tera::default();
    for (name, body) in templates {
        tera.add_raw_template(name, body).unwrap();
    }
    tera
}

fn render(engine: &Tera, name: &str, context: &Context) -> tera::Result<String> {
    engine.render(name, context)
}

fn plain_builder() -> TeraBuilder {
    TeraBuilder::new("templates/**/*".to_owned(), Registry::new(), Registry::new())
}

#[test]
fn tpl_dir_is_the_pattern_it_was_made_with() {
    assert_eq!(plain_builder().tpl_dir(), "templates/**/*");
    let other = TeraBuilder::new("views/*.html".to_owned(), Registry::new(), Registry::new());
    assert_eq!(other.tpl_dir(), "views/*.html");
}

#[test]
fn gen_context_without_collector_is_empty() {
    let context = plain_builder().gen_context(None);
    assert_eq!(context, Context::new());
    assert_eq!(context.into_json(), Value::Object(serde_json::Map::new()));
}

#[test]
fn gen_context_of_an_empty_collection_is_empty() {
    assert_eq!(plain_builder().gen_context(Some(vec![])), Context::new());
}

#[test]
fn gen_context_holds_what_was_collected_and_nothing_else() {
    let context = plain_builder().gen_context(Some(vec![("user".to_owned(), text("alice"))]));
    assert_eq!(context.get("user"), Some(&text("alice")));
    let mut expected = Context::new();
    expected.insert("user", "alice");
    assert_eq!(context, expected);
    let json = context.into_json();
    assert_eq!(json.as_object().unwrap().len(), 1);
}

#[test]
fn gen_context_holds_every_pair() {
    let context = plain_builder().gen_context(Some(vec![
        ("a".to_owned(), number(1)),
        ("b".to_owned(), Value::Null),
        ("c".to_owned(), Value::Array(vec![text("x")])),
    ]));
    assert_eq!(context.get("a"), Some(&number(1)));
    assert_eq!(context.get("b"), Some(&Value::Null));
    assert_eq!(context.get("c"), Some(&Value::Array(vec![text("x")])));
    assert_eq!(context.into_json().as_object().unwrap().len(), 3);
}

#[test]
fn gen_context_keeps_the_later_value_of_a_key() {
    let context = plain_builder().gen_context(Some(vec![
        ("a".to_owned(), number(1)),
        ("b".to_owned(), number(2)),
        ("a".to_owned(), number(3)),
    ]));
    assert_eq!(context.get("a"), Some(&number(3)));
    assert_eq!(context.get("b"), Some(&number(2)));
    assert_eq!(context.into_json().as_object().unwrap().len(), 2);
}

#[test]
fn build_hands_a_failed_compilation_on() {
    let failed = Err(tera::Error::msg("cannot compile"));
    let error = plain_builder().build(failed, Context::new(), render).err().unwrap();
    assert_eq!(error.to_string(), "cannot compile");
    let missing = Err(tera::Error::template_not_found("base.html"));
    let error = plain_builder().build(missing, Context::new(), render).err().unwrap();
    assert!(matches!(error.kind, tera::ErrorKind::TemplateNotFound(_)));
}

#[test]
fn build_hands_the_context_back() {
    let mut context = Context::new();
    context.insert("user", "alice");
    let (_tera, returned) = plain_builder().build(Ok(Tera::default()), context.clone(), render).unwrap();
    assert_eq!(returned, context);
}

#[test]
fn build_keeps_the_templates() {
    let loaded = engine(vec![("a.html", "A"), ("b.html", "B")]);
    let (tera, context) = plain_builder().build(Ok(loaded), Context::new(), render).unwrap();
    let mut names: Vec<&str> = tera.get_template_names().collect();
    names.sort();
    assert_eq!(names, vec!["a.html", "b.html"]);
    assert_eq!(tera.render("a.html", &context).unwrap(), "A");
}

#[test]
fn build_registers_the_functions_and_filters_of_the_application() {
    let mut functions = Registry::new();
    functions.insert("greeting".to_owned(), constant("hello"));
    functions.insert("farewell".to_owned(), constant("bye"));
    let mut filters = Registry::new();
    filters.insert("bang".to_owned(), suffix("!"));
    let builder = TeraBuilder::new("templates/**/*".to_owned(), functions, filters);
    let loaded = engine(vec![("page.html", "{{ greeting() | bang }} {{ farewell() }}")]);
    let (tera, context) = builder.build(Ok(loaded), Context::new(), render).unwrap();
    assert_eq!(tera.render("page.html", &context).unwrap(), "hello! bye");
}

#[test]
fn build_registers_the_built_in_filter() {
    let loaded = engine(vec![("page.html", "{% set v = text | json_decode %}{{ v.a }}")]);
    let mut context = Context::new();
    context.insert("text", "{\"a\":1}");
    let (tera, context) = plain_builder().build(Ok(loaded), context, render).unwrap();
    assert_eq!(tera.render("page.html", &context).unwrap(), "1");
}

#[test]
fn build_registers_the_inclusion_function_over_the_context() {
    let loaded = engine(vec![
        ("outer.html", "[{{ include_file(path='inner.html') }}]"),
        ("inner.html", "{{ __Parent.user }}"),
    ]);
    let mut context = Context::new();
    context.insert("user", "alice");
    let (tera, context) = plain_builder().build(Ok(loaded), context, render).unwrap();
    assert_eq!(tera.render("outer.html", &context).unwrap(), "[alice]");
}

#[test]
fn built_ins_replace_callables_of_the_application_with_their_names() {
    let mut functions = Registry::new();
    functions.insert("include_file".to_owned(), constant("mine"));
    let mut filters = Registry::new();
    filters.insert("json_decode".to_owned(), suffix("?"));
    let builder = TeraBuilder::new("templates/**/*".to_owned(), functions, filters);
    let loaded = engine(vec![
        ("outer.html", "{{ include_file(path='inner.html') }}"),
        ("inner.html", "inner"),
        ("decode.html", "{% set v = '[7]' | json_decode %}{{ v.0 }}"),
    ]);
    let (tera, context) = builder.build(Ok(loaded), Context::new(), render).unwrap();
    assert_eq!(tera.render("outer.html", &context).unwrap(), "inner");
    assert_eq!(tera.render("decode.html", &context).unwrap(), "7");
}

#[test]
fn callables_of_the_application_replace_those_of_the_engine() {
    let mut functions = Registry::new();
    functions.insert("now".to_owned(), constant("then"));
    let mut filters = Registry::new();
    filters.insert("upper".to_owned(), suffix("^"));
    let builder = TeraBuilder::new("templates/**/*".to_owned(), functions, filters);
    let loaded = engine(vec![("page.html", "{{ now() }} {{ 'a' | upper }}")]);
    let (tera, context) = builder.build(Ok(loaded), Context::new(), render).unwrap();
    assert_eq!(tera.render("page.html", &context).unwrap(), "then a^");
}

#[test]
fn register_utilities_leaves_other_callables_in_place() {
    let mut functions = Registry::new();
    functions.insert("greeting".to_owned(), constant("hello"));
    let builder = TeraBuilder::new("templates/**/*".to_owned(), functions, Registry::new());
    let mut tera = engine(vec![("page.html", "{{ greeting() }} {{ 'a' | upper }}")]);
    builder.register_utilities(&mut tera);
    assert_eq!(tera.render("page.html", &Context::new()).unwrap(), "hello A");
    assert!(tera.get_function("include_file").is_err());
}
