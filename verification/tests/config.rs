use ssrender::config::{Http3Certification, SSRender};
use ssrender::engine::{TemplateFilter, TemplateFunction};
use ssrender::reload::ReloadPolicy;
use ssrender::tera;
use ssrender::Value;
use std::collections::HashMap;
use std::path::PathBuf;
use std::sync::Arc;

fn constant(result: &'static str) -> TemplateFunction {
    TemplateFunction(Arc::new(
        move |_args: &HashMap<String, Value>| -> tera::Result<Value> {
            Ok(Value::String(result.to_owned()))
        },
    ))
}

fn identity() -> TemplateFilter {
    TemplateFilter(Arc::new(
        |value: &Value, _args: &HashMap<String, Value>| -> tera::Result<Value> {
            Ok(value.clone())
        },
    ))
}

fn call(function: &TemplateFunction) -> Value {
    function.0.call(&HashMap::new()).unwrap()
}

#[test]
fn new_has_the_defaults() {
    let render = SSRender::new("0.0.0.0:80");
    assert_eq!(render.host(), "0.0.0.0:80");
    assert_eq!(render.pub_dir_name(), "public");
    assert_eq!(render.tmpl_dir_name(), "templates");
    assert_eq!(render.default_file_postfix(), "html");
    assert_eq!(render.default_file_name(), "index.html");
    assert!(render.listing_assets());
    assert_eq!(render.default_assets_filename(), &None);
    assert!(render.use_http3().is_none());
    assert_eq!(render.registed_functions().len(), 0);
    assert_eq!(render.registed_filters().len(), 0);
}

#[test]
fn setters_change_their_field_only() {
    let mut render = SSRender::new("h");
    render.set_pub_dir_name("assets");
    assert_eq!(render.pub_dir_name(), "assets");
    assert_eq!(render.tmpl_dir_name(), "templates");
    render.set_tmpl_dir_name("views");
    assert_eq!(render.tmpl_dir_name(), "views");
    assert_eq!(render.pub_dir_name(), "assets");
    render.set_default_file_postfix("tpl");
    assert_eq!(render.default_file_postfix(), "tpl");
    render.set_default_file_name("home.tpl");
    assert_eq!(render.default_file_name(), "home.tpl");
    render.set_listing_assets(false);
    assert!(!render.listing_assets());
    render.set_default_assets_filename("index.htm");
    assert_eq!(render.default_assets_filename(), &Some("index.htm".to_owned()));
    assert_eq!(render.host(), "h");
    assert_eq!(render.pub_dir_name(), "assets");
    assert_eq!(render.tmpl_dir_name(), "views");
    assert_eq!(render.default_file_postfix(), "tpl");
}

#[test]
fn registered_functions_are_found_by_name() {
    let mut render = SSRender::new("h");
    render.register_function("one".to_owned(), constant("1"));
    render.register_function("two".to_owned(), constant("2"));
    assert_eq!(render.registed_functions().len(), 2);
    assert_eq!(call(render.registed_functions().get("one").unwrap()), "1");
    assert_eq!(call(render.registed_functions().get("two").unwrap()), "2");
    assert_eq!(render.registed_filters().len(), 0);
}

#[test]
fn later_function_replaces_the_earlier_one_of_its_name() {
    let mut render = SSRender::new("h");
    render.register_function("one".to_owned(), constant("1"));
    render.register_function("one".to_owned(), constant("uno"));
    assert_eq!(render.registed_functions().len(), 1);
    assert_eq!(call(render.registed_functions().get("one").unwrap()), "uno");
}

#[test]
fn removed_function_is_gone() {
    let mut render = SSRender::new("h");
    render.register_function("one".to_owned(), constant("1"));
    render.register_function("two".to_owned(), constant("2"));
    render.rm_registed_function("one".to_owned());
    assert!(!render.registed_functions().contains_key("one"));
    assert!(render.registed_functions().contains_key("two"));
    render.rm_registed_function("three".to_owned());
    assert_eq!(render.registed_functions().len(), 1);
}

#[test]
fn filters_are_registered_and_removed_like_functions() {
    let mut render = SSRender::new("h");
    render.register_filter("same".to_owned(), identity());
    render.register_filter("same".to_owned(), identity());
    render.register_filter("other".to_owned(), identity());
    assert_eq!(render.registed_filters().len(), 2);
    assert!(render.registed_filters().contains_key("same"));
    render.rm_registed_filter("same".to_owned());
    assert!(!render.registed_filters().contains_key("same"));
    assert!(render.registed_filters().contains_key("other"));
    assert_eq!(render.registed_functions().len(), 0);
}

#[test]
fn tera_builder_selects_every_file_below_the_template_directory() {
    let mut render = SSRender::new("h");
    assert_eq!(render.gen_tera_builder().tpl_dir(), "templates/**/*");
    render.set_tmpl_dir_name("views");
    assert_eq!(render.gen_tera_builder().tpl_dir(), "views/**/*");
}

#[test]
fn tera_builder_is_independent_of_later_registrations() {
    let mut render = SSRender::new("h");
    render.register_function("one".to_owned(), constant("1"));
    let builder = render.gen_tera_builder();
    render.rm_registed_function("one".to_owned());
    let mut tera = tera::Tera::default();
    tera.add_raw_template("page", "{{ one() }}").unwrap();
    builder.register_utilities(&mut tera);
    assert_eq!(tera.render("page", &tera::Context::new()).unwrap(), "1");
}

#[test]
fn http3_certification_is_kept() {
    let mut render = SSRender::new("h");
    render.set_use_http3(Http3Certification {
        cert: PathBuf::from("cert.pem"),
        key: PathBuf::from("key.pem"),
    });
    let held = render.use_http3().unwrap();
    assert_eq!(held.cert, PathBuf::from("cert.pem"));
    assert_eq!(held.key, PathBuf::from("key.pem"));
}

#[test]
fn templates_are_compiled_for_every_request_unless_set_otherwise() {
    let mut render = SSRender::new("h");
    assert_eq!(render.reload_policy(), ReloadPolicy::EveryRequest);
    assert_eq!(render.gen_view_handler().reload_policy(), ReloadPolicy::EveryRequest);
    render.set_reload_policy(ReloadPolicy::WhenChanged);
    assert_eq!(render.reload_policy(), ReloadPolicy::WhenChanged);
    assert_eq!(render.gen_view_handler().reload_policy(), ReloadPolicy::WhenChanged);
    assert_eq!(render.tmpl_dir_name(), "templates");
}

#[test]
fn view_handler_takes_the_configured_defaults() {
    let mut render = SSRender::new("h");
    render.set_tmpl_dir_name("views");
    let handler = render.gen_view_handler();
    assert_eq!(handler.template_pattern(), "views/**/*");
}
