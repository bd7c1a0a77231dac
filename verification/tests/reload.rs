use ssrender::builder::TeraBuilder;
use ssrender::dispatch::ViewHandler;
use ssrender::registry::Registry;
use ssrender::reload::{must_compile, ReloadPolicy};

#[test]
fn every_request_compiles_whatever_was_compiled() {
    assert!(must_compile(ReloadPolicy::EveryRequest, None, 7));
    assert!(must_compile(ReloadPolicy::EveryRequest, Some(7), 7));
    assert!(must_compile(ReloadPolicy::EveryRequest, Some(8), 7));
}

#[test]
fn nothing_compiled_yet_is_compiled() {
    assert!(must_compile(ReloadPolicy::WhenChanged, None, 0));
    assert!(must_compile(ReloadPolicy::WhenChanged, None, u64::MAX));
}

#[test]
fn unchanged_sources_are_not_compiled_again() {
    assert!(!must_compile(ReloadPolicy::WhenChanged, Some(7), 7));
    assert!(!must_compile(ReloadPolicy::WhenChanged, Some(0), 0));
    assert!(!must_compile(ReloadPolicy::WhenChanged, Some(u64::MAX), u64::MAX));
}

#[test]
fn changed_sources_are_compiled_again() {
    assert!(must_compile(ReloadPolicy::WhenChanged, Some(7), 8));
    assert!(must_compile(ReloadPolicy::WhenChanged, Some(8), 7));
    assert!(must_compile(ReloadPolicy::WhenChanged, Some(0), u64::MAX));
}

#[test]
fn handler_keeps_the_policy_it_is_given() {
    let builder = TeraBuilder::new("templates/**/*".to_owned(), Registry::new(), Registry::new());
    let handler = ViewHandler::new(builder, "html".to_owned(), "index.html".to_owned());
    assert_eq!(handler.reload_policy(), ReloadPolicy::EveryRequest);
    let handler = handler.with_reload_policy(ReloadPolicy::WhenChanged);
    assert_eq!(handler.reload_policy(), ReloadPolicy::WhenChanged);
    assert_eq!(handler.template_pattern(), "templates/**/*");
}

#[test]
fn only_the_changed_policy_keeps_templates() {
    assert!(!ReloadPolicy::EveryRequest.keeps_templates());
    assert!(ReloadPolicy::WhenChanged.keeps_templates());
}
