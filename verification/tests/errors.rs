use ssrender::errors::{
    classify, ErrorClass, Stage, STATUS_BAD_REQUEST, STATUS_NOT_FOUND, STATUS_OK,
};
use ssrender::tera;

#[test]
fn status_constants() {
    assert_eq!(STATUS_OK, 200);
    assert_eq!(STATUS_BAD_REQUEST, 400);
    assert_eq!(STATUS_NOT_FOUND, 404);
}

#[test]
fn missing_template_is_answered_with_404() {
    assert_eq!(ErrorClass::TemplateNotFound.status(), 404);
}

#[test]
fn every_other_failure_is_answered_with_400() {
    assert_eq!(ErrorClass::InvalidRequestPath.status(), 400);
    assert_eq!(ErrorClass::TemplateCompileError.status(), 400);
    assert_eq!(ErrorClass::TemplateRenderError.status(), 400);
    assert_eq!(ErrorClass::FilterArgumentError.status(), 400);
    assert_eq!(ErrorClass::IncludeArgumentError.status(), 400);
}

#[test]
fn classify_tells_a_missing_template_at_either_stage() {
    let error = tera::Error::template_not_found("x.html");
    assert_eq!(classify(Stage::BuildEnvironment, &error), ErrorClass::TemplateNotFound);
    assert_eq!(classify(Stage::Render, &error), ErrorClass::TemplateNotFound);
}

#[test]
fn classify_goes_by_the_stage_for_other_errors() {
    let error = tera::Error::msg("broken");
    assert_eq!(classify(Stage::BuildEnvironment, &error), ErrorClass::TemplateCompileError);
    assert_eq!(classify(Stage::Render, &error), ErrorClass::TemplateRenderError);
    let error = tera::Error::filter_not_found("f");
    assert_eq!(classify(Stage::Render, &error), ErrorClass::TemplateRenderError);
    let error = tera::Error::missing_parent("a.html", "b.html");
    assert_eq!(classify(Stage::BuildEnvironment, &error), ErrorClass::TemplateCompileError);
}

#[test]
fn classify_reads_only_the_outermost_error() {
    let error = tera::Error::chain("failed to render", tera::Error::template_not_found("x"));
    assert_eq!(classify(Stage::Render, &error), ErrorClass::TemplateRenderError);
}
