//! The filter that decodes JSON text.

use crate::engine::{
    engine_of, failure, failure_of, parse_failure, EngineModel, Failure, FilterBinding,
};
use crate::errors::ErrorClass;
use crate::json::{json_error_text, json_of, json_text_value, parse_json, text_of, Json};
use serde_json::Value;
use std::collections::HashMap;
use tera::Tera;
use vstd::prelude::*;

verus! {

/// The name under which templates apply the filter.
pub const JSON_DECODE_FILTER: &'static str = "json_decode";

/// The text that reports an input that is no text.
pub const NOT_A_TEXT: &'static str = "value must be a json object string";

/// What is wrong with the input of the filter.
#[derive(Debug)]
pub enum FilterArgumentError {
    /// The input is no text.
    NotText,
    /// The input is a text that is not JSON, for the reason that the error
    /// gives.
    NotJson(serde_json::Error),
}

/// The mathematical form of a [`FilterArgumentError`].
pub enum FilterArgumentModel {
    /// The input is no text.
    NotText,
    /// The input is a text that is not JSON, for the reason that the text
    /// held here gives.
    NotJson(Seq<char>),
}

impl FilterArgumentModel {
    /// The text that reports the error.
    pub open spec fn text(self) -> Seq<char> {
        match self {
            FilterArgumentModel::NotText => NOT_A_TEXT@,
            FilterArgumentModel::NotJson(reason) => reason,
        }
    }
}

impl View for FilterArgumentError {
    type V = FilterArgumentModel;

    open spec fn view(&self) -> FilterArgumentModel {
        match self {
            FilterArgumentError::NotText => FilterArgumentModel::NotText,
            FilterArgumentError::NotJson(cause) => FilterArgumentModel::NotJson(
                json_error_text(*cause),
            ),
        }
    }
}

impl FilterArgumentError {
    /// The kind of failure that the error is.
    pub fn class(&self) -> (class: ErrorClass)
        ensures
            class == ErrorClass::FilterArgumentError,
    {
        ErrorClass::FilterArgumentError
    }

    /// The error as the engine reports it: it displays the text of this
    /// error, and is not the error of a missing template.
    pub fn into_failure(self) -> (error: tera::Error)
        ensures
            failure_of(error) == (Failure { not_found: false, text: self@.text() }),
    {
        match self {
            FilterArgumentError::NotText => failure(NOT_A_TEXT),
            FilterArgumentError::NotJson(cause) => parse_failure(cause),
        }
    }
}

/// What the filter yields for an input: what the input, a text, denotes as
/// JSON, and an error where the input is no text or the text is not JSON.
pub open spec fn decoded(input: Json) -> Result<Json, FilterArgumentModel> {
    match input {
        Json::Text(text) => match json_text_value(text) {
            Ok(value) => Ok(value),
            Err(reason) => Err(FilterArgumentModel::NotJson(reason)),
        },
        _ => Err(FilterArgumentModel::NotText),
    }
}

/// `Tera::register_filter` with the filter [`json_decode`]: afterwards the
/// engine applies it under the name `json_decode`, in place of what stood
/// under that name. Its templates, functions and other filters stay.
#[verifier::external_body]
pub(crate) fn bind_json_decode(engine: &mut Tera)
    ensures
        engine_of(*final(engine)) == (EngineModel {
            filters: engine_of(*old(engine)).filters.insert(
                JSON_DECODE_FILTER@,
                FilterBinding::JsonDecode,
            ),
            ..engine_of(*old(engine))
        }),
{
    engine.register_filter(JSON_DECODE_FILTER, json_decode);
}

/// What the filter yields for a text that was read as JSON with the outcome
/// `parsed`: the value that was read, or the reason why none was.
pub fn decode_outcome(parsed: Result<Value, serde_json::Error>) -> (result: Result<
    Value,
    FilterArgumentError,
>)
    ensures
        match parsed {
            Ok(value) => result == Ok::<Value, FilterArgumentError>(value),
            Err(cause) => result == Err::<Value, FilterArgumentError>(
                FilterArgumentError::NotJson(cause),
            ),
        },
{
    match parsed {
        Ok(value) => Ok(value),
        Err(cause) => Err(FilterArgumentError::NotJson(cause)),
    }
}

/// Reads the input of the filter, a text, as JSON.
pub fn decode(input: &Value) -> (result: Result<Value, FilterArgumentError>)
    ensures
        match decoded(json_of(*input)) {
            Ok(value) => result is Ok && json_of(result->Ok_0) == value,
            Err(error) => result is Err && result->Err_0@ == error,
        },
{
    match text_of(input) {
        Some(text) => decode_outcome(parse_json(text)),
        None => Err(FilterArgumentError::NotText),
    }
}

/// The filter as the engine applies it: it reads its input, a text, as JSON.
/// The arguments play no part. An input that it does not take is reported
/// with the text of the [`FilterArgumentError`].
pub fn json_decode(value: &Value, _args: &HashMap<String, Value>) -> (result: Result<
    Value,
    tera::Error,
>)
    ensures
        match decoded(json_of(*value)) {
            Ok(json) => result is Ok && json_of(result->Ok_0) == json,
            Err(error) => result is Err && failure_of(result->Err_0) == (Failure {
                not_found: false,
                text: error.text(),
            }),
        },
{
    match decode(value) {
        Ok(decoded) => Ok(decoded),
        Err(error) => Err(error.into_failure()),
    }
}

/// The filter refuses every input that is no text.
pub proof fn law_refuses_what_is_no_text(input: Json)
    requires
        !(input is Text),
    ensures
        decoded(input) == Err::<Json, FilterArgumentModel>(FilterArgumentModel::NotText),
{
}

/// For a text the filter yields what the text denotes as JSON, and refuses
/// the text where it denotes nothing.
pub proof fn law_decodes_text(text: Seq<char>)
    ensures
        decoded(Json::Text(text)) is Ok <==> json_text_value(text) is Ok,
        json_text_value(text) is Ok ==> decoded(Json::Text(text))->Ok_0 == json_text_value(
            text,
        )->Ok_0,
{
}

} // verus!
