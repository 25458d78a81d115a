//! What this library takes on trust from `apache_avro`, `serde_json` and std.
//!
//! Schemas are parsed and canonicalised by `apache_avro`. A `Schema` is
//! opaque here: the contracts name what the parser gives for a text and what
//! the canonical form of a schema is, and say nothing of how either is
//! computed. Everything in this file is believed, not proved.
use crate::document::{canonical_form_defined, parser_can_read};
use crate::error::FailureKind;
use crate::json::{value_document, Layer, LayerView};
use apache_avro::error::Details;
use apache_avro::Schema;
use vstd::prelude::*;
use vstd::utf8::{encode_utf8, valid_utf8};

verus! {

/// `apache_avro::Schema`, a parsed schema. Nothing inside it is seen here.
#[verifier::external_type_specification]
#[verifier::external_body]
pub struct ExSchema(apache_avro::Schema);

/// `apache_avro::Error`, what the parser gives for a text that it rejects.
#[verifier::external_type_specification]
#[verifier::external_body]
pub struct ExParseFailure(apache_avro::Error);

/// `serde_json::Value`, a JSON value.
#[verifier::external_type_specification]
#[verifier::external_body]
pub struct ExJsonValue(serde_json::Value);

/// `std::str::Utf8Error`, what std gives for bytes that are not UTF-8.
#[verifier::external_type_specification]
#[verifier::external_body]
pub struct ExUtf8Error(std::str::Utf8Error);

/// What `apache_avro::Schema::parse_str` gives for a text: the schema that it
/// reads, or the kind of the error with which it rejects the text. The parser
/// is taken as it starts: with the validators of names and the comparison of
/// schemas that `apache_avro` sets up where the program registers none of its
/// own.
pub uninterp spec fn parse_outcome(text: Seq<char>) -> Result<Schema, FailureKind>;

/// The kind of an error of the parser: which variant of
/// `apache_avro::error::Details` it holds.
pub uninterp spec fn failure_kind_of(failure: apache_avro::Error) -> FailureKind;

/// The schema that the parser reads from a text, and `None` for a text that
/// it rejects.
pub open spec fn parsed_schema(text: Seq<char>) -> Option<Schema> {
    match parse_outcome(text) {
        Ok(schema) => Some(schema),
        Err(_) => None,
    }
}

/// The JSON value that `serde_json::from_str` reads from a text, and `None`
/// for a text that is no JSON.
pub uninterp spec fn json_of_text(text: Seq<char>) -> Option<serde_json::Value>;

/// The Parsing Canonical Form of a schema, as
/// `apache_avro::Schema::canonical_form` writes it.
pub uninterp spec fn canonical_text(schema: Schema) -> Seq<char>;

/// The JSON value that `serde_json::to_value` gives for a schema, and `None`
/// where it gives none.
pub uninterp spec fn json_value(schema: Schema) -> Option<serde_json::Value>;

/// The outermost layer of a `serde_json::Value`: which variant it is and what
/// that variant holds.
pub uninterp spec fn json_layer(value: serde_json::Value) -> LayerView;

/// How deep a `serde_json::Value` is: how many values lie inside one another
/// in it, at most.
pub uninterp spec fn json_depth(value: serde_json::Value) -> nat;

/// Whether every value inside a layer is less deep than `depth`.
pub open spec fn inner_values_less_deep(layer: LayerView, depth: nat) -> bool {
    match layer {
        LayerView::List(items) => forall|i: int|
            0 <= i < items.len() ==> json_depth(#[trigger] items[i]) < depth,
        LayerView::Object(members) => forall|i: int|
            0 <= i < members.len() ==> json_depth((#[trigger] members[i]).1) < depth,
        _ => true,
    }
}

/// The text of the schema `null`: the word between double quotes.
pub open spec fn null_text() -> Seq<char> {
    "\"null\""@
}

/// Whether a text can be handed to the parser: it is no JSON, or it is JSON
/// that the parser can be given.
pub open spec fn can_be_parsed(text: Seq<char>) -> bool {
    json_of_text(text) matches Some(value) ==> parser_can_read(value_document(value))
}

/// Calls `serde_json::from_str` to read a text as a JSON value.
#[verifier::external_body]
pub(crate) fn text_json(text: &str) -> (value: Option<serde_json::Value>)
    ensures
        value == json_of_text(text@),
{
    serde_json::from_str(text).ok()
}

/// Calls `apache_avro::Schema::parse_str`. The result is taken to depend on
/// the text alone: the same text gives the same schema, or is rejected with an
/// error of the same kind, every time. Nothing is claimed of the message of
/// that error.
///
/// The parser reads the text with `serde_json::from_str` and rejects what is
/// no JSON. It panics on two things, which `requires` leaves out. To report a
/// default that does not fit its field, it writes the field's schema in
/// canonical form, and so panics where `canonical_form` does; the attributes
/// of the schemas that it builds are members of the objects of the text, under
/// their keys, so that the canonical form is defined on those schemas where it
/// is defined on the text itself. And to check a default against a decimal on
/// a fixed type, it multiplies the size of that type by eight in 32 bits,
/// signed, which overflows for a size above 268435455.
#[verifier::external_body]
pub(crate) fn parse_schema(text: &str) -> (outcome: Result<Schema, apache_avro::Error>)
    requires
        can_be_parsed(text@),
    ensures
        match outcome {
            Ok(schema) => parse_outcome(text@) matches Ok(parsed) && parsed == schema,
            Err(failure) => parse_outcome(text@) matches Err(kind) && kind == failure_kind_of(
                failure,
            ),
        },
{
    Schema::parse_str(text)
}

/// Tells the variants of `apache_avro::error::Details` apart, as
/// `apache_avro::Error::details` hands them out: the one for text that is no
/// JSON, the two for a type that is not known, the four for a union with
/// branches that cannot be told apart, and all the others.
#[verifier::external_body]
pub(crate) fn failure_kind(failure: &apache_avro::Error) -> (kind: FailureKind)
    ensures
        kind == failure_kind_of(*failure),
{
    match failure.details() {
        Details::ParseSchemaJson(_) => FailureKind::Syntax,
        Details::ParsePrimitive(_) => FailureKind::UnknownType,
        Details::ParsePrimitiveSimilar(_, _) => FailureKind::UnknownType,
        Details::GetUnionDuplicate(_) => FailureKind::DuplicateBranch,
        Details::GetUnionDuplicateNamedSchemas(_) => FailureKind::DuplicateBranch,
        Details::GetUnionDuplicateMap(_, _) => FailureKind::DuplicateBranch,
        Details::GetUnionDuplicateArray(_, _) => FailureKind::DuplicateBranch,
        _ => FailureKind::Rejected,
    }
}

/// Makes `apache_avro::Schema::Null`, the schema that the parser reads from
/// the text `"null"`.
#[verifier::external_body]
pub(crate) fn null_schema() -> (schema: Schema)
    ensures
        parsed_schema(null_text()) == Some(schema),
{
    Schema::Null
}

/// Calls `serde_json::to_value` on a schema: the JSON value that the
/// canonical form is computed from.
#[verifier::external_body]
pub(crate) fn schema_json(schema: &Schema) -> (value: Option<serde_json::Value>)
    ensures
        value == json_value(*schema),
{
    serde_json::to_value(schema).ok()
}

/// Takes a `serde_json::Value` apart, variant by variant. A number keeps what
/// `serde_json::Number::as_i64` gives for it; a list and an object hand out
/// copies of the values inside them, each of which is less deep than the whole.
#[verifier::external_body]
pub(crate) fn layer_of(value: &serde_json::Value) -> (layer: Layer)
    ensures
        layer@ == json_layer(*value),
        inner_values_less_deep(layer@, json_depth(*value)),
{
    match value {
        serde_json::Value::Null => Layer::Null,
        serde_json::Value::Bool(b) => Layer::Bool(*b),
        serde_json::Value::Number(n) => Layer::Number(n.as_i64()),
        serde_json::Value::String(s) => Layer::Text(s.clone()),
        serde_json::Value::Array(items) => Layer::List(items.clone()),
        serde_json::Value::Object(members) => Layer::Object(
            members.iter().map(|(k, v)| (k.clone(), v.clone())).collect(),
        ),
    }
}

/// Calls `apache_avro::Schema::canonical_form`, which first turns the schema
/// into its JSON value, with `serde_json::to_value`, and then walks that value.
/// The walk panics on a value that is neither string, list nor object under a
/// key that it keeps, and on a size that is no integer of 64 bits; `requires`
/// leaves those schemas out, and a few more, on which the walk would pass.
#[verifier::external_body]
pub(crate) fn canonical_form(schema: &Schema) -> (text: String)
    requires
        json_value(*schema) matches Some(value) && canonical_form_defined(value_document(value)),
    ensures
        text@ == canonical_text(*schema),
{
    schema.canonical_form()
}

/// Calls `std::str::from_utf8`: the bytes are read as text where they are
/// valid UTF-8, and the text then encodes to those bytes.
#[verifier::external_body]
pub(crate) fn utf8_text<'a>(bytes: &'a [u8]) -> (outcome: Result<&'a str, std::str::Utf8Error>)
    ensures
        match outcome {
            Ok(text) => valid_utf8(bytes@) && encode_utf8(text@) == bytes@,
            Err(_) => !valid_utf8(bytes@),
        },
{
    std::str::from_utf8(bytes)
}

} // verus!
