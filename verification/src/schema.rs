//! From the text of one schema to the schema and its canonical bytes, and
//! back from canonical bytes to the schema.
//!
//! A text is a schema of this library where three things hold. It can be
//! handed to the parser: it is no JSON, which the parser rejects at once, or
//! JSON that the parser can be given. The parser accepts it. And the schema
//! that the parser gives is sound: it defines each of its named types once,
//! and it has a canonical form. The parser itself lets a second definition of
//! a name pass, and the canonical form then writes the second as a mere use
//! of the first.
//!
//! Every other text fails with `InvalidSchema`, for a reason that tells the
//! kind of the failure.
use crate::avro::{
    can_be_parsed, canonical_form, canonical_text, failure_kind, json_value, parse_outcome,
    parse_schema, schema_json, text_json, utf8_text,
};
use crate::document::{canonical_form_defined, defines_canonical_form, fits_the_parser, Document, Json};
use crate::error::{AvroError, FailureKind};
use crate::json::{to_json, value_document};
use crate::names::{defines_each_name_once, names_defined_once};
use apache_avro::Schema;
use vstd::prelude::*;
use vstd::string::StrSliceExecFns;
use vstd::utf8::{decode_utf8, encode_utf8, valid_utf8};

verus! {

/// The JSON document of a schema, and `None` for a schema that cannot be
/// written as JSON.
pub open spec fn schema_document(schema: Schema) -> Option<Document> {
    match json_value(schema) {
        Some(value) => Some(value_document(value)),
        None => None,
    }
}

/// Whether a schema has a canonical form: it can be written as a JSON
/// document, and the canonical form is defined on that document.
pub open spec fn has_canonical_form(schema: Schema) -> bool {
    schema_document(schema) matches Some(doc) && canonical_form_defined(doc)
}

/// The canonical form of a schema as UTF-8 bytes, and `None` for a schema
/// that has none.
pub open spec fn canonical_bytes(schema: Schema) -> Option<Seq<u8>> {
    if has_canonical_form(schema) {
        Some(encode_utf8(canonical_text(schema)))
    } else {
        None
    }
}

/// What is wrong with a schema that the parser accepted: that it cannot be
/// written as JSON, that it defines a name twice, or that it has no canonical
/// form, in this order. `None` for a schema that is sound.
pub open spec fn schema_failure(schema: Schema) -> Option<FailureKind> {
    match schema_document(schema) {
        Some(doc) => if !defines_each_name_once(doc) {
            Some(FailureKind::DuplicateName)
        } else if !canonical_form_defined(doc) {
            Some(FailureKind::NoCanonicalForm)
        } else {
            None
        },
        None => Some(FailureKind::NoDocument),
    }
}

/// What is wrong with a text: that it cannot be handed to the parser, the
/// kind of the error with which the parser rejects it, or what is wrong with
/// the schema that the parser reads from it. `None` for a text that stands
/// for a schema.
pub open spec fn text_failure(text: Seq<char>) -> Option<FailureKind> {
    if can_be_parsed(text) {
        match parse_outcome(text) {
            Ok(schema) => schema_failure(schema),
            Err(kind) => Some(kind),
        }
    } else {
        Some(FailureKind::Unreadable)
    }
}

/// The schema that a text stands for: what the parser reads from it, where
/// nothing is wrong with the text. `None` for any other text.
pub open spec fn schema_of(text: Seq<char>) -> Option<Schema> {
    match parse_outcome(text) {
        Ok(schema) => if text_failure(text) is None {
            Some(schema)
        } else {
            None
        },
        Err(_) => None,
    }
}

/// The fingerprint of a text: the schema that it stands for, with the
/// canonical bytes of that schema. `None` for a text that stands for no
/// schema.
pub open spec fn fingerprint_of(text: Seq<char>) -> Option<(Schema, Seq<u8>)> {
    match schema_of(text) {
        Some(schema) => Some((schema, encode_utf8(canonical_text(schema)))),
        None => None,
    }
}

/// What is wrong with serialized bytes: that they are not UTF-8, or what is
/// wrong with their text. `None` for bytes that stand for a schema.
pub open spec fn bytes_failure(bytes: Seq<u8>) -> Option<FailureKind> {
    if valid_utf8(bytes) {
        text_failure(decode_utf8(bytes))
    } else {
        Some(FailureKind::NotUtf8)
    }
}

/// The schema that serialized bytes stand for: that of their text. `None`
/// for bytes that are not UTF-8, and for a text that stands for no schema.
pub open spec fn translation_of(bytes: Seq<u8>) -> Option<Schema> {
    if valid_utf8(bytes) {
        schema_of(decode_utf8(bytes))
    } else {
        None
    }
}

/// Whether `bytes` is what canonicalizing a schema gives: its canonical bytes,
/// or `None` where it has none.
pub open spec fn is_canonical_form_of(schema: Schema, bytes: Option<Vec<u8>>) -> bool {
    match bytes {
        Some(bytes) => canonical_bytes(schema) == Some(bytes@),
        None => canonical_bytes(schema) is None,
    }
}

/// Whether `outcome` is what checking a schema gives: the schema itself where
/// it is sound, or `InvalidSchema` with a reason of the kind of what is wrong
/// with it.
pub open spec fn is_check_of(schema: Schema, outcome: Result<Schema, AvroError>) -> bool {
    match outcome {
        Ok(checked) => checked == schema && schema_failure(schema) is None,
        Err(error) => schema_failure(schema) matches Some(kind) && error.is_failure(kind),
    }
}

/// Whether `error` is what a text that stands for no schema fails with:
/// `InvalidSchema` with a reason of the kind of what is wrong with the text.
pub open spec fn is_rejection_of(text: Seq<char>, error: AvroError) -> bool {
    text_failure(text) matches Some(kind) && error.is_failure(kind)
}

/// Whether `outcome` is what parsing a text gives: the schema that it stands
/// for, or the error that it fails with.
pub open spec fn is_parse_of(text: Seq<char>, outcome: Result<Schema, AvroError>) -> bool {
    match outcome {
        Ok(schema) => schema_of(text) == Some(schema),
        Err(error) => is_rejection_of(text, error),
    }
}

/// Whether `outcome` is what fingerprinting a schema gives: the schema handed
/// back with its canonical bytes, or `InvalidSchema` with the reason that it
/// has none.
pub open spec fn is_fingerprint_of_schema(
    schema: Schema,
    outcome: Result<(Schema, Vec<u8>), AvroError>,
) -> bool {
    match outcome {
        Ok(pair) => pair.0 == schema && canonical_bytes(schema) == Some(pair.1@),
        Err(error) => canonical_bytes(schema) is None && error.is_failure(
            FailureKind::NoCanonicalForm,
        ),
    }
}

/// Whether `outcome` is what fingerprinting a text gives: its fingerprint, or
/// the error that parsing it fails with.
pub open spec fn is_fingerprint_of_text(
    text: Seq<char>,
    outcome: Result<(Schema, Vec<u8>), AvroError>,
) -> bool {
    match outcome {
        Ok(pair) => fingerprint_of(text) == Some((pair.0, pair.1@)),
        Err(error) => is_rejection_of(text, error),
    }
}

/// Whether `outcome` is what translating serialized bytes gives: the schema
/// that they stand for, or `InvalidSchema` with a reason of the kind of what
/// is wrong with them.
pub open spec fn is_translation_of(bytes: Seq<u8>, outcome: Result<Schema, AvroError>) -> bool {
    match outcome {
        Ok(schema) => translation_of(bytes) == Some(schema),
        Err(error) => bytes_failure(bytes) matches Some(kind) && error.is_failure(kind),
    }
}

/// Writes a schema as a JSON document, where it can be written as one.
pub fn to_document(schema: &Schema) -> (doc: Option<Json>)
    ensures
        match doc {
            Some(doc) => schema_document(*schema) == Some(doc@),
            None => schema_document(*schema) is None,
        },
{
    match schema_json(schema) {
        Some(value) => Some(to_json(&value)),
        None => None,
    }
}

/// Checks that a schema is sound, and hands it back where it is: that it
/// defines each of its named types once, and that it has a canonical form.
pub fn check_schema(schema: Schema) -> (outcome: Result<Schema, AvroError>)
    ensures
        is_check_of(schema, outcome),
{
    match to_document(&schema) {
        Some(doc) => if !names_defined_once(&doc) {
            Err(AvroError::failure(FailureKind::DuplicateName, ""))
        } else if !defines_canonical_form(&doc) {
            Err(AvroError::failure(FailureKind::NoCanonicalForm, ""))
        } else {
            Ok(schema)
        },
        None => Err(AvroError::failure(FailureKind::NoDocument, "")),
    }
}

/// Tells whether a text can be handed to the parser: whether it is no JSON,
/// or JSON that the parser can be given.
pub fn is_readable(raw_schema: &str) -> (b: bool)
    ensures
        b == can_be_parsed(raw_schema@),
{
    match text_json(raw_schema) {
        Some(value) => fits_the_parser(&to_json(&value)),
        None => true,
    }
}

/// Parses the text of a schema. A text that stands for no schema gives
/// `InvalidSchema`. Its reason begins with the label of the kind of the
/// failure; where the parser rejects the text, the parser's message follows.
pub fn parse_str(raw_schema: &str) -> (outcome: Result<Schema, AvroError>)
    ensures
        is_parse_of(raw_schema@, outcome),
{
    if !is_readable(raw_schema) {
        return Err(AvroError::failure(FailureKind::Unreadable, ""));
    }
    match parse_schema(raw_schema) {
        Ok(schema) => check_schema(schema),
        Err(failure) => {
            let message = failure.to_string();
            Err(AvroError::failure(failure_kind(&failure), message.as_str()))
        },
    }
}

/// Writes a schema in Parsing Canonical Form, as UTF-8 bytes. `None` for a
/// schema that has no canonical form.
pub fn canonicalize(schema: &Schema) -> (bytes: Option<Vec<u8>>)
    ensures
        is_canonical_form_of(*schema, bytes),
{
    match to_document(schema) {
        Some(doc) => if defines_canonical_form(&doc) {
            let text = canonical_form(schema);
            Some(text.as_str().as_bytes_vec())
        } else {
            None
        },
        None => None,
    }
}

/// Pairs a schema with its canonical bytes. A schema that has no canonical
/// form gives `InvalidSchema`.
pub fn fingerprint_parsed(schema: Schema) -> (outcome: Result<(Schema, Vec<u8>), AvroError>)
    ensures
        is_fingerprint_of_schema(schema, outcome),
{
    match canonicalize(&schema) {
        Some(bytes) => Ok((schema, bytes)),
        None => Err(AvroError::failure(FailureKind::NoCanonicalForm, "")),
    }
}

/// Parses the text of a schema and pairs the schema with its canonical
/// bytes. It fails where parsing fails, with the error of parsing, and
/// nowhere else.
pub fn fingerprint_raw_schema(raw_schema: &str) -> (outcome: Result<
    (Schema, Vec<u8>),
    AvroError,
>)
    ensures
        is_fingerprint_of_text(raw_schema@, outcome),
{
    match parse_str(raw_schema) {
        Ok(schema) => fingerprint_parsed(schema),
        Err(error) => Err(error),
    }
}

/// Reads serialized bytes back into a schema: the bytes are taken as UTF-8
/// text, and the text is parsed. Bytes that are not UTF-8, and a text that
/// stands for no schema, give `InvalidSchema`.
pub fn translate_bytes(serialized_schema: &[u8]) -> (outcome: Result<Schema, AvroError>)
    ensures
        is_translation_of(serialized_schema@, outcome),
{
    match utf8_text(serialized_schema) {
        Ok(text) => {
            proof {
                vstd::utf8::encode_utf8_decode_utf8(text@);
            }
            parse_str(text)
        },
        Err(failure) => {
            let message = failure.to_string();
            Err(AvroError::failure(FailureKind::NotUtf8, message.as_str()))
        },
    }
}

/// Reads a serialized schema back into a schema, as `translate_bytes` does.
pub fn translate_schema(serialized_schema: Vec<u8>) -> (outcome: Result<Schema, AvroError>)
    ensures
        is_translation_of(serialized_schema@, outcome),
{
    translate_bytes(serialized_schema.as_slice())
}

} // verus!
