//! Many schemas at once. An entry that fails does not fail the batch: the
//! `null` schema takes its place, so that the output has an entry for every
//! input, in the order of the input.
use crate::avro::{null_schema, null_text, parsed_schema};
use crate::error::AvroError;
use crate::schema::{
    fingerprint_of, fingerprint_raw_schema, translate_bytes, translation_of,
};
use apache_avro::Schema;
use vstd::prelude::*;
use vstd::string::StrSliceExecFns;
use vstd::utf8::encode_utf8;

verus! {

/// Whether a schema is the `null` schema, which stands in for a failed entry.
pub open spec fn is_null(schema: Schema) -> bool {
    parsed_schema(null_text()) == Some(schema)
}

/// Whether a schema and bytes are the entry of a batch for this text: its
/// fingerprint, or the `null` schema beside the bytes of the text itself where
/// it has none.
pub open spec fn is_fingerprint_entry(text: Seq<char>, schema: Schema, bytes: Seq<u8>) -> bool {
    match fingerprint_of(text) {
        Some(pair) => schema == pair.0 && bytes == pair.1,
        None => is_null(schema) && bytes == encode_utf8(text),
    }
}

/// Whether a schema is the entry of a batch for these serialized bytes: the
/// schema that they stand for, or the `null` schema where they stand for none.
pub open spec fn is_translation_entry(bytes: Seq<u8>, schema: Schema) -> bool {
    match translation_of(bytes) {
        Some(translated) => schema == translated,
        None => is_null(schema),
    }
}

/// Whether the two lists are the fingerprints of the texts: as long as the
/// input, and entry by entry what belongs to the text at the same index.
pub open spec fn is_fingerprint_list(
    texts: Seq<&str>,
    schemas: Seq<Schema>,
    bytes: Seq<Vec<u8>>,
) -> bool {
    &&& schemas.len() == texts.len()
    &&& bytes.len() == texts.len()
    &&& forall|i: int|
        0 <= i < texts.len() ==> is_fingerprint_entry(
            (#[trigger] texts[i])@,
            schemas[i],
            bytes[i]@,
        )
}

/// Whether the list is the translation of the serialized schemas: as long as
/// the input, and entry by entry what belongs to the bytes at the same index.
pub open spec fn is_translation_list(serialized: Seq<Vec<u8>>, schemas: Seq<Schema>) -> bool {
    &&& schemas.len() == serialized.len()
    &&& forall|i: int|
        0 <= i < serialized.len() ==> is_translation_entry(
            (#[trigger] serialized[i])@,
            schemas[i],
        )
}

/// The entry that a batch holds for one text, given what fingerprinting it
/// gave: the fingerprint itself, or on failure the `null` schema beside the
/// bytes of the text.
pub fn fingerprint_or_placeholder(
    outcome: Result<(Schema, Vec<u8>), AvroError>,
    raw_schema: &str,
) -> (entry: (Schema, Vec<u8>))
    ensures
        match outcome {
            Ok(pair) => entry.0 == pair.0 && entry.1 == pair.1,
            Err(_) => is_null(entry.0) && entry.1@ == encode_utf8(raw_schema@),
        },
{
    match outcome {
        Ok(pair) => pair,
        Err(_) => (null_schema(), raw_schema.as_bytes_vec()),
    }
}

/// The entry that a batch holds for one serialized schema, given what
/// translating it gave: the schema itself, or on failure the `null` schema.
pub fn translation_or_placeholder(outcome: Result<Schema, AvroError>) -> (schema: Schema)
    ensures
        match outcome {
            Ok(translated) => schema == translated,
            Err(_) => is_null(schema),
        },
{
    match outcome {
        Ok(translated) => translated,
        Err(_) => null_schema(),
    }
}

/// Fingerprints every text of a list. The call never fails: the result is
/// `Ok`, with a schema and bytes for each text, in the order of the texts.
/// Where a text has no fingerprint, the `null` schema and the bytes of the
/// text stand at its index.
pub fn fingerprint_raw_schema_list(raw_schema: &[&str]) -> (outcome: Result<
    (Vec<Schema>, Vec<Vec<u8>>),
    AvroError,
>)
    ensures
        outcome matches Ok(lists) && is_fingerprint_list(raw_schema@, lists.0@, lists.1@),
{
    let mut schemas: Vec<Schema> = Vec::new();
    let mut bytes: Vec<Vec<u8>> = Vec::new();
    let mut k: usize = 0;
    while k < raw_schema.len()
        invariant
            k <= raw_schema@.len(),
            schemas@.len() == k,
            bytes@.len() == k,
            forall|i: int|
                0 <= i < k ==> is_fingerprint_entry(
                    (#[trigger] raw_schema@[i])@,
                    schemas@[i],
                    bytes@[i]@,
                ),
        decreases raw_schema@.len() - k,
    {
        let text = raw_schema[k];
        let entry = fingerprint_or_placeholder(fingerprint_raw_schema(text), text);
        schemas.push(entry.0);
        bytes.push(entry.1);
        k += 1;
    }
    Ok((schemas, bytes))
}

/// Translates every serialized schema of a list. The call never fails: the
/// result is `Ok`, with a schema for each entry, in the order of the input.
/// Where an entry stands for no schema, the `null` schema stands at its index.
pub fn translate_schemas(serialized_schema: Vec<Vec<u8>>) -> (outcome: Result<
    Vec<Schema>,
    AvroError,
>)
    ensures
        outcome matches Ok(schemas) && is_translation_list(serialized_schema@, schemas@),
{
    let mut schemas: Vec<Schema> = Vec::new();
    let mut k: usize = 0;
    while k < serialized_schema.len()
        invariant
            k <= serialized_schema@.len(),
            schemas@.len() == k,
            forall|i: int|
                0 <= i < k ==> is_translation_entry(
                    (#[trigger] serialized_schema@[i])@,
                    schemas@[i],
                ),
        decreases serialized_schema@.len() - k,
    {
        let outcome = translate_bytes(serialized_schema[k].as_slice());
        schemas.push(translation_or_placeholder(outcome));
        k += 1;
    }
    Ok(schemas)
}

} // verus!
