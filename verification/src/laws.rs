//! What holds of the library as a whole, proved from the contracts of its
//! functions.
use crate::avro::canonical_text;
use crate::batch::{is_fingerprint_list, is_null, is_translation_list};
use crate::error::{AvroError, FailureKind};
use crate::schema::{
    canonical_bytes, fingerprint_of, is_canonical_form_of, is_fingerprint_of_text, is_parse_of,
    is_rejection_of, is_translation_of, schema_of, text_failure, translation_of,
};
use apache_avro::Schema;
use vstd::prelude::*;
use vstd::utf8::encode_utf8;

verus! {

/// The letter with which every reason of a kind of failure begins.
pub open spec fn first_letter(kind: FailureKind) -> char {
    match kind {
        FailureKind::NotUtf8 => 'b',
        FailureKind::Unreadable => 't',
        FailureKind::Syntax => 'm',
        FailureKind::UnknownType => 'u',
        FailureKind::DuplicateBranch => 'd',
        FailureKind::Rejected => 'r',
        FailureKind::NoDocument => 'n',
        FailureKind::DuplicateName => 'a',
        FailureKind::NoCanonicalForm => 'c',
    }
}

/// A reason of a kind of failure begins with the letter of that kind.
pub proof fn lemma_reason_begins_with_its_letter(kind: FailureKind, reason: Seq<char>)
    requires
        kind.is_said_by(reason),
    ensures
        reason.len() > 0,
        reason[0] == first_letter(kind),
{
    reveal_strlit("bytes are not UTF-8: ");
    reveal_strlit("the text cannot be read as a schema");
    reveal_strlit("malformed syntax: ");
    reveal_strlit("unknown type: ");
    reveal_strlit("duplicate union branch: ");
    reveal_strlit("rejected by the parser: ");
    reveal_strlit("no JSON can hold the schema");
    reveal_strlit("a name is defined twice");
    reveal_strlit("canonical form is not defined on the schema");
    let label = kind.label();
    assert(label.len() > 0);
    assert(label[0] == first_letter(kind));
    if !kind.is_exact() {
        assert(reason.subrange(0, label.len() as int)[0] == reason[0]);
    }
}

/// The reason of a failure tells its kind: no text is a reason of two kinds.
/// So the reasons for text that is no JSON, for a type that is not known, for
/// a name defined twice and for a union with two branches of one kind all
/// differ.
pub proof fn lemma_reason_tells_the_kind(reason: Seq<char>, first: FailureKind, second: FailureKind)
    requires
        first.is_said_by(reason),
        second.is_said_by(reason),
    ensures
        first == second,
{
    lemma_reason_begins_with_its_letter(first, reason);
    lemma_reason_begins_with_its_letter(second, reason);
}

/// Every text stands for a schema or fails for a reason of one kind, and not
/// both.
pub proof fn lemma_text_is_schema_or_fails(text: Seq<char>)
    ensures
        schema_of(text) is Some <==> text_failure(text) is None,
{
}

/// Two runs of parsing on the same text that both fail give reasons of the
/// same kind, and that kind is what is wrong with the text.
pub proof fn lemma_parse_failures_agree(
    text: Seq<char>,
    first: AvroError,
    second: AvroError,
    kind: FailureKind,
)
    requires
        is_parse_of(text, Err(first)),
        is_parse_of(text, Err(second)),
        first.is_failure(kind),
    ensures
        second.is_failure(kind),
        text_failure(text) == Some(kind),
{
    let wrong = text_failure(text).unwrap();
    lemma_reason_tells_the_kind(first->InvalidSchema_0@, wrong, kind);
}

/// Fingerprinting fails exactly where parsing fails, and with the same error:
/// an error is what fingerprinting a text fails with where it is what parsing
/// that text fails with. Where they succeed, they give the same schema.
pub proof fn lemma_fingerprint_fails_where_parsing_fails(text: Seq<char>, error: AvroError)
    ensures
        is_fingerprint_of_text(text, Err(error)) <==> is_parse_of(text, Err(error)),
        fingerprint_of(text) is Some <==> schema_of(text) is Some,
        fingerprint_of(text) matches Some(pair) ==> schema_of(text) == Some(pair.0)
            && canonical_bytes(pair.0) == Some(pair.1),
{
}

/// Translating succeeds exactly where fingerprinting the same text succeeds,
/// with the same schema, and fails with the same error where it fails.
pub proof fn lemma_translation_succeeds_where_fingerprinting_does(
    text: Seq<char>,
    error: AvroError,
)
    ensures
        translation_of(encode_utf8(text)) is Some <==> fingerprint_of(text) is Some,
        fingerprint_of(text) matches Some(pair) ==> translation_of(encode_utf8(text)) == Some(
            pair.0,
        ),
        is_translation_of(encode_utf8(text), Err(error)) <==> is_rejection_of(text, error),
{
    vstd::utf8::encode_utf8_valid_utf8(text);
    vstd::utf8::encode_utf8_decode_utf8(text);
}

/// Parsing and then canonicalizing is deterministic: two runs on the same
/// text that both parse give the same schema, and then both give the same
/// canonical bytes or both give none.
pub proof fn lemma_canonical_form_deterministic(
    text: Seq<char>,
    first: Schema,
    first_bytes: Option<Vec<u8>>,
    second: Schema,
    second_bytes: Option<Vec<u8>>,
)
    requires
        is_parse_of(text, Ok(first)),
        is_parse_of(text, Ok(second)),
        is_canonical_form_of(first, first_bytes),
        is_canonical_form_of(second, second_bytes),
    ensures
        first == second,
        first_bytes is Some <==> second_bytes is Some,
        first_bytes matches Some(a) ==> second_bytes matches Some(b) && a@ == b@,
{
}

/// Fingerprinting is deterministic: two runs on the same text both fail, or
/// both succeed with the same schema and the same bytes.
pub proof fn lemma_fingerprint_deterministic(
    text: Seq<char>,
    first: Result<(Schema, Vec<u8>), AvroError>,
    second: Result<(Schema, Vec<u8>), AvroError>,
)
    requires
        is_fingerprint_of_text(text, first),
        is_fingerprint_of_text(text, second),
    ensures
        first is Ok <==> second is Ok,
        first matches Ok(a) ==> second matches Ok(b) && a.0 == b.0 && a.1@ == b.1@,
{
}

/// Translating is deterministic: two runs on the same bytes both fail, or
/// both succeed with the same schema.
pub proof fn lemma_translation_deterministic(
    bytes: Seq<u8>,
    first: Result<Schema, AvroError>,
    second: Result<Schema, AvroError>,
)
    requires
        is_translation_of(bytes, first),
        is_translation_of(bytes, second),
    ensures
        first is Ok <==> second is Ok,
        first matches Ok(a) ==> second matches Ok(b) && a == b,
{
}

/// Translating the canonical bytes of a schema is reading its canonical text:
/// nothing is lost or added between the bytes that one call hands out and the
/// text that the other reads.
pub proof fn lemma_translation_reads_canonical_text(schema: Schema, bytes: Seq<u8>)
    requires
        canonical_bytes(schema) == Some(bytes),
    ensures
        translation_of(bytes) == schema_of(canonical_text(schema)),
{
    vstd::utf8::encode_utf8_valid_utf8(canonical_text(schema));
    vstd::utf8::encode_utf8_decode_utf8(canonical_text(schema));
}

/// An entry of a batch of fingerprints depends on its own text alone: where
/// two batches hold the same text, at whatever index, they hold the same
/// schema and the same bytes for it.
pub proof fn lemma_fingerprint_entry_depends_on_its_text(
    texts: Seq<&str>,
    schemas: Seq<Schema>,
    bytes: Seq<Vec<u8>>,
    i: int,
    other_texts: Seq<&str>,
    other_schemas: Seq<Schema>,
    other_bytes: Seq<Vec<u8>>,
    j: int,
)
    requires
        is_fingerprint_list(texts, schemas, bytes),
        is_fingerprint_list(other_texts, other_schemas, other_bytes),
        0 <= i < texts.len(),
        0 <= j < other_texts.len(),
        texts[i]@ == other_texts[j]@,
    ensures
        schemas[i] == other_schemas[j],
        bytes[i]@ == other_bytes[j]@,
{
}

/// An entry of a batch of translations depends on its own bytes alone.
pub proof fn lemma_translation_entry_depends_on_its_bytes(
    serialized: Seq<Vec<u8>>,
    schemas: Seq<Schema>,
    i: int,
    other_serialized: Seq<Vec<u8>>,
    other_schemas: Seq<Schema>,
    j: int,
)
    requires
        is_translation_list(serialized, schemas),
        is_translation_list(other_serialized, other_schemas),
        0 <= i < serialized.len(),
        0 <= j < other_serialized.len(),
        serialized[i]@ == other_serialized[j]@,
    ensures
        schemas[i] == other_schemas[j],
{
}

/// An entry of a batch of fingerprints is what fingerprinting its text alone
/// gives: the schema and the bytes where that succeeds, and the `null` schema
/// beside the bytes of the text where it fails.
pub proof fn lemma_fingerprint_entry_is_the_single_outcome(
    texts: Seq<&str>,
    schemas: Seq<Schema>,
    bytes: Seq<Vec<u8>>,
    i: int,
    outcome: Result<(Schema, Vec<u8>), AvroError>,
)
    requires
        is_fingerprint_list(texts, schemas, bytes),
        0 <= i < texts.len(),
        is_fingerprint_of_text(texts[i]@, outcome),
    ensures
        match outcome {
            Ok(pair) => schemas[i] == pair.0 && bytes[i]@ == pair.1@,
            Err(_) => is_null(schemas[i]) && bytes[i]@ == encode_utf8(texts[i]@),
        },
{
}

/// An entry of a batch of translations is what translating its bytes alone
/// gives: the schema where that succeeds, and the `null` schema where it
/// fails.
pub proof fn lemma_translation_entry_is_the_single_outcome(
    serialized: Seq<Vec<u8>>,
    schemas: Seq<Schema>,
    i: int,
    outcome: Result<Schema, AvroError>,
)
    requires
        is_translation_list(serialized, schemas),
        0 <= i < serialized.len(),
        is_translation_of(serialized[i]@, outcome),
    ensures
        match outcome {
            Ok(schema) => schemas[i] == schema,
            Err(_) => is_null(schemas[i]),
        },
{
}

/// One bad text does not spoil a batch of fingerprints. Where the text at
/// `bad` has no fingerprint and every other text has one, every other entry
/// is the fingerprint of its text, and the entry at `bad` is the `null` schema
/// beside the bytes of the bad text. Where, besides, no text of the batch
/// parses to the `null` schema, the entry at `bad` is the only one that holds
/// it.
pub proof fn lemma_fingerprint_list_isolates_failure(
    texts: Seq<&str>,
    schemas: Seq<Schema>,
    bytes: Seq<Vec<u8>>,
    bad: int,
)
    requires
        is_fingerprint_list(texts, schemas, bytes),
        0 <= bad < texts.len(),
        fingerprint_of(texts[bad]@) is None,
        forall|i: int| 0 <= i < texts.len() && i != bad ==> fingerprint_of(texts[i]@) is Some,
    ensures
        schemas.len() == texts.len(),
        bytes.len() == texts.len(),
        is_null(schemas[bad]),
        bytes[bad]@ == encode_utf8(texts[bad]@),
        forall|i: int|
            0 <= i < texts.len() && i != bad ==> fingerprint_of(texts[i]@) == Some(
                (#[trigger] schemas[i], bytes[i]@),
            ),
        (forall|i: int|
            0 <= i < texts.len() ==> !(#[trigger] schema_of(texts[i]@) matches Some(schema)
                && is_null(schema))) ==> (forall|i: int|
            0 <= i < texts.len() ==> (is_null(#[trigger] schemas[i]) <==> i == bad)),
{
    assert forall|i: int| 0 <= i < texts.len() && i != bad implies fingerprint_of(texts[i]@)
        == Some((#[trigger] schemas[i], bytes[i]@)) by {
        let text = texts[i];
    }
    if forall|i: int|
        0 <= i < texts.len() ==> !(#[trigger] schema_of(texts[i]@) matches Some(schema) && is_null(
            schema,
        )) {
        assert forall|i: int| 0 <= i < texts.len() implies (is_null(#[trigger] schemas[i]) <==> i
            == bad) by {
            let text = texts[i];
            if i != bad {
                assert(schema_of(texts[i]@) == Some(schemas[i]));
            }
        }
    }
}

/// One bad entry does not spoil a batch of translations. Where the bytes at
/// `bad` stand for no schema and all the others stand for one, every other
/// entry is the schema of its bytes, and the entry at `bad` is the `null`
/// schema.
pub proof fn lemma_translation_list_isolates_failure(
    serialized: Seq<Vec<u8>>,
    schemas: Seq<Schema>,
    bad: int,
)
    requires
        is_translation_list(serialized, schemas),
        0 <= bad < serialized.len(),
        translation_of(serialized[bad]@) is None,
        forall|i: int|
            0 <= i < serialized.len() && i != bad ==> translation_of(serialized[i]@) is Some,
    ensures
        schemas.len() == serialized.len(),
        is_null(schemas[bad]),
        forall|i: int|
            0 <= i < serialized.len() && i != bad ==> translation_of(serialized[i]@) == Some(
                #[trigger] schemas[i],
            ),
{
    assert forall|i: int| 0 <= i < serialized.len() && i != bad implies translation_of(
        serialized[i]@,
    ) == Some(#[trigger] schemas[i]) by {
        let entry = serialized[i];
    }
}

} // verus!
