use apache_avro::Schema;
use avro_validation::schema::{
    canonicalize, check_schema, fingerprint_parsed, fingerprint_raw_schema, is_readable, parse_str,
    to_document,
};
use avro_validation::document::Json;
use avro_validation::AvroError;

const USER: &str = r#"{"type": "record", "name": "User", "fields": [{"name": "name", "type": "string"}, {"name": "favorite_number", "type": "int"}]}"#;

fn reason(error: AvroError) -> String {
    match error {
        AvroError::InvalidSchema(reason) => reason,
        AvroError::InvalidRecords() => panic!("expected InvalidSchema"),
    }
}

fn canonical(text: &str) -> String {
    let (_, bytes) = fingerprint_raw_schema(text).unwrap();
    String::from_utf8(bytes).unwrap()
}

#[test]
fn fingerprint_of_user_record_is_ok() {
    let schema_result = fingerprint_raw_schema(USER);
    assert!(schema_result.is_ok());
    let serialized_schema = schema_result.unwrap().1;
    assert!(!serialized_schema.is_empty());
}

#[test]
fn user_record_canonicalizes_with_two_fields_in_order() {
    let text = r#"{"type":"record","name":"User","fields":[{"name":"name","type":"string"},{"name":"favorite_number","type":"int"}]}"#;
    let (schema, bytes) = fingerprint_raw_schema(text).unwrap();
    assert_eq!(
        String::from_utf8(bytes).unwrap(),
        r#"{"name":"User","type":"record","fields":[{"name":"name","type":"string"},{"name":"favorite_number","type":"int"}]}"#
    );
    match schema {
        Schema::Record(record) => {
            assert_eq!(record.name.to_string(), "User");
            assert_eq!(record.fields.len(), 2);
            assert_eq!(record.fields[0].name, "name");
            assert_eq!(record.fields[1].name, "favorite_number");
        }
        other => panic!("expected a record, got {:?}", other),
    }
}

#[test]
fn canonical_form_drops_defaults_docs_and_aliases() {
    let text = r#"{"type":"record","name":"User","doc":"a user","aliases":["Person"],"fields":[{"name":"name","type":"string","default":"nobody","doc":"the name"},{"name":"favorite_number","type":"int","default":7,"aliases":["number"]}]}"#;
    let form = canonical(text);
    assert_eq!(
        form,
        r#"{"name":"User","type":"record","fields":[{"name":"name","type":"string"},{"name":"favorite_number","type":"int"}]}"#
    );
    assert!(!form.contains("default"));
    assert_eq!(form, canonical(USER));
}

#[test]
fn canonical_form_writes_full_names() {
    let text = r#"{"type":"record","name":"User","namespace":"a.b","fields":[{"name":"u","type":["null","User"],"default":null}]}"#;
    assert_eq!(
        canonical(text),
        r#"{"name":"a.b.User","type":"record","fields":[{"name":"u","type":["null","a.b.User"]}]}"#
    );
}

#[test]
fn canonical_form_writes_a_later_use_as_the_name_alone() {
    let text = r#"{"type":"record","name":"Pair","fields":[{"name":"left","type":{"type":"fixed","name":"Half","size":4}},{"name":"right","type":"Half"}]}"#;
    assert_eq!(
        canonical(text),
        r#"{"name":"Pair","type":"record","fields":[{"name":"left","type":{"name":"Half","type":"fixed","size":4}},{"name":"right","type":"Half"}]}"#
    );
}

#[test]
fn canonical_form_of_primitives_and_containers() {
    assert_eq!(canonical(r#""int""#), r#""int""#);
    assert_eq!(canonical(r#"{"type":"string"}"#), r#""string""#);
    assert_eq!(
        canonical(r#"{"type":"array","items":{"type":"map","values":"long"}}"#),
        r#"{"type":"array","items":{"type":"map","values":"long"}}"#
    );
    assert_eq!(
        canonical(r#"{"type":"enum","name":"Suit","symbols":["SPADES","HEARTS"],"default":"SPADES"}"#),
        r#"{"name":"Suit","type":"enum","symbols":["SPADES","HEARTS"]}"#
    );
}

#[test]
fn swapping_two_fields_changes_the_canonical_bytes() {
    let swapped = r#"{"type":"record","name":"User","fields":[{"name":"favorite_number","type":"int"},{"name":"name","type":"string"}]}"#;
    let first = fingerprint_raw_schema(USER).unwrap().1;
    let second = fingerprint_raw_schema(swapped).unwrap().1;
    assert_ne!(first, second);
    assert_eq!(
        String::from_utf8(second).unwrap(),
        r#"{"name":"User","type":"record","fields":[{"name":"favorite_number","type":"int"},{"name":"name","type":"string"}]}"#
    );
}

#[test]
fn swapping_two_union_branches_changes_the_canonical_bytes() {
    assert_eq!(canonical(r#"["null","int"]"#), r#"["null","int"]"#);
    assert_eq!(canonical(r#"["int","null"]"#), r#"["int","null"]"#);
}

#[test]
fn fingerprinting_twice_gives_the_same_bytes() {
    let first = fingerprint_raw_schema(USER).unwrap();
    let second = fingerprint_raw_schema(USER).unwrap();
    assert_eq!(first.1, second.1);
    assert_eq!(first.0, second.0);
    assert!(fingerprint_raw_schema("not json at all").is_err());
    assert!(fingerprint_raw_schema("not json at all").is_err());
}

#[test]
fn text_that_is_not_json_is_rejected() {
    let error = parse_str("not json at all").unwrap_err();
    assert!(matches!(error, AvroError::InvalidSchema(_)));
    let error = fingerprint_raw_schema("not json at all").unwrap_err();
    assert!(matches!(error, AvroError::InvalidSchema(_)));
}

#[test]
fn union_with_two_int_branches_is_rejected() {
    let error = parse_str(r#"["int","int"]"#).unwrap_err();
    assert!(matches!(error, AvroError::InvalidSchema(_)));
    assert!(fingerprint_raw_schema(r#"["int","int"]"#).is_err());
}

#[test]
fn union_of_int_and_a_named_record_is_accepted() {
    let text = r#"["int",{"type":"record","name":"R","fields":[]}]"#;
    assert!(parse_str(text).is_ok());
    assert_eq!(
        canonical(text),
        r#"["int",{"name":"R","type":"record","fields":[]}]"#
    );
}

#[test]
fn union_of_two_records_with_different_names_is_accepted() {
    let text = r#"[{"type":"record","name":"A","fields":[]},{"type":"record","name":"B","fields":[]}]"#;
    assert!(fingerprint_raw_schema(text).is_ok());
}

#[test]
fn reference_to_an_undefined_type_is_rejected() {
    let text = r#"{"type":"record","name":"A","fields":[{"name":"x","type":"Missing"}]}"#;
    assert!(matches!(parse_str(text), Err(AvroError::InvalidSchema(_))));
    assert!(matches!(fingerprint_raw_schema(text), Err(AvroError::InvalidSchema(_))));
}

#[test]
fn second_definition_of_a_name_is_rejected() {
    let text = r#"{"type":"record","name":"A","fields":[{"name":"x","type":{"type":"enum","name":"E","symbols":["a"]}},{"name":"y","type":{"type":"enum","name":"E","symbols":["b"]}}]}"#;
    assert!(Schema::parse_str(text).is_ok());
    let error = parse_str(text).unwrap_err();
    assert_eq!(error.message(), "Invalid avro schema: a name is defined twice");
    let error = fingerprint_raw_schema(text).unwrap_err();
    assert_eq!(reason(error), "a name is defined twice");
}

#[test]
fn second_definition_under_the_same_full_name_is_rejected() {
    let text = r#"{"type":"record","name":"A","namespace":"n","fields":[{"name":"x","type":{"type":"enum","name":"E","symbols":["a"]}},{"name":"y","type":{"type":"fixed","name":"n.E","size":2}}]}"#;
    assert_eq!(reason(parse_str(text).unwrap_err()), "a name is defined twice");
    let nested = r#"{"type":"record","name":"A","fields":[{"name":"x","type":{"type":"record","name":"A","fields":[]}}]}"#;
    assert_eq!(reason(parse_str(nested).unwrap_err()), "a name is defined twice");
}

#[test]
fn same_name_in_two_namespaces_is_accepted() {
    let text = r#"{"type":"record","name":"A","namespace":"ns","fields":[{"name":"x","type":{"type":"fixed","name":"F","namespace":"other","size":1}},{"name":"y","type":{"type":"fixed","name":"F","size":1}}]}"#;
    assert_eq!(
        canonical(text),
        r#"{"name":"ns.A","type":"record","fields":[{"name":"x","type":{"name":"other.F","type":"fixed","size":1}},{"name":"y","type":{"name":"ns.F","type":"fixed","size":1}}]}"#
    );
}

#[test]
fn reasons_tell_the_kinds_of_failure_apart() {
    let malformed = reason(parse_str("not json at all").unwrap_err());
    let unknown = reason(
        parse_str(r#"{"type":"record","name":"A","fields":[{"name":"x","type":"Missing"}]}"#)
            .unwrap_err(),
    );
    let twice = reason(
        parse_str(r#"[{"type":"fixed","name":"F","size":1},{"type":"record","name":"R","fields":[{"name":"x","type":{"type":"fixed","name":"F","size":2}}]}]"#)
            .unwrap_err(),
    );
    let branches = reason(parse_str(r#"["int","int"]"#).unwrap_err());
    let unreadable = reason(parse_str("42").unwrap_err());
    let all = [&malformed, &unknown, &twice, &branches, &unreadable];
    for (i, a) in all.iter().enumerate() {
        assert!(!a.is_empty());
        for b in all.iter().skip(i + 1) {
            assert_ne!(a, b);
        }
    }
}

#[test]
fn schema_without_canonical_form_is_rejected() {
    let text = r#"{"type":"array","items":"int","size":1.5}"#;
    let schema = Schema::parse_str(text).unwrap();
    assert_eq!(canonicalize(&schema), None);
    let error = fingerprint_parsed(schema).unwrap_err();
    assert_eq!(error.message(), "Invalid avro schema: canonical form is not defined on the schema");
}

#[test]
fn schemas_that_the_canonical_form_cannot_walk_have_none() {
    for text in [
        r#"{"type":"record","name":"r","fields":[{"name":"a","type":"int","order":1}]}"#,
        r#"{"type":"fixed","name":"f","size":18446744073709551615}"#,
        r#"{"type":"map","values":"long","fields":true}"#,
        r#"{"type":"map","values":"long","symbols":[1,2]}"#,
        r#"{"type":"map","values":"long","scale":"2"}"#,
    ] {
        let schema = Schema::parse_str(text).unwrap();
        assert_eq!(canonicalize(&schema), None, "{}", text);
        assert!(fingerprint_parsed(schema).is_err(), "{}", text);
    }
}

#[test]
fn text_that_the_canonical_form_cannot_read_is_rejected() {
    for text in [
        r#"{"type":"array","items":"int","size":1.5}"#,
        r#"{"type":"record","name":"r","fields":[{"name":"a","type":"int","order":1}]}"#,
        r#"{"type":"fixed","name":"f","size":18446744073709551615}"#,
        r#"{"type":"map","values":"long","fields":true}"#,
        r#"{"type":"int","precision":2.5}"#,
        r#"{"type":"record","name":"r","fields":[{"name":"a","type":{"type":"array","items":"int","size":1.5},"default":5}]}"#,
        r#"{"type":"record","name":"r","fields":[{"name":"a","type":{"type":"fixed","name":"F","size":300000000,"logicalType":"decimal","precision":4},"default":0}]}"#,
        r#"{"type":"fixed","name":"F","size":268435456}"#,
        "42",
        "null",
        "true",
        r#"["int",7]"#,
    ] {
        assert!(!is_readable(text), "{}", text);
        assert_eq!(
            reason(parse_str(text).unwrap_err()),
            "the text cannot be read as a schema",
            "{}",
            text
        );
        let error = fingerprint_raw_schema(text).unwrap_err();
        assert_eq!(
            error.message(),
            "Invalid avro schema: the text cannot be read as a schema",
            "{}",
            text
        );
    }
}

#[test]
fn text_that_is_no_json_or_that_the_canonical_form_can_read_goes_to_the_parser() {
    for text in [
        USER,
        "not json at all",
        "",
        r#""int""#,
        r#"["int","int"]"#,
        r#"{"no":"type"}"#,
        r#"{"type":"fixed","name":"f","size":4,"weight":1.5,"default":null}"#,
        r#"{"type":"record","name":"r","fields":[{"name":"a","type":"int","default":5}]}"#,
        r#"{"type":"fixed","name":"F","size":268435455}"#,
        r#"{"type":"bytes","logicalType":"decimal","precision":300000000,"scale":300000000}"#,
    ] {
        assert!(is_readable(text), "{}", text);
    }
}

#[test]
fn attributes_that_the_canonical_form_drops_do_no_harm() {
    let text = r#"{"type":"record","name":"User","extra":{"a":1,"b":[true,null]},"weight":2.5,"fields":[{"name":"name","type":"string","hint":null},{"name":"favorite_number","type":"int","default":3}]}"#;
    assert_eq!(canonical(text), canonical(USER));
}

#[test]
fn field_order_attribute_is_kept_where_it_is_text() {
    let text = r#"{"type":"record","name":"User","fields":[{"name":"name","type":"string","order":"descending"}]}"#;
    assert_eq!(
        canonical(text),
        r#"{"name":"User","type":"record","fields":[{"name":"name","type":"string","order":"descending"}]}"#
    );
}

#[test]
fn canonicalize_writes_the_null_schema() {
    assert_eq!(canonicalize(&Schema::Null), Some(b"\"null\"".to_vec()));
    assert_eq!(canonicalize(&Schema::Long), Some(b"\"long\"".to_vec()));
}

#[test]
fn parse_reads_the_null_schema_from_its_text() {
    assert_eq!(parse_str("\"null\"").unwrap(), Schema::Null);
    assert_eq!(parse_str(r#"{"type":"null"}"#).unwrap(), Schema::Null);
    assert_ne!(parse_str("\"int\"").unwrap(), Schema::Null);
}

#[test]
fn parse_keeps_what_the_canonical_form_drops() {
    let text = r#"{"type":"record","name":"User","doc":"a user","fields":[{"name":"name","type":"string","default":"nobody"}]}"#;
    match parse_str(text).unwrap() {
        Schema::Record(record) => {
            assert_eq!(record.doc, Some("a user".to_string()));
            assert_eq!(
                record.fields[0].default,
                Some(serde_json::Value::String("nobody".to_string()))
            );
        }
        other => panic!("expected a record, got {:?}", other),
    }
}

#[test]
fn fingerprint_parsed_hands_the_schema_back() {
    let schema = Schema::parse_str(USER).unwrap();
    let (same, bytes) = fingerprint_parsed(schema.clone()).unwrap();
    assert_eq!(same, schema);
    assert_eq!(bytes, schema.canonical_form().into_bytes());
}

#[test]
fn canonical_bytes_are_the_utf8_bytes_of_the_canonical_form() {
    for text in [USER, r#"["null","long"]"#, r#"{"type":"fixed","name":"n.F","size":16}"#] {
        let (schema, bytes) = fingerprint_raw_schema(text).unwrap();
        assert_eq!(bytes, schema.canonical_form().as_bytes().to_vec());
    }
}

#[test]
fn largest_fixed_type_that_the_parser_can_be_given() {
    let text = r#"{"type":"record","name":"r","fields":[{"name":"a","type":{"type":"fixed","name":"F","size":268435455,"logicalType":"decimal","precision":4},"default":0}]}"#;
    assert!(is_readable(text));
    assert!(matches!(parse_str(text), Err(AvroError::InvalidSchema(_))));
    let plain = r#"{"type":"fixed","name":"F","size":268435455}"#;
    assert_eq!(canonical(plain), r#"{"name":"F","type":"fixed","size":268435455}"#);
}

#[test]
fn reason_begins_with_the_label_of_the_kind_of_failure() {
    let begins = |text: &str, label: &str| {
        let parsed = reason(parse_str(text).unwrap_err());
        assert!(parsed.starts_with(label), "{}: {}", text, parsed);
        assert!(parsed.len() > label.len(), "{}: {}", text, parsed);
        let fingerprinted = reason(fingerprint_raw_schema(text).unwrap_err());
        assert_eq!(parsed, fingerprinted);
    };
    begins("not json at all", "malformed syntax: ");
    begins("", "malformed syntax: ");
    begins("{\"type\":", "malformed syntax: ");
    begins(r#"{"type":"record","name":"A","fields":[{"name":"x","type":"Missing"}]}"#, "unknown type: ");
    begins(r#""Missing""#, "unknown type: ");
    begins(r#"{"type":"record","name":"A","fields":[{"name":"x","type":"bool"}]}"#, "unknown type: ");
    begins(r#"["int","int"]"#, "duplicate union branch: ");
    begins(r#"[{"type":"fixed","name":"f","size":4},{"type":"fixed","name":"f","size":4}]"#, "duplicate union branch: ");
    begins(r#"{"type":"record","name":"A","fields":[{"name":"x","type":"int"},{"name":"x","type":"int"}]}"#, "rejected by the parser: ");
    begins(r#"{"no":"type"}"#, "rejected by the parser: ");
    begins(r#"{"type":"record","name":"1A","fields":[]}"#, "rejected by the parser: ");
}

#[test]
fn reason_hands_on_what_the_parser_says() {
    assert_eq!(
        reason(parse_str(r#"["int","int"]"#).unwrap_err()),
        "duplicate union branch: Unions cannot contain duplicate types, found at least two Int"
    );
    assert_eq!(
        reason(parse_str("not json at all").unwrap_err()),
        "malformed syntax: Failed to parse schema from JSON"
    );
    assert_eq!(
        reason(parse_str(r#""Missing""#).unwrap_err()),
        "unknown type: Unknown primitive type: Missing"
    );
}

#[test]
fn parsing_rejects_a_schema_without_canonical_form() {
    let schema = Schema::parse_str(r#"{"type":"array","items":"int","size":1.5}"#).unwrap();
    assert_eq!(
        reason(check_schema(schema).unwrap_err()),
        "canonical form is not defined on the schema"
    );
}

#[test]
fn fingerprinting_fails_exactly_where_parsing_fails() {
    for text in [
        USER,
        "not json at all",
        r#"["int","int"]"#,
        r#""long""#,
        r#"{"type":"array","items":"int","size":1.5}"#,
        r#"{"type":"record","name":"A","fields":[{"name":"x","type":{"type":"record","name":"A","fields":[]}}]}"#,
        r#"{"type":"fixed","name":"F","size":268435456}"#,
    ] {
        match (parse_str(text), fingerprint_raw_schema(text)) {
            (Ok(schema), Ok((same, bytes))) => {
                assert_eq!(schema, same);
                assert_eq!(canonicalize(&schema), Some(bytes));
            }
            (Err(first), Err(second)) => assert_eq!(first.message(), second.message()),
            _ => panic!("parsing and fingerprinting disagree on {}", text),
        }
    }
}

#[test]
fn check_schema_accepts_and_rejects() {
    let good = Schema::parse_str(USER).unwrap();
    assert_eq!(check_schema(good.clone()).unwrap(), good);
    let twice = Schema::parse_str(
        r#"{"type":"record","name":"A","fields":[{"name":"x","type":{"type":"fixed","name":"F","size":1}},{"name":"y","type":{"type":"fixed","name":"F","size":2}}]}"#,
    )
    .unwrap();
    assert_eq!(reason(check_schema(twice).unwrap_err()), "a name is defined twice");
}

#[test]
fn document_of_a_schema_is_its_json() {
    assert_eq!(to_document(&Schema::Int), Some(Json::Text("int".to_string())));
    let fixed = Schema::parse_str(r#"{"type":"fixed","name":"F","namespace":"n","size":4}"#).unwrap();
    assert_eq!(
        to_document(&fixed),
        Some(Json::Object(vec![
            ("name".to_string(), Json::Text("F".to_string())),
            ("namespace".to_string(), Json::Text("n".to_string())),
            ("size".to_string(), Json::Number(Some(4))),
            ("type".to_string(), Json::Text("fixed".to_string())),
        ]))
    );
    let union = Schema::parse_str(r#"["null","boolean"]"#).unwrap();
    assert_eq!(
        to_document(&union),
        Some(Json::List(vec![
            Json::Text("null".to_string()),
            Json::Text("boolean".to_string()),
        ]))
    );
}

#[test]
fn document_keeps_numbers_that_are_no_integers_without_a_value() {
    let schema = Schema::parse_str(r#"{"type":"array","items":"int","weight":1.5,"on":true,"off":null}"#).unwrap();
    assert_eq!(
        to_document(&schema),
        Some(Json::Object(vec![
            ("items".to_string(), Json::Text("int".to_string())),
            ("off".to_string(), Json::Null),
            ("on".to_string(), Json::Bool(true)),
            ("type".to_string(), Json::Text("array".to_string())),
            ("weight".to_string(), Json::Number(None)),
        ]))
    );
}

#[test]
fn default_that_does_not_fit_its_field_is_rejected() {
    for text in [
        r#"{"type":"record","name":"r","fields":[{"name":"a","type":"int","default":"five"}]}"#,
        r#"{"type":"record","name":"r","fields":[{"name":"a","type":{"type":"array","items":"int","size":3},"default":5}]}"#,
        r#"{"type":"record","name":"r","fields":[{"name":"a","type":{"type":"array","items":"int","order":"x","symbols":["a"],"values":{"k":1}},"default":5}]}"#,
        r#"{"type":"record","name":"r","fields":[{"name":"f","type":{"type":"fixed","name":"F","size":2}},{"name":"a","type":{"type":"map","values":"F"},"default":5}]}"#,
        r#"{"type":"record","name":"r","namespace":"n","fields":[{"name":"e","type":{"type":"enum","name":"E","symbols":["A"]}},{"name":"a","type":"E","default":5}]}"#,
        r#"{"type":"record","name":"r","fields":[{"name":"a","type":{"type":"bytes","logicalType":"decimal","precision":4,"scale":2},"default":5}]}"#,
        r#"{"type":"record","name":"r","fields":[{"name":"a","type":{"type":"record","name":"inner","fields":[{"name":"x","type":"long"}]},"default":{"x":"no"}}]}"#,
        r#"{"type":"record","name":"r","fields":[{"name":"a","type":["null","int"],"default":"five"}]}"#,
    ] {
        assert!(is_readable(text), "{}", text);
        assert!(matches!(parse_str(text), Err(AvroError::InvalidSchema(_))), "{}", text);
        assert!(fingerprint_raw_schema(text).is_err(), "{}", text);
    }
}
