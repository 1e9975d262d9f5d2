use kv_put::errors::PutError;
use kv_put::metadata::parse_metadata;

#[test]
fn metadata_parser_legal() {
    for input in vec![
        "true",
        "false",
        "123.456",
        "\"some string\"",
        "[1, 2]",
        "{\"key\": \"value\"}",
    ] {
        assert!(parse_metadata(Some(input)).is_ok());
    }
}

#[test]
fn metadata_parser_illegal() {
    for input in vec!["something", "{key: 123}", "[1, 2"] {
        assert!(parse_metadata(Some(input)).is_err());
    }
}

#[test]
fn metadata_parser_error_message_unquoted_string_error_message() -> Result<(), &'static str> {
    for input in vec!["abc", "'abc'", "'abc", "abc'", "\"abc", "abc\""] {
        match parse_metadata(Some(input)) {
            Ok(_) => return Err("illegal value was parsed successfully"),
            Err(e) => {
                let expected_message = format!(
                    "did you remember to double quote strings, like --metadata '\"{}\"'",
                    input
                );
                assert_eq!(expected_message, e.message());
            }
        }
    }
    Ok(())
}

#[test]
fn metadata_parser_none_is_no_metadata() {
    match parse_metadata(None) {
        Ok(v) => assert!(v.is_none()),
        Err(_) => panic!("no metadata argument must succeed"),
    }
}

#[test]
fn metadata_parser_returns_parsed_value() {
    let text = "{\"key\": \"value\"}";
    let parsed = parse_metadata(Some(text)).unwrap().unwrap();
    let direct: serde_json::Value = serde_json::from_str(text).unwrap();
    assert_eq!(parsed, direct);
}

#[test]
fn metadata_parser_raw_diagnostic_passes_parser_text_through() {
    match parse_metadata(Some("{key: 123}")) {
        Err(PutError::MetadataRaw(m)) => {
            let expected = serde_json::from_str::<serde_json::Value>("{key: 123}")
                .unwrap_err()
                .to_string();
            assert_eq!(m, expected);
        }
        _ => panic!("expected the raw parser diagnostic"),
    }
}

#[test]
fn metadata_parser_hint_variant_for_unquoted_input() {
    assert!(matches!(
        parse_metadata(Some("something")),
        Err(PutError::MetadataHint(_))
    ));
}
