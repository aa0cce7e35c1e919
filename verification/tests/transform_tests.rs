use profile_transform::json::{JsonObj, JsonVal};
use profile_transform::record::{decode_record, TransformError};
use profile_transform::transform::{process_message, process_payload};

/// Converts a parsed document value into the library's value model.
fn to_json_val(v: &serde_json::Value) -> JsonVal<String> {
    match v {
        serde_json::Value::Null => JsonVal::Null,
        serde_json::Value::Bool(b) => JsonVal::Bool(*b),
        serde_json::Value::Number(n) => {
            if let Some(u) = n.as_u64() {
                JsonVal::UInt(u)
            } else if let Some(i) = n.as_i64() {
                JsonVal::NegInt(i)
            } else {
                JsonVal::Float
            }
        }
        serde_json::Value::String(s) => JsonVal::Str(s.clone()),
        _ => JsonVal::Composite,
    }
}

fn to_obj(text: &str) -> JsonObj {
    let v: serde_json::Value = serde_json::from_str(text).expect("test input must parse");
    let mut entries: Vec<(String, JsonVal<String>)> = Vec::new();
    if let serde_json::Value::Object(map) = &v {
        for (k, val) in map {
            entries.push((k.clone(), to_json_val(val)));
        }
    }
    JsonObj { entries }
}

const FULL_INPUT: &str = r#"{
    "android_api_level": null,
    "architecture": "aarch64",
    "device_classification": "high",
    "device_locale": "fr_FR",
    "device_manufacturer": "Pierre",
    "device_model": "ThePierrePhone",
    "device_os_build_number": "13",
    "device_os_name": "PierreOS",
    "device_os_version": "47",
    "duration_ns": 50000000000,
    "environment": "production",
    "organization_id": 1,
    "platform": "python",
    "profile_id": "a6cd859435584c3391412390168dcb93",
    "project_id": 1,
    "received": 1694357860,
    "retention_days": 30,
    "trace_id": "40300eb2e77c46908de27f4603befa45",
    "transaction_id": "b716a5ee27db49dcbb534dcca61a9df8",
    "transaction_name": "lets-get-ready-to-party",
    "version_code": "1337",
    "version_name": "v42.0.0"
}"#;

/// Drops the named top-level fields from the full input.
fn input_without_all(fields: &[&str]) -> String {
    let mut v: serde_json::Value = serde_json::from_str(FULL_INPUT).unwrap();
    for field in fields {
        v.as_object_mut().unwrap().remove(*field);
    }
    v.to_string()
}

/// Drops the named top-level field from the full input.
fn input_without(field: &str) -> String {
    input_without_all(&[field])
}

/// Replaces the named top-level field of the full input.
fn input_with(field: &str, value: serde_json::Value) -> String {
    let mut v: serde_json::Value = serde_json::from_str(FULL_INPUT).unwrap();
    v.as_object_mut().unwrap().insert(field.to_string(), value);
    v.to_string()
}

fn row_of(batch: &profile_transform::transform::InsertBatch) -> serde_json::Value {
    assert_eq!(batch.rows.len(), 1);
    serde_json::from_str(&batch.rows[0]).expect("the encoded row must be well-formed")
}

#[test]
fn test_profile() {
    let obj = to_obj(FULL_INPUT);
    let value = decode_record(&obj).expect("The message should be processed");
    process_message(value, 0, 1).expect("The message should be processed");
}

#[test]
fn classification_absent_defaults_to_empty() {
    let input = input_without_all(&["device_classification", "android_api_level"]);
    let batch = process_payload(&to_obj(&input), 3, 1024).expect("valid input must process");
    let row = row_of(&batch);
    assert_eq!(row["device_classification"], serde_json::Value::String(String::new()));
    assert_eq!(row["offset"], serde_json::Value::from(1024u64));
    assert_eq!(row["partition"], serde_json::Value::from(3u64));
    assert!(row["android_api_level"].is_null());
}

#[test]
fn classification_empty_stays_empty() {
    let input = input_with("device_classification", serde_json::Value::String(String::new()));
    let batch = process_payload(&to_obj(&input), 3, 1024).expect("valid input must process");
    let row = row_of(&batch);
    assert_eq!(row["device_classification"], serde_json::Value::String(String::new()));
}

#[test]
fn classification_set_is_kept() {
    let without = input_without("android_api_level");
    let input = input_with_both(
        &without,
        "device_classification",
        serde_json::Value::String("high".to_string()),
    );
    let batch = process_payload(&to_obj(&input), 3, 1024).expect("valid input must process");
    let row = row_of(&batch);
    assert_eq!(row["device_classification"], serde_json::Value::String("high".to_string()));
    assert_eq!(row["offset"], serde_json::Value::from(1024u64));
    assert_eq!(row["partition"], serde_json::Value::from(3u64));
}

#[test]
fn position_overwrites_incoming_values() {
    let with_offset = input_with("offset", serde_json::Value::from(999u64));
    let input = input_with_both(&with_offset, "partition", serde_json::Value::from(77u64));
    let batch = process_payload(&to_obj(&input), 5, 4242).expect("valid input must process");
    let row = row_of(&batch);
    assert_eq!(row["offset"], serde_json::Value::from(4242u64));
    assert_eq!(row["partition"], serde_json::Value::from(5u64));
}

fn input_with_both(input: &str, field: &str, value: serde_json::Value) -> String {
    let mut v: serde_json::Value = serde_json::from_str(input).unwrap();
    v.as_object_mut().unwrap().insert(field.to_string(), value);
    v.to_string()
}

#[test]
fn missing_transaction_name_is_schema_violation() {
    let input = input_without("transaction_name");
    let err = decode_record(&to_obj(&input)).unwrap_err();
    assert_eq!(
        err,
        TransformError::SchemaViolation("transaction_name".to_string())
    );
}

#[test]
fn missing_required_field_is_schema_violation() {
    for field in [
        "device_locale",
        "device_manufacturer",
        "device_model",
        "device_os_name",
        "device_os_version",
        "duration_ns",
        "organization_id",
        "platform",
        "profile_id",
        "project_id",
        "received",
        "retention_days",
        "trace_id",
        "transaction_id",
        "transaction_name",
        "version_code",
        "version_name",
    ] {
        let input = input_without(field);
        let err = decode_record(&to_obj(&input)).unwrap_err();
        assert_eq!(err, TransformError::SchemaViolation(field.to_string()));
    }
}

#[test]
fn non_uuid_text_is_schema_violation() {
    let input = input_with(
        "profile_id",
        serde_json::Value::String("not-a-uuid".to_string()),
    );
    let err = decode_record(&to_obj(&input)).unwrap_err();
    assert_eq!(err, TransformError::SchemaViolation("profile_id".to_string()));
}

#[test]
fn negative_unsigned_is_schema_violation() {
    let input = input_with("duration_ns", serde_json::Value::from(-1i64));
    let err = decode_record(&to_obj(&input)).unwrap_err();
    assert_eq!(err, TransformError::SchemaViolation("duration_ns".to_string()));
}

#[test]
fn mistyped_required_field_is_schema_violation() {
    let input = input_with("platform", serde_json::Value::from(12u64));
    let err = decode_record(&to_obj(&input)).unwrap_err();
    assert_eq!(err, TransformError::SchemaViolation("platform".to_string()));
}

#[test]
fn mistyped_optional_field_is_schema_violation() {
    let input = input_with("environment", serde_json::Value::from(false));
    let err = decode_record(&to_obj(&input)).unwrap_err();
    assert_eq!(err, TransformError::SchemaViolation("environment".to_string()));
}

#[test]
fn uuid_text_is_canonicalized_in_the_row() {
    let batch = process_payload(&to_obj(FULL_INPUT), 0, 0).expect("valid input must process");
    let row = row_of(&batch);
    assert_eq!(
        row["profile_id"],
        serde_json::Value::String("a6cd8594-3558-4c33-9141-2390168dcb93".to_string())
    );
    assert_eq!(
        row["trace_id"],
        serde_json::Value::String("40300eb2-e77c-4690-8de2-7f4603befa45".to_string())
    );
}

#[test]
fn batch_holds_one_row_and_no_timestamps() {
    let batch = process_payload(&to_obj(FULL_INPUT), 2, 7).expect("valid input must process");
    assert_eq!(batch.rows.len(), 1);
    assert!(batch.origin_timestamp.is_none());
    assert!(batch.sentry_received_timestamp.is_none());
}

#[test]
fn row_carries_every_field_value() {
    let batch = process_payload(&to_obj(FULL_INPUT), 3, 1024).expect("valid input must process");
    let row = row_of(&batch);
    assert!(row["android_api_level"].is_null());
    assert_eq!(row["architecture"], serde_json::Value::String("aarch64".to_string()));
    assert_eq!(row["device_locale"], serde_json::Value::String("fr_FR".to_string()));
    assert_eq!(row["device_manufacturer"], serde_json::Value::String("Pierre".to_string()));
    assert_eq!(row["device_model"], serde_json::Value::String("ThePierrePhone".to_string()));
    assert_eq!(row["device_os_build_number"], serde_json::Value::String("13".to_string()));
    assert_eq!(row["device_os_name"], serde_json::Value::String("PierreOS".to_string()));
    assert_eq!(row["device_os_version"], serde_json::Value::String("47".to_string()));
    assert_eq!(row["duration_ns"], serde_json::Value::from(50000000000u64));
    assert_eq!(row["environment"], serde_json::Value::String("production".to_string()));
    assert_eq!(row["organization_id"], serde_json::Value::from(1u64));
    assert_eq!(row["platform"], serde_json::Value::String("python".to_string()));
    assert_eq!(row["project_id"], serde_json::Value::from(1u64));
    assert_eq!(row["received"], serde_json::Value::from(1694357860i64));
    assert_eq!(row["retention_days"], serde_json::Value::from(30u64));
    assert_eq!(
        row["transaction_name"],
        serde_json::Value::String("lets-get-ready-to-party".to_string())
    );
    assert_eq!(row["version_code"], serde_json::Value::String("1337".to_string()));
    assert_eq!(row["version_name"], serde_json::Value::String("v42.0.0".to_string()));
}

#[test]
fn encoder_writes_exact_text() {
    let obj = JsonObj {
        entries: vec![
            ("a".to_string(), JsonVal::UInt(7)),
            ("b".to_string(), JsonVal::Str("x\"y\\z".to_string())),
            ("c".to_string(), JsonVal::NegInt(-12)),
            ("d".to_string(), JsonVal::Null),
            ("e".to_string(), JsonVal::Bool(true)),
            ("f".to_string(), JsonVal::Str("\u{1}".to_string())),
        ],
    };
    let text = profile_transform::encode::encode_object(&obj);
    assert_eq!(
        text,
        "{\"a\":7,\"b\":\"x\\\"y\\\\z\",\"c\":-12,\"d\":null,\"e\":true,\"f\":\"\\u0001\"}"
    );
}

#[test]
fn negative_received_round_trips() {
    let input = input_with("received", serde_json::Value::from(-1694357860i64));
    let batch = process_payload(&to_obj(&input), 0, 0).expect("valid input must process");
    let row = row_of(&batch);
    assert_eq!(row["received"], serde_json::Value::from(-1694357860i64));
}

#[test]
fn string_escaping_round_trips() {
    let tricky = "a \"quoted\" name \\ with\nnewline and\ttab \u{1}";
    let input = input_with(
        "transaction_name",
        serde_json::Value::String(tricky.to_string()),
    );
    let batch = process_payload(&to_obj(&input), 0, 0).expect("valid input must process");
    let row = row_of(&batch);
    assert_eq!(row["transaction_name"], serde_json::Value::String(tricky.to_string()));
}

#[test]
fn row_decodes_back_to_the_enriched_record() {
    let record = decode_record(&to_obj(FULL_INPUT)).expect("valid input must decode");
    let mut expected = record.clone();
    let batch = process_message(record, 3, 1024).expect("valid input must process");
    expected.offset = 1024;
    expected.partition = 3;
    let reparsed = to_obj(&batch.rows[0]);
    let decoded_again = decode_record(&reparsed).expect("the row must decode");
    assert_eq!(decoded_again, expected);
}

#[test]
fn row_with_defaulted_classification_decodes_back() {
    let input = input_without("device_classification");
    let record = decode_record(&to_obj(&input)).expect("valid input must decode");
    let mut expected = record.clone();
    let batch = process_message(record, 9, 77).expect("valid input must process");
    expected.device_classification = Some(String::new());
    expected.offset = 77;
    expected.partition = 9;
    let reparsed = to_obj(&batch.rows[0]);
    let decoded_again = decode_record(&reparsed).expect("the row must decode");
    assert_eq!(decoded_again, expected);
}

#[test]
fn ignores_unknown_fields() {
    let input = input_with("some_future_field", serde_json::Value::from(123u64));
    let batch = process_payload(&to_obj(&input), 0, 0).expect("unknown fields are ignored");
    let row = row_of(&batch);
    assert!(row.get("some_future_field").is_none());
}

#[test]
fn widths_are_enforced() {
    let too_wide = input_with("retention_days", serde_json::Value::from(u64::from(u32::MAX) + 1));
    let err = decode_record(&to_obj(&too_wide)).unwrap_err();
    assert_eq!(err, TransformError::SchemaViolation("retention_days".to_string()));

    let too_wide = input_with("partition", serde_json::Value::from(u64::from(u16::MAX) + 1));
    let err = decode_record(&to_obj(&too_wide)).unwrap_err();
    assert_eq!(err, TransformError::SchemaViolation("partition".to_string()));

    let too_wide = input_with("received", serde_json::Value::from(i64::MAX as u64 + 1));
    let err = decode_record(&to_obj(&too_wide)).unwrap_err();
    assert_eq!(err, TransformError::SchemaViolation("received".to_string()));
}

#[test]
fn largest_duration_round_trips() {
    let input = input_with("duration_ns", serde_json::Value::from(u64::MAX));
    let batch = process_payload(&to_obj(&input), 0, u64::MAX).expect("valid input must process");
    let row = row_of(&batch);
    assert_eq!(row["duration_ns"], serde_json::Value::from(u64::MAX));
    assert_eq!(row["offset"], serde_json::Value::from(u64::MAX));
}
