use coclai::json::{JsonNumber, JsonValue};
use coclai::schema::{
    render_manifest, render_manifest_entries, validate_metadata_fields, validate_schema_manifest, ManifestFile,
    ManifestMismatch, MetadataValidationError,
};
use sha2::Digest;

fn to_json(v: serde_json::Value) -> JsonValue {
    match v {
        serde_json::Value::Null => JsonValue::Null,
        serde_json::Value::Bool(b) => JsonValue::Bool(b),
        serde_json::Value::Number(n) => {
            if let Some(u) = n.as_u64() {
                JsonValue::Number(JsonNumber::PosInt(u))
            } else if let Some(i) = n.as_i64() {
                JsonValue::Number(JsonNumber::NegInt(i))
            } else {
                JsonValue::Number(JsonNumber::Float(n.to_string()))
            }
        }
        serde_json::Value::String(s) => JsonValue::String(s),
        serde_json::Value::Array(items) => JsonValue::Array(items.into_iter().map(to_json).collect()),
        serde_json::Value::Object(map) => {
            JsonValue::Object(map.into_iter().map(|(k, v)| (k, to_json(v))).collect())
        }
    }
}

fn parse(text: &str) -> JsonValue {
    to_json(serde_json::from_str(text).expect("valid JSON"))
}

#[test]
fn validate_metadata_ok() {
    let metadata = r#"{
  "schemaName":"app-server",
  "generatedAtUtc":"2026-01-01T00:00:00Z",
  "generatorCommand":"codex app-server generate-json-schema --out <DIR>",
  "sourceOfTruth":"active/json-schema"
}"#;

    let fields = validate_metadata_fields(&parse(metadata)).expect("metadata should parse");
    assert_eq!(fields.schema_name, "app-server");
    assert_eq!(fields.source_of_truth, "active/json-schema");
}

#[test]
fn validate_metadata_missing_field() {
    let metadata = r#"{"schemaName":"app-server"}"#;
    let err = validate_metadata_fields(&parse(metadata)).expect_err("metadata should fail");
    assert_eq!(err, MetadataValidationError::MissingField("generatedAtUtc"));
}

#[test]
fn validate_metadata_empty_field() {
    let metadata = r#"{
  "schemaName":"app-server",
  "generatedAtUtc":" ",
  "generatorCommand":"x",
  "sourceOfTruth":"y"
}"#;
    let err = validate_metadata_fields(&parse(metadata)).expect_err("metadata should fail");
    assert_eq!(err, MetadataValidationError::EmptyField("generatedAtUtc"));
}

#[test]
fn metadata_field_of_wrong_type_counts_as_missing() {
    let err = validate_metadata_fields(&parse(r#"{"schemaName":7}"#)).expect_err("must fail");
    assert_eq!(err, MetadataValidationError::MissingField("schemaName"));
}

#[test]
fn validate_manifest_ok() {
    let files = vec![ManifestFile {
        relative_path: "./schema.json".to_owned(),
        bytes: br#"{"type":"object"}"#.to_vec(),
    }];

    let mut hasher = sha2::Sha256::new();
    hasher.update(br#"{"type":"object"}"#);
    let expected = format!("{}  ./schema.json", hex::encode(hasher.finalize()));

    assert_eq!(validate_schema_manifest(&expected, &files), Ok(()));
}

#[test]
fn validate_manifest_err() {
    let files = vec![ManifestFile {
        relative_path: "./schema.json".to_owned(),
        bytes: b"{}".to_vec(),
    }];

    assert_eq!(
        validate_schema_manifest("deadbeef  ./schema.json", &files),
        Err(ManifestMismatch::Mismatch)
    );
}

#[test]
fn manifest_lines_are_sorted_by_path_and_tolerate_crlf() {
    let files = vec![
        ManifestFile { relative_path: "./b.json".to_owned(), bytes: b"b".to_vec() },
        ManifestFile { relative_path: "./a.json".to_owned(), bytes: b"a".to_vec() },
    ];
    let ha = hex::encode(sha2::Sha256::digest(b"a"));
    let hb = hex::encode(sha2::Sha256::digest(b"b"));
    let rendered = render_manifest(&files);
    assert_eq!(rendered, format!("{ha}  ./a.json\n{hb}  ./b.json"));
    let crlf = format!("\r\n{ha}  ./a.json\r\n{hb}  ./b.json\r\n");
    assert_eq!(validate_schema_manifest(&crlf, &files), Ok(()));
}

#[test]
fn manifest_entries_render_sorted_lines() {
    let entries = vec![
        ("./z.json".to_owned(), "d2".to_owned()),
        ("./a.json".to_owned(), "d1".to_owned()),
        ("./a.json".to_owned(), "d0".to_owned()),
    ];
    assert_eq!(render_manifest_entries(&entries), "d1  ./a.json\nd0  ./a.json\nd2  ./z.json");
    assert_eq!(render_manifest_entries(&vec![]), "");
}
