use jtd_validate::engine::handle_instance;
use jtd_validate::engine::ingest_schema;
use jtd_validate::engine::validate_instance;
use jtd_validate::options::ValidationOptions;
use jtd_validate::options::resolve_options;
use jtd_validate::outcome::Fatal;
use jtd_validate::outcome::RunState;

fn value(text: &str) -> serde_json::Value {
    serde_json::from_str(text).unwrap()
}

fn unbounded() -> ValidationOptions {
    ValidationOptions { max_depth: 0, max_errors: 0, quiet: false }
}

#[test]
fn string_schema_accepts_strings_rejects_numbers() {
    // Schema {"type":"string"} against the stream "abc" 123 "def": the
    // second instance alone fails, with one indicator, and the run exits 1.
    let schema = ingest_schema(b"{\"type\":\"string\"}").unwrap();
    let opts = unbounded();
    let mut run = RunState::new();

    let r1 = handle_instance(&schema, &value("\"abc\""), &opts).unwrap();
    assert!(!r1.failed);
    assert!(r1.lines.is_empty());
    run.record(r1.failed);

    let r2 = handle_instance(&schema, &value("123"), &opts).unwrap();
    assert!(r2.failed);
    assert_eq!(r2.lines.len(), 1);
    assert_eq!(r2.lines[0], "{\"instancePath\":\"\",\"schemaPath\":\"/type\"}");
    run.record(r2.failed);

    let r3 = handle_instance(&schema, &value("\"def\""), &opts).unwrap();
    assert!(!r3.failed);
    run.record(r3.failed);

    assert_eq!(run.exit_code(), 1);
}

#[test]
fn max_errors_one_truncates_to_a_single_indicator() {
    // An instance that violates the schema in three independent ways.
    let schema = ingest_schema(
        b"{\"properties\":{\"a\":{\"type\":\"string\"},\"b\":{\"type\":\"string\"},\"c\":{\"type\":\"string\"}}}",
    )
    .unwrap();
    let instance = value("{}");

    let all = validate_instance(&schema, &instance, &unbounded()).unwrap();
    assert_eq!(all.len(), 3);

    let opts = ValidationOptions { max_depth: 0, max_errors: 1, quiet: false };
    let r = handle_instance(&schema, &instance, &opts).unwrap();
    assert!(r.failed);
    assert_eq!(r.lines.len(), 1);
}

#[test]
fn quiet_mode_collects_at_most_one_error_and_prints_nothing() {
    let schema = ingest_schema(
        b"{\"properties\":{\"a\":{\"type\":\"string\"},\"b\":{\"type\":\"string\"}}}",
    )
    .unwrap();
    let opts = resolve_options(None, None, true).unwrap();
    assert_eq!(opts.max_errors, 1);

    let errs = validate_instance(&schema, &value("{}"), &opts).unwrap();
    assert_eq!(errs.len(), 1);

    let r = handle_instance(&schema, &value("{}"), &opts).unwrap();
    assert!(r.failed);
    assert!(r.lines.is_empty());

    let mut run = RunState::new();
    run.record(r.failed);
    assert_eq!(run.exit_code(), 1);
}

#[test]
fn recursive_refs_beyond_the_depth_bound_are_fatal() {
    let schema = ingest_schema(
        b"{\"definitions\":{\"loop\":{\"ref\":\"loop\"}},\"ref\":\"loop\"}",
    )
    .unwrap();
    let opts = ValidationOptions { max_depth: 2, max_errors: 0, quiet: false };
    let f = handle_instance(&schema, &value("null"), &opts).unwrap_err();
    assert_eq!(f.kind, Fatal::MaxDepthExceeded);
    assert_eq!(f.detail, "max depth exceeded");
}

#[test]
fn deep_enough_bound_lets_refs_resolve() {
    let schema = ingest_schema(
        b"{\"definitions\":{\"s\":{\"type\":\"string\"}},\"ref\":\"s\"}",
    )
    .unwrap();
    let opts = ValidationOptions { max_depth: 32, max_errors: 0, quiet: false };
    let r = handle_instance(&schema, &value("\"ok\""), &opts).unwrap();
    assert!(!r.failed);
    let r = handle_instance(&schema, &value("4"), &opts).unwrap();
    assert!(r.failed);
    assert_eq!(
        r.lines[0],
        "{\"instancePath\":\"\",\"schemaPath\":\"/definitions/s/type\"}"
    );
}

#[test]
fn schema_with_undefined_ref_is_rejected_before_instances() {
    let f = ingest_schema(b"{\"ref\":\"nope\"}").unwrap_err();
    assert_eq!(f.kind, Fatal::SchemaInvalid);
    assert_eq!(f.detail, "no such definition: \"nope\"");
}

#[test]
fn schema_that_is_not_json_is_rejected() {
    let f = ingest_schema(b"{\"type\":").unwrap_err();
    assert_eq!(f.kind, Fatal::SchemaJson);
    assert!(!f.detail.is_empty());
}

#[test]
fn schema_with_unknown_type_keyword_is_rejected() {
    let f = ingest_schema(b"{\"type\":\"uint64\"}").unwrap_err();
    assert_eq!(f.kind, Fatal::SchemaMalformed);
    assert_eq!(f.detail, "invalid type: \"uint64\"");
}

#[test]
fn same_input_twice_yields_identical_output() {
    let schema = ingest_schema(b"{\"elements\":{\"type\":\"uint8\"}}").unwrap();
    let instance = value("[\"a\",7,\"b\"]");
    let opts = unbounded();

    let r1 = handle_instance(&schema, &instance, &opts).unwrap();
    let r2 = handle_instance(&schema, &instance, &opts).unwrap();
    assert_eq!(r1.failed, r2.failed);
    assert_eq!(r1.lines, r2.lines);

    // And across a second ingestion of the same schema bytes.
    let schema2 = ingest_schema(b"{\"elements\":{\"type\":\"uint8\"}}").unwrap();
    let r3 = handle_instance(&schema2, &instance, &opts).unwrap();
    assert_eq!(r1.lines, r3.lines);
}

#[test]
fn nullable_and_empty_schemas_accept() {
    let schema = ingest_schema(b"{}").unwrap();
    let r = handle_instance(&schema, &value("[1,2,3]"), &unbounded()).unwrap();
    assert!(!r.failed);
}
