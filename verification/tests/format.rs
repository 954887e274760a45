use jtd_validate::options::LimitFlag;
use jtd_validate::options::ValidationOptions;
use jtd_validate::options::parse_limit;
use jtd_validate::options::resolve_options;
use jtd_validate::outcome::Fatal;
use jtd_validate::outcome::RunState;
use jtd_validate::pointer::escape_segment;
use jtd_validate::pointer::to_json_pointer;
use jtd_validate::report::InstanceReport;
use jtd_validate::report::PathError;
use jtd_validate::report::escape_json;
use jtd_validate::report::render_indicator;
use jtd_validate::report::report_instance;

fn segs(parts: &[&str]) -> Vec<String> {
    parts.iter().map(|p| p.to_string()).collect()
}

#[test]
fn pointer_escapes_tilde_and_slash() {
    let p = to_json_pointer(&segs(&["a/b", "c~d"]));
    assert_eq!(p, "/a~1b/c~0d");
}

#[test]
fn pointer_escapes_tilde_before_slash() {
    // A segment that already looks like an escape must not be double-escaped.
    assert_eq!(escape_segment("~1"), "~01");
    assert_eq!(escape_segment("~/"), "~0~1");
    let p = to_json_pointer(&segs(&["~1"]));
    assert_eq!(p, "/~01");
}

#[test]
fn empty_path_is_empty_string() {
    let p = to_json_pointer(&segs(&[]));
    assert_eq!(p, "");
}

#[test]
fn empty_segment_renders_lone_slash() {
    let p = to_json_pointer(&segs(&[""]));
    assert_eq!(p, "/");
}

#[test]
fn parse_limit_accepts_digits() {
    assert_eq!(parse_limit("0"), Some(0));
    assert_eq!(parse_limit("7"), Some(7));
    assert_eq!(parse_limit("128"), Some(128));
}

#[test]
fn parse_limit_rejects_junk() {
    assert_eq!(parse_limit(""), None);
    assert_eq!(parse_limit("abc"), None);
    assert_eq!(parse_limit("12x"), None);
    assert_eq!(parse_limit("-1"), None);
    assert_eq!(parse_limit(" 3"), None);
    assert_eq!(parse_limit("99999999999999999999999999"), None);
}

#[test]
fn resolve_defaults_are_unbounded() {
    let o = resolve_options(None, None, false).unwrap();
    assert_eq!(o.max_depth, 0);
    assert_eq!(o.max_errors, 0);
    assert!(!o.quiet);
}

#[test]
fn resolve_quiet_forces_max_errors_one() {
    let o = resolve_options(None, None, true).unwrap();
    assert_eq!(o.max_errors, 1);
    assert!(o.quiet);
}

#[test]
fn resolve_explicit_max_errors_wins_over_quiet() {
    let o = resolve_options(None, Some("5"), true).unwrap();
    assert_eq!(o.max_errors, 5);
    let o = resolve_options(Some("3"), Some("0"), true).unwrap();
    assert_eq!(o.max_depth, 3);
    assert_eq!(o.max_errors, 0);
}

#[test]
fn resolve_reports_the_bad_flag() {
    let e = resolve_options(Some("x"), None, false).unwrap_err();
    assert_eq!(e.flag, LimitFlag::MaxDepth);
    assert_eq!(e.raw, "x");
    let e = resolve_options(None, Some("2.5"), false).unwrap_err();
    assert_eq!(e.flag, LimitFlag::MaxErrors);
    assert_eq!(e.raw, "2.5");
    // max-depth is checked first when both are bad.
    let e = resolve_options(Some("a"), Some("b"), false).unwrap_err();
    assert_eq!(e.flag, LimitFlag::MaxDepth);
}

#[test]
fn escape_json_handles_quotes_and_controls() {
    assert_eq!(escape_json("plain"), "plain");
    assert_eq!(escape_json("a\"b"), "a\\\"b");
    assert_eq!(escape_json("a\\b"), "a\\\\b");
    assert_eq!(escape_json("a\nb\tc"), "a\\nb\\tc");
    assert_eq!(escape_json("\u{1}"), "\\u0001");
    assert_eq!(escape_json("\u{1f}"), "\\u001f");
}

#[test]
fn render_indicator_serializes_both_pointers() {
    let e = PathError {
        instance_path: segs(&["a/b"]),
        schema_path: segs(&["properties", "a/b", "type"]),
    };
    let line = render_indicator(&e);
    assert_eq!(
        line,
        "{\"instancePath\":\"/a~1b\",\"schemaPath\":\"/properties/a~1b/type\"}"
    );
}

#[test]
fn render_indicator_escapes_json_in_segments() {
    let e = PathError {
        instance_path: segs(&["a\"b"]),
        schema_path: segs(&[]),
    };
    let line = render_indicator(&e);
    assert_eq!(line, "{\"instancePath\":\"/a\\\"b\",\"schemaPath\":\"\"}");
}

#[test]
fn report_lists_one_line_per_error() {
    let errors = vec![
        PathError { instance_path: segs(&[]), schema_path: segs(&["type"]) },
        PathError { instance_path: segs(&["x"]), schema_path: segs(&["properties", "x"]) },
    ];
    let r: InstanceReport = report_instance(errors, false);
    assert!(r.failed);
    assert_eq!(r.lines.len(), 2);
    assert_eq!(r.lines[0], "{\"instancePath\":\"\",\"schemaPath\":\"/type\"}");
    assert_eq!(
        r.lines[1],
        "{\"instancePath\":\"/x\",\"schemaPath\":\"/properties/x\"}"
    );
}

#[test]
fn report_clean_instance_has_no_lines_and_passes() {
    let r = report_instance(vec![], false);
    assert!(!r.failed);
    assert!(r.lines.is_empty());
}

#[test]
fn quiet_report_suppresses_lines_but_still_fails() {
    let errors = vec![PathError { instance_path: segs(&[]), schema_path: segs(&["type"]) }];
    let r = report_instance(errors, true);
    assert!(r.failed);
    assert!(r.lines.is_empty());
}

#[test]
fn run_state_latches_failure_and_sets_exit_code() {
    let mut s = RunState::new();
    assert_eq!(s.exit_code(), 0);
    s.record(false);
    assert_eq!(s.exit_code(), 0);
    s.record(true);
    assert_eq!(s.exit_code(), 1);
    s.record(false);
    assert_eq!(s.exit_code(), 1);
}

#[test]
fn fatal_diagnostics_name_the_cause() {
    assert_eq!(Fatal::SchemaJson.diagnostic(), "Failed to parse schema");
    assert_eq!(Fatal::SchemaMalformed.diagnostic(), "Malformed schema");
    assert_eq!(Fatal::SchemaInvalid.diagnostic(), "Invalid schema");
    assert_eq!(Fatal::InstanceParse.diagnostic(), "Failed to parse instance");
    assert_eq!(Fatal::MaxDepthExceeded.diagnostic(), "Failed to validate instance");
}

#[test]
fn options_type_carries_fields() {
    let o = ValidationOptions { max_depth: 2, max_errors: 1, quiet: true };
    assert_eq!(o.max_depth, 2);
    assert_eq!(o.max_errors, 1);
    assert!(o.quiet);
}
