use lib::report::{display_status, push_json_string, CheckStatus, FailureRecord, FloatText, VerificationReport};

/// The report rendering of a 32-bit value: its own decimal form for text,
/// its 64-bit widening for JSON.
fn float32(value: f32) -> FloatText {
    if value.is_nan() {
        FloatText::NaN
    } else if value.is_infinite() {
        if value > 0.0 { FloatText::Infinity } else { FloatText::NegInfinity }
    } else {
        FloatText::Finite { display: format!("{value}"), json: format!("{}", value as f64) }
    }
}

fn float64(value: f64) -> FloatText {
    if value.is_nan() {
        FloatText::NaN
    } else if value.is_infinite() {
        if value > 0.0 { FloatText::Infinity } else { FloatText::NegInfinity }
    } else {
        FloatText::Finite { display: format!("{value}"), json: format!("{value}") }
    }
}

fn passing_report() -> VerificationReport {
    VerificationReport {
        tool_version: "0.2.0-test",
        backend_filter: None,
        backends: vec![
            "scalar".to_owned(),
            "avx2".to_owned(),
            "avx2+fma".to_owned(),
        ],
        lengths: vec![0, 1, 7, 8],
        lengths_completed: 4,
        numerical_cases: CheckStatus::Pass,
        vector_add: CheckStatus::Pass,
        fma: CheckStatus::Pass,
        reduce_sum: CheckStatus::Pass,
        dot: CheckStatus::Pass,
        failures: Vec::new(),
    }
}

#[test]
fn passing_report_has_pass_status() {
    let report = passing_report();

    assert!(report.passed());
    assert_eq!(report.status(), "pass");
}

#[test]
fn failure_changes_status() {
    let mut report = passing_report();

    report.dot = CheckStatus::Fail;
    report.failures.push(FailureRecord {
        backend: "avx2".to_owned(),
        operation: "dot".to_owned(),
        case_name: None,
        length: 1025,
        index: None,
        actual: float32(10.0),
        expected: float64(11.0),
        error: float64(1.0),
        tolerance: float64(0.01),
    });

    assert!(!report.passed());
    assert_eq!(report.status(), "fail");
}

#[test]
fn json_contains_schema_and_status() {
    let json = passing_report().to_json();

    assert!(json.contains("\"schema_version\":1"));
    assert!(json.contains("\"status\":\"pass\""));
    assert!(json.contains("\"failures\":[]"));
}

#[test]
fn json_contains_length_cases() {
    let json = passing_report().to_json();

    assert!(json.contains("\"total\":4"));
    assert!(json.contains("\"completed\":4"));
    assert!(json.contains("\"cases\":[0,1,7,8]"));
}

#[test]
fn json_escapes_strings() {
    let mut report = passing_report();

    report.backends = vec!["quote\"slash\\newline\n".to_owned()];

    let json = report.to_json();

    assert!(json.contains("quote\\\"slash\\\\newline\\n"));
}

#[test]
fn non_finite_values_are_valid_json_strings() {
    let mut report = passing_report();

    report.dot = CheckStatus::Fail;
    report.failures.push(FailureRecord {
        backend: "scalar".to_owned(),
        operation: "dot".to_owned(),
        case_name: Some("non-finite".to_owned()),
        length: 1,
        index: None,
        actual: float32(f32::NAN),
        expected: float64(f64::INFINITY),
        error: float64(f64::NEG_INFINITY),
        tolerance: float64(0.0),
    });

    let json = report.to_json();

    assert!(json.contains("\"actual\":\"NaN\""));
    assert!(json.contains("\"expected\":\"Infinity\""));
    assert!(json.contains("\"error\":\"-Infinity\""));
}

#[test]
fn whole_json_document() {
    let mut report = passing_report();
    report.backend_filter = Some("avx2".to_owned());
    report.backends = vec!["avx2".to_owned()];
    report.lengths = vec![3];
    report.lengths_completed = 0;
    report.vector_add = CheckStatus::Fail;
    report.numerical_cases = CheckStatus::NotRun;
    report.failures.push(FailureRecord {
        backend: "avx2".to_owned(),
        operation: "vector_add".to_owned(),
        case_name: Some("ones".to_owned()),
        length: 3,
        index: Some(2),
        actual: float32(0.1),
        expected: float64(0.5),
        error: float64(0.4),
        tolerance: float64(0.0),
    });
    assert_eq!(
        report.to_json(),
        "{\"schema_version\":1,\"tool\":\"cargo-simd\",\"tool_version\":\"0.2.0-test\",\"status\":\"fail\",\"backend_filter\":\"avx2\",\"backends\":[\"avx2\"],\"lengths\":{\"total\":1,\"completed\":0,\"cases\":[3]},\"checks\":{\"numerical_cases\":\"not-run\",\"vector_add\":\"fail\",\"fma\":\"pass\",\"reduce_sum\":\"pass\",\"dot\":\"pass\"},\"failures\":[{\"backend\":\"avx2\",\"operation\":\"vector_add\",\"case\":\"ones\",\"length\":3,\"index\":2,\"actual\":0.10000000149011612,\"expected\":0.5,\"error\":0.4,\"tolerance\":0}]}"
    );
}

#[test]
fn passing_text_report() {
    assert_eq!(
        passing_report().to_text(),
        "cargo-simd verify\n\navailable backends:\n  - scalar\n  - avx2\n  - avx2+fma\n\nrunning differential verification...\nrunning structured numerical cases...\n\nverification summary\n  lengths tested     4\n  backends tested    3\n  numerical cases    PASS\n  vector_add         PASS\n  fma                PASS\n  reduce_sum         PASS\n  dot                PASS\n\nSIMD verification: PASS\n"
    );
}

#[test]
fn failing_text_report() {
    let mut report = passing_report();
    report.backend_filter = Some("scalar".to_owned());
    report.backends = vec!["scalar".to_owned()];
    report.lengths_completed = 2;
    report.failures.push(FailureRecord {
        backend: "scalar".to_owned(),
        operation: "fma".to_owned(),
        case_name: None,
        length: 7,
        index: Some(3),
        actual: float32(f32::NEG_INFINITY),
        expected: float64(2.5),
        error: float64(f64::INFINITY),
        tolerance: float64(0.01025),
    });
    assert_eq!(
        report.to_text(),
        "cargo-simd verify\n\nselected backend:\n  - scalar\n\nrunning differential verification...\n\nSIMD verification: FAILED\n\n  backend            scalar\n  operation          fma\n  length             7\n  index              3\n  actual             -inf\n  expected           2.5\n  absolute error     inf\n  tolerance          0.01025\n"
    );
}

#[test]
fn json_strings_escape_control_characters() {
    let mut out = String::from(">");
    push_json_string(&mut out, "a\tb\r\u{08}\u{0c}\u{01}\u{1f}é\u{7f}");
    assert_eq!(out, ">\"a\\tb\\r\\b\\f\\u0001\\u001fé\u{7f}\"");
}

#[test]
fn statuses_render_for_each_format() {
    assert_eq!(CheckStatus::NotRun.as_str(), "not-run");
    assert_eq!(display_status(CheckStatus::NotRun), "NOT RUN");
    assert_eq!(display_status(CheckStatus::Fail), "FAIL");
}
