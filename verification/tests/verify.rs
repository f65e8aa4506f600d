use lib::backend::Engine;
use lib::report::{CheckStatus, FailureRecord, FloatText, VerificationReport};
use lib::verify::{
    available_engines, mark_operation_failure, parse_options, pseudo_random_milli,
    record_failure, record_length_outcome, record_length_passed, record_lengths_passed,
    record_numerical_outcome, report_exit_code, select_engines, start_exit_code,
    start_verification, unavailable_backend_error, verification_lengths, wants_help, VerifyStart,
};
use lib::{Architecture, BackendKind, Capabilities, HostFeatures};

fn capabilities(avx2: bool, fma: bool) -> Capabilities {
    Capabilities::detect(HostFeatures {
        architecture: Architecture::X86_64,
        avx2,
        fma,
        neon: false,
        wasm_simd128: false,
    })
}

fn pseudo_random_value(index: usize, seed: u64) -> f32 {
    pseudo_random_milli(index, seed) as f32 * 0.001
}

#[test]
fn deterministic_data_generation() {
    assert_eq!(pseudo_random_value(42, 123), pseudo_random_value(42, 123));
}

#[test]
fn different_seeds_change_generated_data() {
    assert_ne!(pseudo_random_value(42, 123), pseudo_random_value(42, 456));
}

#[test]
fn generated_data_matches_the_mixing_function() {
    for (index, seed) in [(0usize, 0u64), (42, 123), (16_385, 0x1234_5678_9abc_def0), (7, u64::MAX)] {
        let mut value = seed
            .wrapping_add(index as u64)
            .wrapping_mul(6_364_136_223_846_793_005)
            .wrapping_add(1);
        value ^= value >> 33;
        value ^= value << 17;
        value ^= value >> 29;
        let expected = (value % 20_001) as i32 - 10_000;
        assert_eq!(pseudo_random_milli(index, seed), expected);
        assert!((-10_000..=10_000).contains(&expected));
    }
}

#[test]
fn parser_accepts_json() {
    let args = vec!["--json".to_owned()];

    let options = parse_options(&args).expect("JSON option should parse");

    assert!(options.json);
    assert_eq!(options.backend, None);
}

#[test]
fn parser_accepts_backend() {
    let args = vec!["--backend".to_owned(), "scalar".to_owned()];

    let options = parse_options(&args).expect("backend option should parse");

    assert_eq!(options.backend.as_deref(), Some("scalar"));
}

#[test]
fn parser_accepts_backend_equals_form() {
    let args = vec!["--backend=scalar".to_owned()];

    let options = parse_options(&args).expect("backend option should parse");

    assert_eq!(options.backend.as_deref(), Some("scalar"));
}

#[test]
fn parser_rejects_unknown_argument() {
    let args = vec!["--wat".to_owned()];

    assert!(parse_options(&args).is_err());
}

#[test]
fn parser_rejects_duplicate_backend() {
    let args = vec![
        "--backend".to_owned(),
        "scalar".to_owned(),
        "--backend".to_owned(),
        "scalar".to_owned(),
    ];

    assert!(parse_options(&args).is_err());
}

#[test]
fn parser_reports_each_error() {
    let parse = |items: &[&str]| {
        parse_options(&items.iter().map(|item| item.to_string()).collect::<Vec<_>>())
    };
    assert_eq!(parse(&["--wat"]).unwrap_err(), "unknown verify argument `--wat`; use `cargo simd verify --help`");
    assert_eq!(parse(&["--backend"]).unwrap_err(), "`--backend` requires a backend name");
    assert_eq!(parse(&["--backend", "--json"]).unwrap_err(), "`--backend` requires a backend name");
    assert_eq!(parse(&["--backend="]).unwrap_err(), "`--backend` requires a backend name");
    assert_eq!(
        parse(&["--backend=neon", "--backend", "avx2"]).unwrap_err(),
        "`--backend` may only be specified once"
    );
    let options = parse(&["--json", "--backend", "avx2", "--json"]).unwrap();
    assert!(options.json);
    assert_eq!(options.backend.as_deref(), Some("avx2"));
    let options = parse(&[]).unwrap();
    assert!(!options.json && options.backend.is_none());
}

#[test]
fn scalar_backend_can_be_selected() {
    let engines = select_engines(Some("scalar"), capabilities(false, false)).expect("scalar is always available");

    assert_eq!(engines.len(), 1);
    assert_eq!(engines[0].backend_name(), "scalar");
}

#[test]
fn unknown_backend_is_rejected() {
    assert!(select_engines(Some("definitely-not-a-backend"), capabilities(true, true)).is_err());
}

#[test]
fn selection_follows_the_capabilities() {
    let kinds = |engines: Vec<Engine>| engines.iter().map(|engine| engine.backend()).collect::<Vec<_>>();
    assert_eq!(
        kinds(available_engines(capabilities(true, true))),
        [BackendKind::Scalar, BackendKind::Avx2, BackendKind::Avx2Fma]
    );
    assert_eq!(kinds(available_engines(capabilities(false, true))), [BackendKind::Scalar]);
    assert_eq!(kinds(select_engines(None, capabilities(true, false)).unwrap()), [BackendKind::Scalar, BackendKind::Avx2]);
    assert_eq!(kinds(select_engines(Some("avx2"), capabilities(true, false)).unwrap()), [BackendKind::Avx2]);
    assert_eq!(
        select_engines(Some("avx2+fma"), capabilities(true, false)).err(),
        Some("backend `avx2+fma` is not available on this machine/build".to_owned())
    );
    assert_eq!(
        select_engines(Some("neon"), capabilities(true, true)).err(),
        Some(unavailable_backend_error("neon"))
    );
    assert_eq!(
        select_engines(Some("avx512"), capabilities(true, true)).err(),
        Some("unknown backend `avx512`; expected one of: scalar, avx2, avx2+fma, neon, wasm-simd128".to_owned())
    );
}

#[test]
fn lengths_cover_the_vector_boundaries() {
    let lengths = verification_lengths();
    assert_eq!(lengths.len(), 31);
    assert_eq!(lengths[0], 0);
    assert_eq!(lengths[30], 16_385);
    assert!(lengths.windows(2).all(|pair| pair[0] < pair[1]));
}

fn failure(operation: &str) -> FailureRecord {
    FailureRecord {
        backend: "scalar".to_owned(),
        operation: operation.to_owned(),
        case_name: None,
        length: 3,
        index: Some(1),
        actual: FloatText::NaN,
        expected: FloatText::Finite { display: "1".to_owned(), json: "1".to_owned() },
        error: FloatText::NaN,
        tolerance: FloatText::Finite { display: "0".to_owned(), json: "0".to_owned() },
    }
}

#[test]
fn a_complete_run_passes() {
    let mut report = VerificationReport::new("test", Some("scalar".to_owned()), vec!["scalar".to_owned()], verification_lengths());
    assert!(!report.passed());
    for _ in 0..report.lengths.len() {
        record_length_passed(&mut report);
    }
    record_lengths_passed(&mut report);
    assert!(!report.passed());
    record_numerical_outcome(&mut report, Ok(()));
    assert!(report.passed());
    assert_eq!(report.lengths_completed, 31);
    assert_eq!(report.backends, vec!["scalar".to_owned()]);
}

#[test]
fn failures_mark_their_check() {
    let mut report = VerificationReport::new("test", None, vec![], vec![0, 1]);
    mark_operation_failure(&mut report, "vector_add/non-finite");
    assert_eq!(report.vector_add, CheckStatus::Fail);
    mark_operation_failure(&mut report, "something-else");
    assert_eq!(report.fma, CheckStatus::NotRun);
    record_failure(&mut report, failure("dot"));
    assert_eq!(report.dot, CheckStatus::Fail);
    assert_eq!(report.failures.len(), 1);

    let mut numerical = VerificationReport::new("test", None, vec![], vec![]);
    record_lengths_passed(&mut numerical);
    record_numerical_outcome(&mut numerical, Err(failure("fma")));
    assert_eq!(numerical.numerical_cases, CheckStatus::Fail);
    assert_eq!(numerical.fma, CheckStatus::Fail);
    assert_eq!(numerical.reduce_sum, CheckStatus::Pass);
    assert!(!numerical.passed());
}

#[test]
fn recording_a_length_always_counts_it() {
    let mut report = VerificationReport::new("test", None, vec!["scalar".to_owned()], vec![1, 2]);
    for expected in 1..=3usize {
        record_length_passed(&mut report);
        assert_eq!(report.lengths_completed, expected);
    }
    assert_eq!(report.lengths.len(), 2);
}

fn args(words: &[&str]) -> Vec<String> {
    words.iter().map(|word| word.to_string()).collect()
}

#[test]
fn help_wins_over_everything_else() {
    assert!(wants_help(&args(&["--bogus", "-h"])));
    assert!(!wants_help(&args(&["--json", "--backend", "scalar"])));
    let start = start_verification(&args(&["--backend", "nope", "--help"]), capabilities(false, false));
    assert!(matches!(start, VerifyStart::Help));
    assert_eq!(start_exit_code(&start), Some(0));
}

#[test]
fn invalid_requests_exit_with_two() {
    let start = start_verification(&args(&["--backend"]), capabilities(true, true));
    match &start {
        VerifyStart::Invalid(message) => assert_eq!(message, "`--backend` requires a backend name"),
        other => panic!("unexpected start: {other:?}"),
    }
    assert_eq!(start_exit_code(&start), Some(2));
    let start = start_verification(&args(&["--backend", "avx2"]), capabilities(false, false));
    match &start {
        VerifyStart::Invalid(message) => assert_eq!(message, "backend `avx2` is not available on this machine/build"),
        other => panic!("unexpected start: {other:?}"),
    }
    assert_eq!(start_exit_code(&start), Some(2));
}

#[test]
fn valid_requests_run_on_the_selected_engines() {
    let start = start_verification(&args(&["--json", "--backend=avx2+fma"]), capabilities(true, true));
    assert_eq!(start_exit_code(&start), None);
    match start {
        VerifyStart::Ready(options, engines) => {
            assert!(options.json);
            assert_eq!(options.backend.as_deref(), Some("avx2+fma"));
            assert_eq!(engines.iter().map(|engine| engine.backend()).collect::<Vec<_>>(), vec![BackendKind::Avx2Fma]);
        }
        other => panic!("unexpected start: {other:?}"),
    }
    match start_verification(&[], capabilities(true, false)) {
        VerifyStart::Ready(options, engines) => {
            assert!(!options.json);
            assert_eq!(options.backend, None);
            assert_eq!(
                engines.iter().map(|engine| engine.backend()).collect::<Vec<_>>(),
                vec![BackendKind::Scalar, BackendKind::Avx2]
            );
        }
        other => panic!("unexpected start: {other:?}"),
    }
}

#[test]
fn a_failing_length_stops_the_run() {
    let mut report = VerificationReport::new("test", None, vec!["scalar".to_owned()], vec![1, 2, 3]);
    assert!(record_length_outcome(&mut report, Ok(())));
    assert_eq!(report.lengths_completed, 1);
    assert!(!record_length_outcome(&mut report, Err(failure("dot"))));
    assert_eq!(report.lengths_completed, 1);
    assert_eq!(report.failures.len(), 1);
    assert_eq!(report.dot, CheckStatus::Fail);
    assert_eq!(report_exit_code(&report), 1);
}

#[test]
fn a_passing_report_exits_with_zero() {
    let mut report = VerificationReport::new("test", None, vec!["scalar".to_owned()], vec![1]);
    assert!(record_length_outcome(&mut report, Ok(())));
    record_lengths_passed(&mut report);
    record_numerical_outcome(&mut report, Ok(()));
    assert!(report.passed());
    assert_eq!(report_exit_code(&report), 0);
}
