use lib::orchestrator::{
    build_plan, cargo_test_plan, execution_summary, nextest_plan, test_plan,
    validate_resource_overrides, CommonOptions,
};
use lib::policy::{Policy, Recommendation, ResourceBudget};

fn strings(items: &[&str]) -> Vec<String> {
    items.iter().map(|item| item.to_string()).collect()
}

#[test]
fn build_plan_applies_resource_budget() {
    let plan = build_plan(4, &["--release".to_owned()]);

    assert_eq!(plan.args, ["build", "--jobs", "4", "--release",]);
}

#[test]
fn cargo_test_plan_limits_build_and_test_parallelism() {
    let plan = cargo_test_plan(4, 6, &["--workspace".to_owned()]);

    assert_eq!(
        plan.args,
        [
            "test",
            "--jobs",
            "4",
            "--workspace",
            "--",
            "--test-threads",
            "6",
        ]
    );
}

#[test]
fn cargo_test_preserves_harness_arguments() {
    let forwarded = vec![
        "--workspace".to_owned(),
        "--".to_owned(),
        "--nocapture".to_owned(),
    ];

    let plan = cargo_test_plan(4, 6, &forwarded);

    assert_eq!(
        plan.args,
        [
            "test",
            "--jobs",
            "4",
            "--workspace",
            "--",
            "--nocapture",
            "--test-threads",
            "6",
        ]
    );
}

#[test]
fn nextest_plan_has_separate_build_and_test_budgets() {
    let plan = nextest_plan(4, 6, &["--workspace".to_owned()]);

    assert_eq!(
        plan.args,
        [
            "nextest",
            "run",
            "--build-jobs",
            "4",
            "--test-threads",
            "6",
            "--workspace",
        ]
    );
}

#[test]
fn rejects_manual_cargo_jobs_override() {
    let args = vec!["--jobs".to_owned(), "16".to_owned()];

    assert!(validate_resource_overrides(&args).is_err());
}

#[test]
fn rejects_manual_test_threads_override() {
    let args = vec!["--test-threads=16".to_owned()];

    assert!(validate_resource_overrides(&args).is_err());
}

#[test]
fn every_concurrency_flag_form_is_rejected() {
    for flag in ["-j", "-j8", "--jobs", "--jobs=2", "--build-jobs", "--build-jobs=3", "--test-threads", "--test-threads=1"] {
        let args = strings(&["--release", flag]);
        assert_eq!(
            validate_resource_overrides(&args),
            Err("resource concurrency flags are managed by cargo-simd"),
            "{flag}"
        );
    }
    assert_eq!(validate_resource_overrides(&strings(&["-J", "--jobsx", "-", "--release"])), Ok(()));
}

#[test]
fn shared_options_are_consumed_and_the_rest_forwarded() {
    let options = CommonOptions::parse(&strings(&["--dry-run", "--release", "--online", "-p", "x"]), false)
        .expect("options should parse");
    assert!(options.dry_run);
    assert!(options.online);
    assert!(!options.nextest);
    assert_eq!(options.forwarded, ["--release", "-p", "x"]);

    let options = CommonOptions::parse(&strings(&["--nextest", "--workspace"]), true).expect("test options");
    assert!(options.nextest && !options.dry_run && !options.online);
    assert_eq!(options.forwarded, ["--workspace"]);

    assert_eq!(
        CommonOptions::parse(&strings(&["--nextest"]), false).err(),
        Some("`--nextest` is only valid for `cargo simd test`")
    );
    assert_eq!(
        CommonOptions::parse(&strings(&["--release", "-j4"]), false).err(),
        Some("resource concurrency flags are managed by cargo-simd")
    );
}

#[test]
fn test_plan_chooses_the_runner() {
    let budget = ResourceBudget { build_jobs: 4, test_threads: 6 };
    let cargo = CommonOptions::parse(&strings(&["--workspace"]), true).unwrap();
    let (operation, plan) = test_plan(&cargo, budget);
    assert_eq!(operation, "test/cargo");
    assert_eq!(plan.program, "cargo");
    assert_eq!(plan.args, ["test", "--jobs", "4", "--workspace", "--", "--test-threads", "6"]);

    let nextest = CommonOptions::parse(&strings(&["--nextest", "--workspace"]), true).unwrap();
    let (operation, plan) = test_plan(&nextest, budget);
    assert_eq!(operation, "test/nextest");
    assert_eq!(plan.args, ["nextest", "run", "--build-jobs", "4", "--test-threads", "6", "--workspace"]);
}

#[test]
fn execution_summary_shows_budget_and_command() {
    let recommendation = Recommendation {
        policy: Policy::LowResource,
        budget: ResourceBudget { build_jobs: 4, test_threads: 6 },
        reason: "memory pressure favors conservative process concurrency",
    };
    let plan = cargo_test_plan(4, 6, &strings(&["--workspace"]));
    let text = execution_summary("test/cargo", &plan, &recommendation, true, false);
    assert_eq!(
        text,
        "cargo-simd test/cargo\n\nRESOURCE BUDGET\n  policy             low-resource\n  build jobs         4\n  test threads       6\n  network            offline\n  reason             memory pressure favors conservative process concurrency\n\nCOMMAND\n  cargo test --jobs 4 --workspace -- --test-threads 6\n\ndry-run: command not executed\n"
    );
    let online = execution_summary("build", &build_plan(2, &[]), &recommendation, false, true);
    assert!(online.contains("  network            Cargo default / explicitly allowed\n"));
    assert!(online.ends_with("COMMAND\n  cargo build --jobs 2\n\n"));
}
