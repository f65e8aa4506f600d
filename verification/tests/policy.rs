use lib::policy::{
    recommend, memory_limited_slots, Policy, BUILD_QUARTER_GIB_PER_JOB, GIB,
    TEST_QUARTER_GIB_PER_THREAD,
};
use lib::system::SystemInfo;

fn system(cpus: usize, total_gib: u64, available_gib: u64) -> SystemInfo {
    SystemInfo {
        operating_system: "linux",
        logical_cpus: cpus,
        memory_total_bytes: Some(total_gib * GIB),
        memory_available_bytes: Some(available_gib * GIB),
        rustc_version: None,
        cargo_version: None,
    }
}

#[test]
fn chooses_low_resource_for_small_machine() {
    let recommendation = recommend(&system(16, 7, 6));

    assert_eq!(recommendation.policy, Policy::LowResource);

    assert!(recommendation.budget.build_jobs <= 4);
    assert!(recommendation.budget.test_threads <= 6);
}

#[test]
fn chooses_balanced_for_normal_machine() {
    let recommendation = recommend(&system(8, 16, 8));

    assert_eq!(recommendation.policy, Policy::Balanced);

    assert!(recommendation.budget.build_jobs <= 8);
    assert!(recommendation.budget.test_threads <= 8);
}

#[test]
fn chooses_performance_for_large_machine() {
    let recommendation = recommend(&system(16, 64, 48));

    assert_eq!(recommendation.policy, Policy::Performance);

    assert_eq!(recommendation.budget.build_jobs, 16);
    assert_eq!(recommendation.budget.test_threads, 16);
}

#[test]
fn memory_never_produces_zero_slots() {
    let slots = memory_limited_slots(Some(128 * 1024 * 1024), BUILD_QUARTER_GIB_PER_JOB, 16);

    assert_eq!(slots, 1);
}

#[test]
fn budgets_follow_memory_per_slot() {
    // 8 GiB available: 5 build jobs of 1.5 GiB, 10 test threads of 0.75 GiB.
    let recommendation = recommend(&system(16, 16, 8));
    assert_eq!(recommendation.policy, Policy::Balanced);
    assert_eq!(recommendation.budget.build_jobs, 5);
    assert_eq!(recommendation.budget.test_threads, 10);
    assert_eq!(recommendation.reason, "balanced CPU and memory utilization is recommended");

    // Low resource caps the budgets at 4 and 6.
    let small = recommend(&system(16, 7, 6));
    assert_eq!(small.budget.build_jobs, 4);
    assert_eq!(small.budget.test_threads, 6);
    assert_eq!(small.reason, "memory pressure favors conservative process concurrency");
    assert_eq!(small.policy.name(), "low-resource");
}

#[test]
fn low_available_memory_alone_means_pressure() {
    let recommendation = recommend(&system(32, 64, 2));
    assert_eq!(recommendation.policy, Policy::LowResource);
    assert_eq!(recommendation.budget.build_jobs, 1);
    assert_eq!(recommendation.budget.test_threads, 2);
}

#[test]
fn unknown_memory_uses_the_cpu_count() {
    let info = SystemInfo {
        operating_system: "linux",
        logical_cpus: 0,
        memory_total_bytes: None,
        memory_available_bytes: None,
        rustc_version: None,
        cargo_version: None,
    };
    let recommendation = recommend(&info);
    assert_eq!(recommendation.policy, Policy::Balanced);
    assert_eq!(recommendation.budget.build_jobs, 1);
    assert_eq!(recommendation.budget.test_threads, 1);
    assert_eq!(memory_limited_slots(None, TEST_QUARTER_GIB_PER_THREAD, 12), 12);
}

#[test]
fn matches_the_floating_point_slot_count() {
    let mut state: u64 = 0x9e37_79b9_7f4a_7c15;
    for _ in 0..2000 {
        state = state.wrapping_mul(6_364_136_223_846_793_005).wrapping_add(1_442_695_040_888_963_407);
        let bytes = state >> (state % 40);
        for (quarters, gib_per_slot) in [(BUILD_QUARTER_GIB_PER_JOB, 1.5f64), (TEST_QUARTER_GIB_PER_THREAD, 0.75f64)] {
            let available_gib = bytes as f64 / GIB as f64;
            let memory_slots = (available_gib / gib_per_slot).floor() as usize;
            let expected = memory_slots.max(1).min(64);
            assert_eq!(memory_limited_slots(Some(bytes), quarters, 64), expected, "bytes={bytes}");
        }
    }
}

#[test]
fn more_memory_never_lowers_the_budget() {
    let mut previous = 0;
    for quarter_gib in 0..200u64 {
        let slots = memory_limited_slots(Some(quarter_gib * GIB / 4), BUILD_QUARTER_GIB_PER_JOB, 32);
        assert!(slots >= previous);
        assert!((1..=32).contains(&slots));
        previous = slots;
    }
}

#[test]
fn huge_memory_slots_follow_floating_point_rounding() {
    let bytes: u64 = 6 * (1u64 << 52) - 1;
    assert_eq!(memory_limited_slots(Some(bytes), BUILD_QUARTER_GIB_PER_JOB, 1 << 24), 1 << 24);
    assert_eq!(memory_limited_slots(Some(bytes), TEST_QUARTER_GIB_PER_THREAD, 1 << 26), 1 << 25);
    assert_eq!(memory_limited_slots(Some(u64::MAX), BUILD_QUARTER_GIB_PER_JOB, usize::MAX), 11_453_246_122);

    let mut state: u64 = 0x2545_f491_4f6c_dd1d;
    for _ in 0..5000 {
        state = state.wrapping_mul(6_364_136_223_846_793_005).wrapping_add(1_442_695_040_888_963_407);
        let bytes = state >> (state % 12);
        for (quarters, gib_per_slot) in [(BUILD_QUARTER_GIB_PER_JOB, 1.5f64), (TEST_QUARTER_GIB_PER_THREAD, 0.75f64)] {
            let available_gib = bytes as f64 / GIB as f64;
            let expected = ((available_gib / gib_per_slot).floor() as usize).max(1);
            assert_eq!(memory_limited_slots(Some(bytes), quarters, usize::MAX), expected, "bytes={bytes}");
        }
    }
}

#[test]
fn build_jobs_never_exceed_test_threads() {
    let mut state: u64 = 0x0123_4567_89ab_cdef;
    for cpus in [0usize, 1, 3, 8, 12, 64, 1 << 20, usize::MAX] {
        for _ in 0..300 {
            state = state.wrapping_mul(6_364_136_223_846_793_005).wrapping_add(1_442_695_040_888_963_407);
            let available = state >> (state % 64);
            let total = available.saturating_add(state % (64 * GIB));
            let system = SystemInfo {
                operating_system: "linux",
                logical_cpus: cpus,
                memory_total_bytes: Some(total),
                memory_available_bytes: Some(available),
                rustc_version: None,
                cargo_version: None,
            };
            let budget = recommend(&system).budget;
            assert!(budget.build_jobs <= budget.test_threads, "available={available} cpus={cpus}");
        }
    }
}

#[test]
fn each_policy_gives_its_reason() {
    assert_eq!(recommend(&system(16, 7, 6)).reason, "memory pressure favors conservative process concurrency");
    assert_eq!(recommend(&system(8, 16, 8)).reason, "balanced CPU and memory utilization is recommended");
    assert_eq!(recommend(&system(16, 64, 48)).reason, "system has enough CPU and memory for aggressive concurrency");
}
