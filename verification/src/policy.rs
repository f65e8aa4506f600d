//! The resource policy: how many build jobs and test threads a host can afford.
use vstd::prelude::*;

use crate::binary64::{
    floor_of_rounded_quotient, floor_rounded_quotient, lemma_floor_of_rounded_quotient_halved_divisor,
    lemma_floor_of_rounded_quotient_monotone, lemma_nearest_double_monotone, nearest_double, to_nearest_double,
};
use crate::system::SystemInfo;

verus! {

/// Bytes per gibibyte.
pub const GIB: u64 = 1073741824;

/// Memory one build job is budgeted, in quarters of a GiB (1.5 GiB).
pub const BUILD_QUARTER_GIB_PER_JOB: u64 = 6;

/// Memory one test thread is budgeted, in quarters of a GiB (0.75 GiB).
pub const TEST_QUARTER_GIB_PER_THREAD: u64 = 3;

/// The concurrency policy chosen for a host.
#[derive(Debug, Clone, Copy, PartialEq, Eq, Structural)]
pub enum Policy {
    LowResource,
    Balanced,
    Performance,
}

impl Policy {
    /// The policy's name, as a sequence of characters.
    pub open spec fn label(self) -> Seq<char> {
        match self {
            Policy::LowResource => "low-resource"@,
            Policy::Balanced => "balanced"@,
            Policy::Performance => "performance"@,
        }
    }

    /// The policy's display name.
    pub fn name(self) -> (text: &'static str)
        ensures
            text@ == self.label(),
    {
        match self {
            Policy::LowResource => "low-resource",
            Policy::Balanced => "balanced",
            Policy::Performance => "performance",
        }
    }
}

/// How many Cargo build jobs and test-harness threads to allow.
#[derive(Debug, Clone, Copy, PartialEq, Eq, Structural)]
pub struct ResourceBudget {
    pub build_jobs: usize,
    pub test_threads: usize,
}

/// A policy, its budget, and why it was chosen.
#[derive(Debug)]
pub struct Recommendation {
    pub policy: Policy,
    pub budget: ResourceBudget,
    pub reason: &'static str,
}

/// The larger of two naturals.
pub open spec fn max_nat(a: nat, b: nat) -> nat {
    if a >= b { a } else { b }
}

/// The smaller of two naturals.
pub open spec fn min_nat(a: nat, b: nat) -> nat {
    if a <= b { a } else { b }
}

/// How many slots of `quarters_per_slot` quarter-GiB the available memory
/// holds, reckoned in 64-bit floating point: the byte count converted to
/// `f64`, divided by a GiB (exactly), divided by the slot size with
/// rounding, then floored. The count is at least one and at most the CPU
/// limit (itself at least one); with no memory figure, it is the CPU limit.
pub open spec fn slots(available_bytes: Option<u64>, quarters_per_slot: nat, cpu_limit: nat) -> nat {
    let cpus = max_nat(cpu_limit, 1);
    match available_bytes {
        None => cpus,
        Some(bytes) => min_nat(
            max_nat(
                floor_of_rounded_quotient(4 * nearest_double(bytes as nat), quarters_per_slot * GIB as nat),
                1,
            ),
            cpus,
        ),
    }
}

/// Less than 8 GiB in total or less than 3 GiB available.
pub open spec fn low_memory(system: SystemInfo) -> bool {
    ||| (system.memory_total_bytes is Some && system.memory_total_bytes->0 < 8 * GIB)
    ||| (system.memory_available_bytes is Some && system.memory_available_bytes->0 < 3 * GIB)
}

/// At least 32 GiB in total.
pub open spec fn high_memory(system: SystemInfo) -> bool {
    system.memory_total_bytes is Some && system.memory_total_bytes->0 >= 32 * GIB
}

/// The policy a host gets: low-resource under memory pressure, performance
/// with at least 32 GiB and 12 CPUs, balanced otherwise.
pub open spec fn chosen_policy(system: SystemInfo) -> Policy {
    if low_memory(system) {
        Policy::LowResource
    } else if high_memory(system) && max_nat(system.logical_cpus as nat, 1) >= 12 {
        Policy::Performance
    } else {
        Policy::Balanced
    }
}

/// Why a policy is recommended.
pub open spec fn reason_text(policy: Policy) -> Seq<char> {
    match policy {
        Policy::LowResource => "memory pressure favors conservative process concurrency"@,
        Policy::Performance => "system has enough CPU and memory for aggressive concurrency"@,
        Policy::Balanced => "balanced CPU and memory utilization is recommended"@,
    }
}

/// The budget a host gets: the memory-limited slots for build jobs (1.5 GiB
/// each) and test threads (0.75 GiB each), capped at 4 and 6 under memory
/// pressure.
pub open spec fn recommended_budget(system: SystemInfo) -> ResourceBudget {
    let build = slots(system.memory_available_bytes, 6, system.logical_cpus as nat);
    let test = slots(system.memory_available_bytes, 3, system.logical_cpus as nat);
    if low_memory(system) {
        ResourceBudget { build_jobs: min_nat(build, 4) as usize, test_threads: min_nat(test, 6) as usize }
    } else {
        ResourceBudget { build_jobs: build as usize, test_threads: test as usize }
    }
}

/// Slots of `quarters_per_slot` quarter-GiB that the available memory allows,
/// bounded by the CPU limit.
pub fn memory_limited_slots(available_bytes: Option<u64>, quarters_per_slot: u64, cpu_limit: usize) -> (slots_allowed: usize)
    requires
        1 <= quarters_per_slot <= 8,
    ensures
        slots_allowed == slots(available_bytes, quarters_per_slot as nat, cpu_limit as nat),
        1 <= slots_allowed,
{
    let cpus = if cpu_limit >= 1 { cpu_limit } else { 1 };
    let bytes = match available_bytes {
        None => return cpus,
        Some(bytes) => bytes,
    };
    assert(1073741824 <= (quarters_per_slot as u128) * (GIB as u128) <= 8 * 1073741824)
        by (nonlinear_arith)
        requires
            1 <= quarters_per_slot <= 8,
            GIB == 1073741824,
    ;
    let per_slot: u128 = (quarters_per_slot as u128) * (GIB as u128);
    let x: u128 = to_nearest_double(bytes);
    let memory_slots: u128 = floor_rounded_quotient(4 * x, per_slot);
    let at_least_one: u128 = if memory_slots >= 1 { memory_slots } else { 1 };
    if at_least_one <= cpus as u128 {
        at_least_one as usize
    } else {
        cpus
    }
}

/// Recommends a policy and budget for the host.
pub fn recommend(system: &SystemInfo) -> (recommendation: Recommendation)
    ensures
        recommendation.policy == chosen_policy(*system),
        recommendation.budget == recommended_budget(*system),
        recommendation.reason@ == reason_text(recommendation.policy),
        1 <= recommendation.budget.build_jobs <= max_nat(system.logical_cpus as nat, 1),
        1 <= recommendation.budget.test_threads <= max_nat(system.logical_cpus as nat, 1),
        recommendation.budget.build_jobs <= recommendation.budget.test_threads,
{
    proof {
        lemma_build_jobs_within_test_threads(system.memory_available_bytes, system.logical_cpus as nat);
    }
    let cpus = if system.logical_cpus >= 1 { system.logical_cpus } else { 1 };
    let build_jobs = memory_limited_slots(system.memory_available_bytes, BUILD_QUARTER_GIB_PER_JOB, cpus);
    let test_threads = memory_limited_slots(system.memory_available_bytes, TEST_QUARTER_GIB_PER_THREAD, cpus);
    let low_total_memory = match system.memory_total_bytes {
        Some(bytes) => bytes < 8 * GIB,
        None => false,
    };
    let low_available_memory = match system.memory_available_bytes {
        Some(bytes) => bytes < 3 * GIB,
        None => false,
    };
    if low_total_memory || low_available_memory {
        return Recommendation {
            policy: Policy::LowResource,
            budget: ResourceBudget {
                build_jobs: if build_jobs <= 4 { build_jobs } else { 4 },
                test_threads: if test_threads <= 6 { test_threads } else { 6 },
            },
            reason: "memory pressure favors conservative process concurrency",
        };
    }
    let high_memory = match system.memory_total_bytes {
        Some(bytes) => bytes >= 32 * GIB,
        None => false,
    };
    if high_memory && cpus >= 12 {
        return Recommendation {
            policy: Policy::Performance,
            budget: ResourceBudget { build_jobs, test_threads },
            reason: "system has enough CPU and memory for aggressive concurrency",
        };
    }
    Recommendation {
        policy: Policy::Balanced,
        budget: ResourceBudget { build_jobs, test_threads },
        reason: "balanced CPU and memory utilization is recommended",
    }
}


/// More available memory never yields fewer slots.
pub proof fn lemma_slots_monotone(less: u64, more: u64, quarters_per_slot: nat, cpu_limit: nat)
    requires
        less <= more,
        quarters_per_slot >= 1,
    ensures
        slots(Some(less), quarters_per_slot, cpu_limit) <= slots(Some(more), quarters_per_slot, cpu_limit),
{
    let d = quarters_per_slot * GIB as nat;
    assert(d >= 1073741824) by (nonlinear_arith)
        requires
            quarters_per_slot >= 1,
            d == quarters_per_slot * 1073741824,
    ;
    lemma_nearest_double_monotone(less as nat, more as nat);
    lemma_floor_of_rounded_quotient_monotone(
        4 * nearest_double(less as nat),
        4 * nearest_double(more as nat),
        d,
    );
}

/// A build job is budgeted twice a test thread's memory, so no host gets
/// more build jobs than test threads.
pub proof fn lemma_build_jobs_within_test_threads(available_bytes: Option<u64>, cpu_limit: nat)
    ensures
        slots(available_bytes, BUILD_QUARTER_GIB_PER_JOB as nat, cpu_limit) <= slots(
            available_bytes,
            TEST_QUARTER_GIB_PER_THREAD as nat,
            cpu_limit,
        ),
{
    if let Some(bytes) = available_bytes {
        let d = 3 * GIB as nat;
        lemma_nearest_double_monotone(bytes as nat, bytes as nat);
        assert(6 * GIB as nat == 2 * d);
        lemma_floor_of_rounded_quotient_halved_divisor(4 * nearest_double(bytes as nat), d);
    }
}

/// The policy follows the host's memory and CPU count: low-resource exactly
/// when it has less than 8 GiB in total or less than 3 GiB available;
/// otherwise performance exactly when it has at least 32 GiB in total and
/// at least 12 CPUs; balanced in every other case.
pub proof fn lemma_policy_choice(system: SystemInfo)
    ensures
        (chosen_policy(system) == Policy::LowResource) <==> (
        (system.memory_total_bytes is Some && system.memory_total_bytes->0 < 8589934592)
            || (system.memory_available_bytes is Some && system.memory_available_bytes->0
            < 3221225472)),
        (chosen_policy(system) == Policy::Performance) <==> (
        !(system.memory_available_bytes is Some && system.memory_available_bytes->0 < 3221225472)
            && system.memory_total_bytes is Some && system.memory_total_bytes->0 >= 34359738368
            && system.logical_cpus >= 12),
        (chosen_policy(system) == Policy::Balanced) <==> (chosen_policy(system)
            != Policy::LowResource && chosen_policy(system) != Policy::Performance),
{
}

/// Once a host is under no memory pressure, how much memory is available
/// no longer matters: two such hosts with the same total memory and CPU
/// count get the same policy.
pub proof fn lemma_policy_ignores_available_memory(a: SystemInfo, b: SystemInfo)
    requires
        a.logical_cpus == b.logical_cpus,
        a.memory_total_bytes == b.memory_total_bytes,
        !(a.memory_total_bytes is Some && a.memory_total_bytes->0 < 8589934592),
        !(a.memory_available_bytes is Some && a.memory_available_bytes->0 < 3221225472),
        !(b.memory_available_bytes is Some && b.memory_available_bytes->0 < 3221225472),
    ensures
        chosen_policy(a) == chosen_policy(b),
        chosen_policy(a) != Policy::LowResource,
{
}

/// Under memory pressure a host gets at most 4 build jobs and 6 test
/// threads; otherwise the budget is the memory-limited slot counts, 1.5 GiB
/// per build job and 0.75 GiB per test thread, uncapped.
pub proof fn lemma_budget_caps(system: SystemInfo)
    ensures
        chosen_policy(system) == Policy::LowResource ==> recommended_budget(system).build_jobs <= 4
            && recommended_budget(system).test_threads <= 6,
        chosen_policy(system) != Policy::LowResource ==> recommended_budget(system).build_jobs
            == slots(system.memory_available_bytes, BUILD_QUARTER_GIB_PER_JOB as nat, system.logical_cpus as nat)
            && recommended_budget(system).test_threads == slots(
            system.memory_available_bytes,
            TEST_QUARTER_GIB_PER_THREAD as nat,
            system.logical_cpus as nat,
        ),
{
    let build = slots(system.memory_available_bytes, 6, system.logical_cpus as nat);
    let test = slots(system.memory_available_bytes, 3, system.logical_cpus as nat);
    assert(build <= max_nat(system.logical_cpus as nat, 1) && test <= max_nat(system.logical_cpus as nat, 1));
}

} // verus!
