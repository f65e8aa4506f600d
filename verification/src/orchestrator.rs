//! Resource-aware `cargo build` / `cargo test` planning: option parsing,
//! refusal of manual concurrency flags, and the command lines to run.
use vstd::prelude::*;

use crate::policy::{Recommendation, ResourceBudget};
use crate::text::{
    decimal, extend_cloned, has_prefix, joined, owned, push_decimal, push_joined, starts_with,
    str_eq, views,
};

verus! {

/// A program and the arguments to launch it with.
#[derive(Debug)]
pub struct CommandPlan {
    pub program: String,
    pub args: Vec<String>,
}

/// The options shared by `cargo simd build` and `cargo simd test`.
#[derive(Debug)]
pub struct CommonOptions {
    pub dry_run: bool,
    pub online: bool,
    pub nextest: bool,
    pub forwarded: Vec<String>,
}

/// An option cargo-simd consumes itself instead of forwarding to Cargo.
pub open spec fn is_own_option(arg: Seq<char>, allow_nextest: bool) -> bool {
    arg == "--dry-run"@ || arg == "--online"@ || (allow_nextest && arg == "--nextest"@)
}

/// The arguments forwarded to Cargo: all but cargo-simd's own options, in order.
pub open spec fn forwarded_args(args: Seq<Seq<char>>, allow_nextest: bool) -> Seq<Seq<char>>
    decreases args.len(),
{
    if args.len() == 0 {
        Seq::empty()
    } else {
        let before = forwarded_args(args.drop_last(), allow_nextest);
        if is_own_option(args.last(), allow_nextest) {
            before
        } else {
            before.push(args.last())
        }
    }
}

/// A flag that sets Cargo's or the test harness's concurrency.
pub open spec fn is_concurrency_flag(arg: Seq<char>) -> bool {
    ||| arg == "-j"@
    ||| arg == "--jobs"@
    ||| has_prefix(arg, "--jobs="@)
    ||| (has_prefix(arg, "-j"@) && arg.len() > 2)
    ||| arg == "--build-jobs"@
    ||| has_prefix(arg, "--build-jobs="@)
    ||| arg == "--test-threads"@
    ||| has_prefix(arg, "--test-threads="@)
}

/// Whether any argument is a concurrency flag.
pub open spec fn has_concurrency_flag(args: Seq<Seq<char>>) -> bool {
    exists|i: int| 0 <= i < args.len() && is_concurrency_flag(#[trigger] args[i])
}

/// Whether `arg` sets a concurrency flag.
fn concurrency_flag(arg: &str) -> (flag: bool)
    ensures
        flag == is_concurrency_flag(arg@),
{
    str_eq(arg, "-j") || str_eq(arg, "--jobs") || starts_with(arg, "--jobs=") || (starts_with(
        arg,
        "-j",
    ) && arg.unicode_len() > 2) || str_eq(arg, "--build-jobs") || starts_with(arg, "--build-jobs=")
        || str_eq(arg, "--test-threads") || starts_with(arg, "--test-threads=")
}

/// Refuses arguments that would override the managed concurrency budget.
pub fn validate_resource_overrides(args: &[String]) -> (result: Result<(), &'static str>)
    ensures
        result is Err <==> has_concurrency_flag(views(args@)),
        result is Err ==> result->Err_0@ == "resource concurrency flags are managed by cargo-simd"@,
{
    let mut i: usize = 0;
    while i < args.len()
        invariant
            i <= args@.len(),
            forall|j: int| 0 <= j < i ==> !is_concurrency_flag(#[trigger] views(args@)[j]),
        decreases args@.len() - i,
    {
        if concurrency_flag(args[i].as_str()) {
            assert(is_concurrency_flag(views(args@)[i as int]));
            return Err("resource concurrency flags are managed by cargo-simd");
        }
        i += 1;
    }
    Ok(())
}

/// What parsing the shared options gives: the refusal of `--nextest` where
/// it is not allowed, the refusal of concurrency flags among the forwarded
/// arguments, or the options.
pub open spec fn parsed_as(
    args: Seq<Seq<char>>,
    allow_nextest: bool,
    result: Result<CommonOptions, &'static str>,
) -> bool {
    let forwarded = forwarded_args(args, allow_nextest);
    if !allow_nextest && args.contains("--nextest"@) {
        result is Err && result->Err_0@ == "`--nextest` is only valid for `cargo simd test`"@
    } else if has_concurrency_flag(forwarded) {
        result is Err && result->Err_0@ == "resource concurrency flags are managed by cargo-simd"@
    } else {
        &&& result is Ok
        &&& result->Ok_0.dry_run == args.contains("--dry-run"@)
        &&& result->Ok_0.online == args.contains("--online"@)
        &&& result->Ok_0.nextest == (allow_nextest && args.contains("--nextest"@))
        &&& views(result->Ok_0.forwarded@) == forwarded
    }
}

impl CommonOptions {
    /// Parses the options of `cargo simd build` (`allow_nextest` false) or
    /// `cargo simd test` (`allow_nextest` true).
    pub fn parse(args: &[String], allow_nextest: bool) -> (result: Result<Self, &'static str>)
        ensures
            parsed_as(views(args@), allow_nextest, result),
    {
        let ghost all = views(args@);
        let mut dry_run = false;
        let mut online = false;
        let mut nextest = false;
        let mut forwarded: Vec<String> = Vec::new();
        let mut i: usize = 0;
        while i < args.len()
            invariant
                i <= args@.len(),
                all == views(args@),
                dry_run == all.take(i as int).contains("--dry-run"@),
                online == all.take(i as int).contains("--online"@),
                nextest == (allow_nextest && all.take(i as int).contains("--nextest"@)),
                !allow_nextest ==> !all.take(i as int).contains("--nextest"@),
                views(forwarded@) == forwarded_args(all.take(i as int), allow_nextest),
            decreases args@.len() - i,
        {
            let arg = args[i].as_str();
            let ghost before = all.take(i as int);
            let ghost after = all.take(i + 1);
            proof {
                assert(after =~= before.push(arg@));
                assert(after.drop_last() =~= before);
                assert forall|x: Seq<char>| after.contains(x) <==> (before.contains(x) || x == arg@) by {
                    if after.contains(x) {
                        let j = choose|j: int| 0 <= j < after.len() && after[j] == x;
                        if j < before.len() {
                            assert(before[j] == x);
                        }
                    }
                    if before.contains(x) {
                        let j = choose|j: int| 0 <= j < before.len() && before[j] == x;
                        assert(after[j] == x);
                    }
                    if x == arg@ {
                        assert(after[i as int] == x);
                    }
                };
                assert(after.contains("--online"@) == (before.contains("--online"@) || arg@
                    == "--online"@));
                assert(after.contains("--dry-run"@) == (before.contains("--dry-run"@) || arg@
                    == "--dry-run"@));
                assert(after.contains("--nextest"@) == (before.contains("--nextest"@) || arg@
                    == "--nextest"@));
                reveal_strlit("--dry-run");
                reveal_strlit("--online");
                reveal_strlit("--nextest");
                assert("--dry-run"@.len() != "--online"@.len());
                assert("--dry-run"@[2] != "--nextest"@[2]);
                assert("--online"@.len() != "--nextest"@.len());
            }
            if str_eq(arg, "--dry-run") {
                dry_run = true;
            } else if str_eq(arg, "--online") {
                online = true;
            } else if str_eq(arg, "--nextest") {
                if allow_nextest {
                    nextest = true;
                } else {
                    assert(all.take(i + 1).contains("--nextest"@));
                    assert(all.contains("--nextest"@)) by {
                        assert(all[i as int] == "--nextest"@);
                    };
                    return Err("`--nextest` is only valid for `cargo simd test`");
                }
            } else {
                let ghost old_forwarded = forwarded@;
                forwarded.push(args[i].clone());
                assert(views(forwarded@) =~= views(old_forwarded).push(arg@));
            }
            i += 1;
        }
        assert(all.take(i as int) =~= all);
        match validate_resource_overrides(forwarded.as_slice()) {
            Err(message) => Err(message),
            Ok(()) => Ok(CommonOptions { dry_run, online, nextest, forwarded }),
        }
    }
}

/// The arguments of the `cargo build` command.
pub open spec fn build_args(build_jobs: nat, forwarded: Seq<Seq<char>>) -> Seq<Seq<char>> {
    seq!["build"@, "--jobs"@, decimal(build_jobs)] + forwarded
}

/// The index of the first `--` at or after `i`.
pub open spec fn separator_from(args: Seq<Seq<char>>, i: int) -> Option<int>
    decreases args.len() - i,
{
    if i < 0 || i >= args.len() {
        None
    } else if args[i] == "--"@ {
        Some(i)
    } else {
        separator_from(args, i + 1)
    }
}

/// The arguments of the `cargo test` command: Cargo's arguments (those before
/// the first `--`), then the harness's (those after it) with the thread count.
pub open spec fn cargo_test_args(build_jobs: nat, test_threads: nat, forwarded: Seq<Seq<char>>) -> Seq<
    Seq<char>,
> {
    let (cargo_args, harness_args) = match separator_from(forwarded, 0) {
        Some(k) => (forwarded.take(k), forwarded.skip(k + 1)),
        None => (forwarded, Seq::empty()),
    };
    seq!["test"@, "--jobs"@, decimal(build_jobs)] + cargo_args + seq!["--"@] + harness_args + seq![
        "--test-threads"@,
        decimal(test_threads),
    ]
}

/// The arguments of the `cargo nextest run` command.
pub open spec fn nextest_args(build_jobs: nat, test_threads: nat, forwarded: Seq<Seq<char>>) -> Seq<
    Seq<char>,
> {
    seq![
        "nextest"@,
        "run"@,
        "--build-jobs"@,
        decimal(build_jobs),
        "--test-threads"@,
        decimal(test_threads),
    ] + forwarded
}

fn push_owned(list: &mut Vec<String>, s: &str)
    ensures
        views(final(list)@) == views(old(list)@).push(s@),
{
    let ghost before = list@;
    list.push(owned(s));
    assert(views(list@) =~= views(before).push(s@));
}

fn push_number(list: &mut Vec<String>, n: usize)
    ensures
        views(final(list)@) == views(old(list)@).push(decimal(n as nat)),
{
    let mut text = String::new();
    push_decimal(&mut text, n as u64);
    let ghost before = list@;
    list.push(text);
    assert(views(list@) =~= views(before).push(decimal(n as nat)));
}

/// Plans `cargo build` with the build-job budget.
pub fn build_plan(build_jobs: usize, forwarded: &[String]) -> (plan: CommandPlan)
    ensures
        plan.program@ == "cargo"@,
        views(plan.args@) == build_args(build_jobs as nat, views(forwarded@)),
{
    let mut args: Vec<String> = Vec::new();
    push_owned(&mut args, "build");
    push_owned(&mut args, "--jobs");
    push_number(&mut args, build_jobs);
    extend_cloned(&mut args, forwarded);
    assert(views(args@) =~= build_args(build_jobs as nat, views(forwarded@)));
    CommandPlan { program: owned("cargo"), args }
}

/// Plans `cargo test` with the build-job budget for Cargo and the thread
/// budget for the test harness, keeping the caller's harness arguments.
pub fn cargo_test_plan(build_jobs: usize, test_threads: usize, forwarded: &[String]) -> (plan:
    CommandPlan)
    ensures
        plan.program@ == "cargo"@,
        views(plan.args@) == cargo_test_args(build_jobs as nat, test_threads as nat, views(forwarded@)),
{
    let ghost all = views(forwarded@);
    let mut k: usize = 0;
    while k < forwarded.len() && !str_eq(forwarded[k].as_str(), "--")
        invariant
            k <= forwarded@.len(),
            all == views(forwarded@),
            separator_from(all, 0) == separator_from(all, k as int),
        decreases forwarded@.len() - k,
    {
        k += 1;
    }
    let (cargo_args, harness_args) = if k < forwarded.len() {
        assert(separator_from(all, 0) == Some(k as int));
        (forwarded.split_at(k).0, forwarded.split_at(k + 1).1)
    } else {
        assert(separator_from(all, 0) is None);
        (forwarded, forwarded.split_at(k).1)
    };
    let mut args: Vec<String> = Vec::new();
    push_owned(&mut args, "test");
    push_owned(&mut args, "--jobs");
    push_number(&mut args, build_jobs);
    extend_cloned(&mut args, cargo_args);
    push_owned(&mut args, "--");
    extend_cloned(&mut args, harness_args);
    push_owned(&mut args, "--test-threads");
    push_number(&mut args, test_threads);
    assert(views(args@) =~= cargo_test_args(build_jobs as nat, test_threads as nat, all));
    CommandPlan { program: owned("cargo"), args }
}

/// Plans `cargo nextest run` with separate build and test budgets.
pub fn nextest_plan(build_jobs: usize, test_threads: usize, forwarded: &[String]) -> (plan:
    CommandPlan)
    ensures
        plan.program@ == "cargo"@,
        views(plan.args@) == nextest_args(build_jobs as nat, test_threads as nat, views(forwarded@)),
{
    let mut args: Vec<String> = Vec::new();
    push_owned(&mut args, "nextest");
    push_owned(&mut args, "run");
    push_owned(&mut args, "--build-jobs");
    push_number(&mut args, build_jobs);
    push_owned(&mut args, "--test-threads");
    push_number(&mut args, test_threads);
    extend_cloned(&mut args, forwarded);
    assert(views(args@) =~= nextest_args(build_jobs as nat, test_threads as nat, views(forwarded@)));
    CommandPlan { program: owned("cargo"), args }
}

/// The test runner `cargo simd test` launches: `cargo nextest` when asked
/// for, Cargo's own harness otherwise, labelled for the summary.
pub fn test_plan(options: &CommonOptions, budget: ResourceBudget) -> (planned: (&'static str, CommandPlan))
    ensures
        planned.1.program@ == "cargo"@,
        options.nextest ==> planned.0@ == "test/nextest"@ && views(planned.1.args@) == nextest_args(
            budget.build_jobs as nat,
            budget.test_threads as nat,
            views(options.forwarded@),
        ),
        !options.nextest ==> planned.0@ == "test/cargo"@ && views(planned.1.args@)
            == cargo_test_args(
            budget.build_jobs as nat,
            budget.test_threads as nat,
            views(options.forwarded@),
        ),
{
    if options.nextest {
        ("test/nextest", nextest_plan(budget.build_jobs, budget.test_threads, options.forwarded.as_slice()))
    } else {
        ("test/cargo", cargo_test_plan(budget.build_jobs, budget.test_threads, options.forwarded.as_slice()))
    }
}

/// The command line of a plan: the program and its arguments, separated by spaces.
pub open spec fn command_line(plan: CommandPlan) -> Seq<char> {
    plan.program@ + " "@ + joined(views(plan.args@), " "@)
}

/// The text shown before a planned command runs: the operation, the resource
/// budget, the network mode and the command line, then either the dry-run
/// notice or a blank line.
pub open spec fn execution_text(
    operation: Seq<char>,
    plan: CommandPlan,
    recommendation: Recommendation,
    dry_run: bool,
    online: bool,
) -> Seq<char> {
    "cargo-simd "@ + operation + "\n"@ + "\n"@ + "RESOURCE BUDGET\n"@ + "  policy             "@
        + recommendation.policy.label() + "\n"@ + "  build jobs         "@ + decimal(
        recommendation.budget.build_jobs as nat,
    ) + "\n"@ + "  test threads       "@ + decimal(recommendation.budget.test_threads as nat)
        + "\n"@ + "  network            "@ + (if online {
        "Cargo default / explicitly allowed"@
    } else {
        "offline"@
    }) + "\n"@ + "  reason             "@ + recommendation.reason@ + "\n"@ + "\n"@ + "COMMAND\n"@
        + "  "@ + command_line(plan) + "\n"@ + (if dry_run {
        "\n"@ + "dry-run: command not executed\n"@
    } else {
        "\n"@
    })
}

/// Renders the text shown before a planned command runs.
pub fn execution_summary(
    operation: &str,
    plan: &CommandPlan,
    recommendation: &Recommendation,
    dry_run: bool,
    online: bool,
) -> (text: String)
    ensures
        text@ == execution_text(operation@, *plan, *recommendation, dry_run, online),
{
    let mut out = String::new();
    out.append("cargo-simd ");
    out.append(operation);
    out.append("\n");
    out.append("\n");
    out.append("RESOURCE BUDGET\n");
    out.append("  policy             ");
    out.append(recommendation.policy.name());
    out.append("\n");
    out.append("  build jobs         ");
    push_decimal(&mut out, recommendation.budget.build_jobs as u64);
    out.append("\n");
    out.append("  test threads       ");
    push_decimal(&mut out, recommendation.budget.test_threads as u64);
    out.append("\n");
    out.append("  network            ");
    if online {
        out.append("Cargo default / explicitly allowed");
    } else {
        out.append("offline");
    }
    out.append("\n");
    out.append("  reason             ");
    out.append(recommendation.reason);
    out.append("\n");
    out.append("\n");
    out.append("COMMAND\n");
    out.append("  ");
    out.append(plan.program.as_str());
    out.append(" ");
    push_joined(&mut out, plan.args.as_slice(), " ");
    out.append("\n");
    if dry_run {
        out.append("\n");
        out.append("dry-run: command not executed\n");
    } else {
        out.append("\n");
    }
    assert(out@ =~= execution_text(operation@, *plan, *recommendation, dry_run, online));
    out
}


/// Options that parse never forward a concurrency flag, so the only
/// concurrency settings in a planned command are the managed budget's.
pub proof fn lemma_accepted_options_forward_no_concurrency_flag(
    args: Seq<Seq<char>>,
    allow_nextest: bool,
    result: Result<CommonOptions, &'static str>,
)
    requires
        parsed_as(args, allow_nextest, result),
        result is Ok,
    ensures
        !has_concurrency_flag(views(result->Ok_0.forwarded@)),
{
}

} // verus!
