//! `cargo simd doctor`: its option check, byte formatting and report text.
use vstd::prelude::*;

use crate::capabilities::Capabilities;
use crate::policy::{chosen_policy, reason_text, recommend, recommended_budget, Policy, Recommendation, ResourceBudget};
use crate::project::ProjectInfo;
use crate::system::SystemInfo;
use crate::binary64::{divide_rounding, nearest_double, round_half_even, to_nearest_double};
use crate::text::{decimal, digit_char, digit_str, owned, push_decimal, str_eq, views};

verus! {

/// `x / unit` with two decimals, rounded half to even, then the unit's name.
pub open spec fn scaled_text(x: nat, unit: nat, name: Seq<char>) -> Seq<char> {
    let hundredths = round_half_even(100 * x, unit);
    decimal(hundredths / 100) + "."@ + seq![
        digit_char((hundredths % 100) / 10),
        digit_char(hundredths % 10),
    ] + " "@ + name
}

/// A byte count in the largest binary unit it reaches, with two decimals;
/// under one KiB, whole bytes.
pub open spec fn bytes_text(bytes: u64) -> Seq<char> {
    let x = nearest_double(bytes as nat);
    if x >= 1073741824 {
        scaled_text(x, 1073741824, "GiB"@)
    } else if x >= 1048576 {
        scaled_text(x, 1048576, "MiB"@)
    } else if x >= 1024 {
        scaled_text(x, 1024, "KiB"@)
    } else {
        decimal(x) + " B"@
    }
}

/// Appends `x / unit` with two decimals and the unit's name.
fn push_scaled(out: &mut String, x: u128, unit: u128, name: &str)
    requires
        1024 <= unit <= 1073741824,
        x <= 18446744073709551616 + 2048,
    ensures
        final(out)@ == old(out)@ + scaled_text(x as nat, unit as nat, name@),
{
    let hundredths = divide_rounding(100 * x, unit);
    proof {
        let n = 100 * (x as int);
        assert(n / (unit as int) <= n / 1) by {
            vstd::arithmetic::div_mod::lemma_div_is_ordered_by_denominator(n, 1, unit as int);
        };
        assert(n / (unit as int) <= n / 1024) by {
            vstd::arithmetic::div_mod::lemma_div_is_ordered_by_denominator(n, 1024, unit as int);
        };
    }
    let whole = (hundredths / 100) as u64;
    push_decimal(out, whole);
    out.append(".");
    out.append(digit_str(((hundredths % 100) / 10) as u64));
    out.append(digit_str((hundredths % 10) as u64));
    out.append(" ");
    out.append(name);
    assert(final(out)@ =~= old(out)@ + scaled_text(x as nat, unit as nat, name@));
}

/// Formats a byte count in the largest binary unit it reaches.
pub fn format_bytes(bytes: u64) -> (text: String)
    ensures
        text@ == bytes_text(bytes),
{
    let x = to_nearest_double(bytes);
    let mut out = String::new();
    if x >= 1073741824 {
        push_scaled(&mut out, x, 1073741824, "GiB");
    } else if x >= 1048576 {
        push_scaled(&mut out, x, 1048576, "MiB");
    } else if x >= 1024 {
        push_scaled(&mut out, x, 1024, "KiB");
    } else {
        push_decimal(&mut out, x as u64);
        out.append(" B");
    }
    assert(out@ =~= bytes_text(bytes));
    out
}

/// Formats an optional byte count, `"unknown"` when absent.
pub fn format_optional_bytes(bytes: Option<u64>) -> (text: String)
    ensures
        text@ == match bytes {
            Some(b) => bytes_text(b),
            None => "unknown"@,
        },
{
    match bytes {
        Some(b) => format_bytes(b),
        None => owned("unknown"),
    }
}

/// Returns `"yes"` or `"no"`.
pub fn yes_no(value: bool) -> (text: &'static str)
    ensures
        text@ == (if value { "yes"@ } else { "no"@ }),
{
    if value {
        "yes"
    } else {
        "no"
    }
}

/// `"yes"` or `"no"`.
pub open spec fn yes_no_text(value: bool) -> Seq<char> {
    if value {
        "yes"@
    } else {
        "no"@
    }
}

/// A byte count's rendering, `"unknown"` when absent.
pub open spec fn optional_bytes_text(bytes: Option<u64>) -> Seq<char> {
    match bytes {
        Some(b) => bytes_text(b),
        None => "unknown"@,
    }
}

/// A text, `"unknown"` when absent.
pub open spec fn or_unknown(text: Option<String>) -> Seq<char> {
    match text {
        Some(t) => t@,
        None => "unknown"@,
    }
}

/// The first argument that is not `--deep`, if any.
pub open spec fn first_unsupported(args: Seq<Seq<char>>, i: int) -> Option<Seq<char>>
    decreases args.len() - i,
{
    if i < 0 || i >= args.len() {
        None
    } else if args[i] != "--deep"@ {
        Some(args[i])
    } else {
        first_unsupported(args, i + 1)
    }
}

/// Checks the options of `cargo simd doctor`: `--deep` is the only one.
/// Gives whether a deep inspection was asked for, or the message naming the
/// first other argument.
pub fn parse_doctor_options(args: &[String]) -> (result: Result<bool, String>)
    ensures
        match first_unsupported(views(args@), 0) {
            Some(arg) => result is Err && result->Err_0@ == "unsupported doctor option `"@ + arg
                + "`"@,
            None => result is Ok && result->Ok_0 == views(args@).contains("--deep"@),
        },
{
    let ghost all = views(args@);
    let mut i: usize = 0;
    while i < args.len()
        invariant
            i <= args@.len(),
            all == views(args@),
            first_unsupported(all, 0) == first_unsupported(all, i as int),
            forall|j: int| 0 <= j < i ==> all[j] == "--deep"@,
        decreases args@.len() - i,
    {
        assert(all[i as int] == args@[i as int]@);
        if !str_eq(args[i].as_str(), "--deep") {
            let mut message = owned("unsupported doctor option `");
            message.append(args[i].as_str());
            message.append("`");
            return Err(message);
        }
        i += 1;
    }
    if args.len() == 0 {
        assert(!all.contains("--deep"@));
        Ok(false)
    } else {
        assert(all[0] == "--deep"@);
        Ok(true)
    }
}

/// The SYSTEM section of the doctor report.
pub open spec fn system_text(capabilities: Capabilities, system: SystemInfo) -> Seq<char> {
    "SYSTEM\n"@ + "  architecture       "@ + capabilities.arch().label() + "\n"@
        + "  operating system   "@ + system.operating_system@ + "\n"@ + "  logical CPUs       "@
        + decimal(system.logical_cpus as nat) + "\n"@ + "  memory total       "@
        + optional_bytes_text(system.memory_total_bytes) + "\n"@ + "  memory available   "@
        + optional_bytes_text(system.memory_available_bytes) + "\n"@
}

/// The RUST section of the doctor report.
pub open spec fn rust_text(system: SystemInfo) -> Seq<char> {
    "RUST\n"@ + "  rustc              "@ + or_unknown(system.rustc_version) + "\n"@
        + "  cargo              "@ + or_unknown(system.cargo_version) + "\n"@
}

/// The SIMD section of the doctor report.
pub open spec fn simd_text(capabilities: Capabilities) -> Seq<char> {
    "SIMD\n"@ + "  vector model       "@ + (if capabilities.avx2_flag() || capabilities.neon_flag()
        || capabilities.wasm_simd128_flag() {
        "fixed-width"@
    } else {
        "scalar"@
    }) + "\n"@ + "  selected backend   "@ + capabilities.best().label() + "\n"@
        + "  AVX2 available     "@ + yes_no_text(capabilities.avx2_flag()) + "\n"@
        + "  FMA available      "@ + yes_no_text(capabilities.fma_flag()) + "\n"@
        + "  NEON available     "@ + yes_no_text(capabilities.neon_flag()) + "\n"@
        + "  WASM SIMD128       "@ + yes_no_text(capabilities.wasm_simd128_flag()) + "\n"@
}

/// The PROJECT section of the doctor report.
pub open spec fn project_text(project: ProjectInfo, deep: bool) -> Seq<char> {
    "PROJECT\n"@ + match project.root {
        Some(root) => "  root               "@ + root@ + "\n"@ + "  Cargo.lock         "@
            + yes_no_text(project.has_lockfile) + "\n"@ + "  target directory   "@ + (
        match project.target_directory {
            Some(directory) => directory@,
            None => "not present"@,
        }) + "\n"@ + (if deep {
            "  target size        "@ + optional_bytes_text(project.target_size_bytes) + "\n"@
        } else {
            "  target size        skipped (use --deep)\n"@
        }),
        None => "  root               no Cargo project detected\n"@,
    }
}

/// The RECOMMENDATION section of the doctor report for a policy, budget
/// and reason.
pub open spec fn recommendation_lines(policy: Policy, budget: ResourceBudget, reason: Seq<char>) -> Seq<char> {
    "RECOMMENDATION\n"@ + "  policy             "@ + policy.label() + "\n"@
        + "  build jobs         "@ + decimal(budget.build_jobs as nat) + "\n"@
        + "  test threads       "@ + decimal(budget.test_threads as nat) + "\n"@
        + "  reason             "@ + reason + "\n"@
}

/// The RECOMMENDATION section for a given recommendation.
pub open spec fn recommendation_text(recommendation: Recommendation) -> Seq<char> {
    recommendation_lines(recommendation.policy, recommendation.budget, recommendation.reason@)
}

/// The RECOMMENDATION section for what the resource policy recommends for
/// the host.
pub open spec fn recommended_text(system: SystemInfo) -> Seq<char> {
    recommendation_lines(chosen_policy(system), recommended_budget(system), reason_text(chosen_policy(system)))
}

/// The closing STATUS section, with the hint about `--deep` when not given.
pub open spec fn status_text(deep: bool) -> Seq<char> {
    "STATUS\n"@ + "  ✓ toolchain inspection\n"@ + "  ✓ shared SIMD capability model\n"@
        + "  ✓ resource policy\n"@ + "  ✓ project inspection\n"@ + (if deep {
        Seq::empty()
    } else {
        "\n"@ + "Run `cargo simd doctor --deep` for target-size analysis.\n"@
    })
}

/// The whole doctor report.
pub open spec fn doctor_text(
    capabilities: Capabilities,
    system: SystemInfo,
    project: ProjectInfo,
    recommendation: Seq<char>,
    deep: bool,
) -> Seq<char> {
    "cargo-simd doctor\n"@ + "\n"@ + system_text(capabilities, system) + "\n"@ + rust_text(system)
        + "\n"@ + simd_text(capabilities) + "\n"@ + project_text(project, deep) + "\n"@
        + recommendation + "\n"@ + status_text(deep)
}

fn push_optional_bytes(out: &mut String, bytes: Option<u64>)
    ensures
        final(out)@ == old(out)@ + optional_bytes_text(bytes),
{
    let text = format_optional_bytes(bytes);
    out.append(text.as_str());
}

fn push_or_unknown(out: &mut String, text: &Option<String>)
    ensures
        final(out)@ == old(out)@ + or_unknown(*text),
{
    match text {
        Some(t) => out.append(t.as_str()),
        None => out.append("unknown"),
    }
}

fn system_section(capabilities: Capabilities, system: &SystemInfo) -> (text: String)
    ensures
        text@ == system_text(capabilities, *system),
{
    let mut out = String::new();
    out.append("SYSTEM\n");
    out.append("  architecture       ");
    out.append(capabilities.architecture().name());
    out.append("\n");
    out.append("  operating system   ");
    out.append(system.operating_system);
    out.append("\n");
    out.append("  logical CPUs       ");
    push_decimal(&mut out, system.logical_cpus as u64);
    out.append("\n");
    out.append("  memory total       ");
    push_optional_bytes(&mut out, system.memory_total_bytes);
    out.append("\n");
    out.append("  memory available   ");
    push_optional_bytes(&mut out, system.memory_available_bytes);
    out.append("\n");
    assert(out@ =~= system_text(capabilities, *system));
    out
}

fn rust_section(system: &SystemInfo) -> (text: String)
    ensures
        text@ == rust_text(*system),
{
    let mut out = String::new();
    out.append("RUST\n");
    out.append("  rustc              ");
    push_or_unknown(&mut out, &system.rustc_version);
    out.append("\n");
    out.append("  cargo              ");
    push_or_unknown(&mut out, &system.cargo_version);
    out.append("\n");
    assert(out@ =~= rust_text(*system));
    out
}

fn simd_section(capabilities: Capabilities) -> (text: String)
    ensures
        text@ == simd_text(capabilities),
{
    let mut out = String::new();
    out.append("SIMD\n");
    out.append("  vector model       ");
    out.append(capabilities.vector_model().name());
    out.append("\n");
    out.append("  selected backend   ");
    out.append(capabilities.best_backend().name());
    out.append("\n");
    out.append("  AVX2 available     ");
    out.append(yes_no(capabilities.has_avx2()));
    out.append("\n");
    out.append("  FMA available      ");
    out.append(yes_no(capabilities.has_fma()));
    out.append("\n");
    out.append("  NEON available     ");
    out.append(yes_no(capabilities.has_neon()));
    out.append("\n");
    out.append("  WASM SIMD128       ");
    out.append(yes_no(capabilities.has_wasm_simd128()));
    out.append("\n");
    assert(out@ =~= simd_text(capabilities));
    out
}

fn project_section(project: &ProjectInfo, deep: bool) -> (text: String)
    ensures
        text@ == project_text(*project, deep),
{
    let mut out = String::new();
    out.append("PROJECT\n");
    match &project.root {
        Some(root) => {
            out.append("  root               ");
            out.append(root.as_str());
            out.append("\n");
            out.append("  Cargo.lock         ");
            out.append(yes_no(project.has_lockfile));
            out.append("\n");
            out.append("  target directory   ");
            match &project.target_directory {
                Some(directory) => out.append(directory.as_str()),
                None => out.append("not present"),
            }
            out.append("\n");
            if deep {
                out.append("  target size        ");
                push_optional_bytes(&mut out, project.target_size_bytes);
                out.append("\n");
            } else {
                out.append("  target size        skipped (use --deep)\n");
            }
        },
        None => {
            out.append("  root               no Cargo project detected\n");
        },
    }
    assert(out@ =~= project_text(*project, deep));
    out
}

fn recommendation_section(recommendation: &Recommendation) -> (text: String)
    ensures
        text@ == recommendation_text(*recommendation),
{
    let mut out = String::new();
    out.append("RECOMMENDATION\n");
    out.append("  policy             ");
    out.append(recommendation.policy.name());
    out.append("\n");
    out.append("  build jobs         ");
    push_decimal(&mut out, recommendation.budget.build_jobs as u64);
    out.append("\n");
    out.append("  test threads       ");
    push_decimal(&mut out, recommendation.budget.test_threads as u64);
    out.append("\n");
    out.append("  reason             ");
    out.append(recommendation.reason);
    out.append("\n");
    assert(out@ =~= recommendation_text(*recommendation));
    out
}

fn status_section(deep: bool) -> (text: String)
    ensures
        text@ == status_text(deep),
{
    let mut out = String::new();
    out.append("STATUS\n");
    out.append("  ✓ toolchain inspection\n");
    out.append("  ✓ shared SIMD capability model\n");
    out.append("  ✓ resource policy\n");
    out.append("  ✓ project inspection\n");
    if !deep {
        out.append("\n");
        out.append("Run `cargo simd doctor --deep` for target-size analysis.\n");
    }
    assert(out@ =~= status_text(deep));
    out
}

/// Renders the doctor report from what was inspected.
pub fn doctor_report(
    capabilities: Capabilities,
    system: &SystemInfo,
    project: &ProjectInfo,
    recommendation: &Recommendation,
    deep: bool,
) -> (text: String)
    ensures
        text@ == doctor_text(capabilities, *system, *project, recommendation_text(*recommendation), deep),
{
    let mut out = String::new();
    out.append("cargo-simd doctor\n");
    out.append("\n");
    let section = system_section(capabilities, system);
    out.append(section.as_str());
    out.append("\n");
    let section = rust_section(system);
    out.append(section.as_str());
    out.append("\n");
    let section = simd_section(capabilities);
    out.append(section.as_str());
    out.append("\n");
    let section = project_section(project, deep);
    out.append(section.as_str());
    out.append("\n");
    let section = recommendation_section(recommendation);
    out.append(section.as_str());
    out.append("\n");
    let section = status_section(deep);
    out.append(section.as_str());
    assert(out@ =~= doctor_text(capabilities, *system, *project, recommendation_text(*recommendation), deep));
    out
}

/// Renders the doctor report with the resource policy's recommendation for
/// the host.
pub fn recommended_doctor_report(
    capabilities: Capabilities,
    system: &SystemInfo,
    project: &ProjectInfo,
    deep: bool,
) -> (text: String)
    ensures
        text@ == doctor_text(capabilities, *system, *project, recommended_text(*system), deep),
{
    let recommendation = recommend(system);
    doctor_report(capabilities, system, project, &recommendation, deep)
}

/// `line` stands somewhere in `text`.
pub open spec fn shows_line(text: Seq<char>, line: Seq<char>) -> bool {
    exists|i: int| 0 <= i && i + line.len() <= text.len() && #[trigger] text.subrange(i, i + line.len()) == line
}

/// A line that stands in a text stands in any text around it.
proof fn lemma_shows_line_within(before: Seq<char>, text: Seq<char>, after: Seq<char>, line: Seq<char>)
    requires
        shows_line(text, line),
    ensures
        shows_line(before + text + after, line),
{
    let i = choose|i: int| 0 <= i && i + line.len() <= text.len() && #[trigger] text.subrange(i, i + line.len()) == line;
    let whole = before + text + after;
    let j = before.len() + i;
    assert(whole.subrange(j, j + line.len()) =~= text.subrange(i, i + line.len()));
}

/// With a Cargo project, the PROJECT section shows the project's root,
/// whether it has a lockfile, and its target directory's path; "not present"
/// stands there only when it has no target directory.
pub proof fn lemma_project_section_shows_project(project: ProjectInfo, deep: bool)
    requires
        project.root is Some,
    ensures
        shows_line(project_text(project, deep), "  root               "@ + project.root->0@ + "\n"@),
        shows_line(
            project_text(project, deep),
            "  Cargo.lock         "@ + (if project.has_lockfile {
                "yes"@
            } else {
                "no"@
            }) + "\n"@,
        ),
        project.target_directory is Some ==> shows_line(
            project_text(project, deep),
            "  target directory   "@ + project.target_directory->0@ + "\n"@,
        ),
        project.target_directory is None ==> shows_line(
            project_text(project, deep),
            "  target directory   "@ + "not present"@ + "\n"@,
        ),
{
    let lock = "  Cargo.lock         "@ + yes_no_text(project.has_lockfile) + "\n"@;
    let shown = match project.target_directory {
        Some(directory) => directory@,
        None => "not present"@,
    };
    let target = "  target directory   "@ + shown + "\n"@;
    let size = if deep {
        "  target size        "@ + optional_bytes_text(project.target_size_bytes) + "\n"@
    } else {
        "  target size        skipped (use --deep)\n"@
    };
    let head = "PROJECT\n"@;
    let root_line = "  root               "@ + project.root->0@ + "\n"@;
    let text = project_text(project, deep);
    assert(text =~= head + root_line + lock + target + size);
    let a: int = head.len() as int;
    let b: int = a + root_line.len();
    let c: int = b + lock.len();
    assert(text.subrange(a, a + root_line.len()) =~= root_line);
    assert(text.subrange(b, b + lock.len()) =~= lock);
    assert(text.subrange(c, c + target.len()) =~= target);
}

/// The doctor report shows a project's target directory's path, as its
/// PROJECT section does.
pub proof fn lemma_doctor_report_shows_target_directory(
    capabilities: Capabilities,
    system: SystemInfo,
    project: ProjectInfo,
    recommendation: Seq<char>,
    deep: bool,
)
    requires
        project.root is Some,
        project.target_directory is Some,
    ensures
        shows_line(
            doctor_text(capabilities, system, project, recommendation, deep),
            "  target directory   "@ + project.target_directory->0@ + "\n"@,
        ),
{
    lemma_project_section_shows_project(project, deep);
    let before = "cargo-simd doctor\n"@ + "\n"@ + system_text(capabilities, system) + "\n"@ + rust_text(system)
        + "\n"@ + simd_text(capabilities) + "\n"@;
    let after = "\n"@ + recommendation + "\n"@ + status_text(deep);
    let text = project_text(project, deep);
    assert(doctor_text(capabilities, system, project, recommendation, deep) =~= before + text + after);
    lemma_shows_line_within(before, text, after, "  target directory   "@ + project.target_directory->0@ + "\n"@);
}

} // verus!
