//! The verification report of `cargo simd verify`, rendered as text or JSON.
use vstd::prelude::*;

use crate::text::{decimal, digit_char, push_decimal, views};

verus! {

/// The version of the JSON report layout.
pub const REPORT_SCHEMA_VERSION: u32 = 1;

/// The outcome of one check.
#[derive(Debug, Clone, Copy, PartialEq, Eq, Structural)]
pub enum CheckStatus {
    Pass,
    Fail,
    NotRun,
}

impl CheckStatus {
    /// The status's JSON name.
    pub open spec fn label(self) -> Seq<char> {
        match self {
            CheckStatus::Pass => "pass"@,
            CheckStatus::Fail => "fail"@,
            CheckStatus::NotRun => "not-run"@,
        }
    }

    /// The status's text-report name.
    pub open spec fn display_label(self) -> Seq<char> {
        match self {
            CheckStatus::Pass => "PASS"@,
            CheckStatus::Fail => "FAIL"@,
            CheckStatus::NotRun => "NOT RUN"@,
        }
    }

    /// The status's JSON name.
    pub fn as_str(self) -> (text: &'static str)
        ensures
            text@ == self.label(),
    {
        match self {
            CheckStatus::Pass => "pass",
            CheckStatus::Fail => "fail",
            CheckStatus::NotRun => "not-run",
        }
    }
}

/// Renders a status for the text report.
pub fn display_status(status: CheckStatus) -> (text: &'static str)
    ensures
        text@ == status.display_label(),
{
    match status {
        CheckStatus::Pass => "PASS",
        CheckStatus::Fail => "FAIL",
        CheckStatus::NotRun => "NOT RUN",
    }
}

/// A floating-point value as the reports show it. A finite value carries its
/// decimal rendering for the text report and, for JSON, the rendering of the
/// value widened to 64 bits.
#[derive(Debug)]
pub enum FloatText {
    Finite { display: String, json: String },
    NaN,
    Infinity,
    NegInfinity,
}

impl FloatText {
    /// The text-report rendering.
    pub open spec fn display_text(self) -> Seq<char> {
        match self {
            FloatText::Finite { display, .. } => display@,
            FloatText::NaN => "NaN"@,
            FloatText::Infinity => "inf"@,
            FloatText::NegInfinity => "-inf"@,
        }
    }

    /// The JSON rendering: a number when finite, otherwise a string naming
    /// the value, so the document stays valid JSON.
    pub open spec fn json_text(self) -> Seq<char> {
        match self {
            FloatText::Finite { json, .. } => json@,
            FloatText::NaN => json_string("NaN"@),
            FloatText::Infinity => json_string("Infinity"@),
            FloatText::NegInfinity => json_string("-Infinity"@),
        }
    }
}

/// One failed check of one backend.
#[derive(Debug)]
pub struct FailureRecord {
    pub backend: String,
    pub operation: String,
    pub case_name: Option<String>,
    pub length: usize,
    pub index: Option<usize>,
    pub actual: FloatText,
    pub expected: FloatText,
    pub error: FloatText,
    pub tolerance: FloatText,
}

/// The outcome of a verification run.
#[derive(Debug)]
pub struct VerificationReport {
    pub tool_version: &'static str,
    pub backend_filter: Option<String>,
    pub backends: Vec<String>,
    pub lengths: Vec<usize>,
    pub lengths_completed: usize,
    pub numerical_cases: CheckStatus,
    pub vector_add: CheckStatus,
    pub fma: CheckStatus,
    pub reduce_sum: CheckStatus,
    pub dot: CheckStatus,
    pub failures: Vec<FailureRecord>,
}

/// The lowercase hexadecimal digit of `d`.
pub open spec fn hex_char(d: nat) -> char {
    if d < 10 {
        digit_char(d)
    } else {
        (d + 87) as char
    }
}

/// How one character appears inside a JSON string.
pub open spec fn escape_char(c: char) -> Seq<char> {
    if c == '"' {
        "\\\""@
    } else if c == '\\' {
        "\\\\"@
    } else if c == '\n' {
        "\\n"@
    } else if c == '\r' {
        "\\r"@
    } else if c == '\t' {
        "\\t"@
    } else if c == '\u{08}' {
        "\\b"@
    } else if c == '\u{0c}' {
        "\\f"@
    } else if (c as u32) <= 0x1f {
        "\\u00"@ + seq![hex_char((c as u32 / 16) as nat), hex_char((c as u32 % 16) as nat)]
    } else {
        seq![c]
    }
}

/// The characters of `s`, each escaped for a JSON string.
pub open spec fn escaped(s: Seq<char>) -> Seq<char>
    decreases s.len(),
{
    if s.len() == 0 {
        Seq::empty()
    } else {
        escaped(s.drop_last()) + escape_char(s.last())
    }
}

/// `s` as a JSON string literal.
pub open spec fn json_string(s: Seq<char>) -> Seq<char> {
    "\""@ + escaped(s) + "\""@
}

fn hex_str(d: u32) -> (text: &'static str)
    requires
        d < 16,
    ensures
        text@ == seq![hex_char(d as nat)],
{
    if d < 10 {
        return crate::text::digit_str(d as u64);
    }
    proof {
        reveal_strlit("a");
        reveal_strlit("b");
        reveal_strlit("c");
        reveal_strlit("d");
        reveal_strlit("e");
        reveal_strlit("f");
    }
    let text = match d {
        10 => "a",
        11 => "b",
        12 => "c",
        13 => "d",
        14 => "e",
        _ => "f",
    };
    assert(text@ =~= seq![hex_char(d as nat)]);
    text
}

/// Appends the escaped form of the character at `value[i]`.
fn push_escaped_char(out: &mut String, value: &str, i: usize)
    requires
        i < value@.len() <= usize::MAX,
    ensures
        final(out)@ == old(out)@ + escape_char(value@[i as int]),
{
    let c = value.get_char(i);
    if c == '"' {
        out.append("\\\"");
    } else if c == '\\' {
        out.append("\\\\");
    } else if c == '\n' {
        out.append("\\n");
    } else if c == '\r' {
        out.append("\\r");
    } else if c == '\t' {
        out.append("\\t");
    } else if c == '\u{08}' {
        out.append("\\b");
    } else if c == '\u{0c}' {
        out.append("\\f");
    } else if (c as u32) <= 0x1f {
        out.append("\\u00");
        out.append(hex_str(c as u32 / 16));
        out.append(hex_str(c as u32 % 16));
        assert(final(out)@ =~= old(out)@ + escape_char(c));
    } else {
        out.append(value.substring_char(i, i + 1));
        assert(value@.subrange(i as int, i + 1) =~= seq![c]);
    }
}

/// Appends `value` as a JSON string literal.
pub fn push_json_string(out: &mut String, value: &str)
    ensures
        final(out)@ == old(out)@ + json_string(value@),
{
    let ghost start = out@;
    out.append("\"");
    let n = value.unicode_len();
    let mut i: usize = 0;
    while i < n
        invariant
            n == value@.len(),
            i <= n,
            out@ == start + "\""@ + escaped(value@.take(i as int)),
        decreases n - i,
    {
        push_escaped_char(out, value, i);
        proof {
            assert(value@.take(i + 1).drop_last() =~= value@.take(i as int));
            assert(out@ =~= start + "\""@ + escaped(value@.take(i + 1)));
        }
        i += 1;
    }
    out.append("\"");
    assert(value@.take(n as int) =~= value@);
    assert(out@ =~= start + json_string(value@));
}

/// Appends a value's text-report rendering.
fn push_float_display(out: &mut String, value: &FloatText)
    ensures
        final(out)@ == old(out)@ + value.display_text(),
{
    match value {
        FloatText::Finite { display, .. } => out.append(display.as_str()),
        FloatText::NaN => out.append("NaN"),
        FloatText::Infinity => out.append("inf"),
        FloatText::NegInfinity => out.append("-inf"),
    }
}

/// Appends a value's JSON rendering.
fn push_float_json(out: &mut String, value: &FloatText)
    ensures
        final(out)@ == old(out)@ + value.json_text(),
{
    match value {
        FloatText::Finite { json, .. } => out.append(json.as_str()),
        FloatText::NaN => push_json_string(out, "NaN"),
        FloatText::Infinity => push_json_string(out, "Infinity"),
        FloatText::NegInfinity => push_json_string(out, "-Infinity"),
    }
}

/// The text-report lines listing the backends.
pub open spec fn backend_lines(backends: Seq<Seq<char>>) -> Seq<char>
    decreases backends.len(),
{
    if backends.len() == 0 {
        Seq::empty()
    } else {
        backend_lines(backends.drop_last()) + "  - "@ + backends.last() + "\n"@
    }
}

/// The text-report block describing one failure.
pub open spec fn failure_text(failure: FailureRecord) -> Seq<char> {
    "\n"@ + "SIMD verification: FAILED\n"@ + "\n"@ + "  backend            "@ + failure.backend@
        + "\n"@ + "  operation          "@ + failure.operation@ + "\n"@ + (match failure.case_name {
        Some(case_name) => "  case               "@ + case_name@ + "\n"@,
        None => Seq::empty(),
    }) + "  length             "@ + decimal(failure.length as nat) + "\n"@ + (match failure.index {
        Some(index) => "  index              "@ + decimal(index as nat) + "\n"@,
        None => Seq::empty(),
    }) + "  actual             "@ + failure.actual.display_text() + "\n"@ + "  expected           "@
        + failure.expected.display_text() + "\n"@ + "  absolute error     "@
        + failure.error.display_text() + "\n"@ + "  tolerance          "@
        + failure.tolerance.display_text() + "\n"@
}

/// The text-report blocks of all failures, in order.
pub open spec fn failures_text(failures: Seq<FailureRecord>) -> Seq<char>
    decreases failures.len(),
{
    if failures.len() == 0 {
        Seq::empty()
    } else {
        failures_text(failures.drop_last()) + failure_text(failures.last())
    }
}

/// JSON strings separated by commas.
pub open spec fn json_strings(items: Seq<Seq<char>>) -> Seq<char>
    decreases items.len(),
{
    if items.len() == 0 {
        Seq::empty()
    } else if items.len() == 1 {
        json_string(items[0])
    } else {
        json_strings(items.drop_last()) + ","@ + json_string(items.last())
    }
}

/// Decimal numbers separated by commas.
pub open spec fn json_numbers(items: Seq<usize>) -> Seq<char>
    decreases items.len(),
{
    if items.len() == 0 {
        Seq::empty()
    } else if items.len() == 1 {
        decimal(items[0] as nat)
    } else {
        json_numbers(items.drop_last()) + ","@ + decimal(items.last() as nat)
    }
}

/// The JSON object describing one failure.
pub open spec fn failure_json(failure: FailureRecord) -> Seq<char> {
    "{"@ + "\"backend\":"@ + json_string(failure.backend@) + ","@ + "\"operation\":"@ + json_string(
        failure.operation@,
    ) + ","@ + "\"case\":"@ + (match failure.case_name {
        Some(case_name) => json_string(case_name@),
        None => "null"@,
    }) + ","@ + "\"length\":"@ + decimal(failure.length as nat) + ","@ + "\"index\":"@ + (
    match failure.index {
        Some(index) => decimal(index as nat),
        None => "null"@,
    }) + ","@ + "\"actual\":"@ + failure.actual.json_text() + ","@ + "\"expected\":"@
        + failure.expected.json_text() + ","@ + "\"error\":"@ + failure.error.json_text() + ","@
        + "\"tolerance\":"@ + failure.tolerance.json_text() + "}"@
}

/// The JSON objects of all failures, separated by commas.
pub open spec fn failures_json(failures: Seq<FailureRecord>) -> Seq<char>
    decreases failures.len(),
{
    if failures.len() == 0 {
        Seq::empty()
    } else if failures.len() == 1 {
        failure_json(failures[0])
    } else {
        failures_json(failures.drop_last()) + ","@ + failure_json(failures.last())
    }
}

impl VerificationReport {
    /// Every check ran and passed, every length was completed and nothing failed.
    pub open spec fn all_passed(self) -> bool {
        &&& self.failures@.len() == 0
        &&& self.lengths_completed == self.lengths@.len()
        &&& self.numerical_cases == CheckStatus::Pass
        &&& self.vector_add == CheckStatus::Pass
        &&& self.fma == CheckStatus::Pass
        &&& self.reduce_sum == CheckStatus::Pass
        &&& self.dot == CheckStatus::Pass
    }

    /// The overall status word.
    pub open spec fn status_label(self) -> Seq<char> {
        if self.all_passed() {
            "pass"@
        } else {
            "fail"@
        }
    }

    /// The summary of a passing run.
    pub open spec fn summary_text(self) -> Seq<char> {
        "\n"@ + "verification summary\n"@ + "  lengths tested     "@ + decimal(
            self.lengths_completed as nat,
        ) + "\n"@ + "  backends tested    "@ + decimal(self.backends@.len()) + "\n"@
            + "  numerical cases    "@ + self.numerical_cases.display_label() + "\n"@
            + "  vector_add         "@ + self.vector_add.display_label() + "\n"@
            + "  fma                "@ + self.fma.display_label() + "\n"@ + "  reduce_sum         "@
            + self.reduce_sum.display_label() + "\n"@ + "  dot                "@
            + self.dot.display_label() + "\n"@ + "\n"@ + "SIMD verification: PASS\n"@
    }

    /// The human-readable report.
    pub open spec fn text(self) -> Seq<char> {
        "cargo-simd verify\n"@ + "\n"@ + (if self.backend_filter is Some {
            "selected backend:\n"@
        } else {
            "available backends:\n"@
        }) + backend_lines(views(self.backends@)) + "\n"@ + "running differential verification...\n"@
            + (if self.lengths_completed == self.lengths@.len() {
            "running structured numerical cases...\n"@
        } else {
            Seq::empty()
        }) + (if self.all_passed() {
            self.summary_text()
        } else {
            failures_text(self.failures@)
        })
    }

    /// The JSON report.
    pub open spec fn json(self) -> Seq<char> {
        "{"@ + self.identity_json() + self.lengths_json() + self.checks_json() + "\"failures\":["@
            + failures_json(self.failures@) + "]}"@
    }

    /// The schema, tool, status and backend members of the JSON report.
    pub open spec fn identity_json(self) -> Seq<char> {
        "\"schema_version\":"@ + decimal(REPORT_SCHEMA_VERSION as nat) + ","@
            + "\"tool\":\"cargo-simd\","@ + "\"tool_version\":"@ + json_string(self.tool_version@)
            + ","@ + "\"status\":"@ + json_string(self.status_label()) + ","@
            + "\"backend_filter\":"@ + (match self.backend_filter {
            Some(backend) => json_string(backend@),
            None => "null"@,
        }) + ","@ + "\"backends\":["@ + json_strings(views(self.backends@)) + "],"@
    }

    /// The `lengths` member of the JSON report, with its trailing comma.
    pub open spec fn lengths_json(self) -> Seq<char> {
        "\"lengths\":{"@ + "\"total\":"@ + decimal(self.lengths@.len()) + ","@ + "\"completed\":"@
            + decimal(self.lengths_completed as nat) + ","@ + "\"cases\":["@ + json_numbers(
            self.lengths@,
        ) + "]},"@
    }

    /// A report of a run that has not started: no length completed, no check run.
    pub fn new(
        tool_version: &'static str,
        backend_filter: Option<String>,
        backends: Vec<String>,
        lengths: Vec<usize>,
    ) -> (report: Self)
        ensures
            report.tool_version == tool_version,
            report.backend_filter == backend_filter,
            report.backends == backends,
            report.lengths == lengths,
            report.lengths_completed == 0,
            report.numerical_cases == CheckStatus::NotRun,
            report.vector_add == CheckStatus::NotRun,
            report.fma == CheckStatus::NotRun,
            report.reduce_sum == CheckStatus::NotRun,
            report.dot == CheckStatus::NotRun,
            report.failures@.len() == 0,
    {
        VerificationReport {
            tool_version,
            backend_filter,
            backends,
            lengths,
            lengths_completed: 0,
            numerical_cases: CheckStatus::NotRun,
            vector_add: CheckStatus::NotRun,
            fma: CheckStatus::NotRun,
            reduce_sum: CheckStatus::NotRun,
            dot: CheckStatus::NotRun,
            failures: Vec::new(),
        }
    }

    /// Whether the run passed.
    pub fn passed(&self) -> (passed: bool)
        ensures
            passed == self.all_passed(),
    {
        self.failures.len() == 0 && self.lengths_completed == self.lengths.len()
            && self.numerical_cases == CheckStatus::Pass && self.vector_add == CheckStatus::Pass
            && self.fma == CheckStatus::Pass && self.reduce_sum == CheckStatus::Pass && self.dot
            == CheckStatus::Pass
    }

    /// `"pass"` or `"fail"`.
    pub fn status(&self) -> (status: &'static str)
        ensures
            status@ == self.status_label(),
    {
        if self.passed() {
            "pass"
        } else {
            "fail"
        }
    }

    fn summary(&self) -> (text: String)
        ensures
            text@ == self.summary_text(),
    {
        let mut text = String::new();
        let out = &mut text;
        out.append("\n");
        out.append("verification summary\n");
        out.append("  lengths tested     ");
        push_decimal(out, self.lengths_completed as u64);
        out.append("\n");
        out.append("  backends tested    ");
        push_decimal(out, self.backends.len() as u64);
        out.append("\n");
        out.append("  numerical cases    ");
        out.append(display_status(self.numerical_cases));
        out.append("\n");
        out.append("  vector_add         ");
        out.append(display_status(self.vector_add));
        out.append("\n");
        out.append("  fma                ");
        out.append(display_status(self.fma));
        out.append("\n");
        out.append("  reduce_sum         ");
        out.append(display_status(self.reduce_sum));
        out.append("\n");
        out.append("  dot                ");
        out.append(display_status(self.dot));
        out.append("\n");
        out.append("\n");
        out.append("SIMD verification: PASS\n");
        assert(text@ =~= self.summary_text());
        text
    }

    /// Renders the human-readable report.
    pub fn to_text(&self) -> (text: String)
        ensures
            text@ == self.text(),
    {
        let mut out = String::new();
        out.append("cargo-simd verify\n");
        out.append("\n");
        if self.backend_filter.is_some() {
            out.append("selected backend:\n");
        } else {
            out.append("available backends:\n");
        }
        let ghost head = out@;
        let mut i: usize = 0;
        while i < self.backends.len()
            invariant
                i <= self.backends@.len(),
                out@ == head + backend_lines(views(self.backends@.subrange(0, i as int))),
            decreases self.backends@.len() - i,
        {
            out.append("  - ");
            out.append(self.backends[i].as_str());
            out.append("\n");
            proof {
                let before = views(self.backends@.subrange(0, i as int));
                let after = views(self.backends@.subrange(0, i + 1));
                assert(after.drop_last() =~= before);
                assert(out@ =~= head + backend_lines(after));
            }
            i += 1;
        }
        assert(self.backends@.subrange(0, i as int) =~= self.backends@);
        out.append("\n");
        out.append("running differential verification...\n");
        if self.lengths_completed == self.lengths.len() {
            out.append("running structured numerical cases...\n");
        }
        let ghost body = out@;
        if self.passed() {
            let summary = self.summary();
            out.append(summary.as_str());
        } else {
            let mut k: usize = 0;
            while k < self.failures.len()
                invariant
                    k <= self.failures@.len(),
                    out@ == body + failures_text(self.failures@.subrange(0, k as int)),
                decreases self.failures@.len() - k,
            {
                let block = failure_block(&self.failures[k]);
                out.append(block.as_str());
                proof {
                    let after = self.failures@.subrange(0, k + 1);
                    assert(after.drop_last() =~= self.failures@.subrange(0, k as int));
                    assert(out@ =~= body + failures_text(after));
                }
                k += 1;
            }
            assert(self.failures@.subrange(0, k as int) =~= self.failures@);
        }
        assert(out@ =~= self.text());
        out
    }

    /// Renders the JSON report.
    pub fn to_json(&self) -> (text: String)
        ensures
            text@ == self.json(),
    {
        let mut out = String::new();
        out.append("{");
        let identity = self.identity();
        out.append(identity.as_str());
        let lengths = self.lengths_member();
        out.append(lengths.as_str());
        let checks = self.checks();
        out.append(checks.as_str());
        out.append("\"failures\":[");
        push_failures_json(&mut out, self.failures.as_slice());
        out.append("]}");
        assert(out@ =~= self.json());
        out
    }

    fn identity(&self) -> (text: String)
        ensures
            text@ == self.identity_json(),
    {
        let mut out = String::new();
        out.append("\"schema_version\":");
        push_decimal(&mut out, REPORT_SCHEMA_VERSION as u64);
        out.append(",");
        out.append("\"tool\":\"cargo-simd\",");
        out.append("\"tool_version\":");
        push_json_string(&mut out, self.tool_version);
        out.append(",");
        out.append("\"status\":");
        push_json_string(&mut out, self.status());
        out.append(",");
        out.append("\"backend_filter\":");
        match &self.backend_filter {
            Some(backend) => push_json_string(&mut out, backend.as_str()),
            None => out.append("null"),
        }
        out.append(",");
        out.append("\"backends\":[");
        push_json_strings(&mut out, self.backends.as_slice());
        out.append("],");
        assert(out@ =~= self.identity_json());
        out
    }

    fn lengths_member(&self) -> (text: String)
        ensures
            text@ == self.lengths_json(),
    {
        let mut out = String::new();
        out.append("\"lengths\":{");
        out.append("\"total\":");
        push_decimal(&mut out, self.lengths.len() as u64);
        out.append(",");
        out.append("\"completed\":");
        push_decimal(&mut out, self.lengths_completed as u64);
        out.append(",");
        out.append("\"cases\":[");
        push_json_numbers(&mut out, self.lengths.as_slice());
        out.append("]},");
        assert(out@ =~= self.lengths_json());
        out
    }

    /// The `checks` member of the JSON report, with its trailing comma.
    pub open spec fn checks_json(self) -> Seq<char> {
        "\"checks\":{"@ + "\"numerical_cases\":"@ + json_string(self.numerical_cases.label()) + ","@
            + "\"vector_add\":"@ + json_string(self.vector_add.label()) + ","@ + "\"fma\":"@
            + json_string(self.fma.label()) + ","@ + "\"reduce_sum\":"@ + json_string(
            self.reduce_sum.label(),
        ) + ","@ + "\"dot\":"@ + json_string(self.dot.label()) + "},"@
    }

    fn checks(&self) -> (text: String)
        ensures
            text@ == self.checks_json(),
    {
        let mut text = String::new();
        let out = &mut text;
        out.append("\"checks\":{");
        out.append("\"numerical_cases\":");
        push_json_string(out, self.numerical_cases.as_str());
        out.append(",");
        out.append("\"vector_add\":");
        push_json_string(out, self.vector_add.as_str());
        out.append(",");
        out.append("\"fma\":");
        push_json_string(out, self.fma.as_str());
        out.append(",");
        out.append("\"reduce_sum\":");
        push_json_string(out, self.reduce_sum.as_str());
        out.append(",");
        out.append("\"dot\":");
        push_json_string(out, self.dot.as_str());
        out.append("},");
        assert(text@ =~= self.checks_json());
        text
    }
}

fn failure_block(failure: &FailureRecord) -> (text: String)
    ensures
        text@ == failure_text(*failure),
{
    let mut text = String::new();
    let out = &mut text;
    out.append("\n");
    out.append("SIMD verification: FAILED\n");
    out.append("\n");
    out.append("  backend            ");
    out.append(failure.backend.as_str());
    out.append("\n");
    out.append("  operation          ");
    out.append(failure.operation.as_str());
    out.append("\n");
    let ghost mid = out@;
    match &failure.case_name {
        Some(case_name) => {
            out.append("  case               ");
            out.append(case_name.as_str());
            out.append("\n");
        },
        None => {},
    }
    out.append("  length             ");
    push_decimal(out, failure.length as u64);
    out.append("\n");
    match failure.index {
        Some(index) => {
            out.append("  index              ");
            push_decimal(out, index as u64);
            out.append("\n");
        },
        None => {},
    }
    out.append("  actual             ");
    push_float_display(out, &failure.actual);
    out.append("\n");
    out.append("  expected           ");
    push_float_display(out, &failure.expected);
    out.append("\n");
    out.append("  absolute error     ");
    push_float_display(out, &failure.error);
    out.append("\n");
    out.append("  tolerance          ");
    push_float_display(out, &failure.tolerance);
    out.append("\n");
    assert(text@ =~= failure_text(*failure));
    text
}

fn failure_object(failure: &FailureRecord) -> (text: String)
    ensures
        text@ == failure_json(*failure),
{
    let mut text = String::new();
    let out = &mut text;
    out.append("{");
    out.append("\"backend\":");
    push_json_string(out, failure.backend.as_str());
    out.append(",");
    out.append("\"operation\":");
    push_json_string(out, failure.operation.as_str());
    out.append(",");
    out.append("\"case\":");
    match &failure.case_name {
        Some(case_name) => push_json_string(out, case_name.as_str()),
        None => out.append("null"),
    }
    out.append(",");
    out.append("\"length\":");
    push_decimal(out, failure.length as u64);
    out.append(",");
    out.append("\"index\":");
    match failure.index {
        Some(index) => push_decimal(out, index as u64),
        None => out.append("null"),
    }
    out.append(",");
    out.append("\"actual\":");
    push_float_json(out, &failure.actual);
    out.append(",");
    out.append("\"expected\":");
    push_float_json(out, &failure.expected);
    out.append(",");
    out.append("\"error\":");
    push_float_json(out, &failure.error);
    out.append(",");
    out.append("\"tolerance\":");
    push_float_json(out, &failure.tolerance);
    out.append("}");
    assert(text@ =~= failure_json(*failure));
    text
}

fn push_json_strings(out: &mut String, items: &[String])
    ensures
        final(out)@ == old(out)@ + json_strings(views(items@)),
{
    let ghost start = out@;
    let mut i: usize = 0;
    while i < items.len()
        invariant
            i <= items@.len(),
            out@ == start + json_strings(views(items@.subrange(0, i as int))),
        decreases items@.len() - i,
    {
        if i != 0 {
            out.append(",");
        }
        push_json_string(out, items[i].as_str());
        proof {
            let after = views(items@.subrange(0, i + 1));
            assert(after.drop_last() =~= views(items@.subrange(0, i as int)));
            assert(out@ =~= start + json_strings(after));
        }
        i += 1;
    }
    assert(items@.subrange(0, i as int) =~= items@);
}

fn push_json_numbers(out: &mut String, items: &[usize])
    ensures
        final(out)@ == old(out)@ + json_numbers(items@),
{
    let ghost start = out@;
    let mut i: usize = 0;
    while i < items.len()
        invariant
            i <= items@.len(),
            out@ == start + json_numbers(items@.subrange(0, i as int)),
        decreases items@.len() - i,
    {
        if i != 0 {
            out.append(",");
        }
        push_decimal(out, items[i] as u64);
        proof {
            let after = items@.subrange(0, i + 1);
            assert(after.drop_last() =~= items@.subrange(0, i as int));
            assert(out@ =~= start + json_numbers(after));
        }
        i += 1;
    }
    assert(items@.subrange(0, i as int) =~= items@);
}

fn push_failures_json(out: &mut String, failures: &[FailureRecord])
    ensures
        final(out)@ == old(out)@ + failures_json(failures@),
{
    let ghost start = out@;
    let mut i: usize = 0;
    while i < failures.len()
        invariant
            i <= failures@.len(),
            out@ == start + failures_json(failures@.subrange(0, i as int)),
        decreases failures@.len() - i,
    {
        if i != 0 {
            out.append(",");
        }
        let object = failure_object(&failures[i]);
        out.append(object.as_str());
        proof {
            let after = failures@.subrange(0, i + 1);
            assert(after.drop_last() =~= failures@.subrange(0, i as int));
            assert(out@ =~= start + failures_json(after));
        }
        i += 1;
    }
    assert(failures@.subrange(0, i as int) =~= failures@);
}

/// The JSON report's arrays separate their items by commas: an empty list
/// gives nothing, one item its own JSON text, and appending an item to a
/// non-empty list adds a comma and that item's text. This holds of the
/// backend names, the lengths and the failures alike.
pub proof fn lemma_json_arrays_comma_separated(
    names: Seq<Seq<char>>,
    name: Seq<char>,
    lengths: Seq<usize>,
    length: usize,
    failures: Seq<FailureRecord>,
    failure: FailureRecord,
)
    ensures
        json_strings(Seq::empty()) == Seq::<char>::empty(),
        json_strings(seq![name]) == json_string(name),
        names.len() > 0 ==> json_strings(names.push(name)) == json_strings(names) + ","@ + json_string(name),
        json_numbers(Seq::empty()) == Seq::<char>::empty(),
        json_numbers(seq![length]) == decimal(length as nat),
        lengths.len() > 0 ==> json_numbers(lengths.push(length)) == json_numbers(lengths) + ","@
            + decimal(length as nat),
        failures_json(Seq::empty()) == Seq::<char>::empty(),
        failures_json(seq![failure]) == failure_json(failure),
        failures.len() > 0 ==> failures_json(failures.push(failure)) == failures_json(failures) + ","@
            + failure_json(failure),
{
    assert(names.push(name).drop_last() =~= names);
    assert(lengths.push(length).drop_last() =~= lengths);
    assert(failures.push(failure).drop_last() =~= failures);
}

/// The text report lists one line per backend and one block per failure, in
/// order: appending a backend adds its line, appending a failure its block.
pub proof fn lemma_text_lists_in_order(
    names: Seq<Seq<char>>,
    name: Seq<char>,
    failures: Seq<FailureRecord>,
    failure: FailureRecord,
)
    ensures
        backend_lines(Seq::empty()) == Seq::<char>::empty(),
        backend_lines(names.push(name)) == backend_lines(names) + "  - "@ + name + "\n"@,
        failures_text(Seq::empty()) == Seq::<char>::empty(),
        failures_text(failures.push(failure)) == failures_text(failures) + failure_text(failure),
{
    assert(names.push(name).drop_last() =~= names);
    assert(failures.push(failure).drop_last() =~= failures);
}

} // verus!
