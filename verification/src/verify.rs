//! The decisions of `cargo simd verify`: option parsing, backend selection,
//! the lengths and inputs to check, and how outcomes update the report.
use vstd::prelude::*;

use crate::backend::{BackendKind, Engine};
use crate::capabilities::Capabilities;
use crate::report::{CheckStatus, FailureRecord, VerificationReport};
use crate::text::{has_prefix, owned, starts_with, str_eq, views};

verus! {

/// The options of `cargo simd verify`.
#[derive(Debug, PartialEq, Eq)]
pub struct VerifyOptions {
    pub json: bool,
    pub backend: Option<String>,
}

/// The error for a second backend option.
pub open spec fn duplicate_backend_message() -> Seq<char> {
    "`--backend` may only be specified once"@
}

/// The error for a backend option without a name.
pub open spec fn missing_backend_message() -> Seq<char> {
    "`--backend` requires a backend name"@
}

/// The error for an argument `cargo simd verify` does not know.
pub open spec fn unknown_argument_message(argument: Seq<char>) -> Seq<char> {
    "unknown verify argument `"@ + argument + "`; use `cargo simd verify --help`"@
}

/// What parsing `args` from index `i` on gives, having already seen `json`
/// and `backend`: the JSON flag and backend name, or the first error.
pub open spec fn options_from(
    args: Seq<Seq<char>>,
    i: int,
    json: bool,
    backend: Option<Seq<char>>,
) -> Result<(bool, Option<Seq<char>>), Seq<char>>
    decreases args.len() - i,
{
    if i < 0 || i >= args.len() {
        Ok((json, backend))
    } else if args[i] == "--json"@ {
        options_from(args, i + 1, true, backend)
    } else if args[i] == "--backend"@ {
        if backend is Some {
            Err(duplicate_backend_message())
        } else if i + 1 >= args.len() || has_prefix(args[i + 1], "-"@) {
            Err(missing_backend_message())
        } else {
            options_from(args, i + 2, json, Some(args[i + 1]))
        }
    } else if has_prefix(args[i], "--backend="@) {
        if backend is Some {
            Err(duplicate_backend_message())
        } else if args[i].len() == "--backend="@.len() {
            Err(missing_backend_message())
        } else {
            options_from(args, i + 1, json, Some(args[i].skip("--backend="@.len() as int)))
        }
    } else {
        Err(unknown_argument_message(args[i]))
    }
}

/// The characters of an optional string.
pub open spec fn option_view(backend: Option<String>) -> Option<Seq<char>> {
    match backend {
        Some(name) => Some(name@),
        None => None,
    }
}

/// Parses the arguments of `cargo simd verify`.
pub fn parse_options(args: &[String]) -> (result: Result<VerifyOptions, String>)
    ensures
        match options_from(views(args@), 0, false, None) {
            Ok((json, backend)) => result is Ok && result->Ok_0.json == json && option_view(
                result->Ok_0.backend,
            ) == backend,
            Err(message) => result is Err && result->Err_0@ == message,
        },
{
    let ghost all = views(args@);
    let mut json = false;
    let mut backend: Option<String> = None;
    let mut index: usize = 0;
    proof {
        reveal_strlit("--backend=");
    }
    let prefix_len: usize = 10;
    assert(prefix_len == "--backend="@.len());
    while index < args.len()
        invariant
            index <= args@.len(),
            all == views(args@),
            prefix_len == "--backend="@.len(),
            options_from(all, 0, false, None) == options_from(
                all,
                index as int,
                json,
                option_view(backend),
            ),
        decreases args@.len() - index,
    {
        let argument = args[index].as_str();
        assert(all[index as int] == argument@);
        if str_eq(argument, "--json") {
            json = true;
            index += 1;
        } else if str_eq(argument, "--backend") {
            if backend.is_some() {
                return Err(owned("`--backend` may only be specified once"));
            }
            if index + 1 >= args.len() {
                return Err(owned("`--backend` requires a backend name"));
            }
            let value = args[index + 1].as_str();
            assert(all[index + 1] == value@);
            if starts_with(value, "-") {
                return Err(owned("`--backend` requires a backend name"));
            }
            backend = Some(owned(value));
            index += 2;
        } else if starts_with(argument, "--backend=") {
            if backend.is_some() {
                return Err(owned("`--backend` may only be specified once"));
            }
            let n = argument.unicode_len();
            if n == prefix_len {
                return Err(owned("`--backend` requires a backend name"));
            }
            let value = argument.substring_char(prefix_len, n);
            assert(value@ =~= argument@.skip(prefix_len as int));
            backend = Some(owned(value));
            index += 1;
        } else {
            let mut message = owned("unknown verify argument `");
            message.append(argument);
            message.append("`; use `cargo simd verify --help`");
            return Err(message);
        }
    }
    Ok(VerifyOptions { json, backend })
}

/// The backend a name on the command line selects.
pub open spec fn named_backend(name: Seq<char>) -> Option<BackendKind> {
    if name == "scalar"@ {
        Some(BackendKind::Scalar)
    } else if name == "avx2"@ {
        Some(BackendKind::Avx2)
    } else if name == "avx2+fma"@ {
        Some(BackendKind::Avx2Fma)
    } else if name == "neon"@ {
        Some(BackendKind::Neon)
    } else if name == "wasm-simd128"@ {
        Some(BackendKind::WasmSimd128)
    } else {
        None
    }
}

/// A backend is selected by its own name and by no other: naming a backend
/// selects exactly the backend that the name is the label of.
pub proof fn lemma_backend_names_round_trip(name: Seq<char>, kind: BackendKind)
    ensures
        named_backend(kind.label()) == Some(kind),
        named_backend(name) == Some(kind) <==> name == kind.label(),
{
    reveal_strlit("scalar");
    reveal_strlit("avx2");
    reveal_strlit("avx2+fma");
    reveal_strlit("neon");
    reveal_strlit("wasm-simd128");
    assert("avx2"@[0] != "neon"@[0]);
    assert("scalar"@.len() == 6 && "avx2"@.len() == 4 && "avx2+fma"@.len() == 8 && "neon"@.len() == 4
        && "wasm-simd128"@.len() == 12);
}

/// The error for a backend the host cannot run.
pub open spec fn unavailable_message(backend: Seq<char>) -> Seq<char> {
    "backend `"@ + backend + "` is not available on this machine/build"@
}

/// The error for a name that is no backend.
pub open spec fn unknown_backend_message(backend: Seq<char>) -> Seq<char> {
    "unknown backend `"@ + backend
        + "`; expected one of: scalar, avx2, avx2+fma, neon, wasm-simd128"@
}

/// The backends of a list of engines.
pub open spec fn kinds(engines: Seq<Engine>) -> Seq<BackendKind> {
    engines.map_values(|engine: Engine| engine.kind())
}

/// Every implemented backend the capabilities support, scalar first, then
/// AVX2, AVX2+FMA, NEON and SIMD128.
pub open spec fn supported_kinds(capabilities: Capabilities) -> Seq<BackendKind> {
    seq![BackendKind::Scalar] + (if capabilities.supports(BackendKind::Avx2) {
        seq![BackendKind::Avx2]
    } else {
        Seq::empty()
    }) + (if capabilities.supports(BackendKind::Avx2Fma) {
        seq![BackendKind::Avx2Fma]
    } else {
        Seq::empty()
    }) + (if capabilities.supports(BackendKind::Neon) {
        seq![BackendKind::Neon]
    } else {
        Seq::empty()
    }) + (if capabilities.supports(BackendKind::WasmSimd128) {
        seq![BackendKind::WasmSimd128]
    } else {
        Seq::empty()
    })
}

/// An item is in a concatenation exactly when it is in one of the parts.
proof fn lemma_concat_contains(a: Seq<BackendKind>, b: Seq<BackendKind>, x: BackendKind)
    ensures
        (a + b).contains(x) <==> (a.contains(x) || b.contains(x)),
{
    if a.contains(x) {
        let i = choose|i: int| 0 <= i < a.len() && a[i] == x;
        assert((a + b)[i] == x);
    }
    if b.contains(x) {
        let i = choose|i: int| 0 <= i < b.len() && b[i] == x;
        assert((a + b)[a.len() + i] == x);
    }
    if (a + b).contains(x) {
        let i = choose|i: int| 0 <= i < (a + b).len() && (a + b)[i] == x;
        if i < a.len() {
            assert(a[i] == x);
        } else {
            assert(b[i - a.len()] == x);
        }
    }
}

/// A backend taken when supported is listed exactly when it is `x` and supported.
proof fn lemma_optional_contains(c: Capabilities, kind: BackendKind, x: BackendKind)
    ensures
        (if c.supports(kind) {
            seq![kind]
        } else {
            Seq::<BackendKind>::empty()
        }).contains(x) <==> (x == kind && c.supports(kind)),
{
    if c.supports(kind) {
        assert(seq![kind][0] == kind);
    }
}

/// With no backend named, verification covers exactly the backends the
/// capabilities support, scalar first.
pub proof fn lemma_supported_kinds_complete(capabilities: Capabilities, kind: BackendKind)
    ensures
        supported_kinds(capabilities).contains(kind) <==> capabilities.supports(kind),
        supported_kinds(capabilities)[0] == BackendKind::Scalar,
{
    let c = capabilities;
    let s0 = seq![BackendKind::Scalar];
    let o1 = if c.supports(BackendKind::Avx2) { seq![BackendKind::Avx2] } else { Seq::<BackendKind>::empty() };
    let o2 = if c.supports(BackendKind::Avx2Fma) { seq![BackendKind::Avx2Fma] } else { Seq::<BackendKind>::empty() };
    let o3 = if c.supports(BackendKind::Neon) { seq![BackendKind::Neon] } else { Seq::<BackendKind>::empty() };
    let o4 = if c.supports(BackendKind::WasmSimd128) {
        seq![BackendKind::WasmSimd128]
    } else {
        Seq::<BackendKind>::empty()
    };
    let s = supported_kinds(c);
    assert(s == s0 + o1 + o2 + o3 + o4);
    lemma_concat_contains(s0 + o1 + o2 + o3, o4, kind);
    lemma_concat_contains(s0 + o1 + o2, o3, kind);
    lemma_concat_contains(s0 + o1, o2, kind);
    lemma_concat_contains(s0, o1, kind);
    lemma_optional_contains(c, BackendKind::Avx2, kind);
    lemma_optional_contains(c, BackendKind::Avx2Fma, kind);
    lemma_optional_contains(c, BackendKind::Neon, kind);
    lemma_optional_contains(c, BackendKind::WasmSimd128, kind);
    assert(s0.contains(kind) <==> kind == BackendKind::Scalar) by {
        assert(s0[0] == BackendKind::Scalar);
    }
}

/// The message for a backend the host cannot run.
pub fn unavailable_backend_error(backend: &str) -> (message: String)
    ensures
        message@ == unavailable_message(backend@),
{
    let mut message = owned("backend `");
    message.append(backend);
    message.append("` is not available on this machine/build");
    message
}

/// An engine for every backend the capabilities support.
pub fn available_engines(capabilities: Capabilities) -> (engines: Vec<Engine>)
    ensures
        kinds(engines@) == supported_kinds(capabilities),
        forall|kind: BackendKind| #[trigger] kinds(engines@).contains(kind) <==> capabilities.supports(kind),
{
    let mut engines: Vec<Engine> = Vec::new();
    engines.push(Engine::scalar());
    assert(kinds(engines@) =~= seq![BackendKind::Scalar]);
    let ghost k0 = kinds(engines@);
    if let Ok(engine) = Engine::avx2(capabilities) {
        engines.push(engine);
    }
    assert(kinds(engines@) =~= k0 + (if capabilities.supports(BackendKind::Avx2) {
        seq![BackendKind::Avx2]
    } else {
        Seq::empty()
    }));
    let ghost k1 = kinds(engines@);
    if let Ok(engine) = Engine::avx2_fma(capabilities) {
        engines.push(engine);
    }
    assert(kinds(engines@) =~= k1 + (if capabilities.supports(BackendKind::Avx2Fma) {
        seq![BackendKind::Avx2Fma]
    } else {
        Seq::empty()
    }));
    let ghost k2 = kinds(engines@);
    if let Ok(engine) = Engine::neon(capabilities) {
        engines.push(engine);
    }
    assert(kinds(engines@) =~= k2 + (if capabilities.supports(BackendKind::Neon) {
        seq![BackendKind::Neon]
    } else {
        Seq::empty()
    }));
    let ghost k3 = kinds(engines@);
    if let Ok(engine) = Engine::wasm_simd128(capabilities) {
        engines.push(engine);
    }
    assert(kinds(engines@) =~= k3 + (if capabilities.supports(BackendKind::WasmSimd128) {
        seq![BackendKind::WasmSimd128]
    } else {
        Seq::empty()
    }));
    assert(kinds(engines@) == supported_kinds(capabilities));
    proof {
        assert forall|kind: BackendKind| #[trigger] kinds(engines@).contains(kind)
            <==> capabilities.supports(kind) by {
            lemma_supported_kinds_complete(capabilities, kind);
        }
    }
    engines
}

/// What selecting `backend` gives: every supported engine when no backend is
/// named, the named one when it is supported, otherwise an error naming it.
pub open spec fn selected_as(
    capabilities: Capabilities,
    backend: Option<Seq<char>>,
    result: Result<Vec<Engine>, String>,
) -> bool {
    match backend {
        None => result is Ok && kinds(result->Ok_0@) == supported_kinds(capabilities),
        Some(name) => match named_backend(name) {
            None => result is Err && result->Err_0@ == unknown_backend_message(name),
            Some(kind) => if capabilities.supports(kind) {
                result is Ok && kinds(result->Ok_0@) == seq![kind]
            } else {
                result is Err && result->Err_0@ == unavailable_message(kind.label())
            },
        },
    }
}

fn single(engine: Engine) -> (engines: Vec<Engine>)
    ensures
        kinds(engines@) == seq![engine.kind()],
{
    let mut engines = Vec::new();
    engines.push(engine);
    assert(kinds(engines@) =~= seq![engine.kind()]);
    engines
}

/// Chooses the engines to verify.
pub fn select_engines(backend: Option<&str>, capabilities: Capabilities) -> (result: Result<
    Vec<Engine>,
    String,
>)
    ensures
        selected_as(
            capabilities,
            match backend {
                Some(name) => Some(name@),
                None => None,
            },
            result,
        ),
{
    let name = match backend {
        None => return Ok(available_engines(capabilities)),
        Some(name) => name,
    };
    if str_eq(name, "scalar") {
        Ok(single(Engine::scalar()))
    } else if str_eq(name, "avx2") {
        match Engine::avx2(capabilities) {
            Ok(engine) => Ok(single(engine)),
            Err(_) => Err(unavailable_backend_error("avx2")),
        }
    } else if str_eq(name, "avx2+fma") {
        match Engine::avx2_fma(capabilities) {
            Ok(engine) => Ok(single(engine)),
            Err(_) => Err(unavailable_backend_error("avx2+fma")),
        }
    } else if str_eq(name, "neon") {
        match Engine::neon(capabilities) {
            Ok(engine) => Ok(single(engine)),
            Err(_) => Err(unavailable_backend_error("neon")),
        }
    } else if str_eq(name, "wasm-simd128") {
        match Engine::wasm_simd128(capabilities) {
            Ok(engine) => Ok(single(engine)),
            Err(_) => Err(unavailable_backend_error("wasm-simd128")),
        }
    } else {
        let mut message = owned("unknown backend `");
        message.append(name);
        message.append("`; expected one of: scalar, avx2, avx2+fma, neon, wasm-simd128");
        Err(message)
    }
}

/// `--help` or `-h` is among the arguments.
pub open spec fn asks_for_help(args: Seq<Seq<char>>) -> bool {
    exists|i: int| 0 <= i < args.len() && (args[i] == "--help"@ || args[i] == "-h"@)
}

/// Whether `--help` or `-h` is among the arguments.
pub fn wants_help(args: &[String]) -> (help: bool)
    ensures
        help == asks_for_help(views(args@)),
{
    let ghost all = views(args@);
    let mut index: usize = 0;
    while index < args.len()
        invariant
            index <= args@.len(),
            all == views(args@),
            forall|i: int| 0 <= i < index ==> !(all[i] == "--help"@ || all[i] == "-h"@),
        decreases args@.len() - index,
    {
        let argument = args[index].as_str();
        assert(all[index as int] == argument@);
        if str_eq(argument, "--help") || str_eq(argument, "-h") {
            return true;
        }
        index += 1;
    }
    false
}

/// How `cargo simd verify` starts: by showing its help, by reporting an
/// invalid request, or by running with its options on the chosen engines.
#[derive(Debug)]
pub enum VerifyStart {
    Help,
    Invalid(String),
    Ready(VerifyOptions, Vec<Engine>),
}

/// Decides how `cargo simd verify` starts: the help when asked for;
/// otherwise the first option error, or else the backend selection's error,
/// or else the options and the selected engines.
pub fn start_verification(args: &[String], capabilities: Capabilities) -> (start: VerifyStart)
    ensures
        (start is Help) == asks_for_help(views(args@)),
        !asks_for_help(views(args@)) ==> match options_from(views(args@), 0, false, None) {
            Err(message) => start is Invalid && start->Invalid_0@ == message,
            Ok((json, backend)) => match start {
                VerifyStart::Ready(options, engines) => options.json == json
                    && option_view(options.backend) == backend
                    && selected_as(capabilities, backend, Ok(engines)),
                VerifyStart::Invalid(message) => selected_as(capabilities, backend, Err(message)),
                VerifyStart::Help => false,
            },
        },
{
    if wants_help(args) {
        return VerifyStart::Help;
    }
    let options = match parse_options(args) {
        Ok(options) => options,
        Err(message) => return VerifyStart::Invalid(message),
    };
    let selection = match &options.backend {
        Some(name) => select_engines(Some(name.as_str()), capabilities),
        None => select_engines(None, capabilities),
    };
    match selection {
        Ok(engines) => VerifyStart::Ready(options, engines),
        Err(message) => VerifyStart::Invalid(message),
    }
}

/// The exit status `cargo simd verify` ends with without running: 0 after
/// the help, 2 for an invalid request; none when it goes on to run.
pub fn start_exit_code(start: &VerifyStart) -> (code: Option<u8>)
    ensures
        code == match *start {
            VerifyStart::Help => Some(0u8),
            VerifyStart::Invalid(_) => Some(2u8),
            VerifyStart::Ready(_, _) => None::<u8>,
        },
{
    match start {
        VerifyStart::Help => Some(0),
        VerifyStart::Invalid(_) => Some(2),
        VerifyStart::Ready(_, _) => None,
    }
}

/// The exit status after a run: 0 when the report passed, 1 otherwise.
pub fn report_exit_code(report: &VerificationReport) -> (code: u8)
    ensures
        code == (if report.all_passed() { 0u8 } else { 1u8 }),
{
    if report.passed() {
        0
    } else {
        1
    }
}

/// The input lengths every backend is checked at: small sizes, and the
/// boundaries around each vector width and block size.
pub open spec fn checked_lengths() -> Seq<usize> {
    seq![
        0usize, 1, 2, 3, 7, 8, 9, 15, 16, 17, 31, 32, 33, 63, 64, 65, 127, 128, 129, 255, 256, 257,
        1023, 1024, 1025, 4095, 4096, 4097, 16383, 16384, 16385,
    ]
}

/// The input lengths every backend is checked at.
pub fn verification_lengths() -> (lengths: Vec<usize>)
    ensures
        lengths@ == checked_lengths(),
{
    let lengths = vec![
        0usize, 1, 2, 3, 7, 8, 9, 15, 16, 17, 31, 32, 33, 63, 64, 65, 127, 128, 129, 255, 256, 257,
        1023, 1024, 1025, 4095, 4096, 4097, 16383, 16384, 16385,
    ];
    assert(lengths@ =~= checked_lengths());
    lengths
}

/// The multiplier of the linear-congruential step.
pub const LCG_MULTIPLIER: u64 = 6364136223846793005;

/// The scrambled 64-bit state for element `index` of the data seeded by `seed`:
/// one linear-congruential step, then three xor-shifts.
pub open spec fn scrambled(index: usize, seed: u64) -> u64 {
    let v0 = vstd::wrapping::u64_specs::wrapping_add(
        vstd::wrapping::u64_specs::wrapping_mul(
            vstd::wrapping::u64_specs::wrapping_add(seed, index as u64),
            LCG_MULTIPLIER,
        ),
        1,
    );
    let v1 = v0 ^ (v0 >> 33u64);
    let v2 = v1 ^ (v1 << 17u64);
    v2 ^ (v2 >> 29u64)
}

/// Element `index` of the test data seeded by `seed`, in thousandths: an
/// integer from -10000 to 10000 (the data value is this times 0.001).
pub fn pseudo_random_milli(index: usize, seed: u64) -> (value: i32)
    ensures
        value == (scrambled(index, seed) % 20001) as int - 10000,
        -10000 <= value <= 10000,
{
    let mut value = seed.wrapping_add(index as u64).wrapping_mul(LCG_MULTIPLIER).wrapping_add(1);
    value = value ^ (value >> 33u64);
    value = value ^ (value << 17u64);
    value = value ^ (value >> 29u64);
    let bucket = (value % 20001) as i32;
    bucket - 10000
}

/// Which check a failed operation belongs to.
pub open spec fn failed_check(operation: Seq<char>) -> Option<int> {
    if has_prefix(operation, "vector_add"@) {
        Some(0)
    } else if operation == "fma"@ {
        Some(1)
    } else if operation == "reduce_sum"@ {
        Some(2)
    } else if operation == "dot"@ {
        Some(3)
    } else {
        None
    }
}

/// The report still describes the same run: tool version, backend filter,
/// backends and lengths are unchanged.
pub open spec fn same_identity(before: VerificationReport, after: VerificationReport) -> bool {
    &&& after.tool_version == before.tool_version
    &&& after.backend_filter == before.backend_filter
    &&& after.backends == before.backends
    &&& after.lengths == before.lengths
}

/// Marks the check an operation belongs to as failed: operations named
/// `vector_add...` fail the vector-add check, `fma`, `reduce_sum` and `dot`
/// their own; any other name changes nothing.
pub fn mark_operation_failure(report: &mut VerificationReport, operation: &str)
    ensures
        same_identity(*old(report), *final(report)),
        final(report).lengths_completed == old(report).lengths_completed,
        final(report).failures == old(report).failures,
        final(report).numerical_cases == old(report).numerical_cases,
        final(report).vector_add == (if failed_check(operation@) == Some(0int) {
            CheckStatus::Fail
        } else {
            old(report).vector_add
        }),
        final(report).fma == (if failed_check(operation@) == Some(1int) {
            CheckStatus::Fail
        } else {
            old(report).fma
        }),
        final(report).reduce_sum == (if failed_check(operation@) == Some(2int) {
            CheckStatus::Fail
        } else {
            old(report).reduce_sum
        }),
        final(report).dot == (if failed_check(operation@) == Some(3int) {
            CheckStatus::Fail
        } else {
            old(report).dot
        }),
{
    if starts_with(operation, "vector_add") {
        report.vector_add = CheckStatus::Fail;
    } else if str_eq(operation, "fma") {
        report.fma = CheckStatus::Fail;
    } else if str_eq(operation, "reduce_sum") {
        report.reduce_sum = CheckStatus::Fail;
    } else if str_eq(operation, "dot") {
        report.dot = CheckStatus::Fail;
    }
}

/// `after` is `before` with one more length counted as passed.
pub open spec fn length_counted(before: VerificationReport, after: VerificationReport) -> bool {
    &&& same_identity(before, after)
    &&& after.lengths_completed == before.lengths_completed + 1
    &&& after.failures == before.failures
    &&& after.numerical_cases == before.numerical_cases
    &&& after.vector_add == before.vector_add
    &&& after.fma == before.fma
    &&& after.reduce_sum == before.reduce_sum
    &&& after.dot == before.dot
}

/// `after` is `before` with `failure` appended and its check marked failed.
pub open spec fn failure_recorded(
    before: VerificationReport,
    after: VerificationReport,
    failure: FailureRecord,
) -> bool {
    &&& same_identity(before, after)
    &&& after.lengths_completed == before.lengths_completed
    &&& after.failures@ == before.failures@.push(failure)
    &&& after.numerical_cases == before.numerical_cases
    &&& after.vector_add == (if failed_check(failure.operation@) == Some(0int) {
        CheckStatus::Fail
    } else {
        before.vector_add
    })
    &&& after.fma == (if failed_check(failure.operation@) == Some(1int) {
        CheckStatus::Fail
    } else {
        before.fma
    })
    &&& after.reduce_sum == (if failed_check(failure.operation@) == Some(2int) {
        CheckStatus::Fail
    } else {
        before.reduce_sum
    })
    &&& after.dot == (if failed_check(failure.operation@) == Some(3int) {
        CheckStatus::Fail
    } else {
        before.dot
    })
}

/// Records one more length whose checks all passed.
pub fn record_length_passed(report: &mut VerificationReport)
    requires
        old(report).lengths_completed < usize::MAX,
    ensures
        length_counted(*old(report), *final(report)),
{
    report.lengths_completed = report.lengths_completed + 1;
}

/// Records a failure: its check is marked failed and the failure appended.
pub fn record_failure(report: &mut VerificationReport, failure: FailureRecord)
    ensures
        failure_recorded(*old(report), *final(report), failure),
{
    mark_operation_failure(report, failure.operation.as_str());
    report.failures.push(failure);
}

/// Records how one length went, and says whether to go on to the next one:
/// a length that passed is counted, and the run goes on; a failure is
/// recorded, and the run stops there.
pub fn record_length_outcome(report: &mut VerificationReport, outcome: Result<(), FailureRecord>) -> (go_on: bool)
    requires
        old(report).lengths_completed < usize::MAX,
    ensures
        go_on == outcome is Ok,
        match outcome {
            Ok(()) => length_counted(*old(report), *final(report)),
            Err(failure) => failure_recorded(*old(report), *final(report), failure),
        },
{
    match outcome {
        Ok(()) => {
            record_length_passed(report);
            true
        },
        Err(failure) => {
            record_failure(report, failure);
            false
        },
    }
}

/// Once every length has passed, the four operation checks pass.
pub fn record_lengths_passed(report: &mut VerificationReport)
    ensures
        same_identity(*old(report), *final(report)),
        final(report).lengths_completed == old(report).lengths_completed,
        final(report).failures == old(report).failures,
        final(report).numerical_cases == old(report).numerical_cases,
        final(report).vector_add == CheckStatus::Pass,
        final(report).fma == CheckStatus::Pass,
        final(report).reduce_sum == CheckStatus::Pass,
        final(report).dot == CheckStatus::Pass,
{
    report.vector_add = CheckStatus::Pass;
    report.fma = CheckStatus::Pass;
    report.reduce_sum = CheckStatus::Pass;
    report.dot = CheckStatus::Pass;
}

/// Records the outcome of the structured numerical cases: passing marks
/// them passed; a failure marks them failed and is recorded.
pub fn record_numerical_outcome(report: &mut VerificationReport, outcome: Result<(), FailureRecord>)
    ensures
        same_identity(*old(report), *final(report)),
        final(report).lengths_completed == old(report).lengths_completed,
        match outcome {
            Ok(()) => {
                &&& final(report).numerical_cases == CheckStatus::Pass
                &&& final(report).failures == old(report).failures
                &&& final(report).vector_add == old(report).vector_add
                &&& final(report).fma == old(report).fma
                &&& final(report).reduce_sum == old(report).reduce_sum
                &&& final(report).dot == old(report).dot
            },
            Err(failure) => {
                &&& final(report).numerical_cases == CheckStatus::Fail
                &&& final(report).failures@ == old(report).failures@.push(failure)
                &&& final(report).vector_add == (if failed_check(failure.operation@) == Some(0int) {
                    CheckStatus::Fail
                } else {
                    old(report).vector_add
                })
                &&& final(report).fma == (if failed_check(failure.operation@) == Some(1int) {
                    CheckStatus::Fail
                } else {
                    old(report).fma
                })
                &&& final(report).reduce_sum == (if failed_check(failure.operation@) == Some(2int) {
                    CheckStatus::Fail
                } else {
                    old(report).reduce_sum
                })
                &&& final(report).dot == (if failed_check(failure.operation@) == Some(3int) {
                    CheckStatus::Fail
                } else {
                    old(report).dot
                })
            },
        },
{
    match outcome {
        Ok(()) => {
            report.numerical_cases = CheckStatus::Pass;
        },
        Err(failure) => {
            report.numerical_cases = CheckStatus::Fail;
            record_failure(report, failure);
        },
    }
}


/// A report that holds a recorded failure does not pass.
pub proof fn lemma_recorded_failure_fails(report: VerificationReport, failure: FailureRecord)
    requires
        report.failures@.len() > 0,
    ensures
        !report.all_passed(),
{
}

} // verus!
