use vstd::prelude::*;

use crate::capabilities::Capabilities;
use crate::error::SimdError;

verus! {

/// An implemented SIMD backend.
#[derive(Debug, Clone, Copy, PartialEq, Eq, Structural)]
#[non_exhaustive]
pub enum BackendKind {
    Scalar,
    Avx2,
    Avx2Fma,
    Neon,
    WasmSimd128,
}

impl BackendKind {
    /// The backend's name, as a sequence of characters.
    pub open spec fn label(self) -> Seq<char> {
        match self {
            BackendKind::Scalar => "scalar"@,
            BackendKind::Avx2 => "avx2"@,
            BackendKind::Avx2Fma => "avx2+fma"@,
            BackendKind::Neon => "neon"@,
            BackendKind::WasmSimd128 => "wasm-simd128"@,
        }
    }

    #[verifier::allow_in_spec]
    pub fn name(self) -> &'static str
        returns
            (match self {
                BackendKind::Scalar => "scalar",
                BackendKind::Avx2 => "avx2",
                BackendKind::Avx2Fma => "avx2+fma",
                BackendKind::Neon => "neon",
                BackendKind::WasmSimd128 => "wasm-simd128",
            }),
    {
        match self {
            BackendKind::Scalar => "scalar",
            BackendKind::Avx2 => "avx2",
            BackendKind::Avx2Fma => "avx2+fma",
            BackendKind::Neon => "neon",
            BackendKind::WasmSimd128 => "wasm-simd128",
        }
    }
}

/// A numerical operation offered by an engine.
#[derive(Debug, Clone, Copy, PartialEq, Eq, Structural)]
pub enum Operation {
    VectorAdd,
    Fma,
    ReduceSum,
    Dot,
}

/// An instruction-set-specific implementation of an operation.
#[derive(Debug, Clone, Copy, PartialEq, Eq, Structural)]
pub enum Kernel {
    /// Portable scalar code.
    Scalar,
    /// AVX2 vector code.
    Avx2,
    /// AVX2 vector code using fused multiply-add instructions.
    Avx2Fma,
    /// AArch64 NEON vector code.
    Neon,
    /// WebAssembly SIMD128 vector code.
    WasmSimd128,
}

/// The instruction-set features a kernel executes.
pub open spec fn kernel_supported(capabilities: Capabilities, kernel: Kernel) -> bool {
    match kernel {
        Kernel::Scalar => true,
        Kernel::Avx2 => capabilities.avx2_flag(),
        Kernel::Avx2Fma => capabilities.avx2_flag() && capabilities.fma_flag(),
        Kernel::Neon => capabilities.neon_flag(),
        Kernel::WasmSimd128 => capabilities.wasm_simd128_flag(),
    }
}

/// The kernel a backend dispatches an operation to.
///
/// Fused multiply-add keeps the scalar `mul_add` path on AVX2 without FMA and on
/// WebAssembly SIMD128, which has no strictly fused f32 multiply-add.
pub open spec fn dispatch(kind: BackendKind, operation: Operation) -> Kernel {
    match operation {
        Operation::Fma => match kind {
            BackendKind::Avx2Fma => Kernel::Avx2Fma,
            BackendKind::Neon => Kernel::Neon,
            _ => Kernel::Scalar,
        },
        _ => match kind {
            BackendKind::Scalar => Kernel::Scalar,
            BackendKind::Avx2 | BackendKind::Avx2Fma => Kernel::Avx2,
            BackendKind::Neon => Kernel::Neon,
            BackendKind::WasmSimd128 => Kernel::WasmSimd128,
        },
    }
}

/// A handle that runs every operation on one backend.
#[derive(Debug, Clone, Copy)]
pub struct Engine {
    kind: BackendKind,
}

impl Engine {
    /// The backend this engine runs on.
    pub closed spec fn kind(self) -> BackendKind {
        self.kind
    }

    /// Creates an engine using the fastest implemented backend the
    /// capabilities support.
    pub fn auto(capabilities: Capabilities) -> (engine: Self)
        ensures
            engine.kind() == capabilities.best(),
            capabilities.supports(engine.kind()),
    {
        Engine { kind: capabilities.best_backend() }
    }

    /// An engine on the portable scalar backend, available everywhere.
    pub fn scalar() -> (engine: Self)
        ensures
            engine.kind() == BackendKind::Scalar,
    {
        Engine { kind: BackendKind::Scalar }
    }

    /// An engine on AVX2, or the error naming it when AVX2 is unsupported.
    pub fn avx2(capabilities: Capabilities) -> (result: Result<Self, SimdError>)
        ensures
            Self::constructed(capabilities, BackendKind::Avx2, result),
    {
        Self::for_backend(capabilities, BackendKind::Avx2)
    }

    /// An engine on AVX2 with FMA, or the error naming it when either is missing.
    pub fn avx2_fma(capabilities: Capabilities) -> (result: Result<Self, SimdError>)
        ensures
            Self::constructed(capabilities, BackendKind::Avx2Fma, result),
    {
        Self::for_backend(capabilities, BackendKind::Avx2Fma)
    }

    /// An engine on NEON, or the error naming it when NEON is unsupported.
    pub fn neon(capabilities: Capabilities) -> (result: Result<Self, SimdError>)
        ensures
            Self::constructed(capabilities, BackendKind::Neon, result),
    {
        Self::for_backend(capabilities, BackendKind::Neon)
    }

    /// An engine on WebAssembly SIMD128, or the error naming it when unsupported.
    pub fn wasm_simd128(capabilities: Capabilities) -> (result: Result<Self, SimdError>)
        ensures
            Self::constructed(capabilities, BackendKind::WasmSimd128, result),
    {
        Self::for_backend(capabilities, BackendKind::WasmSimd128)
    }

    /// An engine for `kind` when the capabilities support it, the
    /// "unsupported backend" error naming `kind` otherwise.
    pub open spec fn constructed(
        capabilities: Capabilities,
        kind: BackendKind,
        result: Result<Self, SimdError>,
    ) -> bool {
        if capabilities.supports(kind) {
            result matches Ok(engine) && engine.kind() == kind
        } else {
            result matches Err(error) && error == (SimdError::UnsupportedBackend { backend: kind.name() })
        }
    }

    fn for_backend(capabilities: Capabilities, kind: BackendKind) -> (result: Result<Self, SimdError>)
        ensures
            Self::constructed(capabilities, kind, result),
    {
        if backend_available(capabilities, kind) {
            Ok(Engine { kind })
        } else {
            Err(SimdError::UnsupportedBackend { backend: kind.name() })
        }
    }

    /// The engine's backend.
    pub fn backend(self) -> (kind: BackendKind)
        ensures
            kind == self.kind(),
    {
        self.kind
    }

    /// The name of the engine's backend.
    pub fn backend_name(self) -> (text: &'static str)
        ensures
            text@ == self.kind().label(),
            text == self.kind().name(),
    {
        self.kind.name()
    }

    /// The kernel that runs `operation` on this engine.
    pub fn kernel(self, operation: Operation) -> (kernel: Kernel)
        ensures
            kernel == dispatch(self.kind(), operation),
    {
        match operation {
            Operation::Fma => match self.kind {
                BackendKind::Avx2Fma => Kernel::Avx2Fma,
                BackendKind::Neon => Kernel::Neon,
                _ => Kernel::Scalar,
            },
            _ => match self.kind {
                BackendKind::Scalar => Kernel::Scalar,
                BackendKind::Avx2 | BackendKind::Avx2Fma => Kernel::Avx2,
                BackendKind::Neon => Kernel::Neon,
                BackendKind::WasmSimd128 => Kernel::WasmSimd128,
            },
        }
    }
}

/// Whether the capabilities support `kind`.
pub fn backend_available(capabilities: Capabilities, kind: BackendKind) -> (available: bool)
    ensures
        available == capabilities.supports(kind),
{
    match kind {
        BackendKind::Scalar => true,
        BackendKind::Avx2 => capabilities.has_avx2(),
        BackendKind::Avx2Fma => capabilities.has_avx2() && capabilities.has_fma(),
        BackendKind::Neon => capabilities.has_neon(),
        BackendKind::WasmSimd128 => capabilities.has_wasm_simd128(),
    }
}

/// Returns an engine using the best supported backend.
pub fn engine(capabilities: Capabilities) -> (engine: Engine)
    ensures
        engine.kind() == capabilities.best(),
{
    Engine::auto(capabilities)
}

/// Returns the automatically selected backend.
pub fn backend(capabilities: Capabilities) -> (kind: BackendKind)
    ensures
        kind == capabilities.best(),
{
    engine(capabilities).backend()
}

/// Returns the name of the automatically selected backend.
pub fn backend_name(capabilities: Capabilities) -> (text: &'static str)
    ensures
        text@ == capabilities.best().label(),
{
    engine(capabilities).backend_name()
}

/// An engine only runs kernels its capabilities support: whenever a backend
/// is supported, every kernel that backend dispatches to is supported too.
pub proof fn lemma_supported_backend_runs_supported_kernels(
    capabilities: Capabilities,
    kind: BackendKind,
    operation: Operation,
)
    requires
        capabilities.supports(kind),
    ensures
        kernel_supported(capabilities, dispatch(kind, operation)),
{
}


/// Fused multiply-add always runs a strictly fused kernel: the scalar
/// `mul_add` path, AVX2 with FMA instructions, or NEON; in particular
/// WebAssembly SIMD128 and AVX2 without FMA keep the scalar path.
pub proof fn lemma_fma_stays_fused(kind: BackendKind)
    ensures
        dispatch(kind, Operation::Fma) == Kernel::Scalar || dispatch(kind, Operation::Fma)
            == Kernel::Avx2Fma || dispatch(kind, Operation::Fma) == Kernel::Neon,
        dispatch(BackendKind::WasmSimd128, Operation::Fma) == Kernel::Scalar,
        dispatch(BackendKind::Avx2, Operation::Fma) == Kernel::Scalar,
{
}

} // verus!
