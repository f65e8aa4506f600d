use vstd::prelude::*;

use crate::backend::BackendKind;

verus! {

/// The instruction-set architecture the process was built for.
#[derive(Debug, Clone, Copy, PartialEq, Eq, Structural)]
#[non_exhaustive]
pub enum Architecture {
    X86,
    X86_64,
    Aarch64,
    Wasm32,
    Other,
}

impl Architecture {
    /// The architecture's conventional name, as a sequence of characters.
    pub open spec fn label(self) -> Seq<char> {
        match self {
            Architecture::X86 => "x86"@,
            Architecture::X86_64 => "x86_64"@,
            Architecture::Aarch64 => "aarch64"@,
            Architecture::Wasm32 => "wasm32"@,
            Architecture::Other => "other"@,
        }
    }

    /// Whether this is one of the two x86 architectures (where AVX2 and FMA exist).
    pub open spec fn is_x86_family(self) -> bool {
        self == Architecture::X86 || self == Architecture::X86_64
    }

    /// The architecture's conventional name.
    pub fn name(self) -> (text: &'static str)
        ensures
            text@ == self.label(),
    {
        match self {
            Architecture::X86 => "x86",
            Architecture::X86_64 => "x86_64",
            Architecture::Aarch64 => "aarch64",
            Architecture::Wasm32 => "wasm32",
            Architecture::Other => "other",
        }
    }
}

/// How the process can execute vector code.
#[derive(Debug, Clone, Copy, PartialEq, Eq, Structural)]
#[non_exhaustive]
pub enum VectorModel {
    Scalar,
    FixedWidth,
    Scalable,
}

impl VectorModel {
    /// The model's name, as a sequence of characters.
    pub open spec fn label(self) -> Seq<char> {
        match self {
            VectorModel::Scalar => "scalar"@,
            VectorModel::FixedWidth => "fixed-width"@,
            VectorModel::Scalable => "scalable"@,
        }
    }

    /// The model's name.
    pub fn name(self) -> (text: &'static str)
        ensures
            text@ == self.label(),
    {
        match self {
            VectorModel::Scalar => "scalar",
            VectorModel::FixedWidth => "fixed-width",
            VectorModel::Scalable => "scalable",
        }
    }
}

/// The raw answers of the host's feature probes: the architecture the process
/// was compiled for and what each runtime feature detector reported.
#[derive(Debug, Clone, Copy, PartialEq, Eq, Structural)]
pub struct HostFeatures {
    pub architecture: Architecture,
    pub avx2: bool,
    pub fma: bool,
    pub neon: bool,
    pub wasm_simd128: bool,
}

/// The SIMD capabilities of the current process.
///
/// A feature is only ever reported on the architecture it belongs to:
/// AVX2 and FMA on x86/x86_64, NEON on AArch64, SIMD128 on wasm32.
#[derive(Debug, Clone, Copy, PartialEq, Eq, Structural)]
pub struct Capabilities {
    architecture: Architecture,
    avx2: bool,
    fma: bool,
    neon: bool,
    wasm_simd128: bool,
}

/// Fastest-first rank of the implemented backends.
pub open spec fn backend_rank(kind: BackendKind) -> int {
    match kind {
        BackendKind::Scalar => 0,
        BackendKind::WasmSimd128 => 1,
        BackendKind::Neon => 2,
        BackendKind::Avx2 => 3,
        BackendKind::Avx2Fma => 4,
    }
}

impl Capabilities {
    /// Every feature flag agrees with the architecture.
    pub open spec fn well_formed(self) -> bool {
        &&& self.avx2_flag() ==> self.arch().is_x86_family()
        &&& self.fma_flag() ==> self.arch().is_x86_family()
        &&& self.neon_flag() ==> self.arch() == Architecture::Aarch64
        &&& self.wasm_simd128_flag() ==> self.arch() == Architecture::Wasm32
    }

    #[verifier::type_invariant]
    spec fn features_match_architecture(self) -> bool {
        self.well_formed()
    }

    /// The architecture.
    pub closed spec fn arch(self) -> Architecture {
        self.architecture
    }

    /// Whether AVX2 is available.
    pub closed spec fn avx2_flag(self) -> bool {
        self.avx2
    }

    /// Whether FMA is available.
    pub closed spec fn fma_flag(self) -> bool {
        self.fma
    }

    /// Whether NEON is available.
    pub closed spec fn neon_flag(self) -> bool {
        self.neon
    }

    /// Whether WebAssembly SIMD128 is available.
    pub closed spec fn wasm_simd128_flag(self) -> bool {
        self.wasm_simd128
    }

    /// Whether `kind` can run in a process with these capabilities.
    pub open spec fn supports(self, kind: BackendKind) -> bool {
        match kind {
            BackendKind::Scalar => true,
            BackendKind::Avx2 => self.avx2_flag(),
            BackendKind::Avx2Fma => self.avx2_flag() && self.fma_flag(),
            BackendKind::Neon => self.neon_flag(),
            BackendKind::WasmSimd128 => self.wasm_simd128_flag(),
        }
    }

    /// The backend `best_backend` returns: the first of AVX2+FMA, AVX2, NEON,
    /// SIMD128 that is supported, else scalar.
    pub open spec fn best(self) -> BackendKind {
        if self.avx2_flag() && self.fma_flag() {
            BackendKind::Avx2Fma
        } else if self.avx2_flag() {
            BackendKind::Avx2
        } else if self.neon_flag() {
            BackendKind::Neon
        } else if self.wasm_simd128_flag() {
            BackendKind::WasmSimd128
        } else {
            BackendKind::Scalar
        }
    }

    /// What the host reported, restricted to the features of its own architecture.
    pub open spec fn from_host(host: HostFeatures) -> (Architecture, bool, bool, bool, bool) {
        let x86 = host.architecture.is_x86_family();
        (
            host.architecture,
            x86 && host.avx2,
            x86 && host.fma,
            host.architecture == Architecture::Aarch64 && host.neon,
            host.architecture == Architecture::Wasm32 && host.wasm_simd128,
        )
    }

    /// Builds the capability model from the host's probe results.
    ///
    /// A detector's answer counts only on its own architecture, as the
    /// detectors themselves are compiled only there. The model is only as
    /// true as the results handed in: engines built from it select SIMD
    /// kernels that need these features, so a program probes the CPU for them.
    pub fn detect(host: HostFeatures) -> (capabilities: Self)
        ensures
            (capabilities.arch(), capabilities.avx2_flag(), capabilities.fma_flag(),
                capabilities.neon_flag(), capabilities.wasm_simd128_flag())
                == Self::from_host(host),
            capabilities.well_formed(),
    {
        let x86 = match host.architecture {
            Architecture::X86 | Architecture::X86_64 => true,
            _ => false,
        };
        let aarch64 = match host.architecture {
            Architecture::Aarch64 => true,
            _ => false,
        };
        let wasm32 = match host.architecture {
            Architecture::Wasm32 => true,
            _ => false,
        };
        Capabilities {
            architecture: host.architecture,
            avx2: x86 && host.avx2,
            fma: x86 && host.fma,
            neon: aarch64 && host.neon,
            wasm_simd128: wasm32 && host.wasm_simd128,
        }
    }

    /// The architecture; every value also has features matching it.
    pub fn architecture(self) -> (architecture: Architecture)
        ensures
            architecture == self.arch(),
            self.well_formed(),
    {
        proof {
            use_type_invariant(&self);
        }
        self.architecture
    }

    /// Whether AVX2 is available.
    pub fn has_avx2(self) -> (available: bool)
        ensures
            available == self.avx2_flag(),
    {
        self.avx2
    }

    /// Whether FMA is available.
    pub fn has_fma(self) -> (available: bool)
        ensures
            available == self.fma_flag(),
    {
        self.fma
    }

    /// Whether NEON is available.
    pub fn has_neon(self) -> (available: bool)
        ensures
            available == self.neon_flag(),
    {
        self.neon
    }

    /// Whether WebAssembly SIMD128 is available.
    pub fn has_wasm_simd128(self) -> (available: bool)
        ensures
            available == self.wasm_simd128_flag(),
    {
        self.wasm_simd128
    }

    /// Fixed-width when any vector feature is present, scalar otherwise.
    pub fn vector_model(self) -> (model: VectorModel)
        ensures
            model == (if self.avx2_flag() || self.neon_flag() || self.wasm_simd128_flag() {
                VectorModel::FixedWidth
            } else {
                VectorModel::Scalar
            }),
    {
        if self.avx2 || self.neon || self.wasm_simd128 {
            VectorModel::FixedWidth
        } else {
            VectorModel::Scalar
        }
    }

    /// Returns the fastest implemented backend available in this process.
    pub fn best_backend(self) -> (kind: BackendKind)
        ensures
            kind == self.best(),
            self.supports(kind),
            forall|other: BackendKind| self.supports(other) ==> backend_rank(other) <= backend_rank(kind),
    {
        if self.avx2 && self.fma {
            BackendKind::Avx2Fma
        } else if self.avx2 {
            BackendKind::Avx2
        } else if self.neon {
            BackendKind::Neon
        } else if self.wasm_simd128 {
            BackendKind::WasmSimd128
        } else {
            BackendKind::Scalar
        }
    }
}

/// The vector model is scalar exactly when the selected backend is the scalar one.
pub proof fn lemma_scalar_model_iff_scalar_backend(capabilities: Capabilities)
    ensures
        (if capabilities.avx2_flag() || capabilities.neon_flag() || capabilities.wasm_simd128_flag() {
            VectorModel::FixedWidth
        } else {
            VectorModel::Scalar
        } == VectorModel::Scalar) <==> capabilities.best() == BackendKind::Scalar,
{
}


/// On well-formed capabilities the selected backend belongs to the
/// architecture: AVX2 kernels only on x86, NEON only on AArch64, SIMD128 only
/// on wasm32; anywhere else the scalar backend.
pub proof fn lemma_best_backend_matches_architecture(capabilities: Capabilities)
    requires
        capabilities.well_formed(),
    ensures
        (capabilities.best() == BackendKind::Avx2 || capabilities.best() == BackendKind::Avx2Fma)
            ==> capabilities.arch().is_x86_family(),
        capabilities.best() == BackendKind::Neon ==> capabilities.arch() == Architecture::Aarch64,
        capabilities.best() == BackendKind::WasmSimd128 ==> capabilities.arch() == Architecture::Wasm32,
        capabilities.arch() == Architecture::Other ==> capabilities.best() == BackendKind::Scalar,
{
}

} // verus!
