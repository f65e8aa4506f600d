use lib::{Architecture, BackendKind, Capabilities, HostFeatures, VectorModel};

const ARCHITECTURES: [Architecture; 5] = [
    Architecture::X86,
    Architecture::X86_64,
    Architecture::Aarch64,
    Architecture::Wasm32,
    Architecture::Other,
];

/// Every host the probes could describe.
fn all_hosts() -> Vec<HostFeatures> {
    let mut hosts = Vec::new();
    for architecture in ARCHITECTURES {
        for bits in 0..16u32 {
            hosts.push(HostFeatures {
                architecture,
                avx2: bits & 1 != 0,
                fma: bits & 2 != 0,
                neon: bits & 4 != 0,
                wasm_simd128: bits & 8 != 0,
            });
        }
    }
    hosts
}

#[test]
fn detects_current_architecture() {
    for host in all_hosts() {
        let capabilities = Capabilities::detect(host);
        assert_eq!(capabilities.architecture(), host.architecture);
    }
}

#[test]
fn best_backend_matches_detected_capabilities() {
    for host in all_hosts() {
        let capabilities = Capabilities::detect(host);

        let expected = if capabilities.has_avx2() && capabilities.has_fma() {
            BackendKind::Avx2Fma
        } else if capabilities.has_avx2() {
            BackendKind::Avx2
        } else if capabilities.has_neon() {
            BackendKind::Neon
        } else if capabilities.has_wasm_simd128() {
            BackendKind::WasmSimd128
        } else {
            BackendKind::Scalar
        };

        assert_eq!(capabilities.best_backend(), expected);
    }
}

#[test]
fn fma_backend_requires_avx2_and_fma() {
    for host in all_hosts() {
        let capabilities = Capabilities::detect(host);

        if capabilities.best_backend() == BackendKind::Avx2Fma {
            assert!(capabilities.has_avx2());
            assert!(capabilities.has_fma());
        }
    }
}

#[test]
fn neon_backend_requires_neon() {
    for host in all_hosts() {
        let capabilities = Capabilities::detect(host);

        if capabilities.best_backend() == BackendKind::Neon {
            assert!(capabilities.has_neon());
        }
    }
}

#[test]
fn wasm_backend_requires_simd128() {
    for host in all_hosts() {
        let capabilities = Capabilities::detect(host);

        if capabilities.best_backend() == BackendKind::WasmSimd128 {
            assert!(capabilities.has_wasm_simd128());
        }
    }
}

#[test]
fn features_only_count_on_their_own_architecture() {
    let everything = |architecture| HostFeatures {
        architecture,
        avx2: true,
        fma: true,
        neon: true,
        wasm_simd128: true,
    };

    let x86 = Capabilities::detect(everything(Architecture::X86_64));
    assert!(x86.has_avx2() && x86.has_fma());
    assert!(!x86.has_neon() && !x86.has_wasm_simd128());
    assert_eq!(x86.best_backend(), BackendKind::Avx2Fma);

    let arm = Capabilities::detect(everything(Architecture::Aarch64));
    assert!(!arm.has_avx2() && !arm.has_fma() && arm.has_neon() && !arm.has_wasm_simd128());
    assert_eq!(arm.best_backend(), BackendKind::Neon);

    let wasm = Capabilities::detect(everything(Architecture::Wasm32));
    assert!(!wasm.has_avx2() && !wasm.has_neon() && wasm.has_wasm_simd128());
    assert_eq!(wasm.best_backend(), BackendKind::WasmSimd128);

    let other = Capabilities::detect(everything(Architecture::Other));
    assert_eq!(other.best_backend(), BackendKind::Scalar);
    assert_eq!(other.vector_model(), VectorModel::Scalar);
}

#[test]
fn avx2_without_fma_selects_plain_avx2() {
    let capabilities = Capabilities::detect(HostFeatures {
        architecture: Architecture::X86,
        avx2: true,
        fma: false,
        neon: false,
        wasm_simd128: false,
    });
    assert_eq!(capabilities.best_backend(), BackendKind::Avx2);
    assert_eq!(capabilities.vector_model(), VectorModel::FixedWidth);
}

#[test]
fn vector_model_is_scalar_exactly_with_the_scalar_backend() {
    for host in all_hosts() {
        let capabilities = Capabilities::detect(host);
        assert_eq!(
            capabilities.vector_model() == VectorModel::Scalar,
            capabilities.best_backend() == BackendKind::Scalar
        );
    }
}

#[test]
fn names_match_the_documented_spelling() {
    assert_eq!(Architecture::X86.name(), "x86");
    assert_eq!(Architecture::X86_64.name(), "x86_64");
    assert_eq!(Architecture::Aarch64.name(), "aarch64");
    assert_eq!(Architecture::Wasm32.name(), "wasm32");
    assert_eq!(Architecture::Other.name(), "other");
    assert_eq!(VectorModel::Scalar.name(), "scalar");
    assert_eq!(VectorModel::FixedWidth.name(), "fixed-width");
    assert_eq!(VectorModel::Scalable.name(), "scalable");
}
