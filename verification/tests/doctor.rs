use lib::doctor::{
    doctor_report, format_bytes, format_optional_bytes, parse_doctor_options, recommended_doctor_report, yes_no,
};
use lib::policy::{recommend, Policy};
use lib::project::{directory_total, inspect};
use lib::system::SystemInfo;
use lib::{Architecture, Capabilities, HostFeatures};

/// The floating-point rendering the byte formatting reproduces.
fn reference(bytes: u64) -> String {
    const KIB: f64 = 1024.0;
    const MIB: f64 = KIB * 1024.0;
    const GIB: f64 = MIB * 1024.0;

    let bytes = bytes as f64;

    if bytes >= GIB {
        return format!("{:.2} GiB", bytes / GIB);
    }

    if bytes >= MIB {
        return format!("{:.2} MiB", bytes / MIB);
    }

    if bytes >= KIB {
        return format!("{:.2} KiB", bytes / KIB);
    }

    format!("{bytes:.0} B")
}

#[test]
fn formats_gibibytes() {
    assert_eq!(format_bytes(2 * 1024 * 1024 * 1024), "2.00 GiB");
}

#[test]
fn formats_mebibytes() {
    assert_eq!(format_bytes(128 * 1024 * 1024), "128.00 MiB");
}

#[test]
fn formats_small_counts_in_bytes_and_kibibytes() {
    assert_eq!(format_bytes(0), "0 B");
    assert_eq!(format_bytes(1023), "1023 B");
    assert_eq!(format_bytes(1024), "1.00 KiB");
    assert_eq!(format_bytes(1536), "1.50 KiB");
    assert_eq!(format_optional_bytes(None), "unknown");
    assert_eq!(format_optional_bytes(Some(3 * 1024 * 1024 * 1024 / 2)), "1.50 GiB");
}

#[test]
fn rounds_exactly_as_floating_point_formatting() {
    let mut values: Vec<u64> = vec![
        1, 999, 1023, 1024, 1025, 1029, 1030, 1034, 1035, 1_048_575, 1_048_576, 1_073_741_823,
        1_073_741_824,
        // exact halfway cases at two decimals
        1024 + 128, 1024 + 5 * 128 / 10, 1024 * 1024 + 5 * 1024 * 1024 / 1000,
        (1 << 30) + (1 << 27), (1 << 30) + 3 * (1 << 27), (1 << 20) * 3 + (1 << 17),
        (1 << 53) - 1, 1 << 53, (1 << 53) + 1, (1 << 53) + 3, (1 << 60) + 12345, u64::MAX, u64::MAX - 1024,
        u64::MAX - 4096,
    ];
    let mut state: u64 = 0x243f_6a88_85a3_08d3;
    for _ in 0..20_000 {
        state = state.wrapping_mul(6_364_136_223_846_793_005).wrapping_add(1_442_695_040_888_963_407);
        values.push(state >> (state % 64));
        values.push((state >> 20) / 1024 * 1024 + 512);
    }
    for unit in [1u64 << 10, 1 << 20, 1 << 30] {
        for k in 0..400u64 {
            values.push(unit + k * unit / 200);
            values.push(unit + k * unit / 200 + unit / 400);
        }
    }
    for bytes in values {
        assert_eq!(format_bytes(bytes), reference(bytes), "bytes={bytes}");
    }
}

#[test]
fn doctor_accepts_only_deep() {
    let args = |items: &[&str]| items.iter().map(|item| item.to_string()).collect::<Vec<_>>();
    assert_eq!(parse_doctor_options(&args(&[])), Ok(false));
    assert_eq!(parse_doctor_options(&args(&["--deep", "--deep"])), Ok(true));
    assert_eq!(
        parse_doctor_options(&args(&["--deep", "--fast"])),
        Err("unsupported doctor option `--fast`".to_owned())
    );
    assert_eq!(yes_no(true), "yes");
    assert_eq!(yes_no(false), "no");
}

#[test]
fn project_information_depends_on_root_and_depth() {
    let info = inspect(true, None, true, Some("/p/target".to_owned()), Some(5));
    assert!(info.root.is_none() && !info.has_lockfile && info.target_directory.is_none());
    let shallow = inspect(false, Some("/p".to_owned()), true, Some("/p/target".to_owned()), Some(5));
    assert_eq!(shallow.target_size_bytes, None);
    assert!(shallow.has_lockfile);
    let deep = inspect(true, Some("/p".to_owned()), false, Some("/p/target".to_owned()), Some(5));
    assert_eq!(deep.target_size_bytes, Some(5));
    let missing = inspect(true, Some("/p".to_owned()), false, None, Some(5));
    assert_eq!(missing.target_size_bytes, None);
    assert_eq!(directory_total(&[1, 2, 3]), 6);
    assert_eq!(directory_total(&[]), 0);
    assert_eq!(directory_total(&[u64::MAX - 1, 5, 7]), u64::MAX);
}

#[test]
fn doctor_report_lists_every_section() {
    let capabilities = Capabilities::detect(HostFeatures {
        architecture: Architecture::X86_64,
        avx2: true,
        fma: true,
        neon: false,
        wasm_simd128: false,
    });
    let system = SystemInfo {
        operating_system: "linux",
        logical_cpus: 16,
        memory_total_bytes: Some(16 * 1024 * 1024 * 1024),
        memory_available_bytes: Some(6 * 1024 * 1024 * 1024),
        rustc_version: Some("rustc 1.95.0".to_owned()),
        cargo_version: None,
    };
    let recommendation = recommend(&system);
    assert_eq!(recommendation.policy, Policy::Balanced);
    let project = inspect(false, Some("/work".to_owned()), true, None, None);
    let text = doctor_report(capabilities, &system, &project, &recommendation, false);
    assert_eq!(
        text,
        "cargo-simd doctor\n\nSYSTEM\n  architecture       x86_64\n  operating system   linux\n  logical CPUs       16\n  memory total       16.00 GiB\n  memory available   6.00 GiB\n\nRUST\n  rustc              rustc 1.95.0\n  cargo              unknown\n\nSIMD\n  vector model       fixed-width\n  selected backend   avx2+fma\n  AVX2 available     yes\n  FMA available      yes\n  NEON available     no\n  WASM SIMD128       no\n\nPROJECT\n  root               /work\n  Cargo.lock         yes\n  target directory   not present\n  target size        skipped (use --deep)\n\nRECOMMENDATION\n  policy             balanced\n  build jobs         4\n  test threads       8\n  reason             balanced CPU and memory utilization is recommended\n\nSTATUS\n  ✓ toolchain inspection\n  ✓ shared SIMD capability model\n  ✓ resource policy\n  ✓ project inspection\n\nRun `cargo simd doctor --deep` for target-size analysis.\n"
    );
    assert_eq!(recommended_doctor_report(capabilities, &system, &project, false), text);
    let none = inspect(true, None, false, None, None);
    let deep = doctor_report(capabilities, &system, &none, &recommendation, true);
    assert!(deep.contains("PROJECT\n  root               no Cargo project detected\n"));
    assert!(deep.ends_with("  ✓ project inspection\n"));
}
