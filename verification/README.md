# rust-simd / cargo-simd, verified core

`src/` is a Verus library holding the decision logic of the rust-simd runtime
and of its `cargo simd` tool, each function proved against its contract:

- `capabilities`, `backend`, `error` — the capability model built from the
  host's feature probes, backend selection (`best_backend`, explicit engine
  constructors), the kernel each backend dispatches an operation to, and the
  length checks of the checked operations.
- `policy`, `system` — the resource policy (build jobs, test threads) and the
  parsing of `/proc/meminfo`.
- `orchestrator`, `cli` — option parsing, refusal of manual concurrency flags,
  and the `cargo build` / `cargo test` / `cargo nextest run` command plans.
- `verify`, `report` — `cargo simd verify`'s option parsing, engine
  selection, test-data generation and report bookkeeping, and the text and
  JSON reports.
- `doctor`, `project` — the doctor report, including byte formatting that
  reproduces 64-bit floating-point rounding with integers.

`app/` is the `cargo simd` program: host probing, process launching, printing,
and the floating-point kernels (scalar and SIMD intrinsics) with the
tolerance checks of the differential verifier.
