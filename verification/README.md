# nbenchmark

A Pascal + Turing GPU benchmark: PTX arithmetic kernels, a cuBLAS GEMM probe
that reveals broken FMA / Tensor Cores on NVIDIA CMP mining cards, and an
advisor that maps GGUF quantization formats to GPU instruction paths.

## Layout

- `src/` — the library, verified with Verus:
  - `gpu_db.rs`: the table of known cards (decimal quantities held exactly in
    thousandths), lookups by compute capability and by name, CMP detection and
    the GGUF recommendations by memory size.
  - `gguf.rs`: the GGUF format table and the report's token-rate rows, with the
    proof that every format the advisor or the report names agrees with it.
  - `ptx.rs`: the catalogue of PTX and WMMA benchmarks, grid sizing, exact
    operation counts, checksum rules and the WMMA gates.
  - `cublas.rs`: the cuBLAS probe configurations and the FP16 Tensor Core check.
  - `cuda.rs`: CUDA / cuBLAS constants, error text, device checks.
  - `report.rs`: the diagnosis and advice rules of the full report and of the
    quick CMP detector.
  - `cli.rs`: the commands and what each one runs.
  - `text.rs`: substring search, first and last word, UTF-8 byte-bounded
    prefixes, and the lower-case mapping.
- `app/` — the program: command line, CUDA driver and cuBLAS calls, timing and
  the floating-point rates, and printing.
- `tests/` — tests of the library on concrete values.

The PTX kernels are read at run time from `kernels/fp32.ptx`, `kernels/fp16.ptx`,
`kernels/int8.ptx` and `kernels/wmma.ptx` beside the executable, or else in the
working directory.
