use vstd::prelude::*;

verus! {

/// The PTX source that holds a kernel.
#[derive(Debug, Clone, Copy, PartialEq, Eq, Structural)]
pub enum PtxModule {
    Fp32,
    Fp16,
    Int8,
    Wmma,
}

/// The unit in which a throughput is reported.
#[derive(Debug, Clone, Copy, PartialEq, Eq, Structural)]
pub enum PerfUnit {
    TflopPerSec,
    TopPerSec,
}

pub open spec fn unit_label(u: PerfUnit) -> Seq<char> {
    match u {
        PerfUnit::TflopPerSec => "TFLOP/s"@,
        PerfUnit::TopPerSec => "TOP/s"@,
    }
}

impl PerfUnit {
    pub fn label(&self) -> (r: &'static str)
        ensures
            r@ == unit_label(*self),
    {
        match self {
            PerfUnit::TflopPerSec => "TFLOP/s",
            PerfUnit::TopPerSec => "TOP/s",
        }
    }
}

/// The arithmetic benchmarks that run one PTX kernel over a grid of threads.
#[derive(Debug, Clone, Copy, PartialEq, Eq, Structural)]
pub enum PtxKind {
    Fp32MulAdd,
    Fp32Fma,
    Fp64MulAdd,
    Fp16MulAdd,
    Fp16Fma,
    Int8S8S8,
    Int8U8U8,
    Int8S8U8,
    Int4ViaDp4a,
    BitwiseXnor,
    Int32Mad,
}

/// How a grid benchmark is run and reported.
#[derive(Debug, Clone, Copy)]
pub struct PtxBench {
    pub module: PtxModule,
    pub kernel: &'static str,
    /// Buffers besides the first: 0, 1 or 2.
    pub extra_bufs: u32,
    /// Arithmetic operations counted per element and repetition.
    pub ops_per_item: u32,
    pub name: &'static str,
    pub unit: PerfUnit,
    /// The run only counts as correct when the read-back checksum is not zero.
    pub needs_nonzero_checksum: bool,
}

pub open spec fn ptx_bench(k: PtxKind) -> PtxBench {
    match k {
        PtxKind::Fp32MulAdd => PtxBench { module: PtxModule::Fp32, kernel: "fp32_muladd", extra_bufs: 0, ops_per_item: 2, name: "FP32 | explicit MUL+ADD (no FMA)", unit: PerfUnit::TflopPerSec, needs_nonzero_checksum: true },
        PtxKind::Fp32Fma => PtxBench { module: PtxModule::Fp32, kernel: "fp32_fma", extra_bufs: 0, ops_per_item: 2, name: "FP32 | FMA (fma.rn.f32)", unit: PerfUnit::TflopPerSec, needs_nonzero_checksum: true },
        PtxKind::Fp64MulAdd => PtxBench { module: PtxModule::Fp32, kernel: "fp64_muladd", extra_bufs: 0, ops_per_item: 2, name: "FP64 | MUL+ADD (diagnose hardware FP64)", unit: PerfUnit::TflopPerSec, needs_nonzero_checksum: true },
        PtxKind::Fp16MulAdd => PtxBench { module: PtxModule::Fp16, kernel: "fp16_muladd", extra_bufs: 0, ops_per_item: 4, name: "FP16 | f16x2 MUL+ADD (best on CMP 50HX!)", unit: PerfUnit::TflopPerSec, needs_nonzero_checksum: true },
        PtxKind::Fp16Fma => PtxBench { module: PtxModule::Fp16, kernel: "fp16_fma", extra_bufs: 0, ops_per_item: 4, name: "FP16 | f16x2 FMA", unit: PerfUnit::TflopPerSec, needs_nonzero_checksum: true },
        PtxKind::Int8S8S8 => PtxBench { module: PtxModule::Int8, kernel: "int8_dp4a_s8s8", extra_bufs: 2, ops_per_item: 8, name: "INT8 | dp4a s8*s8 (Q8_0 path)", unit: PerfUnit::TopPerSec, needs_nonzero_checksum: false },
        PtxKind::Int8U8U8 => PtxBench { module: PtxModule::Int8, kernel: "int8_dp4a_u8u8", extra_bufs: 2, ops_per_item: 8, name: "INT8 | dp4a u8*u8 (unsigned symm)", unit: PerfUnit::TopPerSec, needs_nonzero_checksum: false },
        PtxKind::Int8S8U8 => PtxBench { module: PtxModule::Int8, kernel: "int8_dp4a_s8u8", extra_bufs: 2, ops_per_item: 8, name: "INT8 | dp4a s8*u8 (Q8_1 asymm path)", unit: PerfUnit::TopPerSec, needs_nonzero_checksum: false },
        PtxKind::Int4ViaDp4a => PtxBench { module: PtxModule::Int8, kernel: "int4_via_dp4a", extra_bufs: 2, ops_per_item: 16, name: "INT4 | emulated via dp4a (Q4_K/Q4_0 path)", unit: PerfUnit::TopPerSec, needs_nonzero_checksum: false },
        PtxKind::BitwiseXnor => PtxBench { module: PtxModule::Int8, kernel: "bitwise_xnor_popc", extra_bufs: 2, ops_per_item: 32, name: "Bitwise | XNOR+POPC (1-bit / binary nets)", unit: PerfUnit::TopPerSec, needs_nonzero_checksum: false },
        PtxKind::Int32Mad => PtxBench { module: PtxModule::Int8, kernel: "int32_mad", extra_bufs: 0, ops_per_item: 2, name: "INT32 | MAD (accumulator baseline)", unit: PerfUnit::TopPerSec, needs_nonzero_checksum: true },
    }
}

/// Threads per block for the grid benchmarks.
pub const PTX_THREADS: u32 = 256;

impl PtxKind {
    /// How this benchmark is run and reported.
    pub fn bench(&self) -> (r: PtxBench)
        ensures
            r == ptx_bench(*self),
    {
        match self {
            PtxKind::Fp32MulAdd => PtxBench { module: PtxModule::Fp32, kernel: "fp32_muladd", extra_bufs: 0, ops_per_item: 2, name: "FP32 | explicit MUL+ADD (no FMA)", unit: PerfUnit::TflopPerSec, needs_nonzero_checksum: true },
            PtxKind::Fp32Fma => PtxBench { module: PtxModule::Fp32, kernel: "fp32_fma", extra_bufs: 0, ops_per_item: 2, name: "FP32 | FMA (fma.rn.f32)", unit: PerfUnit::TflopPerSec, needs_nonzero_checksum: true },
            PtxKind::Fp64MulAdd => PtxBench { module: PtxModule::Fp32, kernel: "fp64_muladd", extra_bufs: 0, ops_per_item: 2, name: "FP64 | MUL+ADD (diagnose hardware FP64)", unit: PerfUnit::TflopPerSec, needs_nonzero_checksum: true },
            PtxKind::Fp16MulAdd => PtxBench { module: PtxModule::Fp16, kernel: "fp16_muladd", extra_bufs: 0, ops_per_item: 4, name: "FP16 | f16x2 MUL+ADD (best on CMP 50HX!)", unit: PerfUnit::TflopPerSec, needs_nonzero_checksum: true },
            PtxKind::Fp16Fma => PtxBench { module: PtxModule::Fp16, kernel: "fp16_fma", extra_bufs: 0, ops_per_item: 4, name: "FP16 | f16x2 FMA", unit: PerfUnit::TflopPerSec, needs_nonzero_checksum: true },
            PtxKind::Int8S8S8 => PtxBench { module: PtxModule::Int8, kernel: "int8_dp4a_s8s8", extra_bufs: 2, ops_per_item: 8, name: "INT8 | dp4a s8*s8 (Q8_0 path)", unit: PerfUnit::TopPerSec, needs_nonzero_checksum: false },
            PtxKind::Int8U8U8 => PtxBench { module: PtxModule::Int8, kernel: "int8_dp4a_u8u8", extra_bufs: 2, ops_per_item: 8, name: "INT8 | dp4a u8*u8 (unsigned symm)", unit: PerfUnit::TopPerSec, needs_nonzero_checksum: false },
            PtxKind::Int8S8U8 => PtxBench { module: PtxModule::Int8, kernel: "int8_dp4a_s8u8", extra_bufs: 2, ops_per_item: 8, name: "INT8 | dp4a s8*u8 (Q8_1 asymm path)", unit: PerfUnit::TopPerSec, needs_nonzero_checksum: false },
            PtxKind::Int4ViaDp4a => PtxBench { module: PtxModule::Int8, kernel: "int4_via_dp4a", extra_bufs: 2, ops_per_item: 16, name: "INT4 | emulated via dp4a (Q4_K/Q4_0 path)", unit: PerfUnit::TopPerSec, needs_nonzero_checksum: false },
            PtxKind::BitwiseXnor => PtxBench { module: PtxModule::Int8, kernel: "bitwise_xnor_popc", extra_bufs: 2, ops_per_item: 32, name: "Bitwise | XNOR+POPC (1-bit / binary nets)", unit: PerfUnit::TopPerSec, needs_nonzero_checksum: false },
            PtxKind::Int32Mad => PtxBench { module: PtxModule::Int8, kernel: "int32_mad", extra_bufs: 0, ops_per_item: 2, name: "INT32 | MAD (accumulator baseline)", unit: PerfUnit::TopPerSec, needs_nonzero_checksum: true },
        }
    }
}

/// The grid benchmarks of the `all-ptx` command, in the order it runs them.
pub open spec fn ptx_suite() -> Seq<PtxKind> {
    seq![
        PtxKind::Fp64MulAdd,
        PtxKind::Fp32MulAdd,
        PtxKind::Fp32Fma,
        PtxKind::Fp16MulAdd,
        PtxKind::Fp16Fma,
        PtxKind::Int32Mad,
        PtxKind::Int8S8S8,
        PtxKind::Int8U8U8,
        PtxKind::Int8S8U8,
        PtxKind::Int4ViaDp4a,
        PtxKind::BitwiseXnor,
    ]
}

/// The grid benchmarks of the `all-ptx` command, in the order it runs them.
pub fn ptx_suite_order() -> (v: Vec<PtxKind>)
    ensures
        v@ == ptx_suite(),
{
    let mut v: Vec<PtxKind> = Vec::new();
    v.push(PtxKind::Fp64MulAdd);
    v.push(PtxKind::Fp32MulAdd);
    v.push(PtxKind::Fp32Fma);
    v.push(PtxKind::Fp16MulAdd);
    v.push(PtxKind::Fp16Fma);
    v.push(PtxKind::Int32Mad);
    v.push(PtxKind::Int8S8S8);
    v.push(PtxKind::Int8U8U8);
    v.push(PtxKind::Int8S8U8);
    v.push(PtxKind::Int4ViaDp4a);
    v.push(PtxKind::BitwiseXnor);
    assert(v@ =~= ptx_suite());
    v
}

/// Number of blocks that cover `n` elements with `threads` threads each:
/// `n / threads` rounded up.
pub fn grid_dim(n: u32, threads: u32) -> (g: u32)
    requires
        threads > 0,
        n + threads <= u32::MAX,
    ensures
        g == (n + threads - 1) / (threads as int),
        g * threads >= n,
        g == 0 || (g - 1) * threads < n,
{
    let g: u32 = (n + threads - 1) / threads;
    assert(g * threads >= n && (g == 0 || (g - 1) * threads < n)) by (nonlinear_arith)
        requires
            threads > 0,
            g == (n + threads - 1) / (threads as int),
    ;
    g
}

/// Operations performed by a grid benchmark over `n` elements and `reps`
/// repetitions: `n * reps * ops_per_item`, counted exactly.
pub fn op_count(n: u32, reps: u32, ops_per_item: u32) -> (r: u128)
    ensures
        r == n * reps * ops_per_item,
{
    assert(0 <= n * reps <= 0xffff_ffff * 0xffff_ffffu64) by (nonlinear_arith)
        requires
            n <= 0xffff_ffff,
            reps <= 0xffff_ffff,
    ;
    assert(0 <= (n * reps) * ops_per_item <= 0xffff_ffff * 0xffff_ffffu64 * 0xffff_ffffu128)
        by (nonlinear_arith)
        requires
            0 <= n * reps <= 0xffff_ffff * 0xffff_ffffu64,
            ops_per_item <= 0xffff_ffff,
    ;
    (n as u128) * (reps as u128) * (ops_per_item as u128)
}

/// Whether a grid benchmark's read-back checksum marks the run as correct.
pub fn checksum_ok(kind: PtxKind, checksum: u64) -> (r: bool)
    ensures
        r == (!ptx_bench(kind).needs_nonzero_checksum || checksum != 0),
{
    let b = kind.bench();
    !b.needs_nonzero_checksum || checksum != 0
}

/// The Tensor Core benchmarks, which run one warp of WMMA instructions.
#[derive(Debug, Clone, Copy, PartialEq, Eq, Structural)]
pub enum WmmaKind {
    WmmaFp16F32,
    WmmaFp16F16,
    WmmaInt8S32,
}

/// How a WMMA benchmark is run and reported.
#[derive(Debug, Clone, Copy)]
pub struct WmmaBench {
    pub kernel: &'static str,
    pub name: &'static str,
    /// The name reported when the card has no WMMA instructions.
    pub unsupported_name: &'static str,
    pub unit: PerfUnit,
}

pub open spec fn wmma_bench(k: WmmaKind) -> WmmaBench {
    match k {
        WmmaKind::WmmaFp16F32 => WmmaBench { kernel: "wmma_fp16_f32", name: "WMMA | FP16->FP32 acc m16n16k16 (direct TC test)", unsupported_name: "WMMA | FP16->FP32 (TC)", unit: PerfUnit::TflopPerSec },
        WmmaKind::WmmaFp16F16 => WmmaBench { kernel: "wmma_fp16_f16", name: "WMMA | FP16->FP16 acc m16n16k16 (TC f16 acc)", unsupported_name: "WMMA | FP16->FP16 (TC)", unit: PerfUnit::TflopPerSec },
        WmmaKind::WmmaInt8S32 => WmmaBench { kernel: "wmma_int8_s32", name: "WMMA | INT8->INT32 m8n32k16 (Turing IMMA TC)", unsupported_name: "WMMA | INT8->INT32 (Turing IMMA)", unit: PerfUnit::TopPerSec },
    }
}

impl WmmaKind {
    /// How this benchmark is run and reported.
    pub fn bench(&self) -> (r: WmmaBench)
        ensures
            r == wmma_bench(*self),
    {
        match self {
            WmmaKind::WmmaFp16F32 => WmmaBench { kernel: "wmma_fp16_f32", name: "WMMA | FP16->FP32 acc m16n16k16 (direct TC test)", unsupported_name: "WMMA | FP16->FP32 (TC)", unit: PerfUnit::TflopPerSec },
            WmmaKind::WmmaFp16F16 => WmmaBench { kernel: "wmma_fp16_f16", name: "WMMA | FP16->FP16 acc m16n16k16 (TC f16 acc)", unsupported_name: "WMMA | FP16->FP16 (TC)", unit: PerfUnit::TflopPerSec },
            WmmaKind::WmmaInt8S32 => WmmaBench { kernel: "wmma_int8_s32", name: "WMMA | INT8->INT32 m8n32k16 (Turing IMMA TC)", unsupported_name: "WMMA | INT8->INT32 (Turing IMMA)", unit: PerfUnit::TopPerSec },
        }
    }
}

/// Operations per WMMA call: 2 * 16^3 for m16n16k16, 2 * 8 * 32 * 16 for m8n32k16.
pub const WMMA_OPS_PER_CALL: u64 = 8192;

/// Operations performed by `iters` WMMA calls.
pub fn wmma_op_count(iters: u32) -> (r: u64)
    ensures
        r == iters * 8192,
{
    (iters as u64) * WMMA_OPS_PER_CALL
}

/// WMMA instructions exist from SM 7.5 (Turing) on: the benchmark refuses a
/// card below that.
pub fn wmma_supported(sm_major: u32, sm_minor: u32) -> (r: bool)
    ensures
        r == !(sm_major < 7 || (sm_major == 7 && sm_minor < 5)),
{
    !(sm_major < 7 || (sm_major == 7 && sm_minor < 5))
}

/// The test by which the `all-ptx` and `full-report` commands decide to run and
/// list the WMMA benchmarks: major version at least 7 and minor at least 5.
pub fn wmma_listed(sm_major: u32, sm_minor: u32) -> (r: bool)
    ensures
        r == (sm_major >= 7 && sm_minor >= 5),
{
    sm_major >= 7 && sm_minor >= 5
}

/// The two WMMA tests agree on every card up to SM 7.x; above that they part
/// (SM 8.0 is supported but not listed).
pub proof fn lemma_wmma_tests_agree(sm_major: u32, sm_minor: u32)
    requires
        sm_major <= 7,
    ensures
        !(sm_major < 7 || (sm_major == 7 && sm_minor < 5)) == (sm_major >= 7 && sm_minor >= 5),
{
}

/// What a WMMA run reads back: the accumulator word where the result checked
/// out, zero otherwise.
pub fn wmma_checksum(result_ok: bool, word: u32) -> (r: u64)
    ensures
        r == if result_ok { word as u64 } else { 0 },
{
    if result_ok {
        word as u64
    } else {
        0
    }
}

/// The lower-case form of an ASCII upper-case letter; other chars unchanged.
pub open spec fn ascii_lower(c: char) -> char {
    if 65 <= (c as u32) <= 90 {
        ((c as u32) + 32) as char
    } else {
        c
    }
}

/// The first four chars of a benchmark's kernel are the first four of its
/// printed name, lower-cased: the FP64 row runs an `fp64` kernel, the INT8 rows
/// `int8` kernels, and so on.
pub open spec fn kernel_matches_name(kernel: Seq<char>, name: Seq<char>) -> bool {
    kernel.len() >= 4 && name.len() >= 4 && forall|i: int| 0 <= i < 4 ==> ascii_lower(name[i]) == kernel[i]
}

/// Every grid benchmark runs its own kernel: no two benchmarks share a kernel,
/// and each kernel is the one its printed name announces.
pub proof fn lemma_ptx_kernels_distinct_and_named(k1: PtxKind, k2: PtxKind)
    ensures
        k1 != k2 ==> ptx_bench(k1).kernel@ != ptx_bench(k2).kernel@,
        kernel_matches_name(ptx_bench(k1).kernel@, ptx_bench(k1).name@),
        (ptx_bench(k1).unit == PerfUnit::TflopPerSec) == (ptx_bench(k1).kernel@[0] == 'f'),
        (ptx_bench(k1).module == PtxModule::Fp16) == (ptx_bench(k1).kernel@.subrange(0, 4)
            == "fp16"@),
        (ptx_bench(k1).module == PtxModule::Int8) == (ptx_bench(k1).kernel@[0] != 'f'),
        ptx_bench(k1).module != PtxModule::Wmma,
        (ptx_bench(k1).module == PtxModule::Fp16) == (ptx_bench(k1).ops_per_item == 4),
        ptx_bench(k1).needs_nonzero_checksum == (ptx_bench(k1).extra_bufs == 0),
        ptx_bench(k1).extra_bufs == 0 || ptx_bench(k1).extra_bufs == 2,
{
    reveal_strlit("fp16");
    let a = ptx_bench(k1).kernel@;
    let b = ptx_bench(k2).kernel@;
    reveal_strlit("fp32_muladd");
    reveal_strlit("FP32 | explicit MUL+ADD (no FMA)");
    reveal_strlit("fp32_fma");
    reveal_strlit("FP32 | FMA (fma.rn.f32)");
    reveal_strlit("fp64_muladd");
    reveal_strlit("FP64 | MUL+ADD (diagnose hardware FP64)");
    reveal_strlit("fp16_muladd");
    reveal_strlit("FP16 | f16x2 MUL+ADD (best on CMP 50HX!)");
    reveal_strlit("fp16_fma");
    reveal_strlit("FP16 | f16x2 FMA");
    reveal_strlit("int8_dp4a_s8s8");
    reveal_strlit("INT8 | dp4a s8*s8 (Q8_0 path)");
    reveal_strlit("int8_dp4a_u8u8");
    reveal_strlit("INT8 | dp4a u8*u8 (unsigned symm)");
    reveal_strlit("int8_dp4a_s8u8");
    reveal_strlit("INT8 | dp4a s8*u8 (Q8_1 asymm path)");
    reveal_strlit("int4_via_dp4a");
    reveal_strlit("INT4 | emulated via dp4a (Q4_K/Q4_0 path)");
    reveal_strlit("bitwise_xnor_popc");
    reveal_strlit("Bitwise | XNOR+POPC (1-bit / binary nets)");
    reveal_strlit("int32_mad");
    reveal_strlit("INT32 | MAD (accumulator baseline)");
    assert(a.subrange(0, 4)[2] == a[2] && a.subrange(0, 4)[3] == a[3]);
    if a[0] == 'f' && a[3] == '6' {
        assert(a.subrange(0, 4) =~= "fp16"@);
    }
    if k1 != k2 {
        assert(a.len() != b.len() || a[3] != b[3] || (a.len() == 14 && (a[10] != b[10] || a[12]
            != b[12])));
    }
}

/// Every WMMA benchmark runs its own kernel: no two share one, and each kernel
/// is the one its printed name announces.
pub proof fn lemma_wmma_kernels_distinct_and_named(k1: WmmaKind, k2: WmmaKind)
    ensures
        k1 != k2 ==> wmma_bench(k1).kernel@ != wmma_bench(k2).kernel@,
        kernel_matches_name(wmma_bench(k1).kernel@, wmma_bench(k1).name@),
{
    let a = wmma_bench(k1).kernel@;
    let b = wmma_bench(k2).kernel@;
    reveal_strlit("wmma_fp16_f32");
    reveal_strlit("WMMA | FP16->FP32 acc m16n16k16 (direct TC test)");
    reveal_strlit("wmma_fp16_f16");
    reveal_strlit("WMMA | FP16->FP16 acc m16n16k16 (TC f16 acc)");
    reveal_strlit("wmma_int8_s32");
    reveal_strlit("WMMA | INT8->INT32 m8n32k16 (Turing IMMA TC)");
    if k1 != k2 {
        assert(a[5] != b[5] || a[11] != b[11]);
    }
}

} // verus!
