use vstd::prelude::*;
use crate::cuda::{
    CUBLAS_COMPUTE_16F, CUBLAS_COMPUTE_16F_PEDANTIC, CUBLAS_COMPUTE_32F, CUBLAS_COMPUTE_32F_FAST_16F,
    CUBLAS_COMPUTE_32F_FAST_TF32, CUBLAS_COMPUTE_32F_PEDANTIC, CUBLAS_DEFAULT_MATH,
    CUBLAS_GEMM_ALGO1, CUBLAS_GEMM_ALGO1_TENSOR_OP, CUBLAS_GEMM_ALGO2, CUBLAS_GEMM_ALGO3,
    CUBLAS_GEMM_DEFAULT, CUBLAS_GEMM_DFALT_TENSOR_OP, CUBLAS_PEDANTIC_MATH,
    CUBLAS_TF32_TENSOR_OP_MATH, CUDA_R_16F, CUDA_R_32F,
};
use crate::text::{has_substring, str_chars, contains_chars};

verus! {

/// The cuBLAS entry point that a probe calls, and with what types.
#[derive(Debug, Clone, Copy, PartialEq, Eq, Structural)]
pub enum GemmCall {
    /// `cublasGemmEx` on inputs of `input_type`, with FP32 output.
    GemmEx { input_type: u32, compute_type: u32, algo: i32 },
    /// `cublasSgemm`: FP32 in and out.
    Sgemm,
}

/// One configuration that the cuBLAS probe times and checks.
#[derive(Debug, Clone, Copy)]
pub struct GemmProbe {
    pub label: &'static str,
    /// A pedantic reference run, marked with a star in the output.
    pub is_ref: bool,
    pub math_mode: u32,
    pub call: GemmCall,
}

/// The configurations of the cuBLAS probe, in the order it runs them.
pub open spec fn gemm_probes() -> Seq<GemmProbe> {
    seq![
        GemmProbe { label: "FP16 | 16F DEFAULT", is_ref: false, math_mode: CUBLAS_DEFAULT_MATH, call: GemmCall::GemmEx { input_type: CUDA_R_16F, compute_type: CUBLAS_COMPUTE_16F, algo: CUBLAS_GEMM_DEFAULT } },
        GemmProbe { label: "FP16 | 16F TENSOR_OP", is_ref: false, math_mode: CUBLAS_TF32_TENSOR_OP_MATH, call: GemmCall::GemmEx { input_type: CUDA_R_16F, compute_type: CUBLAS_COMPUTE_16F, algo: CUBLAS_GEMM_DFALT_TENSOR_OP } },
        GemmProbe { label: "FP16 | 16F_PEDANTIC (no TC/FMA)", is_ref: true, math_mode: CUBLAS_PEDANTIC_MATH, call: GemmCall::GemmEx { input_type: CUDA_R_16F, compute_type: CUBLAS_COMPUTE_16F_PEDANTIC, algo: CUBLAS_GEMM_DEFAULT } },
        GemmProbe { label: "FP16 | 16F ALGO_1 (CUDA cores)", is_ref: false, math_mode: CUBLAS_DEFAULT_MATH, call: GemmCall::GemmEx { input_type: CUDA_R_16F, compute_type: CUBLAS_COMPUTE_16F, algo: CUBLAS_GEMM_ALGO1 } },
        GemmProbe { label: "FP16 | 16F ALGO_2", is_ref: false, math_mode: CUBLAS_DEFAULT_MATH, call: GemmCall::GemmEx { input_type: CUDA_R_16F, compute_type: CUBLAS_COMPUTE_16F, algo: CUBLAS_GEMM_ALGO2 } },
        GemmProbe { label: "FP16 | 16F ALGO_3", is_ref: false, math_mode: CUBLAS_DEFAULT_MATH, call: GemmCall::GemmEx { input_type: CUDA_R_16F, compute_type: CUBLAS_COMPUTE_16F, algo: CUBLAS_GEMM_ALGO3 } },
        GemmProbe { label: "FP16 | 32F_PEDANTIC", is_ref: true, math_mode: CUBLAS_PEDANTIC_MATH, call: GemmCall::GemmEx { input_type: CUDA_R_16F, compute_type: CUBLAS_COMPUTE_32F_PEDANTIC, algo: CUBLAS_GEMM_DEFAULT } },
        GemmProbe { label: "FP16 | 32F DEFAULT (uses FMA)", is_ref: false, math_mode: CUBLAS_DEFAULT_MATH, call: GemmCall::GemmEx { input_type: CUDA_R_16F, compute_type: CUBLAS_COMPUTE_32F, algo: CUBLAS_GEMM_DEFAULT } },
        GemmProbe { label: "FP16 | 32F_FAST_16F", is_ref: false, math_mode: CUBLAS_DEFAULT_MATH, call: GemmCall::GemmEx { input_type: CUDA_R_16F, compute_type: CUBLAS_COMPUTE_32F_FAST_16F, algo: CUBLAS_GEMM_DEFAULT } },
        GemmProbe { label: "FP16 | 32F_FAST_TF32", is_ref: false, math_mode: CUBLAS_DEFAULT_MATH, call: GemmCall::GemmEx { input_type: CUDA_R_16F, compute_type: CUBLAS_COMPUTE_32F_FAST_TF32, algo: CUBLAS_GEMM_DEFAULT } },
        GemmProbe { label: "FP32 | 32F_PEDANTIC", is_ref: true, math_mode: CUBLAS_PEDANTIC_MATH, call: GemmCall::Sgemm },
        GemmProbe { label: "FP32 | 32F DEFAULT", is_ref: false, math_mode: CUBLAS_DEFAULT_MATH, call: GemmCall::Sgemm },
        GemmProbe { label: "FP32 | 32F ALGO_5", is_ref: false, math_mode: CUBLAS_DEFAULT_MATH, call: GemmCall::GemmEx { input_type: CUDA_R_32F, compute_type: CUBLAS_COMPUTE_32F, algo: CUBLAS_GEMM_ALGO1_TENSOR_OP } },
    ]
}

/// The configurations of the cuBLAS probe, in the order it runs them.
pub fn gemm_probe_list() -> (v: Vec<GemmProbe>)
    ensures
        v@ == gemm_probes(),
{
    let mut v: Vec<GemmProbe> = Vec::new();
    v.push(GemmProbe { label: "FP16 | 16F DEFAULT", is_ref: false, math_mode: CUBLAS_DEFAULT_MATH, call: GemmCall::GemmEx { input_type: CUDA_R_16F, compute_type: CUBLAS_COMPUTE_16F, algo: CUBLAS_GEMM_DEFAULT } });
    v.push(GemmProbe { label: "FP16 | 16F TENSOR_OP", is_ref: false, math_mode: CUBLAS_TF32_TENSOR_OP_MATH, call: GemmCall::GemmEx { input_type: CUDA_R_16F, compute_type: CUBLAS_COMPUTE_16F, algo: CUBLAS_GEMM_DFALT_TENSOR_OP } });
    v.push(GemmProbe { label: "FP16 | 16F_PEDANTIC (no TC/FMA)", is_ref: true, math_mode: CUBLAS_PEDANTIC_MATH, call: GemmCall::GemmEx { input_type: CUDA_R_16F, compute_type: CUBLAS_COMPUTE_16F_PEDANTIC, algo: CUBLAS_GEMM_DEFAULT } });
    v.push(GemmProbe { label: "FP16 | 16F ALGO_1 (CUDA cores)", is_ref: false, math_mode: CUBLAS_DEFAULT_MATH, call: GemmCall::GemmEx { input_type: CUDA_R_16F, compute_type: CUBLAS_COMPUTE_16F, algo: CUBLAS_GEMM_ALGO1 } });
    v.push(GemmProbe { label: "FP16 | 16F ALGO_2", is_ref: false, math_mode: CUBLAS_DEFAULT_MATH, call: GemmCall::GemmEx { input_type: CUDA_R_16F, compute_type: CUBLAS_COMPUTE_16F, algo: CUBLAS_GEMM_ALGO2 } });
    v.push(GemmProbe { label: "FP16 | 16F ALGO_3", is_ref: false, math_mode: CUBLAS_DEFAULT_MATH, call: GemmCall::GemmEx { input_type: CUDA_R_16F, compute_type: CUBLAS_COMPUTE_16F, algo: CUBLAS_GEMM_ALGO3 } });
    v.push(GemmProbe { label: "FP16 | 32F_PEDANTIC", is_ref: true, math_mode: CUBLAS_PEDANTIC_MATH, call: GemmCall::GemmEx { input_type: CUDA_R_16F, compute_type: CUBLAS_COMPUTE_32F_PEDANTIC, algo: CUBLAS_GEMM_DEFAULT } });
    v.push(GemmProbe { label: "FP16 | 32F DEFAULT (uses FMA)", is_ref: false, math_mode: CUBLAS_DEFAULT_MATH, call: GemmCall::GemmEx { input_type: CUDA_R_16F, compute_type: CUBLAS_COMPUTE_32F, algo: CUBLAS_GEMM_DEFAULT } });
    v.push(GemmProbe { label: "FP16 | 32F_FAST_16F", is_ref: false, math_mode: CUBLAS_DEFAULT_MATH, call: GemmCall::GemmEx { input_type: CUDA_R_16F, compute_type: CUBLAS_COMPUTE_32F_FAST_16F, algo: CUBLAS_GEMM_DEFAULT } });
    v.push(GemmProbe { label: "FP16 | 32F_FAST_TF32", is_ref: false, math_mode: CUBLAS_DEFAULT_MATH, call: GemmCall::GemmEx { input_type: CUDA_R_16F, compute_type: CUBLAS_COMPUTE_32F_FAST_TF32, algo: CUBLAS_GEMM_DEFAULT } });
    v.push(GemmProbe { label: "FP32 | 32F_PEDANTIC", is_ref: true, math_mode: CUBLAS_PEDANTIC_MATH, call: GemmCall::Sgemm });
    v.push(GemmProbe { label: "FP32 | 32F DEFAULT", is_ref: false, math_mode: CUBLAS_DEFAULT_MATH, call: GemmCall::Sgemm });
    v.push(GemmProbe { label: "FP32 | 32F ALGO_5", is_ref: false, math_mode: CUBLAS_DEFAULT_MATH, call: GemmCall::GemmEx { input_type: CUDA_R_32F, compute_type: CUBLAS_COMPUTE_32F, algo: CUBLAS_GEMM_ALGO1_TENSOR_OP } });
    assert(v@ =~= gemm_probes());
    v
}

/// The probe marks a configuration as a reference exactly where it runs in
/// pedantic math mode.
pub proof fn lemma_reference_iff_pedantic()
    ensures
        forall|i: int|
            0 <= i < gemm_probes().len() ==> (#[trigger] gemm_probes()[i]).is_ref == (
            gemm_probes()[i].math_mode == CUBLAS_PEDANTIC_MATH),
{
}

/// Byte sizes of the probe's device buffers for `m x m` matrices: FP16 and FP32.
pub fn gemm_buffer_bytes(m: i32) -> (r: (usize, usize))
    requires
        0 <= m * m <= i32::MAX,
        m * m * 4 <= usize::MAX,
    ensures
        r.0 == m * m * 2,
        r.1 == m * m * 4,
{
    let elems: usize = (m * m) as usize;
    (elems * 2, elems * 4)
}

/// Floating-point operations of one `m x m x m` GEMM: `2 * m^3`, counted exactly
/// (negative where `m` is).
pub fn gemm_flop_count(m: i32) -> (r: i128)
    ensures
        r == 2 * (m * m * m),
{
    let mm: i128 = m as i128;
    assert(0 <= mm * mm <= 0x8000_0000 * 0x8000_0000i128) by (nonlinear_arith)
        requires
            -0x8000_0000 <= mm <= 0x7fff_ffff,
    ;
    assert(-0x8000_0000 * 0x8000_0000i128 * 0x8000_0000i128 <= mm * mm * mm <= 0x8000_0000
        * 0x8000_0000i128 * 0x8000_0000i128) by (nonlinear_arith)
        requires
            -0x8000_0000 <= mm <= 0x7fff_ffff,
            0 <= mm * mm <= 0x8000_0000 * 0x8000_0000i128,
    ;
    2 * (mm * mm * mm)
}

/// The label and correctness verdict of one timed cuBLAS configuration.
#[derive(Debug)]
pub struct GemmCheck {
    pub label: String,
    pub ok: bool,
}

/// Some FP16-compute default run gave wrong results: a result whose label
/// contains `16F DEFAULT` and that failed its check.
pub open spec fn fp16_default_failed(results: Seq<GemmCheck>) -> bool {
    exists|i: int|
        0 <= i < results.len() && has_substring((#[trigger] results[i]).label@, "16F DEFAULT"@)
            && !results[i].ok
}

/// Decides whether the Tensor Core FP16 path is bad, from the probe's results.
pub fn detect_fp16_tc_bad(results: &Vec<GemmCheck>) -> (r: bool)
    ensures
        r == fp16_default_failed(results@),
{
    let needle = str_chars("16F DEFAULT");
    let mut i: usize = 0;
    while i < results.len()
        invariant
            i <= results@.len(),
            needle@ == "16F DEFAULT"@,
            forall|j: int|
                0 <= j < i ==> !(has_substring((#[trigger] results@[j]).label@, "16F DEFAULT"@)
                    && !results@[j].ok),
        decreases results.len() - i,
    {
        let label = str_chars(results[i].label.as_str());
        if !results[i].ok && contains_chars(&label, &needle) {
            assert(has_substring(results@[i as int].label@, "16F DEFAULT"@));
            return true;
        }
        i += 1;
    }
    false
}

/// The input type that a probe hands to cuBLAS (`cublasSgemm` takes FP32).
pub open spec fn input_type_of(call: GemmCall) -> u32 {
    match call {
        GemmCall::GemmEx { input_type, .. } => input_type,
        GemmCall::Sgemm => CUDA_R_32F,
    }
}

/// The probe accumulates in FP32 (`cublasSgemm`, or a 32F compute type).
pub open spec fn computes_in_32f(call: GemmCall) -> bool {
    match call {
        GemmCall::GemmEx { compute_type, .. } => compute_type == CUBLAS_COMPUTE_32F || compute_type
            == CUBLAS_COMPUTE_32F_PEDANTIC || compute_type == CUBLAS_COMPUTE_32F_FAST_16F
            || compute_type == CUBLAS_COMPUTE_32F_FAST_TF32,
        GemmCall::Sgemm => true,
    }
}

/// The probe accumulates in FP16 (a 16F compute type).
pub open spec fn computes_in_16f(call: GemmCall) -> bool {
    match call {
        GemmCall::GemmEx { compute_type, .. } => compute_type == CUBLAS_COMPUTE_16F || compute_type
            == CUBLAS_COMPUTE_16F_PEDANTIC,
        GemmCall::Sgemm => false,
    }
}

/// A probe's label reads `<input> | <compute>...`: `FP16` or `FP32` input, then
/// `16F` or `32F` compute, then `_PEDANTIC` for a pedantic run. The probe runs
/// what its label says: that input type, a compute type of that precision, and
/// pedantic math (with a pedantic compute type, where it calls `cublasGemmEx`)
/// exactly when the label says pedantic.
pub open spec fn probe_runs_its_label(p: GemmProbe) -> bool {
    let l = p.label@;
    let pedantic = l.len() >= 19 && l.subrange(10, 19) == "_PEDANTIC"@;
    &&& l.len() >= 12
    &&& l.subrange(0, 4) == "FP16"@ || l.subrange(0, 4) == "FP32"@
    &&& l.subrange(7, 10) == "16F"@ || l.subrange(7, 10) == "32F"@
    &&& l.subrange(0, 4) == "FP16"@ ==> input_type_of(p.call) == CUDA_R_16F
    &&& l.subrange(0, 4) == "FP32"@ ==> input_type_of(p.call) == CUDA_R_32F
    &&& l.subrange(7, 10) == "32F"@ ==> computes_in_32f(p.call)
    &&& l.subrange(7, 10) == "16F"@ ==> computes_in_16f(p.call)
    &&& pedantic == (p.math_mode == CUBLAS_PEDANTIC_MATH)
    &&& pedantic ==> match p.call {
        GemmCall::GemmEx { compute_type, .. } => compute_type == CUBLAS_COMPUTE_16F_PEDANTIC
            || compute_type == CUBLAS_COMPUTE_32F_PEDANTIC,
        GemmCall::Sgemm => true,
    }
}

proof fn lemma_probe_runs_its_label_at(i: int)
    requires
        0 <= i < gemm_probes().len(),
    ensures
        probe_runs_its_label(gemm_probes()[i]),
{
    reveal_strlit("FP16");
    reveal_strlit("FP32");
    reveal_strlit("16F");
    reveal_strlit("32F");
    reveal_strlit("_PEDANTIC");
    reveal_strlit("FP16 | 16F DEFAULT");
    reveal_strlit("FP16 | 16F TENSOR_OP");
    reveal_strlit("FP16 | 16F_PEDANTIC (no TC/FMA)");
    reveal_strlit("FP16 | 16F ALGO_1 (CUDA cores)");
    reveal_strlit("FP16 | 16F ALGO_2");
    reveal_strlit("FP16 | 16F ALGO_3");
    reveal_strlit("FP16 | 32F_PEDANTIC");
    reveal_strlit("FP16 | 32F DEFAULT (uses FMA)");
    reveal_strlit("FP16 | 32F_FAST_16F");
    reveal_strlit("FP16 | 32F_FAST_TF32");
    reveal_strlit("FP32 | 32F_PEDANTIC");
    reveal_strlit("FP32 | 32F DEFAULT");
    reveal_strlit("FP32 | 32F ALGO_5");
    if i == 0 {
        let l = gemm_probes()[0].label@;
        assert(l.subrange(0, 4) =~= "FP16"@);
        assert(l.subrange(0, 4)[2] != "FP32"@[2]);
        assert(l.subrange(7, 10) =~= "16F"@);
        assert(l.subrange(7, 10)[0] != "32F"@[0]);
        assert(l.len() < 19 || l.subrange(10, 19)[1] != "_PEDANTIC"@[1]);
    }
    if i == 1 {
        let l = gemm_probes()[1].label@;
        assert(l.subrange(0, 4) =~= "FP16"@);
        assert(l.subrange(0, 4)[2] != "FP32"@[2]);
        assert(l.subrange(7, 10) =~= "16F"@);
        assert(l.subrange(7, 10)[0] != "32F"@[0]);
        assert(l.len() < 19 || l.subrange(10, 19)[1] != "_PEDANTIC"@[1]);
    }
    if i == 2 {
        let l = gemm_probes()[2].label@;
        assert(l.subrange(0, 4) =~= "FP16"@);
        assert(l.subrange(0, 4)[2] != "FP32"@[2]);
        assert(l.subrange(7, 10) =~= "16F"@);
        assert(l.subrange(7, 10)[0] != "32F"@[0]);
        assert(l.subrange(10, 19) =~= "_PEDANTIC"@);
    }
    if i == 3 {
        let l = gemm_probes()[3].label@;
        assert(l.subrange(0, 4) =~= "FP16"@);
        assert(l.subrange(0, 4)[2] != "FP32"@[2]);
        assert(l.subrange(7, 10) =~= "16F"@);
        assert(l.subrange(7, 10)[0] != "32F"@[0]);
        assert(l.len() < 19 || l.subrange(10, 19)[1] != "_PEDANTIC"@[1]);
    }
    if i == 4 {
        let l = gemm_probes()[4].label@;
        assert(l.subrange(0, 4) =~= "FP16"@);
        assert(l.subrange(0, 4)[2] != "FP32"@[2]);
        assert(l.subrange(7, 10) =~= "16F"@);
        assert(l.subrange(7, 10)[0] != "32F"@[0]);
        assert(l.len() < 19 || l.subrange(10, 19)[1] != "_PEDANTIC"@[1]);
    }
    if i == 5 {
        let l = gemm_probes()[5].label@;
        assert(l.subrange(0, 4) =~= "FP16"@);
        assert(l.subrange(0, 4)[2] != "FP32"@[2]);
        assert(l.subrange(7, 10) =~= "16F"@);
        assert(l.subrange(7, 10)[0] != "32F"@[0]);
        assert(l.len() < 19 || l.subrange(10, 19)[1] != "_PEDANTIC"@[1]);
    }
    if i == 6 {
        let l = gemm_probes()[6].label@;
        assert(l.subrange(0, 4) =~= "FP16"@);
        assert(l.subrange(0, 4)[2] != "FP32"@[2]);
        assert(l.subrange(7, 10) =~= "32F"@);
        assert(l.subrange(7, 10)[0] != "16F"@[0]);
        assert(l.subrange(10, 19) =~= "_PEDANTIC"@);
    }
    if i == 7 {
        let l = gemm_probes()[7].label@;
        assert(l.subrange(0, 4) =~= "FP16"@);
        assert(l.subrange(0, 4)[2] != "FP32"@[2]);
        assert(l.subrange(7, 10) =~= "32F"@);
        assert(l.subrange(7, 10)[0] != "16F"@[0]);
        assert(l.len() < 19 || l.subrange(10, 19)[1] != "_PEDANTIC"@[1]);
    }
    if i == 8 {
        let l = gemm_probes()[8].label@;
        assert(l.subrange(0, 4) =~= "FP16"@);
        assert(l.subrange(0, 4)[2] != "FP32"@[2]);
        assert(l.subrange(7, 10) =~= "32F"@);
        assert(l.subrange(7, 10)[0] != "16F"@[0]);
        assert(l.len() < 19 || l.subrange(10, 19)[1] != "_PEDANTIC"@[1]);
    }
    if i == 9 {
        let l = gemm_probes()[9].label@;
        assert(l.subrange(0, 4) =~= "FP16"@);
        assert(l.subrange(0, 4)[2] != "FP32"@[2]);
        assert(l.subrange(7, 10) =~= "32F"@);
        assert(l.subrange(7, 10)[0] != "16F"@[0]);
        assert(l.len() < 19 || l.subrange(10, 19)[1] != "_PEDANTIC"@[1]);
    }
    if i == 10 {
        let l = gemm_probes()[10].label@;
        assert(l.subrange(0, 4) =~= "FP32"@);
        assert(l.subrange(0, 4)[2] != "FP16"@[2]);
        assert(l.subrange(7, 10) =~= "32F"@);
        assert(l.subrange(7, 10)[0] != "16F"@[0]);
        assert(l.subrange(10, 19) =~= "_PEDANTIC"@);
    }
    if i == 11 {
        let l = gemm_probes()[11].label@;
        assert(l.subrange(0, 4) =~= "FP32"@);
        assert(l.subrange(0, 4)[2] != "FP16"@[2]);
        assert(l.subrange(7, 10) =~= "32F"@);
        assert(l.subrange(7, 10)[0] != "16F"@[0]);
        assert(l.len() < 19 || l.subrange(10, 19)[1] != "_PEDANTIC"@[1]);
    }
    if i == 12 {
        let l = gemm_probes()[12].label@;
        assert(l.subrange(0, 4) =~= "FP32"@);
        assert(l.subrange(0, 4)[2] != "FP16"@[2]);
        assert(l.subrange(7, 10) =~= "32F"@);
        assert(l.subrange(7, 10)[0] != "16F"@[0]);
        assert(l.len() < 19 || l.subrange(10, 19)[1] != "_PEDANTIC"@[1]);
    }
}

/// Every configuration of the cuBLAS probe runs what its label names: the input
/// type, the precision of the compute type, and pedantic math.
pub proof fn lemma_probes_run_their_labels()
    ensures
        forall|i: int|
            0 <= i < gemm_probes().len() ==> probe_runs_its_label(#[trigger] gemm_probes()[i]),
{
    assert forall|i: int| 0 <= i < gemm_probes().len() implies probe_runs_its_label(
        #[trigger] gemm_probes()[i],
    ) by {
        lemma_probe_runs_its_label_at(i);
    }
}

} // verus!
