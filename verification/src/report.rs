use vstd::prelude::*;
use crate::gpu_db::{GpuSpec, gpu_db, is_first_match, known_gpus};
use crate::text::{
    contains_chars, first_word, first_word_chars, has_substring, lowercase, lowercase_chars,
    str_chars,
};

verus! {

/// A known card that the report takes for the measured one: same compute
/// capability, and the first word of its lower-cased name occurs in the
/// lower-cased measured name.
pub open spec fn report_match(gpu_name: Seq<char>, sm_major: u32, sm_minor: u32) -> spec_fn(GpuSpec) -> bool {
    |g: GpuSpec|
        g.sm_major == sm_major && g.sm_minor == sm_minor && has_substring(
            lowercase(gpu_name),
            first_word(lowercase(g.name@)),
        )
}

/// The known card that the full report uses for the measured card, if any: the
/// first table entry that `report_match` accepts.
pub fn find_known_gpu(gpu_name: &str, sm_major: u32, sm_minor: u32) -> (r: Option<GpuSpec>)
    ensures
        is_first_match(known_gpus(), report_match(gpu_name@, sm_major, sm_minor), r),
{
    let db = gpu_db();
    let name = lowercase_chars(gpu_name);
    let ghost p = report_match(gpu_name@, sm_major, sm_minor);
    let mut i: usize = 0;
    while i < db.len()
        invariant
            i <= db.len(),
            db@ == known_gpus(),
            name@ == lowercase(gpu_name@),
            p == report_match(gpu_name@, sm_major, sm_minor),
            forall|j: int| 0 <= j < i ==> !p(#[trigger] db@[j]),
        decreases db.len() - i,
    {
        let g = db[i];
        if g.sm_major == sm_major && g.sm_minor == sm_minor {
            let word = first_word_chars(&lowercase_chars(g.name));
            if contains_chars(&name, &word) {
                assert(db@[i as int] == g && p(db@[i as int]));
                return Some(g);
            }
        }
        i += 1;
    }
    None
}

/// Whether the report treats the card as having Tensor Cores. A TU117 card
/// (Quadro T400 or T600) has none despite SM 7.5; otherwise as the known card
/// says, else by compute capability (major at least 7 and minor at least 5).
pub open spec fn tensor_cores_present(
    known: Option<GpuSpec>,
    sm_major: u32,
    sm_minor: u32,
    is_tu117: bool,
) -> bool {
    !is_tu117 && match known {
        Some(g) => g.has_tensor_cores,
        None => sm_major >= 7 && sm_minor >= 5,
    }
}

pub fn has_tensor_cores(known: Option<GpuSpec>, sm_major: u32, sm_minor: u32, is_tu117: bool) -> (r:
    bool)
    ensures
        r == tensor_cores_present(known, sm_major, sm_minor, is_tu117),
        is_tu117 ==> !r,
        known matches Some(g) ==> (!is_tu117 ==> r == g.has_tensor_cores),
        known is None && !is_tu117 ==> r == (sm_major >= 7 && sm_minor >= 5),
{
    if is_tu117 {
        return false;
    }
    match known {
        Some(g) => g.has_tensor_cores,
        None => sm_major >= 7 && sm_minor >= 5,
    }
}

/// The report's verdict on the Tensor Cores.
#[derive(Debug, Clone, Copy, PartialEq, Eq, Structural)]
pub enum TcDiagnosis {
    /// No Tensor Cores (Pascal, or a TU117 Quadro): cuBLAS must use COMPUTE_32F.
    NoTensorCores,
    /// Tensor Cores present, but cuBLAS 16F gives wrong results.
    WrongResults,
    /// Tensor Cores operating correctly.
    Correct,
}

/// The Tensor Core verdict. Lacking Tensor Cores takes precedence over any
/// probe outcome; on a card that has them, a failed FP16 default run marks them wrong.
pub open spec fn tc_diagnosis_spec(has_tc: bool, tc_bad: bool) -> TcDiagnosis {
    if !has_tc {
        TcDiagnosis::NoTensorCores
    } else if tc_bad {
        TcDiagnosis::WrongResults
    } else {
        TcDiagnosis::Correct
    }
}

pub fn tc_diagnosis(has_tc: bool, tc_bad: bool) -> (r: TcDiagnosis)
    ensures
        r == tc_diagnosis_spec(has_tc, tc_bad),
{
    if !has_tc {
        TcDiagnosis::NoTensorCores
    } else if tc_bad {
        TcDiagnosis::WrongResults
    } else {
        TcDiagnosis::Correct
    }
}

/// The measured card is a Quadro T400: its lower-cased name contains `t400` or `t 400`.
pub open spec fn is_t400_name(gpu_name: Seq<char>) -> bool {
    has_substring(lowercase(gpu_name), "t400"@) || has_substring(lowercase(gpu_name), "t 400"@)
}

/// Whether the report adds its Quadro T400 note.
pub fn is_quadro_t400(gpu_name: &str) -> (r: bool)
    ensures
        r == is_t400_name(gpu_name@),
{
    let name = lowercase_chars(gpu_name);
    let a = str_chars("t400");
    if contains_chars(&name, &a) {
        return true;
    }
    let b = str_chars("t 400");
    contains_chars(&name, &b)
}

/// The measured card has a TU117 die: its lower-cased name names a T400 or a
/// T600 (`t400`, `t 400`, `t600` or `t 600`).
pub open spec fn is_tu117_name(gpu_name: Seq<char>) -> bool {
    ||| is_t400_name(gpu_name)
    ||| has_substring(lowercase(gpu_name), "t600"@)
    ||| has_substring(lowercase(gpu_name), "t 600"@)
}

/// Whether the measured card is a TU117 Quadro (T400 or T600), which has no
/// Tensor Cores.
pub fn is_tu117_card(gpu_name: &str) -> (r: bool)
    ensures
        r == is_tu117_name(gpu_name@),
{
    if is_quadro_t400(gpu_name) {
        return true;
    }
    let name = lowercase_chars(gpu_name);
    let a = str_chars("t600");
    if contains_chars(&name, &a) {
        return true;
    }
    let b = str_chars("t 600");
    contains_chars(&name, &b)
}

/// A card whose name marks it as a Quadro T400 gets the verdict "no Tensor
/// Cores", whatever the table lookup and the cuBLAS probe found: the report
/// never calls its Tensor Cores correct or broken.
pub proof fn lemma_t400_has_no_tensor_cores(
    gpu_name: Seq<char>,
    known: Option<GpuSpec>,
    sm_major: u32,
    sm_minor: u32,
    tc_bad: bool,
)
    requires
        is_t400_name(gpu_name),
    ensures
        is_tu117_name(gpu_name),
        !tensor_cores_present(known, sm_major, sm_minor, is_tu117_name(gpu_name)),
        tc_diagnosis_spec(
            tensor_cores_present(known, sm_major, sm_minor, is_tu117_name(gpu_name)),
            tc_bad,
        ) == TcDiagnosis::NoTensorCores,
{
}

/// The note beside the FP32 FMA throughput.
pub fn fma_note(fma_broken: bool) -> (r: &'static str)
    ensures
        r@ == if fma_broken {
            "← ⚠️  BROKEN ON THIS CARD! (CMP mining)"@
        } else {
            "← uses fused multiply-add (correct)"@
        },
{
    if fma_broken {
        "← ⚠️  BROKEN ON THIS CARD! (CMP mining)"
    } else {
        "← uses fused multiply-add (correct)"
    }
}

/// The note beside the INT8 dp4a s8*s8 throughput.
pub fn int8_note(int8_suspicious: bool) -> (r: &'static str)
    ensures
        r@ == if int8_suspicious {
            "← ⚠️  SUSPICIOUSLY LOW for Turing!"@
        } else {
            "← Q8_0 GGUF inference path"@
        },
{
    if int8_suspicious {
        "← ⚠️  SUSPICIOUSLY LOW for Turing!"
    } else {
        "← Q8_0 GGUF inference path"
    }
}

/// INT8 dp4a counts as suspicious only on a Turing card (major version 7)
/// whose measured s8*s8 rate is known and below 5 TOP/s (`below_5` is that test,
/// `None` where nothing was measured).
pub fn int8_suspicious(sm_major: u32, below_5: Option<bool>) -> (r: bool)
    ensures
        r == (sm_major == 7 && below_5 == Some(true)),
{
    if sm_major == 7 {
        match below_5 {
            Some(b) => b,
            None => false,
        }
    } else {
        false
    }
}

/// The cuBLAS settings that the pretraining advice recommends.
#[derive(Debug, Clone, Copy)]
pub struct PretrainAdvice {
    pub math_mode: &'static str,
    pub compute: &'static str,
    /// Print the `cublasSetMathMode(..., CUBLAS_PEDANTIC_MATH)` line.
    pub force_pedantic: bool,
    /// Print the warning to use COMPUTE_32F, not 16F.
    pub force_compute_32f: bool,
    /// Print the tip that f16x2 mul+add is the fastest path.
    pub f16x2_tip: bool,
}

/// What the pretraining advice recommends: pedantic math where FMA is broken;
/// FP32 compute where there are no Tensor Cores or they give wrong results;
/// the f16x2 tip where FMA is broken and f16x2 mul+add is fast (`f16x2_fast` is
/// the test that it exceeds 15 TFLOP/s, `None` where nothing was measured).
pub open spec fn pretrain_advice_spec(
    fma_broken: bool,
    tc_bad: bool,
    has_tc: bool,
    f16x2_fast: Option<bool>,
) -> PretrainAdvice {
    PretrainAdvice {
        math_mode: if fma_broken {
            "CUBLAS_PEDANTIC_MATH"
        } else {
            "CUBLAS_DEFAULT_MATH"
        },
        compute: if !has_tc || tc_bad {
            "CUBLAS_COMPUTE_32F"
        } else {
            "CUBLAS_COMPUTE_16F or 32F"
        },
        force_pedantic: fma_broken,
        force_compute_32f: !has_tc || tc_bad,
        f16x2_tip: f16x2_fast == Some(true) && fma_broken,
    }
}

pub fn pretrain_advice(fma_broken: bool, tc_bad: bool, has_tc: bool, f16x2_fast: Option<bool>) -> (r:
    PretrainAdvice)
    ensures
        r == pretrain_advice_spec(fma_broken, tc_bad, has_tc, f16x2_fast),
        r.force_pedantic == fma_broken,
        (r.math_mode@ == "CUBLAS_PEDANTIC_MATH"@) == fma_broken,
        !fma_broken ==> r.math_mode@ == "CUBLAS_DEFAULT_MATH"@,
        r.force_compute_32f == (!has_tc || tc_bad),
        (r.compute@ == "CUBLAS_COMPUTE_32F"@) == (!has_tc || tc_bad),
        r.f16x2_tip == (fma_broken && f16x2_fast == Some(true)),
{
    proof {
        lemma_pretrain_advice(fma_broken, tc_bad, has_tc, f16x2_fast, tc_bad, has_tc, f16x2_fast);
    }
    let fast = match f16x2_fast {
        Some(b) => b,
        None => false,
    };
    PretrainAdvice {
        math_mode: if fma_broken {
            "CUBLAS_PEDANTIC_MATH"
        } else {
            "CUBLAS_DEFAULT_MATH"
        },
        compute: if !has_tc || tc_bad {
            "CUBLAS_COMPUTE_32F"
        } else {
            "CUBLAS_COMPUTE_16F or 32F"
        },
        force_pedantic: fma_broken,
        force_compute_32f: !has_tc || tc_bad,
        f16x2_tip: fast && fma_broken,
    }
}

/// The llama.cpp launch lines of the GGUF advice.
pub open spec fn launch_lines_spec(fma_broken: bool, int8_fast: bool) -> Seq<&'static str> {
    let server = if fma_broken {
        "     GGML_CUDA_NO_FMA=1 ./llama-server -m model.Q4_K_M.gguf -ngl 99"
    } else {
        "     ./llama-server -m model.Q4_K_M.gguf -ngl 99 --flash-attn"
    };
    if !int8_fast {
        seq![server, "     (skip --flash-attn KV quant if INT8 TC are broken)"]
    } else {
        seq![
            server,
            "     # KV cache quantization (saves VRAM for longer context):",
            "     ./llama-server -m model.gguf -ngl 99 -fa -ctk q8_0 -ctv q8_0",
        ]
    }
}

/// The llama.cpp launch lines: without FMA where it is broken, and with KV-cache
/// quantization only where INT8 dp4a is fast.
pub fn launch_lines(fma_broken: bool, int8_fast: bool) -> (v: Vec<&'static str>)
    ensures
        v@ == launch_lines_spec(fma_broken, int8_fast),
{
    let mut v: Vec<&'static str> = Vec::new();
    if fma_broken {
        v.push("     GGML_CUDA_NO_FMA=1 ./llama-server -m model.Q4_K_M.gguf -ngl 99");
    } else {
        v.push("     ./llama-server -m model.Q4_K_M.gguf -ngl 99 --flash-attn");
    }
    if !int8_fast {
        v.push("     (skip --flash-attn KV quant if INT8 TC are broken)");
    } else {
        v.push("     # KV cache quantization (saves VRAM for longer context):");
        v.push("     ./llama-server -m model.gguf -ngl 99 -fa -ctk q8_0 -ctv q8_0");
    }
    assert(v@ =~= launch_lines_spec(fma_broken, int8_fast));
    v
}

/// The quick detector's verdict on the Tensor Cores.
#[derive(Debug, Clone, Copy, PartialEq, Eq, Structural)]
pub enum TcVerdict {
    /// SM 7.5 class card whose FP16 default run checked out.
    Correct,
    /// Pascal: no Tensor Cores, as expected.
    PascalNoTc,
    /// Broken or disabled: cuBLAS 16F gives wrong results.
    Broken,
}

/// The quick CMP detector's verdict.
#[derive(Debug, Clone, Copy, PartialEq, Eq, Structural)]
pub struct CmpVerdict {
    pub fma_broken: bool,
    pub tc: TcVerdict,
    /// Turing card with INT8 dp4a below 5 TOP/s.
    pub int8_slow: bool,
    /// Bit 1: FMA broken; bit 2: Tensor Cores broken; bit 4: INT8 slow.
    pub flags: u32,
}

pub open spec fn tc_verdict_spec(tc_bad: bool, sm_major: u32, sm_minor: u32) -> TcVerdict {
    if !tc_bad && (sm_major >= 7 && sm_minor >= 5) {
        TcVerdict::Correct
    } else if sm_major < 7 {
        TcVerdict::PascalNoTc
    } else {
        TcVerdict::Broken
    }
}

pub open spec fn flag_value(fma_broken: bool, tc: TcVerdict, int8_slow: bool) -> u32 {
    ((if fma_broken { 1u32 } else { 0u32 }) + (if tc == TcVerdict::Broken { 2u32 } else { 0u32 })
        + (if int8_slow { 4u32 } else { 0u32 })) as u32
}

/// The quick detector's verdict from what it measured: `fma_broken` (FMA below
/// half the mul+add rate), `tc_bad` (the probe's FP16 default run failed) and
/// `int8_below_5` (dp4a s8*s8 below 5 TOP/s).
pub fn cmp_verdict(fma_broken: bool, tc_bad: bool, sm_major: u32, sm_minor: u32, int8_below_5: bool) -> (r:
    CmpVerdict)
    ensures
        r.fma_broken == fma_broken,
        r.tc == tc_verdict_spec(tc_bad, sm_major, sm_minor),
        r.int8_slow == (sm_major == 7 && int8_below_5),
        r.flags == flag_value(r.fma_broken, r.tc, r.int8_slow),
{
    let tc = if !tc_bad && (sm_major >= 7 && sm_minor >= 5) {
        TcVerdict::Correct
    } else if sm_major < 7 {
        TcVerdict::PascalNoTc
    } else {
        TcVerdict::Broken
    };
    let int8_slow = sm_major == 7 && int8_below_5;
    let mut flags: u32 = 0;
    if fma_broken {
        flags = flags + 1;
    }
    if tc == TcVerdict::Broken {
        flags = flags + 2;
    }
    if int8_slow {
        flags = flags + 4;
    }
    CmpVerdict { fma_broken, tc, int8_slow, flags }
}

/// The detector's flags say exactly what it found: each bit is set iff its
/// problem was found, and the card is reported healthy (no flag) iff none was.
pub proof fn lemma_flags_exact(fma_broken: bool, tc: TcVerdict, int8_slow: bool)
    ensures
        (flag_value(fma_broken, tc, int8_slow) & 1 != 0) == fma_broken,
        (flag_value(fma_broken, tc, int8_slow) & 2 != 0) == (tc == TcVerdict::Broken),
        (flag_value(fma_broken, tc, int8_slow) & 4 != 0) == int8_slow,
        (flag_value(fma_broken, tc, int8_slow) == 0) == (!fma_broken && tc != TcVerdict::Broken
            && !int8_slow),
{
    let f: u32 = flag_value(fma_broken, tc, int8_slow);
    let a: u32 = if fma_broken { 1 } else { 0 };
    let b: u32 = if tc == TcVerdict::Broken { 2 } else { 0 };
    let c: u32 = if int8_slow { 4 } else { 0 };
    assert(f == a + b + c);
    assert((a == 0 || a == 1) && (b == 0 || b == 2) && (c == 0 || c == 4) ==> {
        &&& ((a + b + c) as u32 & 1 != 0) == (a == 1)
        &&& ((a + b + c) as u32 & 2 != 0) == (b == 2)
        &&& ((a + b + c) as u32 & 4 != 0) == (c == 4)
    }) by (bit_vector);
}

/// A Pascal card (major version below 7) never has its Tensor Cores flagged:
/// the detector reports that it has none.
pub proof fn lemma_pascal_never_tc_flagged(tc_bad: bool, sm_major: u32, sm_minor: u32)
    requires
        sm_major < 7,
    ensures
        tc_verdict_spec(tc_bad, sm_major, sm_minor) == TcVerdict::PascalNoTc,
{
}

/// Tensor Core presence follows the card table: a TU117 card has none; a known
/// card has them exactly when its table entry says so, whatever its FMA and
/// FP16 flags; an unknown card has them from SM 7.5. On a card that has them, a
/// failed FP16 default run is reported as wrong results, not as missing cores.
pub proof fn lemma_tensor_cores_follow_table(
    known: Option<GpuSpec>,
    sm_major: u32,
    sm_minor: u32,
    is_tu117: bool,
    tc_bad: bool,
)
    ensures
        is_tu117 ==> !tensor_cores_present(known, sm_major, sm_minor, is_tu117),
        known matches Some(g) ==> (!is_tu117 ==> tensor_cores_present(
            known,
            sm_major,
            sm_minor,
            is_tu117,
        ) == g.has_tensor_cores),
        known is None && !is_tu117 ==> tensor_cores_present(known, sm_major, sm_minor, is_tu117)
            == (sm_major >= 7 && sm_minor >= 5),
        known matches Some(g) ==> (!is_tu117 && g.has_tensor_cores && tc_bad ==> tc_diagnosis_spec(
            tensor_cores_present(known, sm_major, sm_minor, is_tu117),
            tc_bad,
        ) == TcDiagnosis::WrongResults),
        known matches Some(g) ==> (!is_tu117 && g.has_tensor_cores && !tc_bad ==> tc_diagnosis_spec(
            tensor_cores_present(known, sm_major, sm_minor, is_tu117),
            tc_bad,
        ) == TcDiagnosis::Correct),
        !tensor_cores_present(known, sm_major, sm_minor, is_tu117) ==> tc_diagnosis_spec(
            tensor_cores_present(known, sm_major, sm_minor, is_tu117),
            tc_bad,
        ) == TcDiagnosis::NoTensorCores,
{
}

/// The pretraining advice: pedantic math (and its warning line) exactly when
/// FMA is broken, whatever the Tensor Cores and f16x2 did; FP32 compute exactly
/// when there are no Tensor Cores or they gave wrong results; the f16x2 tip
/// exactly when FMA is broken and f16x2 was measured fast.
pub proof fn lemma_pretrain_advice(
    fma_broken: bool,
    tc_bad: bool,
    has_tc: bool,
    f16x2_fast: Option<bool>,
    other_tc_bad: bool,
    other_has_tc: bool,
    other_f16x2_fast: Option<bool>,
)
    ensures
        pretrain_advice_spec(fma_broken, tc_bad, has_tc, f16x2_fast).force_pedantic == fma_broken,
        (pretrain_advice_spec(fma_broken, tc_bad, has_tc, f16x2_fast).math_mode@
            == "CUBLAS_PEDANTIC_MATH"@) == fma_broken,
        !fma_broken ==> pretrain_advice_spec(fma_broken, tc_bad, has_tc, f16x2_fast).math_mode@
            == "CUBLAS_DEFAULT_MATH"@,
        pretrain_advice_spec(fma_broken, tc_bad, has_tc, f16x2_fast).math_mode
            == pretrain_advice_spec(fma_broken, other_tc_bad, other_has_tc, other_f16x2_fast).math_mode,
        pretrain_advice_spec(fma_broken, tc_bad, has_tc, f16x2_fast).force_compute_32f == (!has_tc
            || tc_bad),
        (pretrain_advice_spec(fma_broken, tc_bad, has_tc, f16x2_fast).compute@
            == "CUBLAS_COMPUTE_32F"@) == (!has_tc || tc_bad),
        pretrain_advice_spec(fma_broken, tc_bad, has_tc, f16x2_fast).f16x2_tip == (fma_broken
            && f16x2_fast == Some(true)),
{
    reveal_strlit("CUBLAS_PEDANTIC_MATH");
    reveal_strlit("CUBLAS_DEFAULT_MATH");
    reveal_strlit("CUBLAS_COMPUTE_32F");
    reveal_strlit("CUBLAS_COMPUTE_16F or 32F");
    assert("CUBLAS_DEFAULT_MATH"@[7] != "CUBLAS_PEDANTIC_MATH"@[7]);
    assert("CUBLAS_COMPUTE_32F"@.len() != "CUBLAS_COMPUTE_16F or 32F"@.len());
}

/// How the full report judges the Tensor Cores. It says there are none exactly
/// when the card has none; on a card that has them, it says they give wrong
/// results exactly when the FP16 default run failed, and correct otherwise.
pub proof fn lemma_tc_diagnosis_cases(has_tc: bool, tc_bad: bool)
    ensures
        (tc_diagnosis_spec(has_tc, tc_bad) == TcDiagnosis::NoTensorCores) == !has_tc,
        (tc_diagnosis_spec(has_tc, tc_bad) == TcDiagnosis::WrongResults) == (has_tc && tc_bad),
        (tc_diagnosis_spec(has_tc, tc_bad) == TcDiagnosis::Correct) == (has_tc && !tc_bad),
{
}

/// How the quick detector judges the Tensor Cores. Correct only on a card of
/// major version 7 or more and minor 5 or more whose FP16 default run passed;
/// Pascal with none expected exactly below major version 7; broken on every
/// other card of major version 7 or more, in particular whenever the FP16
/// default run failed there.
pub proof fn lemma_tc_verdict_cases(tc_bad: bool, sm_major: u32, sm_minor: u32)
    ensures
        (tc_verdict_spec(tc_bad, sm_major, sm_minor) == TcVerdict::Correct) == (!tc_bad
            && sm_major >= 7 && sm_minor >= 5),
        (tc_verdict_spec(tc_bad, sm_major, sm_minor) == TcVerdict::PascalNoTc) == (sm_major < 7),
        sm_major >= 7 && tc_bad ==> tc_verdict_spec(tc_bad, sm_major, sm_minor)
            == TcVerdict::Broken,
{
}

} // verus!
