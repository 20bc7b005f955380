use nbenchmark::report::{
    cmp_verdict, find_known_gpu, fma_note, has_tensor_cores, int8_note, int8_suspicious,
    is_quadro_t400, is_tu117_card, launch_lines, pretrain_advice, tc_diagnosis, TcDiagnosis, TcVerdict,
};

#[test]
fn known_gpu_by_first_word() {
    // "rtx" is the first word of "RTX 2060": the first SM 7.5 entry whose first
    // word occurs in the measured name.
    assert_eq!(find_known_gpu("NVIDIA GeForce RTX 2070", 7, 5).unwrap().name, "RTX 2060");
    assert_eq!(find_known_gpu("NVIDIA CMP 50HX", 7, 5).unwrap().name, "CMP 50HX");
    assert_eq!(find_known_gpu("Quadro T400 4GB", 7, 5).unwrap().name, "Quadro T400");
    assert_eq!(find_known_gpu("P102-100", 6, 1).unwrap().name, "P102-100");
    assert!(find_known_gpu("P102-100", 7, 5).is_none());
    assert!(find_known_gpu("Tesla V100", 7, 0).is_none());
}

#[test]
fn tensor_core_presence() {
    let t400 = find_known_gpu("Quadro T400", 7, 5);
    assert!(!has_tensor_cores(t400, 7, 5, false));
    assert!(has_tensor_cores(None, 7, 5, false));
    assert!(!has_tensor_cores(None, 6, 1, false));
    assert!(!has_tensor_cores(None, 8, 0, false));
    assert!(!has_tensor_cores(None, 7, 5, true));
    let rtx = find_known_gpu("NVIDIA GeForce RTX 2060", 7, 5);
    assert!(has_tensor_cores(rtx, 7, 5, is_tu117_card("NVIDIA GeForce RTX 2060")));
}

#[test]
fn nvidia_t400_has_no_tensor_cores() {
    let name = "NVIDIA T400";
    let known = find_known_gpu(name, 7, 5);
    assert!(known.is_none());
    assert!(is_quadro_t400(name));
    assert!(is_tu117_card(name));
    let has_tc = has_tensor_cores(known, 7, 5, is_tu117_card(name));
    assert!(!has_tc);
    assert_eq!(tc_diagnosis(has_tc, false), TcDiagnosis::NoTensorCores);
    assert_eq!(tc_diagnosis(has_tc, true), TcDiagnosis::NoTensorCores);
}

#[test]
fn tu117_names() {
    assert!(is_tu117_card("NVIDIA T600"));
    assert!(is_tu117_card("Quadro T 600"));
    assert!(is_tu117_card("NVIDIA T400 4GB"));
    assert!(!is_tu117_card("NVIDIA GeForce RTX 2060"));
    assert!(!is_tu117_card("NVIDIA GeForce GTX 1060 6GB"));
    assert!(!is_tu117_card("NVIDIA CMP 50HX"));
}

#[test]
fn tc_diagnosis_cases() {
    assert_eq!(tc_diagnosis(false, true), TcDiagnosis::NoTensorCores);
    assert_eq!(tc_diagnosis(false, false), TcDiagnosis::NoTensorCores);
    assert_eq!(tc_diagnosis(true, true), TcDiagnosis::WrongResults);
    assert_eq!(tc_diagnosis(true, false), TcDiagnosis::Correct);
}

#[test]
fn t400_note() {
    assert!(is_quadro_t400("NVIDIA T400 4GB"));
    assert!(is_quadro_t400("Quadro T 400"));
    assert!(!is_quadro_t400("Quadro T600"));
    // Upper-case names match once lower-cased.
    assert!(is_quadro_t400("NVIDIA QUADRO T400"));
    assert!(is_quadro_t400("T 400"));
}

#[test]
fn notes() {
    assert_eq!(fma_note(true), "← ⚠️  BROKEN ON THIS CARD! (CMP mining)");
    assert_eq!(fma_note(false), "← uses fused multiply-add (correct)");
    assert_eq!(int8_note(true), "← ⚠️  SUSPICIOUSLY LOW for Turing!");
    assert_eq!(int8_note(false), "← Q8_0 GGUF inference path");
}

#[test]
fn int8_suspicion_only_on_turing() {
    assert!(int8_suspicious(7, Some(true)));
    assert!(!int8_suspicious(7, Some(false)));
    assert!(!int8_suspicious(7, None));
    assert!(!int8_suspicious(6, Some(true)));
}

#[test]
fn pretrain_advice_for_cmp() {
    let a = pretrain_advice(true, true, true, Some(true));
    assert_eq!(a.math_mode, "CUBLAS_PEDANTIC_MATH");
    assert_eq!(a.compute, "CUBLAS_COMPUTE_32F");
    assert!(a.force_pedantic && a.force_compute_32f && a.f16x2_tip);
}

#[test]
fn pretrain_advice_for_healthy_turing() {
    let a = pretrain_advice(false, false, true, Some(true));
    assert_eq!(a.math_mode, "CUBLAS_DEFAULT_MATH");
    assert_eq!(a.compute, "CUBLAS_COMPUTE_16F or 32F");
    assert!(!a.force_pedantic && !a.force_compute_32f && !a.f16x2_tip);
    let p = pretrain_advice(false, false, false, None);
    assert_eq!(p.compute, "CUBLAS_COMPUTE_32F");
    assert!(!pretrain_advice(true, false, true, None).f16x2_tip);
}

#[test]
fn launch_advice() {
    assert_eq!(
        launch_lines(true, false),
        vec![
            "     GGML_CUDA_NO_FMA=1 ./llama-server -m model.Q4_K_M.gguf -ngl 99",
            "     (skip --flash-attn KV quant if INT8 TC are broken)",
        ]
    );
    let l = launch_lines(false, true);
    assert_eq!(l.len(), 3);
    assert_eq!(l[0], "     ./llama-server -m model.Q4_K_M.gguf -ngl 99 --flash-attn");
}

#[test]
fn cmp_50hx_verdict() {
    let v = cmp_verdict(true, true, 7, 5, true);
    assert_eq!(v.tc, TcVerdict::Broken);
    assert!(v.int8_slow);
    assert_eq!(v.flags, 0b0111);
}

#[test]
fn healthy_verdicts() {
    let v = cmp_verdict(false, false, 7, 5, false);
    assert_eq!(v.tc, TcVerdict::Correct);
    assert_eq!(v.flags, 0);
    // Pascal: TC failures are expected and never flagged.
    let p = cmp_verdict(false, true, 6, 1, true);
    assert_eq!(p.tc, TcVerdict::PascalNoTc);
    assert!(!p.int8_slow);
    assert_eq!(p.flags, 0);
}

#[test]
fn verdict_flag_bits() {
    for fma in [false, true] {
        for tc_bad in [false, true] {
            for (maj, min) in [(6, 1), (7, 0), (7, 5), (8, 0)] {
                for slow in [false, true] {
                    let v = cmp_verdict(fma, tc_bad, maj, min, slow);
                    assert_eq!(v.flags & 1 != 0, v.fma_broken);
                    assert_eq!(v.flags & 2 != 0, v.tc == TcVerdict::Broken);
                    assert_eq!(v.flags & 4 != 0, v.int8_slow);
                    assert_eq!(v.flags == 0, !v.fma_broken && v.tc != TcVerdict::Broken && !v.int8_slow);
                }
            }
        }
    }
    // SM 7.0 without TC failures still gets the TC flag.
    assert_eq!(cmp_verdict(false, false, 7, 0, false).flags, 2);
}
