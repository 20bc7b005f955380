use nbenchmark::cublas::{
    detect_fp16_tc_bad, gemm_buffer_bytes, gemm_flop_count, gemm_probe_list, GemmCall, GemmCheck,
};
use nbenchmark::cuda::{
    CUBLAS_COMPUTE_16F, CUBLAS_GEMM_ALGO1_TENSOR_OP, CUBLAS_GEMM_DEFAULT, CUBLAS_PEDANTIC_MATH,
    CUDA_R_16F, CUDA_R_32F, CUBLAS_COMPUTE_32F,
};

fn check(label: &str, ok: bool) -> GemmCheck {
    GemmCheck { label: label.to_string(), ok }
}

#[test]
fn probe_list() {
    let p = gemm_probe_list();
    assert_eq!(p.len(), 13);
    assert_eq!(p[0].label, "FP16 | 16F DEFAULT");
    assert_eq!(
        p[0].call,
        GemmCall::GemmEx { input_type: CUDA_R_16F, compute_type: CUBLAS_COMPUTE_16F, algo: CUBLAS_GEMM_DEFAULT }
    );
    assert_eq!(p[10].call, GemmCall::Sgemm);
    assert_eq!(
        p[12].call,
        GemmCall::GemmEx { input_type: CUDA_R_32F, compute_type: CUBLAS_COMPUTE_32F, algo: CUBLAS_GEMM_ALGO1_TENSOR_OP }
    );
}

#[test]
fn references_are_the_pedantic_runs() {
    let p = gemm_probe_list();
    for g in &p {
        assert_eq!(g.is_ref, g.math_mode == CUBLAS_PEDANTIC_MATH, "{}", g.label);
    }
    assert_eq!(p.iter().filter(|g| g.is_ref).count(), 3);
}

#[test]
fn tc_bad_detection() {
    assert!(!detect_fp16_tc_bad(&vec![]));
    assert!(detect_fp16_tc_bad(&vec![check("FP16 | 16F DEFAULT", false)]));
    assert!(!detect_fp16_tc_bad(&vec![check("FP16 | 16F DEFAULT", true)]));
    assert!(!detect_fp16_tc_bad(&vec![check("FP16 | 32F DEFAULT (uses FMA)", false)]));
    assert!(detect_fp16_tc_bad(&vec![
        check("FP16 | 16F DEFAULT", true),
        check("FP16 | 16F TENSOR_OP", false),
        check("X 16F DEFAULT Y", false),
    ]));
}

#[test]
fn buffer_sizes_and_flops() {
    assert_eq!(gemm_buffer_bytes(2048), (2048 * 2048 * 2, 2048 * 2048 * 4));
    assert_eq!(gemm_buffer_bytes(0), (0, 0));
    assert_eq!(gemm_flop_count(2048), 2 * 2048i128 * 2048 * 2048);
    assert_eq!(gemm_flop_count(0), 0);
    assert_eq!(gemm_flop_count(-3), -54);
    assert_eq!(gemm_flop_count(i32::MAX), 2 * (i32::MAX as i128).pow(3));
    assert_eq!(gemm_flop_count(i32::MIN), 2 * (i32::MIN as i128).pow(3));
}
