use nbenchmark::ptx::{
    checksum_ok, grid_dim, op_count, ptx_suite_order, wmma_checksum, wmma_listed, wmma_op_count,
    wmma_supported, PerfUnit, PtxKind, PtxModule, WmmaKind, PTX_THREADS,
};

#[test]
fn grid_rounds_up() {
    assert_eq!(grid_dim(67108864, PTX_THREADS), 262144);
    assert_eq!(grid_dim(257, 256), 2);
    assert_eq!(grid_dim(256, 256), 1);
    assert_eq!(grid_dim(1, 256), 1);
    assert_eq!(grid_dim(0, 256), 0);
}

#[test]
fn op_counts_are_exact() {
    assert_eq!(op_count(67108864, 16384, 2), 2199023255552);
    assert_eq!(op_count(u32::MAX, u32::MAX, 32), (u32::MAX as u128) * (u32::MAX as u128) * 32);
    assert_eq!(op_count(10, 3, 8), 240);
    assert_eq!(wmma_op_count(10000), 81920000);
}

#[test]
fn bench_catalogue() {
    let b = PtxKind::Fp16MulAdd.bench();
    assert_eq!(b.module, PtxModule::Fp16);
    assert_eq!(b.kernel, "fp16_muladd");
    assert_eq!(b.ops_per_item, 4);
    assert_eq!(b.name, "FP16 | f16x2 MUL+ADD (best on CMP 50HX!)");
    assert_eq!(b.unit.label(), "TFLOP/s");
    let b = PtxKind::BitwiseXnor.bench();
    assert_eq!((b.kernel, b.extra_bufs, b.ops_per_item), ("bitwise_xnor_popc", 2, 32));
    assert_eq!(b.unit, PerfUnit::TopPerSec);
    let b = PtxKind::Int32Mad.bench();
    assert_eq!((b.module, b.extra_bufs, b.ops_per_item), (PtxModule::Int8, 0, 2));
    assert_eq!(PtxKind::Fp64MulAdd.bench().module, PtxModule::Fp32);
    assert_eq!(PtxKind::Int4ViaDp4a.bench().ops_per_item, 16);
}

#[test]
fn checksum_rules() {
    assert!(!checksum_ok(PtxKind::Fp32MulAdd, 0));
    assert!(checksum_ok(PtxKind::Fp32MulAdd, 7));
    assert!(checksum_ok(PtxKind::Int8S8S8, 0));
    assert!(!checksum_ok(PtxKind::Int32Mad, 0));
    assert_eq!(wmma_checksum(true, 0x4180_0000), 0x4180_0000);
    assert_eq!(wmma_checksum(false, 0x4180_0000), 0);
}

#[test]
fn suite_order() {
    let s = ptx_suite_order();
    assert_eq!(s.len(), 11);
    assert_eq!(s[0], PtxKind::Fp64MulAdd);
    assert_eq!(s[10], PtxKind::BitwiseXnor);
}

#[test]
fn wmma_gates() {
    assert!(!wmma_supported(6, 1));
    assert!(!wmma_supported(7, 0));
    assert!(wmma_supported(7, 5));
    assert!(wmma_supported(8, 0));
    assert!(wmma_listed(7, 5));
    assert!(!wmma_listed(6, 1));
    // The two tests part above SM 7.x.
    assert!(!wmma_listed(8, 0));
    for major in 0..=7 {
        for minor in 0..=9 {
            assert_eq!(wmma_supported(major, minor), wmma_listed(major, minor));
        }
    }
}

#[test]
fn wmma_catalogue() {
    let b = WmmaKind::WmmaInt8S32.bench();
    assert_eq!(b.kernel, "wmma_int8_s32");
    assert_eq!(b.unsupported_name, "WMMA | INT8->INT32 (Turing IMMA)");
    assert_eq!(b.unit, PerfUnit::TopPerSec);
    assert_eq!(WmmaKind::WmmaFp16F32.bench().unsupported_name, "WMMA | FP16->FP32 (TC)");
}
