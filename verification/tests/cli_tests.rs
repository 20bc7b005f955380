use nbenchmark::cli::Command;
use nbenchmark::ptx::PtxKind;

#[test]
fn table_commands_need_no_device() {
    assert!(!Command::GgufTable.needs_device());
    assert!(!Command::GpuTable.needs_device());
    assert!(Command::FullReport.needs_device());
    assert!(Command::Fp32.needs_device());
}

#[test]
fn single_benchmark_commands() {
    assert_eq!(Command::Fp32.single_benches(), vec![PtxKind::Fp32MulAdd]);
    assert_eq!(
        Command::Int8.single_benches(),
        vec![PtxKind::Int8S8S8, PtxKind::Int8U8U8, PtxKind::Int8S8U8]
    );
    assert_eq!(Command::Bitwise.single_benches(), vec![PtxKind::BitwiseXnor]);
    assert!(Command::AllPtx.single_benches().is_empty());
    assert!(Command::CmpDetect.single_benches().is_empty());
}
