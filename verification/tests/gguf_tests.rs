use nbenchmark::gguf::{avoid_lines, gguf_format_table, gguf_rate_table, FormatPath, RowNote};
use nbenchmark::gpu_db::{gpu_db, GpuPath};

fn path_of(f: &str) -> FormatPath {
    gguf_format_table().iter().find(|r| r.format == f).unwrap().path
}

#[test]
fn format_table_size_and_order() {
    let t = gguf_format_table();
    assert_eq!(t.len(), 35);
    assert_eq!(t[0].format, "F32");
    assert_eq!(t[0].bpw_milli, 32000);
    assert_eq!(t[34].format, "turbo2");
    assert_eq!(t[14].bpw_milli, 3740);
    assert_eq!(t[31].bpw_milli, 1690);
}

#[test]
fn readme_dp4a_formats() {
    for f in ["Q8_0", "Q4_0", "Q4_K_M", "IQ4_XS", "IQ4_NL"] {
        assert_eq!(path_of(f), FormatPath::Gpu(GpuPath::Dp4a), "{}", f);
    }
}

#[test]
fn readme_cublas_formats() {
    for f in ["Q5_K_M", "Q6_K", "Q3_K_M", "IQ2_M", "IQ3_M", "Q2_K"] {
        assert_eq!(path_of(f), FormatPath::Gpu(GpuPath::CublasF32), "{}", f);
    }
}

#[test]
fn readme_gemv_and_unavailable_formats() {
    for f in ["TQ1_0", "TQ2_0", "IQ1_S", "IQ1_M"] {
        assert_eq!(path_of(f), FormatPath::Gpu(GpuPath::Fp32Gemv), "{}", f);
    }
    assert_eq!(path_of("BF16"), FormatPath::Unavailable);
    assert_eq!(FormatPath::Unavailable.label(), "❌ N/A");
}

#[test]
fn q4_k_m_and_q5_k_m_take_different_paths() {
    assert_eq!(path_of("Q4_K_M"), FormatPath::Gpu(GpuPath::Dp4a));
    assert_eq!(path_of("Q5_K_M"), FormatPath::Gpu(GpuPath::CublasF32));
}

#[test]
fn special_path_labels() {
    assert_eq!(path_of("F16").label(), "cuBLAS F32*");
    assert_eq!(path_of("turbo4").label(), "dp4a (TQ4_1S)");
    assert_eq!(path_of("turbo3").label(), "FP32  dequant");
    assert_eq!(path_of("Q8_0").label(), "dp4a  MMQ");
}

#[test]
fn recommendations_agree_with_format_table() {
    let table = gguf_format_table();
    let big = gpu_db()[0];
    for r in big.gguf_recommendations() {
        let row = table.iter().find(|t| t.format == r.format).unwrap();
        assert_eq!(row.path, FormatPath::Gpu(r.path));
        assert_eq!(row.bpw_milli, r.bpw_milli);
        assert_eq!(row.size_7b_milli, r.size_7b_milli);
    }
}

#[test]
fn rate_rows_agree_with_format_table() {
    let table = gguf_format_table();
    let rows = gguf_rate_table();
    assert_eq!(rows.len(), 10);
    for r in rows {
        let row = table.iter().find(|t| t.format == r.format).unwrap();
        assert_eq!(row.path, FormatPath::Gpu(r.path));
        assert_eq!(row.bpw_milli, r.bpw_milli);
        assert_eq!(row.size_7b_milli, r.size_7b_milli);
    }
}

#[test]
fn rate_row_notes() {
    let rows = gguf_rate_table();
    assert_eq!(rows[0].note.resolve(true), "✅ fits");
    assert_eq!(rows[0].note.resolve(false), "⚠️ tight");
    assert!(matches!(rows[0].note, RowNote::ByVram { min_vram_milli: 10000, .. }));
    assert!(matches!(rows[1].note, RowNote::ByVram { min_vram_milli: 7500, .. }));
    assert_eq!(rows[1].note.resolve(true), "✅");
    assert_eq!(rows[4].note.resolve(false), "✅ Main recommendation");
    assert_eq!(rows[9].note.resolve(true), "❌ severe quality loss");
}

#[test]
fn avoid_list_names_the_readme_formats() {
    let lines = avoid_lines();
    for f in ["BF16", "Q4_1", "Q5_1", "IQ1_S", "TQ1_0", "TF32", "FP8", "Q2_K"] {
        assert!(lines.iter().any(|l| l.contains(f)), "{}", f);
    }
    assert_eq!(lines.len(), 7);
    assert_eq!(lines[0], "     BF16     — not supported (requires SM≥8.0 / Ampere)");
}
