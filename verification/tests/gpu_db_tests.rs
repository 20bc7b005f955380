use nbenchmark::gpu_db::{gpu_db, lookup_gpu_by_name, lookup_gpu_by_sm, GpuPath, GpuSpec};

fn names(v: &[nbenchmark::gpu_db::GgufRec]) -> Vec<&'static str> {
    v.iter().map(|r| r.format).collect()
}

fn find(name: &str) -> GpuSpec {
    *gpu_db().iter().find(|g| g.name == name).unwrap()
}

#[test]
fn path_labels() {
    assert_eq!(GpuPath::Dp4a.label(), "dp4a  MMQ");
    assert_eq!(GpuPath::CublasF32.label(), "cuBLAS F32");
    assert_eq!(GpuPath::Fp32Gemv.label(), "FP32  GEMV");
}

#[test]
fn table_has_all_target_cards_in_order() {
    let db = gpu_db();
    let got: Vec<&str> = db.iter().map(|g| g.name).collect();
    assert_eq!(
        got,
        vec![
            "Tesla P100", "P102-100", "P104-100", "P106-100", "GTX 1080 Ti", "GTX 1080",
            "GTX 1060", "CMP 50HX", "RTX 2060", "RTX 2060 SUPER", "RTX 2060 12GB",
            "Quadro T400", "Quadro T600", "RTX 2070", "RTX 2080 Ti",
        ]
    );
}

#[test]
fn table_values_are_exact_thousandths() {
    let p102 = find("P102-100");
    assert_eq!(p102.vram_gb_milli, 10000);
    assert_eq!(p102.mem_bw_gbs_milli, 320000);
    assert_eq!(p102.int8_tops_milli, 44000);
    let t400 = find("Quadro T400");
    assert_eq!(t400.fp32_tflops_milli, 1094);
    assert_eq!(t400.fp16_tflops_milli, 2190);
    assert_eq!(t400.mem_bus_bits, 64);
    assert!(!t400.has_tensor_cores);
    let ti = find("RTX 2080 Ti");
    assert_eq!(ti.int8_tops_milli, 215800);
    assert_eq!(ti.cuda_cores, 4352);
}

#[test]
fn readme_turing_table_matches() {
    let super_ = find("RTX 2060 SUPER");
    assert_eq!((super_.vram_gb_milli, super_.mem_bus_bits, super_.mem_bw_gbs_milli), (8000, 256, 448000));
    let twelve = find("RTX 2060 12GB");
    assert_eq!((twelve.vram_gb_milli, twelve.mem_bus_bits, twelve.mem_bw_gbs_milli), (12000, 192, 360000));
    // 12GB has the same bus as the 6GB card
    assert_eq!(find("RTX 2060").mem_bus_bits, twelve.mem_bus_bits);
    // SUPER has more bandwidth than 12GB
    assert!(super_.mem_bw_gbs_milli > twelve.mem_bw_gbs_milli);
}

#[test]
fn lookup_by_sm_prefers_exact_core_count() {
    let g = lookup_gpu_by_sm(6, 1, 2560).unwrap();
    assert_eq!(g.name, "P104-100");
    let g = lookup_gpu_by_sm(7, 5, 384).unwrap();
    assert_eq!(g.name, "Quadro T400");
    let g = lookup_gpu_by_sm(7, 5, 2176).unwrap();
    assert_eq!(g.name, "RTX 2060 SUPER");
}

#[test]
fn lookup_by_sm_falls_back_to_first_with_sm() {
    let g = lookup_gpu_by_sm(7, 5, 1).unwrap();
    assert_eq!(g.name, "CMP 50HX");
    let g = lookup_gpu_by_sm(6, 1, 999).unwrap();
    assert_eq!(g.name, "P102-100");
    let g = lookup_gpu_by_sm(6, 0, 0).unwrap();
    assert_eq!(g.name, "Tesla P100");
}

#[test]
fn lookup_by_sm_unknown_capability() {
    assert!(lookup_gpu_by_sm(8, 6, 10752).is_none());
    assert!(lookup_gpu_by_sm(5, 2, 2048).is_none());
}

#[test]
fn lookup_by_name_ignores_case() {
    let g = lookup_gpu_by_name("NVIDIA GeForce gtx 1080 ti").unwrap();
    assert_eq!(g.name, "GTX 1080 Ti");
    let g = lookup_gpu_by_name("nvidia cmp 50hx").unwrap();
    assert_eq!(g.name, "CMP 50HX");
}

#[test]
fn lookup_by_name_returns_first_contained_entry() {
    // "RTX 2060" occurs in "RTX 2060 SUPER" and comes first in the table.
    let g = lookup_gpu_by_name("NVIDIA GeForce RTX 2060 SUPER").unwrap();
    assert_eq!(g.name, "RTX 2060");
    // "GTX 1080" comes after "GTX 1080 Ti", so a plain 1080 finds "GTX 1080".
    let g = lookup_gpu_by_name("GeForce GTX 1080").unwrap();
    assert_eq!(g.name, "GTX 1080");
}

#[test]
fn lookup_by_name_unknown() {
    assert!(lookup_gpu_by_name("NVIDIA GeForce RTX 3090").is_none());
    assert!(lookup_gpu_by_name("").is_none());
}

#[test]
fn every_known_name_is_found() {
    for g in gpu_db() {
        assert!(lookup_gpu_by_name(g.name).is_some(), "{}", g.name);
    }
}

#[test]
fn detect_cmp_by_flags() {
    assert!(find("CMP 50HX").detect_cmp());
    // Pascal cards have FP16 Tensor Core results marked broken (no TC).
    assert!(find("P102-100").detect_cmp());
    assert!(find("Quadro T400").detect_cmp());
    assert!(!find("RTX 2060").detect_cmp());
    assert!(!find("Tesla P100").detect_cmp());
    let mut g = find("RTX 2070");
    g.fma_broken = None;
    g.fp16_tc_broken = None;
    assert!(!g.detect_cmp());
    g.fma_broken = Some(true);
    assert!(g.detect_cmp());
}

#[test]
fn gguf_recommendations_filter_by_vram() {
    assert_eq!(
        names(&find("P106-100").gguf_recommendations()),
        vec!["IQ4_XS", "Q4_K_M", "IQ4_NL", "Q4_K_S", "IQ3_M", "Q3_K_M", "IQ2_M"]
    );
    assert_eq!(names(&find("Quadro T400").gguf_recommendations()), vec!["IQ2_M"]);
    assert_eq!(names(&find("P102-100").gguf_recommendations()).len(), 10);
    assert_eq!(
        names(&find("P104-100").gguf_recommendations()),
        vec!["Q6_K", "Q5_K_M", "IQ4_XS", "Q4_K_M", "IQ4_NL", "Q4_K_S", "IQ3_M", "Q3_K_M", "IQ2_M"]
    );
}

#[test]
fn gguf_recommendations_boundary_is_exact() {
    let mut g = find("RTX 2060");
    // Q4_K_M is 4.5 GB: it needs exactly 5.4 GB.
    g.vram_gb_milli = 5400;
    assert!(names(&g.gguf_recommendations()).contains(&"Q4_K_M"));
    g.vram_gb_milli = 5399;
    assert!(!names(&g.gguf_recommendations()).contains(&"Q4_K_M"));
    g.vram_gb_milli = 0;
    assert!(g.gguf_recommendations().is_empty());
}

#[test]
fn gguf_recommendations_monotone_in_vram() {
    let mut g = find("RTX 2060");
    let mut prev: Vec<&str> = Vec::new();
    for vram in (0..=12000).step_by(100) {
        g.vram_gb_milli = vram;
        let now = names(&g.gguf_recommendations());
        for f in &prev {
            assert!(now.contains(f));
        }
        prev = now;
    }
}

#[test]
fn gguf_recommendation_fields() {
    let recs = find("Tesla P100").gguf_recommendations();
    let q4 = recs.iter().find(|r| r.format == "Q4_K_M").unwrap();
    assert_eq!(q4.bpw_milli, 4800);
    assert_eq!(q4.size_7b_milli, 4500);
    assert_eq!(q4.path, GpuPath::Dp4a);
    assert_eq!(q4.notes, "Main recommendation: dp4a speed + quality");
}

#[test]
fn every_known_card_is_found_by_sm() {
    for g in gpu_db() {
        let r = lookup_gpu_by_sm(g.sm_major, g.sm_minor, g.cuda_cores).unwrap();
        assert_eq!((r.sm_major, r.sm_minor, r.cuda_cores), (g.sm_major, g.sm_minor, g.cuda_cores));
    }
}

#[test]
fn recommendations_fit_and_nothing_fitting_is_left_out() {
    let all = names(&find("Tesla P100").gguf_recommendations());
    for vram in [0u32, 3000, 4000, 5400, 6000, 8000, 10000, 12000] {
        let mut g = find("RTX 2060");
        g.vram_gb_milli = vram;
        let recs = g.gguf_recommendations();
        for r in &recs {
            assert!(r.size_7b_milli * 6 <= vram * 5);
        }
        let got = names(&recs);
        for cand in find("Tesla P100").gguf_recommendations() {
            assert_eq!(got.contains(&cand.format), cand.size_7b_milli * 6 <= vram * 5);
        }
        assert!(got.iter().all(|f| all.contains(f)));
    }
}
