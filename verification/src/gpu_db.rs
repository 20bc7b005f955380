use vstd::prelude::*;
use crate::text::{has_substring, lemma_has_substring_refl, lowercase, lowercase_chars, contains_chars};

verus! {

/// The instruction path that a GGUF quantization format takes on the GPU.
#[derive(Debug, Clone, Copy, PartialEq, Eq, Structural)]
pub enum GpuPath {
    /// INT8 dp4a MMQ: fastest on Pascal/Turing.
    Dp4a,
    /// Dequantize, then cuBLAS COMPUTE_32F.
    CublasF32,
    /// Dequantize, then FP32 GEMV (slowest, memory-bound only).
    Fp32Gemv,
}

/// The printed label of a GPU path.
pub open spec fn path_label(p: GpuPath) -> Seq<char> {
    match p {
        GpuPath::Dp4a => "dp4a  MMQ"@,
        GpuPath::CublasF32 => "cuBLAS F32"@,
        GpuPath::Fp32Gemv => "FP32  GEMV"@,
    }
}

impl GpuPath {
    pub fn label(&self) -> (r: &'static str)
        ensures
            r@ == path_label(*self),
    {
        match self {
            GpuPath::Dp4a => "dp4a  MMQ",
            GpuPath::CublasF32 => "cuBLAS F32",
            GpuPath::Fp32Gemv => "FP32  GEMV",
        }
    }
}


/// Known specifications of one GPU model. Decimal quantities are held exactly,
/// in thousandths of their unit (`vram_gb_milli == 10000` is 10 GB).
#[derive(Debug, Clone, Copy)]
pub struct GpuSpec {
    pub name: &'static str,
    pub arch: &'static str,
    pub sm_major: u32,
    pub sm_minor: u32,
    pub cuda_cores: u32,
    /// Memory size, in thousandths of a GB.
    pub vram_gb_milli: u32,
    pub mem_bus_bits: u32,
    /// Theoretical memory bandwidth, in thousandths of a GB/s.
    pub mem_bw_gbs_milli: u32,
    /// Theoretical FP32 peak, in thousandths of a TFLOP/s.
    pub fp32_tflops_milli: u32,
    /// Theoretical FP16 peak (native f16x2 or Tensor Cores), in thousandths of a TFLOP/s.
    pub fp16_tflops_milli: u32,
    /// Theoretical INT8 peak, in thousandths of a TOP/s.
    pub int8_tops_milli: u32,
    pub has_tensor_cores: bool,
    pub has_rt_cores: bool,
    /// `None`: unknown; `Some(true)`: confirmed broken.
    pub fma_broken: Option<bool>,
    pub fp16_tc_broken: Option<bool>,
    pub notes: &'static str,
}

/// The table of known Pascal and Turing cards, in lookup order.
pub open spec fn known_gpus() -> Seq<GpuSpec> {
    seq![
        GpuSpec {
            name: "Tesla P100",
            arch: "Pascal GP100",
            sm_major: 6,
            sm_minor: 0,
            cuda_cores: 3584,
            vram_gb_milli: 16000,
            mem_bus_bits: 4096,
            mem_bw_gbs_milli: 732000,
            fp32_tflops_milli: 9300,
            fp16_tflops_milli: 18700,
            int8_tops_milli: 37400,
            has_tensor_cores: false,
            has_rt_cores: false,
            fma_broken: Some(false),
            fp16_tc_broken: Some(false),
            notes: "HBM2 732GB/s, FP64=4.7TF (full), FP16 f16x2 fast, no TC. Best Pascal for inference.",
        },
        GpuSpec {
            name: "P102-100",
            arch: "Pascal GP102",
            sm_major: 6,
            sm_minor: 1,
            cuda_cores: 3840,
            vram_gb_milli: 10000,
            mem_bus_bits: 320,
            mem_bw_gbs_milli: 320000,
            fp32_tflops_milli: 11000,
            fp16_tflops_milli: 22000,
            int8_tops_milli: 44000,
            has_tensor_cores: false,
            has_rt_cores: false,
            fma_broken: Some(false),
            fp16_tc_broken: Some(true),
            notes: "No TC. INT8 dp4a 41 TOPS is the fastest path. cuBLAS must use COMPUTE_32F.",
        },
        GpuSpec {
            name: "P104-100",
            arch: "Pascal GP104",
            sm_major: 6,
            sm_minor: 1,
            cuda_cores: 2560,
            vram_gb_milli: 8000,
            mem_bus_bits: 256,
            mem_bw_gbs_milli: 256000,
            fp32_tflops_milli: 7300,
            fp16_tflops_milli: 14600,
            int8_tops_milli: 29000,
            has_tensor_cores: false,
            has_rt_cores: false,
            fma_broken: Some(false),
            fp16_tc_broken: Some(true),
            notes: "No TC. Similar to P102 but 8GB/256-bit. dp4a ~15 TOPS measured.",
        },
        GpuSpec {
            name: "P106-100",
            arch: "Pascal GP106",
            sm_major: 6,
            sm_minor: 1,
            cuda_cores: 1280,
            vram_gb_milli: 6000,
            mem_bus_bits: 192,
            mem_bw_gbs_milli: 192000,
            fp32_tflops_milli: 4600,
            fp16_tflops_milli: 9200,
            int8_tops_milli: 18000,
            has_tensor_cores: false,
            has_rt_cores: false,
            fma_broken: Some(false),
            fp16_tc_broken: Some(true),
            notes: "6GB only. No TC. Smallest Pascal mining card. Q4_K_M best GGUF for 7B.",
        },
        GpuSpec {
            name: "GTX 1080 Ti",
            arch: "Pascal GP102",
            sm_major: 6,
            sm_minor: 1,
            cuda_cores: 3584,
            vram_gb_milli: 11000,
            mem_bus_bits: 352,
            mem_bw_gbs_milli: 484000,
            fp32_tflops_milli: 11300,
            fp16_tflops_milli: 22600,
            int8_tops_milli: 45000,
            has_tensor_cores: false,
            has_rt_cores: false,
            fma_broken: Some(false),
            fp16_tc_broken: Some(true),
            notes: "Full GP102. 11GB 352-bit. FMA works normally (not a mining CMP).",
        },
        GpuSpec {
            name: "GTX 1080",
            arch: "Pascal GP104",
            sm_major: 6,
            sm_minor: 1,
            cuda_cores: 2560,
            vram_gb_milli: 8000,
            mem_bus_bits: 256,
            mem_bw_gbs_milli: 320000,
            fp32_tflops_milli: 8900,
            fp16_tflops_milli: 17800,
            int8_tops_milli: 35000,
            has_tensor_cores: false,
            has_rt_cores: false,
            fma_broken: Some(false),
            fp16_tc_broken: Some(true),
            notes: "GP104 full. 8GB 256-bit. Solid INT8 dp4a performance.",
        },
        GpuSpec {
            name: "GTX 1060",
            arch: "Pascal GP106",
            sm_major: 6,
            sm_minor: 1,
            cuda_cores: 1280,
            vram_gb_milli: 6000,
            mem_bus_bits: 192,
            mem_bw_gbs_milli: 192000,
            fp32_tflops_milli: 4400,
            fp16_tflops_milli: 8800,
            int8_tops_milli: 17500,
            has_tensor_cores: false,
            has_rt_cores: false,
            fma_broken: Some(false),
            fp16_tc_broken: Some(true),
            notes: "Consumer version of P106. Same perf as P106-100.",
        },
        GpuSpec {
            name: "CMP 50HX",
            arch: "Turing TU102/TU104 (mining)",
            sm_major: 7,
            sm_minor: 5,
            cuda_cores: 2304,
            vram_gb_milli: 10000,
            mem_bus_bits: 320,
            mem_bw_gbs_milli: 320000,
            fp32_tflops_milli: 5900,
            fp16_tflops_milli: 22300,
            int8_tops_milli: 1700,
            has_tensor_cores: true,
            has_rt_cores: false,
            fma_broken: Some(true),
            fp16_tc_broken: Some(true),
            notes: "BROKEN: FMA 14x slow, TC give wrong results, INT8 only 1.7 TOPS. Use f16x2 mul+add!",
        },
        GpuSpec {
            name: "RTX 2060",
            arch: "Turing TU106",
            sm_major: 7,
            sm_minor: 5,
            cuda_cores: 1920,
            vram_gb_milli: 6000,
            mem_bus_bits: 192,
            mem_bw_gbs_milli: 336000,
            fp32_tflops_milli: 6500,
            fp16_tflops_milli: 52000,
            int8_tops_milli: 104000,
            has_tensor_cores: true,
            has_rt_cores: true,
            fma_broken: Some(false),
            fp16_tc_broken: Some(false),
            notes: "Full Turing TC. 48 RT cores, 240 Tensor cores. FP16 TC 52 TFLOPS. INT8 TC ~104 TOPS.",
        },
        GpuSpec {
            name: "RTX 2060 SUPER",
            arch: "Turing TU106-410",
            sm_major: 7,
            sm_minor: 5,
            cuda_cores: 2176,
            vram_gb_milli: 8000,
            mem_bus_bits: 256,
            mem_bw_gbs_milli: 448000,
            fp32_tflops_milli: 7200,
            fp16_tflops_milli: 57400,
            int8_tops_milli: 114800,
            has_tensor_cores: true,
            has_rt_cores: true,
            fma_broken: Some(false),
            fp16_tc_broken: Some(false),
            notes: "256-bit 448GB/s. 34 RT cores, 272 Tensor cores. Best RTX 2060 variant for throughput.",
        },
        GpuSpec {
            name: "RTX 2060 12GB",
            arch: "Turing TU106-300",
            sm_major: 7,
            sm_minor: 5,
            cuda_cores: 2176,
            vram_gb_milli: 12000,
            mem_bus_bits: 192,
            mem_bw_gbs_milli: 360000,
            fp32_tflops_milli: 7300,
            fp16_tflops_milli: 58200,
            int8_tops_milli: 116000,
            has_tensor_cores: true,
            has_rt_cores: true,
            fma_broken: Some(false),
            fp16_tc_broken: Some(false),
            notes: "12GB but 192-bit bus (360 GB/s). Same cores as Super, more VRAM, lower BW than Super. \
                Fits larger GGUF models (13B Q4_K_M = 8GB). 2060 SUPER faster for throughput.",
        },
        GpuSpec {
            name: "Quadro T400",
            arch: "Turing TU117",
            sm_major: 7,
            sm_minor: 5,
            cuda_cores: 384,
            vram_gb_milli: 4000,
            mem_bus_bits: 64,
            mem_bw_gbs_milli: 80000,
            fp32_tflops_milli: 1094,
            fp16_tflops_milli: 2190,
            int8_tops_milli: 4400,
            has_tensor_cores: false,
            has_rt_cores: false,
            fma_broken: Some(false),
            fp16_tc_broken: Some(true),
            notes: "CAUTION: TU117 in T400 has NO Tensor Cores despite SM 7.5! \
                30W TDP, 80 GB/s BW. Inference only for tiny models (1-3B). \
                dp4a works (SM 6.1+), but extremely low throughput. \
                Q4_K_M 3B = ~2.4GB fits. ~22 tok/s for 3B Q4_K_M.",
        },
        GpuSpec {
            name: "Quadro T600",
            arch: "Turing TU117",
            sm_major: 7,
            sm_minor: 5,
            cuda_cores: 640,
            vram_gb_milli: 4000,
            mem_bus_bits: 128,
            mem_bw_gbs_milli: 160000,
            fp32_tflops_milli: 1710,
            fp16_tflops_milli: 3420,
            int8_tops_milli: 6800,
            has_tensor_cores: false,
            has_rt_cores: false,
            fma_broken: Some(false),
            fp16_tc_broken: Some(true),
            notes: "TU117, no TC. 4GB 128-bit 160 GB/s. Better than T400, still entry level.",
        },
        GpuSpec {
            name: "RTX 2070",
            arch: "Turing TU106",
            sm_major: 7,
            sm_minor: 5,
            cuda_cores: 2304,
            vram_gb_milli: 8000,
            mem_bus_bits: 256,
            mem_bw_gbs_milli: 448000,
            fp32_tflops_milli: 7500,
            fp16_tflops_milli: 57800,
            int8_tops_milli: 115000,
            has_tensor_cores: true,
            has_rt_cores: true,
            fma_broken: Some(false),
            fp16_tc_broken: Some(false),
            notes: "8GB 256-bit. Full Turing TC. Good for 7B/13B models.",
        },
        GpuSpec {
            name: "RTX 2080 Ti",
            arch: "Turing TU102",
            sm_major: 7,
            sm_minor: 5,
            cuda_cores: 4352,
            vram_gb_milli: 11000,
            mem_bus_bits: 352,
            mem_bw_gbs_milli: 616000,
            fp32_tflops_milli: 13400,
            fp16_tflops_milli: 107900,
            int8_tops_milli: 215800,
            has_tensor_cores: true,
            has_rt_cores: true,
            fma_broken: Some(false),
            fp16_tc_broken: Some(false),
            notes: "Best consumer Turing. 11GB 352-bit. TC INT8 ~215 TOPS. Excellent for 13B+ models.",
        },
    ]
}

/// The table of known Pascal and Turing cards, in lookup order.
pub fn gpu_db() -> (v: Vec<GpuSpec>)
    ensures
        v@ == known_gpus(),
{
    let mut v: Vec<GpuSpec> = Vec::new();
    v.push(GpuSpec {
        name: "Tesla P100",
        arch: "Pascal GP100",
        sm_major: 6,
        sm_minor: 0,
        cuda_cores: 3584,
        vram_gb_milli: 16000,
        mem_bus_bits: 4096,
        mem_bw_gbs_milli: 732000,
        fp32_tflops_milli: 9300,
        fp16_tflops_milli: 18700,
        int8_tops_milli: 37400,
        has_tensor_cores: false,
        has_rt_cores: false,
        fma_broken: Some(false),
        fp16_tc_broken: Some(false),
        notes: "HBM2 732GB/s, FP64=4.7TF (full), FP16 f16x2 fast, no TC. Best Pascal for inference.",
    });
    v.push(GpuSpec {
        name: "P102-100",
        arch: "Pascal GP102",
        sm_major: 6,
        sm_minor: 1,
        cuda_cores: 3840,
        vram_gb_milli: 10000,
        mem_bus_bits: 320,
        mem_bw_gbs_milli: 320000,
        fp32_tflops_milli: 11000,
        fp16_tflops_milli: 22000,
        int8_tops_milli: 44000,
        has_tensor_cores: false,
        has_rt_cores: false,
        fma_broken: Some(false),
        fp16_tc_broken: Some(true),
        notes: "No TC. INT8 dp4a 41 TOPS is the fastest path. cuBLAS must use COMPUTE_32F.",
    });
    v.push(GpuSpec {
        name: "P104-100",
        arch: "Pascal GP104",
        sm_major: 6,
        sm_minor: 1,
        cuda_cores: 2560,
        vram_gb_milli: 8000,
        mem_bus_bits: 256,
        mem_bw_gbs_milli: 256000,
        fp32_tflops_milli: 7300,
        fp16_tflops_milli: 14600,
        int8_tops_milli: 29000,
        has_tensor_cores: false,
        has_rt_cores: false,
        fma_broken: Some(false),
        fp16_tc_broken: Some(true),
        notes: "No TC. Similar to P102 but 8GB/256-bit. dp4a ~15 TOPS measured.",
    });
    v.push(GpuSpec {
        name: "P106-100",
        arch: "Pascal GP106",
        sm_major: 6,
        sm_minor: 1,
        cuda_cores: 1280,
        vram_gb_milli: 6000,
        mem_bus_bits: 192,
        mem_bw_gbs_milli: 192000,
        fp32_tflops_milli: 4600,
        fp16_tflops_milli: 9200,
        int8_tops_milli: 18000,
        has_tensor_cores: false,
        has_rt_cores: false,
        fma_broken: Some(false),
        fp16_tc_broken: Some(true),
        notes: "6GB only. No TC. Smallest Pascal mining card. Q4_K_M best GGUF for 7B.",
    });
    v.push(GpuSpec {
        name: "GTX 1080 Ti",
        arch: "Pascal GP102",
        sm_major: 6,
        sm_minor: 1,
        cuda_cores: 3584,
        vram_gb_milli: 11000,
        mem_bus_bits: 352,
        mem_bw_gbs_milli: 484000,
        fp32_tflops_milli: 11300,
        fp16_tflops_milli: 22600,
        int8_tops_milli: 45000,
        has_tensor_cores: false,
        has_rt_cores: false,
        fma_broken: Some(false),
        fp16_tc_broken: Some(true),
        notes: "Full GP102. 11GB 352-bit. FMA works normally (not a mining CMP).",
    });
    v.push(GpuSpec {
        name: "GTX 1080",
        arch: "Pascal GP104",
        sm_major: 6,
        sm_minor: 1,
        cuda_cores: 2560,
        vram_gb_milli: 8000,
        mem_bus_bits: 256,
        mem_bw_gbs_milli: 320000,
        fp32_tflops_milli: 8900,
        fp16_tflops_milli: 17800,
        int8_tops_milli: 35000,
        has_tensor_cores: false,
        has_rt_cores: false,
        fma_broken: Some(false),
        fp16_tc_broken: Some(true),
        notes: "GP104 full. 8GB 256-bit. Solid INT8 dp4a performance.",
    });
    v.push(GpuSpec {
        name: "GTX 1060",
        arch: "Pascal GP106",
        sm_major: 6,
        sm_minor: 1,
        cuda_cores: 1280,
        vram_gb_milli: 6000,
        mem_bus_bits: 192,
        mem_bw_gbs_milli: 192000,
        fp32_tflops_milli: 4400,
        fp16_tflops_milli: 8800,
        int8_tops_milli: 17500,
        has_tensor_cores: false,
        has_rt_cores: false,
        fma_broken: Some(false),
        fp16_tc_broken: Some(true),
        notes: "Consumer version of P106. Same perf as P106-100.",
    });
    v.push(GpuSpec {
        name: "CMP 50HX",
        arch: "Turing TU102/TU104 (mining)",
        sm_major: 7,
        sm_minor: 5,
        cuda_cores: 2304,
        vram_gb_milli: 10000,
        mem_bus_bits: 320,
        mem_bw_gbs_milli: 320000,
        fp32_tflops_milli: 5900,
        fp16_tflops_milli: 22300,
        int8_tops_milli: 1700,
        has_tensor_cores: true,
        has_rt_cores: false,
        fma_broken: Some(true),
        fp16_tc_broken: Some(true),
        notes: "BROKEN: FMA 14x slow, TC give wrong results, INT8 only 1.7 TOPS. Use f16x2 mul+add!",
    });
    v.push(GpuSpec {
        name: "RTX 2060",
        arch: "Turing TU106",
        sm_major: 7,
        sm_minor: 5,
        cuda_cores: 1920,
        vram_gb_milli: 6000,
        mem_bus_bits: 192,
        mem_bw_gbs_milli: 336000,
        fp32_tflops_milli: 6500,
        fp16_tflops_milli: 52000,
        int8_tops_milli: 104000,
        has_tensor_cores: true,
        has_rt_cores: true,
        fma_broken: Some(false),
        fp16_tc_broken: Some(false),
        notes: "Full Turing TC. 48 RT cores, 240 Tensor cores. FP16 TC 52 TFLOPS. INT8 TC ~104 TOPS.",
    });
    v.push(GpuSpec {
        name: "RTX 2060 SUPER",
        arch: "Turing TU106-410",
        sm_major: 7,
        sm_minor: 5,
        cuda_cores: 2176,
        vram_gb_milli: 8000,
        mem_bus_bits: 256,
        mem_bw_gbs_milli: 448000,
        fp32_tflops_milli: 7200,
        fp16_tflops_milli: 57400,
        int8_tops_milli: 114800,
        has_tensor_cores: true,
        has_rt_cores: true,
        fma_broken: Some(false),
        fp16_tc_broken: Some(false),
        notes: "256-bit 448GB/s. 34 RT cores, 272 Tensor cores. Best RTX 2060 variant for throughput.",
    });
    v.push(GpuSpec {
        name: "RTX 2060 12GB",
        arch: "Turing TU106-300",
        sm_major: 7,
        sm_minor: 5,
        cuda_cores: 2176,
        vram_gb_milli: 12000,
        mem_bus_bits: 192,
        mem_bw_gbs_milli: 360000,
        fp32_tflops_milli: 7300,
        fp16_tflops_milli: 58200,
        int8_tops_milli: 116000,
        has_tensor_cores: true,
        has_rt_cores: true,
        fma_broken: Some(false),
        fp16_tc_broken: Some(false),
        notes: "12GB but 192-bit bus (360 GB/s). Same cores as Super, more VRAM, lower BW than Super. \
                Fits larger GGUF models (13B Q4_K_M = 8GB). 2060 SUPER faster for throughput.",
    });
    v.push(GpuSpec {
        name: "Quadro T400",
        arch: "Turing TU117",
        sm_major: 7,
        sm_minor: 5,
        cuda_cores: 384,
        vram_gb_milli: 4000,
        mem_bus_bits: 64,
        mem_bw_gbs_milli: 80000,
        fp32_tflops_milli: 1094,
        fp16_tflops_milli: 2190,
        int8_tops_milli: 4400,
        has_tensor_cores: false,
        has_rt_cores: false,
        fma_broken: Some(false),
        fp16_tc_broken: Some(true),
        notes: "CAUTION: TU117 in T400 has NO Tensor Cores despite SM 7.5! \
                30W TDP, 80 GB/s BW. Inference only for tiny models (1-3B). \
                dp4a works (SM 6.1+), but extremely low throughput. \
                Q4_K_M 3B = ~2.4GB fits. ~22 tok/s for 3B Q4_K_M.",
    });
    v.push(GpuSpec {
        name: "Quadro T600",
        arch: "Turing TU117",
        sm_major: 7,
        sm_minor: 5,
        cuda_cores: 640,
        vram_gb_milli: 4000,
        mem_bus_bits: 128,
        mem_bw_gbs_milli: 160000,
        fp32_tflops_milli: 1710,
        fp16_tflops_milli: 3420,
        int8_tops_milli: 6800,
        has_tensor_cores: false,
        has_rt_cores: false,
        fma_broken: Some(false),
        fp16_tc_broken: Some(true),
        notes: "TU117, no TC. 4GB 128-bit 160 GB/s. Better than T400, still entry level.",
    });
    v.push(GpuSpec {
        name: "RTX 2070",
        arch: "Turing TU106",
        sm_major: 7,
        sm_minor: 5,
        cuda_cores: 2304,
        vram_gb_milli: 8000,
        mem_bus_bits: 256,
        mem_bw_gbs_milli: 448000,
        fp32_tflops_milli: 7500,
        fp16_tflops_milli: 57800,
        int8_tops_milli: 115000,
        has_tensor_cores: true,
        has_rt_cores: true,
        fma_broken: Some(false),
        fp16_tc_broken: Some(false),
        notes: "8GB 256-bit. Full Turing TC. Good for 7B/13B models.",
    });
    v.push(GpuSpec {
        name: "RTX 2080 Ti",
        arch: "Turing TU102",
        sm_major: 7,
        sm_minor: 5,
        cuda_cores: 4352,
        vram_gb_milli: 11000,
        mem_bus_bits: 352,
        mem_bw_gbs_milli: 616000,
        fp32_tflops_milli: 13400,
        fp16_tflops_milli: 107900,
        int8_tops_milli: 215800,
        has_tensor_cores: true,
        has_rt_cores: true,
        fma_broken: Some(false),
        fp16_tc_broken: Some(false),
        notes: "Best consumer Turing. 11GB 352-bit. TC INT8 ~215 TOPS. Excellent for 13B+ models.",
    });
    assert(v@ =~= known_gpus());
    v
}


/// `r` is the first element of `s` that satisfies `p`, or `None` where no element does.
pub open spec fn is_first_match<T>(s: Seq<T>, p: spec_fn(T) -> bool, r: Option<T>) -> bool {
    match r {
        Some(x) => exists|i: int|
            0 <= i < s.len() && #[trigger] s[i] == x && p(s[i]) && forall|j: int|
                0 <= j < i ==> !p(#[trigger] s[j]),
        None => forall|i: int| 0 <= i < s.len() ==> !p(#[trigger] s[i]),
    }
}

/// A card of compute capability `sm_major.sm_minor`, with `cores` CUDA cores where given.
pub open spec fn sm_pred(sm_major: u32, sm_minor: u32, cores: Option<u32>) -> spec_fn(GpuSpec) -> bool {
    |g: GpuSpec|
        g.sm_major == sm_major && g.sm_minor == sm_minor && match cores {
            Some(c) => g.cuda_cores == c,
            None => true,
        }
}

fn first_with_sm(db: &Vec<GpuSpec>, sm_major: u32, sm_minor: u32, cores: Option<u32>) -> (r: Option<GpuSpec>)
    ensures
        is_first_match(db@, sm_pred(sm_major, sm_minor, cores), r),
{
    let ghost p = sm_pred(sm_major, sm_minor, cores);
    let mut i: usize = 0;
    while i < db.len()
        invariant
            i <= db.len(),
            p == sm_pred(sm_major, sm_minor, cores),
            forall|j: int| 0 <= j < i ==> !p(#[trigger] db@[j]),
        decreases db.len() - i,
    {
        let g = db[i];
        let cores_ok = match cores {
            Some(c) => g.cuda_cores == c,
            None => true,
        };
        if g.sm_major == sm_major && g.sm_minor == sm_minor && cores_ok {
            assert(db@[i as int] == g && p(db@[i as int]));
            return Some(g);
        }
        i += 1;
    }
    None
}

/// What the SM lookup answers: the first entry with that compute capability and
/// core count where there is one, else the first entry with that compute capability.
pub open spec fn sm_lookup(sm_major: u32, sm_minor: u32, cuda_cores: u32, r: Option<GpuSpec>) -> bool {
    if exists|i: int|
        0 <= i < known_gpus().len() && #[trigger] sm_pred(sm_major, sm_minor, Some(cuda_cores))(
            known_gpus()[i],
        ) {
        is_first_match(known_gpus(), sm_pred(sm_major, sm_minor, Some(cuda_cores)), r)
    } else {
        is_first_match(known_gpus(), sm_pred(sm_major, sm_minor, None), r)
    }
}

/// Finds a known card by compute capability: the first entry that also has
/// `cuda_cores` cores, else the first entry with that compute capability.
pub fn lookup_gpu_by_sm(sm_major: u32, sm_minor: u32, cuda_cores: u32) -> (r: Option<GpuSpec>)
    ensures
        sm_lookup(sm_major, sm_minor, cuda_cores, r),
{
    let db = gpu_db();
    let exact = first_with_sm(&db, sm_major, sm_minor, Some(cuda_cores));
    if exact.is_some() {
        return exact;
    }
    first_with_sm(&db, sm_major, sm_minor, None)
}

/// The SM lookup answers with a card of the requested compute capability, with
/// the requested core count where any card has it, and answers `None` exactly
/// when no known card has that compute capability.
pub proof fn lemma_sm_lookup_answers(sm_major: u32, sm_minor: u32, cuda_cores: u32, r: Option<GpuSpec>)
    requires
        sm_lookup(sm_major, sm_minor, cuda_cores, r),
    ensures
        r matches Some(g) ==> g.sm_major == sm_major && g.sm_minor == sm_minor,
        (exists|i: int|
            0 <= i < known_gpus().len() && #[trigger] sm_pred(sm_major, sm_minor, Some(cuda_cores))(
                known_gpus()[i],
            )) ==> (r matches Some(g) && g.cuda_cores == cuda_cores),
        r is None <==> forall|i: int|
            0 <= i < known_gpus().len() ==> !#[trigger] sm_pred(sm_major, sm_minor, None)(
                known_gpus()[i],
            ),
{
    let s = known_gpus();
    let pe = sm_pred(sm_major, sm_minor, Some(cuda_cores));
    let pa = sm_pred(sm_major, sm_minor, None);
    if exists|i: int| 0 <= i < s.len() && #[trigger] pe(s[i]) {
        let k: int = choose|i: int| 0 <= i < s.len() && #[trigger] pe(s[i]);
        assert(pa(s[k]));
        if r is None {
            assert(!pe(s[k]));
        }
    }
}

impl GpuSpec {
    /// A card is flagged as a (likely) CMP mining card when its FMA or its
    /// FP16 Tensor Core path is confirmed broken.
    pub fn detect_cmp(&self) -> (r: bool)
        ensures
            r == (self.fma_broken == Some(true) || self.fp16_tc_broken == Some(true)),
    {
        let fma = match self.fma_broken {
            Some(b) => b,
            None => false,
        };
        let tc = match self.fp16_tc_broken {
            Some(b) => b,
            None => false,
        };
        fma || tc
    }
}

/// A GGUF format recommendation for a 7B model. Decimal quantities are held in
/// thousandths of their unit.
#[derive(Debug, Clone, Copy)]
pub struct GgufRec {
    pub format: &'static str,
    /// Bits per weight, in thousandths.
    pub bpw_milli: u32,
    /// Size of a 7B model, in thousandths of a GB.
    pub size_7b_milli: u32,
    pub path: GpuPath,
    pub notes: &'static str,
}

/// The formats that the advisor considers, best first.
pub open spec fn gguf_candidates() -> Seq<GgufRec> {
    seq![
        GgufRec { format: "Q8_0", bpw_milli: 8500, size_7b_milli: 8000, path: GpuPath::Dp4a, notes: "Fastest on GPU (dp4a), near-lossless" },
        GgufRec { format: "Q6_K", bpw_milli: 6600, size_7b_milli: 6100, path: GpuPath::CublasF32, notes: "Best quality after Q8_0, cuBLAS FP32 path" },
        GgufRec { format: "Q5_K_M", bpw_milli: 5700, size_7b_milli: 5300, path: GpuPath::CublasF32, notes: "Good quality/size, FP32 cuBLAS" },
        GgufRec { format: "IQ4_XS", bpw_milli: 4250, size_7b_milli: 4000, path: GpuPath::Dp4a, notes: "Pareto-optimal dp4a, needs imatrix" },
        GgufRec { format: "Q4_K_M", bpw_milli: 4800, size_7b_milli: 4500, path: GpuPath::Dp4a, notes: "Main recommendation: dp4a speed + quality" },
        GgufRec { format: "IQ4_NL", bpw_milli: 4500, size_7b_milli: 4200, path: GpuPath::Dp4a, notes: "Non-linear 4-bit, dp4a fast" },
        GgufRec { format: "Q4_K_S", bpw_milli: 4400, size_7b_milli: 4100, path: GpuPath::Dp4a, notes: "Small variant, dp4a" },
        GgufRec { format: "IQ3_M", bpw_milli: 3660, size_7b_milli: 3400, path: GpuPath::CublasF32, notes: "3-bit Pareto, FP32 cuBLAS" },
        GgufRec { format: "Q3_K_M", bpw_milli: 3740, size_7b_milli: 3500, path: GpuPath::CublasF32, notes: "3-bit K-quant, FP32 cuBLAS" },
        GgufRec { format: "IQ2_M", bpw_milli: 2700, size_7b_milli: 2500, path: GpuPath::CublasF32, notes: "2-bit, use only if nothing else fits" },
    ]
}

/// A model of `size_milli` fits in `vram_milli` with 20% spare for the KV cache:
/// `size * 1.2 <= vram`, compared exactly.
pub open spec fn fits_with_kv_overhead(size_milli: u32, vram_milli: u32) -> bool {
    size_milli * 6 <= vram_milli * 5
}

/// The candidates that fit in `vram_milli`, in their order.
pub open spec fn recommended_for(vram_milli: u32) -> Seq<GgufRec> {
    gguf_candidates().filter(|r: GgufRec| fits_with_kv_overhead(r.size_7b_milli, vram_milli))
}

fn gguf_candidate_list() -> (v: Vec<GgufRec>)
    ensures
        v@ == gguf_candidates(),
{
    let mut v: Vec<GgufRec> = Vec::new();
    v.push(GgufRec { format: "Q8_0", bpw_milli: 8500, size_7b_milli: 8000, path: GpuPath::Dp4a, notes: "Fastest on GPU (dp4a), near-lossless" });
    v.push(GgufRec { format: "Q6_K", bpw_milli: 6600, size_7b_milli: 6100, path: GpuPath::CublasF32, notes: "Best quality after Q8_0, cuBLAS FP32 path" });
    v.push(GgufRec { format: "Q5_K_M", bpw_milli: 5700, size_7b_milli: 5300, path: GpuPath::CublasF32, notes: "Good quality/size, FP32 cuBLAS" });
    v.push(GgufRec { format: "IQ4_XS", bpw_milli: 4250, size_7b_milli: 4000, path: GpuPath::Dp4a, notes: "Pareto-optimal dp4a, needs imatrix" });
    v.push(GgufRec { format: "Q4_K_M", bpw_milli: 4800, size_7b_milli: 4500, path: GpuPath::Dp4a, notes: "Main recommendation: dp4a speed + quality" });
    v.push(GgufRec { format: "IQ4_NL", bpw_milli: 4500, size_7b_milli: 4200, path: GpuPath::Dp4a, notes: "Non-linear 4-bit, dp4a fast" });
    v.push(GgufRec { format: "Q4_K_S", bpw_milli: 4400, size_7b_milli: 4100, path: GpuPath::Dp4a, notes: "Small variant, dp4a" });
    v.push(GgufRec { format: "IQ3_M", bpw_milli: 3660, size_7b_milli: 3400, path: GpuPath::CublasF32, notes: "3-bit Pareto, FP32 cuBLAS" });
    v.push(GgufRec { format: "Q3_K_M", bpw_milli: 3740, size_7b_milli: 3500, path: GpuPath::CublasF32, notes: "3-bit K-quant, FP32 cuBLAS" });
    v.push(GgufRec { format: "IQ2_M", bpw_milli: 2700, size_7b_milli: 2500, path: GpuPath::CublasF32, notes: "2-bit, use only if nothing else fits" });
    assert(v@ =~= gguf_candidates());
    v
}

impl GpuSpec {
    /// The GGUF formats whose 7B model fits in this card's memory with 20% spare
    /// for the KV cache, best first.
    pub fn gguf_recommendations(&self) -> (r: Vec<GgufRec>)
        ensures
            r@ == recommended_for(self.vram_gb_milli),
    {
        let vram: u32 = self.vram_gb_milli;
        let ghost pred = |r: GgufRec| fits_with_kv_overhead(r.size_7b_milli, vram);
        let cands = gguf_candidate_list();
        let mut out: Vec<GgufRec> = Vec::new();
        let mut i: usize = 0;
        while i < cands.len()
            invariant
                i <= cands.len(),
                cands@ == gguf_candidates(),
                pred == (|r: GgufRec| fits_with_kv_overhead(r.size_7b_milli, vram)),
                out@ == cands@.take(i as int).filter(pred),
            decreases cands.len() - i,
        {
            let c = cands[i];
            proof {
                assert(cands@.take(i + 1).drop_last() =~= cands@.take(i as int));
                reveal(Seq::filter);
            }
            if (c.size_7b_milli as u64) * 6 <= (vram as u64) * 5 {
                out.push(c);
            }
            i += 1;
        }
        assert(cands@.take(cands.len() as int) =~= cands@);
        out
    }
}


/// A card whose lower-cased name occurs in the lower-cased `query`.
pub open spec fn name_pred(query: Seq<char>) -> spec_fn(GpuSpec) -> bool {
    |g: GpuSpec| has_substring(lowercase(query), lowercase(g.name@))
}

/// Finds the first known card whose name occurs in `name`, both lower-cased.
pub fn lookup_gpu_by_name(name: &str) -> (r: Option<GpuSpec>)
    ensures
        is_first_match(known_gpus(), name_pred(name@), r),
{
    let db = gpu_db();
    let query = lowercase_chars(name);
    let ghost p = name_pred(name@);
    let mut i: usize = 0;
    while i < db.len()
        invariant
            i <= db.len(),
            db@ == known_gpus(),
            query@ == lowercase(name@),
            p == name_pred(name@),
            forall|j: int| 0 <= j < i ==> !p(#[trigger] db@[j]),
        decreases db.len() - i,
    {
        let g = db[i];
        let pattern = lowercase_chars(g.name);
        if contains_chars(&query, &pattern) {
            assert(db@[i as int] == g && p(db@[i as int]));
            return Some(g);
        }
        i += 1;
    }
    None
}

/// Looking a known card up by its own name always finds a card: no query made
/// of a table entry's name is answered `None`.
pub proof fn lemma_known_names_found(i: int)
    requires
        0 <= i < known_gpus().len(),
    ensures
        !is_first_match(known_gpus(), name_pred(known_gpus()[i].name@), None),
{
    let g = known_gpus()[i];
    lemma_has_substring_refl(lowercase(g.name@));
    assert(name_pred(g.name@)(known_gpus()[i]));
}


proof fn lemma_filter_weaker<A>(s: Seq<A>, p: spec_fn(A) -> bool, q: spec_fn(A) -> bool)
    requires
        forall|x: A| #[trigger] p(x) ==> q(x),
    ensures
        forall|x: A| s.filter(p).contains(x) ==> #[trigger] s.filter(q).contains(x),
    decreases s.len(),
{
    reveal(Seq::filter);
    if s.len() > 0 {
        let t = s.drop_last();
        lemma_filter_weaker(t, p, q);
        let fp = s.filter(p);
        let fq = s.filter(q);
        assert(fp == if p(s.last()) { t.filter(p).push(s.last()) } else { t.filter(p) });
        assert(fq == if q(s.last()) { t.filter(q).push(s.last()) } else { t.filter(q) });
        assert forall|x: A| fp.contains(x) implies #[trigger] fq.contains(x) by {
            let i: int = choose|i: int| 0 <= i < fp.len() && fp[i] == x;
            if p(s.last()) && i == fp.len() - 1 {
                assert(fq[fq.len() - 1] == x);
            } else {
                assert(t.filter(p)[i] == x);
                assert(t.filter(p).contains(x));
                assert(t.filter(q).contains(x));
                let j: int = choose|j: int| 0 <= j < t.filter(q).len() && t.filter(q)[j] == x;
                assert(fq[j] == x);
            }
        }
    }
}

/// More memory never loses a recommendation: every format recommended for a
/// card with `vram_small` is also recommended for one with `vram_large`.
pub proof fn lemma_recommendations_monotone(vram_small: u32, vram_large: u32)
    requires
        vram_small <= vram_large,
    ensures
        forall|x: GgufRec|
            recommended_for(vram_small).contains(x) ==> #[trigger] recommended_for(
                vram_large,
            ).contains(x),
{
    let p = |r: GgufRec| fits_with_kv_overhead(r.size_7b_milli, vram_small);
    let q = |r: GgufRec| fits_with_kv_overhead(r.size_7b_milli, vram_large);
    assert forall|x: GgufRec| #[trigger] p(x) implies q(x) by {
        assert(x.size_7b_milli * 6 <= vram_small * 5);
    }
    lemma_filter_weaker(gguf_candidates(), p, q);
}

/// A model fits when its size plus 20% is at most the memory. Every format
/// recommended for a card fits in its memory that way, and every candidate that
/// fits is recommended.
pub proof fn lemma_recommendations_fit(vram_milli: u32)
    ensures
        forall|size: u32, vram: u32|
            #[trigger] fits_with_kv_overhead(size, vram) == ((size as int) * 12 <= (vram as int) * 10),
        forall|i: int|
            0 <= i < recommended_for(vram_milli).len() ==> fits_with_kv_overhead(
                (#[trigger] recommended_for(vram_milli)[i]).size_7b_milli,
                vram_milli,
            ),
        forall|i: int|
            0 <= i < gguf_candidates().len() && fits_with_kv_overhead(
                gguf_candidates()[i].size_7b_milli,
                vram_milli,
            ) ==> recommended_for(vram_milli).contains(#[trigger] gguf_candidates()[i]),
{
    let p = |r: GgufRec| fits_with_kv_overhead(r.size_7b_milli, vram_milli);
    assert forall|i: int| 0 <= i < recommended_for(vram_milli).len() implies fits_with_kv_overhead(
        (#[trigger] recommended_for(vram_milli)[i]).size_7b_milli,
        vram_milli,
    ) by {
        gguf_candidates().lemma_filter_pred(p, i);
    }
    assert forall|i: int|
        0 <= i < gguf_candidates().len() && fits_with_kv_overhead(
            gguf_candidates()[i].size_7b_milli,
            vram_milli,
        ) implies recommended_for(vram_milli).contains(#[trigger] gguf_candidates()[i]) by {
        gguf_candidates().lemma_filter_contains(p, i);
    }
}

/// Looking a known card up by its own compute capability and core count finds a
/// card with that compute capability and core count.
pub proof fn lemma_known_cards_found_by_sm(i: int, r: Option<GpuSpec>)
    requires
        0 <= i < known_gpus().len(),
        sm_lookup(known_gpus()[i].sm_major, known_gpus()[i].sm_minor, known_gpus()[i].cuda_cores, r),
    ensures
        r matches Some(g) && g.sm_major == known_gpus()[i].sm_major && g.sm_minor
            == known_gpus()[i].sm_minor && g.cuda_cores == known_gpus()[i].cuda_cores,
{
    let g = known_gpus()[i];
    assert(sm_pred(g.sm_major, g.sm_minor, Some(g.cuda_cores))(known_gpus()[i]));
    lemma_sm_lookup_answers(g.sm_major, g.sm_minor, g.cuda_cores, r);
}

} // verus!
