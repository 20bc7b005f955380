use vstd::prelude::*;
use crate::gpu_db::{GpuPath, gguf_candidates};

verus! {

/// The GPU path column of the GGUF format table: a plain GPU path, or one of
/// the special cases that the table spells out.
#[derive(Debug, Clone, Copy, PartialEq, Eq, Structural)]
pub enum FormatPath {
    Gpu(GpuPath),
    /// cuBLAS FP32, and on Pascal only with COMPUTE_32F.
    CublasF32Only,
    /// Not available below SM 8.0.
    Unavailable,
    /// dp4a through the TQ4_1S kernel.
    Dp4aTq41s,
    /// Dequantize to FP32.
    Fp32Dequant,
}

/// The printed label of a format-table path.
pub open spec fn format_path_label(p: FormatPath) -> Seq<char> {
    match p {
        FormatPath::Gpu(g) => crate::gpu_db::path_label(g),
        FormatPath::CublasF32Only => "cuBLAS F32*"@,
        FormatPath::Unavailable => "❌ N/A"@,
        FormatPath::Dp4aTq41s => "dp4a (TQ4_1S)"@,
        FormatPath::Fp32Dequant => "FP32  dequant"@,
    }
}

impl FormatPath {
    pub fn label(&self) -> (r: &'static str)
        ensures
            r@ == format_path_label(*self),
    {
        match self {
            FormatPath::Gpu(g) => g.label(),
            FormatPath::CublasF32Only => "cuBLAS F32*",
            FormatPath::Unavailable => "❌ N/A",
            FormatPath::Dp4aTq41s => "dp4a (TQ4_1S)",
            FormatPath::Fp32Dequant => "FP32  dequant",
        }
    }
}

/// One row of the GGUF format table. Decimal quantities are held in thousandths.
#[derive(Debug, Clone, Copy)]
pub struct GgufFormat {
    pub format: &'static str,
    pub bpw_milli: u32,
    pub size_7b_milli: u32,
    pub family: &'static str,
    pub path: FormatPath,
    /// Rating on Pascal and on CMP cards.
    pub rating: &'static str,
    pub notes: &'static str,
}

/// Every GGUF format, with its size for a 7B model and its GPU path.
pub open spec fn gguf_formats() -> Seq<GgufFormat> {
    seq![
        GgufFormat { format: "F32", bpw_milli: 32000, size_7b_milli: 28000, family: "Float", path: FormatPath::Gpu(GpuPath::CublasF32), rating: "★★ ok", notes: "Full precision, large" },
        GgufFormat { format: "F16", bpw_milli: 16000, size_7b_milli: 14000, family: "Float", path: FormatPath::CublasF32Only, rating: "★★ *32F", notes: "Pascal: MUST use COMPUTE_32F" },
        GgufFormat { format: "BF16", bpw_milli: 16000, size_7b_milli: 14000, family: "Float", path: FormatPath::Unavailable, rating: "❌ N/A", notes: "Requires SM 8.0+" },
        GgufFormat { format: "Q8_0", bpw_milli: 8500, size_7b_milli: 8000, family: "Legacy", path: FormatPath::Gpu(GpuPath::Dp4a), rating: "★★★★★", notes: "Fastest+best on Pascal!" },
        GgufFormat { format: "Q5_1", bpw_milli: 5900, size_7b_milli: 5500, family: "Legacy", path: FormatPath::Gpu(GpuPath::CublasF32), rating: "★★", notes: "Legacy, no MMQ. Use Q5_K_M" },
        GgufFormat { format: "Q5_0", bpw_milli: 5500, size_7b_milli: 5100, family: "Legacy", path: FormatPath::Gpu(GpuPath::CublasF32), rating: "★★", notes: "Legacy, no MMQ" },
        GgufFormat { format: "Q4_1", bpw_milli: 4900, size_7b_milli: 4600, family: "Legacy", path: FormatPath::Gpu(GpuPath::CublasF32), rating: "★★", notes: "Legacy. Use Q4_K_M instead" },
        GgufFormat { format: "Q4_0", bpw_milli: 4500, size_7b_milli: 4200, family: "Legacy", path: FormatPath::Gpu(GpuPath::Dp4a), rating: "★★★", notes: "Has MMQ path but K-quants better" },
        GgufFormat { format: "Q6_K", bpw_milli: 6600, size_7b_milli: 6100, family: "K-Quant", path: FormatPath::Gpu(GpuPath::CublasF32), rating: "★★", notes: "Best quality FP32 path" },
        GgufFormat { format: "Q5_K_M", bpw_milli: 5700, size_7b_milli: 5300, family: "K-Quant", path: FormatPath::Gpu(GpuPath::CublasF32), rating: "★★", notes: "Good quality/size" },
        GgufFormat { format: "Q5_K_S", bpw_milli: 5500, size_7b_milli: 5100, family: "K-Quant", path: FormatPath::Gpu(GpuPath::CublasF32), rating: "★★", notes: "" },
        GgufFormat { format: "Q4_K_M", bpw_milli: 4800, size_7b_milli: 4500, family: "K-Quant", path: FormatPath::Gpu(GpuPath::Dp4a), rating: "★★★★★", notes: "← MAIN RECOMMENDATION" },
        GgufFormat { format: "Q4_K_S", bpw_milli: 4400, size_7b_milli: 4100, family: "K-Quant", path: FormatPath::Gpu(GpuPath::Dp4a), rating: "★★★★", notes: "" },
        GgufFormat { format: "Q3_K_L", bpw_milli: 4000, size_7b_milli: 3800, family: "K-Quant", path: FormatPath::Gpu(GpuPath::CublasF32), rating: "★★", notes: "Mixed Q3+Q4 layers" },
        GgufFormat { format: "Q3_K_M", bpw_milli: 3740, size_7b_milli: 3500, family: "K-Quant", path: FormatPath::Gpu(GpuPath::CublasF32), rating: "★★", notes: "" },
        GgufFormat { format: "Q3_K_S", bpw_milli: 3410, size_7b_milli: 3200, family: "K-Quant", path: FormatPath::Gpu(GpuPath::CublasF32), rating: "★★", notes: "" },
        GgufFormat { format: "Q2_K", bpw_milli: 2630, size_7b_milli: 2500, family: "K-Quant", path: FormatPath::Gpu(GpuPath::CublasF32), rating: "★", notes: "Bad quality, use IQ2_M" },
        GgufFormat { format: "Q2_K_S", bpw_milli: 2630, size_7b_milli: 2500, family: "K-Quant", path: FormatPath::Gpu(GpuPath::CublasF32), rating: "★", notes: "Slightly better Q2_K" },
        GgufFormat { format: "IQ4_XS", bpw_milli: 4250, size_7b_milli: 4000, family: "I-Quant", path: FormatPath::Gpu(GpuPath::Dp4a), rating: "★★★★★", notes: "← Pareto★ (needs imatrix)" },
        GgufFormat { format: "IQ4_NL", bpw_milli: 4500, size_7b_milli: 4200, family: "I-Quant", path: FormatPath::Gpu(GpuPath::Dp4a), rating: "★★★★", notes: "Non-linear LUT, fast" },
        GgufFormat { format: "IQ3_M", bpw_milli: 3660, size_7b_milli: 3400, family: "I-Quant", path: FormatPath::Gpu(GpuPath::CublasF32), rating: "★★", notes: "3-bit Pareto" },
        GgufFormat { format: "IQ3_S", bpw_milli: 3440, size_7b_milli: 3200, family: "I-Quant", path: FormatPath::Gpu(GpuPath::CublasF32), rating: "★★", notes: "" },
        GgufFormat { format: "IQ3_XS", bpw_milli: 3300, size_7b_milli: 3100, family: "I-Quant", path: FormatPath::Gpu(GpuPath::CublasF32), rating: "★★", notes: "" },
        GgufFormat { format: "IQ3_XXS", bpw_milli: 3060, size_7b_milli: 2900, family: "I-Quant", path: FormatPath::Gpu(GpuPath::CublasF32), rating: "★★", notes: "" },
        GgufFormat { format: "IQ2_M", bpw_milli: 2700, size_7b_milli: 2500, family: "I-Quant", path: FormatPath::Gpu(GpuPath::CublasF32), rating: "★★", notes: "Best 2-bit on GPU" },
        GgufFormat { format: "IQ2_S", bpw_milli: 2500, size_7b_milli: 2300, family: "I-Quant", path: FormatPath::Gpu(GpuPath::CublasF32), rating: "★★", notes: "" },
        GgufFormat { format: "IQ2_XS", bpw_milli: 2310, size_7b_milli: 2200, family: "I-Quant", path: FormatPath::Gpu(GpuPath::CublasF32), rating: "★★", notes: "" },
        GgufFormat { format: "IQ2_XXS", bpw_milli: 2060, size_7b_milli: 1900, family: "I-Quant", path: FormatPath::Gpu(GpuPath::CublasF32), rating: "★", notes: "" },
        GgufFormat { format: "IQ1_M", bpw_milli: 1750, size_7b_milli: 1600, family: "I-Quant", path: FormatPath::Gpu(GpuPath::Fp32Gemv), rating: "★", notes: "No CUDA MMQ kernel" },
        GgufFormat { format: "IQ1_S", bpw_milli: 1560, size_7b_milli: 1500, family: "I-Quant", path: FormatPath::Gpu(GpuPath::Fp32Gemv), rating: "★", notes: "No CUDA MMQ kernel" },
        GgufFormat { format: "TQ2_0", bpw_milli: 2060, size_7b_milli: 1900, family: "Ternary", path: FormatPath::Gpu(GpuPath::Fp32Gemv), rating: "★", notes: "Ternary {-1,0,+1} GPU slow" },
        GgufFormat { format: "TQ1_0", bpw_milli: 1690, size_7b_milli: 1600, family: "Ternary", path: FormatPath::Gpu(GpuPath::Fp32Gemv), rating: "★", notes: "Ternary packed, GPU slow" },
        GgufFormat { format: "turbo4", bpw_milli: 4000, size_7b_milli: 3800, family: "TurboQ", path: FormatPath::Dp4aTq41s, rating: "★★★", notes: "KV-cache only, 3.5x fast" },
        GgufFormat { format: "turbo3", bpw_milli: 3000, size_7b_milli: 2800, family: "TurboQ", path: FormatPath::Fp32Dequant, rating: "★★", notes: "KV-cache only" },
        GgufFormat { format: "turbo2", bpw_milli: 2000, size_7b_milli: 1900, family: "TurboQ", path: FormatPath::Fp32Dequant, rating: "★", notes: "KV-cache only, long ctx" },
    ]
}

/// Every GGUF format, with its size for a 7B model and its GPU path.
pub fn gguf_format_table() -> (v: Vec<GgufFormat>)
    ensures
        v@ == gguf_formats(),
{
    let mut v: Vec<GgufFormat> = Vec::new();
    v.push(GgufFormat { format: "F32", bpw_milli: 32000, size_7b_milli: 28000, family: "Float", path: FormatPath::Gpu(GpuPath::CublasF32), rating: "★★ ok", notes: "Full precision, large" });
    v.push(GgufFormat { format: "F16", bpw_milli: 16000, size_7b_milli: 14000, family: "Float", path: FormatPath::CublasF32Only, rating: "★★ *32F", notes: "Pascal: MUST use COMPUTE_32F" });
    v.push(GgufFormat { format: "BF16", bpw_milli: 16000, size_7b_milli: 14000, family: "Float", path: FormatPath::Unavailable, rating: "❌ N/A", notes: "Requires SM 8.0+" });
    v.push(GgufFormat { format: "Q8_0", bpw_milli: 8500, size_7b_milli: 8000, family: "Legacy", path: FormatPath::Gpu(GpuPath::Dp4a), rating: "★★★★★", notes: "Fastest+best on Pascal!" });
    v.push(GgufFormat { format: "Q5_1", bpw_milli: 5900, size_7b_milli: 5500, family: "Legacy", path: FormatPath::Gpu(GpuPath::CublasF32), rating: "★★", notes: "Legacy, no MMQ. Use Q5_K_M" });
    v.push(GgufFormat { format: "Q5_0", bpw_milli: 5500, size_7b_milli: 5100, family: "Legacy", path: FormatPath::Gpu(GpuPath::CublasF32), rating: "★★", notes: "Legacy, no MMQ" });
    v.push(GgufFormat { format: "Q4_1", bpw_milli: 4900, size_7b_milli: 4600, family: "Legacy", path: FormatPath::Gpu(GpuPath::CublasF32), rating: "★★", notes: "Legacy. Use Q4_K_M instead" });
    v.push(GgufFormat { format: "Q4_0", bpw_milli: 4500, size_7b_milli: 4200, family: "Legacy", path: FormatPath::Gpu(GpuPath::Dp4a), rating: "★★★", notes: "Has MMQ path but K-quants better" });
    v.push(GgufFormat { format: "Q6_K", bpw_milli: 6600, size_7b_milli: 6100, family: "K-Quant", path: FormatPath::Gpu(GpuPath::CublasF32), rating: "★★", notes: "Best quality FP32 path" });
    v.push(GgufFormat { format: "Q5_K_M", bpw_milli: 5700, size_7b_milli: 5300, family: "K-Quant", path: FormatPath::Gpu(GpuPath::CublasF32), rating: "★★", notes: "Good quality/size" });
    v.push(GgufFormat { format: "Q5_K_S", bpw_milli: 5500, size_7b_milli: 5100, family: "K-Quant", path: FormatPath::Gpu(GpuPath::CublasF32), rating: "★★", notes: "" });
    v.push(GgufFormat { format: "Q4_K_M", bpw_milli: 4800, size_7b_milli: 4500, family: "K-Quant", path: FormatPath::Gpu(GpuPath::Dp4a), rating: "★★★★★", notes: "← MAIN RECOMMENDATION" });
    v.push(GgufFormat { format: "Q4_K_S", bpw_milli: 4400, size_7b_milli: 4100, family: "K-Quant", path: FormatPath::Gpu(GpuPath::Dp4a), rating: "★★★★", notes: "" });
    v.push(GgufFormat { format: "Q3_K_L", bpw_milli: 4000, size_7b_milli: 3800, family: "K-Quant", path: FormatPath::Gpu(GpuPath::CublasF32), rating: "★★", notes: "Mixed Q3+Q4 layers" });
    v.push(GgufFormat { format: "Q3_K_M", bpw_milli: 3740, size_7b_milli: 3500, family: "K-Quant", path: FormatPath::Gpu(GpuPath::CublasF32), rating: "★★", notes: "" });
    v.push(GgufFormat { format: "Q3_K_S", bpw_milli: 3410, size_7b_milli: 3200, family: "K-Quant", path: FormatPath::Gpu(GpuPath::CublasF32), rating: "★★", notes: "" });
    v.push(GgufFormat { format: "Q2_K", bpw_milli: 2630, size_7b_milli: 2500, family: "K-Quant", path: FormatPath::Gpu(GpuPath::CublasF32), rating: "★", notes: "Bad quality, use IQ2_M" });
    v.push(GgufFormat { format: "Q2_K_S", bpw_milli: 2630, size_7b_milli: 2500, family: "K-Quant", path: FormatPath::Gpu(GpuPath::CublasF32), rating: "★", notes: "Slightly better Q2_K" });
    v.push(GgufFormat { format: "IQ4_XS", bpw_milli: 4250, size_7b_milli: 4000, family: "I-Quant", path: FormatPath::Gpu(GpuPath::Dp4a), rating: "★★★★★", notes: "← Pareto★ (needs imatrix)" });
    v.push(GgufFormat { format: "IQ4_NL", bpw_milli: 4500, size_7b_milli: 4200, family: "I-Quant", path: FormatPath::Gpu(GpuPath::Dp4a), rating: "★★★★", notes: "Non-linear LUT, fast" });
    v.push(GgufFormat { format: "IQ3_M", bpw_milli: 3660, size_7b_milli: 3400, family: "I-Quant", path: FormatPath::Gpu(GpuPath::CublasF32), rating: "★★", notes: "3-bit Pareto" });
    v.push(GgufFormat { format: "IQ3_S", bpw_milli: 3440, size_7b_milli: 3200, family: "I-Quant", path: FormatPath::Gpu(GpuPath::CublasF32), rating: "★★", notes: "" });
    v.push(GgufFormat { format: "IQ3_XS", bpw_milli: 3300, size_7b_milli: 3100, family: "I-Quant", path: FormatPath::Gpu(GpuPath::CublasF32), rating: "★★", notes: "" });
    v.push(GgufFormat { format: "IQ3_XXS", bpw_milli: 3060, size_7b_milli: 2900, family: "I-Quant", path: FormatPath::Gpu(GpuPath::CublasF32), rating: "★★", notes: "" });
    v.push(GgufFormat { format: "IQ2_M", bpw_milli: 2700, size_7b_milli: 2500, family: "I-Quant", path: FormatPath::Gpu(GpuPath::CublasF32), rating: "★★", notes: "Best 2-bit on GPU" });
    v.push(GgufFormat { format: "IQ2_S", bpw_milli: 2500, size_7b_milli: 2300, family: "I-Quant", path: FormatPath::Gpu(GpuPath::CublasF32), rating: "★★", notes: "" });
    v.push(GgufFormat { format: "IQ2_XS", bpw_milli: 2310, size_7b_milli: 2200, family: "I-Quant", path: FormatPath::Gpu(GpuPath::CublasF32), rating: "★★", notes: "" });
    v.push(GgufFormat { format: "IQ2_XXS", bpw_milli: 2060, size_7b_milli: 1900, family: "I-Quant", path: FormatPath::Gpu(GpuPath::CublasF32), rating: "★", notes: "" });
    v.push(GgufFormat { format: "IQ1_M", bpw_milli: 1750, size_7b_milli: 1600, family: "I-Quant", path: FormatPath::Gpu(GpuPath::Fp32Gemv), rating: "★", notes: "No CUDA MMQ kernel" });
    v.push(GgufFormat { format: "IQ1_S", bpw_milli: 1560, size_7b_milli: 1500, family: "I-Quant", path: FormatPath::Gpu(GpuPath::Fp32Gemv), rating: "★", notes: "No CUDA MMQ kernel" });
    v.push(GgufFormat { format: "TQ2_0", bpw_milli: 2060, size_7b_milli: 1900, family: "Ternary", path: FormatPath::Gpu(GpuPath::Fp32Gemv), rating: "★", notes: "Ternary {-1,0,+1} GPU slow" });
    v.push(GgufFormat { format: "TQ1_0", bpw_milli: 1690, size_7b_milli: 1600, family: "Ternary", path: FormatPath::Gpu(GpuPath::Fp32Gemv), rating: "★", notes: "Ternary packed, GPU slow" });
    v.push(GgufFormat { format: "turbo4", bpw_milli: 4000, size_7b_milli: 3800, family: "TurboQ", path: FormatPath::Dp4aTq41s, rating: "★★★", notes: "KV-cache only, 3.5x fast" });
    v.push(GgufFormat { format: "turbo3", bpw_milli: 3000, size_7b_milli: 2800, family: "TurboQ", path: FormatPath::Fp32Dequant, rating: "★★", notes: "KV-cache only" });
    v.push(GgufFormat { format: "turbo2", bpw_milli: 2000, size_7b_milli: 1900, family: "TurboQ", path: FormatPath::Fp32Dequant, rating: "★", notes: "KV-cache only, long ctx" });
    assert(v@ =~= gguf_formats());
    v
}

/// The note of a row in the report's GGUF table: fixed, or chosen by whether
/// the card has at least `min_vram_milli` thousandths of a GB.
#[derive(Debug, Clone, Copy)]
pub enum RowNote {
    Always(&'static str),
    ByVram { min_vram_milli: u32, enough: &'static str, short: &'static str },
}

impl RowNote {
    /// The note to print, given whether the card's memory reaches the row's
    /// threshold (a fixed note ignores it).
    pub fn resolve(&self, vram_reaches: bool) -> (r: &'static str)
        ensures
            r == match *self {
                RowNote::Always(s) => s,
                RowNote::ByVram { enough, short, .. } => if vram_reaches { enough } else { short },
            },
    {
        match self {
            RowNote::Always(s) => s,
            RowNote::ByVram { enough, short, .. } => if vram_reaches { enough } else { short },
        }
    }
}

/// One row of the report's token-rate table. Decimal quantities are held in
/// thousandths.
#[derive(Debug, Clone, Copy)]
pub struct GgufRateRow {
    pub format: &'static str,
    pub bpw_milli: u32,
    pub size_7b_milli: u32,
    pub path: GpuPath,
    pub note: RowNote,
}

/// The formats whose token rate the full report estimates, in printed order.
pub open spec fn gguf_rate_rows() -> Seq<GgufRateRow> {
    seq![
        GgufRateRow { format: "Q8_0", bpw_milli: 8500, size_7b_milli: 8000, path: GpuPath::Dp4a, note: RowNote::ByVram { min_vram_milli: 10000, enough: "✅ fits", short: "⚠️ tight" } },
        GgufRateRow { format: "Q6_K", bpw_milli: 6600, size_7b_milli: 6100, path: GpuPath::CublasF32, note: RowNote::ByVram { min_vram_milli: 7500, enough: "✅", short: "⚠️ tight" } },
        GgufRateRow { format: "Q5_K_M", bpw_milli: 5700, size_7b_milli: 5300, path: GpuPath::CublasF32, note: RowNote::Always("✅") },
        GgufRateRow { format: "IQ4_XS", bpw_milli: 4250, size_7b_milli: 4000, path: GpuPath::Dp4a, note: RowNote::Always("✅ Pareto★ (needs imatrix)") },
        GgufRateRow { format: "Q4_K_M", bpw_milli: 4800, size_7b_milli: 4500, path: GpuPath::Dp4a, note: RowNote::Always("✅ Main recommendation") },
        GgufRateRow { format: "IQ4_NL", bpw_milli: 4500, size_7b_milli: 4200, path: GpuPath::Dp4a, note: RowNote::Always("✅") },
        GgufRateRow { format: "IQ3_M", bpw_milli: 3660, size_7b_milli: 3400, path: GpuPath::CublasF32, note: RowNote::Always("✅ 3-bit Pareto") },
        GgufRateRow { format: "IQ2_M", bpw_milli: 2700, size_7b_milli: 2500, path: GpuPath::CublasF32, note: RowNote::Always("⚠️ last resort quality") },
        GgufRateRow { format: "TQ2_0", bpw_milli: 2060, size_7b_milli: 1900, path: GpuPath::Fp32Gemv, note: RowNote::Always("❌ no GPU kernel, CPU faster") },
        GgufRateRow { format: "IQ1_M", bpw_milli: 1750, size_7b_milli: 1600, path: GpuPath::Fp32Gemv, note: RowNote::Always("❌ severe quality loss") },
    ]
}

/// The formats whose token rate the full report estimates, in printed order.
pub fn gguf_rate_table() -> (v: Vec<GgufRateRow>)
    ensures
        v@ == gguf_rate_rows(),
{
    let mut v: Vec<GgufRateRow> = Vec::new();
    v.push(GgufRateRow { format: "Q8_0", bpw_milli: 8500, size_7b_milli: 8000, path: GpuPath::Dp4a, note: RowNote::ByVram { min_vram_milli: 10000, enough: "✅ fits", short: "⚠️ tight" } });
    v.push(GgufRateRow { format: "Q6_K", bpw_milli: 6600, size_7b_milli: 6100, path: GpuPath::CublasF32, note: RowNote::ByVram { min_vram_milli: 7500, enough: "✅", short: "⚠️ tight" } });
    v.push(GgufRateRow { format: "Q5_K_M", bpw_milli: 5700, size_7b_milli: 5300, path: GpuPath::CublasF32, note: RowNote::Always("✅") });
    v.push(GgufRateRow { format: "IQ4_XS", bpw_milli: 4250, size_7b_milli: 4000, path: GpuPath::Dp4a, note: RowNote::Always("✅ Pareto★ (needs imatrix)") });
    v.push(GgufRateRow { format: "Q4_K_M", bpw_milli: 4800, size_7b_milli: 4500, path: GpuPath::Dp4a, note: RowNote::Always("✅ Main recommendation") });
    v.push(GgufRateRow { format: "IQ4_NL", bpw_milli: 4500, size_7b_milli: 4200, path: GpuPath::Dp4a, note: RowNote::Always("✅") });
    v.push(GgufRateRow { format: "IQ3_M", bpw_milli: 3660, size_7b_milli: 3400, path: GpuPath::CublasF32, note: RowNote::Always("✅ 3-bit Pareto") });
    v.push(GgufRateRow { format: "IQ2_M", bpw_milli: 2700, size_7b_milli: 2500, path: GpuPath::CublasF32, note: RowNote::Always("⚠️ last resort quality") });
    v.push(GgufRateRow { format: "TQ2_0", bpw_milli: 2060, size_7b_milli: 1900, path: GpuPath::Fp32Gemv, note: RowNote::Always("❌ no GPU kernel, CPU faster") });
    v.push(GgufRateRow { format: "IQ1_M", bpw_milli: 1750, size_7b_milli: 1600, path: GpuPath::Fp32Gemv, note: RowNote::Always("❌ severe quality loss") });
    assert(v@ =~= gguf_rate_rows());
    v
}

/// The format table lists `format` with these bits per weight, this 7B size and
/// this plain GPU path.
pub open spec fn listed_with(format: Seq<char>, bpw_milli: u32, size_7b_milli: u32, path: GpuPath) -> bool {
    exists|j: int|
        0 <= j < gguf_formats().len() && (#[trigger] gguf_formats()[j]).format@ == format
            && gguf_formats()[j].bpw_milli == bpw_milli && gguf_formats()[j].size_7b_milli
            == size_7b_milli && gguf_formats()[j].path == FormatPath::Gpu(path)
}

/// Every format that the advisor recommends stands in the format table with
/// the same bits per weight, size and GPU path.
pub proof fn lemma_candidates_agree_with_table()
    ensures
        forall|i: int|
            0 <= i < gguf_candidates().len() ==> {
                let c = #[trigger] gguf_candidates()[i];
                listed_with(c.format@, c.bpw_milli, c.size_7b_milli, c.path)
            },
{
    let f = gguf_formats();
    let c = gguf_candidates();
    assert(listed_with(c[0].format@, c[0].bpw_milli, c[0].size_7b_milli, c[0].path)) by { assert(f[3].format@ == c[0].format@); }
    assert(listed_with(c[1].format@, c[1].bpw_milli, c[1].size_7b_milli, c[1].path)) by { assert(f[8].format@ == c[1].format@); }
    assert(listed_with(c[2].format@, c[2].bpw_milli, c[2].size_7b_milli, c[2].path)) by { assert(f[9].format@ == c[2].format@); }
    assert(listed_with(c[3].format@, c[3].bpw_milli, c[3].size_7b_milli, c[3].path)) by { assert(f[18].format@ == c[3].format@); }
    assert(listed_with(c[4].format@, c[4].bpw_milli, c[4].size_7b_milli, c[4].path)) by { assert(f[11].format@ == c[4].format@); }
    assert(listed_with(c[5].format@, c[5].bpw_milli, c[5].size_7b_milli, c[5].path)) by { assert(f[19].format@ == c[5].format@); }
    assert(listed_with(c[6].format@, c[6].bpw_milli, c[6].size_7b_milli, c[6].path)) by { assert(f[12].format@ == c[6].format@); }
    assert(listed_with(c[7].format@, c[7].bpw_milli, c[7].size_7b_milli, c[7].path)) by { assert(f[20].format@ == c[7].format@); }
    assert(listed_with(c[8].format@, c[8].bpw_milli, c[8].size_7b_milli, c[8].path)) by { assert(f[14].format@ == c[8].format@); }
    assert(listed_with(c[9].format@, c[9].bpw_milli, c[9].size_7b_milli, c[9].path)) by { assert(f[24].format@ == c[9].format@); }
}

/// Every row of the report's token-rate table stands in the format table with
/// the same bits per weight, size and GPU path.
pub proof fn lemma_rate_rows_agree_with_table()
    ensures
        forall|i: int|
            0 <= i < gguf_rate_rows().len() ==> {
                let r = #[trigger] gguf_rate_rows()[i];
                listed_with(r.format@, r.bpw_milli, r.size_7b_milli, r.path)
            },
{
    let f = gguf_formats();
    let c = gguf_rate_rows();
    assert(listed_with(c[0].format@, c[0].bpw_milli, c[0].size_7b_milli, c[0].path)) by { assert(f[3].format@ == c[0].format@); }
    assert(listed_with(c[1].format@, c[1].bpw_milli, c[1].size_7b_milli, c[1].path)) by { assert(f[8].format@ == c[1].format@); }
    assert(listed_with(c[2].format@, c[2].bpw_milli, c[2].size_7b_milli, c[2].path)) by { assert(f[9].format@ == c[2].format@); }
    assert(listed_with(c[3].format@, c[3].bpw_milli, c[3].size_7b_milli, c[3].path)) by { assert(f[18].format@ == c[3].format@); }
    assert(listed_with(c[4].format@, c[4].bpw_milli, c[4].size_7b_milli, c[4].path)) by { assert(f[11].format@ == c[4].format@); }
    assert(listed_with(c[5].format@, c[5].bpw_milli, c[5].size_7b_milli, c[5].path)) by { assert(f[19].format@ == c[5].format@); }
    assert(listed_with(c[6].format@, c[6].bpw_milli, c[6].size_7b_milli, c[6].path)) by { assert(f[20].format@ == c[6].format@); }
    assert(listed_with(c[7].format@, c[7].bpw_milli, c[7].size_7b_milli, c[7].path)) by { assert(f[24].format@ == c[7].format@); }
    assert(listed_with(c[8].format@, c[8].bpw_milli, c[8].size_7b_milli, c[8].path)) by { assert(f[30].format@ == c[8].format@); }
    assert(listed_with(c[9].format@, c[9].bpw_milli, c[9].size_7b_milli, c[9].path)) by { assert(f[28].format@ == c[9].format@); }
}

/// The formats that the GGUF advice tells to avoid on Pascal and Turing, one
/// printed line each.
pub open spec fn avoid_list() -> Seq<&'static str> {
    seq![
        "     BF16     — not supported (requires SM≥8.0 / Ampere)",
        "     TF32     — not supported (requires SM≥8.0)",
        "     FP8      — not supported (requires SM≥8.9 / Ada)",
        "     Q4_1/Q5_1 — legacy, no dp4a MMQ path, worse than K-quants",
        "     Q2_K     — use IQ2_M instead (better quality same size)",
        "     IQ1_S    — no CUDA kernel, CPU-only, severe quality degradation",
        "     TQ1_0    — ternary, no GPU kernel (FP32 GEMV), GPU slow",
    ]
}

/// The formats that the GGUF advice tells to avoid on Pascal and Turing, one
/// printed line each.
pub fn avoid_lines() -> (v: Vec<&'static str>)
    ensures
        v@ == avoid_list(),
{
    let mut v: Vec<&'static str> = Vec::new();
    v.push("     BF16     — not supported (requires SM≥8.0 / Ampere)");
    v.push("     TF32     — not supported (requires SM≥8.0)");
    v.push("     FP8      — not supported (requires SM≥8.9 / Ada)");
    v.push("     Q4_1/Q5_1 — legacy, no dp4a MMQ path, worse than K-quants");
    v.push("     Q2_K     — use IQ2_M instead (better quality same size)");
    v.push("     IQ1_S    — no CUDA kernel, CPU-only, severe quality degradation");
    v.push("     TQ1_0    — ternary, no GPU kernel (FP32 GEMV), GPU slow");
    assert(v@ =~= avoid_list());
    v
}

} // verus!
