use vstd::prelude::*;
use crate::ptx::{PtxKind, ptx_bench};

verus! {

/// The commands of the benchmark tool.
#[derive(Debug, Clone, Copy, PartialEq, Eq, Structural)]
pub enum Command {
    Fp32,
    Fp32Fma,
    Fp64,
    F16,
    F16Fma,
    Int8,
    Int4,
    Int32,
    Bitwise,
    AllPtx,
    FmaCompare,
    CublasProbe,
    WmmaProbe,
    CmpDetect,
    GgufTable,
    GpuTable,
    FullReport,
}

/// WMMA calls per Tensor Core benchmark.
pub const WMMA_ITERS: u32 = 10000;

/// Matrix size of the quick cuBLAS probe in the CMP detector.
pub const CMP_PROBE_M: i32 = 2048;

/// GEMM iterations of the quick cuBLAS probe in the CMP detector.
pub const CMP_PROBE_ITERS: u32 = 10;

/// Probe results that the CMP detector prints.
pub const CMP_PROBE_SHOWN: usize = 3;

/// The grid benchmarks that a single-benchmark command runs, in order.
pub open spec fn command_benches(c: Command) -> Seq<PtxKind> {
    match c {
        Command::Fp32 => seq![PtxKind::Fp32MulAdd],
        Command::Fp32Fma => seq![PtxKind::Fp32Fma],
        Command::Fp64 => seq![PtxKind::Fp64MulAdd],
        Command::F16 => seq![PtxKind::Fp16MulAdd],
        Command::F16Fma => seq![PtxKind::Fp16Fma],
        Command::Int8 => seq![PtxKind::Int8S8S8, PtxKind::Int8U8U8, PtxKind::Int8S8U8],
        Command::Int4 => seq![PtxKind::Int4ViaDp4a],
        Command::Int32 => seq![PtxKind::Int32Mad],
        Command::Bitwise => seq![PtxKind::BitwiseXnor],
        _ => Seq::empty(),
    }
}

impl Command {
    /// The two table commands print from the built-in tables and touch no GPU;
    /// every other command first opens a CUDA device.
    pub fn needs_device(&self) -> (r: bool)
        ensures
            r == !(*self == Command::GgufTable || *self == Command::GpuTable),
    {
        match self {
            Command::GgufTable | Command::GpuTable => false,
            _ => true,
        }
    }

    /// The grid benchmarks that this command runs on its own, in order (none for
    /// the commands that run a suite, a probe or a report).
    pub fn single_benches(&self) -> (v: Vec<PtxKind>)
        ensures
            v@ == command_benches(*self),
    {
        let mut v: Vec<PtxKind> = Vec::new();
        match self {
            Command::Fp32 => v.push(PtxKind::Fp32MulAdd),
            Command::Fp32Fma => v.push(PtxKind::Fp32Fma),
            Command::Fp64 => v.push(PtxKind::Fp64MulAdd),
            Command::F16 => v.push(PtxKind::Fp16MulAdd),
            Command::F16Fma => v.push(PtxKind::Fp16Fma),
            Command::Int8 => {
                v.push(PtxKind::Int8S8S8);
                v.push(PtxKind::Int8U8U8);
                v.push(PtxKind::Int8S8U8);
            },
            Command::Int4 => v.push(PtxKind::Int4ViaDp4a),
            Command::Int32 => v.push(PtxKind::Int32Mad),
            Command::Bitwise => v.push(PtxKind::BitwiseXnor),
            _ => {},
        }
        assert(v@ =~= command_benches(*self));
        v
    }
}

/// The precision family of a single-benchmark command, as its kernels spell it.
pub open spec fn command_precision(c: Command) -> Seq<char> {
    match c {
        Command::Fp32 | Command::Fp32Fma => "fp32"@,
        Command::Fp64 => "fp64"@,
        Command::F16 | Command::F16Fma => "fp16"@,
        Command::Int8 => "int8"@,
        Command::Int4 => "int4"@,
        Command::Int32 => "int32"@,
        Command::Bitwise => "bitwise"@,
        _ => Seq::empty(),
    }
}

/// The command measures fused multiply-add.
pub open spec fn command_is_fma(c: Command) -> bool {
    c == Command::Fp32Fma || c == Command::F16Fma
}

/// `s` begins with the word `w`, followed by an underscore.
pub open spec fn starts_with_word(s: Seq<char>, w: Seq<char>) -> bool {
    s.len() > w.len() && s.subrange(0, w.len() as int) == w && s[w.len() as int] == '_'
}

/// `s` ends in `_fma`.
pub open spec fn ends_with_fma(s: Seq<char>) -> bool {
    s.len() >= 4 && s.subrange(s.len() - 4, s.len() as int) == "_fma"@
}

/// The command whose own benchmark a kind is.
spec fn owning_command(k: PtxKind) -> Command {
    match k {
        PtxKind::Fp32MulAdd => Command::Fp32,
        PtxKind::Fp32Fma => Command::Fp32Fma,
        PtxKind::Fp64MulAdd => Command::Fp64,
        PtxKind::Fp16MulAdd => Command::F16,
        PtxKind::Fp16Fma => Command::F16Fma,
        PtxKind::Int8S8S8 | PtxKind::Int8U8U8 | PtxKind::Int8S8U8 => Command::Int8,
        PtxKind::Int4ViaDp4a => Command::Int4,
        PtxKind::Int32Mad => Command::Int32,
        PtxKind::BitwiseXnor => Command::Bitwise,
    }
}

proof fn lemma_kernel_family(k: PtxKind)
    ensures
        starts_with_word(ptx_bench(k).kernel@, command_precision(owning_command(k))),
        ends_with_fma(ptx_bench(k).kernel@) == command_is_fma(owning_command(k)),
{
    reveal_strlit("fp32_muladd");
    reveal_strlit("fp32_fma");
    reveal_strlit("fp64_muladd");
    reveal_strlit("fp16_muladd");
    reveal_strlit("fp16_fma");
    reveal_strlit("int8_dp4a_s8s8");
    reveal_strlit("int8_dp4a_u8u8");
    reveal_strlit("int8_dp4a_s8u8");
    reveal_strlit("int4_via_dp4a");
    reveal_strlit("bitwise_xnor_popc");
    reveal_strlit("int32_mad");
    reveal_strlit("bitwise");
    reveal_strlit("fp16");
    reveal_strlit("fp32");
    reveal_strlit("fp64");
    reveal_strlit("int32");
    reveal_strlit("int4");
    reveal_strlit("int8");
    reveal_strlit("_fma");
    if k == PtxKind::Fp32MulAdd {
        let s = ptx_bench(k).kernel@;
        assert(s.subrange(0, 4) =~= "fp32"@);
        assert(s[4] == '_');
        assert(s.subrange(s.len() - 4, s.len() as int)[1] != "_fma"@[1] || s.subrange(s.len() - 4, s.len() as int)[3] != "_fma"@[3]);
    }
    if k == PtxKind::Fp32Fma {
        let s = ptx_bench(k).kernel@;
        assert(s.subrange(0, 4) =~= "fp32"@);
        assert(s[4] == '_');
        assert(s.subrange(s.len() - 4, s.len() as int) =~= "_fma"@);
    }
    if k == PtxKind::Fp64MulAdd {
        let s = ptx_bench(k).kernel@;
        assert(s.subrange(0, 4) =~= "fp64"@);
        assert(s[4] == '_');
        assert(s.subrange(s.len() - 4, s.len() as int)[1] != "_fma"@[1] || s.subrange(s.len() - 4, s.len() as int)[3] != "_fma"@[3]);
    }
    if k == PtxKind::Fp16MulAdd {
        let s = ptx_bench(k).kernel@;
        assert(s.subrange(0, 4) =~= "fp16"@);
        assert(s[4] == '_');
        assert(s.subrange(s.len() - 4, s.len() as int)[1] != "_fma"@[1] || s.subrange(s.len() - 4, s.len() as int)[3] != "_fma"@[3]);
    }
    if k == PtxKind::Fp16Fma {
        let s = ptx_bench(k).kernel@;
        assert(s.subrange(0, 4) =~= "fp16"@);
        assert(s[4] == '_');
        assert(s.subrange(s.len() - 4, s.len() as int) =~= "_fma"@);
    }
    if k == PtxKind::Int8S8S8 {
        let s = ptx_bench(k).kernel@;
        assert(s.subrange(0, 4) =~= "int8"@);
        assert(s[4] == '_');
        assert(s.subrange(s.len() - 4, s.len() as int)[1] != "_fma"@[1] || s.subrange(s.len() - 4, s.len() as int)[3] != "_fma"@[3]);
    }
    if k == PtxKind::Int8U8U8 {
        let s = ptx_bench(k).kernel@;
        assert(s.subrange(0, 4) =~= "int8"@);
        assert(s[4] == '_');
        assert(s.subrange(s.len() - 4, s.len() as int)[1] != "_fma"@[1] || s.subrange(s.len() - 4, s.len() as int)[3] != "_fma"@[3]);
    }
    if k == PtxKind::Int8S8U8 {
        let s = ptx_bench(k).kernel@;
        assert(s.subrange(0, 4) =~= "int8"@);
        assert(s[4] == '_');
        assert(s.subrange(s.len() - 4, s.len() as int)[1] != "_fma"@[1] || s.subrange(s.len() - 4, s.len() as int)[3] != "_fma"@[3]);
    }
    if k == PtxKind::Int4ViaDp4a {
        let s = ptx_bench(k).kernel@;
        assert(s.subrange(0, 4) =~= "int4"@);
        assert(s[4] == '_');
        assert(s.subrange(s.len() - 4, s.len() as int)[1] != "_fma"@[1] || s.subrange(s.len() - 4, s.len() as int)[3] != "_fma"@[3]);
    }
    if k == PtxKind::BitwiseXnor {
        let s = ptx_bench(k).kernel@;
        assert(s.subrange(0, 7) =~= "bitwise"@);
        assert(s[7] == '_');
        assert(s.subrange(s.len() - 4, s.len() as int)[1] != "_fma"@[1] || s.subrange(s.len() - 4, s.len() as int)[3] != "_fma"@[3]);
    }
    if k == PtxKind::Int32Mad {
        let s = ptx_bench(k).kernel@;
        assert(s.subrange(0, 5) =~= "int32"@);
        assert(s[5] == '_');
        assert(s.subrange(s.len() - 4, s.len() as int)[1] != "_fma"@[1] || s.subrange(s.len() - 4, s.len() as int)[3] != "_fma"@[3]);
    }
}

proof fn lemma_runs_only_own(c: Command, k: PtxKind)
    requires
        command_benches(c).contains(k),
    ensures
        c == owning_command(k),
{
    let s = command_benches(c);
    let i: int = choose|i: int| 0 <= i < s.len() && s[i] == k;
    assert(s[i] == k);
}

/// Each single-benchmark command runs the benchmarks it is named for: kernels of
/// its precision family, fused multiply-add exactly for the FMA commands, no
/// benchmark twice; every grid benchmark is run by exactly one such command.
pub proof fn lemma_single_benches_are_their_commands(c: Command, other: Command, k: PtxKind)
    ensures
        command_benches(c).no_duplicates(),
        command_benches(c).contains(k) ==> starts_with_word(
            ptx_bench(k).kernel@,
            command_precision(c),
        ),
        command_benches(c).contains(k) ==> ends_with_fma(ptx_bench(k).kernel@) == command_is_fma(c),
        command_benches(c).contains(k) && command_benches(other).contains(k) ==> c == other,
        exists|d: Command| #[trigger] command_benches(d).contains(k),
{
    lemma_kernel_family(k);
    if command_benches(c).contains(k) {
        lemma_runs_only_own(c, k);
    }
    if command_benches(other).contains(k) {
        lemma_runs_only_own(other, k);
    }
    let d = owning_command(k);
    if d == Command::Int8 {
        assert(command_benches(d)[0] == PtxKind::Int8S8S8);
        assert(command_benches(d)[1] == PtxKind::Int8U8U8);
        assert(command_benches(d)[2] == PtxKind::Int8S8U8);
    } else {
        assert(command_benches(d)[0] == k);
    }
    assert(command_benches(d).contains(k));
}

} // verus!
