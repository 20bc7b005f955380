use vstd::prelude::*;

verus! {

/// Result code of a CUDA driver call.
#[allow(non_camel_case_types)]
pub type CUresult = u32;

/// Status code of a cuBLAS call.
#[allow(non_camel_case_types)]
pub type cublasStatus_t = u32;

pub const CUDA_SUCCESS: u32 = 0;
pub const CUBLAS_STATUS_SUCCESS: u32 = 0;

// Operation types.
pub const CUBLAS_OP_N: u32 = 0;
pub const CUBLAS_OP_T: u32 = 1;

// Math modes.
pub const CUBLAS_DEFAULT_MATH: u32 = 0;
pub const CUBLAS_PEDANTIC_MATH: u32 = 2;
pub const CUBLAS_TF32_TENSOR_OP_MATH: u32 = 3;
pub const CUBLAS_MATH_DISALLOW_REDUCED_PRECISION_REDUCTION: u32 = 16;

// Compute types.
pub const CUBLAS_COMPUTE_16F: u32 = 64;
pub const CUBLAS_COMPUTE_16F_PEDANTIC: u32 = 65;
pub const CUBLAS_COMPUTE_32F: u32 = 68;
pub const CUBLAS_COMPUTE_32F_PEDANTIC: u32 = 69;
pub const CUBLAS_COMPUTE_32F_FAST_16F: u32 = 74;
pub const CUBLAS_COMPUTE_32F_FAST_TF32: u32 = 75;

// Data types.
pub const CUDA_R_16F: u32 = 2;
pub const CUDA_R_32F: u32 = 0;
pub const CUDA_R_8I: u32 = 3;
pub const CUDA_R_32I: u32 = 10;

// GEMM algorithms.
pub const CUBLAS_GEMM_DEFAULT: i32 = -1;
pub const CUBLAS_GEMM_ALGO0: i32 = 0;
pub const CUBLAS_GEMM_ALGO1: i32 = 1;
pub const CUBLAS_GEMM_ALGO2: i32 = 2;
pub const CUBLAS_GEMM_ALGO3: i32 = 3;
pub const CUBLAS_GEMM_DFALT_TENSOR_OP: i32 = 99;
pub const CUBLAS_GEMM_ALGO1_TENSOR_OP: i32 = 100;

// Event flags.
pub const CU_EVENT_DEFAULT: u32 = 0;
pub const CU_EVENT_BLOCKING_SYNC: u32 = 1;

// Device attributes.
pub const CU_DEVICE_ATTRIBUTE_COMPUTE_CAPABILITY_MAJOR: i32 = 75;
pub const CU_DEVICE_ATTRIBUTE_COMPUTE_CAPABILITY_MINOR: i32 = 76;
pub const CU_DEVICE_ATTRIBUTE_MULTIPROCESSOR_COUNT: i32 = 16;
pub const CU_DEVICE_ATTRIBUTE_CLOCK_RATE: i32 = 13;
pub const CU_DEVICE_ATTRIBUTE_MEMORY_CLOCK_RATE: i32 = 36;
pub const CU_DEVICE_ATTRIBUTE_GLOBAL_MEMORY_BUS_WIDTH: i32 = 37;
pub const CU_DEVICE_ATTRIBUTE_L2_CACHE_SIZE: i32 = 38;
pub const CU_DEVICE_ATTRIBUTE_MAX_THREADS_PER_BLOCK: i32 = 1;
pub const CU_DEVICE_ATTRIBUTE_WARP_SIZE: i32 = 10;

/// The upper-case hex digit of `d`, for `d < 16`.
pub open spec fn hex_digit(d: nat) -> char {
    "0123456789ABCDEF"@[d as int]
}

/// The last `count` hex digits of `v`, most significant first.
pub open spec fn hex_digits(v: nat, count: nat) -> Seq<char>
    decreases count,
{
    if count == 0 {
        Seq::empty()
    } else {
        hex_digits(v / 16, (count - 1) as nat).push(hex_digit(v % 16))
    }
}

fn hex_digits_exec(v: u32, count: u32) -> (r: String)
    ensures
        r@ == hex_digits(v as nat, count as nat),
    decreases count,
{
    if count == 0 {
        String::new()
    } else {
        let mut r = hex_digits_exec(v / 16, count - 1);
        let table = "0123456789ABCDEF";
        proof {
            reveal_strlit("0123456789ABCDEF");
        }
        let d: usize = (v % 16) as usize;
        let digit = table.substring_char(d, d + 1);
        assert(digit@ =~= seq![hex_digit((v % 16) as nat)]);
        r.append(digit);
        assert(r@ =~= hex_digits(v as nat, count as nat));
        r
    }
}

/// The eight upper-case hex digits of `v`, as `format!("{:08X}", v)` writes them.
pub fn hex8(v: u32) -> (r: String)
    ensures
        r@ == hex_digits(v as nat, 8),
{
    hex_digits_exec(v, 8)
}

/// The value of an upper-case hex digit char.
pub open spec fn digit_value(c: char) -> int {
    let x: int = c as int;
    if 48 <= x <= 57 {
        x - 48
    } else {
        x - 55
    }
}

/// The number that a string of upper-case hex digits reads as.
pub open spec fn hex_value(s: Seq<char>) -> int
    decreases s.len(),
{
    if s.len() == 0 {
        0
    } else {
        hex_value(s.drop_last()) * 16 + digit_value(s.last())
    }
}

pub open spec fn pow16(n: nat) -> int
    decreases n,
{
    if n == 0 {
        1
    } else {
        16 * pow16((n - 1) as nat)
    }
}

proof fn lemma_digit_value(d: nat)
    requires
        d < 16,
    ensures
        digit_value(hex_digit(d)) == d,
{
    reveal_strlit("0123456789ABCDEF");
    let s = "0123456789ABCDEF"@;
    assert(s[0] == '0' && s[1] == '1' && s[2] == '2' && s[3] == '3' && s[4] == '4');
    assert(s[5] == '5' && s[6] == '6' && s[7] == '7' && s[8] == '8' && s[9] == '9');
    assert(s[10] == 'A' && s[11] == 'B' && s[12] == 'C' && s[13] == 'D' && s[14] == 'E');
    assert(s[15] == 'F');
}

proof fn lemma_hex_digits_value(v: nat, count: nat)
    ensures
        pow16(count) > 0,
        hex_value(hex_digits(v, count)) == v % (pow16(count) as nat),
    decreases count,
{
    if count == 0 {
        assert(v % 1 == 0);
    } else {
        let c1 = (count - 1) as nat;
        lemma_hex_digits_value(v / 16, c1);
        lemma_digit_value(v % 16);
        let s = hex_digits(v, count);
        assert(s.drop_last() =~= hex_digits(v / 16, c1));
        vstd::arithmetic::div_mod::lemma_mod_breakdown(v as int, 16, pow16(c1));
        assert(pow16(count) == 16 * pow16(c1));
    }
}

/// Reading the eight hex digits of a code back gives the code.
pub proof fn lemma_hex8_round_trip(v: u32)
    ensures
        hex_value(hex_digits(v as nat, 8)) == v,
{
    lemma_hex_digits_value(v as nat, 8);
    reveal_with_fuel(pow16, 9);
    assert(pow16(8) == 0x1_0000_0000);
    vstd::arithmetic::div_mod::lemma_small_mod(v as nat, 0x1_0000_0000nat);
}

/// The text of a CUDA error: its name, the code in hex, and its description.
/// Where the driver gives no name, the name is `CUDA_ERROR_0x` and the code in
/// hex; where it gives no description, the description says the error is
/// unknown.
pub open spec fn cu_error_message(code: u32, name: Option<Seq<char>>, desc: Option<Seq<char>>) -> Seq<char> {
    let hex = hex_digits(code as nat, 8);
    let n = match name {
        Some(s) => s,
        None => "CUDA_ERROR_0x"@ + hex,
    };
    let d = match desc {
        Some(s) => s,
        None => "unknown CUDA error"@,
    };
    n + " (0x"@ + hex + "): "@ + d
}

/// Formats a CUDA error from what the driver reported of it (`None` where
/// `cuGetErrorName` or `cuGetErrorString` gave nothing).
pub fn cu_error_text(code: u32, name: Option<&str>, desc: Option<&str>) -> (r: String)
    ensures
        r@ == cu_error_message(
            code,
            match name {
                Some(s) => Some(s@),
                None => None,
            },
            match desc {
                Some(s) => Some(s@),
                None => None,
            },
        ),
{
    let hex = hex8(code);
    let mut out = match name {
        Some(s) => String::from_str(s),
        None => {
            let mut t = String::from_str("CUDA_ERROR_0x");
            t.append(hex.as_str());
            t
        },
    };
    out.append(" (0x");
    out.append(hex.as_str());
    out.append("): ");
    match desc {
        Some(s) => out.append(s),
        None => out.append("unknown CUDA error"),
    }
    out
}

/// Why no device can be used.
#[derive(Debug, Clone, Copy, PartialEq, Eq, Structural)]
pub enum DeviceError {
    NoDevices,
    NotFound { index: i32, count: i32 },
}

/// Checks a requested device index against the number of devices found.
pub fn check_device(count: i32, index: i32) -> (r: Result<i32, DeviceError>)
    ensures
        count == 0 ==> r == Err::<i32, DeviceError>(DeviceError::NoDevices),
        count != 0 && index >= count ==> r == Err::<i32, DeviceError>(
            DeviceError::NotFound { index, count },
        ),
        count != 0 && index < count ==> r == Ok::<i32, DeviceError>(index),
{
    if count == 0 {
        Err(DeviceError::NoDevices)
    } else if index >= count {
        Err(DeviceError::NotFound { index, count })
    } else {
        Ok(index)
    }
}

/// Length of a device name in a NUL-terminated buffer: up to the first zero
/// byte, else 255.
pub fn device_name_len(buf: &Vec<u8>) -> (r: usize)
    ensures
        (exists|i: int| 0 <= i < buf@.len() && buf@[i] == 0) ==> {
            &&& r < buf@.len()
            &&& buf@[r as int] == 0
            &&& forall|j: int| 0 <= j < r ==> buf@[j] != 0
        },
        !(exists|i: int| 0 <= i < buf@.len() && buf@[i] == 0) ==> r == 255,
{
    let mut i: usize = 0;
    while i < buf.len()
        invariant
            i <= buf@.len(),
            forall|j: int| 0 <= j < i ==> buf@[j] != 0,
        decreases buf.len() - i,
    {
        if buf[i] == 0 {
            return i;
        }
        i += 1;
    }
    255
}

} // verus!
