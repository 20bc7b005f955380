use nbenchmark::cuda::{check_device, cu_error_text, device_name_len, hex8, DeviceError};

#[test]
fn hex_digits() {
    assert_eq!(hex8(0), "00000000");
    assert_eq!(hex8(0x2BC), "000002BC");
    assert_eq!(hex8(u32::MAX), "FFFFFFFF");
    let s: String = hex8(0xDEADBEEF);
    assert_eq!(s, format!("{:08X}", 0xDEADBEEFu32));
    assert_eq!(u32::from_str_radix(&s, 16).unwrap(), 0xDEADBEEF);
}

#[test]
fn error_text_with_names() {
    assert_eq!(
        cu_error_text(2, Some("CUDA_ERROR_OUT_OF_MEMORY"), Some("out of memory")),
        "CUDA_ERROR_OUT_OF_MEMORY (0x00000002): out of memory"
    );
}

#[test]
fn error_text_fallbacks() {
    assert_eq!(
        cu_error_text(0x2BC, None, None),
        "CUDA_ERROR_0x000002BC (0x000002BC): unknown CUDA error"
    );
    assert_eq!(cu_error_text(1, Some("X"), None), "X (0x00000001): unknown CUDA error");
}

#[test]
fn device_checks() {
    assert_eq!(check_device(0, 0), Err(DeviceError::NoDevices));
    assert_eq!(check_device(2, 2), Err(DeviceError::NotFound { index: 2, count: 2 }));
    assert_eq!(check_device(2, 1), Ok(1));
    assert_eq!(check_device(1, -1), Ok(-1));
}

#[test]
fn device_name_length() {
    let mut buf = vec![0u8; 256];
    buf[..8].copy_from_slice(b"CMP 50HX");
    assert_eq!(device_name_len(&buf), 8);
    assert_eq!(device_name_len(&vec![b'x'; 256]), 255);
    assert_eq!(device_name_len(&vec![0u8; 256]), 0);
}
