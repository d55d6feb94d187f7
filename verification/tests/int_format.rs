use decfmt::rust_itoa_i32;
use decfmt::rust_itoa_i64;
use decfmt::rust_itoa_u32;
use decfmt::rust_itoa_u64;
use decfmt::zmij_format_f64;
use decfmt::ITOA_BUFFER_SIZE;

fn itoa_i64_test(value: i64) -> String {
    let mut buf = vec![0u8; 40]; // longest 128-bit signed decimal text
    let len = rust_itoa_i64(value, &mut buf, false);
    assert!(len > 0, "rust_itoa_i64 failed for value: {}", value);
    String::from_utf8_lossy(&buf[..len]).into_owned()
}

fn itoa_u64_test(value: u64) -> String {
    let mut buf = vec![0u8; 40];
    let len = rust_itoa_u64(value, &mut buf, false);
    assert!(len > 0, "rust_itoa_u64 failed for value: {}", value);
    String::from_utf8_lossy(&buf[..len]).into_owned()
}

fn itoa_i32_test(value: i32) -> String {
    let mut buf = vec![0u8; 40];
    let len = rust_itoa_i32(value, &mut buf, false);
    assert!(len > 0, "rust_itoa_i32 failed for value: {}", value);
    String::from_utf8_lossy(&buf[..len]).into_owned()
}

fn itoa_u32_test(value: u32) -> String {
    let mut buf = vec![0u8; 40];
    let len = rust_itoa_u32(value, &mut buf, false);
    assert!(len > 0, "rust_itoa_u32 failed for value: {}", value);
    String::from_utf8_lossy(&buf[..len]).into_owned()
}

#[test]
fn test_itoa_i64_zero() {
    let result = itoa_i64_test(0);
    assert_eq!(result, "0");
}

#[test]
fn test_itoa_i64_positive() {
    let result = itoa_i64_test(42);
    assert_eq!(result, "42");
}

#[test]
fn test_itoa_i64_negative() {
    let result = itoa_i64_test(-42);
    assert_eq!(result, "-42");
}

#[test]
fn test_itoa_i64_large_positive() {
    let result = itoa_i64_test(9223372036854775807); // i64::MAX
    assert_eq!(result, "9223372036854775807");
}

#[test]
fn test_itoa_i64_large_negative() {
    let result = itoa_i64_test(-9223372036854775808); // i64::MIN
    assert_eq!(result, "-9223372036854775808");
}

#[test]
fn test_itoa_i64_roundtrip() {
    let values = vec![0, 1, -1, 42, -42, 1000000, -1000000];
    for value in values {
        let result = itoa_i64_test(value);
        let parsed: i64 = result.parse().expect("Should parse back to i64");
        assert_eq!(parsed, value);
    }
}

#[test]
fn test_itoa_u64_zero() {
    let result = itoa_u64_test(0);
    assert_eq!(result, "0");
}

#[test]
fn test_itoa_u64_positive() {
    let result = itoa_u64_test(42);
    assert_eq!(result, "42");
}

#[test]
fn test_itoa_u64_max() {
    let result = itoa_u64_test(18446744073709551615); // u64::MAX
    assert_eq!(result, "18446744073709551615");
}

#[test]
fn test_itoa_u64_roundtrip() {
    let values = vec![0, 1, 42, 1000000, 9999999999];
    for value in values {
        let result = itoa_u64_test(value);
        let parsed: u64 = result.parse().expect("Should parse back to u64");
        assert_eq!(parsed, value);
    }
}

#[test]
fn test_itoa_i32_zero() {
    let result = itoa_i32_test(0);
    assert_eq!(result, "0");
}

#[test]
fn test_itoa_i32_positive() {
    let result = itoa_i32_test(42);
    assert_eq!(result, "42");
}

#[test]
fn test_itoa_i32_negative() {
    let result = itoa_i32_test(-42);
    assert_eq!(result, "-42");
}

#[test]
fn test_itoa_i32_max() {
    let result = itoa_i32_test(2147483647); // i32::MAX
    assert_eq!(result, "2147483647");
}

#[test]
fn test_itoa_i32_min() {
    let result = itoa_i32_test(-2147483648); // i32::MIN
    assert_eq!(result, "-2147483648");
}

#[test]
fn test_itoa_u32_zero() {
    let result = itoa_u32_test(0);
    assert_eq!(result, "0");
}

#[test]
fn test_itoa_u32_positive() {
    let result = itoa_u32_test(42);
    assert_eq!(result, "42");
}

#[test]
fn test_itoa_u32_max() {
    let result = itoa_u32_test(4294967295); // u32::MAX
    assert_eq!(result, "4294967295");
}

#[test]
fn test_itoa_i64_output_is_valid_utf8() {
    let mut buf = vec![0u8; 25];
    let len = rust_itoa_i64(42, &mut buf, false);
    let result = std::str::from_utf8(&buf[..len]);
    assert!(result.is_ok(), "Output should be valid UTF-8");
}

#[test]
fn test_itoa_u64_output_is_valid_utf8() {
    let mut buf = vec![0u8; 25];
    let len = rust_itoa_u64(42, &mut buf, false);
    let result = std::str::from_utf8(&buf[..len]);
    assert!(result.is_ok(), "Output should be valid UTF-8");
}

#[test]
fn test_itoa_i32_null_buffer() {
    let mut buf = vec![0u8; 25];
    let len = rust_itoa_i32(42, &mut buf, true);
    assert_eq!(len, 0, "Should return 0 for null buffer");
}

#[test]
fn test_itoa_u64_null_buffer() {
    let mut buf = vec![0u8; 25];
    let len = rust_itoa_u64(42, &mut buf, true);
    assert_eq!(len, 0, "Should return 0 for null buffer");
}

#[test]
fn test_itoa_i64_zero_buffer_len() {
    let mut buf = Vec::new();
    let len = rust_itoa_i64(42, &mut buf, false);
    assert_eq!(len, 0, "Should return 0 for zero buffer length");
}

#[test]
fn test_itoa_u32_buffer_too_small() {
    let mut buf = vec![0u8; 1];
    let len = rust_itoa_u32(123456, &mut buf, false);
    // Should fail since buffer is way too small
    assert_eq!(len, 0, "Should return 0 for buffer too small");
}

#[test]
fn test_itoa_i64_no_overflow() {
    // Nothing past the written bytes of a 40-byte destination moves.
    let mut buf = vec![0xAAu8; 40];
    let len = rust_itoa_i64(42, &mut buf, false);
    assert!(len > 0 && len <= 40);
    assert_eq!(buf.len(), 40);
    assert!(
        buf[len..].iter().all(|&b| b == 0xAA),
        "Buffer after output was modified"
    );
}

#[test]
fn test_library_contains_both_wrappers() {
    // Both number families can be formatted through the same library.

    // Integer path
    let mut int_buf = vec![0u8; 40];
    let int_len = rust_itoa_i64(42, &mut int_buf, false);
    assert!(int_len > 0);

    // Float path
    let mut float_buf = vec![0u8; 24];
    let mut b = zmij::Buffer::new();
    let digits = b.format_finite(3.14f64).as_bytes().to_vec();
    let float_len = zmij_format_f64(3.14f64.to_bits(), &digits, &mut float_buf, false);
    assert!(float_len > 0);

    // Both should have produced output
    assert!(int_len > 0 && float_len > 0);
}

#[test]
fn test_buffer_sizes_and_alignment() {
    println!("itoa::Buffer size: {}", std::mem::size_of::<itoa::Buffer>());
    println!("itoa::Buffer align: {}", std::mem::align_of::<itoa::Buffer>());
    println!("ITOA_BUFFER_SIZE constant: {}", ITOA_BUFFER_SIZE);
}
