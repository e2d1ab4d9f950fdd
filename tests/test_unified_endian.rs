use libairx::endian::UnifiedEndian;

#[test]
fn test_unified_endian_test_unified_endian() {
    // Test u16
    let n: u16 = 0x1234;
    let bytes = n.to_bytes();
    assert_eq!(bytes, [0x34, 0x12]);
    let m = u16::from_bytes(bytes);
    assert_eq!(n, m);

    // Test u32
    let n: u32 = 0x12345678;
    let bytes = n.to_bytes();
    assert_eq!(bytes, [0x78, 0x56, 0x34, 0x12]);
    let m = u32::from_bytes(bytes);
    assert_eq!(n, m);

    // Test i16
    let n: i16 = -0x1234;
    let bytes = n.to_bytes();
    assert_eq!(bytes, [0xcc, 0xed]);
    let m = i16::from_bytes(bytes);
    assert_eq!(n, m);

    // Test i32
    let n: i32 = -0x12345678;
    let bytes = n.to_bytes();
    assert_eq!(bytes, [0x88, 0xa9, 0xcb, 0xed]);
    let m = i32::from_bytes(bytes);
    assert_eq!(n, m);
}

#[test]
fn endian_u64_and_i64_are_little_endian() {
    let n: u64 = 0x0102_0304_0506_0708;
    assert_eq!(n.to_bytes(), [8, 7, 6, 5, 4, 3, 2, 1]);
    assert_eq!(u64::from_bytes([8, 7, 6, 5, 4, 3, 2, 1]), n);
    let m: i64 = -2;
    assert_eq!(m.to_bytes(), [0xfe, 0xff, 0xff, 0xff, 0xff, 0xff, 0xff, 0xff]);
    assert_eq!(i64::from_bytes(m.to_bytes()), -2);
    assert_eq!(u16::from_bytes([0x34, 0x12]), 0x1234);
}
