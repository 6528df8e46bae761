use esedb::util::{
    bytes_to_wide, u16_from_bytes, u16_to_bytes, u32_from_bytes, u32_to_bytes, u64_from_bytes,
    u64_to_bytes, wide_to_bytes,
};

#[test]
fn test_u32_little_endian_packing() {
    assert_eq!(vec![0x04u8, 0x03, 0x02, 0x01], u32_to_bytes(0x01020304));
    assert_eq!(Some(0x01020304), u32_from_bytes(&[0x04, 0x03, 0x02, 0x01]));
}

#[test]
fn test_u32_width_mismatch_rejected() {
    assert_eq!(None, u32_from_bytes(&[1, 2, 3]));
    assert_eq!(None, u32_from_bytes(&[1, 2, 3, 4, 5]));
    assert_eq!(None, u32_from_bytes(&[]));
}

#[test]
fn test_u16_round_trip() {
    assert_eq!(vec![0xCDu8, 0xAB], u16_to_bytes(0xABCD));
    assert_eq!(Some(0xABCD), u16_from_bytes(&[0xCD, 0xAB]));
    assert_eq!(None, u16_from_bytes(&[0xCD]));
}

#[test]
fn test_u64_round_trip() {
    let v = 0x0102030405060708u64;
    let b = u64_to_bytes(v);
    assert_eq!(vec![8u8, 7, 6, 5, 4, 3, 2, 1], b);
    assert_eq!(Some(v), u64_from_bytes(&b));
    assert_eq!(None, u64_from_bytes(&[0; 7]));
}

#[test]
fn test_wide_slice_packing() {
    assert_eq!(vec![0x02u8, 0x01, 0x04, 0x03], wide_to_bytes(&[0x0102, 0x0304]));
    assert_eq!(Vec::<u8>::new(), wide_to_bytes(&[]));
}

#[test]
fn test_bytes_to_wide_divisibility() {
    assert_eq!(Some(vec![0x0102u16, 0x0304]), bytes_to_wide(&[0x02, 0x01, 0x04, 0x03]));
    assert_eq!(Some(Vec::<u16>::new()), bytes_to_wide(&[]));
    // An odd-length buffer is rejected, never silently truncated.
    assert_eq!(None, bytes_to_wide(&[0x02, 0x01, 0x04]));
}

#[test]
fn test_wide_round_trip() {
    let units: Vec<u16> = vec![0, 1, 255, 256, 0xFFFF, 0x1234];
    let bytes = wide_to_bytes(&units);
    assert_eq!(Some(units), bytes_to_wide(&bytes));
}
