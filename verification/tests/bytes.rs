use dungeonctl::bytes::{from_big_endian, from_signed_byte, split, to_signed_byte};

#[test]
fn numbers_are_split_and_joined() {
    for value in [0u16, 1, 255, 256, 0x1234, 0x8000, 0xffff] {
        assert_eq!(split(value), ((value >> 8) as u8, value as u8));
        let (high, low) = split(value);
        assert_eq!(from_big_endian(high, low), i16::from_be_bytes([high, low]));
    }
}

#[test]
fn signed_bytes_round_trip() {
    for byte in 0..=255u8 {
        assert_eq!(from_signed_byte(byte), byte as i8);
        assert_eq!(to_signed_byte(from_signed_byte(byte)), byte);
    }
}
