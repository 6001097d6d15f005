use sc_core::codec::i16_bits;
use sc_core::codec::i16_of_bits;
use sc_core::codec::i32_bits;
use sc_core::codec::i32_of_bits;
use sc_core::codec::read_string;
use sc_core::codec::read_u16;
use sc_core::codec::read_u32;
use sc_core::codec::write_string;
use sc_core::codec::write_u16;
use sc_core::codec::write_u32;
use sc_core::codec::DecodeError;

#[test]
fn u16_round_trips_boundaries() {
    for x in [0u16, 1, 255, 256, 0x1234, u16::MAX] {
        let mut buf: Vec<u8> = Vec::new();
        write_u16(&mut buf, x);
        assert_eq!(buf.len(), 2);
        assert_eq!(read_u16(&buf, 0), x);
    }
}

#[test]
fn u32_round_trips_boundaries() {
    for x in [0u32, 1, 255, 256, 0xDEADBEEF, u32::MAX] {
        let mut buf: Vec<u8> = Vec::new();
        write_u32(&mut buf, x);
        assert_eq!(buf.len(), 4);
        assert_eq!(read_u32(&buf, 0), x);
    }
}

#[test]
fn i16_offset_binary_is_a_bijection() {
    for x in [i16::MIN, -1, 0, 1, i16::MAX] {
        assert_eq!(i16_of_bits(i16_bits(x)), x);
    }
    assert_eq!(i16_bits(i16::MIN), 0);
    assert_eq!(i16_bits(0), 0x8000);
    assert_eq!(i16_bits(i16::MAX), 0xFFFF);
}

#[test]
fn i32_offset_binary_is_a_bijection() {
    for x in [i32::MIN, -1, 0, 1, i32::MAX] {
        assert_eq!(i32_of_bits(i32_bits(x)), x);
    }
    assert_eq!(i32_bits(i32::MIN), 0);
    assert_eq!(i32_bits(0), 0x8000_0000);
    assert_eq!(i32_bits(i32::MAX), 0xFFFF_FFFF);
}

#[test]
fn string_round_trips() {
    for s in ["", "hello", "a", "naïve – ünïcödé ✓", "\u{10FFFF}\u{0}"] {
        let mut buf: Vec<u8> = Vec::new();
        write_string(&mut buf, s);
        let (decoded, end) = read_string(&buf, 0).unwrap();
        assert_eq!(decoded, s);
        assert_eq!(end, buf.len());
    }
}

#[test]
fn string_decode_rejects_truncation() {
    let mut buf: Vec<u8> = Vec::new();
    write_string(&mut buf, "hello");
    buf.pop();
    assert_eq!(read_string(&buf, 0), Err(DecodeError::Truncated));
    assert_eq!(read_string(&Vec::new(), 0), Err(DecodeError::Truncated));
}

#[test]
fn string_decode_rejects_surrogate_code_points() {
    // A one-character string whose 32-bit value is a surrogate code point.
    let buf: Vec<u8> = vec![0, 1, 0x00, 0x00, 0xD8, 0x00];
    assert_eq!(read_string(&buf, 0), Err(DecodeError::InvalidChar));
}
