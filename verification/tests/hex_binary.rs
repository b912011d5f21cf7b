//! Fixed-width upper-case hexadecimal text of the `HexBinary` types.

use sepserde::hex_binary::HexBinary16 as Hex16;
use sepserde::hex_binary::HexBinary32 as Hex32;
use sepserde::hex_binary::HexBinary64 as Hex64;
use sepserde::hex_binary::HexBinary8 as Hex8;
#[allow(unused_imports)]
use std::str::FromStr;

#[test]
fn display_width_is_fixed_by_primitive() {
    assert_eq!(Hex8(0).to_string(), "00");
    assert_eq!(Hex8(1).to_string(), "01");
    assert_eq!(Hex8(0xFF).to_string(), "FF");

    assert_eq!(Hex16(0).to_string(), "0000");
    assert_eq!(Hex16(0x10).to_string(), "0010");
    assert_eq!(Hex16(0xABCD).to_string(), "ABCD");

    assert_eq!(Hex32(0).to_string(), "00000000");
    assert_eq!(Hex32(1).to_string(), "00000001");
    assert_eq!(Hex32(0xDEADBEEF).to_string(), "DEADBEEF");

    assert_eq!(Hex64(0).to_string(), "0000000000000000");
    assert_eq!(Hex64(0xCAFEBABE).to_string(), "00000000CAFEBABE");
}

#[test]
fn fromstr_parses_hex() {
    assert_eq!(Hex8::from_str("01").unwrap(), Hex8(1));
    assert_eq!(Hex8::from_str("FF").unwrap(), Hex8(0xFF));
    assert_eq!(Hex32::from_str("DEADBEEF").unwrap(), Hex32(0xDEADBEEF));
    assert_eq!(
        Hex64::from_str("00000000CAFEBABE").unwrap(),
        Hex64(0xCAFEBABE)
    );
}

#[test]
fn round_trip_through_display_and_fromstr() {
    for v in [0u32, 1, 0x10, 0xABCD, 0xDEADBEEF, u32::MAX] {
        let s = Hex32(v).to_string();
        assert_eq!(s.len(), 8, "width regression for {v:#x}");
        assert_eq!(Hex32::from_str(&s).unwrap(), Hex32(v));
    }
}

#[test]
fn fromstr_rejects_overflow() {
    // 0x100 doesn't fit in u8
    assert!(Hex8::from_str("100").is_err());
    // garbage
    assert!(Hex8::from_str("ZZ").is_err());
}

#[test]
fn round_trip_every_byte() {
    for v in 0..=255u8 {
        let s = Hex8(v).to_string();
        assert_eq!(s.len(), 2);
        assert_eq!(Hex8::from_str(&s).unwrap(), Hex8(v));
    }
}

#[test]
fn round_trip_sixteen_bit_edges() {
    for v in [0u16, 0xF, 0xFF, 0xFFF, 0x1234, u16::MAX] {
        let s = Hex16(v).to_string();
        assert_eq!(s.len(), 4);
        assert_eq!(Hex16::from_str(&s).unwrap(), Hex16(v));
    }
    assert_eq!(Hex64(u64::MAX).to_string(), "FFFFFFFFFFFFFFFF");
    assert_eq!(Hex64::from_str("FFFFFFFFFFFFFFFF").unwrap(), Hex64(u64::MAX));
}

#[test]
fn parse_then_format_gives_the_text_back() {
    for s in ["00", "0A", "A0", "7F", "FE"] {
        assert_eq!(Hex8::from_str(s).unwrap().to_string(), s);
    }
    assert_eq!(Hex32::from_str("0000BEEF").unwrap().to_string(), "0000BEEF");
}

#[test]
fn parsing_accepts_lower_case_and_short_text() {
    assert_eq!(Hex8::from_str("ff").unwrap(), Hex8(0xFF));
    assert_eq!(Hex8::from_str("a").unwrap(), Hex8(0xA));
    assert_eq!(Hex16::from_str("beef").unwrap(), Hex16(0xBEEF));
    assert_eq!(Hex8::from_str("+1F").unwrap(), Hex8(0x1F));
    // a lower-case input is written back in upper case
    assert_eq!(Hex8::from_str("ab").unwrap().to_string(), "AB");
}

#[test]
fn parsing_rejects_malformed_text() {
    assert!(Hex8::from_str("").is_err());
    assert!(Hex8::from_str("+").is_err());
    assert!(Hex8::from_str("-1").is_err());
    assert!(Hex8::from_str("0x1").is_err());
    assert!(Hex8::from_str(" 1").is_err());
    assert!(Hex8::from_str("1 ").is_err());
    assert!(Hex8::from_str("G").is_err());
    assert!(Hex16::from_str("10000").is_err());
    assert!(Hex32::from_str("100000000").is_err());
    assert!(Hex64::from_str("10000000000000000").is_err());
    assert_eq!(Hex16::from_str("0FFFF").unwrap(), Hex16(0xFFFF));
}

#[test]
fn parse_through_the_std_trait() {
    let h: Hex16 = "00FF".parse().unwrap();
    assert_eq!(h, Hex16(0xFF));
    assert!("xyz".parse::<Hex32>().is_err());
}
