//! The `HexBinary8`, `HexBinary16`, `HexBinary32` and `HexBinary64` types of
//! IEEE 2030.5: bit fields that appear in XML as upper-case hexadecimal text
//! whose width is fixed by the size of the underlying integer.

use vstd::prelude::*;

verus! {

/// Sixteen to the power `n`: the number of values that `n` hexadecimal digits can write.
pub open spec fn pow16(n: nat) -> nat
    decreases n,
{
    if n == 0 {
        1
    } else {
        16 * pow16((n - 1) as nat)
    }
}

/// The upper-case hexadecimal digit of a value below sixteen.
pub open spec fn hex_digit_char(d: nat) -> char {
    if d < 10 {
        ((d + 48) as u32) as char
    } else {
        ((d + 55) as u32) as char
    }
}

/// The `width` lowest hexadecimal digits of `v`, most significant first, in upper case.
pub open spec fn hex_fixed(v: nat, width: nat) -> Seq<char>
    decreases width,
{
    if width == 0 {
        Seq::empty()
    } else {
        hex_fixed(v / 16, (width - 1) as nat).push(hex_digit_char(v % 16))
    }
}

/// `c` is a hexadecimal digit, in either case.
pub open spec fn is_hex_char(c: char) -> bool {
    ||| 48 <= c as u32 <= 57
    ||| 65 <= c as u32 <= 70
    ||| 97 <= c as u32 <= 102
}

/// `c` is a digit or an upper-case letter from `A` to `F`.
pub open spec fn is_upper_hex_char(c: char) -> bool {
    ||| 48 <= c as u32 <= 57
    ||| 65 <= c as u32 <= 70
}

/// The value of a hexadecimal digit.
pub open spec fn hex_char_value(c: char) -> nat {
    let u = c as u32;
    if 48 <= u <= 57 {
        (u - 48) as nat
    } else if 97 <= u <= 102 {
        (u - 87) as nat
    } else {
        (u - 55) as nat
    }
}

/// The number that a sequence of hexadecimal digits writes, most significant first.
pub open spec fn hex_value(s: Seq<char>) -> nat
    decreases s.len(),
{
    if s.len() == 0 {
        0
    } else {
        hex_value(s.drop_last()) * 16 + hex_char_value(s.last())
    }
}

/// Every character of `s` is a hexadecimal digit.
pub open spec fn all_hex(s: Seq<char>) -> bool {
    forall|i: int| 0 <= i < s.len() ==> is_hex_char(#[trigger] s[i])
}

/// Every character of `s` is a digit or an upper-case letter from `A` to `F`.
pub open spec fn all_upper_hex(s: Seq<char>) -> bool {
    forall|i: int| 0 <= i < s.len() ==> is_upper_hex_char(#[trigger] s[i])
}

/// The digits of a hexadecimal text: the text without one leading `+`.
pub open spec fn hex_digits_of(s: Seq<char>) -> Seq<char> {
    if s.len() > 0 && s[0] == '+' {
        s.drop_first()
    } else {
        s
    }
}

/// The number that the text `s` writes in hexadecimal, where that number is at
/// most `max`: an optional `+`, then at least one digit of either case, and
/// nothing else.
pub open spec fn hex_parse(s: Seq<char>, max: nat) -> Option<nat> {
    let d = hex_digits_of(s);
    if d.len() > 0 && all_hex(d) && hex_value(d) <= max {
        Some(hex_value(d))
    } else {
        None
    }
}

proof fn lemma_digit_char(d: nat)
    requires
        d < 16,
    ensures
        is_upper_hex_char(hex_digit_char(d)),
        is_hex_char(hex_digit_char(d)),
        hex_char_value(hex_digit_char(d)) == d,
{
}

/// The formatted text has exactly `width` characters, all of them upper-case
/// hexadecimal digits.
pub proof fn lemma_hex_fixed_shape(v: nat, width: nat)
    ensures
        hex_fixed(v, width).len() == width,
        all_upper_hex(hex_fixed(v, width)),
        all_hex(hex_fixed(v, width)),
    decreases width,
{
    if width > 0 {
        lemma_hex_fixed_shape(v / 16, (width - 1) as nat);
        lemma_digit_char(v % 16);
        let s = hex_fixed(v, width);
        let p = hex_fixed(v / 16, (width - 1) as nat);
        assert forall|i: int| 0 <= i < s.len() implies is_upper_hex_char(#[trigger] s[i])
            && is_hex_char(s[i]) by {
            if i < p.len() {
                assert(s[i] == p[i]);
            }
        }
    }
}

proof fn lemma_hex_fixed_value(v: nat, width: nat)
    requires
        v < pow16(width),
    ensures
        hex_value(hex_fixed(v, width)) == v,
    decreases width,
{
    if width == 0 {
    } else {
        let w1 = (width - 1) as nat;
        assert(v / 16 < pow16(w1));
        lemma_hex_fixed_value(v / 16, w1);
        lemma_digit_char(v % 16);
        let s = hex_fixed(v, width);
        assert(s.drop_last() == hex_fixed(v / 16, w1));
        assert((v / 16) * 16 + v % 16 == v);
    }
}

/// Law: the text that formatting writes reads back as the same number, for
/// every number that fits the width and the bound.
pub proof fn hex_round_trip(v: nat, width: nat, max: nat)
    requires
        0 < width,
        v < pow16(width),
        v <= max,
    ensures
        hex_parse(hex_fixed(v, width), max) == Some(v),
{
    lemma_hex_fixed_shape(v, width);
    lemma_hex_fixed_value(v, width);
    let s = hex_fixed(v, width);
    assert(s[0] != '+');
    assert(hex_digits_of(s) == s);
}

/// Law: a text of upper-case hexadecimal digits is what formatting its value
/// to its own width writes; so reading then writing gives the text back.
pub proof fn hex_canonical(s: Seq<char>)
    requires
        all_upper_hex(s),
    ensures
        hex_fixed(hex_value(s), s.len()) == s,
    decreases s.len(),
{
    if s.len() > 0 {
        let p = s.drop_last();
        assert(all_upper_hex(p)) by {
            assert forall|i: int| 0 <= i < p.len() implies is_upper_hex_char(#[trigger] p[i]) by {
                assert(p[i] == s[i]);
            }
        }
        hex_canonical(p);
        let c = s.last();
        assert(is_upper_hex_char(s[s.len() - 1]));
        let d = hex_char_value(c);
        assert(d < 16);
        let h = hex_value(s);
        assert(h == hex_value(p) * 16 + d);
        assert(h / 16 == hex_value(p));
        assert(h % 16 == d);
        assert(hex_digit_char(d) == c) by {
            vstd::utf8::char_u32_cast(c, c as u32);
        }
        assert(hex_fixed(h, s.len()) =~= s);
    }
}


proof fn lemma_hex_value_bound(s: Seq<char>)
    requires
        all_hex(s),
    ensures
        hex_value(s) < pow16(s.len()),
    decreases s.len(),
{
    if s.len() > 0 {
        let p = s.drop_last();
        assert(all_hex(p)) by {
            assert forall|i: int| 0 <= i < p.len() implies is_hex_char(#[trigger] p[i]) by {
                assert(p[i] == s[i]);
            }
        }
        lemma_hex_value_bound(p);
        assert(is_hex_char(s[s.len() - 1]));
        assert(hex_char_value(s.last()) < 16);
    }
}

/// Law: a text of upper-case hexadecimal digits whose every value fits the
/// bound is read as its value, and formatting that value to the text's width
/// writes the text again.
pub proof fn hex_parse_then_format(s: Seq<char>, max: nat)
    requires
        0 < s.len(),
        all_upper_hex(s),
        pow16(s.len()) <= max + 1,
    ensures
        hex_parse(s, max) == Some(hex_value(s)),
        hex_fixed(hex_value(s), s.len()) == s,
{
    assert(all_hex(s)) by {
        assert forall|i: int| 0 <= i < s.len() implies is_hex_char(#[trigger] s[i]) by {
            assert(is_upper_hex_char(s[i]));
        }
    }
    lemma_hex_value_bound(s);
    assert(is_upper_hex_char(s[0]));
    assert(hex_digits_of(s) == s);
    hex_canonical(s);
}

proof fn lemma_pow16_widths()
    ensures
        pow16(2) == u8::MAX + 1,
        pow16(4) == u16::MAX + 1,
        pow16(8) == u32::MAX + 1,
        pow16(16) == u64::MAX + 1,
{
    reveal_with_fuel(pow16, 17);
}

/// Law: every `HexBinary8` reads back from the text that `to_string` writes.
pub proof fn hex_binary8_round_trip(h: HexBinary8)
    ensures
        hex_parse(hex_fixed(h.0 as nat, 2), u8::MAX as nat) == Some(h.0 as nat),
{
    lemma_pow16_widths();
    hex_round_trip(h.0 as nat, 2, u8::MAX as nat);
}

/// Law: every `HexBinary16` reads back from the text that `to_string` writes.
pub proof fn hex_binary16_round_trip(h: HexBinary16)
    ensures
        hex_parse(hex_fixed(h.0 as nat, 4), u16::MAX as nat) == Some(h.0 as nat),
{
    lemma_pow16_widths();
    hex_round_trip(h.0 as nat, 4, u16::MAX as nat);
}

/// Law: every `HexBinary32` reads back from the text that `to_string` writes.
pub proof fn hex_binary32_round_trip(h: HexBinary32)
    ensures
        hex_parse(hex_fixed(h.0 as nat, 8), u32::MAX as nat) == Some(h.0 as nat),
{
    lemma_pow16_widths();
    hex_round_trip(h.0 as nat, 8, u32::MAX as nat);
}

/// Law: every `HexBinary64` reads back from the text that `to_string` writes.
pub proof fn hex_binary64_round_trip(h: HexBinary64)
    ensures
        hex_parse(hex_fixed(h.0 as nat, 16), u64::MAX as nat) == Some(h.0 as nat),
{
    lemma_pow16_widths();
    hex_round_trip(h.0 as nat, 16, u64::MAX as nat);
}

/// `String::push` of std: appends the character to the end of the string.
#[verifier::external_body]
fn string_push(s: &mut String, c: char)
    ensures
        final(s)@ == old(s)@.push(c),
{
    s.push(c);
}

/// The upper-case hexadecimal digit of `d`.
fn hex_digit(d: u64) -> (c: char)
    requires
        d < 16,
    ensures
        c == hex_digit_char(d as nat),
{
    let b: u8 = if d < 10 {
        d as u8 + 48
    } else {
        d as u8 + 55
    };
    b as char
}

/// The `width` lowest hexadecimal digits of `v` in upper case, padded with zeros.
fn hex_upper_fixed(v: u64, width: usize) -> (r: String)
    ensures
        r@ == hex_fixed(v as nat, width as nat),
    decreases width,
{
    if width == 0 {
        String::new()
    } else {
        let mut s = hex_upper_fixed(v / 16, width - 1);
        string_push(&mut s, hex_digit(v % 16));
        s
    }
}

/// `<u8 as bitflags::parser::ParseHex>::parse_hex`, which is
/// `u8::from_str_radix(input, 16)`: `Ok` exactly when the text is an optional
/// `+` then one or more hexadecimal digits of either case whose value fits a
/// `u8`, and then that value. The text of the error is the bitflags error's
/// `Display`, which depends on the crate's features, and is left unsaid.
#[verifier::external_body]
fn parse_hex_u8(s: &str) -> (r: Result<u8, String>)
    ensures
        r is Ok <==> hex_parse(s@, u8::MAX as nat) is Some,
        r matches Ok(v) ==> hex_parse(s@, u8::MAX as nat) == Some(v as nat),
{
    match <u8 as bitflags::parser::ParseHex>::parse_hex(s) {
        Ok(v) => Ok(v),
        Err(e) => Err(e.to_string()),
    }
}

/// `<u16 as bitflags::parser::ParseHex>::parse_hex`, which is
/// `u16::from_str_radix(input, 16)`: as for `u8`, with the bound of a `u16`.
#[verifier::external_body]
fn parse_hex_u16(s: &str) -> (r: Result<u16, String>)
    ensures
        r is Ok <==> hex_parse(s@, u16::MAX as nat) is Some,
        r matches Ok(v) ==> hex_parse(s@, u16::MAX as nat) == Some(v as nat),
{
    match <u16 as bitflags::parser::ParseHex>::parse_hex(s) {
        Ok(v) => Ok(v),
        Err(e) => Err(e.to_string()),
    }
}

/// `<u32 as bitflags::parser::ParseHex>::parse_hex`, which is
/// `u32::from_str_radix(input, 16)`: as for `u8`, with the bound of a `u32`.
#[verifier::external_body]
fn parse_hex_u32(s: &str) -> (r: Result<u32, String>)
    ensures
        r is Ok <==> hex_parse(s@, u32::MAX as nat) is Some,
        r matches Ok(v) ==> hex_parse(s@, u32::MAX as nat) == Some(v as nat),
{
    match <u32 as bitflags::parser::ParseHex>::parse_hex(s) {
        Ok(v) => Ok(v),
        Err(e) => Err(e.to_string()),
    }
}

/// `<u64 as bitflags::parser::ParseHex>::parse_hex`, which is
/// `u64::from_str_radix(input, 16)`: as for `u8`, with the bound of a `u64`.
#[verifier::external_body]
fn parse_hex_u64(s: &str) -> (r: Result<u64, String>)
    ensures
        r is Ok <==> hex_parse(s@, u64::MAX as nat) is Some,
        r matches Ok(v) ==> hex_parse(s@, u64::MAX as nat) == Some(v as nat),
{
    match <u64 as bitflags::parser::ParseHex>::parse_hex(s) {
        Ok(v) => Ok(v),
        Err(e) => Err(e.to_string()),
    }
}

/// An 8-bit `HexBinary8` value, written as two hexadecimal digits.
#[derive(Clone, Copy, Debug, PartialEq, Eq, Structural)]
pub struct HexBinary8(pub u8);

/// A 16-bit `HexBinary16` value, written as four hexadecimal digits.
#[derive(Clone, Copy, Debug, PartialEq, Eq, Structural)]
pub struct HexBinary16(pub u16);

/// A 32-bit `HexBinary32` value, written as eight hexadecimal digits.
#[derive(Clone, Copy, Debug, PartialEq, Eq, Structural)]
pub struct HexBinary32(pub u32);

/// A 64-bit `HexBinary64` value, written as sixteen hexadecimal digits.
#[derive(Clone, Copy, Debug, PartialEq, Eq, Structural)]
pub struct HexBinary64(pub u64);

impl HexBinary8 {
    /// The value as two upper-case hexadecimal digits, zero-padded.
    pub fn to_string(&self) -> (r: String)
        ensures
            r@ == hex_fixed(self.0 as nat, 2),
            r@.len() == 2,
            all_upper_hex(r@),
    {
        proof {
            lemma_hex_fixed_shape(self.0 as nat, 2);
        }
        hex_upper_fixed(self.0 as u64, 2)
    }

    /// Reads a value from hexadecimal text of either case; fails where the
    /// text is not hexadecimal or its value does not fit eight bits.
    pub fn from_str(s: &str) -> (r: Result<Self, String>)
        ensures
            r is Ok <==> hex_parse(s@, u8::MAX as nat) is Some,
            r matches Ok(h) ==> hex_parse(s@, u8::MAX as nat) == Some(h.0 as nat),
    {
        match parse_hex_u8(s) {
            Ok(v) => Ok(HexBinary8(v)),
            Err(e) => Err(e),
        }
    }
}

impl HexBinary16 {
    /// The value as four upper-case hexadecimal digits, zero-padded.
    pub fn to_string(&self) -> (r: String)
        ensures
            r@ == hex_fixed(self.0 as nat, 4),
            r@.len() == 4,
            all_upper_hex(r@),
    {
        proof {
            lemma_hex_fixed_shape(self.0 as nat, 4);
        }
        hex_upper_fixed(self.0 as u64, 4)
    }

    /// Reads a value from hexadecimal text of either case; fails where the
    /// text is not hexadecimal or its value does not fit sixteen bits.
    pub fn from_str(s: &str) -> (r: Result<Self, String>)
        ensures
            r is Ok <==> hex_parse(s@, u16::MAX as nat) is Some,
            r matches Ok(h) ==> hex_parse(s@, u16::MAX as nat) == Some(h.0 as nat),
    {
        match parse_hex_u16(s) {
            Ok(v) => Ok(HexBinary16(v)),
            Err(e) => Err(e),
        }
    }
}

impl HexBinary32 {
    /// The value as eight upper-case hexadecimal digits, zero-padded.
    pub fn to_string(&self) -> (r: String)
        ensures
            r@ == hex_fixed(self.0 as nat, 8),
            r@.len() == 8,
            all_upper_hex(r@),
    {
        proof {
            lemma_hex_fixed_shape(self.0 as nat, 8);
        }
        hex_upper_fixed(self.0 as u64, 8)
    }

    /// Reads a value from hexadecimal text of either case; fails where the
    /// text is not hexadecimal or its value does not fit thirty-two bits.
    pub fn from_str(s: &str) -> (r: Result<Self, String>)
        ensures
            r is Ok <==> hex_parse(s@, u32::MAX as nat) is Some,
            r matches Ok(h) ==> hex_parse(s@, u32::MAX as nat) == Some(h.0 as nat),
    {
        match parse_hex_u32(s) {
            Ok(v) => Ok(HexBinary32(v)),
            Err(e) => Err(e),
        }
    }
}

impl HexBinary64 {
    /// The value as sixteen upper-case hexadecimal digits, zero-padded.
    pub fn to_string(&self) -> (r: String)
        ensures
            r@ == hex_fixed(self.0 as nat, 16),
            r@.len() == 16,
            all_upper_hex(r@),
    {
        proof {
            lemma_hex_fixed_shape(self.0 as nat, 16);
        }
        hex_upper_fixed(self.0, 16)
    }

    /// Reads a value from hexadecimal text of either case; fails where the
    /// text is not hexadecimal or its value does not fit sixty-four bits.
    pub fn from_str(s: &str) -> (r: Result<Self, String>)
        ensures
            r is Ok <==> hex_parse(s@, u64::MAX as nat) is Some,
            r matches Ok(h) ==> hex_parse(s@, u64::MAX as nat) == Some(h.0 as nat),
    {
        match parse_hex_u64(s) {
            Ok(v) => Ok(HexBinary64(v)),
            Err(e) => Err(e),
        }
    }
}


impl std::str::FromStr for HexBinary8 {
    type Err = String;

    /// As [`HexBinary8::from_str`].
    fn from_str(s: &str) -> (r: Result<Self, String>)
        ensures
            r is Ok <==> hex_parse(s@, u8::MAX as nat) is Some,
            r matches Ok(h) ==> hex_parse(s@, u8::MAX as nat) == Some(h.0 as nat),
    {
        HexBinary8::from_str(s)
    }
}

impl std::str::FromStr for HexBinary16 {
    type Err = String;

    /// As [`HexBinary16::from_str`].
    fn from_str(s: &str) -> (r: Result<Self, String>)
        ensures
            r is Ok <==> hex_parse(s@, u16::MAX as nat) is Some,
            r matches Ok(h) ==> hex_parse(s@, u16::MAX as nat) == Some(h.0 as nat),
    {
        HexBinary16::from_str(s)
    }
}

impl std::str::FromStr for HexBinary32 {
    type Err = String;

    /// As [`HexBinary32::from_str`].
    fn from_str(s: &str) -> (r: Result<Self, String>)
        ensures
            r is Ok <==> hex_parse(s@, u32::MAX as nat) is Some,
            r matches Ok(h) ==> hex_parse(s@, u32::MAX as nat) == Some(h.0 as nat),
    {
        HexBinary32::from_str(s)
    }
}

impl std::str::FromStr for HexBinary64 {
    type Err = String;

    /// As [`HexBinary64::from_str`].
    fn from_str(s: &str) -> (r: Result<Self, String>)
        ensures
            r is Ok <==> hex_parse(s@, u64::MAX as nat) is Some,
            r matches Ok(h) ==> hex_parse(s@, u64::MAX as nat) == Some(h.0 as nat),
    {
        HexBinary64::from_str(s)
    }
}

} // verus!
