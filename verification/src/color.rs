//! Background colours of issue labels, read from GitHub's hex colour codes.

use vstd::prelude::*;

verus! {

/// The background colour of a label.
#[derive(PartialEq, Eq, Structural, Debug, Clone, Copy)]
pub enum LabelColor {
    /// A true colour given by its red, green and blue components.
    Rgb(u8, u8, u8),
    /// The colour of labels without a usable colour code.
    DarkGray,
}

/// The bytes of `b` after its leading `#` bytes.
pub open spec fn without_leading_hashes(b: Seq<u8>) -> Seq<u8>
    decreases b.len(),
{
    if b.len() > 0 && b[0] == 0x23u8 {
        without_leading_hashes(b.skip(1))
    } else {
        b
    }
}

/// The value of a hexadecimal digit (either case), if the byte is one.
pub open spec fn hex_digit(b: u8) -> Option<u8> {
    if 0x30 <= b <= 0x39 {
        Some((b - 0x30) as u8)
    } else if 0x61 <= b <= 0x66 {
        Some((b - 0x61 + 10) as u8)
    } else if 0x41 <= b <= 0x46 {
        Some((b - 0x41 + 10) as u8)
    } else {
        None
    }
}

/// A two-byte base-16 number as `u8::from_str_radix` reads it: two digits, or
/// a `+` sign followed by one digit.
pub open spec fn hex_byte(b0: u8, b1: u8) -> Option<u8> {
    if b0 == 0x2bu8 {
        hex_digit(b1)
    } else {
        match (hex_digit(b0), hex_digit(b1)) {
            (Some(hi), Some(lo)) => Some((hi * 16 + lo) as u8),
            _ => None,
        }
    }
}

/// A colour component: the two-byte number, or 128 when it does not read.
pub open spec fn component(b0: u8, b1: u8) -> u8 {
    match hex_byte(b0, b1) {
        Some(v) => v,
        None => 128,
    }
}

/// The colour given by the UTF-8 bytes of a colour code: after its leading
/// `#`s, six bytes make three components; any other length gives dark gray.
pub open spec fn hex_color(b: Seq<u8>) -> LabelColor {
    let t = without_leading_hashes(b);
    if t.len() == 6 {
        LabelColor::Rgb(component(t[0], t[1]), component(t[2], t[3]), component(t[4], t[5]))
    } else {
        LabelColor::DarkGray
    }
}

/// Whether the colour code can be cut into its three two-byte pieces: when
/// six bytes follow the `#`s, the cuts after the second and fourth byte must
/// not fall inside a multi-byte character.
pub open spec fn splits_into_pairs(b: Seq<u8>) -> bool {
    let t = without_leading_hashes(b);
    t.len() == 6 ==> !vstd::utf8::is_continuation_byte(t[2]) && !vstd::utf8::is_continuation_byte(
        t[4],
    )
}

/// Reads a two-byte base-16 component, 128 when it does not read.
fn read_component(b0: u8, b1: u8) -> (v: u8)
    ensures
        v == component(b0, b1),
{
    let d1 = digit_value(b1);
    if b0 == 0x2b {
        match d1 {
            Some(v) => v,
            None => 128,
        }
    } else {
        match (digit_value(b0), d1) {
            (Some(hi), Some(lo)) => hi * 16 + lo,
            _ => 128,
        }
    }
}

/// The value of a hexadecimal digit.
fn digit_value(b: u8) -> (d: Option<u8>)
    ensures
        d == hex_digit(b),
        d matches Some(v) ==> v < 16,
{
    if 0x30 <= b && b <= 0x39 {
        Some(b - 0x30)
    } else if 0x61 <= b && b <= 0x66 {
        Some(b - 0x61 + 10)
    } else if 0x41 <= b && b <= 0x46 {
        Some(b - 0x41 + 10)
    } else {
        None
    }
}

/// The background colour for a label's hex colour code such as `#d73a4a`.
pub fn parse_hex_color(hex: &str) -> (color: LabelColor)
    requires
        splits_into_pairs(vstd::utf8::encode_utf8(hex@)),
    ensures
        color == hex_color(vstd::utf8::encode_utf8(hex@)),
{
    let bytes = hex.as_bytes();
    let n = bytes.len();
    let mut i: usize = 0;
    assert(bytes@.skip(0) =~= bytes@);
    while i < n && bytes[i] == 0x23
        invariant
            i <= n,
            n == bytes@.len(),
            without_leading_hashes(bytes@) == without_leading_hashes(bytes@.skip(i as int)),
        decreases n - i,
    {
        assert(bytes@.skip(i as int).skip(1) =~= bytes@.skip(i + 1));
        i += 1;
    }
    let ghost t = bytes@.skip(i as int);
    assert(without_leading_hashes(bytes@) == t);
    if n - i == 6 {
        LabelColor::Rgb(
            read_component(bytes[i], bytes[i + 1]),
            read_component(bytes[i + 2], bytes[i + 3]),
            read_component(bytes[i + 4], bytes[i + 5]),
        )
    } else {
        LabelColor::DarkGray
    }
}

/// The background colour of a label with an optional colour code; labels
/// without one are dark gray.
pub fn label_color(code: Option<&str>) -> (color: LabelColor)
    requires
        code matches Some(c) ==> splits_into_pairs(vstd::utf8::encode_utf8(c@)),
    ensures
        color == match code {
            Some(c) => hex_color(vstd::utf8::encode_utf8(c@)),
            None => LabelColor::DarkGray,
        },
{
    match code {
        Some(c) => parse_hex_color(c),
        None => LabelColor::DarkGray,
    }
}

/// The lowercase hexadecimal digit for a value below 16.
pub open spec fn lower_hex_digit(v: u8) -> u8 {
    if v < 10 {
        (0x30 + v) as u8
    } else {
        (0x61 + v - 10) as u8
    }
}

/// The colour code `#rrggbb` of a colour, in lowercase hexadecimal.
pub open spec fn hex_code(r: u8, g: u8, b: u8) -> Seq<u8> {
    seq![
        0x23u8,
        lower_hex_digit(r / 16),
        lower_hex_digit(r % 16),
        lower_hex_digit(g / 16),
        lower_hex_digit(g % 16),
        lower_hex_digit(b / 16),
        lower_hex_digit(b % 16),
    ]
}

proof fn lemma_component_of_digits(v: u8)
    ensures
        component(lower_hex_digit(v / 16), lower_hex_digit(v % 16)) == v,
{
    assert(hex_digit(lower_hex_digit(v / 16)) == Some((v / 16) as u8));
    assert(hex_digit(lower_hex_digit(v % 16)) == Some((v % 16) as u8));
    assert(lower_hex_digit(v / 16) != 0x2bu8);
}

/// Every colour written as `#rrggbb` reads back as that colour.
pub proof fn law_hex_code_reads_back(r: u8, g: u8, b: u8)
    ensures
        hex_color(hex_code(r, g, b)) == LabelColor::Rgb(r, g, b),
{
    let s = hex_code(r, g, b);
    assert(s[0] == 0x23u8);
    assert(without_leading_hashes(s) == without_leading_hashes(s.skip(1)));
    let t = s.skip(1);
    assert(t[0] != 0x23u8);
    assert(without_leading_hashes(t) == t);
    lemma_component_of_digits(r);
    lemma_component_of_digits(g);
    lemma_component_of_digits(b);
}

/// Leading `#`s do not change the colour a code stands for.
pub proof fn law_leading_hash_is_ignored(b: Seq<u8>)
    ensures
        hex_color(seq![0x23u8] + b) == hex_color(b),
        splits_into_pairs(seq![0x23u8] + b) == splits_into_pairs(b),
{
    let s = seq![0x23u8] + b;
    assert(s.skip(1) =~= b);
}

} // verus!
