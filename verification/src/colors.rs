use vstd::prelude::*;
use vstd::string::StringSliceAdditionalSpecFns;
use vstd::utf8::is_char_boundary;

verus! {

/// A color with 8-bit channels.
#[derive(Debug, Copy, Clone, PartialEq, Eq, Structural)]
pub struct RgbColor {
    pub r: u8,
    pub g: u8,
    pub b: u8,
}

impl RgbColor {
    pub fn new(r: u8, g: u8, b: u8) -> (c: Self)
        ensures
            c == (RgbColor { r, g, b }),
    {
        Self { r, g, b }
    }
}

impl Default for RgbColor {
    fn default() -> (c: Self)
        ensures
            c == (RgbColor { r: 0, g: 0, b: 0 }),
    {
        Self { r: 0, g: 0, b: 0 }
    }
}

/// Why a hex color code was refused.
#[derive(Debug, Copy, Clone, PartialEq, Eq, Structural)]
pub enum ColorError {
    /// The code is not 8 bytes long.
    WrongLength,
    /// One of the four channels is not a hexadecimal number.
    InvalidDigit,
}

impl ColorError {
    /// Text of the error.
    pub fn message(&self) -> (s: String)
        ensures
            s@ == match *self {
                ColorError::WrongLength => "Hex code for RGBA should have a length of 8."@,
                ColorError::InvalidDigit => "invalid digit found in string"@,
            },
    {
        match self {
            ColorError::WrongLength => String::from_str("Hex code for RGBA should have a length of 8."),
            ColorError::InvalidDigit => String::from_str("invalid digit found in string"),
        }
    }
}

/// Value of one ASCII hexadecimal digit, either case.
pub open spec fn hex_digit(b: u8) -> Option<int> {
    if 48 <= b <= 57 {
        Some(b - 48)
    } else if 97 <= b <= 102 {
        Some(b - 87)
    } else if 65 <= b <= 70 {
        Some(b - 55)
    } else {
        None
    }
}

/// What `u8::from_str_radix(_, 16)` gives for a two-byte string: two hex digits, or a
/// `+` sign and one hex digit.
pub open spec fn hex_byte(s: Seq<u8>) -> Option<u8> {
    if s[0] == 43 {
        match hex_digit(s[1]) {
            Some(d) => Some(d as u8),
            None => None,
        }
    } else {
        match (hex_digit(s[0]), hex_digit(s[1])) {
            (Some(h), Some(l)) => Some((16 * h + l) as u8),
            _ => None,
        }
    }
}

/// `u8::from_str_radix(s, 16)` on a string of two bytes. The standard library documents
/// the accepted form: an optional `+` sign followed by digits of the radix, with no
/// other character; the value of a two-digit hex number always fits a `u8`.
#[verifier::external_body]
fn parse_hex_byte(s: &str) -> (r: Option<u8>)
    requires
        s.spec_bytes().len() == 2,
    ensures
        r == hex_byte(s.spec_bytes()),
{
    u8::from_str_radix(s, 16).ok()
}

/// The four channels of an 8-byte code `RRGGBBAA`, or the first channel that is not hex.
pub open spec fn rgba_of_hex(b: Seq<u8>) -> Result<(u8, u8, u8, u8), ColorError> {
    if b.len() != 8 {
        Err(ColorError::WrongLength)
    } else {
        match (
            hex_byte(b.subrange(0, 2)),
            hex_byte(b.subrange(2, 4)),
            hex_byte(b.subrange(4, 6)),
            hex_byte(b.subrange(6, 8)),
        ) {
            (Some(r), Some(g), Some(bl), Some(a)) => Ok((r, g, bl, a)),
            _ => Err(ColorError::InvalidDigit),
        }
    }
}

/// Parse an RGBA color written `RRGGBBAA` in hexadecimal. The channels are cut at
/// bytes 2, 4 and 6, which must fall between characters.
pub fn parse_rgba_hex(hex_code: &str) -> (r: Result<(u8, u8, u8, u8), ColorError>)
    requires
        hex_code.spec_bytes().len() == 8 ==> {
            &&& is_char_boundary(hex_code.spec_bytes(), 2)
            &&& is_char_boundary(hex_code.spec_bytes(), 4)
            &&& is_char_boundary(hex_code.spec_bytes(), 6)
        },
    ensures
        r == rgba_of_hex(hex_code.spec_bytes()),
{
    if hex_code.as_bytes().len() != 8 {
        return Err(ColorError::WrongLength);
    }
    let ghost bytes = hex_code.spec_bytes();
    proof {
        vstd::utf8::encode_utf8_valid_utf8(hex_code@);
        vstd::utf8::valid_utf8_split(bytes, 2);
        vstd::utf8::is_char_boundary_iff_not_is_continuation_byte(bytes, 4);
        vstd::utf8::is_char_boundary_iff_not_is_continuation_byte(bytes, 6);
        let tail2 = bytes.subrange(2, 8);
        vstd::utf8::is_char_boundary_iff_not_is_continuation_byte(tail2, 2);
        vstd::utf8::valid_utf8_split(tail2, 2);
        let tail4 = tail2.subrange(2, 6);
        assert(tail4 =~= bytes.subrange(4, 8));
        vstd::utf8::is_char_boundary_iff_not_is_continuation_byte(tail4, 2);
    }
    let (rhex, rest) = hex_code.split_at(2);
    let (ghex, rest) = rest.split_at(2);
    let (bhex, ahex) = rest.split_at(2);
    proof {
        assert(rhex.spec_bytes() =~= bytes.subrange(0, 2));
        assert(ghex.spec_bytes() =~= bytes.subrange(2, 4));
        assert(bhex.spec_bytes() =~= bytes.subrange(4, 6));
        assert(ahex.spec_bytes() =~= bytes.subrange(6, 8));
    }
    let r = parse_hex_byte(rhex);
    let g = parse_hex_byte(ghex);
    let b = parse_hex_byte(bhex);
    let a = parse_hex_byte(ahex);
    match (r, g, b, a) {
        (Some(r), Some(g), Some(b), Some(a)) => Ok((r, g, b, a)),
        _ => Err(ColorError::InvalidDigit),
    }
}

} // verus!
