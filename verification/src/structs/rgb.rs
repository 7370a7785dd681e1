//! 32-bit RGB color, least significant byte first: red, green, blue, alpha.
//! The plain constructors of this type leave alpha opaque (255).

use vstd::prelude::*;
use vstd::string::StringSliceAdditionalSpecFns;
use vstd::string::StringExecFns;
use crate::functions::hexadecimal::{all_hex_digits, decoded_bytes, hex_chars, strip_hash_marks};
use crate::functions::hexadecimal::{bad_rgb_format_error, invalid_digit_error};
use crate::functions::hexadecimal::{decode_hex_rgb, encode_hex};
use crate::types::rgb::{binary_chars, format_u32_binary, rgb_a, rgb_b, rgb_g, rgb_pack, rgb_r};

verus! {

/// The byte at index `i` of `bs`, or 0 past the end.
pub open spec fn byte_or_zero(bs: Seq<u8>, i: int) -> u8 {
    if 0 <= i < bs.len() {
        bs[i]
    } else {
        0
    }
}

/// The word `c` with its four bytes in the opposite order.
pub open spec fn swapped_bytes(c: u32) -> u32 {
    ((c & 0xff) << 24) | (((c >> 8) & 0xff) << 16) | (((c >> 16) & 0xff) << 8) | ((c >> 24)
        & 0xff)
}

/// The component level `b / 255` in thousandths, rounded to nearest.
pub open spec fn level_thousandths(b: u8) -> u32 {
    ((2000 * b + 255) / 510) as u32
}

/// Decimal digit character for the value `d` (below 10).
pub open spec fn decimal_digit_char(d: u32) -> char {
    if d == 0 { '0' } else if d == 1 { '1' } else if d == 2 { '2' } else if d == 3 { '3' }
    else if d == 4 { '4' } else if d == 5 { '5' } else if d == 6 { '6' } else if d == 7 { '7' }
    else if d == 8 { '8' } else { '9' }
}

/// The component level `b / 255` rendered with three decimal places.
pub open spec fn level_chars(b: u8) -> Seq<char> {
    let t = level_thousandths(b);
    seq![
        decimal_digit_char(t / 1000),
        '.',
        decimal_digit_char((t / 100) % 10),
        decimal_digit_char((t / 10) % 10),
        decimal_digit_char(t % 10),
    ]
}

/// 32-bit RGB color (little endian): the red byte is stored first.
#[derive(Debug, Clone, Copy, PartialEq, Eq)]
pub struct RGB {
    c: u32,
}

impl View for RGB {
    type V = u32;

    closed spec fn view(&self) -> u32 {
        self.c
    }
}

impl Default for RGB {
    /// The default color: every component 0.
    fn default() -> (c: Self)
        ensures
            c@ == 0u32,
    {
        Self { c: 0 }
    }
}

impl RGB {
    /// Creates a new RGB color with alpha set to 255.
    pub fn new_rgb(r: u8, g: u8, b: u8) -> (c: Self)
        ensures
            c@ == rgb_pack(r, g, b, 255),
    {
        Self::new_rgba(r, g, b, 255)
    }

    /// Creates a new RGBA color from its four byte components.
    pub fn new_rgba(r: u8, g: u8, b: u8, a: u8) -> (c: Self)
        ensures
            c@ == rgb_pack(r, g, b, a),
    {
        Self { c: (r as u32) | ((g as u32) << 8) | ((b as u32) << 16) | ((a as u32) << 24) }
    }

    /// Creates a new RGB color from a byte slice: missing components are 0,
    /// extra bytes are ignored.
    pub fn from_byte_slice(bytes: &[u8]) -> (c: Self)
        ensures
            c@ == rgb_pack(
                byte_or_zero(bytes@, 0),
                byte_or_zero(bytes@, 1),
                byte_or_zero(bytes@, 2),
                byte_or_zero(bytes@, 3),
            ),
    {
        let mut components: [u8; 4] = [0, 0, 0, 0];
        let n = if bytes.len() < 4 {
            bytes.len()
        } else {
            4
        };
        let mut i: usize = 0;
        while i < n
            invariant
                n <= 4,
                n <= bytes@.len(),
                i <= n,
                forall|k: int| 0 <= k < i ==> components@[k] == bytes@[k],
                forall|k: int| i <= k < 4 ==> components@[k] == 0u8,
            decreases n - i,
        {
            components[i] = bytes[i];
            i += 1;
        }
        Self::new_rgba(components[0], components[1], components[2], components[3])
    }

    /// Creates a new `RGB` from a hexadecimal color string: six digits after
    /// any leading `#` marks; alpha is 0.
    pub fn from_hex(hex: &str) -> (r: Result<Self, String>)
        ensures
            match r {
                Ok(c) => {
                    let bs = strip_hash_marks(hex.spec_bytes());
                    let d = decoded_bytes(bs);
                    bs.len() == 6 && all_hex_digits(bs) && c@ == rgb_pack(d[0], d[1], d[2], 0)
                },
                Err(e) => {
                    let bs = strip_hash_marks(hex.spec_bytes());
                    (bs.len() != 6 || !all_hex_digits(bs)) && e@ == if bs.len() != 6 {
                        bad_rgb_format_error()
                    } else {
                        invalid_digit_error()
                    }
                },
            },
    {
        let rgb = match decode_hex_rgb(hex) {
            Ok(v) => v,
            Err(e) => {
                return Err(e);
            },
        };
        Ok(Self::from_byte_slice(&rgb))
    }

    /// Returns the 32-bit RGBA word with its bytes in big-endian order.
    pub fn to_be(&self) -> (r: u32)
        ensures
            r == swapped_bytes(self@),
    {
        ((self.c & 0xff) << 24) | (((self.c >> 8) & 0xff) << 16) | (((self.c >> 16) & 0xff)
            << 8) | ((self.c >> 24) & 0xff)
    }

    /// Returns the red, green and blue components as a byte array.
    pub fn as_bytes_rgb(&self) -> (r: [u8; 3])
        ensures
            r@ =~= seq![rgb_r(self@), rgb_g(self@), rgb_b(self@)],
    {
        [self.r(), self.g(), self.b()]
    }

    /// Returns all four components as a byte array.
    pub fn as_bytes_rgba(&self) -> (r: [u8; 4])
        ensures
            r@ =~= seq![rgb_r(self@), rgb_g(self@), rgb_b(self@), rgb_a(self@)],
    {
        [self.r(), self.g(), self.b(), self.a()]
    }

    /// Returns the hexadecimal encoding of the red, green and blue
    /// components, with a leading `#` mark.
    pub fn as_hex_rgb(&self) -> (r: String)
        ensures
            r@ == seq!['#'] + hex_chars(seq![rgb_r(self@), rgb_g(self@), rgb_b(self@)]),
    {
        proof {
            reveal_strlit("#");
        }
        let mut result = String::from_str("#");
        let rgb = self.as_bytes_rgb();
        let encoded = encode_hex(&rgb);
        result.append(encoded.as_str());
        proof {
            assert(result@ =~= seq!['#'] + hex_chars(seq![
                rgb_r(self@),
                rgb_g(self@),
                rgb_b(self@),
            ]));
        }
        result
    }

    /// Returns the red component.
    pub fn r(&self) -> (r: u8)
        ensures
            r == rgb_r(self@),
    {
        proof {
            let c0 = self.c;
            assert((c0 >> 0) as u8 == (c0 & 0xff) as u8) by (bit_vector);
        }
        #[verifier::truncate] ((self.c >> 0) as u8)
    }

    /// Returns the green component.
    pub fn g(&self) -> (r: u8)
        ensures
            r == rgb_g(self@),
    {
        proof {
            let c0 = self.c;
            assert((c0 >> 8) as u8 == ((c0 >> 8) & 0xff) as u8) by (bit_vector);
        }
        #[verifier::truncate] ((self.c >> 8) as u8)
    }

    /// Returns the blue component.
    pub fn b(&self) -> (r: u8)
        ensures
            r == rgb_b(self@),
    {
        proof {
            let c0 = self.c;
            assert((c0 >> 16) as u8 == ((c0 >> 16) & 0xff) as u8) by (bit_vector);
        }
        #[verifier::truncate] ((self.c >> 16) as u8)
    }

    /// Returns the alpha component.
    pub fn a(&self) -> (r: u8)
        ensures
            r == rgb_a(self@),
    {
        proof {
            let c0 = self.c;
            assert((c0 >> 24) as u8 == ((c0 >> 24) & 0xff) as u8) by (bit_vector);
        }
        #[verifier::truncate] ((self.c >> 24) as u8)
    }

    /// Sets all four components to 0.
    pub fn clear(&mut self)
        ensures
            final(self)@ == 0u32,
    {
        self.c = 0;
    }

    /// Sets the red component; the other components keep their values.
    pub fn set_r(&mut self, r: u8)
        ensures
            final(self)@ == rgb_pack(r, rgb_g(old(self)@), rgb_b(old(self)@), rgb_a(old(self)@)),
    {
        // clear the byte first, push the new value after
        self.c &= !(255u32 << 0);
        self.c |= (r as u32) << 0;
        proof {
            let c0 = old(self)@;
            assert((c0 & !(255u32 << 0)) | ((r as u32) << 0) == ((r as u32) | ((((c0 >> 8)
                & 0xff) as u8 as u32) << 8) | ((((c0 >> 16) & 0xff) as u8 as u32) << 16) | ((((
            c0 >> 24) & 0xff) as u8 as u32) << 24))) by (bit_vector);
        }
    }

    /// Sets the green component; the other components keep their values.
    pub fn set_g(&mut self, g: u8)
        ensures
            final(self)@ == rgb_pack(rgb_r(old(self)@), g, rgb_b(old(self)@), rgb_a(old(self)@)),
    {
        // clear the byte first, push the new value after
        self.c &= !(255u32 << 8);
        self.c |= (g as u32) << 8;
        proof {
            let c0 = old(self)@;
            assert((c0 & !(255u32 << 8)) | ((g as u32) << 8) == (((c0 & 0xff) as u8 as u32) | ((
            g as u32) << 8) | ((((c0 >> 16) & 0xff) as u8 as u32) << 16) | ((((c0 >> 24) & 0xff)
                as u8 as u32) << 24))) by (bit_vector);
        }
    }

    /// Sets the blue component; the other components keep their values.
    pub fn set_b(&mut self, b: u8)
        ensures
            final(self)@ == rgb_pack(rgb_r(old(self)@), rgb_g(old(self)@), b, rgb_a(old(self)@)),
    {
        // clear the byte first, push the new value after
        self.c &= !(255u32 << 16);
        self.c |= (b as u32) << 16;
        proof {
            let c0 = old(self)@;
            assert((c0 & !(255u32 << 16)) | ((b as u32) << 16) == (((c0 & 0xff) as u8 as u32)
                | ((((c0 >> 8) & 0xff) as u8 as u32) << 8) | ((b as u32) << 16) | ((((c0 >> 24)
                & 0xff) as u8 as u32) << 24))) by (bit_vector);
        }
    }

    /// Sets the alpha component; the other components keep their values.
    pub fn set_a(&mut self, a: u8)
        ensures
            final(self)@ == rgb_pack(rgb_r(old(self)@), rgb_g(old(self)@), rgb_b(old(self)@), a),
    {
        // clear the byte first, push the new value after
        self.c &= !(255u32 << 24);
        self.c |= (a as u32) << 24;
        proof {
            let c0 = old(self)@;
            assert((c0 & !(255u32 << 24)) | ((a as u32) << 24) == (((c0 & 0xff) as u8 as u32)
                | ((((c0 >> 8) & 0xff) as u8 as u32) << 8) | ((((c0 >> 16) & 0xff) as u8 as u32)
                << 16) | ((a as u32) << 24))) by (bit_vector);
        }
    }

    /// Renders the red, green and blue levels in the 0 to 1 range, three
    /// decimal places each.
    pub fn format_rgb_f32(&self) -> (r: String)
        ensures
            r@ == "RGB: ( "@ + level_chars(rgb_r(self@)) + ", "@ + level_chars(rgb_g(self@))
                + ", "@ + level_chars(rgb_b(self@)) + " )"@,
    {
        proof {
            reveal_strlit("RGB: ( ");
            reveal_strlit(", ");
            reveal_strlit(" )");
        }
        let mut result = String::from_str("RGB: ( ");
        push_level(&mut result, self.r());
        result.append(", ");
        push_level(&mut result, self.g());
        result.append(", ");
        push_level(&mut result, self.b());
        result.append(" )");
        result
    }

    /// Renders all four component levels in the 0 to 1 range, three decimal
    /// places each.
    pub fn format_rgba_f32(&self) -> (r: String)
        ensures
            r@ == "RGBA: ( "@ + level_chars(rgb_r(self@)) + ", "@ + level_chars(rgb_g(self@))
                + ", "@ + level_chars(rgb_b(self@)) + ", "@ + level_chars(rgb_a(self@)) + " )"@,
    {
        proof {
            reveal_strlit("RGBA: ( ");
            reveal_strlit(", ");
            reveal_strlit(" )");
        }
        let mut result = String::from_str("RGBA: ( ");
        push_level(&mut result, self.r());
        result.append(", ");
        push_level(&mut result, self.g());
        result.append(", ");
        push_level(&mut result, self.b());
        result.append(", ");
        push_level(&mut result, self.a());
        result.append(" )");
        result
    }

    /// Returns the packed word rendered in binary: `0b` and 32 digits,
    /// most significant bit first.
    pub fn format_bytes(&self) -> (r: String)
        ensures
            r@ == binary_chars(self@),
    {
        format_u32_binary(self.c)
    }

    /// Creates a new `RGB` with red and alpha set to 255.
    pub fn new_red() -> (c: Self)
        ensures
            c@ == rgb_pack(255, 0, 0, 255),
    {
        Self::new_rgba(255, 0, 0, 255)
    }

    /// Creates a new `RGB` with green and alpha set to 255.
    pub fn new_green() -> (c: Self)
        ensures
            c@ == rgb_pack(0, 255, 0, 255),
    {
        Self::new_rgba(0, 255, 0, 255)
    }

    /// Creates a new `RGB` with blue and alpha set to 255.
    pub fn new_blue() -> (c: Self)
        ensures
            c@ == rgb_pack(0, 0, 255, 255),
    {
        Self::new_rgba(0, 0, 255, 255)
    }

    /// Creates a new `RGB` with red, green and alpha set to 255.
    pub fn new_yellow() -> (c: Self)
        ensures
            c@ == rgb_pack(255, 255, 0, 255),
    {
        Self::new_rgba(255, 255, 0, 255)
    }

    /// Creates a new `RGB` with green, blue and alpha set to 255.
    pub fn new_cyan() -> (c: Self)
        ensures
            c@ == rgb_pack(0, 255, 255, 255),
    {
        Self::new_rgba(0, 255, 255, 255)
    }

    /// Creates a new `RGB` with red, blue and alpha set to 255.
    pub fn new_magenta() -> (c: Self)
        ensures
            c@ == rgb_pack(255, 0, 255, 255),
    {
        Self::new_rgba(255, 0, 255, 255)
    }

    /// Creates a new `RGB` with all four components set to 255.
    pub fn new_white() -> (c: Self)
        ensures
            c@ == rgb_pack(255, 255, 255, 255),
    {
        Self::new_rgba(255, 255, 255, 255)
    }

    /// Creates a new `RGB` with red, green and blue set to 0 and alpha set
    /// to 255.
    pub fn new_black() -> (c: Self)
        ensures
            c@ == rgb_pack(0, 0, 0, 255),
    {
        Self::new_rgba(0, 0, 0, 255)
    }

    /// Creates a new `RGB` with red, green and blue set to 127 and alpha set
    /// to 255.
    pub fn new_gray() -> (c: Self)
        ensures
            c@ == rgb_pack(127, 127, 127, 255),
    {
        Self::new_rgba(127, 127, 127, 255)
    }

    /// Creates a new `RGB` with red, green and blue set to 127 and alpha set
    /// to 255.
    pub fn new_grey() -> (c: Self)
        ensures
            c@ == rgb_pack(127, 127, 127, 255),
    {
        Self::new_rgba(127, 127, 127, 255)
    }

    /// Creates a new `RGB` with all four components set to 0.
    pub fn new_clear() -> (c: Self)
        ensures
            c@ == 0u32,
    {
        Self { c: 0 }
    }
}

/// Appends the decimal digit character for `d` to `s`.
fn push_decimal_digit(s: &mut String, d: u32)
    requires
        d < 10,
    ensures
        final(s)@ == old(s)@ + seq![decimal_digit_char(d)],
{
    proof {
        reveal_strlit("0"); reveal_strlit("1"); reveal_strlit("2"); reveal_strlit("3");
        reveal_strlit("4"); reveal_strlit("5"); reveal_strlit("6"); reveal_strlit("7");
        reveal_strlit("8"); reveal_strlit("9");
    }
    match d {
        0 => s.append("0"),
        1 => s.append("1"),
        2 => s.append("2"),
        3 => s.append("3"),
        4 => s.append("4"),
        5 => s.append("5"),
        6 => s.append("6"),
        7 => s.append("7"),
        8 => s.append("8"),
        _ => s.append("9"),
    }
    proof {
        assert(s@ =~= old(s)@ + seq![decimal_digit_char(d)]);
    }
}

/// Appends the rendering of the level `b / 255`, rounded to three decimal
/// places, to `s`.
fn push_level(s: &mut String, b: u8)
    ensures
        final(s)@ == old(s)@ + level_chars(b),
{
    proof {
        reveal_strlit(".");
    }
    let t: u32 = (2000 * (b as u32) + 255) / 510;
    assert(t == level_thousandths(b));
    assert(t <= 1000);
    push_decimal_digit(s, t / 1000);
    s.append(".");
    push_decimal_digit(s, (t / 100) % 10);
    push_decimal_digit(s, (t / 10) % 10);
    push_decimal_digit(s, t % 10);
    proof {
        assert(s@ =~= old(s)@ + level_chars(b));
    }
}

} // verus!
