//! Color packed into one 32-bit word, least significant byte first:
//! red, green, blue, alpha.

use vstd::prelude::*;
use vstd::string::StringSliceAdditionalSpecFns;
use crate::functions::hexadecimal::{all_hex_digits, decoded_bytes, hex_chars, strip_hash_marks};
use crate::functions::hexadecimal::{bad_rgb_format_error, invalid_digit_error};
use crate::functions::hexadecimal::{decode_hex_rgb, encode_hex};
use vstd::string::StringExecFns;

verus! {

/// The 32-bit word holding the four byte components, red in the least
/// significant byte.
pub open spec fn rgb_pack(r: u8, g: u8, b: u8, a: u8) -> u32 {
    (r as u32) | ((g as u32) << 8) | ((b as u32) << 16) | ((a as u32) << 24)
}

/// The red component of the packed word `c`.
pub open spec fn rgb_r(c: u32) -> u8 {
    (c & 0xff) as u8
}

/// The green component of the packed word `c`.
pub open spec fn rgb_g(c: u32) -> u8 {
    ((c >> 8) & 0xff) as u8
}

/// The blue component of the packed word `c`.
pub open spec fn rgb_b(c: u32) -> u8 {
    ((c >> 16) & 0xff) as u8
}

/// The alpha component of the packed word `c`.
pub open spec fn rgb_a(c: u32) -> u8 {
    ((c >> 24) & 0xff) as u8
}

/// Unpacking a packed word gives back the four components.
pub broadcast proof fn lemma_rgb_pack_unpack(r: u8, g: u8, b: u8, a: u8)
    ensures
        rgb_r(#[trigger] rgb_pack(r, g, b, a)) == r,
        rgb_g(rgb_pack(r, g, b, a)) == g,
        rgb_b(rgb_pack(r, g, b, a)) == b,
        rgb_a(rgb_pack(r, g, b, a)) == a,
{
    assert((((r as u32) | ((g as u32) << 8) | ((b as u32) << 16) | ((a as u32) << 24)) & 0xff)
        as u8 == r) by (bit_vector);
    assert(((((r as u32) | ((g as u32) << 8) | ((b as u32) << 16) | ((a as u32) << 24)) >> 8)
        & 0xff) as u8 == g) by (bit_vector);
    assert(((((r as u32) | ((g as u32) << 8) | ((b as u32) << 16) | ((a as u32) << 24)) >> 16)
        & 0xff) as u8 == b) by (bit_vector);
    assert(((((r as u32) | ((g as u32) << 8) | ((b as u32) << 16) | ((a as u32) << 24)) >> 24)
        & 0xff) as u8 == a) by (bit_vector);
}

/// A packed word is its four components packed again.
pub proof fn lemma_rgb_repack(c: u32)
    ensures
        rgb_pack(rgb_r(c), rgb_g(c), rgb_b(c), rgb_a(c)) == c,
{
    assert((((c & 0xff) as u8) as u32) | (((((c >> 8) & 0xff) as u8) as u32) << 8) | (((((c
        >> 16) & 0xff) as u8) as u32) << 16) | (((((c >> 24) & 0xff) as u8) as u32) << 24)
        == c) by (bit_vector);
}

/// `RGB`: a 32-bit color, stored least significant byte first.
#[derive(Clone, Copy, PartialEq, Debug)]
pub struct RGB {
    c: u32,
}

impl View for RGB {
    type V = u32;

    closed spec fn view(&self) -> u32 {
        self.c
    }
}

impl RGB {
    /// Creates a new `RGB` with the alpha component set to 0.
    pub fn new_rgb(r: u8, g: u8, b: u8) -> (c: Self)
        ensures
            c@ == rgb_pack(r, g, b, 0),
    {
        Self::new_rgba(r, g, b, 0)
    }

    /// Creates a new `RGBA` color from its four byte components.
    pub fn new_rgba(r: u8, g: u8, b: u8, a: u8) -> (c: Self)
        ensures
            c@ == rgb_pack(r, g, b, a),
    {
        Self { c: (r as u32) | ((g as u32) << 8) | ((b as u32) << 16) | ((a as u32) << 24) }
    }

    /// Creates a new `RGB` from a 3 byte array; alpha is 0.
    pub fn from_array_rgb(rgb: [u8; 3]) -> (c: Self)
        ensures
            c@ == rgb_pack(rgb@[0], rgb@[1], rgb@[2], 0),
    {
        Self::new_rgb(rgb[0], rgb[1], rgb[2])
    }

    /// Creates a new `RGB` from a 4 byte array.
    pub fn from_array_rgba(rgba: [u8; 4]) -> (c: Self)
        ensures
            c@ == rgb_pack(rgba@[0], rgba@[1], rgba@[2], rgba@[3]),
    {
        Self::new_rgba(rgba[0], rgba[1], rgba[2], rgba[3])
    }

    /// Creates a new `RGB` from a hexadecimal color string: six digits after
    /// any leading `#` marks; alpha is 0.
    pub fn from_hex(hex: &str) -> (r: Result<Self, String>)
        ensures
            match r {
                Ok(c) => {
                    let bs = strip_hash_marks(hex.spec_bytes());
                    let d = decoded_bytes(bs);
                    bs.len() == 6 && all_hex_digits(bs) && c@ == rgb_pack(d[0], d[1], d[2], 0)
                },
                Err(e) => {
                    let bs = strip_hash_marks(hex.spec_bytes());
                    (bs.len() != 6 || !all_hex_digits(bs)) && e@ == if bs.len() != 6 {
                        bad_rgb_format_error()
                    } else {
                        invalid_digit_error()
                    }
                },
            },
    {
        match decode_hex_rgb(hex) {
            Ok(rgb) => Ok(Self::from_array_rgb(rgb)),
            Err(e) => Err(e),
        }
    }

    /// Returns the red, green and blue components as a 3 byte array.
    pub fn as_rgb_array(&self) -> (r: [u8; 3])
        ensures
            r@ =~= seq![rgb_r(self@), rgb_g(self@), rgb_b(self@)],
    {
        [self.r(), self.g(), self.b()]
    }

    /// Returns all four components as a 4 byte array.
    pub fn as_rgba_array(&self) -> (r: [u8; 4])
        ensures
            r@ =~= seq![rgb_r(self@), rgb_g(self@), rgb_b(self@), rgb_a(self@)],
    {
        [self.r(), self.g(), self.b(), self.a()]
    }

    /// Returns the red, green and blue components as a tuple.
    pub fn as_rgb_tuple(&self) -> (r: (u8, u8, u8))
        ensures
            r == (rgb_r(self@), rgb_g(self@), rgb_b(self@)),
    {
        (self.r(), self.g(), self.b())
    }

    /// Returns all four components as a tuple.
    pub fn as_rgba_tuple(&self) -> (r: (u8, u8, u8, u8))
        ensures
            r == (rgb_r(self@), rgb_g(self@), rgb_b(self@), rgb_a(self@)),
    {
        (self.r(), self.g(), self.b(), self.a())
    }

    /// Returns the hexadecimal encoding of the red, green and blue
    /// components, with a leading `#` mark.
    pub fn as_hex_rgb(&self) -> (r: String)
        ensures
            r@ == seq!['#'] + hex_chars(seq![rgb_r(self@), rgb_g(self@), rgb_b(self@)]),
    {
        proof {
            reveal_strlit("#");
        }
        let mut result = String::from_str("#");
        let rgb = self.as_rgb_array();
        let encoded = encode_hex(&rgb);
        result.append(encoded.as_str());
        proof {
            assert(result@ =~= seq!['#'] + hex_chars(seq![
                rgb_r(self@),
                rgb_g(self@),
                rgb_b(self@),
            ]));
        }
        result
    }

    /// Returns the red component.
    pub fn r(&self) -> (r: u8)
        ensures
            r == rgb_r(self@),
    {
        proof {
            let c0 = self.c;
            assert((c0 >> 0) as u8 == (c0 & 0xff) as u8) by (bit_vector);
        }
        #[verifier::truncate] ((self.c >> 0) as u8)
    }

    /// Returns the green component.
    pub fn g(&self) -> (r: u8)
        ensures
            r == rgb_g(self@),
    {
        proof {
            let c0 = self.c;
            assert((c0 >> 8) as u8 == ((c0 >> 8) & 0xff) as u8) by (bit_vector);
        }
        #[verifier::truncate] ((self.c >> 8) as u8)
    }

    /// Returns the blue component.
    pub fn b(&self) -> (r: u8)
        ensures
            r == rgb_b(self@),
    {
        proof {
            let c0 = self.c;
            assert((c0 >> 16) as u8 == ((c0 >> 16) & 0xff) as u8) by (bit_vector);
        }
        #[verifier::truncate] ((self.c >> 16) as u8)
    }

    /// Returns the alpha component.
    pub fn a(&self) -> (r: u8)
        ensures
            r == rgb_a(self@),
    {
        proof {
            let c0 = self.c;
            assert((c0 >> 24) as u8 == ((c0 >> 24) & 0xff) as u8) by (bit_vector);
        }
        #[verifier::truncate] ((self.c >> 24) as u8)
    }

    /// Sets the red component; the other components keep their values.
    pub fn set_r(&mut self, r: u8)
        ensures
            final(self)@ == rgb_pack(r, rgb_g(old(self)@), rgb_b(old(self)@), rgb_a(old(self)@)),
    {
        // clear the byte first, push the new value after
        self.c &= !(255u32 << 0);
        self.c |= (r as u32) << 0;
        proof {
            let c0 = old(self)@;
            assert((c0 & !(255u32 << 0)) | ((r as u32) << 0) == ((r as u32) | ((((c0 >> 8)
                & 0xff) as u8 as u32) << 8) | ((((c0 >> 16) & 0xff) as u8 as u32) << 16) | ((((
            c0 >> 24) & 0xff) as u8 as u32) << 24))) by (bit_vector);
        }
    }

    /// Sets the green component; the other components keep their values.
    pub fn set_g(&mut self, g: u8)
        ensures
            final(self)@ == rgb_pack(rgb_r(old(self)@), g, rgb_b(old(self)@), rgb_a(old(self)@)),
    {
        // clear the byte first, push the new value after
        self.c &= !(255u32 << 8);
        self.c |= (g as u32) << 8;
        proof {
            let c0 = old(self)@;
            assert((c0 & !(255u32 << 8)) | ((g as u32) << 8) == (((c0 & 0xff) as u8 as u32) | ((
            g as u32) << 8) | ((((c0 >> 16) & 0xff) as u8 as u32) << 16) | ((((c0 >> 24) & 0xff)
                as u8 as u32) << 24))) by (bit_vector);
        }
    }

    /// Sets the blue component; the other components keep their values.
    pub fn set_b(&mut self, b: u8)
        ensures
            final(self)@ == rgb_pack(rgb_r(old(self)@), rgb_g(old(self)@), b, rgb_a(old(self)@)),
    {
        // clear the byte first, push the new value after
        self.c &= !(255u32 << 16);
        self.c |= (b as u32) << 16;
        proof {
            let c0 = old(self)@;
            assert((c0 & !(255u32 << 16)) | ((b as u32) << 16) == (((c0 & 0xff) as u8 as u32)
                | ((((c0 >> 8) & 0xff) as u8 as u32) << 8) | ((b as u32) << 16) | ((((c0 >> 24)
                & 0xff) as u8 as u32) << 24))) by (bit_vector);
        }
    }

    /// Sets the alpha component; the other components keep their values.
    pub fn set_a(&mut self, a: u8)
        ensures
            final(self)@ == rgb_pack(rgb_r(old(self)@), rgb_g(old(self)@), rgb_b(old(self)@), a),
    {
        // clear the byte first, push the new value after
        self.c &= !(255u32 << 24);
        self.c |= (a as u32) << 24;
        proof {
            let c0 = old(self)@;
            assert((c0 & !(255u32 << 24)) | ((a as u32) << 24) == (((c0 & 0xff) as u8 as u32)
                | ((((c0 >> 8) & 0xff) as u8 as u32) << 8) | ((((c0 >> 16) & 0xff) as u8 as u32)
                << 16) | ((a as u32) << 24))) by (bit_vector);
        }
    }

    /// Returns the packed word rendered in binary: `0b` and 32 digits,
    /// most significant bit first.
    pub fn format_as_bytes(&self) -> (r: String)
        ensures
            r@ == binary_chars(self@),
    {
        format_u32_binary(self.c)
    }

    /// Creates a new `RGB` with red and alpha set to 255.
    pub fn new_red() -> (c: Self)
        ensures
            c@ == rgb_pack(255, 0, 0, 255),
    {
        Self::new_rgba(255, 0, 0, 255)
    }

    /// Creates a new `RGB` with green and alpha set to 255.
    pub fn new_green() -> (c: Self)
        ensures
            c@ == rgb_pack(0, 255, 0, 255),
    {
        Self::new_rgba(0, 255, 0, 255)
    }

    /// Creates a new `RGB` with blue and alpha set to 255.
    pub fn new_blue() -> (c: Self)
        ensures
            c@ == rgb_pack(0, 0, 255, 255),
    {
        Self::new_rgba(0, 0, 255, 255)
    }

    /// Creates a new `RGB` with red, green and alpha set to 255.
    pub fn new_yellow() -> (c: Self)
        ensures
            c@ == rgb_pack(255, 255, 0, 255),
    {
        Self::new_rgba(255, 255, 0, 255)
    }

    /// Creates a new `RGB` with green, blue and alpha set to 255.
    pub fn new_cyan() -> (c: Self)
        ensures
            c@ == rgb_pack(0, 255, 255, 255),
    {
        Self::new_rgba(0, 255, 255, 255)
    }

    /// Creates a new `RGB` with red, blue and alpha set to 255.
    pub fn new_magenta() -> (c: Self)
        ensures
            c@ == rgb_pack(255, 0, 255, 255),
    {
        Self::new_rgba(255, 0, 255, 255)
    }

    /// Creates a new `RGB` with all four components set to 255.
    pub fn new_white() -> (c: Self)
        ensures
            c@ == rgb_pack(255, 255, 255, 255),
    {
        Self::new_rgba(255, 255, 255, 255)
    }

    /// Creates a new `RGB` with red, green and blue set to 0 and alpha set
    /// to 255.
    pub fn new_black() -> (c: Self)
        ensures
            c@ == rgb_pack(0, 0, 0, 255),
    {
        Self::new_rgba(0, 0, 0, 255)
    }

    /// Creates a new `RGB` with red, green and blue set to 127 and alpha set
    /// to 255.
    pub fn new_gray() -> (c: Self)
        ensures
            c@ == rgb_pack(127, 127, 127, 255),
    {
        Self::new_rgba(127, 127, 127, 255)
    }

    /// Creates a new `RGB` with red, green and blue set to 127 and alpha set
    /// to 255.
    pub fn new_grey() -> (c: Self)
        ensures
            c@ == rgb_pack(127, 127, 127, 255),
    {
        Self::new_rgba(127, 127, 127, 255)
    }

    /// Creates a new `RGB` with all four components set to 0.
    pub fn new_clear() -> (c: Self)
        ensures
            c@ == rgb_pack(0, 0, 0, 0),
    {
        Self::new_rgba(0, 0, 0, 0)
    }
}

/// The binary rendering of `c`: `0b` and 32 digits, most significant bit
/// first.
pub open spec fn binary_chars(c: u32) -> Seq<char> {
    seq!['0', 'b'] + Seq::new(32, |i: int| if (c >> (31 - i)) & 1 == 1 {
        '1'
    } else {
        '0'
    })
}

/// Renders `c` in binary: `0b` and 32 digits, most significant bit first.
pub fn format_u32_binary(c: u32) -> (r: String)
    ensures
        r@ == binary_chars(c),
{
    proof {
        reveal_strlit("0b");
        reveal_strlit("0");
        reveal_strlit("1");
    }
    let mut result = String::from_str("0b");
    let mut i: usize = 0;
    while i < 32
        invariant
            i <= 32,
            result@ == binary_chars(c).take(2 + i as int),
        decreases 32 - i,
    {
        let shift: u32 = 31 - (i as u32);
        let bit = (c >> shift) & 1;
        if bit == 1 {
            result.append("1");
        } else {
            result.append("0");
        }
        proof {
            reveal_strlit("0");
            reveal_strlit("1");
            assert(result@ =~= binary_chars(c).take(2 + (i + 1) as int));
        }
        i += 1;
    }
    proof {
        assert(binary_chars(c).take(34) =~= binary_chars(c));
    }
    result
}

} // verus!
