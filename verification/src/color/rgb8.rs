//! Colors stored as 3-byte (`ColorRGB8`) and 4-byte (`ColorRGBA8`) arrays.

use vstd::prelude::*;
use vstd::string::StringSliceAdditionalSpecFns;
use crate::functions::hexadecimal::{all_hex_digits, decoded_bytes, hex_chars};
use crate::functions::hexadecimal::{invalid_digit_error, odd_length_error};
use crate::hexadecimal::{decode_hex_str, encode_hex};

verus! {

/// The error text returned when a decoded color string does not hold exactly
/// three bytes.
pub open spec fn rgb8_format_error() -> Seq<char> {
    "COLOR RGB8 ERROR: Input hexadecimal should be formatted as such: rrggbb!"@
}

/// The error text `ColorRGBA8::from_hex` returns for a wrong-sized input.
pub open spec fn rgba8_format_error() -> Seq<char> {
    "COLOR RGBA8 ERROR: Input hexadecimal should be formatted as such: rrggbb!"@
}

/// Color represented as a 3 byte array: red, green, blue.
#[derive(Clone, Copy, PartialEq, Debug)]
pub struct ColorRGB8 {
    data: [u8; 3],
}

impl View for ColorRGB8 {
    type V = Seq<u8>;

    closed spec fn view(&self) -> Seq<u8> {
        self.data@
    }
}

impl ColorRGB8 {
    /// Creates a `ColorRGB8` from `r`, `g` and `b`.
    pub fn new(r: u8, g: u8, b: u8) -> (c: Self)
        ensures
            c@ =~= seq![r, g, b],
    {
        Self { data: [r, g, b] }
    }

    /// Creates a `ColorRGB8` from a 3 byte array.
    pub fn from_array(rgb: [u8; 3]) -> (c: Self)
        ensures
            c@ == rgb@,
    {
        Self { data: rgb }
    }

    /// Creates a `ColorRGB8` from a hexadecimal string of exactly six digits.
    ///
    /// Returns the error text of the failed decode, or the wrong-size error
    /// when the decode yields other than 3 bytes.
    pub fn from_hex(hex: &str) -> (r: Result<Self, String>)
        ensures
            match r {
                Ok(c) => hex.spec_bytes().len() == 6 && all_hex_digits(hex.spec_bytes()) && c@
                    =~= decoded_bytes(hex.spec_bytes()),
                Err(e) => (hex.spec_bytes().len() != 6 || !all_hex_digits(hex.spec_bytes()))
                    && e@ == if hex.spec_bytes().len() % 2 != 0 {
                    odd_length_error()
                } else if !all_hex_digits(hex.spec_bytes()) {
                    invalid_digit_error()
                } else {
                    rgb8_format_error()
                },
            },
    {
        let bytes = match decode_hex_str(hex) {
            Ok(v) => v,
            Err(e) => {
                return Err(e);
            },
        };
        if bytes.len() != 3 {
            return Err(String::from_str(
                "COLOR RGB8 ERROR: Input hexadecimal should be formatted as such: rrggbb!",
            ));
        }
        Ok(Self::from_array([bytes[0], bytes[1], bytes[2]]))
    }

    /// Returns a reference to the color's data array.
    pub fn as_array(&self) -> (r: &[u8; 3])
        ensures
            r@ == self@,
    {
        &self.data
    }

    /// Returns a mutable reference to the color's data array.
    pub fn as_mut_array(&mut self) -> (r: &mut [u8; 3])
        ensures
            r@ == old(self)@,
            final(self)@ == final(r)@,
    {
        &mut self.data
    }

    /// Returns the color as a hexadecimal `String` of six lower-case digits.
    pub fn as_hex_string(&self) -> (r: String)
        ensures
            r@ == hex_chars(self@),
    {
        encode_hex(self.as_array())
    }

    /// Returns a reference to the `r` component.
    pub fn r(&self) -> (r: &u8)
        ensures
            *r == self@[0],
    {
        &self.data[0]
    }

    /// Returns a reference to the `g` component.
    pub fn g(&self) -> (r: &u8)
        ensures
            *r == self@[1],
    {
        &self.data[1]
    }

    /// Returns a reference to the `b` component.
    pub fn b(&self) -> (r: &u8)
        ensures
            *r == self@[2],
    {
        &self.data[2]
    }

    /// Returns a mutable reference to the `r` component.
    pub fn r_mut(&mut self) -> (r: &mut u8)
        ensures
            *r == old(self)@[0],
            final(self)@ == old(self)@.update(0, *final(r)),
    {
        &mut self.data[0]
    }

    /// Returns a mutable reference to the `g` component.
    pub fn g_mut(&mut self) -> (r: &mut u8)
        ensures
            *r == old(self)@[1],
            final(self)@ == old(self)@.update(1, *final(r)),
    {
        &mut self.data[1]
    }

    /// Returns a mutable reference to the `b` component.
    pub fn b_mut(&mut self) -> (r: &mut u8)
        ensures
            *r == old(self)@[2],
            final(self)@ == old(self)@.update(2, *final(r)),
    {
        &mut self.data[2]
    }

    /// Sets the `r`, `g` and `b` components.
    pub fn set(&mut self, r: u8, g: u8, b: u8)
        ensures
            final(self)@ =~= seq![r, g, b],
    {
        self.data = [r, g, b];
    }

    /// Sets the components to the given array.
    pub fn set_array(&mut self, rgb: [u8; 3])
        ensures
            final(self)@ == rgb@,
    {
        self.data = rgb;
    }
}

/// Color represented as a 4 byte array: red, green, blue, alpha.
#[derive(Clone, Copy, PartialEq, Debug)]
pub struct ColorRGBA8 {
    data: [u8; 4],
}

impl View for ColorRGBA8 {
    type V = Seq<u8>;

    closed spec fn view(&self) -> Seq<u8> {
        self.data@
    }
}

impl ColorRGBA8 {
    /// Creates a `ColorRGBA8` from `r`, `g`, `b` and `a`.
    pub fn new(r: u8, g: u8, b: u8, a: u8) -> (c: Self)
        ensures
            c@ =~= seq![r, g, b, a],
    {
        Self { data: [r, g, b, a] }
    }

    /// Creates a `ColorRGBA8` from a 4 byte array.
    pub fn from_array(rgba: [u8; 4]) -> (c: Self)
        ensures
            c@ == rgba@,
    {
        Self { data: rgba }
    }

    /// Creates a `ColorRGBA8` from a hexadecimal string of exactly six
    /// digits; the alpha component is set to 255.
    pub fn from_hex(hex: &str) -> (r: Result<Self, String>)
        ensures
            match r {
                Ok(c) => hex.spec_bytes().len() == 6 && all_hex_digits(hex.spec_bytes()) && c@
                    =~= decoded_bytes(hex.spec_bytes()).push(255u8),
                Err(e) => (hex.spec_bytes().len() != 6 || !all_hex_digits(hex.spec_bytes()))
                    && e@ == if hex.spec_bytes().len() % 2 != 0 {
                    odd_length_error()
                } else if !all_hex_digits(hex.spec_bytes()) {
                    invalid_digit_error()
                } else {
                    rgba8_format_error()
                },
            },
    {
        let bytes = match decode_hex_str(hex) {
            Ok(v) => v,
            Err(e) => {
                return Err(e);
            },
        };
        if bytes.len() != 3 {
            return Err(String::from_str(
                "COLOR RGBA8 ERROR: Input hexadecimal should be formatted as such: rrggbb!",
            ));
        }
        Ok(Self::from_array([bytes[0], bytes[1], bytes[2], 255]))
    }

    /// Returns a reference to the color's data array.
    pub fn as_array(&self) -> (r: &[u8; 4])
        ensures
            r@ == self@,
    {
        &self.data
    }

    /// Returns a mutable reference to the color's data array.
    pub fn as_mut_array(&mut self) -> (r: &mut [u8; 4])
        ensures
            r@ == old(self)@,
            final(self)@ == final(r)@,
    {
        &mut self.data
    }

    /// Returns the `r`, `g` and `b` components as a hexadecimal `String` of
    /// six lower-case digits; the alpha component is not encoded.
    pub fn as_hex_string(&self) -> (r: String)
        ensures
            r@ == hex_chars(seq![self@[0], self@[1], self@[2]]),
    {
        let rgba = self.as_array();
        let rgb: [u8; 3] = [rgba[0], rgba[1], rgba[2]];
        proof {
            assert(rgb@ =~= seq![self@[0], self@[1], self@[2]]);
        }
        encode_hex(&rgb)
    }

    /// Returns a reference to the `r` component.
    pub fn r(&self) -> (r: &u8)
        ensures
            *r == self@[0],
    {
        &self.data[0]
    }

    /// Returns a reference to the `g` component.
    pub fn g(&self) -> (r: &u8)
        ensures
            *r == self@[1],
    {
        &self.data[1]
    }

    /// Returns a reference to the `b` component.
    pub fn b(&self) -> (r: &u8)
        ensures
            *r == self@[2],
    {
        &self.data[2]
    }

    /// Returns a reference to the `a` component.
    pub fn a(&self) -> (r: &u8)
        ensures
            *r == self@[3],
    {
        &self.data[3]
    }

    /// Returns a mutable reference to the `r` component.
    pub fn r_mut(&mut self) -> (r: &mut u8)
        ensures
            *r == old(self)@[0],
            final(self)@ == old(self)@.update(0, *final(r)),
    {
        &mut self.data[0]
    }

    /// Returns a mutable reference to the `g` component.
    pub fn g_mut(&mut self) -> (r: &mut u8)
        ensures
            *r == old(self)@[1],
            final(self)@ == old(self)@.update(1, *final(r)),
    {
        &mut self.data[1]
    }

    /// Returns a mutable reference to the `b` component.
    pub fn b_mut(&mut self) -> (r: &mut u8)
        ensures
            *r == old(self)@[2],
            final(self)@ == old(self)@.update(2, *final(r)),
    {
        &mut self.data[2]
    }

    /// Returns a mutable reference to the `a` component.
    pub fn a_mut(&mut self) -> (r: &mut u8)
        ensures
            *r == old(self)@[3],
            final(self)@ == old(self)@.update(3, *final(r)),
    {
        &mut self.data[3]
    }

    /// Sets the `r`, `g`, `b` and `a` components.
    pub fn set(&mut self, r: u8, g: u8, b: u8, a: u8)
        ensures
            final(self)@ =~= seq![r, g, b, a],
    {
        self.data = [r, g, b, a];
    }

    /// Sets the components to the given array.
    pub fn set_array(&mut self, rgba: [u8; 4])
        ensures
            final(self)@ == rgba@,
    {
        self.data = rgba;
    }
}

} // verus!
