//! Color stored as a 4-byte array, with named color constructors.

use vstd::prelude::*;
use vstd::string::StringSliceAdditionalSpecFns;
use crate::functions::hexadecimal::{all_hex_digits, decoded_bytes, hex_chars};
use crate::functions::hexadecimal::{invalid_digit_error, odd_length_error};
use crate::functions::hexadecimal::{decode_hex_str, encode_hex};
use crate::color::rgb8::rgba8_format_error;

verus! {

/// Color represented as a 4 byte array: red, green, blue, alpha.
#[derive(Clone, Copy, PartialEq, Debug)]
pub struct RGBA8 {
    data: [u8; 4],
}

impl View for RGBA8 {
    type V = Seq<u8>;

    closed spec fn view(&self) -> Seq<u8> {
        self.data@
    }
}

impl RGBA8 {
    /// Creates an `RGBA8` from `r`, `g`, `b` and `a`.
    pub fn new(r: u8, g: u8, b: u8, a: u8) -> (c: Self)
        ensures
            c@ =~= seq![r, g, b, a],
    {
        Self { data: [r, g, b, a] }
    }

    /// Creates an `RGBA8` from a 4 byte array.
    pub fn from_array(rgba: [u8; 4]) -> (c: Self)
        ensures
            c@ == rgba@,
    {
        Self { data: rgba }
    }

    /// Creates an `RGBA8` from a hexadecimal string of exactly six digits;
    /// the alpha component is set to 255.
    pub fn from_hex(hex: &str) -> (r: Result<Self, String>)
        ensures
            match r {
                Ok(c) => hex.spec_bytes().len() == 6 && all_hex_digits(hex.spec_bytes()) && c@
                    =~= decoded_bytes(hex.spec_bytes()).push(255u8),
                Err(e) => (hex.spec_bytes().len() != 6 || !all_hex_digits(hex.spec_bytes()))
                    && e@ == if hex.spec_bytes().len() % 2 != 0 {
                    odd_length_error()
                } else if !all_hex_digits(hex.spec_bytes()) {
                    invalid_digit_error()
                } else {
                    rgba8_format_error()
                },
            },
    {
        let bytes = match decode_hex_str(hex) {
            Ok(v) => v,
            Err(e) => {
                return Err(e);
            },
        };
        if bytes.len() != 3 {
            return Err(String::from_str(
                "COLOR RGBA8 ERROR: Input hexadecimal should be formatted as such: rrggbb!",
            ));
        }
        Ok(Self::from_array([bytes[0], bytes[1], bytes[2], 255]))
    }

    /// Returns a reference to the color's data array.
    pub fn as_array(&self) -> (r: &[u8; 4])
        ensures
            r@ == self@,
    {
        &self.data
    }

    /// Returns a mutable reference to the color's data array.
    pub fn as_mut_array(&mut self) -> (r: &mut [u8; 4])
        ensures
            r@ == old(self)@,
            final(self)@ == final(r)@,
    {
        &mut self.data
    }

    /// Returns the `r`, `g` and `b` components as a hexadecimal `String` of
    /// six lower-case digits; the alpha component is not encoded.
    pub fn as_hex_string(&self) -> (r: String)
        ensures
            r@ == hex_chars(seq![self@[0], self@[1], self@[2]]),
    {
        let rgba = self.as_array();
        let rgb: [u8; 3] = [rgba[0], rgba[1], rgba[2]];
        proof {
            assert(rgb@ =~= seq![self@[0], self@[1], self@[2]]);
        }
        encode_hex(&rgb)
    }

    /// Returns a reference to the `r` component.
    pub fn r(&self) -> (r: &u8)
        ensures
            *r == self@[0],
    {
        &self.data[0]
    }

    /// Returns a reference to the `g` component.
    pub fn g(&self) -> (r: &u8)
        ensures
            *r == self@[1],
    {
        &self.data[1]
    }

    /// Returns a reference to the `b` component.
    pub fn b(&self) -> (r: &u8)
        ensures
            *r == self@[2],
    {
        &self.data[2]
    }

    /// Returns a reference to the `a` component.
    pub fn a(&self) -> (r: &u8)
        ensures
            *r == self@[3],
    {
        &self.data[3]
    }

    /// Returns a mutable reference to the `r` component.
    pub fn r_mut(&mut self) -> (r: &mut u8)
        ensures
            *r == old(self)@[0],
            final(self)@ == old(self)@.update(0, *final(r)),
    {
        &mut self.data[0]
    }

    /// Returns a mutable reference to the `g` component.
    pub fn g_mut(&mut self) -> (r: &mut u8)
        ensures
            *r == old(self)@[1],
            final(self)@ == old(self)@.update(1, *final(r)),
    {
        &mut self.data[1]
    }

    /// Returns a mutable reference to the `b` component.
    pub fn b_mut(&mut self) -> (r: &mut u8)
        ensures
            *r == old(self)@[2],
            final(self)@ == old(self)@.update(2, *final(r)),
    {
        &mut self.data[2]
    }

    /// Returns a mutable reference to the `a` component.
    pub fn a_mut(&mut self) -> (r: &mut u8)
        ensures
            *r == old(self)@[3],
            final(self)@ == old(self)@.update(3, *final(r)),
    {
        &mut self.data[3]
    }

    /// Sets the `r`, `g`, `b` and `a` components.
    pub fn set(&mut self, r: u8, g: u8, b: u8, a: u8)
        ensures
            final(self)@ =~= seq![r, g, b, a],
    {
        self.data = [r, g, b, a];
    }

    /// Sets the components to the given array.
    pub fn set_array(&mut self, rgba: [u8; 4])
        ensures
            final(self)@ == rgba@,
    {
        self.data = rgba;
    }

    /// Creates a new `RGBA8` that represents red.
    pub fn new_red() -> (c: Self)
        ensures
            c@ =~= seq![255u8, 0u8, 0u8, 255u8],
    {
        Self::new(255, 0, 0, 255)
    }

    /// Creates a new `RGBA8` that represents green.
    pub fn new_green() -> (c: Self)
        ensures
            c@ =~= seq![0u8, 255u8, 0u8, 255u8],
    {
        Self::new(0, 255, 0, 255)
    }

    /// Creates a new `RGBA8` that represents blue.
    pub fn new_blue() -> (c: Self)
        ensures
            c@ =~= seq![0u8, 0u8, 255u8, 255u8],
    {
        Self::new(0, 0, 255, 255)
    }

    /// Creates a new `RGBA8` that represents cyan.
    pub fn new_cyan() -> (c: Self)
        ensures
            c@ =~= seq![0u8, 255u8, 255u8, 255u8],
    {
        Self::new(0, 255, 255, 255)
    }

    /// Creates a new `RGBA8` that represents magenta.
    pub fn new_magenta() -> (c: Self)
        ensures
            c@ =~= seq![255u8, 0u8, 255u8, 255u8],
    {
        Self::new(255, 0, 255, 255)
    }

    /// Creates a new `RGBA8` that represents yellow.
    pub fn new_yellow() -> (c: Self)
        ensures
            c@ =~= seq![255u8, 255u8, 0u8, 255u8],
    {
        Self::new(255, 255, 0, 255)
    }

    /// Creates a new `RGBA8` that represents black.
    pub fn new_black() -> (c: Self)
        ensures
            c@ =~= seq![0u8, 0u8, 0u8, 255u8],
    {
        Self::new(0, 0, 0, 255)
    }

    /// Creates a new `RGBA8` that represents gray.
    pub fn new_gray() -> (c: Self)
        ensures
            c@ =~= seq![128u8, 128u8, 128u8, 255u8],
    {
        Self::new(128, 128, 128, 255)
    }

    /// Creates a new `RGBA8` that represents white.
    pub fn new_white() -> (c: Self)
        ensures
            c@ =~= seq![255u8, 255u8, 255u8, 255u8],
    {
        Self::new(255, 255, 255, 255)
    }

    /// Creates a new `RGBA8` that represents full transparency.
    pub fn new_clear() -> (c: Self)
        ensures
            c@ =~= seq![0u8, 0u8, 0u8, 0u8],
    {
        Self::new(0, 0, 0, 0)
    }
}

} // verus!
