//! Color stored as a 3-byte array, with named color constructors.

use vstd::prelude::*;
use vstd::string::StringSliceAdditionalSpecFns;
use crate::functions::hexadecimal::{all_hex_digits, decoded_bytes, hex_chars};
use crate::functions::hexadecimal::{invalid_digit_error, odd_length_error};
use crate::functions::hexadecimal::{decode_hex_str, encode_hex};
use crate::color::rgb8::rgb8_format_error;
use crate::types::rgba8::RGBA8;

verus! {

/// Color represented as a 3 byte array: red, green, blue.
#[derive(Clone, Copy, PartialEq, Debug)]
pub struct RGB8 {
    data: [u8; 3],
}

impl View for RGB8 {
    type V = Seq<u8>;

    closed spec fn view(&self) -> Seq<u8> {
        self.data@
    }
}

impl RGB8 {
    /// Creates an `RGB8` from an `RGBA8`; the `a` component is lost in the
    /// conversion.
    pub fn from_rgba8(c: RGBA8) -> (r: Self)
        ensures
            r@ =~= seq![c@[0], c@[1], c@[2]],
    {
        let rgba = c.as_array();
        Self::new(rgba[0], rgba[1], rgba[2])
    }

    /// Creates an `RGB8` from `r`, `g` and `b`.
    pub fn new(r: u8, g: u8, b: u8) -> (c: Self)
        ensures
            c@ =~= seq![r, g, b],
    {
        Self { data: [r, g, b] }
    }

    /// Creates an `RGB8` from a 3 byte array.
    pub fn from_array(rgb: [u8; 3]) -> (c: Self)
        ensures
            c@ == rgb@,
    {
        Self { data: rgb }
    }

    /// Creates an `RGB8` from a hexadecimal string of exactly six digits.
    pub fn from_hex(hex: &str) -> (r: Result<Self, String>)
        ensures
            match r {
                Ok(c) => hex.spec_bytes().len() == 6 && all_hex_digits(hex.spec_bytes()) && c@
                    =~= decoded_bytes(hex.spec_bytes()),
                Err(e) => (hex.spec_bytes().len() != 6 || !all_hex_digits(hex.spec_bytes()))
                    && e@ == if hex.spec_bytes().len() % 2 != 0 {
                    odd_length_error()
                } else if !all_hex_digits(hex.spec_bytes()) {
                    invalid_digit_error()
                } else {
                    rgb8_format_error()
                },
            },
    {
        let bytes = match decode_hex_str(hex) {
            Ok(v) => v,
            Err(e) => {
                return Err(e);
            },
        };
        if bytes.len() != 3 {
            return Err(String::from_str(
                "COLOR RGB8 ERROR: Input hexadecimal should be formatted as such: rrggbb!",
            ));
        }
        Ok(Self::from_array([bytes[0], bytes[1], bytes[2]]))
    }

    /// Returns a reference to the color's data array.
    pub fn as_array(&self) -> (r: &[u8; 3])
        ensures
            r@ == self@,
    {
        &self.data
    }

    /// Returns a mutable reference to the color's data array.
    pub fn as_mut_array(&mut self) -> (r: &mut [u8; 3])
        ensures
            r@ == old(self)@,
            final(self)@ == final(r)@,
    {
        &mut self.data
    }

    /// Returns the color as a hexadecimal `String` of six lower-case digits.
    pub fn as_hex_string(&self) -> (r: String)
        ensures
            r@ == hex_chars(self@),
    {
        encode_hex(self.as_array())
    }

    /// Returns a reference to the `r` component.
    pub fn r(&self) -> (r: &u8)
        ensures
            *r == self@[0],
    {
        &self.data[0]
    }

    /// Returns a reference to the `g` component.
    pub fn g(&self) -> (r: &u8)
        ensures
            *r == self@[1],
    {
        &self.data[1]
    }

    /// Returns a reference to the `b` component.
    pub fn b(&self) -> (r: &u8)
        ensures
            *r == self@[2],
    {
        &self.data[2]
    }

    /// Returns a mutable reference to the `r` component.
    pub fn r_mut(&mut self) -> (r: &mut u8)
        ensures
            *r == old(self)@[0],
            final(self)@ == old(self)@.update(0, *final(r)),
    {
        &mut self.data[0]
    }

    /// Returns a mutable reference to the `g` component.
    pub fn g_mut(&mut self) -> (r: &mut u8)
        ensures
            *r == old(self)@[1],
            final(self)@ == old(self)@.update(1, *final(r)),
    {
        &mut self.data[1]
    }

    /// Returns a mutable reference to the `b` component.
    pub fn b_mut(&mut self) -> (r: &mut u8)
        ensures
            *r == old(self)@[2],
            final(self)@ == old(self)@.update(2, *final(r)),
    {
        &mut self.data[2]
    }

    /// Sets the `r`, `g` and `b` components.
    pub fn set(&mut self, r: u8, g: u8, b: u8)
        ensures
            final(self)@ =~= seq![r, g, b],
    {
        self.data = [r, g, b];
    }

    /// Sets the components to the given array.
    pub fn set_array(&mut self, rgb: [u8; 3])
        ensures
            final(self)@ == rgb@,
    {
        self.data = rgb;
    }

    /// Creates a new `RGB8` that represents red.
    pub fn new_red() -> (c: Self)
        ensures
            c@ =~= seq![255u8, 0u8, 0u8],
    {
        Self::new(255, 0, 0)
    }

    /// Creates a new `RGB8` that represents green.
    pub fn new_green() -> (c: Self)
        ensures
            c@ =~= seq![0u8, 255u8, 0u8],
    {
        Self::new(0, 255, 0)
    }

    /// Creates a new `RGB8` that represents blue.
    pub fn new_blue() -> (c: Self)
        ensures
            c@ =~= seq![0u8, 0u8, 255u8],
    {
        Self::new(0, 0, 255)
    }

    /// Creates a new `RGB8` that represents cyan.
    pub fn new_cyan() -> (c: Self)
        ensures
            c@ =~= seq![0u8, 255u8, 255u8],
    {
        Self::new(0, 255, 255)
    }

    /// Creates a new `RGB8` that represents magenta.
    pub fn new_magenta() -> (c: Self)
        ensures
            c@ =~= seq![255u8, 0u8, 255u8],
    {
        Self::new(255, 0, 255)
    }

    /// Creates a new `RGB8` that represents yellow.
    pub fn new_yellow() -> (c: Self)
        ensures
            c@ =~= seq![255u8, 255u8, 0u8],
    {
        Self::new(255, 255, 0)
    }

    /// Creates a new `RGB8` that represents black.
    pub fn new_black() -> (c: Self)
        ensures
            c@ =~= seq![0u8, 0u8, 0u8],
    {
        Self::new(0, 0, 0)
    }

    /// Creates a new `RGB8` that represents gray.
    pub fn new_gray() -> (c: Self)
        ensures
            c@ =~= seq![128u8, 128u8, 128u8],
    {
        Self::new(128, 128, 128)
    }

    /// Creates a new `RGB8` that represents white.
    pub fn new_white() -> (c: Self)
        ensures
            c@ =~= seq![255u8, 255u8, 255u8],
    {
        Self::new(255, 255, 255)
    }
}

} // verus!
