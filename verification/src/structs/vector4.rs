//! 4-component boolean and integer vectors.

use vstd::prelude::*;
use crate::structs::vector3::{clamp_i32, clamped_i32};

verus! {

/// bool 4-component vector.
#[derive(Debug, Clone, Copy, PartialEq, Eq)]
pub struct Vector4Bool {
    components: [bool; 4],
}

impl View for Vector4Bool {
    type V = Seq<bool>;

    closed spec fn view(&self) -> Seq<bool> {
        self.components@
    }
}

impl Vector4Bool {
    /// Creates a new vector.
    pub fn new(x: bool, y: bool, z: bool, w: bool) -> (v: Self)
        ensures
            v@ =~= seq![x, y, z, w],
    {
        Self { components: [x, y, z, w] }
    }

    /// Creates a new vector from an array.
    pub fn from_array(array: [bool; 4]) -> (v: Self)
        ensures
            v@ == array@,
    {
        Self { components: array }
    }

    /// Gets the x component.
    pub fn x(&self) -> (r: bool)
        ensures
            r == self@[0],
    {
        self.components[0]
    }

    /// Gets the y component.
    pub fn y(&self) -> (r: bool)
        ensures
            r == self@[1],
    {
        self.components[1]
    }

    /// Gets the z component.
    pub fn z(&self) -> (r: bool)
        ensures
            r == self@[2],
    {
        self.components[2]
    }

    /// Gets the w component.
    pub fn w(&self) -> (r: bool)
        ensures
            r == self@[3],
    {
        self.components[3]
    }

    /// Returns true exactly when the components of the two vectors are equal.
    pub fn equals(&self, other: Vector4Bool) -> (r: bool)
        ensures
            r == (self@ =~= other@),
    {
        self.components[0] == other.components[0] && self.components[1] == other.components[1]
            && self.components[2] == other.components[2] && self.components[3]
            == other.components[3]
    }

    /// Sets the four components.
    pub fn set(&mut self, x: bool, y: bool, z: bool, w: bool)
        ensures
            final(self)@ =~= seq![x, y, z, w],
    {
        self.components = [x, y, z, w];
    }

    /// Gets the component slice.
    pub fn as_slice(&self) -> (r: &[bool])
        ensures
            r@ == self@,
    {
        &self.components
    }

    /// Creates a vector with every component set to true.
    pub fn new_true() -> (v: Self)
        ensures
            v@ =~= seq![true, true, true, true],
    {
        Self::new(true, true, true, true)
    }

    /// Creates a vector with every component set to false.
    pub fn new_false() -> (v: Self)
        ensures
            v@ =~= seq![false, false, false, false],
    {
        Self::new(false, false, false, false)
    }

    /// Converts each component to an integer: 1 for true, 0 for false.
    pub fn to_int_bool(self) -> (r: [u32; 4])
        ensures
            r@ =~= self@.map_values(|b: bool| if b { 1u32 } else { 0u32 }),
    {
        let r: [u32; 4] = [
            if self.components[0] { 1 } else { 0 },
            if self.components[1] { 1 } else { 0 },
            if self.components[2] { 1 } else { 0 },
            if self.components[3] { 1 } else { 0 },
        ];
        r
    }

    /// Converts each component to a byte: 1 for true, 0 for false.
    pub fn to_char_bool(self) -> (r: [u8; 4])
        ensures
            r@ =~= self@.map_values(|b: bool| if b { 1u8 } else { 0u8 }),
    {
        let r: [u8; 4] = [
            if self.components[0] { 1 } else { 0 },
            if self.components[1] { 1 } else { 0 },
            if self.components[2] { 1 } else { 0 },
            if self.components[3] { 1 } else { 0 },
        ];
        r
    }
}

/// i32 4-component vector.
#[derive(Debug, Clone, Copy, PartialEq, Eq)]
pub struct Vector4Int {
    components: [i32; 4],
}

impl View for Vector4Int {
    type V = Seq<i32>;

    closed spec fn view(&self) -> Seq<i32> {
        self.components@
    }
}

impl Vector4Int {
    /// Creates a new vector.
    pub fn new(x: i32, y: i32, z: i32, w: i32) -> (v: Self)
        ensures
            v@ =~= seq![x, y, z, w],
    {
        Self { components: [x, y, z, w] }
    }

    /// Creates a new vector from an array.
    pub fn from_array(array: [i32; 4]) -> (v: Self)
        ensures
            v@ == array@,
    {
        Self { components: array }
    }

    /// Gets the x component.
    pub fn x(&self) -> (r: i32)
        ensures
            r == self@[0],
    {
        self.components[0]
    }

    /// Gets the y component.
    pub fn y(&self) -> (r: i32)
        ensures
            r == self@[1],
    {
        self.components[1]
    }

    /// Gets the z component.
    pub fn z(&self) -> (r: i32)
        ensures
            r == self@[2],
    {
        self.components[2]
    }

    /// Gets the w component.
    pub fn w(&self) -> (r: i32)
        ensures
            r == self@[3],
    {
        self.components[3]
    }

    /// Returns true exactly when the components of the two vectors are equal.
    pub fn equals(&self, other: Vector4Int) -> (r: bool)
        ensures
            r == (self@ =~= other@),
    {
        self.components[0] == other.components[0] && self.components[1] == other.components[1]
            && self.components[2] == other.components[2] && self.components[3]
            == other.components[3]
    }

    /// Sets the four components.
    pub fn set(&mut self, x: i32, y: i32, z: i32, w: i32)
        ensures
            final(self)@ =~= seq![x, y, z, w],
    {
        self.components = [x, y, z, w];
    }

    /// Gets the component slice.
    pub fn as_slice(&self) -> (r: &[i32])
        ensures
            r@ == self@,
    {
        &self.components
    }

    /// Gets the squared length of this vector.
    ///
    /// The squared length must fit the result type.
    pub fn sqr_magnitude(&self) -> (r: i32)
        requires
            self@[0] * self@[0] + self@[1] * self@[1] + self@[2] * self@[2] + self@[3]
                * self@[3] <= i32::MAX,
        ensures
            r == self@[0] * self@[0] + self@[1] * self@[1] + self@[2] * self@[2] + self@[3]
                * self@[3],
    {
        proof {
            let (x, y, z, w) = (self@[0] as int, self@[1] as int, self@[2] as int, self@[3] as int);
            assert(x * x >= 0 && y * y >= 0 && z * z >= 0 && w * w >= 0) by (nonlinear_arith);
        }
        self.components[0] * self.components[0] + self.components[1] * self.components[1]
            + self.components[2] * self.components[2] + self.components[3] * self.components[3]
    }

    /// Clamps each component between the matching components of `min` and
    /// `max`; each lower bound must not exceed its upper bound.
    pub fn clamp(&mut self, min: Self, max: Self)
        requires
            min@[0] <= max@[0] && min@[1] <= max@[1] && min@[2] <= max@[2] && min@[3] <= max@[3],
        ensures
            final(self)@ =~= Seq::new(4, |k: int| clamped_i32(old(self)@[k], min@[k], max@[k])),
    {
        self.components = [
            clamp_i32(self.components[0], min.components[0], max.components[0]),
            clamp_i32(self.components[1], min.components[1], max.components[1]),
            clamp_i32(self.components[2], min.components[2], max.components[2]),
            clamp_i32(self.components[3], min.components[3], max.components[3]),
        ];
    }

    /// Converts to an array of bytes; each component is truncated.
    pub fn to_u8_array(self) -> (r: [u8; 4])
        ensures
            r@ =~= seq![self@[0] as u8, self@[1] as u8, self@[2] as u8, self@[3] as u8],
    {
        [
            #[verifier::truncate] (self.components[0] as u8),
            #[verifier::truncate] (self.components[1] as u8),
            #[verifier::truncate] (self.components[2] as u8),
            #[verifier::truncate] (self.components[3] as u8),
        ]
    }

    /// Converts to an array of signed bytes; each component is truncated.
    pub fn to_i8_array(self) -> (r: [i8; 4])
        ensures
            r@ =~= seq![self@[0] as i8, self@[1] as i8, self@[2] as i8, self@[3] as i8],
    {
        [
            #[verifier::truncate] (self.components[0] as i8),
            #[verifier::truncate] (self.components[1] as i8),
            #[verifier::truncate] (self.components[2] as i8),
            #[verifier::truncate] (self.components[3] as i8),
        ]
    }

    /// Converts to an array of 16-bit words; each component is truncated.
    pub fn to_u16_array(self) -> (r: [u16; 4])
        ensures
            r@ =~= seq![self@[0] as u16, self@[1] as u16, self@[2] as u16, self@[3] as u16],
    {
        [
            #[verifier::truncate] (self.components[0] as u16),
            #[verifier::truncate] (self.components[1] as u16),
            #[verifier::truncate] (self.components[2] as u16),
            #[verifier::truncate] (self.components[3] as u16),
        ]
    }

    /// Converts to an array of signed 16-bit words; each component is
    /// truncated.
    pub fn to_i16_array(self) -> (r: [i16; 4])
        ensures
            r@ =~= seq![self@[0] as i16, self@[1] as i16, self@[2] as i16, self@[3] as i16],
    {
        [
            #[verifier::truncate] (self.components[0] as i16),
            #[verifier::truncate] (self.components[1] as i16),
            #[verifier::truncate] (self.components[2] as i16),
            #[verifier::truncate] (self.components[3] as i16),
        ]
    }

    /// Converts to an array of 32-bit words; each component is reinterpreted.
    pub fn to_u32_array(self) -> (r: [u32; 4])
        ensures
            r@ =~= seq![self@[0] as u32, self@[1] as u32, self@[2] as u32, self@[3] as u32],
    {
        [
            #[verifier::truncate] (self.components[0] as u32),
            #[verifier::truncate] (self.components[1] as u32),
            #[verifier::truncate] (self.components[2] as u32),
            #[verifier::truncate] (self.components[3] as u32),
        ]
    }
}

} // verus!
