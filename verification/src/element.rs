//! The element trait behind the generic algorithms.
//!
//! Each of the eight integer element types implements [`Element`] with
//! its native wrapping arithmetic; the spec functions restate vstd's
//! trusted semantics of `wrapping_add` and `wrapping_mul`, so the
//! algorithms in [`crate::arith`] are written once, generic over the
//! element type, and instantiated per type code at the call boundary.

use vstd::prelude::*;

verus! {

/// A fixed-width numeric element type with wrapping arithmetic.
pub trait Element: Copy + Sized {
    /// The additive identity of this type.
    spec fn zero_spec() -> Self;

    /// What adding `rhs` to `self` yields under this type's native
    /// wrapping arithmetic.
    spec fn add_spec(self, rhs: Self) -> Self;

    /// What multiplying `self` by `rhs` yields under this type's native
    /// wrapping arithmetic.
    spec fn mul_spec(self, rhs: Self) -> Self;

    /// Produce the additive identity.
    fn zero() -> (r: Self)
        ensures
            r == Self::zero_spec(),
    ;

    /// Add with wraparound on overflow.
    fn add_wrap(self, rhs: Self) -> (r: Self)
        ensures
            r == self.add_spec(rhs),
    ;

    /// Multiply with wraparound on overflow.
    fn mul_wrap(self, rhs: Self) -> (r: Self)
        ensures
            r == self.mul_spec(rhs),
    ;
}

impl Element for i8 {
    open spec fn zero_spec() -> i8 {
        0i8
    }

    open spec fn add_spec(self, rhs: i8) -> i8 {
        vstd::wrapping::i8_specs::wrapping_add(self, rhs)
    }

    open spec fn mul_spec(self, rhs: i8) -> i8 {
        vstd::wrapping::i8_specs::wrapping_mul(self, rhs)
    }

    fn zero() -> i8 {
        0i8
    }

    fn add_wrap(self, rhs: i8) -> i8 {
        self.wrapping_add(rhs)
    }

    fn mul_wrap(self, rhs: i8) -> i8 {
        self.wrapping_mul(rhs)
    }
}

impl Element for i16 {
    open spec fn zero_spec() -> i16 {
        0i16
    }

    open spec fn add_spec(self, rhs: i16) -> i16 {
        vstd::wrapping::i16_specs::wrapping_add(self, rhs)
    }

    open spec fn mul_spec(self, rhs: i16) -> i16 {
        vstd::wrapping::i16_specs::wrapping_mul(self, rhs)
    }

    fn zero() -> i16 {
        0i16
    }

    fn add_wrap(self, rhs: i16) -> i16 {
        self.wrapping_add(rhs)
    }

    fn mul_wrap(self, rhs: i16) -> i16 {
        self.wrapping_mul(rhs)
    }
}

impl Element for i32 {
    open spec fn zero_spec() -> i32 {
        0i32
    }

    open spec fn add_spec(self, rhs: i32) -> i32 {
        vstd::wrapping::i32_specs::wrapping_add(self, rhs)
    }

    open spec fn mul_spec(self, rhs: i32) -> i32 {
        vstd::wrapping::i32_specs::wrapping_mul(self, rhs)
    }

    fn zero() -> i32 {
        0i32
    }

    fn add_wrap(self, rhs: i32) -> i32 {
        self.wrapping_add(rhs)
    }

    fn mul_wrap(self, rhs: i32) -> i32 {
        self.wrapping_mul(rhs)
    }
}

impl Element for i64 {
    open spec fn zero_spec() -> i64 {
        0i64
    }

    open spec fn add_spec(self, rhs: i64) -> i64 {
        vstd::wrapping::i64_specs::wrapping_add(self, rhs)
    }

    open spec fn mul_spec(self, rhs: i64) -> i64 {
        vstd::wrapping::i64_specs::wrapping_mul(self, rhs)
    }

    fn zero() -> i64 {
        0i64
    }

    fn add_wrap(self, rhs: i64) -> i64 {
        self.wrapping_add(rhs)
    }

    fn mul_wrap(self, rhs: i64) -> i64 {
        self.wrapping_mul(rhs)
    }
}

impl Element for u8 {
    open spec fn zero_spec() -> u8 {
        0u8
    }

    open spec fn add_spec(self, rhs: u8) -> u8 {
        vstd::wrapping::u8_specs::wrapping_add(self, rhs)
    }

    open spec fn mul_spec(self, rhs: u8) -> u8 {
        vstd::wrapping::u8_specs::wrapping_mul(self, rhs)
    }

    fn zero() -> u8 {
        0u8
    }

    fn add_wrap(self, rhs: u8) -> u8 {
        self.wrapping_add(rhs)
    }

    fn mul_wrap(self, rhs: u8) -> u8 {
        self.wrapping_mul(rhs)
    }
}

impl Element for u16 {
    open spec fn zero_spec() -> u16 {
        0u16
    }

    open spec fn add_spec(self, rhs: u16) -> u16 {
        vstd::wrapping::u16_specs::wrapping_add(self, rhs)
    }

    open spec fn mul_spec(self, rhs: u16) -> u16 {
        vstd::wrapping::u16_specs::wrapping_mul(self, rhs)
    }

    fn zero() -> u16 {
        0u16
    }

    fn add_wrap(self, rhs: u16) -> u16 {
        self.wrapping_add(rhs)
    }

    fn mul_wrap(self, rhs: u16) -> u16 {
        self.wrapping_mul(rhs)
    }
}

impl Element for u32 {
    open spec fn zero_spec() -> u32 {
        0u32
    }

    open spec fn add_spec(self, rhs: u32) -> u32 {
        vstd::wrapping::u32_specs::wrapping_add(self, rhs)
    }

    open spec fn mul_spec(self, rhs: u32) -> u32 {
        vstd::wrapping::u32_specs::wrapping_mul(self, rhs)
    }

    fn zero() -> u32 {
        0u32
    }

    fn add_wrap(self, rhs: u32) -> u32 {
        self.wrapping_add(rhs)
    }

    fn mul_wrap(self, rhs: u32) -> u32 {
        self.wrapping_mul(rhs)
    }
}

impl Element for u64 {
    open spec fn zero_spec() -> u64 {
        0u64
    }

    open spec fn add_spec(self, rhs: u64) -> u64 {
        vstd::wrapping::u64_specs::wrapping_add(self, rhs)
    }

    open spec fn mul_spec(self, rhs: u64) -> u64 {
        vstd::wrapping::u64_specs::wrapping_mul(self, rhs)
    }

    fn zero() -> u64 {
        0u64
    }

    fn add_wrap(self, rhs: u64) -> u64 {
        self.wrapping_add(rhs)
    }

    fn mul_wrap(self, rhs: u64) -> u64 {
        self.wrapping_mul(rhs)
    }
}

} // verus!
