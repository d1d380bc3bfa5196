use vstd::prelude::*;

verus! {

/// A plain value type that can sit in an array slot.
///
/// It is duplicated bit for bit, has a value whose bytes are all zero, and
/// can be compared for equality in executable code.
pub trait Element: Copy + Sized {
    /// The value whose bytes are all zero.
    spec fn zero_value() -> Self;

    /// Returns the all-zero value.
    fn zero() -> (r: Self)
        ensures
            r == Self::zero_value(),
    ;

    /// Whether two values are equal.
    fn same(&self, other: &Self) -> (r: bool)
        ensures
            r == (*self == *other),
    ;
}

impl Element for u8 {
    open spec fn zero_value() -> u8 {
        0
    }

    fn zero() -> (r: u8) {
        0
    }

    fn same(&self, other: &u8) -> (r: bool) {
        *self == *other
    }
}

impl Element for u16 {
    open spec fn zero_value() -> u16 {
        0
    }

    fn zero() -> (r: u16) {
        0
    }

    fn same(&self, other: &u16) -> (r: bool) {
        *self == *other
    }
}

impl Element for u32 {
    open spec fn zero_value() -> u32 {
        0
    }

    fn zero() -> (r: u32) {
        0
    }

    fn same(&self, other: &u32) -> (r: bool) {
        *self == *other
    }
}

impl Element for u64 {
    open spec fn zero_value() -> u64 {
        0
    }

    fn zero() -> (r: u64) {
        0
    }

    fn same(&self, other: &u64) -> (r: bool) {
        *self == *other
    }
}

impl Element for usize {
    open spec fn zero_value() -> usize {
        0
    }

    fn zero() -> (r: usize) {
        0
    }

    fn same(&self, other: &usize) -> (r: bool) {
        *self == *other
    }
}

impl Element for i8 {
    open spec fn zero_value() -> i8 {
        0
    }

    fn zero() -> (r: i8) {
        0
    }

    fn same(&self, other: &i8) -> (r: bool) {
        *self == *other
    }
}

impl Element for i16 {
    open spec fn zero_value() -> i16 {
        0
    }

    fn zero() -> (r: i16) {
        0
    }

    fn same(&self, other: &i16) -> (r: bool) {
        *self == *other
    }
}

impl Element for i32 {
    open spec fn zero_value() -> i32 {
        0
    }

    fn zero() -> (r: i32) {
        0
    }

    fn same(&self, other: &i32) -> (r: bool) {
        *self == *other
    }
}

impl Element for i64 {
    open spec fn zero_value() -> i64 {
        0
    }

    fn zero() -> (r: i64) {
        0
    }

    fn same(&self, other: &i64) -> (r: bool) {
        *self == *other
    }
}

impl Element for isize {
    open spec fn zero_value() -> isize {
        0
    }

    fn zero() -> (r: isize) {
        0
    }

    fn same(&self, other: &isize) -> (r: bool) {
        *self == *other
    }
}

} // verus!
