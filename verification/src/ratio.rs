//! Scaling integers by rational factors. The scaled value is the exact
//! rational result truncated toward zero; each implementing type promotes
//! through a wide enough intermediate that the multiplication is exact.
//! Standard warnings about integer overflow apply: a result that does not
//! fit the source type is excluded up front.

use vstd::prelude::*;

verus! {

/// `x * num / den` as exact rational arithmetic, truncated toward zero.
pub open spec fn scale_trunc(x: int, num: int, den: int) -> int {
    if x >= 0 {
        (x * num) / den
    } else {
        -(((-x) * num) / den)
    }
}

proof fn lemma_mag_mul_bound(m: int, num: int)
    by (nonlinear_arith)
    requires
        0 <= m <= u32::MAX as int + 1,
        0 <= num <= u32::MAX,
    ensures
        0 <= m * num <= (u32::MAX as int + 1) * (u32::MAX as int),
{
}

fn scale_mag(m: u64, num: u32, den: u32) -> (r: u64)
    requires
        den >= 1,
        m <= u32::MAX as u64 + 1,
    ensures
        r == (m * num) as int / den as int,
{
    proof {
        lemma_mag_mul_bound(m as int, num as int);
    }
    (m * (num as u64)) / (den as u64)
}

/// A trait defining how an integer can be scaled by a `num / den` ratio of
/// `u32` components. Scaling an unsigned integer by a signed ratio makes no
/// sense (the result type could never hold a negative value), so ratios are
/// unsigned throughout.
pub trait Scalable: Sized {
    /// The mathematical value of this integer.
    spec fn as_int(&self) -> int;

    /// Whether a mathematical value is representable in this type.
    spec fn fits(v: int) -> bool;

    /// Scale by `num / den`, truncating the exact rational result toward
    /// zero. The denominator must not be zero and the result must be
    /// representable.
    fn scale(&self, num: u32, den: u32) -> (r: Self)
        requires
            den >= 1,
            Self::fits(scale_trunc(self.as_int(), num as int, den as int)),
        ensures
            r.as_int() == scale_trunc(self.as_int(), num as int, den as int),
    ;
}

impl Scalable for u32 {
    open spec fn as_int(&self) -> int {
        *self as int
    }

    open spec fn fits(v: int) -> bool {
        0 <= v <= u32::MAX
    }

    fn scale(&self, num: u32, den: u32) -> (r: u32) {
        scale_mag(*self as u64, num, den) as u32
    }
}

impl Scalable for u16 {
    open spec fn as_int(&self) -> int {
        *self as int
    }

    open spec fn fits(v: int) -> bool {
        0 <= v <= u16::MAX
    }

    fn scale(&self, num: u32, den: u32) -> (r: u16) {
        scale_mag(*self as u64, num, den) as u16
    }
}

impl Scalable for u8 {
    open spec fn as_int(&self) -> int {
        *self as int
    }

    open spec fn fits(v: int) -> bool {
        0 <= v <= u8::MAX
    }

    fn scale(&self, num: u32, den: u32) -> (r: u8) {
        scale_mag(*self as u64, num, den) as u8
    }
}

impl Scalable for i32 {
    open spec fn as_int(&self) -> int {
        *self as int
    }

    open spec fn fits(v: int) -> bool {
        i32::MIN <= v <= i32::MAX
    }

    fn scale(&self, num: u32, den: u32) -> (r: i32) {
        if *self >= 0 {
            scale_mag(*self as u64, num, den) as i32
        } else {
            let m: u64 = (-(*self as i64)) as u64;
            let q = scale_mag(m, num, den);
            ((-(q as i64)) as i64) as i32
        }
    }
}

impl Scalable for i16 {
    open spec fn as_int(&self) -> int {
        *self as int
    }

    open spec fn fits(v: int) -> bool {
        i16::MIN <= v <= i16::MAX
    }

    fn scale(&self, num: u32, den: u32) -> (r: i16) {
        if *self >= 0 {
            scale_mag(*self as u64, num, den) as i16
        } else {
            let m: u64 = (-(*self as i64)) as u64;
            let q = scale_mag(m, num, den);
            ((-(q as i64)) as i64) as i16
        }
    }
}

impl Scalable for i8 {
    open spec fn as_int(&self) -> int {
        *self as int
    }

    open spec fn fits(v: int) -> bool {
        i8::MIN <= v <= i8::MAX
    }

    fn scale(&self, num: u32, den: u32) -> (r: i8) {
        if *self >= 0 {
            scale_mag(*self as u64, num, den) as i8
        } else {
            let m: u64 = (-(*self as i64)) as u64;
            let q = scale_mag(m, num, den);
            ((-(q as i64)) as i64) as i8
        }
    }
}

} // verus!
