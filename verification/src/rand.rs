//! A small bounded-random-integer helper, seeded from the system clock
//! and mixed with an xorshift step. The clock read is the only trusted
//! part; everything derived from the seed is verified and stated exactly
//! as a function of it.

use vstd::prelude::*;

use std::time::{SystemTime, UNIX_EPOCH};

verus! {

/// Conversion of an integer type to and from `i128`, truncating in the
/// manner of an `as` cast.
pub trait ToFromI128: Sized {
    /// The value `to_i128` yields.
    spec fn to_i128_spec(self) -> i128;

    /// The value `from_i128` yields for `v`.
    spec fn from_i128_spec(v: i128) -> Self;

    fn to_i128(self) -> (r: i128)
        ensures
            r == self.to_i128_spec(),
    ;

    fn from_i128(v: i128) -> (r: Self)
        ensures
            r == Self::from_i128_spec(v),
    ;
}

impl ToFromI128 for u8 {
    open spec fn to_i128_spec(self) -> i128 {
        self as i128
    }

    open spec fn from_i128_spec(v: i128) -> u8 {
        v as u8
    }

    fn to_i128(self) -> i128 {
        self as i128
    }

    fn from_i128(v: i128) -> u8 {
        v as u8
    }
}

impl ToFromI128 for u16 {
    open spec fn to_i128_spec(self) -> i128 {
        self as i128
    }

    open spec fn from_i128_spec(v: i128) -> u16 {
        v as u16
    }

    fn to_i128(self) -> i128 {
        self as i128
    }

    fn from_i128(v: i128) -> u16 {
        v as u16
    }
}

impl ToFromI128 for u32 {
    open spec fn to_i128_spec(self) -> i128 {
        self as i128
    }

    open spec fn from_i128_spec(v: i128) -> u32 {
        v as u32
    }

    fn to_i128(self) -> i128 {
        self as i128
    }

    fn from_i128(v: i128) -> u32 {
        v as u32
    }
}

impl ToFromI128 for u64 {
    open spec fn to_i128_spec(self) -> i128 {
        self as i128
    }

    open spec fn from_i128_spec(v: i128) -> u64 {
        v as u64
    }

    fn to_i128(self) -> i128 {
        self as i128
    }

    fn from_i128(v: i128) -> u64 {
        v as u64
    }
}

impl ToFromI128 for u128 {
    open spec fn to_i128_spec(self) -> i128 {
        self as i128
    }

    open spec fn from_i128_spec(v: i128) -> u128 {
        v as u128
    }

    fn to_i128(self) -> i128 {
        self as i128
    }

    fn from_i128(v: i128) -> u128 {
        v as u128
    }
}

impl ToFromI128 for i8 {
    open spec fn to_i128_spec(self) -> i128 {
        self as i128
    }

    open spec fn from_i128_spec(v: i128) -> i8 {
        v as i8
    }

    fn to_i128(self) -> i128 {
        self as i128
    }

    fn from_i128(v: i128) -> i8 {
        v as i8
    }
}

impl ToFromI128 for i16 {
    open spec fn to_i128_spec(self) -> i128 {
        self as i128
    }

    open spec fn from_i128_spec(v: i128) -> i16 {
        v as i16
    }

    fn to_i128(self) -> i128 {
        self as i128
    }

    fn from_i128(v: i128) -> i16 {
        v as i16
    }
}

impl ToFromI128 for i32 {
    open spec fn to_i128_spec(self) -> i128 {
        self as i128
    }

    open spec fn from_i128_spec(v: i128) -> i32 {
        v as i32
    }

    fn to_i128(self) -> i128 {
        self as i128
    }

    fn from_i128(v: i128) -> i32 {
        v as i32
    }
}

impl ToFromI128 for i64 {
    open spec fn to_i128_spec(self) -> i128 {
        self as i128
    }

    open spec fn from_i128_spec(v: i128) -> i64 {
        v as i64
    }

    fn to_i128(self) -> i128 {
        self as i128
    }

    fn from_i128(v: i128) -> i64 {
        v as i64
    }
}

impl ToFromI128 for i128 {
    open spec fn to_i128_spec(self) -> i128 {
        self
    }

    open spec fn from_i128_spec(v: i128) -> i128 {
        v
    }

    fn to_i128(self) -> i128 {
        self
    }

    fn from_i128(v: i128) -> i128 {
        v
    }
}

/// Relies on `SystemTime::now` and `SystemTime::duration_since`: the
/// nanoseconds since the Unix epoch, 0 when the clock sits before it.
/// Nothing can be promised of the value.
#[verifier::external_body]
fn now_unix_nanos() -> u128 {
    SystemTime::now().duration_since(UNIX_EPOCH).map(|d| d.as_nanos()).unwrap_or(0)
}

/// One round of xorshift mixing.
pub open spec fn spec_xorshift(x: u128) -> u128 {
    let a = x ^ (x << 13);
    let b = a ^ (a >> 7);
    b ^ (b << 17)
}

/// A seed value mixed from the clock: some xorshift image,
/// reinterpreted as a signed value.
pub fn random_base() -> (r: i128)
    ensures
        exists|n: u128| r == spec_xorshift(n) as i128,
{
    let x = now_unix_nanos();
    let ghost n0: u128 = x;
    let a = x ^ (x << 13);
    let b = a ^ (a >> 7);
    let m = b ^ (b << 17);
    assert(m == spec_xorshift(n0));
    m as i128
}

/// Truncated (Rust-style) remainder for a positive modulus.
pub open spec fn spec_trunc_mod(a: int, b: int) -> int {
    if a >= 0 {
        a % b
    } else {
        -((-a) % b)
    }
}

/// The value drawn for a given seed and bounds: the seed reduced
/// modulo `max + 1 - min` (wrapping, floored at 1) and shifted by
/// `min` (wrapping). A negative seed can land below `min`; the value
/// is exactly this function of the seed either way.
pub open spec fn spec_bounded(seed: i128, min: i128, max: i128) -> i128 {
    let maxp = vstd::wrapping::i128_specs::wrapping_add(max, 1);
    let range0 = vstd::wrapping::i128_specs::wrapping_sub(maxp, min);
    let range = if range0 < 1 {
        1i128
    } else {
        range0
    };
    vstd::wrapping::i128_specs::wrapping_add(spec_trunc_mod(seed as int, range as int) as i128, min)
}

/// Reduces a seed into the configured bounds, deterministically.
pub fn bounded_from(seed: i128, min: i128, max: i128) -> (r: i128)
    ensures
        r == spec_bounded(seed, min, max),
{
    let maxp = max.wrapping_add(1);
    let range0 = maxp.wrapping_sub(min);
    let range = if range0 < 1 {
        1i128
    } else {
        range0
    };
    let m = seed % range;
    assert(m == spec_trunc_mod(seed as int, range as int));
    m.wrapping_add(min)
}

/// A bounded random integer generator over any primitive integer type.
pub struct RandomInt<T> {
    min: T,
    max: T,
}

impl<T: Copy + ToFromI128> RandomInt<T> {
    /// Draws one value between the bounds (wrapping quirks of the
    /// original scheme included): the result is `spec_bounded` of some
    /// seed, converted back to `T`.
    pub fn new(min: T, max: T) -> (r: T)
        ensures
            exists|seed: i128|
                r == T::from_i128_spec(
                    spec_bounded(seed, min.to_i128_spec(), max.to_i128_spec()),
                ),
    {
        let rng = Self { min, max };
        rng.random()
    }

    fn random(&self) -> (r: T)
        ensures
            exists|seed: i128|
                r == T::from_i128_spec(
                    spec_bounded(seed, self.min.to_i128_spec(), self.max.to_i128_spec()),
                ),
    {
        let seed = random_base();
        let v = bounded_from(seed, self.min.to_i128(), self.max.to_i128());
        let r = T::from_i128(v);
        assert(r == T::from_i128_spec(
            spec_bounded(seed, self.min.to_i128_spec(), self.max.to_i128_spec()),
        ));
        r
    }
}

} // verus!
