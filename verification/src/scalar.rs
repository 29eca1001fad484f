//! The arithmetic that every numeric kernel of the crate is generic over.
//!
//! A [`Scalar`] packs the handful of operations the update equations need —
//! field arithmetic, a square root, a comparison and a couple of constants —
//! each as an executable operation pinned to its own specification function.
//! The proof obligations (`law_*`) are the few algebraic facts the crate's
//! lemmas rely on; an implementation must prove them, so everything proved
//! about the solver holds for that implementation as well.
//!
//! The crate ships one fully proved implementation, on `i64` with saturating
//! arithmetic, truncating division and a floor square root. It is exact for
//! small magnitudes, which is what the structural lemmas and the tests need.

use vstd::prelude::*;

verus! {

/// The arithmetic interface of the simulation kernels.
///
/// Every executable operation returns exactly what its `*_s` specification
/// function says, so contracts over the kernels can be stated as closed
/// formulas in these specification functions.
pub trait Scalar: Sized + Copy {
    /// The value of `self + o`.
    spec fn plus_s(self, o: Self) -> Self;

    /// The value of `self - o`.
    spec fn minus_s(self, o: Self) -> Self;

    /// The value of `self * o`.
    spec fn times_s(self, o: Self) -> Self;

    /// The value of `self / o`; total, with an implementation-chosen
    /// convention where the division is undefined.
    spec fn div_s(self, o: Self) -> Self;

    /// The value of `1 / self`.
    spec fn recip_s(self) -> Self;

    /// The value of the square root of `self`.
    spec fn sqrt_s(self) -> Self;

    /// Whether `self >= o`.
    spec fn ge_s(self, o: Self) -> bool;

    /// The additive identity.
    spec fn zero_s() -> Self;

    /// The multiplicative identity.
    spec fn one_s() -> Self;

    /// One half, used when sampling cell midpoints.
    spec fn half_s() -> Self;

    /// The scalar standing for the integer `n`.
    spec fn of_usize_s(n: usize) -> Self;

    /// How many update steps cover a run of length `duration` at step
    /// `dt`: the ceiling of their quotient, clamped to `usize`.
    spec fn steps_s(duration: Self, dt: Self) -> usize;

    fn plus(self, o: Self) -> (r: Self)
        ensures
            r == self.plus_s(o),
    ;

    fn minus(self, o: Self) -> (r: Self)
        ensures
            r == self.minus_s(o),
    ;

    fn times(self, o: Self) -> (r: Self)
        ensures
            r == self.times_s(o),
    ;

    fn div(self, o: Self) -> (r: Self)
        ensures
            r == self.div_s(o),
    ;

    fn recip(self) -> (r: Self)
        ensures
            r == self.recip_s(),
    ;

    fn sqrt(self) -> (r: Self)
        ensures
            r == self.sqrt_s(),
    ;

    fn ge(self, o: Self) -> (r: bool)
        ensures
            r == self.ge_s(o),
    ;

    fn zero() -> (r: Self)
        ensures
            r == Self::zero_s(),
    ;

    fn one() -> (r: Self)
        ensures
            r == Self::one_s(),
    ;

    fn half() -> (r: Self)
        ensures
            r == Self::half_s(),
    ;

    fn of_usize(n: usize) -> (r: Self)
        ensures
            r == Self::of_usize_s(n),
    ;

    fn steps_for(duration: Self, dt: Self) -> (n: usize)
        ensures
            n == Self::steps_s(duration, dt),
    ;

    /// Adding or removing zero changes nothing.
    proof fn law_plus_zero(x: Self)
        ensures
            x.plus_s(Self::zero_s()) == x,
            Self::zero_s().plus_s(x) == x,
            x.minus_s(Self::zero_s()) == x,
    ;

    /// Zero annihilates a product.
    proof fn law_times_zero(x: Self)
        ensures
            x.times_s(Self::zero_s()) == Self::zero_s(),
            Self::zero_s().times_s(x) == Self::zero_s(),
    ;

    /// One is neutral for a product.
    proof fn law_times_one(x: Self)
        ensures
            x.times_s(Self::one_s()) == x,
            Self::one_s().times_s(x) == x,
    ;

    /// Zero divided by anything nonzero is zero.
    proof fn law_zero_div(x: Self)
        requires
            x != Self::zero_s(),
        ensures
            Self::zero_s().div_s(x) == Self::zero_s(),
    ;

    /// The two identities differ.
    proof fn law_zero_ne_one()
        ensures
            Self::zero_s() != Self::one_s(),
    ;
}

/// Clamps a mathematical integer into the `i64` range.
pub open spec fn sat64(i: int) -> i64 {
    if i > i64::MAX {
        i64::MAX
    } else if i < i64::MIN {
        i64::MIN
    } else {
        i as i64
    }
}

/// Division of `i64` values as the machine performs it: truncated towards
/// zero, total (zero divisor yields zero), clamped into range.
pub open spec fn div64(x: int, d: int) -> i64 {
    if d == 0 {
        0
    } else {
        sat64(trunc_div(x, d))
    }
}

/// Truncated integer division, written over the Euclidean `/` of the logic.
pub open spec fn trunc_div(x: int, d: int) -> int
    recommends
        d != 0,
{
    if x == 0 {
        0
    } else if x > 0 && d > 0 {
        x / d
    } else if x < 0 && d < 0 {
        (x * -1) / (d * -1)
    } else if x < 0 {
        ((x * -1) / d) * -1
    } else {
        (x / (d * -1)) * -1
    }
}

/// The largest `r >= start` with `r * r <= n`, reached by walking upward.
pub open spec fn isqrt_from(n: int, r: int) -> int
    recommends
        0 <= r,
        r * r <= n,
    decreases n - r,
    when 0 <= r <= n
    via isqrt_from_decreases
{
    if (r + 1) * (r + 1) <= n {
        isqrt_from(n, r + 1)
    } else {
        r
    }
}

#[via_fn]
proof fn isqrt_from_decreases(n: int, r: int) {
    assert(r >= 0 && (r + 1) * (r + 1) <= n ==> r + 1 <= n) by (nonlinear_arith);
}

impl Scalar for i64 {
    open spec fn plus_s(self, o: i64) -> i64 {
        sat64(self + o)
    }

    open spec fn minus_s(self, o: i64) -> i64 {
        sat64(self - o)
    }

    open spec fn times_s(self, o: i64) -> i64 {
        sat64(self * o)
    }

    open spec fn div_s(self, o: i64) -> i64 {
        div64(self as int, o as int)
    }

    open spec fn recip_s(self) -> i64 {
        div64(1, self as int)
    }

    open spec fn sqrt_s(self) -> i64 {
        if self <= 0 {
            0
        } else {
            isqrt_from(self as int, 0) as i64
        }
    }

    open spec fn ge_s(self, o: i64) -> bool {
        self >= o
    }

    open spec fn zero_s() -> i64 {
        0
    }

    open spec fn one_s() -> i64 {
        1
    }

    open spec fn half_s() -> i64 {
        0
    }

    open spec fn of_usize_s(n: usize) -> i64 {
        sat64(n as int)
    }

    open spec fn steps_s(duration: i64, dt: i64) -> usize {
        if duration <= 0 || dt <= 0 {
            0
        } else {
            let q = duration as int / dt as int;
            let c = if q * dt == duration { q } else { q + 1 };
            if c > usize::MAX {
                usize::MAX
            } else {
                c as usize
            }
        }
    }

    fn plus(self, o: i64) -> (r: i64) {
        match self.checked_add(o) {
            Some(v) => v,
            None => {
                if o > 0 {
                    i64::MAX
                } else {
                    i64::MIN
                }
            },
        }
    }

    fn minus(self, o: i64) -> (r: i64) {
        match self.checked_sub(o) {
            Some(v) => v,
            None => {
                if o > 0 {
                    i64::MIN
                } else {
                    i64::MAX
                }
            },
        }
    }

    fn times(self, o: i64) -> (r: i64) {
        match self.checked_mul(o) {
            Some(v) => v,
            None => {
                proof {
                    lemma_sign_of_product(self as int, o as int);
                }
                if (self > 0) == (o > 0) {
                    i64::MAX
                } else {
                    i64::MIN
                }
            },
        }
    }

    fn div(self, o: i64) -> (r: i64) {
        match self.checked_div(o) {
            Some(v) => v,
            None => {
                if o == 0 {
                    0
                } else {
                    i64::MAX
                }
            },
        }
    }

    fn recip(self) -> (r: i64) {
        match 1i64.checked_div(self) {
            Some(v) => v,
            None => 0,
        }
    }

    fn sqrt(self) -> (r: i64) {
        if self <= 0 {
            return 0;
        }
        let mut r: i64 = 0;
        loop
            invariant
                0 <= r <= 3_037_000_499i64,
                r * r <= self,
                0 < self <= i64::MAX,
                isqrt_from(self as int, 0) == isqrt_from(self as int, r as int),
            decreases self - r,
        {
            let rp = r + 1;
            let next = match rp.checked_mul(rp) {
                Some(sq) => sq <= self,
                None => false,
            };
            proof {
                lemma_square_monotone(3_037_000_500, rp as int);
                lemma_step_below_square(rp as int);
                lemma_step_below_square(r as int);
            }
            if next {
                r = rp;
            } else {
                return r;
            }
        }
    }

    fn ge(self, o: i64) -> (r: bool) {
        self >= o
    }

    fn zero() -> (r: i64) {
        0
    }

    fn one() -> (r: i64) {
        1
    }

    fn half() -> (r: i64) {
        0
    }

    fn of_usize(n: usize) -> (r: i64) {
        if n as u64 > i64::MAX as u64 {
            i64::MAX
        } else {
            n as i64
        }
    }

    fn steps_for(duration: i64, dt: i64) -> (n: usize) {
        if duration <= 0 || dt <= 0 {
            return 0;
        }
        let du = duration as u64;
        let dv = dt as u64;
        let q = du / dv;
        let rem = du % dv;
        proof {
            lemma_pos_div_bounds(du as int, dv as int);
        }
        let c = if rem == 0 {
            q
        } else {
            q + 1
        };
        if c > usize::MAX as u64 {
            usize::MAX
        } else {
            c as usize
        }
    }

    proof fn law_plus_zero(x: i64) {
    }

    proof fn law_times_zero(x: i64) {
    }

    proof fn law_times_one(x: i64) {
    }

    proof fn law_zero_div(x: i64) {
    }

    proof fn law_zero_ne_one() {
    }
}

/// Two factors of one sign make a nonnegative product, and of opposite
/// signs a nonpositive one.
proof fn lemma_sign_of_product(x: int, y: int)
    ensures
        x > 0 && y > 0 ==> x * y > 0,
        x < 0 && y < 0 ==> x * y > 0,
        x > 0 && y < 0 ==> x * y < 0,
        x < 0 && y > 0 ==> x * y < 0,
{
    assert(x > 0 && y > 0 ==> x * y > 0) by (nonlinear_arith);
    assert(x < 0 && y < 0 ==> x * y > 0) by (nonlinear_arith);
    assert(x > 0 && y < 0 ==> x * y < 0) by (nonlinear_arith);
    assert(x < 0 && y > 0 ==> x * y < 0) by (nonlinear_arith);
}

/// A positive integer does not exceed its own square.
proof fn lemma_step_below_square(x: int)
    ensures
        x >= 1 ==> x <= x * x,
{
    assert(x >= 1 ==> x <= x * x) by (nonlinear_arith);
}

/// A square grows with its argument.
proof fn lemma_square_monotone(a: int, b: int)
    ensures
        0 <= a <= b ==> a * a <= b * b,
{
    assert(0 <= a <= b ==> a * a <= b * b) by (nonlinear_arith);
}

/// Bounds of a quotient of positive values, and when the division is exact.
proof fn lemma_pos_div_bounds(x: int, d: int)
    requires
        x > 0,
        d > 0,
    ensures
        0 <= x / d <= x,
        x == d * (x / d) + (x % d),
        0 <= x % d < d,
        ((x / d) * d == x) <==> (x % d == 0),
{
    vstd::arithmetic::div_mod::lemma_div_pos_is_pos(x, d);
    vstd::arithmetic::div_mod::lemma_div_nonincreasing(x, d);
    vstd::arithmetic::div_mod::lemma_fundamental_div_mod(x, d);
    vstd::arithmetic::div_mod::lemma_mod_bound(x, d);
    assert((x / d) * d == d * (x / d)) by (nonlinear_arith);
}

} // verus!
