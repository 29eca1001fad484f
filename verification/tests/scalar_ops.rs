//! The `i64` scalar shipped with the library, and a floating-point scalar
//! defined here the way an embedding program would define one.

use tline::Scalar;

/// An IEEE single-precision scalar, as a simulation binary would use.
#[derive(Clone, Copy, Debug, PartialEq)]
pub struct Fp(pub f32);

impl Scalar for Fp {
    // The `*_s` and `law_*` items are the trait's specification members.
    // Verification never runs them, and compiled code never calls them, so
    // an implementation outside the verified world gives them inert bodies.
    fn plus_s(self, _: Fp) -> Fp {
        self
    }

    fn minus_s(self, _: Fp) -> Fp {
        self
    }

    fn times_s(self, _: Fp) -> Fp {
        self
    }

    fn div_s(self, _: Fp) -> Fp {
        self
    }

    fn recip_s(self) -> Fp {
        self
    }

    fn sqrt_s(self) -> Fp {
        self
    }

    fn ge_s(self, _: Fp) -> bool {
        true
    }

    fn zero_s() -> Fp {
        Fp(0.0)
    }

    fn one_s() -> Fp {
        Fp(1.0)
    }

    fn half_s() -> Fp {
        Fp(0.5)
    }

    fn of_usize_s(_: usize) -> Fp {
        Fp(0.0)
    }

    fn steps_s(_: Fp, _: Fp) -> usize {
        0
    }

    fn law_plus_zero(_: Fp) {
    }

    fn law_times_zero(_: Fp) {
    }

    fn law_times_one(_: Fp) {
    }

    fn law_zero_div(_: Fp) {
    }

    fn law_zero_ne_one() {
    }

    fn plus(self, o: Fp) -> Fp {
        Fp(self.0 + o.0)
    }

    fn minus(self, o: Fp) -> Fp {
        Fp(self.0 - o.0)
    }

    fn times(self, o: Fp) -> Fp {
        Fp(self.0 * o.0)
    }

    fn div(self, o: Fp) -> Fp {
        Fp(self.0 / o.0)
    }

    fn recip(self) -> Fp {
        Fp(self.0.recip())
    }

    fn sqrt(self) -> Fp {
        Fp(self.0.sqrt())
    }

    fn ge(self, o: Fp) -> bool {
        self.0 >= o.0
    }

    fn zero() -> Fp {
        Fp(0.0)
    }

    fn one() -> Fp {
        Fp(1.0)
    }

    fn half() -> Fp {
        Fp(0.5)
    }

    fn of_usize(n: usize) -> Fp {
        Fp(n as f32)
    }

    fn steps_for(duration: Fp, dt: Fp) -> usize {
        (duration.0 / dt.0).ceil() as usize
    }
}

#[test]
fn int_scalar_saturates_instead_of_wrapping() {
    assert_eq!(i64::MAX.plus(1), i64::MAX);
    assert_eq!(i64::MIN.minus(1), i64::MIN);
    assert_eq!(3_000_000_000i64.times(4_000_000_000), i64::MAX);
    assert_eq!((-3_000_000_000i64).times(4_000_000_000), i64::MIN);
    assert_eq!(7i64.plus(8), 15);
    assert_eq!(7i64.minus(8), -1);
    assert_eq!(7i64.times(8), 56);
}

#[test]
fn int_scalar_division_is_total() {
    assert_eq!(17i64.div(5), 3);
    assert_eq!((-17i64).div(5), -3);
    assert_eq!(17i64.div(-5), -3);
    assert_eq!(17i64.div(0), 0);
    assert_eq!(i64::MIN.div(-1), i64::MAX);
    assert_eq!(1i64.recip(), 1);
    assert_eq!(2i64.recip(), 0);
}

#[test]
fn int_scalar_square_root_is_the_floor_root() {
    assert_eq!(0i64.sqrt(), 0);
    assert_eq!(1i64.sqrt(), 1);
    assert_eq!(3i64.sqrt(), 1);
    assert_eq!(4i64.sqrt(), 2);
    assert_eq!(10i64.sqrt(), 3);
    assert_eq!(144i64.sqrt(), 12);
    assert_eq!((-9i64).sqrt(), 0);
    assert_eq!(i64::MAX.sqrt(), 3_037_000_499);
}

#[test]
fn int_scalar_counts_steps_by_ceiling() {
    assert_eq!(<i64 as Scalar>::steps_for(10, 2), 5);
    assert_eq!(<i64 as Scalar>::steps_for(11, 2), 6);
    assert_eq!(<i64 as Scalar>::steps_for(0, 2), 0);
    assert_eq!(<i64 as Scalar>::steps_for(10, 0), 0);
    assert_eq!(<i64 as Scalar>::steps_for(-5, 2), 0);
    assert_eq!(<i64 as Scalar>::steps_for(1, 7), 1);
}

#[test]
fn float_scalar_behaves_like_plain_floats() {
    assert_eq!(Fp(1.5).plus(Fp(2.25)), Fp(3.75));
    assert_eq!(Fp(4.0).sqrt(), Fp(2.0));
    assert_eq!(Fp(1.0).div(Fp(4.0)), Fp(0.25));
    assert!(Fp(2.0).ge(Fp(2.0)));
    assert!(!Fp(1.0).ge(Fp(2.0)));
    assert_eq!(<Fp as Scalar>::steps_for(Fp(10.0), Fp(4.0)), 3);
    assert_eq!(<Fp as Scalar>::of_usize(3), Fp(3.0));
}
