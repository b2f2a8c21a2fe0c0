//! The numbers that features, weights and the bias are made of.

use vstd::prelude::*;

verus! {

/// A number type the perceptron can compute with.
///
/// Each operation has a model, a `spec` function of the same name with `spec_` before
/// it, and the executable method returns exactly what the model says. The contracts
/// of training and prediction are stated over these models, so what is proved of the
/// perceptron holds for every implementor that keeps to them. Verus checks that of
/// the implementors it sees, such as `i64` below. An implementor in code that is not
/// verified has to see to it alone.
pub trait Scalar: Copy {
    /// The number that stands for the small integer `k`.
    spec fn spec_from_i8(k: i8) -> Self;

    /// The model of addition.
    spec fn spec_plus(self, rhs: Self) -> Self;

    /// The model of multiplication.
    spec fn spec_times(self, rhs: Self) -> Self;

    /// Whether the number lies strictly below zero.
    spec fn spec_below_zero(self) -> bool;

    /// The number that stands for `k`. The perceptron asks for -1, 0 and 1 only.
    fn from_i8(k: i8) -> (r: Self)
        ensures
            r == Self::spec_from_i8(k),
    ;

    /// The sum of `self` and `rhs`.
    fn plus(self, rhs: Self) -> (r: Self)
        ensures
            r == self.spec_plus(rhs),
    ;

    /// The product of `self` and `rhs`.
    fn times(self, rhs: Self) -> (r: Self)
        ensures
            r == self.spec_times(rhs),
    ;

    /// Whether `self` lies strictly below zero.
    fn below_zero(self) -> (b: bool)
        ensures
            b == self.spec_below_zero(),
    ;

    /// Multiplication does not depend on the order of its factors.
    proof fn times_commutes(a: Self, b: Self)
        ensures
            a.spec_times(b) == b.spec_times(a),
    ;
}

/// The `i64` nearest to `x`.
pub open spec fn saturate(x: int) -> i64 {
    if x > i64::MAX {
        i64::MAX
    } else if x < i64::MIN {
        i64::MIN
    } else {
        x as i64
    }
}

/// Brings a wide intermediate result back into `i64`, stopping at the bounds.
fn saturate_wide(x: i128) -> (r: i64)
    ensures
        r == saturate(x as int),
{
    if x > i64::MAX as i128 {
        i64::MAX
    } else if x < i64::MIN as i128 {
        i64::MIN
    } else {
        x as i64
    }
}

/// Integers with saturating arithmetic: a sum or product that leaves the range of
/// `i64` stops at the nearest bound.
impl Scalar for i64 {
    open spec fn spec_from_i8(k: i8) -> Self {
        k as i64
    }

    open spec fn spec_plus(self, rhs: Self) -> Self {
        saturate(self + rhs)
    }

    open spec fn spec_times(self, rhs: Self) -> Self {
        saturate(self * rhs)
    }

    open spec fn spec_below_zero(self) -> bool {
        self < 0
    }

    /// The number that stands for `k`. The perceptron asks for -1, 0 and 1 only.
    fn from_i8(k: i8) -> (r: Self) {
        k as i64
    }

    /// The sum of `self` and `rhs`.
    fn plus(self, rhs: Self) -> (r: Self) {
        saturate_wide(self as i128 + rhs as i128)
    }

    /// The product of `self` and `rhs`.
    fn times(self, rhs: Self) -> (r: Self) {
        assert(-0x4000_0000_0000_0000_0000_0000_0000_0000 <= self * rhs
            <= 0x4000_0000_0000_0000_0000_0000_0000_0000) by (nonlinear_arith)
            requires
                -0x8000_0000_0000_0000 <= self <= 0x7fff_ffff_ffff_ffff,
                -0x8000_0000_0000_0000 <= rhs <= 0x7fff_ffff_ffff_ffff,
        ;
        saturate_wide(self as i128 * rhs as i128)
    }

    /// Whether `self` lies strictly below zero.
    fn below_zero(self) -> (b: bool) {
        self < 0
    }

    proof fn times_commutes(a: Self, b: Self) {
        assert(a * b == b * a) by (nonlinear_arith);
    }
}

} // verus!
