//! Inner products of number sequences.

use crate::scalar::Scalar;
use vstd::prelude::*;

verus! {

/// The sum of the first `n` elementwise products of `a` and `b`, added up from the left,
/// starting from zero.
pub open spec fn dot_prefix<T: Scalar>(a: Seq<T>, b: Seq<T>, n: int) -> T
    decreases n,
{
    if n <= 0 {
        T::spec_from_i8(0)
    } else {
        dot_prefix(a, b, n - 1).spec_plus(a[n - 1].spec_times(b[n - 1]))
    }
}

/// The number of positions that `a` and `b` share.
pub open spec fn common_len<T>(a: Seq<T>, b: Seq<T>) -> int {
    if a.len() <= b.len() {
        a.len() as int
    } else {
        b.len() as int
    }
}

/// The inner product of `a` and `b`: the sum of their elementwise products. Where the
/// lengths differ, the positions past the shorter sequence take no part.
pub open spec fn dot_product<T: Scalar>(a: Seq<T>, b: Seq<T>) -> T {
    dot_prefix(a, b, common_len(a, b))
}

/// The sum of the first `n` elementwise products of `a` and `b` as a mathematical integer.
pub open spec fn integer_dot(a: Seq<i64>, b: Seq<i64>, n: int) -> int
    decreases n,
{
    if n <= 0 {
        0
    } else {
        integer_dot(a, b, n - 1) + a[n - 1] * b[n - 1]
    }
}

/// A sequence of numbers that has an inner product with a slice of numbers.
pub trait Dot<T: Scalar> {
    /// The numbers that `self` holds, in order.
    spec fn numbers(&self) -> Seq<T>;

    /// The inner product of `self` and `other`.
    fn dot(&self, other: &[T]) -> (r: T)
        ensures
            r == dot_product(self.numbers(), other@),
    ;
}

impl<T: Scalar> Dot<T> for Vec<T> {
    open spec fn numbers(&self) -> Seq<T> {
        self@
    }

    fn dot(&self, other: &[T]) -> (r: T) {
        let n: usize = if self.len() <= other.len() {
            self.len()
        } else {
            other.len()
        };
        let mut acc: T = T::from_i8(0);
        let mut i: usize = 0;
        while i < n
            invariant
                i <= n,
                n == common_len(self@, other@),
                acc == dot_prefix(self@, other@, i as int),
            decreases n - i,
        {
            acc = acc.plus(self[i].times(other[i]));
            i += 1;
        }
        acc
    }
}

/// The inner product of two empty sequences is zero, and appending one number to each
/// of two sequences of equal length adds the product of the two numbers.
pub proof fn dot_is_sum_of_products<T: Scalar>(a: Seq<T>, b: Seq<T>, x: T, y: T)
    requires
        a.len() == b.len(),
    ensures
        dot_product(Seq::<T>::empty(), Seq::<T>::empty()) == T::spec_from_i8(0),
        dot_product(a.push(x), b.push(y)) == dot_product(a, b).spec_plus(x.spec_times(y)),
{
    dot_prefix_reads_prefix(a.push(x), b.push(y), a, b, a.len() as int);
}

/// The inner product does not depend on the order of its arguments.
pub proof fn dot_commutes<T: Scalar>(a: Seq<T>, b: Seq<T>)
    ensures
        dot_product(a, b) == dot_product(b, a),
{
    dot_prefix_commutes(a, b, common_len(a, b));
}

/// As long as no product and no partial sum leaves the range of `i64`, the inner
/// product of integers is the mathematical sum of the elementwise products.
pub proof fn integer_dot_is_exact(a: Seq<i64>, b: Seq<i64>)
    requires
        forall|k: int|
            0 <= k < common_len(a, b) ==> i64::MIN <= #[trigger] (a[k] * b[k]) <= i64::MAX,
        forall|k: int|
            0 <= k <= common_len(a, b) ==> i64::MIN <= #[trigger] integer_dot(a, b, k)
                <= i64::MAX,
    ensures
        dot_product(a, b) == integer_dot(a, b, common_len(a, b)),
{
    integer_dot_prefix_is_exact(a, b, common_len(a, b));
}

proof fn dot_prefix_commutes<T: Scalar>(a: Seq<T>, b: Seq<T>, n: int)
    ensures
        dot_prefix(a, b, n) == dot_prefix(b, a, n),
    decreases n,
{
    if n > 0 {
        dot_prefix_commutes(a, b, n - 1);
        T::times_commutes(a[n - 1], b[n - 1]);
    }
}

/// `dot_prefix` reads only the first `n` positions of its arguments.
proof fn dot_prefix_reads_prefix<T: Scalar>(a: Seq<T>, b: Seq<T>, c: Seq<T>, d: Seq<T>, n: int)
    requires
        forall|i: int| 0 <= i < n ==> a[i] == c[i],
        forall|i: int| 0 <= i < n ==> b[i] == d[i],
    ensures
        dot_prefix(a, b, n) == dot_prefix(c, d, n),
    decreases n,
{
    if n > 0 {
        dot_prefix_reads_prefix(a, b, c, d, n - 1);
    }
}

proof fn integer_dot_prefix_is_exact(a: Seq<i64>, b: Seq<i64>, n: int)
    requires
        n <= common_len(a, b),
        forall|k: int|
            0 <= k < common_len(a, b) ==> i64::MIN <= #[trigger] (a[k] * b[k]) <= i64::MAX,
        forall|k: int|
            0 <= k <= common_len(a, b) ==> i64::MIN <= #[trigger] integer_dot(a, b, k)
                <= i64::MAX,
    ensures
        dot_prefix(a, b, n) == integer_dot(a, b, n),
    decreases n,
{
    if n > 0 {
        integer_dot_prefix_is_exact(a, b, n - 1);
    }
}

} // verus!
