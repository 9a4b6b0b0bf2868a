//! The capability shared by the square matrix types, and the conversion traits.

use vstd::prelude::*;
use crate::scalar::Scalar;
use crate::mat2::Mat2;
use crate::mat3::Mat3;
use crate::mat4::Mat4;

verus! {

/// Conversion into a 2 x 2 matrix.
pub trait ToMat2<S: Scalar> {
    fn to_mat2(&self) -> Mat2<S>;
}

/// Conversion into a 3 x 3 matrix.
pub trait ToMat3<S: Scalar> {
    fn to_mat3(&self) -> Mat3<S>;
}

/// Conversion into a 4 x 4 matrix.
pub trait ToMat4<S: Scalar> {
    fn to_mat4(&self) -> Mat4<S>;
}

/// The index that stands at `i` once `a` and `b` have changed places.
pub open spec fn exchanged(i: int, a: int, b: int) -> int {
    if i == a {
        b
    } else if i == b {
        a
    } else {
        i
    }
}

/// The entry of the identity matrix in column `c` and row `r`.
pub open spec fn unit_entry<S: Scalar>(c: int, r: int) -> S {
    if c == r {
        S::one_spec()
    } else {
        S::zero_spec()
    }
}

/// The multiplicative identity added to itself until `n` of them are summed.
pub open spec fn sum_of_ones<S: Scalar>(n: int) -> S
    decreases n,
{
    if n <= 1 {
        S::one_spec()
    } else {
        sum_of_ones::<S>(n - 1).add_spec(S::one_spec())
    }
}

/// A square, column major matrix over the scalar `S` with columns of type `V`.
///
/// The entry in column `c` and row `r` is `at(c, r)`; both count from zero and
/// lie below `dim()`. The plain accessors demand an index in range of their
/// caller; the `checked_` ones test it and answer `None` where it is not.
pub trait Matrix<S: Scalar, V: Copy>: Copy {
    /// The number of columns, which is also the number of rows.
    spec fn dim() -> int;

    /// Column `c`.
    spec fn col(self, c: int) -> V;

    /// Row `r`, gathered from every column.
    spec fn row(self, r: int) -> V;

    /// The entry in column `c` and row `r`.
    spec fn at(self, c: int, r: int) -> S;

    /// `self` with column `c` replaced by `v`.
    spec fn with_col(self, c: int, v: V) -> Self;

    /// `self` with the entry in column `c` and row `r` replaced by `s`.
    spec fn with_at(self, c: int, r: int, s: S) -> Self;

    /// The matrix with `v` on the diagonal and the additive identity elsewhere.
    spec fn diag(v: S) -> Self;

    /// The matrix applied to a vector: component `i` is the dot product of row
    /// `i` with `v`.
    spec fn apply(self, v: V) -> V;

    /// The matrix product: the entry in column `c` and row `r` is the dot
    /// product of row `r` of `self` with column `c` of `other`.
    spec fn product(self, other: Self) -> Self;

    /// The matrix mirrored at its diagonal.
    spec fn transposed(self) -> Self;

    /// The sum of the diagonal entries, from the first on.
    spec fn trace_spec(self) -> S;

    /// The determinant, by the formula of the dimension.
    spec fn det(self) -> S;

    /// What inversion computes, by the algorithm of the dimension. It is only
    /// meaningful where the determinant is not approximately zero.
    spec fn inverse(self) -> Self;

    /// Every entry is approximately equal to its counterpart.
    spec fn approx_eq_spec(self, other: Self) -> bool;

    /// Every entry off the diagonal is approximately zero.
    spec fn diagonal(self) -> bool;

    /// Every entry off the diagonal is approximately equal to its mirror image.
    spec fn symmetric(self) -> bool;

    /// A matrix is what its entries are.
    proof fn entries_determine(a: Self, b: Self)
        requires
            forall|c: int, r: int|
                0 <= c < Self::dim() && 0 <= r < Self::dim() ==> #[trigger] a.at(c, r) == b.at(
                    c,
                    r,
                ),
        ensures
            a == b,
    ;

    /// Transposing twice gives the matrix back.
    proof fn transpose_twice(self)
        ensures
            self.transposed().transposed() == self,
    ;

    /// The transpose of a product is the product of the transposes in the
    /// opposite order, provided that scalar multiplication commutes.
    proof fn transpose_of_product(self, other: Self)
        requires
            crate::scalar::mul_commutes::<S>(),
        ensures
            self.product(other).transposed() == other.transposed().product(self.transposed()),
    ;

    /// The trace of the identity is the multiplicative identity summed once
    /// for each column.
    proof fn trace_of_identity()
        ensures
            Self::diag(S::one_spec()).trace_spec() == sum_of_ones::<S>(Self::dim()),
    ;

    /// The identity has determinant one and the zero matrix has determinant
    /// zero, provided that zero and one add, subtract and multiply among
    /// themselves as they do in a field.
    proof fn determinant_of_identity_and_zero()
        requires
            crate::scalar::unit_arithmetic::<S>(),
        ensures
            Self::diag(S::one_spec()).det() == S::one_spec(),
            Self::diag(S::zero_spec()).det() == S::zero_spec(),
    ;

    /// The number of columns, which is also the number of rows.
    fn order() -> (n: usize)
        ensures
            n == Self::dim(),
    ;

    /// Column `c`.
    fn c(&self, c: usize) -> (v: &V)
        requires
            c < Self::dim(),
        ensures
            *v == self.col(c as int),
    ;

    /// A mutable borrow of column `c`.
    fn mut_c(&mut self, c: usize) -> (v: &mut V)
        requires
            c < Self::dim(),
        ensures
            *v == old(self).col(c as int),
            *final(self) == old(self).with_col(c as int, *final(v)),
    ;

    /// Exchanges columns `a` and `b`.
    fn swap_c(&mut self, a: usize, b: usize)
        requires
            a < Self::dim(),
            b < Self::dim(),
        ensures
            *final(self) == old(self).with_col(a as int, old(self).col(b as int)).with_col(
                b as int,
                old(self).col(a as int),
            ),
    {
        let col_a = *self.c(a);
        let col_b = *self.c(b);
        *self.mut_c(a) = col_b;
        *self.mut_c(b) = col_a;
    }

    /// Row `r`.
    fn r(&self, r: usize) -> (v: V)
        requires
            r < Self::dim(),
        ensures
            v == self.row(r as int),
    ;

    /// Exchanges rows `a` and `b`.
    fn swap_r(&mut self, a: usize, b: usize)
        requires
            a < Self::dim(),
            b < Self::dim(),
        ensures
            forall|c: int, r: int|
                0 <= c < Self::dim() && 0 <= r < Self::dim() ==> #[trigger] final(self).at(c, r)
                    == old(self).at(c, exchanged(r, a as int, b as int)),
    ;

    /// The entry in column `c` and row `r`.
    fn cr(&self, c: usize, r: usize) -> (s: &S)
        requires
            c < Self::dim(),
            r < Self::dim(),
        ensures
            *s == self.at(c as int, r as int),
    ;

    /// A mutable borrow of the entry in column `c` and row `r`.
    fn mut_cr(&mut self, c: usize, r: usize) -> (s: &mut S)
        requires
            c < Self::dim(),
            r < Self::dim(),
        ensures
            *s == old(self).at(c as int, r as int),
            *final(self) == old(self).with_at(c as int, r as int, *final(s)),
    ;

    /// Column `c`, or `None` where the matrix has no such column.
    fn checked_c(&self, c: usize) -> (v: Option<&V>)
        ensures
            c < Self::dim() ==> v == Some(&self.col(c as int)),
            c >= Self::dim() ==> v.is_none(),
    {
        if c < Self::order() {
            Some(self.c(c))
        } else {
            None
        }
    }

    /// Row `r`, or `None` where the matrix has no such row.
    fn checked_r(&self, r: usize) -> (v: Option<V>)
        ensures
            r < Self::dim() ==> v == Some(self.row(r as int)),
            r >= Self::dim() ==> v.is_none(),
    {
        if r < Self::order() {
            Some(self.r(r))
        } else {
            None
        }
    }

    /// The entry in column `c` and row `r`, or `None` where the matrix has no
    /// such entry.
    fn checked_cr(&self, c: usize, r: usize) -> (s: Option<&S>)
        ensures
            c < Self::dim() && r < Self::dim() ==> s == Some(&self.at(c as int, r as int)),
            c >= Self::dim() || r >= Self::dim() ==> s.is_none(),
    {
        if c < Self::order() && r < Self::order() {
            Some(self.cr(c, r))
        } else {
            None
        }
    }

    /// Exchanges the entry at `a` with the entry at `b`, each given as column
    /// and row.
    fn swap_cr(&mut self, a: (usize, usize), b: (usize, usize))
        requires
            a.0 < Self::dim(),
            a.1 < Self::dim(),
            b.0 < Self::dim(),
            b.1 < Self::dim(),
        ensures
            *final(self) == old(self).with_at(
                a.0 as int,
                a.1 as int,
                old(self).at(b.0 as int, b.1 as int),
            ).with_at(b.0 as int, b.1 as int, old(self).at(a.0 as int, a.1 as int)),
    {
        let (ca, ra) = a;
        let (cb, rb) = b;
        let at_a = *self.cr(ca, ra);
        let at_b = *self.cr(cb, rb);
        *self.mut_cr(ca, ra) = at_b;
        *self.mut_cr(cb, rb) = at_a;
    }

    /// The matrix with every entry negated.
    fn neg(&self) -> (m: Self)
        ensures
            forall|c: int, r: int|
                0 <= c < Self::dim() && 0 <= r < Self::dim() ==> #[trigger] m.at(c, r) == self.at(
                    c,
                    r,
                ).neg_spec(),
    ;

    /// Negates every entry in place.
    fn neg_self(&mut self)
        ensures
            forall|c: int, r: int|
                0 <= c < Self::dim() && 0 <= r < Self::dim() ==> #[trigger] final(self).at(c, r)
                    == old(self).at(c, r).neg_spec(),
    {
        *self = self.neg();
    }

    /// The matrix with every entry multiplied by `s`.
    fn mul_s(&self, s: S) -> (m: Self)
        ensures
            forall|c: int, r: int|
                0 <= c < Self::dim() && 0 <= r < Self::dim() ==> #[trigger] m.at(c, r) == self.at(
                    c,
                    r,
                ).mul_spec(s),
    ;

    /// The matrix with every entry divided by `s`.
    fn div_s(&self, s: S) -> (m: Self)
        ensures
            forall|c: int, r: int|
                0 <= c < Self::dim() && 0 <= r < Self::dim() ==> #[trigger] m.at(c, r) == self.at(
                    c,
                    r,
                ).div_spec(s),
    ;

    /// The matrix with every entry replaced by its remainder on division by
    /// `s`.
    fn rem_s(&self, s: S) -> (m: Self)
        ensures
            forall|c: int, r: int|
                0 <= c < Self::dim() && 0 <= r < Self::dim() ==> #[trigger] m.at(c, r) == self.at(
                    c,
                    r,
                ).rem_spec(s),
    ;

    /// Multiplies every entry by `s` in place.
    fn mul_self_s(&mut self, s: S)
        ensures
            forall|c: int, r: int|
                0 <= c < Self::dim() && 0 <= r < Self::dim() ==> #[trigger] final(self).at(c, r)
                    == old(self).at(c, r).mul_spec(s),
    {
        *self = self.mul_s(s);
    }

    /// Divides every entry by `s` in place.
    fn div_self_s(&mut self, s: S)
        ensures
            forall|c: int, r: int|
                0 <= c < Self::dim() && 0 <= r < Self::dim() ==> #[trigger] final(self).at(c, r)
                    == old(self).at(c, r).div_spec(s),
    {
        *self = self.div_s(s);
    }

    /// Replaces every entry by its remainder on division by `s`, in place.
    fn rem_self_s(&mut self, s: S)
        ensures
            forall|c: int, r: int|
                0 <= c < Self::dim() && 0 <= r < Self::dim() ==> #[trigger] final(self).at(c, r)
                    == old(self).at(c, r).rem_spec(s),
    {
        *self = self.rem_s(s);
    }

    /// The matrix applied to the vector `v`.
    fn mul_v(&self, v: &V) -> (u: V)
        ensures
            u == self.apply(*v),
    ;

    /// The entry-wise sum.
    fn add_m(&self, other: &Self) -> (m: Self)
        ensures
            forall|c: int, r: int|
                0 <= c < Self::dim() && 0 <= r < Self::dim() ==> #[trigger] m.at(c, r) == self.at(
                    c,
                    r,
                ).add_spec(other.at(c, r)),
    ;

    /// The entry-wise difference.
    fn sub_m(&self, other: &Self) -> (m: Self)
        ensures
            forall|c: int, r: int|
                0 <= c < Self::dim() && 0 <= r < Self::dim() ==> #[trigger] m.at(c, r) == self.at(
                    c,
                    r,
                ).sub_spec(other.at(c, r)),
    ;

    /// Adds `other` entry by entry, in place.
    fn add_self_m(&mut self, other: &Self)
        ensures
            forall|c: int, r: int|
                0 <= c < Self::dim() && 0 <= r < Self::dim() ==> #[trigger] final(self).at(c, r)
                    == old(self).at(c, r).add_spec(other.at(c, r)),
    {
        *self = self.add_m(other);
    }

    /// Subtracts `other` entry by entry, in place.
    fn sub_self_m(&mut self, other: &Self)
        ensures
            forall|c: int, r: int|
                0 <= c < Self::dim() && 0 <= r < Self::dim() ==> #[trigger] final(self).at(c, r)
                    == old(self).at(c, r).sub_spec(other.at(c, r)),
    {
        *self = self.sub_m(other);
    }

    /// The matrix product of `self` and `other`.
    fn mul_m(&self, other: &Self) -> (m: Self)
        ensures
            m == self.product(*other),
    ;

    /// The transpose.
    fn transpose(&self) -> (m: Self)
        ensures
            m == self.transposed(),
    ;

    /// Transposes in place.
    fn transpose_self(&mut self)
        ensures
            *final(self) == old(self).transposed(),
    ;

    /// The sum of the diagonal entries.
    fn trace(&self) -> (s: S)
        ensures
            s == self.trace_spec(),
    ;

    /// The determinant.
    fn determinant(&self) -> (s: S)
        ensures
            s == self.det(),
    ;

    /// The inverse, or `None` exactly when the determinant is approximately
    /// zero.
    fn invert(&self) -> (m: Option<Self>)
        ensures
            m == (if self.det().approx_eq_spec(S::zero_spec()) {
                None
            } else {
                Some(self.inverse())
            }),
    ;

    /// Replaces the matrix by its inverse. The determinant must not be
    /// approximately zero: test with `is_invertible` first.
    fn invert_self(&mut self)
        requires
            !old(self).det().approx_eq_spec(S::zero_spec()),
        ensures
            *final(self) == old(self).inverse(),
    {
        let inverse = self.invert();
        if let Some(m) = inverse {
            *self = m;
        }
    }

    /// Whether the determinant is not approximately zero.
    fn is_invertible(&self) -> (b: bool)
        ensures
            b == !self.det().approx_eq_spec(S::zero_spec()),
    {
        !self.determinant().approx_eq(S::zero())
    }

    /// Whether every entry is approximately equal to its counterpart in
    /// `other`.
    fn approx_eq(&self, other: &Self) -> (b: bool)
        ensures
            b == self.approx_eq_spec(*other),
    ;

    /// Whether the matrix is approximately the identity.
    fn is_identity(&self) -> (b: bool)
        ensures
            b == self.approx_eq_spec(Self::diag(S::one_spec())),
    ;

    /// Whether the matrix is not approximately the identity.
    fn is_rotated(&self) -> (b: bool)
        ensures
            b == !self.approx_eq_spec(Self::diag(S::one_spec())),
    {
        !self.is_identity()
    }

    /// Whether every entry off the diagonal is approximately zero.
    fn is_diagonal(&self) -> (b: bool)
        ensures
            b == self.diagonal(),
    ;

    /// Whether every entry off the diagonal is approximately equal to its
    /// mirror image.
    fn is_symmetric(&self) -> (b: bool)
        ensures
            b == self.symmetric(),
    ;
}

} // verus!
