//! The 2 x 2 matrix.

use vstd::prelude::*;
use crate::matrix::Matrix;
use crate::scalar::Scalar;
use crate::vector::Vec2;

verus! {

/// A 2 x 2, column major matrix.
#[derive(Clone, Copy, PartialEq, Debug)]
pub struct Mat2<S> {
    pub x: Vec2<S>,
    pub y: Vec2<S>,
}

impl<S: Scalar> Mat2<S> {
    /// Builds the matrix from its entries, column after column.
    pub fn new(
        c0r0: S, c0r1: S,
        c1r0: S, c1r1: S,
    ) -> (m: Self)
        ensures
            m == (Mat2 {
                x: Vec2 { x: c0r0, y: c0r1 },
                y: Vec2 { x: c1r0, y: c1r1 },
            }),
    {
        Mat2::from_cols(
            Vec2::new(c0r0, c0r1),
            Vec2::new(c1r0, c1r1),
        )
    }

    /// Builds the matrix from its columns.
    pub fn from_cols(c0: Vec2<S>, c1: Vec2<S>) -> (m: Self)
        ensures
            m == (Mat2 { x: c0, y: c1 }),
    {
        Mat2 { x: c0, y: c1 }
    }

    /// The matrix with `value` on the diagonal and zero elsewhere.
    pub fn from_value(value: S) -> (m: Self)
        ensures
            m == Self::diag(value),
    {
        Mat2::new(
            value, S::zero(),
            S::zero(), value,
        )
    }

    /// The matrix of zeros.
    pub fn zero() -> (m: Self)
        ensures
            m == Self::diag(S::zero_spec()),
    {
        Mat2::from_value(S::zero())
    }

    /// The identity matrix.
    pub fn ident() -> (m: Self)
        ensures
            m == Self::diag(S::one_spec()),
    {
        Mat2::from_value(S::one())
    }

    /// The multiplicative identity among the matrices: the identity matrix.
    pub fn one() -> (m: Self)
        ensures
            m == Self::diag(S::one_spec()),
    {
        Mat2::ident()
    }

    /// The rotation with the given cosine and sine of its angle: the first
    /// column is (cos, sin), the second (-sin, cos).
    pub open spec fn rotation(cos: S, sin: S) -> Self {
        Mat2 { x: Vec2 { x: cos, y: sin }, y: Vec2 { x: sin.neg_spec(), y: cos } }
    }

    /// The rotation by `radians`: the first column is the cosine and the sine
    /// of the angle, the second the negated sine and the cosine.
    pub fn from_angle(radians: S) -> (m: Self)
        ensures
            m == Self::rotation(radians.cos_spec(), radians.sin_spec()),
    {
        let cos_theta = radians.cos();
        let sin_theta = radians.sin();
        Mat2::new(cos_theta, sin_theta, sin_theta.neg(), cos_theta)
    }

    /// Where the scalars calculate exactly, the product of a matrix with what
    /// `invert` returns for it is the identity, and so approximately the
    /// identity, whichever of the two comes first.
    pub proof fn inverse_is_two_sided(self)
        requires
            crate::scalar::exact_arithmetic::<S>(),
            !self.det().approx_eq_spec(S::zero_spec()),
        ensures
            self.product(self.inverse()) == Self::diag(S::one_spec()),
            self.inverse().product(self) == Self::diag(S::one_spec()),
            self.product(self.inverse()).approx_eq_spec(Self::diag(S::one_spec())),
            self.inverse().product(self).approx_eq_spec(Self::diag(S::one_spec())),
    {
        assert(Self::diag(S::one_spec()).approx_eq_spec(Self::diag(S::one_spec()))) by {
            reveal(crate::scalar::approximation_laws);
        }
        reveal(crate::scalar::product_laws);
        reveal(crate::scalar::negation_laws);
        reveal(crate::scalar::cancellation_laws);
        reveal(crate::scalar::quotient_laws);
        assert(self.det() != S::zero_spec());
    }
}

impl<S: Scalar> Matrix<S, Vec2<S>> for Mat2<S> {
    open spec fn dim() -> int {
        2
    }

    open spec fn col(self, c: int) -> Vec2<S> {
        if c == 0 {
            self.x
        } else {
            self.y
        }
    }

    open spec fn row(self, r: int) -> Vec2<S> {
        Vec2 { x: self.x.at(r), y: self.y.at(r) }
    }

    open spec fn at(self, c: int, r: int) -> S {
        self.col(c).at(r)
    }

    open spec fn with_col(self, c: int, v: Vec2<S>) -> Self {
        if c == 0 {
            Mat2 { x: v, ..self }
        } else {
            Mat2 { y: v, ..self }
        }
    }

    open spec fn with_at(self, c: int, r: int, s: S) -> Self {
        self.with_col(c, self.col(c).with_at(r, s))
    }

    open spec fn diag(v: S) -> Self {
        Mat2 {
            x: Vec2 { x: v, y: S::zero_spec() },
            y: Vec2 { x: S::zero_spec(), y: v },
        }
    }

    open spec fn apply(self, v: Vec2<S>) -> Vec2<S> {
        Vec2 { x: self.row(0).dot_spec(v), y: self.row(1).dot_spec(v) }
    }

    open spec fn product(self, other: Self) -> Self {
        Mat2 {
            x: self.apply(other.x),
            y: self.apply(other.y),
        }
    }

    open spec fn transposed(self) -> Self {
        Mat2 {
            x: self.row(0),
            y: self.row(1),
        }
    }

    open spec fn trace_spec(self) -> S {
        self.x.x.add_spec(self.y.y)
    }

    /// The product of the diagonal entries less the product of the other two.
    open spec fn det(self) -> S {
        self.at(0, 0).mul_spec(self.at(1, 1)).sub_spec(self.at(1, 0).mul_spec(self.at(0, 1)))
    }

    /// The diagonal entries exchanged and the other two negated, each divided
    /// by the determinant.
    open spec fn inverse(self) -> Self {
        let det = self.det();
        Mat2 {
            x: Vec2 { x: self.at(1, 1).div_spec(det), y: self.at(0, 1).neg_spec().div_spec(det) },
            y: Vec2 { x: self.at(1, 0).neg_spec().div_spec(det), y: self.at(0, 0).div_spec(det) },
        }
    }

    open spec fn approx_eq_spec(self, other: Self) -> bool {
        self.x.approx_eq_spec(other.x) && self.y.approx_eq_spec(other.y)
    }

    open spec fn diagonal(self) -> bool {
        forall|c: int, r: int|
            0 <= c < 2 && 0 <= r < 2 && c != r ==> (#[trigger] self.at(c, r)).approx_eq_spec(
                S::zero_spec(),
            )
    }

    open spec fn symmetric(self) -> bool {
        forall|c: int, r: int|
            0 <= c < 2 && 0 <= r < 2 && c != r ==> (#[trigger] self.at(c, r)).approx_eq_spec(
                self.at(r, c),
            )
    }

    proof fn entries_determine(a: Self, b: Self) {
        assert(a.col(0) == b.col(0)) by {
            assert(a.at(0, 0) == b.at(0, 0));
            assert(a.at(0, 1) == b.at(0, 1));
        }
        assert(a.col(1) == b.col(1)) by {
            assert(a.at(1, 0) == b.at(1, 0));
            assert(a.at(1, 1) == b.at(1, 1));
        }
    }

    proof fn transpose_twice(self) {
    }

    proof fn transpose_of_product(self, other: Self) {
    }

    proof fn trace_of_identity() {
        reveal_with_fuel(crate::matrix::sum_of_ones, 3);
    }

    proof fn determinant_of_identity_and_zero() {
    }

    fn order() -> (n: usize) {
        2
    }

    fn c(&self, c: usize) -> (v: &Vec2<S>) {
        if c == 0 {
            &self.x
        } else {
            &self.y
        }
    }

    fn mut_c(&mut self, c: usize) -> (v: &mut Vec2<S>) {
        if c == 0 {
            &mut self.x
        } else {
            &mut self.y
        }
    }

    fn r(&self, r: usize) -> (v: Vec2<S>) {
        Vec2::new(*self.x.i(r), *self.y.i(r))
    }

    fn swap_r(&mut self, a: usize, b: usize) {
        self.x.swap(a, b);
        self.y.swap(a, b);
    }

    fn cr(&self, c: usize, r: usize) -> (s: &S) {
        self.c(c).i(r)
    }

    fn mut_cr(&mut self, c: usize, r: usize) -> (s: &mut S) {
        self.mut_c(c).mut_i(r)
    }

    fn neg(&self) -> (m: Self) {
        Mat2::from_cols(self.x.neg(), self.y.neg())
    }

    fn mul_s(&self, s: S) -> (m: Self) {
        Mat2::from_cols(self.x.mul_s(s), self.y.mul_s(s))
    }

    fn div_s(&self, s: S) -> (m: Self) {
        Mat2::from_cols(self.x.div_s(s), self.y.div_s(s))
    }

    fn rem_s(&self, s: S) -> (m: Self) {
        Mat2::from_cols(self.x.rem_s(s), self.y.rem_s(s))
    }

    fn mul_v(&self, v: &Vec2<S>) -> (u: Vec2<S>) {
        Vec2::new(self.r(0).dot(v), self.r(1).dot(v))
    }

    fn add_m(&self, other: &Self) -> (m: Self) {
        Mat2::from_cols(self.x.add_v(&other.x), self.y.add_v(&other.y))
    }

    fn sub_m(&self, other: &Self) -> (m: Self) {
        Mat2::from_cols(self.x.sub_v(&other.x), self.y.sub_v(&other.y))
    }

    fn mul_m(&self, other: &Self) -> (m: Self) {
        Mat2::new(
            self.r(0).dot(other.c(0)), self.r(1).dot(other.c(0)),
            self.r(0).dot(other.c(1)), self.r(1).dot(other.c(1)),
        )
    }

    fn transpose(&self) -> (m: Self) {
        Mat2::new(
            *self.cr(0, 0), *self.cr(1, 0),
            *self.cr(0, 1), *self.cr(1, 1),
        )
    }

    fn transpose_self(&mut self) {
        self.swap_cr((0, 1), (1, 0));
    }

    fn trace(&self) -> (s: S) {
        self.cr(0, 0).add(*self.cr(1, 1))
    }

    fn determinant(&self) -> (s: S) {
        self.cr(0, 0).mul(*self.cr(1, 1)).sub(self.cr(1, 0).mul(*self.cr(0, 1)))
    }

    fn invert(&self) -> (m: Option<Self>) {
        let det = self.determinant();
        if det.approx_eq(S::zero()) {
            None
        } else {
            Some(
                Mat2::new(
                    self.cr(1, 1).div(det),
                    self.cr(0, 1).neg().div(det),
                    self.cr(1, 0).neg().div(det),
                    self.cr(0, 0).div(det),
                ),
            )
        }
    }

    fn approx_eq(&self, other: &Self) -> (b: bool) {
        self.x.approx_eq(&other.x) && self.y.approx_eq(&other.y)
    }

    fn is_identity(&self) -> (b: bool) {
        self.approx_eq(&Mat2::ident())
    }

    fn is_diagonal(&self) -> (b: bool) {
        self.cr(0, 1).approx_eq(S::zero())
            && self.cr(1, 0).approx_eq(S::zero())
    }

    fn is_symmetric(&self) -> (b: bool) {
        self.cr(0, 1).approx_eq(*self.cr(1, 0))
            && self.cr(1, 0).approx_eq(*self.cr(0, 1))
    }
}

} // verus!
