//! The 3 x 3 matrix.

use vstd::prelude::*;
use crate::matrix::Matrix;
use crate::scalar::Scalar;
use crate::quaternion::Quat;
use crate::vector::Vec3;

verus! {

/// A 3 x 3, column major matrix.
#[derive(Clone, Copy, PartialEq, Debug)]
pub struct Mat3<S> {
    pub x: Vec3<S>,
    pub y: Vec3<S>,
    pub z: Vec3<S>,
}

impl<S: Scalar> Mat3<S> {
    /// Builds the matrix from its entries, column after column.
    pub fn new(
        c0r0: S, c0r1: S, c0r2: S,
        c1r0: S, c1r1: S, c1r2: S,
        c2r0: S, c2r1: S, c2r2: S,
    ) -> (m: Self)
        ensures
            m == (Mat3 {
                x: Vec3 { x: c0r0, y: c0r1, z: c0r2 },
                y: Vec3 { x: c1r0, y: c1r1, z: c1r2 },
                z: Vec3 { x: c2r0, y: c2r1, z: c2r2 },
            }),
    {
        Mat3::from_cols(
            Vec3::new(c0r0, c0r1, c0r2),
            Vec3::new(c1r0, c1r1, c1r2),
            Vec3::new(c2r0, c2r1, c2r2),
        )
    }

    /// Builds the matrix from its columns.
    pub fn from_cols(c0: Vec3<S>, c1: Vec3<S>, c2: Vec3<S>) -> (m: Self)
        ensures
            m == (Mat3 { x: c0, y: c1, z: c2 }),
    {
        Mat3 { x: c0, y: c1, z: c2 }
    }

    /// The matrix with `value` on the diagonal and zero elsewhere.
    pub fn from_value(value: S) -> (m: Self)
        ensures
            m == Self::diag(value),
    {
        Mat3::new(
            value, S::zero(), S::zero(),
            S::zero(), value, S::zero(),
            S::zero(), S::zero(), value,
        )
    }

    /// The matrix of zeros.
    pub fn zero() -> (m: Self)
        ensures
            m == Self::diag(S::zero_spec()),
    {
        Mat3::from_value(S::zero())
    }

    /// The identity matrix.
    pub fn ident() -> (m: Self)
        ensures
            m == Self::diag(S::one_spec()),
    {
        Mat3::from_value(S::one())
    }

    /// The multiplicative identity among the matrices: the identity matrix.
    pub fn one() -> (m: Self)
        ensures
            m == Self::diag(S::one_spec()),
    {
        Mat3::ident()
    }

    /// The matrix whose columns are the recomputed up direction, the side
    /// direction and the normalized `dir`: what `look_at` builds.
    pub open spec fn looking_at(dir: Vec3<S>, up: Vec3<S>) -> Self {
        let dir = dir.normalize_spec();
        let side = dir.cross_spec(up.normalize_spec());
        Mat3 { x: side.cross_spec(dir).normalize_spec(), y: side, z: dir }
    }

    /// The orientation that looks along `dir` with `up` as a hint for the
    /// upward direction. Its columns are the recomputed up direction, the side
    /// direction and the normalized `dir`, in this order. Neither argument is
    /// tested: with a zero vector, or with `dir` parallel to `up`, the result
    /// is whatever the scalar operations give.
    pub fn look_at(dir: &Vec3<S>, up: &Vec3<S>) -> (m: Self)
        ensures
            m == Self::looking_at(*dir, *up),
    {
        let dir = dir.normalize();
        let side = dir.cross(&up.normalize());
        let up = side.cross(&dir).normalize();
        Mat3::from_cols(up, side, dir)
    }

    /// The matrix whose columns are the cross products of the second and
    /// third, the third and first, and the first and second column: the
    /// adjugate before it is transposed.
    pub open spec fn adjugate_transposed(self) -> Self {
        Mat3 {
            x: self.y.cross_spec(self.z),
            y: self.z.cross_spec(self.x),
            z: self.x.cross_spec(self.y),
        }
    }

    /// The six products of three entries that the determinant is made of,
    /// the first, third and fifth added and the others subtracted.
    pub open spec fn det_terms(self) -> (S, S, S, S, S, S) {
        let x = self.x;
        let y = self.y;
        let z = self.z;
        (
            x.x.mul_spec(y.y.mul_spec(z.z)),
            x.x.mul_spec(y.z.mul_spec(z.y)),
            x.y.mul_spec(y.z.mul_spec(z.x)),
            x.y.mul_spec(y.x.mul_spec(z.z)),
            x.z.mul_spec(y.x.mul_spec(z.y)),
            x.z.mul_spec(y.y.mul_spec(z.x)),
        )
    }

    /// Where the scalars calculate exactly, the determinant is the triple
    /// product of the columns, whichever column comes last.
    pub proof fn det_is_triple_product_of_columns(self)
        requires
            crate::scalar::product_laws::<S>(),
            crate::scalar::cancellation_laws::<S>(),
            crate::scalar::rearrangement_laws::<S>(),
        ensures
            self.y.cross_spec(self.z).dot_spec(self.x) == self.det(),
            self.z.cross_spec(self.x).dot_spec(self.y) == self.det(),
            self.x.cross_spec(self.y).dot_spec(self.z) == self.det(),
    {
        reveal(crate::scalar::product_laws);
        reveal(crate::scalar::cancellation_laws);
        reveal(crate::scalar::rearrangement_laws);
        let (a, b, c, e, f, g) = self.det_terms();
        assert(self.det() == a.sub_spec(b).sub_spec(e.sub_spec(f)).add_spec(c.sub_spec(g)));
        assert(self.y.cross_spec(self.z).dot_spec(self.x) == a.sub_spec(b).add_spec(
            c.sub_spec(e),
        ).add_spec(f.sub_spec(g)));
    }

    /// Where the scalars calculate exactly, the determinant is the triple
    /// product of the rows, whichever row comes first.
    pub proof fn det_is_triple_product_of_rows(self)
        requires
            crate::scalar::product_laws::<S>(),
            crate::scalar::cancellation_laws::<S>(),
            crate::scalar::rearrangement_laws::<S>(),
        ensures
            self.row(0).dot_spec(self.row(1).cross_spec(self.row(2))) == self.det(),
            self.row(1).dot_spec(self.row(2).cross_spec(self.row(0))) == self.det(),
            self.row(2).dot_spec(self.row(0).cross_spec(self.row(1))) == self.det(),
    {
        reveal(crate::scalar::product_laws);
        reveal(crate::scalar::cancellation_laws);
        reveal(crate::scalar::rearrangement_laws);
        let (a, b, c, e, f, g) = self.det_terms();
        assert(self.det() == a.sub_spec(b).sub_spec(e.sub_spec(f)).add_spec(c.sub_spec(g)));
    }

    /// Where the scalars calculate exactly, the adjugate times the matrix is
    /// the determinant times the identity, and so is the matrix times the
    /// adjugate.
    pub proof fn adjugate_products(self)
        requires
            crate::scalar::product_laws::<S>(),
            crate::scalar::cancellation_laws::<S>(),
            crate::scalar::rearrangement_laws::<S>(),
        ensures
            self.adjugate_transposed().transposed().product(self) == Self::diag(self.det()),
            self.product(self.adjugate_transposed().transposed()) == Self::diag(self.det()),
    {
        self.det_is_triple_product_of_columns();
        self.det_is_triple_product_of_rows();
        self.y.cross_is_orthogonal(self.z);
        self.z.cross_is_orthogonal(self.x);
        self.x.cross_is_orthogonal(self.y);
        self.row(1).cross_is_orthogonal(self.row(2));
        self.row(2).cross_is_orthogonal(self.row(0));
        self.row(0).cross_is_orthogonal(self.row(1));
        assert(self.adjugate_transposed().row(0) == self.row(1).cross_spec(self.row(2))
            && self.adjugate_transposed().row(1) == self.row(2).cross_spec(self.row(0))
            && self.adjugate_transposed().row(2) == self.row(0).cross_spec(self.row(1))) by {
            reveal(crate::scalar::product_laws);
        }
    }

    /// Where the scalars calculate exactly, the product of a matrix with what
    /// `invert` returns for it is the identity, and so approximately the
    /// identity, whichever of the two comes first.
    pub proof fn inverse_is_two_sided(self)
        requires
            crate::scalar::exact_arithmetic::<S>(),
            !self.det().approx_eq_spec(S::zero_spec()),
        ensures
            self.product(self.inverse()) == Self::diag(S::one_spec()),
            self.inverse().product(self) == Self::diag(S::one_spec()),
            self.product(self.inverse()).approx_eq_spec(Self::diag(S::one_spec())),
            self.inverse().product(self).approx_eq_spec(Self::diag(S::one_spec())),
    {
        assert(Self::diag(S::one_spec()).approx_eq_spec(Self::diag(S::one_spec()))) by {
            reveal(crate::scalar::approximation_laws);
        }
        self.adjugate_products();
        reveal(crate::scalar::quotient_laws);
        assert(self.det() != S::zero_spec());
    }

    /// The quaternion with scalar part half of `root` and with vector part
    /// `(a, b, c)` scaled by one half divided by `root`.
    pub open spec fn quat_scaled(root: S, a: S, b: S, c: S) -> Quat<S> {
        let s = S::half_spec().div_spec(root);
        Quat {
            s: S::half_spec().mul_spec(root),
            v: Vec3 { x: a.mul_spec(s), y: b.mul_spec(s), z: c.mul_spec(s) },
        }
    }

    /// The difference of the entry in column `c`, row `r` and its mirror
    /// image.
    pub open spec fn skew(self, c: int, r: int) -> S {
        self.at(c, r).sub_spec(self.at(r, c))
    }

    /// The quaternion of a rotation matrix. One of four formulas is taken: the
    /// first where the trace is not negative, otherwise the one that belongs
    /// to the largest diagonal entry, so that the square root is taken of a
    /// number away from zero.
    pub open spec fn quat(self) -> Quat<S> {
        let half = S::half_spec();
        let m00 = self.at(0, 0);
        let m11 = self.at(1, 1);
        let m22 = self.at(2, 2);
        if self.trace_spec().ge_spec(S::zero_spec()) {
            Self::quat_scaled(
                S::one_spec().add_spec(self.trace_spec()).sqrt_spec(),
                self.skew(2, 1),
                self.skew(0, 2),
                self.skew(1, 0),
            )
        } else if m00.gt_spec(m11) && m00.gt_spec(m22) {
            Self::quat_scaled(
                half.add_spec(m00.sub_spec(m11).sub_spec(m22)).sqrt_spec(),
                self.skew(0, 1),
                self.skew(2, 0),
                self.skew(1, 2),
            )
        } else if m11.gt_spec(m22) {
            Self::quat_scaled(
                half.add_spec(m11.sub_spec(m00).sub_spec(m22)).sqrt_spec(),
                self.skew(0, 1),
                self.skew(1, 2),
                self.skew(2, 0),
            )
        } else {
            Self::quat_scaled(
                half.add_spec(m22.sub_spec(m00).sub_spec(m11)).sqrt_spec(),
                self.skew(2, 0),
                self.skew(1, 2),
                self.skew(0, 1),
            )
        }
    }

    /// Converts a rotation matrix into a quaternion. The matrix is taken to be
    /// orthonormal with determinant one; this is not tested, and the result is
    /// not normalized.
    pub fn to_quat(&self) -> (q: Quat<S>)
        ensures
            q == self.quat(),
    {
        let trace = self.trace();
        let m00 = *self.cr(0, 0);
        let m11 = *self.cr(1, 1);
        let m22 = *self.cr(2, 2);
        let root;
        let a;
        let b;
        let c;
        if trace.ge(S::zero()) {
            root = S::one().add(trace).sqrt();
            a = self.cr(2, 1).sub(*self.cr(1, 2));
            b = self.cr(0, 2).sub(*self.cr(2, 0));
            c = self.cr(1, 0).sub(*self.cr(0, 1));
        } else if m00.gt(m11) && m00.gt(m22) {
            root = S::half().add(m00.sub(m11).sub(m22)).sqrt();
            a = self.cr(0, 1).sub(*self.cr(1, 0));
            b = self.cr(2, 0).sub(*self.cr(0, 2));
            c = self.cr(1, 2).sub(*self.cr(2, 1));
        } else if m11.gt(m22) {
            root = S::half().add(m11.sub(m00).sub(m22)).sqrt();
            a = self.cr(0, 1).sub(*self.cr(1, 0));
            b = self.cr(1, 2).sub(*self.cr(2, 1));
            c = self.cr(2, 0).sub(*self.cr(0, 2));
        } else {
            root = S::half().add(m22.sub(m00).sub(m11)).sqrt();
            a = self.cr(2, 0).sub(*self.cr(0, 2));
            b = self.cr(1, 2).sub(*self.cr(2, 1));
            c = self.cr(0, 1).sub(*self.cr(1, 0));
        }
        let w = S::half().mul(root);
        let s = S::half().div(root);
        Quat::new(w, a.mul(s), b.mul(s), c.mul(s))
    }
}

impl<S: Scalar> Matrix<S, Vec3<S>> for Mat3<S> {
    open spec fn dim() -> int {
        3
    }

    open spec fn col(self, c: int) -> Vec3<S> {
        if c == 0 {
            self.x
        } else if c == 1 {
            self.y
        } else {
            self.z
        }
    }

    open spec fn row(self, r: int) -> Vec3<S> {
        Vec3 { x: self.x.at(r), y: self.y.at(r), z: self.z.at(r) }
    }

    open spec fn at(self, c: int, r: int) -> S {
        self.col(c).at(r)
    }

    open spec fn with_col(self, c: int, v: Vec3<S>) -> Self {
        if c == 0 {
            Mat3 { x: v, ..self }
        } else if c == 1 {
            Mat3 { y: v, ..self }
        } else {
            Mat3 { z: v, ..self }
        }
    }

    open spec fn with_at(self, c: int, r: int, s: S) -> Self {
        self.with_col(c, self.col(c).with_at(r, s))
    }

    open spec fn diag(v: S) -> Self {
        Mat3 {
            x: Vec3 { x: v, y: S::zero_spec(), z: S::zero_spec() },
            y: Vec3 { x: S::zero_spec(), y: v, z: S::zero_spec() },
            z: Vec3 { x: S::zero_spec(), y: S::zero_spec(), z: v },
        }
    }

    open spec fn apply(self, v: Vec3<S>) -> Vec3<S> {
        Vec3 { x: self.row(0).dot_spec(v), y: self.row(1).dot_spec(v), z: self.row(2).dot_spec(v) }
    }

    open spec fn product(self, other: Self) -> Self {
        Mat3 {
            x: self.apply(other.x),
            y: self.apply(other.y),
            z: self.apply(other.z),
        }
    }

    open spec fn transposed(self) -> Self {
        Mat3 {
            x: self.row(0),
            y: self.row(1),
            z: self.row(2),
        }
    }

    open spec fn trace_spec(self) -> S {
        self.x.x.add_spec(self.y.y).add_spec(self.z.z)
    }

    /// The cofactor expansion over the first entry of every column: each of
    /// these entries times the determinant of the 2 x 2 matrix left when its
    /// row and column are struck out, the middle one subtracted.
    open spec fn det(self) -> S {
        self.at(0, 0).mul_spec(
            self.at(1, 1).mul_spec(self.at(2, 2)).sub_spec(self.at(2, 1).mul_spec(self.at(1, 2))),
        ).sub_spec(
            self.at(1, 0).mul_spec(
                self.at(0, 1).mul_spec(self.at(2, 2)).sub_spec(
                    self.at(2, 1).mul_spec(self.at(0, 2)),
                ),
            ),
        ).add_spec(
            self.at(2, 0).mul_spec(
                self.at(0, 1).mul_spec(self.at(1, 2)).sub_spec(
                    self.at(1, 1).mul_spec(self.at(0, 2)),
                ),
            ),
        )
    }

    /// The cross products of the columns two by two, each divided by the
    /// determinant, and the whole transposed.
    open spec fn inverse(self) -> Self {
        let det = self.det();
        let adjugate = self.adjugate_transposed();
        Mat3 {
            x: adjugate.x.div_s_spec(det),
            y: adjugate.y.div_s_spec(det),
            z: adjugate.z.div_s_spec(det),
        }.transposed()
    }

    open spec fn approx_eq_spec(self, other: Self) -> bool {
        self.x.approx_eq_spec(other.x)
            && self.y.approx_eq_spec(other.y)
            && self.z.approx_eq_spec(other.z)
    }

    open spec fn diagonal(self) -> bool {
        forall|c: int, r: int|
            0 <= c < 3 && 0 <= r < 3 && c != r ==> (#[trigger] self.at(c, r)).approx_eq_spec(
                S::zero_spec(),
            )
    }

    open spec fn symmetric(self) -> bool {
        forall|c: int, r: int|
            0 <= c < 3 && 0 <= r < 3 && c != r ==> (#[trigger] self.at(c, r)).approx_eq_spec(
                self.at(r, c),
            )
    }

    proof fn entries_determine(a: Self, b: Self) {
        assert(a.col(0) == b.col(0)) by {
            assert(a.at(0, 0) == b.at(0, 0));
            assert(a.at(0, 1) == b.at(0, 1));
            assert(a.at(0, 2) == b.at(0, 2));
        }
        assert(a.col(1) == b.col(1)) by {
            assert(a.at(1, 0) == b.at(1, 0));
            assert(a.at(1, 1) == b.at(1, 1));
            assert(a.at(1, 2) == b.at(1, 2));
        }
        assert(a.col(2) == b.col(2)) by {
            assert(a.at(2, 0) == b.at(2, 0));
            assert(a.at(2, 1) == b.at(2, 1));
            assert(a.at(2, 2) == b.at(2, 2));
        }
    }

    proof fn transpose_twice(self) {
    }

    proof fn transpose_of_product(self, other: Self) {
    }

    proof fn trace_of_identity() {
        reveal_with_fuel(crate::matrix::sum_of_ones, 4);
    }

    proof fn determinant_of_identity_and_zero() {
    }

    fn order() -> (n: usize) {
        3
    }

    fn c(&self, c: usize) -> (v: &Vec3<S>) {
        if c == 0 {
            &self.x
        } else if c == 1 {
            &self.y
        } else {
            &self.z
        }
    }

    fn mut_c(&mut self, c: usize) -> (v: &mut Vec3<S>) {
        if c == 0 {
            &mut self.x
        } else if c == 1 {
            &mut self.y
        } else {
            &mut self.z
        }
    }

    fn r(&self, r: usize) -> (v: Vec3<S>) {
        Vec3::new(*self.x.i(r), *self.y.i(r), *self.z.i(r))
    }

    fn swap_r(&mut self, a: usize, b: usize) {
        self.x.swap(a, b);
        self.y.swap(a, b);
        self.z.swap(a, b);
    }

    fn cr(&self, c: usize, r: usize) -> (s: &S) {
        self.c(c).i(r)
    }

    fn mut_cr(&mut self, c: usize, r: usize) -> (s: &mut S) {
        self.mut_c(c).mut_i(r)
    }

    fn neg(&self) -> (m: Self) {
        Mat3::from_cols(self.x.neg(), self.y.neg(), self.z.neg())
    }

    fn mul_s(&self, s: S) -> (m: Self) {
        Mat3::from_cols(self.x.mul_s(s), self.y.mul_s(s), self.z.mul_s(s))
    }

    fn div_s(&self, s: S) -> (m: Self) {
        Mat3::from_cols(self.x.div_s(s), self.y.div_s(s), self.z.div_s(s))
    }

    fn rem_s(&self, s: S) -> (m: Self) {
        Mat3::from_cols(self.x.rem_s(s), self.y.rem_s(s), self.z.rem_s(s))
    }

    fn mul_v(&self, v: &Vec3<S>) -> (u: Vec3<S>) {
        Vec3::new(self.r(0).dot(v), self.r(1).dot(v), self.r(2).dot(v))
    }

    fn add_m(&self, other: &Self) -> (m: Self) {
        Mat3::from_cols(self.x.add_v(&other.x), self.y.add_v(&other.y), self.z.add_v(&other.z))
    }

    fn sub_m(&self, other: &Self) -> (m: Self) {
        Mat3::from_cols(self.x.sub_v(&other.x), self.y.sub_v(&other.y), self.z.sub_v(&other.z))
    }

    fn mul_m(&self, other: &Self) -> (m: Self) {
        Mat3::new(
            self.r(0).dot(other.c(0)), self.r(1).dot(other.c(0)), self.r(2).dot(other.c(0)),
            self.r(0).dot(other.c(1)), self.r(1).dot(other.c(1)), self.r(2).dot(other.c(1)),
            self.r(0).dot(other.c(2)), self.r(1).dot(other.c(2)), self.r(2).dot(other.c(2)),
        )
    }

    fn transpose(&self) -> (m: Self) {
        Mat3::new(
            *self.cr(0, 0), *self.cr(1, 0), *self.cr(2, 0),
            *self.cr(0, 1), *self.cr(1, 1), *self.cr(2, 1),
            *self.cr(0, 2), *self.cr(1, 2), *self.cr(2, 2),
        )
    }

    fn transpose_self(&mut self) {
        self.swap_cr((0, 1), (1, 0));
        self.swap_cr((0, 2), (2, 0));
        self.swap_cr((1, 2), (2, 1));
    }

    fn trace(&self) -> (s: S) {
        self.cr(0, 0).add(*self.cr(1, 1)).add(*self.cr(2, 2))
    }

    fn determinant(&self) -> (s: S) {
        let m00 = *self.cr(0, 0);
        let m01 = *self.cr(0, 1);
        let m02 = *self.cr(0, 2);
        let m10 = *self.cr(1, 0);
        let m11 = *self.cr(1, 1);
        let m12 = *self.cr(1, 2);
        let m20 = *self.cr(2, 0);
        let m21 = *self.cr(2, 1);
        let m22 = *self.cr(2, 2);
        m00.mul(m11.mul(m22).sub(m21.mul(m12))).sub(m10.mul(m01.mul(m22).sub(m21.mul(m02)))).add(
            m20.mul(m01.mul(m12).sub(m11.mul(m02))),
        )
    }

    fn invert(&self) -> (m: Option<Self>) {
        let det = self.determinant();
        if det.approx_eq(S::zero()) {
            None
        } else {
            Some(
                Mat3::from_cols(
                    self.c(1).cross(self.c(2)).div_s(det),
                    self.c(2).cross(self.c(0)).div_s(det),
                    self.c(0).cross(self.c(1)).div_s(det),
                ).transpose(),
            )
        }
    }

    fn approx_eq(&self, other: &Self) -> (b: bool) {
        self.x.approx_eq(&other.x) && self.y.approx_eq(&other.y) && self.z.approx_eq(&other.z)
    }

    fn is_identity(&self) -> (b: bool) {
        self.approx_eq(&Mat3::ident())
    }

    fn is_diagonal(&self) -> (b: bool) {
        self.cr(0, 1).approx_eq(S::zero())
            && self.cr(0, 2).approx_eq(S::zero())
            && self.cr(1, 0).approx_eq(S::zero())
            && self.cr(1, 2).approx_eq(S::zero())
            && self.cr(2, 0).approx_eq(S::zero())
            && self.cr(2, 1).approx_eq(S::zero())
    }

    fn is_symmetric(&self) -> (b: bool) {
        self.cr(0, 1).approx_eq(*self.cr(1, 0))
            && self.cr(0, 2).approx_eq(*self.cr(2, 0))
            && self.cr(1, 0).approx_eq(*self.cr(0, 1))
            && self.cr(1, 2).approx_eq(*self.cr(2, 1))
            && self.cr(2, 0).approx_eq(*self.cr(0, 2))
            && self.cr(2, 1).approx_eq(*self.cr(1, 2))
    }
}

} // verus!
