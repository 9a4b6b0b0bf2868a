//! The 4 x 4 matrix.

use vstd::prelude::*;
use crate::matrix::Matrix;
use crate::scalar::Scalar;
use crate::mat3::Mat3;
use crate::vector::Vec3;
use crate::vector::Vec4;

verus! {

/// A 4 x 4, column major matrix.
#[derive(Clone, Copy, PartialEq, Debug)]
pub struct Mat4<S> {
    pub x: Vec4<S>,
    pub y: Vec4<S>,
    pub z: Vec4<S>,
    pub w: Vec4<S>,
}

impl<S: Scalar> Mat4<S> {
    /// Builds the matrix from its entries, column after column.
    pub fn new(
        c0r0: S, c0r1: S, c0r2: S, c0r3: S,
        c1r0: S, c1r1: S, c1r2: S, c1r3: S,
        c2r0: S, c2r1: S, c2r2: S, c2r3: S,
        c3r0: S, c3r1: S, c3r2: S, c3r3: S,
    ) -> (m: Self)
        ensures
            m == (Mat4 {
                x: Vec4 { x: c0r0, y: c0r1, z: c0r2, w: c0r3 },
                y: Vec4 { x: c1r0, y: c1r1, z: c1r2, w: c1r3 },
                z: Vec4 { x: c2r0, y: c2r1, z: c2r2, w: c2r3 },
                w: Vec4 { x: c3r0, y: c3r1, z: c3r2, w: c3r3 },
            }),
    {
        Mat4::from_cols(
            Vec4::new(c0r0, c0r1, c0r2, c0r3),
            Vec4::new(c1r0, c1r1, c1r2, c1r3),
            Vec4::new(c2r0, c2r1, c2r2, c2r3),
            Vec4::new(c3r0, c3r1, c3r2, c3r3),
        )
    }

    /// Builds the matrix from its columns.
    pub fn from_cols(c0: Vec4<S>, c1: Vec4<S>, c2: Vec4<S>, c3: Vec4<S>) -> (m: Self)
        ensures
            m == (Mat4 { x: c0, y: c1, z: c2, w: c3 }),
    {
        Mat4 { x: c0, y: c1, z: c2, w: c3 }
    }

    /// The matrix with `value` on the diagonal and zero elsewhere.
    pub fn from_value(value: S) -> (m: Self)
        ensures
            m == Self::diag(value),
    {
        Mat4::new(
            value, S::zero(), S::zero(), S::zero(),
            S::zero(), value, S::zero(), S::zero(),
            S::zero(), S::zero(), value, S::zero(),
            S::zero(), S::zero(), S::zero(), value,
        )
    }

    /// The matrix of zeros.
    pub fn zero() -> (m: Self)
        ensures
            m == Self::diag(S::zero_spec()),
    {
        Mat4::from_value(S::zero())
    }

    /// The identity matrix.
    pub fn ident() -> (m: Self)
        ensures
            m == Self::diag(S::one_spec()),
    {
        Mat4::from_value(S::one())
    }

    /// The multiplicative identity among the matrices: the identity matrix.
    pub fn one() -> (m: Self)
        ensures
            m == Self::diag(S::one_spec()),
    {
        Mat4::ident()
    }

    /// The 3 x 3 matrix that the expansion of the determinant pairs with the
    /// first entry of column `c`: rows one to three of the three other
    /// columns, each of these rows a column of the result.
    pub open spec fn minor(self, c: int) -> Mat3<S> {
        let c0: int = if c <= 0 { 1 } else { 0 };
        let c1: int = if c <= 1 { 2 } else { 1 };
        let c2: int = if c <= 2 { 3 } else { 2 };
        Mat3 {
            x: Vec3 { x: self.at(c0, 1), y: self.at(c1, 1), z: self.at(c2, 1) },
            y: Vec3 { x: self.at(c0, 2), y: self.at(c1, 2), z: self.at(c2, 2) },
            z: Vec3 { x: self.at(c0, 3), y: self.at(c1, 3), z: self.at(c2, 3) },
        }
    }

    /// Where the scalars calculate exactly, applying the matrix to a vector
    /// divided by a scalar, or to a vector less a multiple of another, is the
    /// same as doing so to what the matrix makes of the vectors.
    pub proof fn apply_is_linear(self, v: Vec4<S>, w: Vec4<S>, f: S)
        requires
            crate::scalar::linearity_laws::<S>(),
            crate::scalar::quotient_laws::<S>(),
        ensures
            self.apply(v.div_s_spec(f)) == self.apply(v).div_s_spec(f),
            self.apply(v.sub_v_spec(w.mul_s_spec(f))) == self.apply(v).sub_v_spec(
                self.apply(w).mul_s_spec(f),
            ),
    {
        self.row(0).dot_is_linear(v, w, f);
        self.row(1).dot_is_linear(v, w, f);
        self.row(2).dot_is_linear(v, w, f);
        self.row(3).dot_is_linear(v, w, f);
    }

    /// Where the scalars calculate exactly and no step of the elimination
    /// divides by zero, the elimination reduces the matrix to the identity,
    /// and the product of the matrix with what `invert` returns for it is the
    /// identity, and so approximately the identity, whichever of the two
    /// comes first.
    pub proof fn inverse_is_two_sided(self)
        requires
            crate::scalar::exact_arithmetic::<S>(),
            Augmented::start(self).pivots_nonzero(4),
        ensures
            Augmented::start(self).reduced(4).left == Self::diag(S::one_spec()),
            self.product(self.inverse()) == Self::diag(S::one_spec()),
            self.inverse().product(self) == Self::diag(S::one_spec()),
            self.product(self.inverse()).approx_eq_spec(Self::diag(S::one_spec())),
            self.inverse().product(self).approx_eq_spec(Self::diag(S::one_spec())),
    {
        assert(Self::diag(S::one_spec()).approx_eq_spec(Self::diag(S::one_spec()))) by {
            reveal(crate::scalar::approximation_laws);
        }
        let start = Augmented::start(self);
        assert(start.tracks(self)) by {
            reveal(crate::scalar::identity_laws);
        }
        start.reduced_tracks(self, 4);
        start.reduced_units(4);
        let reduced = start.reduced(4);
        assert forall|c: int, r: int| 0 <= c < 4 && 0 <= r < 4 implies #[trigger] reduced.left.at(
            c,
            r,
        ) == Self::diag(S::one_spec()).at(c, r) by {
            assert(reduced.unit_at(c, r));
        }
        Self::entries_determine(reduced.left, Self::diag(S::one_spec()));
        assert(reduced.traced_by(reduced.right)) by {
            reveal(crate::scalar::identity_laws);
        }
        start.reduced_traced_back(reduced.right, 4);
    }

    /// Computes `minor(c)`.
    pub fn minor_of(&self, c: usize) -> (m: Mat3<S>)
        requires
            c < 4,
        ensures
            m == self.minor(c as int),
    {
        let c0: usize = if c <= 0 { 1 } else { 0 };
        let c1: usize = if c <= 1 { 2 } else { 1 };
        let c2: usize = if c <= 2 { 3 } else { 2 };
        Mat3::new(
            *self.cr(c0, 1), *self.cr(c1, 1), *self.cr(c2, 1),
            *self.cr(c0, 2), *self.cr(c1, 2), *self.cr(c2, 2),
            *self.cr(c0, 3), *self.cr(c1, 3), *self.cr(c2, 3),
        )
    }
}

impl<S: Scalar> Matrix<S, Vec4<S>> for Mat4<S> {
    open spec fn dim() -> int {
        4
    }

    open spec fn col(self, c: int) -> Vec4<S> {
        if c == 0 {
            self.x
        } else if c == 1 {
            self.y
        } else if c == 2 {
            self.z
        } else {
            self.w
        }
    }

    open spec fn row(self, r: int) -> Vec4<S> {
        Vec4 { x: self.x.at(r), y: self.y.at(r), z: self.z.at(r), w: self.w.at(r) }
    }

    open spec fn at(self, c: int, r: int) -> S {
        self.col(c).at(r)
    }

    open spec fn with_col(self, c: int, v: Vec4<S>) -> Self {
        if c == 0 {
            Mat4 { x: v, ..self }
        } else if c == 1 {
            Mat4 { y: v, ..self }
        } else if c == 2 {
            Mat4 { z: v, ..self }
        } else {
            Mat4 { w: v, ..self }
        }
    }

    open spec fn with_at(self, c: int, r: int, s: S) -> Self {
        self.with_col(c, self.col(c).with_at(r, s))
    }

    open spec fn diag(v: S) -> Self {
        Mat4 {
            x: Vec4 { x: v, y: S::zero_spec(), z: S::zero_spec(), w: S::zero_spec() },
            y: Vec4 { x: S::zero_spec(), y: v, z: S::zero_spec(), w: S::zero_spec() },
            z: Vec4 { x: S::zero_spec(), y: S::zero_spec(), z: v, w: S::zero_spec() },
            w: Vec4 { x: S::zero_spec(), y: S::zero_spec(), z: S::zero_spec(), w: v },
        }
    }

    open spec fn apply(self, v: Vec4<S>) -> Vec4<S> {
        Vec4 {
            x: self.row(0).dot_spec(v),
            y: self.row(1).dot_spec(v),
            z: self.row(2).dot_spec(v),
            w: self.row(3).dot_spec(v),
        }
    }

    open spec fn product(self, other: Self) -> Self {
        Mat4 {
            x: self.apply(other.x),
            y: self.apply(other.y),
            z: self.apply(other.z),
            w: self.apply(other.w),
        }
    }

    open spec fn transposed(self) -> Self {
        Mat4 {
            x: self.row(0),
            y: self.row(1),
            z: self.row(2),
            w: self.row(3),
        }
    }

    open spec fn trace_spec(self) -> S {
        self.x.x.add_spec(self.y.y).add_spec(self.z.z).add_spec(self.w.w)
    }

    /// The cofactor expansion over the first entry of every column: each of
    /// these entries times the determinant of its minor, with the signs plus,
    /// minus, plus, minus.
    open spec fn det(self) -> S {
        self.at(0, 0).mul_spec(self.minor(0).det()).sub_spec(
            self.at(1, 0).mul_spec(self.minor(1).det()),
        ).add_spec(self.at(2, 0).mul_spec(self.minor(2).det())).sub_spec(
            self.at(3, 0).mul_spec(self.minor(3).det()),
        )
    }

    /// What Gauss-Jordan elimination makes of the identity while it reduces
    /// the matrix, column after column: see `Augmented`.
    open spec fn inverse(self) -> Self {
        Augmented::start(self).reduced(4).right
    }

    open spec fn approx_eq_spec(self, other: Self) -> bool {
        self.x.approx_eq_spec(other.x)
            && self.y.approx_eq_spec(other.y)
            && self.z.approx_eq_spec(other.z)
            && self.w.approx_eq_spec(other.w)
    }

    open spec fn diagonal(self) -> bool {
        forall|c: int, r: int|
            0 <= c < 4 && 0 <= r < 4 && c != r ==> (#[trigger] self.at(c, r)).approx_eq_spec(
                S::zero_spec(),
            )
    }

    open spec fn symmetric(self) -> bool {
        forall|c: int, r: int|
            0 <= c < 4 && 0 <= r < 4 && c != r ==> (#[trigger] self.at(c, r)).approx_eq_spec(
                self.at(r, c),
            )
    }

    proof fn entries_determine(a: Self, b: Self) {
        assert(a.col(0) == b.col(0)) by {
            assert(a.at(0, 0) == b.at(0, 0));
            assert(a.at(0, 1) == b.at(0, 1));
            assert(a.at(0, 2) == b.at(0, 2));
            assert(a.at(0, 3) == b.at(0, 3));
        }
        assert(a.col(1) == b.col(1)) by {
            assert(a.at(1, 0) == b.at(1, 0));
            assert(a.at(1, 1) == b.at(1, 1));
            assert(a.at(1, 2) == b.at(1, 2));
            assert(a.at(1, 3) == b.at(1, 3));
        }
        assert(a.col(2) == b.col(2)) by {
            assert(a.at(2, 0) == b.at(2, 0));
            assert(a.at(2, 1) == b.at(2, 1));
            assert(a.at(2, 2) == b.at(2, 2));
            assert(a.at(2, 3) == b.at(2, 3));
        }
        assert(a.col(3) == b.col(3)) by {
            assert(a.at(3, 0) == b.at(3, 0));
            assert(a.at(3, 1) == b.at(3, 1));
            assert(a.at(3, 2) == b.at(3, 2));
            assert(a.at(3, 3) == b.at(3, 3));
        }
    }

    proof fn transpose_twice(self) {
    }

    proof fn transpose_of_product(self, other: Self) {
    }

    proof fn trace_of_identity() {
        reveal_with_fuel(crate::matrix::sum_of_ones, 5);
    }

    proof fn determinant_of_identity_and_zero() {
    }

    fn order() -> (n: usize) {
        4
    }

    fn c(&self, c: usize) -> (v: &Vec4<S>) {
        if c == 0 {
            &self.x
        } else if c == 1 {
            &self.y
        } else if c == 2 {
            &self.z
        } else {
            &self.w
        }
    }

    fn mut_c(&mut self, c: usize) -> (v: &mut Vec4<S>) {
        if c == 0 {
            &mut self.x
        } else if c == 1 {
            &mut self.y
        } else if c == 2 {
            &mut self.z
        } else {
            &mut self.w
        }
    }

    fn r(&self, r: usize) -> (v: Vec4<S>) {
        Vec4::new(*self.x.i(r), *self.y.i(r), *self.z.i(r), *self.w.i(r))
    }

    fn swap_r(&mut self, a: usize, b: usize) {
        self.x.swap(a, b);
        self.y.swap(a, b);
        self.z.swap(a, b);
        self.w.swap(a, b);
    }

    fn cr(&self, c: usize, r: usize) -> (s: &S) {
        self.c(c).i(r)
    }

    fn mut_cr(&mut self, c: usize, r: usize) -> (s: &mut S) {
        self.mut_c(c).mut_i(r)
    }

    fn neg(&self) -> (m: Self) {
        Mat4::from_cols(self.x.neg(), self.y.neg(), self.z.neg(), self.w.neg())
    }

    fn mul_s(&self, s: S) -> (m: Self) {
        Mat4::from_cols(self.x.mul_s(s), self.y.mul_s(s), self.z.mul_s(s), self.w.mul_s(s))
    }

    fn div_s(&self, s: S) -> (m: Self) {
        Mat4::from_cols(self.x.div_s(s), self.y.div_s(s), self.z.div_s(s), self.w.div_s(s))
    }

    fn rem_s(&self, s: S) -> (m: Self) {
        Mat4::from_cols(self.x.rem_s(s), self.y.rem_s(s), self.z.rem_s(s), self.w.rem_s(s))
    }

    fn mul_v(&self, v: &Vec4<S>) -> (u: Vec4<S>) {
        Vec4::new(self.r(0).dot(v), self.r(1).dot(v), self.r(2).dot(v), self.r(3).dot(v))
    }

    fn add_m(&self, other: &Self) -> (m: Self) {
        Mat4::from_cols(
            self.x.add_v(&other.x),
            self.y.add_v(&other.y),
            self.z.add_v(&other.z),
            self.w.add_v(&other.w),
        )
    }

    fn sub_m(&self, other: &Self) -> (m: Self) {
        Mat4::from_cols(
            self.x.sub_v(&other.x),
            self.y.sub_v(&other.y),
            self.z.sub_v(&other.z),
            self.w.sub_v(&other.w),
        )
    }

    fn mul_m(&self, other: &Self) -> (m: Self) {
        Mat4::new(
            self.r(0).dot(other.c(0)),
            self.r(1).dot(other.c(0)),
            self.r(2).dot(other.c(0)),
            self.r(3).dot(other.c(0)),
            self.r(0).dot(other.c(1)),
            self.r(1).dot(other.c(1)),
            self.r(2).dot(other.c(1)),
            self.r(3).dot(other.c(1)),
            self.r(0).dot(other.c(2)),
            self.r(1).dot(other.c(2)),
            self.r(2).dot(other.c(2)),
            self.r(3).dot(other.c(2)),
            self.r(0).dot(other.c(3)),
            self.r(1).dot(other.c(3)),
            self.r(2).dot(other.c(3)),
            self.r(3).dot(other.c(3)),
        )
    }

    fn transpose(&self) -> (m: Self) {
        Mat4::new(
            *self.cr(0, 0), *self.cr(1, 0), *self.cr(2, 0), *self.cr(3, 0),
            *self.cr(0, 1), *self.cr(1, 1), *self.cr(2, 1), *self.cr(3, 1),
            *self.cr(0, 2), *self.cr(1, 2), *self.cr(2, 2), *self.cr(3, 2),
            *self.cr(0, 3), *self.cr(1, 3), *self.cr(2, 3), *self.cr(3, 3),
        )
    }

    fn transpose_self(&mut self) {
        self.swap_cr((0, 1), (1, 0));
        self.swap_cr((0, 2), (2, 0));
        self.swap_cr((0, 3), (3, 0));
        self.swap_cr((1, 2), (2, 1));
        self.swap_cr((1, 3), (3, 1));
        self.swap_cr((2, 3), (3, 2));
    }

    fn trace(&self) -> (s: S) {
        self.cr(0, 0).add(*self.cr(1, 1)).add(*self.cr(2, 2)).add(*self.cr(3, 3))
    }

    fn determinant(&self) -> (s: S) {
        let d0 = self.minor_of(0).determinant();
        let d1 = self.minor_of(1).determinant();
        let d2 = self.minor_of(2).determinant();
        let d3 = self.minor_of(3).determinant();
        self.cr(0, 0).mul(d0).sub(self.cr(1, 0).mul(d1)).add(self.cr(2, 0).mul(d2)).sub(
            self.cr(3, 0).mul(d3),
        )
    }

    fn invert(&self) -> (m: Option<Self>) {
        if self.is_invertible() {
            let mut system = Augmented { left: *self, right: Mat4::ident() };
            let mut j: usize = 0;
            while j < 4
                invariant
                    j <= 4,
                    system == Augmented::start(*self).reduced(j as int),
                decreases 4 - j,
            {
                system.reduce_column(j);
                j += 1;
            }
            Some(system.right)
        } else {
            None
        }
    }

    fn approx_eq(&self, other: &Self) -> (b: bool) {
        self.x.approx_eq(&other.x)
            && self.y.approx_eq(&other.y)
            && self.z.approx_eq(&other.z)
            && self.w.approx_eq(&other.w)
    }

    fn is_identity(&self) -> (b: bool) {
        self.approx_eq(&Mat4::ident())
    }

    fn is_diagonal(&self) -> (b: bool) {
        self.cr(0, 1).approx_eq(S::zero())
            && self.cr(0, 2).approx_eq(S::zero())
            && self.cr(0, 3).approx_eq(S::zero())
            && self.cr(1, 0).approx_eq(S::zero())
            && self.cr(1, 2).approx_eq(S::zero())
            && self.cr(1, 3).approx_eq(S::zero())
            && self.cr(2, 0).approx_eq(S::zero())
            && self.cr(2, 1).approx_eq(S::zero())
            && self.cr(2, 3).approx_eq(S::zero())
            && self.cr(3, 0).approx_eq(S::zero())
            && self.cr(3, 1).approx_eq(S::zero())
            && self.cr(3, 2).approx_eq(S::zero())
    }

    fn is_symmetric(&self) -> (b: bool) {
        self.cr(0, 1).approx_eq(*self.cr(1, 0))
            && self.cr(0, 2).approx_eq(*self.cr(2, 0))
            && self.cr(0, 3).approx_eq(*self.cr(3, 0))
            && self.cr(1, 0).approx_eq(*self.cr(0, 1))
            && self.cr(1, 2).approx_eq(*self.cr(2, 1))
            && self.cr(1, 3).approx_eq(*self.cr(3, 1))
            && self.cr(2, 0).approx_eq(*self.cr(0, 2))
            && self.cr(2, 1).approx_eq(*self.cr(1, 2))
            && self.cr(2, 3).approx_eq(*self.cr(3, 2))
            && self.cr(3, 0).approx_eq(*self.cr(0, 3))
            && self.cr(3, 1).approx_eq(*self.cr(1, 3))
            && self.cr(3, 2).approx_eq(*self.cr(2, 3))
    }
}

/// A matrix beside the matrix that has gone through the same column
/// operations, starting from the identity: the state of Gauss-Jordan
/// elimination. When the left side has been reduced to the identity, the right
/// side is the inverse of the matrix that the left side started as.
#[derive(Clone, Copy, PartialEq, Debug)]
pub struct Augmented<S> {
    pub left: Mat4<S>,
    pub right: Mat4<S>,
}

impl<S: Scalar> Augmented<S> {
    /// The matrix `m` beside the identity.
    pub open spec fn start(m: Mat4<S>) -> Self {
        Augmented { left: m, right: Mat4::diag(S::one_spec()) }
    }

    /// The row found by scanning column `j` of the left side from row `i`
    /// down, with `best` the row held so far: a row replaces the one held only
    /// where its entry is strictly greater in absolute value.
    pub open spec fn pivot_from(self, j: int, i: int, best: int) -> int
        decreases 4 - i,
    {
        if i >= 4 {
            best
        } else if self.left.at(j, i).abs_spec().gt_spec(self.left.at(j, best).abs_spec()) {
            self.pivot_from(j, i + 1, i)
        } else {
            self.pivot_from(j, i + 1, best)
        }
    }

    /// The pivot for column `j`: the first row among `j..4` whose entry in
    /// column `j` of the left side no later row exceeds in absolute value.
    pub open spec fn pivot(self, j: int) -> int {
        self.pivot_from(j, j + 1, j)
    }

    /// Both sides with columns `a` and `b` exchanged.
    pub open spec fn exchanged(self, a: int, b: int) -> Self {
        Augmented {
            left: self.left.with_col(a, self.left.col(b)).with_col(b, self.left.col(a)),
            right: self.right.with_col(a, self.right.col(b)).with_col(b, self.right.col(a)),
        }
    }

    /// Column `j` of both sides divided by the entry at `(j, j)` of the left
    /// side, which thereby becomes that entry divided by itself.
    pub open spec fn scaled(self, j: int) -> Self {
        let pivot = self.left.at(j, j);
        Augmented {
            left: self.left.with_col(j, self.left.col(j).div_s_spec(pivot)),
            right: self.right.with_col(j, self.right.col(j).div_s_spec(pivot)),
        }
    }

    /// Column `i` of both sides less column `j` times the entry in column `i`,
    /// row `j` of the left side; unchanged where `i` is `j`.
    pub open spec fn eliminated(self, j: int, i: int) -> Self {
        if i == j {
            self
        } else {
            let factor = self.left.at(i, j);
            Augmented {
                left: self.left.with_col(
                    i,
                    self.left.col(i).sub_v_spec(self.left.col(j).mul_s_spec(factor)),
                ),
                right: self.right.with_col(
                    i,
                    self.right.col(i).sub_v_spec(self.right.col(j).mul_s_spec(factor)),
                ),
            }
        }
    }

    /// Columns `0..n` eliminated against column `j`, one after the other.
    pub open spec fn cleared(self, j: int, n: int) -> Self
        decreases n,
    {
        if n <= 0 {
            self
        } else {
            self.cleared(j, n - 1).eliminated(j, n - 1)
        }
    }

    /// One step of the elimination: the pivot column is brought to position
    /// `j`, scaled, and every other column is eliminated against it.
    pub open spec fn reduced_column(self, j: int) -> Self {
        self.exchanged(self.pivot(j), j).scaled(j).cleared(j, 4)
    }

    /// The steps for columns `0..n`, one after the other.
    pub open spec fn reduced(self, n: int) -> Self
        decreases n,
    {
        if n <= 0 {
            self
        } else {
            self.reduced(n - 1).reduced_column(n - 1)
        }
    }

    /// The right side records what has been done to the left side: `m` times
    /// the right side is the left side.
    pub open spec fn tracks(self, m: Mat4<S>) -> bool {
        m.product(self.right) == self.left
    }

    /// The scan for a pivot ends on the row it holds or on one of the rows it
    /// has yet to see.
    pub proof fn pivot_from_in_range(self, j: int, i: int, best: int)
        requires
            0 <= best < i <= 4,
        ensures
            best <= self.pivot_from(j, i, best) < 4,
        decreases 4 - i,
    {
        if i < 4 {
            if self.left.at(j, i).abs_spec().gt_spec(self.left.at(j, best).abs_spec()) {
                self.pivot_from_in_range(j, i + 1, i);
            } else {
                self.pivot_from_in_range(j, i + 1, best);
            }
        }
    }

    /// Exchanging two columns on both sides keeps the record.
    pub proof fn exchanged_tracks(self, m: Mat4<S>, a: int, b: int)
        requires
            self.tracks(m),
            0 <= a < 4,
            0 <= b < 4,
        ensures
            self.exchanged(a, b).tracks(m),
    {
    }

    /// Where the scalars calculate exactly, scaling a column on both sides
    /// keeps the record.
    pub proof fn scaled_tracks(self, m: Mat4<S>, j: int)
        requires
            crate::scalar::linearity_laws::<S>(),
            crate::scalar::quotient_laws::<S>(),
            self.tracks(m),
            0 <= j < 4,
        ensures
            self.scaled(j).tracks(m),
    {
        m.apply_is_linear(self.right.col(j), self.right.col(j), self.left.at(j, j));
    }

    /// Where the scalars calculate exactly, eliminating one column against
    /// another on both sides keeps the record.
    pub proof fn eliminated_tracks(self, m: Mat4<S>, j: int, i: int)
        requires
            crate::scalar::linearity_laws::<S>(),
            crate::scalar::quotient_laws::<S>(),
            self.tracks(m),
            0 <= j < 4,
            0 <= i < 4,
        ensures
            self.eliminated(j, i).tracks(m),
    {
        m.apply_is_linear(self.right.col(i), self.right.col(j), self.left.at(i, j));
    }

    /// Where the scalars calculate exactly, eliminating the columns `0..n`
    /// keeps the record.
    pub proof fn cleared_tracks(self, m: Mat4<S>, j: int, n: int)
        requires
            crate::scalar::linearity_laws::<S>(),
            crate::scalar::quotient_laws::<S>(),
            self.tracks(m),
            0 <= j < 4,
            0 <= n <= 4,
        ensures
            self.cleared(j, n).tracks(m),
        decreases n,
    {
        if n > 0 {
            self.cleared_tracks(m, j, n - 1);
            self.cleared(j, n - 1).eliminated_tracks(m, j, n - 1);
        }
    }

    /// Where the scalars calculate exactly, the steps for the columns `0..n`
    /// keep the record.
    pub proof fn reduced_tracks(self, m: Mat4<S>, n: int)
        requires
            crate::scalar::linearity_laws::<S>(),
            crate::scalar::quotient_laws::<S>(),
            self.tracks(m),
            0 <= n <= 4,
        ensures
            self.reduced(n).tracks(m),
        decreases n,
    {
        if n > 0 {
            self.reduced_tracks(m, n - 1);
            let before = self.reduced(n - 1);
            let j = n - 1;
            before.pivot_from_in_range(j, j + 1, j);
            before.exchanged_tracks(m, before.pivot(j), j);
            let exchanged = before.exchanged(before.pivot(j), j);
            exchanged.scaled_tracks(m, j);
            exchanged.scaled(j).cleared_tracks(m, j, 4);
        }
    }

    /// The right side can be had from the left side: `n` times the left side
    /// is the right side.
    pub open spec fn traced_by(self, n: Mat4<S>) -> bool {
        n.product(self.left) == self.right
    }

    /// What holds of both sides after two columns were exchanged held
    /// before.
    pub proof fn exchanged_traced_back(self, n: Mat4<S>, a: int, b: int)
        requires
            self.exchanged(a, b).traced_by(n),
            0 <= a < 4,
            0 <= b < 4,
        ensures
            self.traced_by(n),
    {
    }

    /// Where the scalars calculate exactly, what holds of both sides after a
    /// column was divided by a diagonal entry other than zero held before.
    pub proof fn scaled_traced_back(self, n: Mat4<S>, j: int)
        requires
            crate::scalar::linearity_laws::<S>(),
            crate::scalar::quotient_laws::<S>(),
            self.scaled(j).traced_by(n),
            self.left.at(j, j) != S::zero_spec(),
            0 <= j < 4,
        ensures
            self.traced_by(n),
    {
        let pivot = self.left.at(j, j);
        n.apply_is_linear(self.left.col(j), self.left.col(j), pivot);
        n.apply(self.left.col(j)).div_s_cancels(self.right.col(j), pivot);
    }

    /// Where the scalars calculate exactly, what holds of both sides after
    /// one column was eliminated against another held before.
    pub proof fn eliminated_traced_back(self, n: Mat4<S>, j: int, i: int)
        requires
            crate::scalar::linearity_laws::<S>(),
            crate::scalar::quotient_laws::<S>(),
            crate::scalar::cancellation_laws::<S>(),
            self.eliminated(j, i).traced_by(n),
            0 <= j < 4,
            0 <= i < 4,
        ensures
            self.traced_by(n),
    {
        if i != j {
            let factor = self.left.at(i, j);
            n.apply_is_linear(self.left.col(i), self.left.col(j), factor);
            assert(n.apply(self.left.col(j)) == self.right.col(j));
            n.apply(self.left.col(i)).sub_v_cancels(
                self.right.col(i),
                self.right.col(j).mul_s_spec(factor),
            );
        }
    }

    /// Where the scalars calculate exactly, what holds of both sides after
    /// the columns `0..k` were eliminated held before.
    pub proof fn cleared_traced_back(self, n: Mat4<S>, j: int, k: int)
        requires
            crate::scalar::linearity_laws::<S>(),
            crate::scalar::quotient_laws::<S>(),
            crate::scalar::cancellation_laws::<S>(),
            self.cleared(j, k).traced_by(n),
            0 <= j < 4,
            0 <= k <= 4,
        ensures
            self.traced_by(n),
        decreases k,
    {
        if k > 0 {
            self.cleared(j, k - 1).eliminated_traced_back(n, j, k - 1);
            self.cleared_traced_back(n, j, k - 1);
        }
    }

    /// Where the scalars calculate exactly and none of the steps for the
    /// columns `0..k` divides by zero, what holds of both sides after these
    /// steps held before.
    pub proof fn reduced_traced_back(self, n: Mat4<S>, k: int)
        requires
            crate::scalar::linearity_laws::<S>(),
            crate::scalar::quotient_laws::<S>(),
            crate::scalar::cancellation_laws::<S>(),
            self.reduced(k).traced_by(n),
            self.pivots_nonzero(k),
            0 <= k <= 4,
        ensures
            self.traced_by(n),
        decreases k,
    {
        if k > 0 {
            let before = self.reduced(k - 1);
            let j = k - 1;
            before.pivot_from_in_range(j, j + 1, j);
            let exchanged = before.exchanged(before.pivot(j), j);
            exchanged.scaled(j).cleared_traced_back(n, j, 4);
            exchanged.scaled_traced_back(n, j);
            before.exchanged_traced_back(n, before.pivot(j), j);
            self.reduced_traced_back(n, k - 1);
        }
    }

    /// The entry of the left side in column `c` and row `r` is that of the
    /// identity.
    pub open spec fn unit_at(self, c: int, r: int) -> bool {
        self.left.at(c, r) == crate::matrix::unit_entry::<S>(c, r)
    }

    /// The first `n` rows of the left side are rows of the identity.
    pub open spec fn unit_rows(self, n: int) -> bool {
        forall|c: int, r: int| 0 <= c < 4 && 0 <= r < n ==> #[trigger] self.unit_at(c, r)
    }

    /// None of the steps for the columns `0..n` divides by zero: the entry
    /// that the exchange brings to the diagonal is not zero.
    pub open spec fn pivots_nonzero(self, n: int) -> bool
        decreases n,
    {
        if n <= 0 {
            true
        } else {
            let before = self.reduced(n - 1);
            let j = n - 1;
            &&& self.pivots_nonzero(n - 1)
            &&& before.exchanged(before.pivot(j), j).left.at(j, j) != S::zero_spec()
        }
    }

    /// Where the scalars calculate exactly, the first `j` rows of the left
    /// side are rows of the identity and the diagonal entry of column `j` is
    /// one, eliminating the columns `0..n` against column `j` keeps all that
    /// and leaves zero in row `j` of each of them.
    pub proof fn cleared_units(self, j: int, n: int)
        requires
            crate::scalar::identity_laws::<S>(),
            crate::scalar::cancellation_laws::<S>(),
            0 <= j < 4,
            0 <= n <= 4,
            self.unit_rows(j),
            self.left.at(j, j) == S::one_spec(),
        ensures
            self.cleared(j, n).unit_rows(j),
            self.cleared(j, n).left.at(j, j) == S::one_spec(),
            forall|i: int|
                0 <= i < n && i != j ==> #[trigger] self.cleared(j, n).left.at(i, j)
                    == S::zero_spec(),
        decreases n,
    {
        if n > 0 {
            self.cleared_units(j, n - 1);
            let before = self.cleared(j, n - 1);
            let after = before.eliminated(j, n - 1);
            reveal(crate::scalar::identity_laws);
            reveal(crate::scalar::cancellation_laws);
            assert forall|c: int, r: int| 0 <= c < 4 && 0 <= r < j implies #[trigger] after.unit_at(
                c,
                r,
            ) by {
                assert(before.unit_at(c, r));
                assert(before.unit_at(j, r));
            }
            assert forall|i: int| 0 <= i < n && i != j implies #[trigger] after.left.at(i, j)
                == S::zero_spec() by {
                if i < n - 1 {
                    assert(before.left.at(i, j) == S::zero_spec());
                }
            }
        }
    }

    /// Where the scalars calculate exactly, the first `j` rows of the left
    /// side are rows of the identity and the step for column `j` does not
    /// divide by zero, the step makes row `j` a row of the identity too.
    pub proof fn reduced_column_units(self, j: int)
        requires
            crate::scalar::identity_laws::<S>(),
            crate::scalar::cancellation_laws::<S>(),
            crate::scalar::quotient_laws::<S>(),
            0 <= j < 4,
            self.unit_rows(j),
            self.exchanged(self.pivot(j), j).left.at(j, j) != S::zero_spec(),
        ensures
            self.reduced_column(j).unit_rows(j + 1),
    {
        self.pivot_from_in_range(j, j + 1, j);
        let p = self.pivot(j);
        let exchanged = self.exchanged(p, j);
        assert forall|c: int, r: int| 0 <= c < 4 && 0 <= r < j implies #[trigger] exchanged.unit_at(
            c,
            r,
        ) by {
            assert(self.unit_at(c, r));
            assert(self.unit_at(p, r));
            assert(self.unit_at(j, r));
        }
        let scaled = exchanged.scaled(j);
        assert(scaled.left.at(j, j) == S::one_spec()) by {
            reveal(crate::scalar::quotient_laws);
        }
        assert forall|c: int, r: int| 0 <= c < 4 && 0 <= r < j implies #[trigger] scaled.unit_at(
            c,
            r,
        ) by {
            reveal(crate::scalar::quotient_laws);
            assert(exchanged.unit_at(c, r));
        }
        scaled.cleared_units(j, 4);
        let cleared = scaled.cleared(j, 4);
        assert forall|c: int, r: int| 0 <= c < 4 && 0 <= r <= j implies #[trigger] cleared.unit_at(
            c,
            r,
        ) by {
            if r < j {
                assert(cleared.unit_rows(j));
            }
        }
    }

    /// Where the scalars calculate exactly and none of the steps for the
    /// columns `0..n` divides by zero, these steps make the first `n` rows of
    /// the left side rows of the identity.
    pub proof fn reduced_units(self, n: int)
        requires
            crate::scalar::identity_laws::<S>(),
            crate::scalar::cancellation_laws::<S>(),
            crate::scalar::quotient_laws::<S>(),
            0 <= n <= 4,
            self.pivots_nonzero(n),
        ensures
            self.reduced(n).unit_rows(n),
        decreases n,
    {
        if n > 0 {
            self.reduced_units(n - 1);
            self.reduced(n - 1).reduced_column_units(n - 1);
        }
    }

    /// Finds the pivot for column `j`.
    pub fn pivot_row(&self, j: usize) -> (p: usize)
        requires
            j < 4,
        ensures
            j <= p < 4,
            p == self.pivot(j as int),
    {
        let mut best: usize = j;
        let mut i: usize = j + 1;
        while i < 4
            invariant
                j < 4,
                j <= best < i <= 4,
                self.pivot(j as int) == self.pivot_from(j as int, i as int, best as int),
            decreases 4 - i,
        {
            if self.left.cr(j, i).abs().gt(self.left.cr(j, best).abs()) {
                best = i;
            }
            i += 1;
        }
        best
    }

    /// Exchanges columns `a` and `b` on both sides.
    pub fn swap_c(&mut self, a: usize, b: usize)
        requires
            a < 4,
            b < 4,
        ensures
            *final(self) == old(self).exchanged(a as int, b as int),
    {
        self.left.swap_c(a, b);
        self.right.swap_c(a, b);
    }

    /// Divides column `j` of both sides by the entry at `(j, j)` of the left
    /// side.
    pub fn scale_column(&mut self, j: usize)
        requires
            j < 4,
        ensures
            *final(self) == old(self).scaled(j as int),
    {
        let pivot = *self.left.cr(j, j);
        let right_j = self.right.c(j).div_s(pivot);
        let left_j = self.left.c(j).div_s(pivot);
        *self.right.mut_c(j) = right_j;
        *self.left.mut_c(j) = left_j;
    }

    /// Eliminates column `i` against column `j` on both sides; does nothing
    /// where `i` is `j`.
    pub fn eliminate(&mut self, j: usize, i: usize)
        requires
            j < 4,
            i < 4,
        ensures
            *final(self) == old(self).eliminated(j as int, i as int),
    {
        if i != j {
            let factor = *self.left.cr(i, j);
            let right_j = self.right.c(j).mul_s(factor);
            let left_j = self.left.c(j).mul_s(factor);
            let right_i = self.right.c(i).sub_v(&right_j);
            let left_i = self.left.c(i).sub_v(&left_j);
            *self.right.mut_c(i) = right_i;
            *self.left.mut_c(i) = left_i;
        }
    }

    /// One step of the elimination, for column `j`.
    pub fn reduce_column(&mut self, j: usize)
        requires
            j < 4,
        ensures
            *final(self) == old(self).reduced_column(j as int),
    {
        let p = self.pivot_row(j);
        self.swap_c(p, j);
        self.scale_column(j);
        let ghost scaled = *self;
        let mut i: usize = 0;
        while i < 4
            invariant
                j < 4,
                i <= 4,
                *self == scaled.cleared(j as int, i as int),
            decreases 4 - i,
        {
            self.eliminate(j, i);
            i += 1;
        }
    }
}

} // verus!
