//! Fixed-size vectors of two, three and four scalars: the columns and rows of
//! the matrix types.

use vstd::prelude::*;
use crate::scalar::Scalar;

verus! {

/// A vector of two scalars.
#[derive(Clone, Copy, PartialEq, Debug)]
pub struct Vec2<S> {
    pub x: S,
    pub y: S,
}

impl<S: Scalar> Vec2<S> {
    /// Component `i`, counted from zero.
    pub open spec fn at(self, i: int) -> S {
        if i == 0 {
            self.x
        } else {
            self.y
        }
    }

    /// `self` with component `i` replaced by `s`.
    pub open spec fn with_at(self, i: int, s: S) -> Self {
        if i == 0 {
            Vec2 { x: s, y: self.y }
        } else {
            Vec2 { x: self.x, y: s }
        }
    }

    /// `self` with components `a` and `b` exchanged.
    pub open spec fn swapped(self, a: int, b: int) -> Self {
        self.with_at(a, self.at(b)).with_at(b, self.at(a))
    }

    /// The products of matching components, summed from the first on.
    pub open spec fn dot_spec(self, other: Self) -> S {
        self.x.mul_spec(other.x).add_spec(self.y.mul_spec(other.y))
    }

    /// The square root of the vector's dot product with itself.
    pub open spec fn length_spec(self) -> S {
        self.dot_spec(self).sqrt_spec()
    }

    /// The vector scaled by the reciprocal of its length.
    pub open spec fn normalize_spec(self) -> Self {
        self.mul_s_spec(S::one_spec().div_spec(self.length_spec()))
    }

    pub open spec fn neg_spec(self) -> Self {
        Vec2 { x: self.x.neg_spec(), y: self.y.neg_spec() }
    }

    pub open spec fn mul_s_spec(self, s: S) -> Self {
        Vec2 { x: self.x.mul_spec(s), y: self.y.mul_spec(s) }
    }

    pub open spec fn div_s_spec(self, s: S) -> Self {
        Vec2 { x: self.x.div_spec(s), y: self.y.div_spec(s) }
    }

    pub open spec fn rem_s_spec(self, s: S) -> Self {
        Vec2 { x: self.x.rem_spec(s), y: self.y.rem_spec(s) }
    }

    pub open spec fn add_v_spec(self, other: Self) -> Self {
        Vec2 { x: self.x.add_spec(other.x), y: self.y.add_spec(other.y) }
    }

    pub open spec fn sub_v_spec(self, other: Self) -> Self {
        Vec2 { x: self.x.sub_spec(other.x), y: self.y.sub_spec(other.y) }
    }

    /// Every component is approximately equal to its counterpart.
    pub open spec fn approx_eq_spec(self, other: Self) -> bool {
        self.x.approx_eq_spec(other.x) && self.y.approx_eq_spec(other.y)
    }

    pub fn new(x: S, y: S) -> (v: Self)
        ensures
            v == (Vec2 { x, y }),
    {
        Vec2 { x, y }
    }

    /// Component `i`.
    pub fn i(&self, i: usize) -> (s: &S)
        requires
            i < 2,
        ensures
            *s == self.at(i as int),
    {
        if i == 0 {
            &self.x
        } else {
            &self.y
        }
    }

    /// A mutable borrow of component `i`.
    pub fn mut_i(&mut self, i: usize) -> (s: &mut S)
        requires
            i < 2,
        ensures
            *s == old(self).at(i as int),
            *final(self) == old(self).with_at(i as int, *final(s)),
    {
        if i == 0 {
            &mut self.x
        } else {
            &mut self.y
        }
    }

    /// Exchanges components `a` and `b`.
    pub fn swap(&mut self, a: usize, b: usize)
        requires
            a < 2,
            b < 2,
        ensures
            *final(self) == old(self).swapped(a as int, b as int),
    {
        let at_a = *self.i(a);
        let at_b = *self.i(b);
        *self.mut_i(a) = at_b;
        *self.mut_i(b) = at_a;
    }

    pub fn dot(&self, other: &Self) -> (s: S)
        ensures
            s == self.dot_spec(*other),
    {
        self.x.mul(other.x).add(self.y.mul(other.y))
    }

    pub fn length(&self) -> (s: S)
        ensures
            s == self.length_spec(),
    {
        self.dot(self).sqrt()
    }

    pub fn normalize(&self) -> (v: Self)
        ensures
            v == self.normalize_spec(),
    {
        self.mul_s(S::one().div(self.length()))
    }

    pub fn neg(&self) -> (v: Self)
        ensures
            v == self.neg_spec(),
    {
        Vec2 { x: self.x.neg(), y: self.y.neg() }
    }

    pub fn mul_s(&self, s: S) -> (v: Self)
        ensures
            v == self.mul_s_spec(s),
    {
        Vec2 { x: self.x.mul(s), y: self.y.mul(s) }
    }

    pub fn div_s(&self, s: S) -> (v: Self)
        ensures
            v == self.div_s_spec(s),
    {
        Vec2 { x: self.x.div(s), y: self.y.div(s) }
    }

    pub fn rem_s(&self, s: S) -> (v: Self)
        ensures
            v == self.rem_s_spec(s),
    {
        Vec2 { x: self.x.rem(s), y: self.y.rem(s) }
    }

    pub fn add_v(&self, other: &Self) -> (v: Self)
        ensures
            v == self.add_v_spec(*other),
    {
        Vec2 { x: self.x.add(other.x), y: self.y.add(other.y) }
    }

    pub fn sub_v(&self, other: &Self) -> (v: Self)
        ensures
            v == self.sub_v_spec(*other),
    {
        Vec2 { x: self.x.sub(other.x), y: self.y.sub(other.y) }
    }

    pub fn approx_eq(&self, other: &Self) -> (b: bool)
        ensures
            b == self.approx_eq_spec(*other),
    {
        self.x.approx_eq(other.x) && self.y.approx_eq(other.y)
    }
}

/// A vector of three scalars.
#[derive(Clone, Copy, PartialEq, Debug)]
pub struct Vec3<S> {
    pub x: S,
    pub y: S,
    pub z: S,
}

impl<S: Scalar> Vec3<S> {
    /// Component `i`, counted from zero.
    pub open spec fn at(self, i: int) -> S {
        if i == 0 {
            self.x
        } else if i == 1 {
            self.y
        } else {
            self.z
        }
    }

    /// `self` with component `i` replaced by `s`.
    pub open spec fn with_at(self, i: int, s: S) -> Self {
        if i == 0 {
            Vec3 { x: s, y: self.y, z: self.z }
        } else if i == 1 {
            Vec3 { x: self.x, y: s, z: self.z }
        } else {
            Vec3 { x: self.x, y: self.y, z: s }
        }
    }

    /// `self` with components `a` and `b` exchanged.
    pub open spec fn swapped(self, a: int, b: int) -> Self {
        self.with_at(a, self.at(b)).with_at(b, self.at(a))
    }

    /// The products of matching components, summed from the first on.
    pub open spec fn dot_spec(self, other: Self) -> S {
        self.x.mul_spec(other.x)
            .add_spec(self.y.mul_spec(other.y))
            .add_spec(self.z.mul_spec(other.z))
    }

    /// The cross product.
    pub open spec fn cross_spec(self, other: Self) -> Self {
        Vec3 {
            x: self.y.mul_spec(other.z).sub_spec(self.z.mul_spec(other.y)),
            y: self.z.mul_spec(other.x).sub_spec(self.x.mul_spec(other.z)),
            z: self.x.mul_spec(other.y).sub_spec(self.y.mul_spec(other.x)),
        }
    }

    /// The square root of the vector's dot product with itself.
    pub open spec fn length_spec(self) -> S {
        self.dot_spec(self).sqrt_spec()
    }

    /// The vector scaled by the reciprocal of its length.
    pub open spec fn normalize_spec(self) -> Self {
        self.mul_s_spec(S::one_spec().div_spec(self.length_spec()))
    }

    pub open spec fn neg_spec(self) -> Self {
        Vec3 { x: self.x.neg_spec(), y: self.y.neg_spec(), z: self.z.neg_spec() }
    }

    pub open spec fn mul_s_spec(self, s: S) -> Self {
        Vec3 { x: self.x.mul_spec(s), y: self.y.mul_spec(s), z: self.z.mul_spec(s) }
    }

    pub open spec fn div_s_spec(self, s: S) -> Self {
        Vec3 { x: self.x.div_spec(s), y: self.y.div_spec(s), z: self.z.div_spec(s) }
    }

    pub open spec fn rem_s_spec(self, s: S) -> Self {
        Vec3 { x: self.x.rem_spec(s), y: self.y.rem_spec(s), z: self.z.rem_spec(s) }
    }

    pub open spec fn add_v_spec(self, other: Self) -> Self {
        Vec3 {
            x: self.x.add_spec(other.x),
            y: self.y.add_spec(other.y),
            z: self.z.add_spec(other.z),
        }
    }

    pub open spec fn sub_v_spec(self, other: Self) -> Self {
        Vec3 {
            x: self.x.sub_spec(other.x),
            y: self.y.sub_spec(other.y),
            z: self.z.sub_spec(other.z),
        }
    }

    /// Every component is approximately equal to its counterpart.
    pub open spec fn approx_eq_spec(self, other: Self) -> bool {
        self.x.approx_eq_spec(other.x)
            && self.y.approx_eq_spec(other.y)
            && self.z.approx_eq_spec(other.z)
    }

    pub fn new(x: S, y: S, z: S) -> (v: Self)
        ensures
            v == (Vec3 { x, y, z }),
    {
        Vec3 { x, y, z }
    }

    /// Component `i`.
    pub fn i(&self, i: usize) -> (s: &S)
        requires
            i < 3,
        ensures
            *s == self.at(i as int),
    {
        if i == 0 {
            &self.x
        } else if i == 1 {
            &self.y
        } else {
            &self.z
        }
    }

    /// A mutable borrow of component `i`.
    pub fn mut_i(&mut self, i: usize) -> (s: &mut S)
        requires
            i < 3,
        ensures
            *s == old(self).at(i as int),
            *final(self) == old(self).with_at(i as int, *final(s)),
    {
        if i == 0 {
            &mut self.x
        } else if i == 1 {
            &mut self.y
        } else {
            &mut self.z
        }
    }

    /// Exchanges components `a` and `b`.
    pub fn swap(&mut self, a: usize, b: usize)
        requires
            a < 3,
            b < 3,
        ensures
            *final(self) == old(self).swapped(a as int, b as int),
    {
        let at_a = *self.i(a);
        let at_b = *self.i(b);
        *self.mut_i(a) = at_b;
        *self.mut_i(b) = at_a;
    }

    pub fn dot(&self, other: &Self) -> (s: S)
        ensures
            s == self.dot_spec(*other),
    {
        self.x.mul(other.x).add(self.y.mul(other.y)).add(self.z.mul(other.z))
    }

    /// Where the scalars calculate exactly, the cross product of two vectors
    /// is orthogonal to both.
    pub proof fn cross_is_orthogonal(self, other: Self)
        requires
            crate::scalar::product_laws::<S>(),
            crate::scalar::cancellation_laws::<S>(),
        ensures
            self.cross_spec(other).dot_spec(self) == S::zero_spec(),
            self.cross_spec(other).dot_spec(other) == S::zero_spec(),
            self.dot_spec(self.cross_spec(other)) == S::zero_spec(),
            other.dot_spec(self.cross_spec(other)) == S::zero_spec(),
    {
        reveal(crate::scalar::product_laws);
        reveal(crate::scalar::cancellation_laws);
        let u = self;
        let w = other;
        let n = u.cross_spec(w);
        assert(n.dot_spec(u) == S::zero_spec()) by {
            let a = u.x.mul_spec(u.y.mul_spec(w.z));
            let b = u.x.mul_spec(u.z.mul_spec(w.y));
            let c = u.y.mul_spec(u.z.mul_spec(w.x));
            assert(n.x.mul_spec(u.x) == a.sub_spec(b));
            assert(n.y.mul_spec(u.y) == c.sub_spec(a));
            assert(n.z.mul_spec(u.z) == b.sub_spec(c));
            assert(a.sub_spec(b).add_spec(c.sub_spec(a)) == c.sub_spec(b));
            assert(c.sub_spec(b).add_spec(b.sub_spec(c)) == b.sub_spec(b));
        }
        assert(n.dot_spec(w) == S::zero_spec()) by {
            let a = w.x.mul_spec(u.y.mul_spec(w.z));
            let b = w.x.mul_spec(u.z.mul_spec(w.y));
            let c = w.y.mul_spec(u.x.mul_spec(w.z));
            assert(n.x.mul_spec(w.x) == a.sub_spec(b));
            assert(n.y.mul_spec(w.y) == b.sub_spec(c));
            assert(n.z.mul_spec(w.z) == c.sub_spec(a));
            assert(a.sub_spec(b).add_spec(b.sub_spec(c)) == a.sub_spec(c));
            assert(a.sub_spec(c).add_spec(c.sub_spec(a)) == a.sub_spec(a));
        }
        assert(u.dot_spec(n) == n.dot_spec(u));
        assert(w.dot_spec(n) == n.dot_spec(w));
    }

    pub fn cross(&self, other: &Self) -> (v: Self)
        ensures
            v == self.cross_spec(*other),
    {
        Vec3 {
            x: self.y.mul(other.z).sub(self.z.mul(other.y)),
            y: self.z.mul(other.x).sub(self.x.mul(other.z)),
            z: self.x.mul(other.y).sub(self.y.mul(other.x)),
        }
    }

    pub fn length(&self) -> (s: S)
        ensures
            s == self.length_spec(),
    {
        self.dot(self).sqrt()
    }

    pub fn normalize(&self) -> (v: Self)
        ensures
            v == self.normalize_spec(),
    {
        self.mul_s(S::one().div(self.length()))
    }

    pub fn neg(&self) -> (v: Self)
        ensures
            v == self.neg_spec(),
    {
        Vec3 { x: self.x.neg(), y: self.y.neg(), z: self.z.neg() }
    }

    pub fn mul_s(&self, s: S) -> (v: Self)
        ensures
            v == self.mul_s_spec(s),
    {
        Vec3 { x: self.x.mul(s), y: self.y.mul(s), z: self.z.mul(s) }
    }

    pub fn div_s(&self, s: S) -> (v: Self)
        ensures
            v == self.div_s_spec(s),
    {
        Vec3 { x: self.x.div(s), y: self.y.div(s), z: self.z.div(s) }
    }

    pub fn rem_s(&self, s: S) -> (v: Self)
        ensures
            v == self.rem_s_spec(s),
    {
        Vec3 { x: self.x.rem(s), y: self.y.rem(s), z: self.z.rem(s) }
    }

    pub fn add_v(&self, other: &Self) -> (v: Self)
        ensures
            v == self.add_v_spec(*other),
    {
        Vec3 { x: self.x.add(other.x), y: self.y.add(other.y), z: self.z.add(other.z) }
    }

    pub fn sub_v(&self, other: &Self) -> (v: Self)
        ensures
            v == self.sub_v_spec(*other),
    {
        Vec3 { x: self.x.sub(other.x), y: self.y.sub(other.y), z: self.z.sub(other.z) }
    }

    pub fn approx_eq(&self, other: &Self) -> (b: bool)
        ensures
            b == self.approx_eq_spec(*other),
    {
        self.x.approx_eq(other.x) && self.y.approx_eq(other.y) && self.z.approx_eq(other.z)
    }
}

/// A vector of four scalars.
#[derive(Clone, Copy, PartialEq, Debug)]
pub struct Vec4<S> {
    pub x: S,
    pub y: S,
    pub z: S,
    pub w: S,
}

impl<S: Scalar> Vec4<S> {
    /// Component `i`, counted from zero.
    pub open spec fn at(self, i: int) -> S {
        if i == 0 {
            self.x
        } else if i == 1 {
            self.y
        } else if i == 2 {
            self.z
        } else {
            self.w
        }
    }

    /// `self` with component `i` replaced by `s`.
    pub open spec fn with_at(self, i: int, s: S) -> Self {
        if i == 0 {
            Vec4 { x: s, y: self.y, z: self.z, w: self.w }
        } else if i == 1 {
            Vec4 { x: self.x, y: s, z: self.z, w: self.w }
        } else if i == 2 {
            Vec4 { x: self.x, y: self.y, z: s, w: self.w }
        } else {
            Vec4 { x: self.x, y: self.y, z: self.z, w: s }
        }
    }

    /// `self` with components `a` and `b` exchanged.
    pub open spec fn swapped(self, a: int, b: int) -> Self {
        self.with_at(a, self.at(b)).with_at(b, self.at(a))
    }

    /// The products of matching components, summed from the first on.
    pub open spec fn dot_spec(self, other: Self) -> S {
        self.x.mul_spec(other.x)
            .add_spec(self.y.mul_spec(other.y))
            .add_spec(self.z.mul_spec(other.z))
            .add_spec(self.w.mul_spec(other.w))
    }

    /// The square root of the vector's dot product with itself.
    pub open spec fn length_spec(self) -> S {
        self.dot_spec(self).sqrt_spec()
    }

    /// The vector scaled by the reciprocal of its length.
    pub open spec fn normalize_spec(self) -> Self {
        self.mul_s_spec(S::one_spec().div_spec(self.length_spec()))
    }

    pub open spec fn neg_spec(self) -> Self {
        Vec4 {
            x: self.x.neg_spec(),
            y: self.y.neg_spec(),
            z: self.z.neg_spec(),
            w: self.w.neg_spec(),
        }
    }

    pub open spec fn mul_s_spec(self, s: S) -> Self {
        Vec4 {
            x: self.x.mul_spec(s),
            y: self.y.mul_spec(s),
            z: self.z.mul_spec(s),
            w: self.w.mul_spec(s),
        }
    }

    pub open spec fn div_s_spec(self, s: S) -> Self {
        Vec4 {
            x: self.x.div_spec(s),
            y: self.y.div_spec(s),
            z: self.z.div_spec(s),
            w: self.w.div_spec(s),
        }
    }

    pub open spec fn rem_s_spec(self, s: S) -> Self {
        Vec4 {
            x: self.x.rem_spec(s),
            y: self.y.rem_spec(s),
            z: self.z.rem_spec(s),
            w: self.w.rem_spec(s),
        }
    }

    pub open spec fn add_v_spec(self, other: Self) -> Self {
        Vec4 {
            x: self.x.add_spec(other.x),
            y: self.y.add_spec(other.y),
            z: self.z.add_spec(other.z),
            w: self.w.add_spec(other.w),
        }
    }

    pub open spec fn sub_v_spec(self, other: Self) -> Self {
        Vec4 {
            x: self.x.sub_spec(other.x),
            y: self.y.sub_spec(other.y),
            z: self.z.sub_spec(other.z),
            w: self.w.sub_spec(other.w),
        }
    }

    /// Every component is approximately equal to its counterpart.
    pub open spec fn approx_eq_spec(self, other: Self) -> bool {
        self.x.approx_eq_spec(other.x)
            && self.y.approx_eq_spec(other.y)
            && self.z.approx_eq_spec(other.z)
            && self.w.approx_eq_spec(other.w)
    }

    pub fn new(x: S, y: S, z: S, w: S) -> (v: Self)
        ensures
            v == (Vec4 { x, y, z, w }),
    {
        Vec4 { x, y, z, w }
    }

    /// Component `i`.
    pub fn i(&self, i: usize) -> (s: &S)
        requires
            i < 4,
        ensures
            *s == self.at(i as int),
    {
        if i == 0 {
            &self.x
        } else if i == 1 {
            &self.y
        } else if i == 2 {
            &self.z
        } else {
            &self.w
        }
    }

    /// A mutable borrow of component `i`.
    pub fn mut_i(&mut self, i: usize) -> (s: &mut S)
        requires
            i < 4,
        ensures
            *s == old(self).at(i as int),
            *final(self) == old(self).with_at(i as int, *final(s)),
    {
        if i == 0 {
            &mut self.x
        } else if i == 1 {
            &mut self.y
        } else if i == 2 {
            &mut self.z
        } else {
            &mut self.w
        }
    }

    /// Exchanges components `a` and `b`.
    pub fn swap(&mut self, a: usize, b: usize)
        requires
            a < 4,
            b < 4,
        ensures
            *final(self) == old(self).swapped(a as int, b as int),
    {
        let at_a = *self.i(a);
        let at_b = *self.i(b);
        *self.mut_i(a) = at_b;
        *self.mut_i(b) = at_a;
    }

    pub fn dot(&self, other: &Self) -> (s: S)
        ensures
            s == self.dot_spec(*other),
    {
        self.x.mul(other.x)
            .add(self.y.mul(other.y))
            .add(self.z.mul(other.z))
            .add(self.w.mul(other.w))
    }

    /// Where the scalars calculate exactly, the dot product with a vector
    /// divided by a scalar is the dot product divided by it, and the dot
    /// product with a vector less a multiple of another is the dot product
    /// with the first less that multiple of the dot product with the other.
    pub proof fn dot_is_linear(self, v: Self, w: Self, f: S)
        requires
            crate::scalar::linearity_laws::<S>(),
            crate::scalar::quotient_laws::<S>(),
        ensures
            self.dot_spec(v.div_s_spec(f)) == self.dot_spec(v).div_spec(f),
            self.dot_spec(v.sub_v_spec(w.mul_s_spec(f))) == self.dot_spec(v).sub_spec(
                self.dot_spec(w).mul_spec(f),
            ),
    {
        assert(self.dot_spec(v.div_s_spec(f)) == self.dot_spec(v).div_spec(f)) by {
            reveal(crate::scalar::quotient_laws);
        }
        assert(self.dot_spec(v.sub_v_spec(w.mul_s_spec(f))) == self.dot_spec(v).sub_spec(
            self.dot_spec(w).mul_spec(f),
        )) by {
            reveal(crate::scalar::linearity_laws);
        }
    }

    /// Where the scalars calculate exactly, two vectors that are equal after
    /// division by a scalar other than zero are equal.
    pub proof fn div_s_cancels(self, other: Self, d: S)
        requires
            crate::scalar::quotient_laws::<S>(),
            d != S::zero_spec(),
            self.div_s_spec(d) == other.div_s_spec(d),
        ensures
            self == other,
    {
        reveal(crate::scalar::quotient_laws);
        assert(self.x.div_spec(d).mul_spec(d) == self.x);
        assert(self.y.div_spec(d).mul_spec(d) == self.y);
        assert(self.z.div_spec(d).mul_spec(d) == self.z);
        assert(self.w.div_spec(d).mul_spec(d) == self.w);
        assert(other.x.div_spec(d).mul_spec(d) == other.x);
        assert(other.y.div_spec(d).mul_spec(d) == other.y);
        assert(other.z.div_spec(d).mul_spec(d) == other.z);
        assert(other.w.div_spec(d).mul_spec(d) == other.w);
    }

    /// Where the scalars calculate exactly, two vectors that are equal after
    /// one vector is subtracted from each are equal.
    pub proof fn sub_v_cancels(self, other: Self, v: Self)
        requires
            crate::scalar::cancellation_laws::<S>(),
            self.sub_v_spec(v) == other.sub_v_spec(v),
        ensures
            self == other,
    {
        reveal(crate::scalar::cancellation_laws);
        assert(self.x.sub_spec(v.x).add_spec(v.x) == self.x);
        assert(self.y.sub_spec(v.y).add_spec(v.y) == self.y);
        assert(self.z.sub_spec(v.z).add_spec(v.z) == self.z);
        assert(self.w.sub_spec(v.w).add_spec(v.w) == self.w);
        assert(other.x.sub_spec(v.x).add_spec(v.x) == other.x);
        assert(other.y.sub_spec(v.y).add_spec(v.y) == other.y);
        assert(other.z.sub_spec(v.z).add_spec(v.z) == other.z);
        assert(other.w.sub_spec(v.w).add_spec(v.w) == other.w);
    }

    pub fn length(&self) -> (s: S)
        ensures
            s == self.length_spec(),
    {
        self.dot(self).sqrt()
    }

    pub fn normalize(&self) -> (v: Self)
        ensures
            v == self.normalize_spec(),
    {
        self.mul_s(S::one().div(self.length()))
    }

    pub fn neg(&self) -> (v: Self)
        ensures
            v == self.neg_spec(),
    {
        Vec4 { x: self.x.neg(), y: self.y.neg(), z: self.z.neg(), w: self.w.neg() }
    }

    pub fn mul_s(&self, s: S) -> (v: Self)
        ensures
            v == self.mul_s_spec(s),
    {
        Vec4 { x: self.x.mul(s), y: self.y.mul(s), z: self.z.mul(s), w: self.w.mul(s) }
    }

    pub fn div_s(&self, s: S) -> (v: Self)
        ensures
            v == self.div_s_spec(s),
    {
        Vec4 { x: self.x.div(s), y: self.y.div(s), z: self.z.div(s), w: self.w.div(s) }
    }

    pub fn rem_s(&self, s: S) -> (v: Self)
        ensures
            v == self.rem_s_spec(s),
    {
        Vec4 { x: self.x.rem(s), y: self.y.rem(s), z: self.z.rem(s), w: self.w.rem(s) }
    }

    pub fn add_v(&self, other: &Self) -> (v: Self)
        ensures
            v == self.add_v_spec(*other),
    {
        Vec4 {
            x: self.x.add(other.x),
            y: self.y.add(other.y),
            z: self.z.add(other.z),
            w: self.w.add(other.w),
        }
    }

    pub fn sub_v(&self, other: &Self) -> (v: Self)
        ensures
            v == self.sub_v_spec(*other),
    {
        Vec4 {
            x: self.x.sub(other.x),
            y: self.y.sub(other.y),
            z: self.z.sub(other.z),
            w: self.w.sub(other.w),
        }
    }

    pub fn approx_eq(&self, other: &Self) -> (b: bool)
        ensures
            b == self.approx_eq_spec(*other),
    {
        self.x.approx_eq(other.x)
            && self.y.approx_eq(other.y)
            && self.z.approx_eq(other.z)
            && self.w.approx_eq(other.w)
    }
}
} // verus!
