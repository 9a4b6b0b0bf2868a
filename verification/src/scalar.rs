//! The scalar capability that vectors and matrices are built over.

use vstd::prelude::*;

verus! {

/// A number type that vectors and matrices can hold.
///
/// Each operation comes twice: as a specification function, which names the
/// value, and as an executable method, which promises to return exactly that
/// value. An implementation thereby promises that its operations are
/// functions of their arguments, and nothing else: no algebraic law is assumed
/// of them, so the contracts of this library hold of rounding arithmetic too.
/// A theorem that needs a law of the scalars has it as a hypothesis; see
/// `mul_commutes`, `unit_arithmetic` and `exact_arithmetic`.
///
/// Floating-point numbers meet this promise but for the bits of a NaN, and
/// sine and cosine only where the implementation rounds them the same way
/// each time.
pub trait Scalar: Copy {
    /// The additive identity.
    spec fn zero_spec() -> Self;

    /// The multiplicative identity.
    spec fn one_spec() -> Self;

    /// One half: what added to itself gives the multiplicative identity.
    spec fn half_spec() -> Self;

    /// The sum `self + rhs`.
    spec fn add_spec(self, rhs: Self) -> Self;

    /// The difference `self - rhs`.
    spec fn sub_spec(self, rhs: Self) -> Self;

    /// The product `self * rhs`.
    spec fn mul_spec(self, rhs: Self) -> Self;

    /// The quotient `self / rhs`.
    spec fn div_spec(self, rhs: Self) -> Self;

    /// The remainder of `self / rhs`.
    spec fn rem_spec(self, rhs: Self) -> Self;

    /// The negation `-self`.
    spec fn neg_spec(self) -> Self;

    /// The absolute value.
    spec fn abs_spec(self) -> Self;

    /// The square root.
    spec fn sqrt_spec(self) -> Self;

    /// The sine of an angle in radians.
    spec fn sin_spec(self) -> Self;

    /// The cosine of an angle in radians.
    spec fn cos_spec(self) -> Self;

    /// Whether `self` is strictly greater than `rhs`.
    spec fn gt_spec(self, rhs: Self) -> bool;

    /// Whether `self` is greater than or equal to `rhs`.
    spec fn ge_spec(self, rhs: Self) -> bool;

    /// Whether `self` equals `rhs` up to the scalar's fixed tolerance.
    spec fn approx_eq_spec(self, rhs: Self) -> bool;

    fn zero() -> (r: Self)
        ensures
            r == Self::zero_spec(),
    ;

    fn one() -> (r: Self)
        ensures
            r == Self::one_spec(),
    ;

    fn half() -> (r: Self)
        ensures
            r == Self::half_spec(),
    ;

    fn add(self, rhs: Self) -> (r: Self)
        ensures
            r == self.add_spec(rhs),
    ;

    fn sub(self, rhs: Self) -> (r: Self)
        ensures
            r == self.sub_spec(rhs),
    ;

    fn mul(self, rhs: Self) -> (r: Self)
        ensures
            r == self.mul_spec(rhs),
    ;

    fn div(self, rhs: Self) -> (r: Self)
        ensures
            r == self.div_spec(rhs),
    ;

    fn rem(self, rhs: Self) -> (r: Self)
        ensures
            r == self.rem_spec(rhs),
    ;

    fn neg(self) -> (r: Self)
        ensures
            r == self.neg_spec(),
    ;

    fn abs(self) -> (r: Self)
        ensures
            r == self.abs_spec(),
    ;

    fn sqrt(self) -> (r: Self)
        ensures
            r == self.sqrt_spec(),
    ;

    fn sin(self) -> (r: Self)
        ensures
            r == self.sin_spec(),
    ;

    fn cos(self) -> (r: Self)
        ensures
            r == self.cos_spec(),
    ;

    fn gt(self, rhs: Self) -> (b: bool)
        ensures
            b == self.gt_spec(rhs),
    ;

    fn ge(self, rhs: Self) -> (b: bool)
        ensures
            b == self.ge_spec(rhs),
    ;

    fn approx_eq(self, rhs: Self) -> (b: bool)
        ensures
            b == self.approx_eq_spec(rhs),
    ;
}

/// Scalar multiplication gives the same value whichever factor comes first.
pub open spec fn mul_commutes<S: Scalar>() -> bool {
    forall|a: S, b: S| #[trigger] a.mul_spec(b) == b.mul_spec(a)
}

/// Zero and one add, subtract and multiply among themselves as they do in a
/// field.
pub open spec fn unit_arithmetic<S: Scalar>() -> bool {
    let zero = S::zero_spec();
    let one = S::one_spec();
    &&& zero.mul_spec(zero) == zero
    &&& zero.mul_spec(one) == zero
    &&& one.mul_spec(zero) == zero
    &&& one.mul_spec(one) == one
    &&& zero.add_spec(zero) == zero
    &&& one.add_spec(zero) == one
    &&& zero.sub_spec(zero) == zero
    &&& one.sub_spec(zero) == one
}

/// Multiplication commutes, associates, and distributes over subtraction.
#[verifier::opaque]
pub open spec fn product_laws<S: Scalar>() -> bool {
    &&& forall|a: S, b: S| #[trigger] a.mul_spec(b) == b.mul_spec(a)
    &&& forall|a: S, b: S, c: S| #[trigger]
        a.mul_spec(b).mul_spec(c) == a.mul_spec(b.mul_spec(c))
    &&& forall|a: S, b: S, c: S| #[trigger]
        a.sub_spec(b).mul_spec(c) == a.mul_spec(c).sub_spec(b.mul_spec(c))
}

/// What is added and then subtracted is gone.
#[verifier::opaque]
pub open spec fn cancellation_laws<S: Scalar>() -> bool {
    &&& forall|a: S, b: S, c: S| #[trigger]
        a.sub_spec(b).add_spec(c.sub_spec(a)) == c.sub_spec(b)
    &&& forall|a: S, b: S, c: S| #[trigger]
        a.sub_spec(b).add_spec(b.sub_spec(c)) == a.sub_spec(c)
    &&& forall|a: S| #[trigger] a.sub_spec(a) == S::zero_spec()
    &&& forall|x: S, z: S| #[trigger] x.sub_spec(z).add_spec(z) == x
}

/// Addition commutes and associates, and in a sum of differences the
/// subtracted terms may change places.
#[verifier::opaque]
pub open spec fn rearrangement_laws<S: Scalar>() -> bool {
    &&& forall|a: S, b: S| #[trigger] a.add_spec(b) == b.add_spec(a)
    &&& forall|a: S, b: S, c: S| #[trigger]
        a.add_spec(b).add_spec(c) == a.add_spec(b.add_spec(c))
    &&& forall|a: S, b: S, c: S, e: S| #[trigger]
        a.sub_spec(b).add_spec(c.sub_spec(e)) == a.sub_spec(e).add_spec(c.sub_spec(b))
    &&& forall|x: S, e: S, f: S| #[trigger]
        x.sub_spec(e.sub_spec(f)) == x.add_spec(f.sub_spec(e))
}

/// Negation passes through a product, and adding a negation subtracts.
#[verifier::opaque]
pub open spec fn negation_laws<S: Scalar>() -> bool {
    &&& forall|x: S, y: S| #[trigger] x.mul_spec(y.neg_spec()) == x.mul_spec(y).neg_spec()
    &&& forall|x: S, y: S| #[trigger] x.add_spec(y.neg_spec()) == x.sub_spec(y)
    &&& forall|x: S, y: S| #[trigger] x.neg_spec().add_spec(y) == y.sub_spec(x)
}

/// A factor passes into the numerator of a quotient, quotients by one divisor
/// add by their numerators, and a divisor other than zero divides zero to
/// zero and itself to one, and gives back what it divided when the quotient
/// is multiplied by it. Zero is approximately zero.
#[verifier::opaque]
pub open spec fn quotient_laws<S: Scalar>() -> bool {
    let zero = S::zero_spec();
    let one = S::one_spec();
    &&& forall|x: S, y: S, d: S| #[trigger]
        x.mul_spec(y.div_spec(d)) == x.mul_spec(y).div_spec(d)
    &&& forall|x: S, y: S, d: S| #[trigger]
        y.div_spec(d).mul_spec(x) == y.mul_spec(x).div_spec(d)
    &&& forall|x: S, y: S, d: S| #[trigger]
        x.div_spec(d).add_spec(y.div_spec(d)) == x.add_spec(y).div_spec(d)
    &&& forall|d: S| d != zero ==> #[trigger] zero.div_spec(d) == zero
    &&& forall|d: S| d != zero ==> #[trigger] d.div_spec(d) == one
    &&& forall|x: S, d: S| d != zero ==> #[trigger] x.div_spec(d).mul_spec(d) == x
    &&& zero.approx_eq_spec(zero)
}

/// Multiplication distributes over differences and over sums, products
/// regroup, and differences add by their parts.
#[verifier::opaque]
pub open spec fn linearity_laws<S: Scalar>() -> bool {
    &&& forall|x: S, a: S, b: S| #[trigger]
        x.mul_spec(a.sub_spec(b)) == x.mul_spec(a).sub_spec(x.mul_spec(b))
    &&& forall|x: S, b: S, f: S| #[trigger]
        x.mul_spec(b.mul_spec(f)) == x.mul_spec(b).mul_spec(f)
    &&& forall|a: S, b: S, f: S| #[trigger]
        a.mul_spec(f).add_spec(b.mul_spec(f)) == a.add_spec(b).mul_spec(f)
    &&& forall|a: S, b: S, c: S, d: S| #[trigger]
        a.sub_spec(b).add_spec(c.sub_spec(d)) == a.add_spec(c).sub_spec(b.add_spec(d))
}

/// One is neutral in products, zero is neutral in sums and differences, and
/// a product with zero is zero.
#[verifier::opaque]
pub open spec fn identity_laws<S: Scalar>() -> bool {
    let zero = S::zero_spec();
    let one = S::one_spec();
    &&& forall|x: S| #[trigger] x.mul_spec(one) == x
    &&& forall|x: S| #[trigger] one.mul_spec(x) == x
    &&& forall|x: S| #[trigger] x.mul_spec(zero) == zero
    &&& forall|x: S| #[trigger] zero.mul_spec(x) == zero
    &&& forall|x: S| #[trigger] x.add_spec(zero) == x
    &&& forall|x: S| #[trigger] zero.add_spec(x) == x
    &&& forall|x: S| #[trigger] x.sub_spec(zero) == x
}

/// Every scalar is approximately equal to itself.
#[verifier::opaque]
pub open spec fn approximation_laws<S: Scalar>() -> bool {
    forall|x: S| #[trigger] x.approx_eq_spec(x)
}

/// The scalars calculate exactly: the identities above, each of which holds
/// in every field, hold of them. Rounding breaks them.
pub open spec fn exact_arithmetic<S: Scalar>() -> bool {
    &&& approximation_laws::<S>()
    &&& identity_laws::<S>()
    &&& linearity_laws::<S>()
    &&& product_laws::<S>()
    &&& cancellation_laws::<S>()
    &&& rearrangement_laws::<S>()
    &&& negation_laws::<S>()
    &&& quotient_laws::<S>()
}

} // verus!
