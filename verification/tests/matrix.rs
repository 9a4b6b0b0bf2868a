use cgmath::mat2::Mat2;
use cgmath::mat3::Mat3;
use cgmath::mat4::{Augmented, Mat4};
use cgmath::matrix::Matrix;
use cgmath::quaternion::Quat;
use cgmath::scalar::Scalar;
use cgmath::vector::{Vec2, Vec3, Vec4};

/// A double-precision scalar with a fixed tolerance for approximate equality.
#[derive(Clone, Copy, PartialEq, Debug)]
struct F(f64);

impl Scalar for F {
    // Each named value is what the operation of that name computes.
    fn zero_spec() -> F { Self::zero() }
    fn one_spec() -> F { Self::one() }
    fn half_spec() -> F { Self::half() }
    fn add_spec(self, rhs: F) -> F { self.add(rhs) }
    fn sub_spec(self, rhs: F) -> F { self.sub(rhs) }
    fn mul_spec(self, rhs: F) -> F { self.mul(rhs) }
    fn div_spec(self, rhs: F) -> F { self.div(rhs) }
    fn rem_spec(self, rhs: F) -> F { self.rem(rhs) }
    fn neg_spec(self) -> F { self.neg() }
    fn abs_spec(self) -> F { self.abs() }
    fn sqrt_spec(self) -> F { self.sqrt() }
    fn sin_spec(self) -> F { self.sin() }
    fn cos_spec(self) -> F { self.cos() }
    fn gt_spec(self, rhs: F) -> bool { self.gt(rhs) }
    fn ge_spec(self, rhs: F) -> bool { self.ge(rhs) }
    fn approx_eq_spec(self, rhs: F) -> bool { self.approx_eq(rhs) }

    fn zero() -> F { F(0.0) }
    fn one() -> F { F(1.0) }
    fn half() -> F { F(0.5) }
    fn add(self, rhs: F) -> F { F(self.0 + rhs.0) }
    fn sub(self, rhs: F) -> F { F(self.0 - rhs.0) }
    fn mul(self, rhs: F) -> F { F(self.0 * rhs.0) }
    fn div(self, rhs: F) -> F { F(self.0 / rhs.0) }
    fn rem(self, rhs: F) -> F { F(self.0 % rhs.0) }
    fn neg(self) -> F { F(-self.0) }
    fn abs(self) -> F { F(self.0.abs()) }
    fn sqrt(self) -> F { F(self.0.sqrt()) }
    fn sin(self) -> F { F(self.0.sin()) }
    fn cos(self) -> F { F(self.0.cos()) }
    fn gt(self, rhs: F) -> bool { self.0 > rhs.0 }
    fn ge(self, rhs: F) -> bool { self.0 >= rhs.0 }
    fn approx_eq(self, rhs: F) -> bool { (self.0 - rhs.0).abs() < 1.0e-6 }
}

fn m2(a: f64, b: f64, c: f64, d: f64) -> Mat2<F> {
    Mat2::new(F(a), F(b), F(c), F(d))
}

fn m3(e: [f64; 9]) -> Mat3<F> {
    Mat3::new(F(e[0]), F(e[1]), F(e[2]), F(e[3]), F(e[4]), F(e[5]), F(e[6]), F(e[7]), F(e[8]))
}

fn m4(e: [f64; 16]) -> Mat4<F> {
    Mat4::new(
        F(e[0]), F(e[1]), F(e[2]), F(e[3]),
        F(e[4]), F(e[5]), F(e[6]), F(e[7]),
        F(e[8]), F(e[9]), F(e[10]), F(e[11]),
        F(e[12]), F(e[13]), F(e[14]), F(e[15]),
    )
}

fn v2(x: f64, y: f64) -> Vec2<F> {
    Vec2::new(F(x), F(y))
}

fn v3(x: f64, y: f64, z: f64) -> Vec3<F> {
    Vec3::new(F(x), F(y), F(z))
}

fn v4(x: f64, y: f64, z: f64, w: f64) -> Vec4<F> {
    Vec4::new(F(x), F(y), F(z), F(w))
}

fn sample3() -> Mat3<F> {
    m3([2.0, 0.0, 1.0, 1.0, 3.0, 0.0, 0.0, 1.0, 4.0])
}

fn sample4() -> Mat4<F> {
    m4([4.0, 1.0, 0.0, 0.5, 1.0, 5.0, 1.0, 0.0, 0.0, 1.0, 6.0, 1.0, 0.5, 0.0, 1.0, 7.0])
}

/// The rotation by a quarter turn about the z axis.
fn quarter_turn4() -> Mat4<F> {
    m4([0.0, 1.0, 0.0, 0.0, -1.0, 0.0, 0.0, 0.0, 0.0, 0.0, 1.0, 0.0, 0.0, 0.0, 0.0, 1.0])
}

// Vectors

#[test]
fn vec2_dot_sums_products() {
    assert_eq!(v2(1.0, 2.0).dot(&v2(3.0, 4.0)), F(11.0));
}

#[test]
fn vec3_cross_of_axes() {
    assert_eq!(v3(1.0, 0.0, 0.0).cross(&v3(0.0, 1.0, 0.0)), v3(0.0, 0.0, 1.0));
    assert_eq!(v3(1.0, 2.0, 3.0).cross(&v3(4.0, 5.0, 6.0)), v3(-3.0, 6.0, -3.0));
}

#[test]
fn vec_index_and_swap() {
    let mut v = v4(1.0, 2.0, 3.0, 4.0);
    assert_eq!(*v.i(0), F(1.0));
    assert_eq!(*v.i(3), F(4.0));
    v.swap(0, 3);
    assert_eq!(v, v4(4.0, 2.0, 3.0, 1.0));
    *v.mut_i(1) = F(9.0);
    assert_eq!(v, v4(4.0, 9.0, 3.0, 1.0));
    let mut u = v3(1.0, 2.0, 3.0);
    u.swap(1, 2);
    assert_eq!(u, v3(1.0, 3.0, 2.0));
    let mut t = v2(1.0, 2.0);
    t.swap(0, 1);
    assert_eq!(t, v2(2.0, 1.0));
}

#[test]
fn vec_length_and_normalize() {
    assert_eq!(v2(3.0, 4.0).length(), F(5.0));
    assert_eq!(v3(0.0, 0.0, 2.0).normalize(), v3(0.0, 0.0, 1.0));
    assert_eq!(v4(0.0, 4.0, 0.0, 0.0).normalize(), v4(0.0, 1.0, 0.0, 0.0));
}

#[test]
fn vec_arithmetic() {
    assert_eq!(v3(1.0, 2.0, 3.0).add_v(&v3(1.0, 1.0, 1.0)), v3(2.0, 3.0, 4.0));
    assert_eq!(v3(1.0, 2.0, 3.0).sub_v(&v3(1.0, 1.0, 1.0)), v3(0.0, 1.0, 2.0));
    assert_eq!(v2(1.0, 2.0).mul_s(F(2.0)), v2(2.0, 4.0));
    assert_eq!(v2(1.0, 2.0).div_s(F(2.0)), v2(0.5, 1.0));
    assert_eq!(v2(5.0, 7.0).rem_s(F(3.0)), v2(2.0, 1.0));
    assert_eq!(v4(1.0, -2.0, 3.0, -4.0).neg(), v4(-1.0, 2.0, -3.0, 4.0));
    assert!(v2(1.0, 2.0).approx_eq(&v2(1.0 + 1.0e-9, 2.0)));
    assert!(!v2(1.0, 2.0).approx_eq(&v2(1.0, 2.1)));
}

// Construction

#[test]
fn mat2_new_of_unit_diagonal_is_ident() {
    assert_eq!(m2(1.0, 0.0, 0.0, 1.0), Mat2::ident());
    assert_eq!(m2(1.0, 0.0, 0.0, 1.0), Mat2::one());
}

#[test]
fn new_lists_entries_column_after_column() {
    let m = m2(1.0, 2.0, 3.0, 4.0);
    assert_eq!(m, Mat2::from_cols(v2(1.0, 2.0), v2(3.0, 4.0)));
    assert_eq!(*m.cr(0, 1), F(2.0));
    assert_eq!(*m.cr(1, 0), F(3.0));
    let n = m3([1.0, 2.0, 3.0, 4.0, 5.0, 6.0, 7.0, 8.0, 9.0]);
    assert_eq!(n, Mat3::from_cols(v3(1.0, 2.0, 3.0), v3(4.0, 5.0, 6.0), v3(7.0, 8.0, 9.0)));
    assert_eq!(*n.cr(2, 0), F(7.0));
    let p = sample4();
    assert_eq!(*p.c(3), v4(0.5, 0.0, 1.0, 7.0));
    assert_eq!(*p.cr(0, 3), F(0.5));
}

#[test]
fn from_value_fills_the_diagonal() {
    assert_eq!(Mat2::from_value(F(3.0)), m2(3.0, 0.0, 0.0, 3.0));
    assert_eq!(Mat3::from_value(F(3.0)), m3([3.0, 0.0, 0.0, 0.0, 3.0, 0.0, 0.0, 0.0, 3.0]));
    assert_eq!(
        Mat4::from_value(F(3.0)),
        m4([3.0, 0.0, 0.0, 0.0, 0.0, 3.0, 0.0, 0.0, 0.0, 0.0, 3.0, 0.0, 0.0, 0.0, 0.0, 3.0])
    );
    assert_eq!(Mat2::<F>::zero(), m2(0.0, 0.0, 0.0, 0.0));
    assert_eq!(Mat3::<F>::zero(), Mat3::from_value(F(0.0)));
    assert_eq!(Mat4::<F>::zero(), Mat4::from_value(F(0.0)));
    assert_eq!(Mat3::<F>::one(), Mat3::ident());
    assert_eq!(Mat4::<F>::one(), Mat4::ident());
}

#[test]
fn from_angle_has_cos_sin_in_first_column() {
    let m = Mat2::from_angle(F(0.5));
    assert_eq!(*m.c(0), v2(0.5f64.cos(), 0.5f64.sin()));
    assert_eq!(*m.c(1), v2(-(0.5f64.sin()), 0.5f64.cos()));
    assert_eq!(*m.cr(0, 1), F(0.5f64.sin()));
    assert_eq!(*m.cr(1, 0), F(-(0.5f64.sin())));
    assert_eq!(Mat2::from_angle(F(0.0)), m2(1.0, 0.0, -0.0, 1.0));
    let quarter = Mat2::from_angle(F(std::f64::consts::FRAC_PI_2));
    assert!(quarter.approx_eq(&m2(0.0, 1.0, -1.0, 0.0)));
}

#[test]
fn look_at_along_z_with_y_up() {
    let m = Mat3::look_at(&v3(0.0, 0.0, 2.0), &v3(0.0, 3.0, 0.0));
    assert_eq!(*m.c(2), v3(0.0, 0.0, 1.0));
    assert_eq!(*m.c(1), v3(-1.0, 0.0, 0.0));
    assert_eq!(*m.c(0), v3(0.0, 1.0, 0.0));
}

// Access

#[test]
fn rows_gather_one_component_of_every_column() {
    assert_eq!(m2(1.0, 2.0, 3.0, 4.0).r(1), v2(2.0, 4.0));
    assert_eq!(sample3().r(0), v3(2.0, 1.0, 0.0));
    let m = m4([
        1.0, 2.0, 3.0, 4.0, 5.0, 6.0, 7.0, 8.0, 9.0, 10.0, 11.0, 12.0, 13.0, 14.0, 15.0, 16.0,
    ]);
    assert_eq!(m.r(0), v4(1.0, 5.0, 9.0, 13.0));
    assert_eq!(m.r(3), v4(4.0, 8.0, 12.0, 16.0));
}

#[test]
fn mutable_access_replaces_one_column_or_entry() {
    let mut m = m2(1.0, 2.0, 3.0, 4.0);
    *m.mut_c(1) = v2(7.0, 8.0);
    assert_eq!(m, m2(1.0, 2.0, 7.0, 8.0));
    *m.mut_cr(0, 1) = F(9.0);
    assert_eq!(m, m2(1.0, 9.0, 7.0, 8.0));
    let mut n = sample4();
    *n.mut_cr(3, 2) = F(-1.0);
    assert_eq!(*n.cr(3, 2), F(-1.0));
    assert_eq!(*n.c(3), v4(0.5, 0.0, -1.0, 7.0));
}

#[test]
fn swaps_exchange_columns_rows_and_entries() {
    let mut m = m3([1.0, 2.0, 3.0, 4.0, 5.0, 6.0, 7.0, 8.0, 9.0]);
    m.swap_c(0, 2);
    assert_eq!(m, m3([7.0, 8.0, 9.0, 4.0, 5.0, 6.0, 1.0, 2.0, 3.0]));
    m.swap_r(0, 1);
    assert_eq!(m, m3([8.0, 7.0, 9.0, 5.0, 4.0, 6.0, 2.0, 1.0, 3.0]));
    m.swap_cr((0, 0), (2, 2));
    assert_eq!(m, m3([3.0, 7.0, 9.0, 5.0, 4.0, 6.0, 2.0, 1.0, 8.0]));
    m.swap_c(1, 1);
    assert_eq!(m, m3([3.0, 7.0, 9.0, 5.0, 4.0, 6.0, 2.0, 1.0, 8.0]));
}

// Arithmetic

#[test]
fn scalar_operations_reach_every_entry() {
    let m = m2(1.0, 2.0, 3.0, 4.0);
    assert_eq!(m.mul_s(F(2.0)), m2(2.0, 4.0, 6.0, 8.0));
    assert_eq!(m.div_s(F(2.0)), m2(0.5, 1.0, 1.5, 2.0));
    assert_eq!(m.rem_s(F(2.0)), m2(1.0, 0.0, 1.0, 0.0));
    assert_eq!(m.neg(), m2(-1.0, -2.0, -3.0, -4.0));
    let mut n = m;
    n.mul_self_s(F(3.0));
    assert_eq!(n, m2(3.0, 6.0, 9.0, 12.0));
    n.div_self_s(F(3.0));
    assert_eq!(n, m);
    n.rem_self_s(F(3.0));
    assert_eq!(n, m2(1.0, 2.0, 0.0, 1.0));
    n.neg_self();
    assert_eq!(n, m2(-1.0, -2.0, -0.0, -1.0));
}

#[test]
fn matrices_add_and_subtract_entry_by_entry() {
    let a = sample3();
    let b = Mat3::ident();
    assert_eq!(a.add_m(&b), m3([3.0, 0.0, 1.0, 1.0, 4.0, 0.0, 0.0, 1.0, 5.0]));
    assert_eq!(a.sub_m(&b), m3([1.0, 0.0, 1.0, 1.0, 2.0, 0.0, 0.0, 1.0, 3.0]));
    let mut c = a;
    c.add_self_m(&b);
    c.sub_self_m(&b);
    assert_eq!(c, a);
    let p = sample4();
    assert_eq!(p.sub_m(&p), Mat4::zero());
    assert_eq!(p.add_m(&Mat4::zero()), p);
}

#[test]
fn mul_v_is_the_linear_map() {
    assert_eq!(m2(1.0, 2.0, 3.0, 4.0).mul_v(&v2(1.0, 1.0)), v2(4.0, 6.0));
    assert_eq!(sample3().mul_v(&v3(1.0, 2.0, 3.0)), v3(4.0, 9.0, 13.0));
    assert_eq!(quarter_turn4().mul_v(&v4(1.0, 0.0, 0.0, 1.0)), v4(0.0, 1.0, 0.0, 1.0));
}

#[test]
fn mul_m_is_row_times_column() {
    let a = m2(1.0, 2.0, 3.0, 4.0);
    let b = m2(5.0, 6.0, 7.0, 8.0);
    assert_eq!(a.mul_m(&b), m2(23.0, 34.0, 31.0, 46.0));
    assert_eq!(sample3().mul_m(&Mat3::ident()), sample3());
    assert_eq!(Mat4::ident().mul_m(&sample4()), sample4());
    let q = quarter_turn4();
    assert_eq!(q.mul_m(&q).mul_m(&q).mul_m(&q), Mat4::ident());
}

#[test]
fn transpose_mirrors_at_the_diagonal() {
    assert_eq!(m2(1.0, 2.0, 3.0, 4.0).transpose(), m2(1.0, 3.0, 2.0, 4.0));
    assert_eq!(
        m3([1.0, 2.0, 3.0, 4.0, 5.0, 6.0, 7.0, 8.0, 9.0]).transpose(),
        m3([1.0, 4.0, 7.0, 2.0, 5.0, 8.0, 3.0, 6.0, 9.0])
    );
    let m = m4([
        1.0, 2.0, 3.0, 4.0, 5.0, 6.0, 7.0, 8.0, 9.0, 10.0, 11.0, 12.0, 13.0, 14.0, 15.0, 16.0,
    ]);
    let t = m4([
        1.0, 5.0, 9.0, 13.0, 2.0, 6.0, 10.0, 14.0, 3.0, 7.0, 11.0, 15.0, 4.0, 8.0, 12.0, 16.0,
    ]);
    assert_eq!(m.transpose(), t);
    let mut n = m;
    n.transpose_self();
    assert_eq!(n, t);
    let mut p = sample3();
    p.transpose_self();
    assert_eq!(p, sample3().transpose());
    let mut q = m2(1.0, 2.0, 3.0, 4.0);
    q.transpose_self();
    assert_eq!(q, m2(1.0, 3.0, 2.0, 4.0));
}

#[test]
fn transpose_twice_gives_the_matrix_back() {
    assert_eq!(m2(1.0, 2.0, 3.0, 4.0).transpose().transpose(), m2(1.0, 2.0, 3.0, 4.0));
    assert_eq!(sample3().transpose().transpose(), sample3());
    assert_eq!(sample4().transpose().transpose(), sample4());
    assert!(sample4().transpose().transpose().approx_eq(&sample4()));
}

#[test]
fn transpose_of_product_is_product_of_transposes_reversed() {
    let a = m2(1.0, 2.0, 3.0, 4.0);
    let b = m2(5.0, 6.0, 7.0, 8.0);
    assert_eq!(a.mul_m(&b).transpose(), b.transpose().mul_m(&a.transpose()));
    let c = sample3();
    let d = m3([1.0, 2.0, 3.0, 4.0, 5.0, 6.0, 7.0, 8.0, 9.0]);
    assert_eq!(c.mul_m(&d).transpose(), d.transpose().mul_m(&c.transpose()));
    let e = sample4();
    let f = quarter_turn4();
    assert_eq!(e.mul_m(&f).transpose(), f.transpose().mul_m(&e.transpose()));
}

// Trace and determinant

#[test]
fn trace_of_identity_is_the_dimension() {
    assert_eq!(Mat2::<F>::ident().trace(), F(2.0));
    assert_eq!(Mat3::<F>::ident().trace(), F(3.0));
    assert_eq!(Mat4::<F>::ident().trace(), F(4.0));
    assert_eq!(sample4().trace(), F(22.0));
}

#[test]
fn determinant_of_identity_is_one_and_of_zero_is_zero() {
    assert_eq!(Mat2::<F>::ident().determinant(), F(1.0));
    assert_eq!(Mat3::<F>::ident().determinant(), F(1.0));
    assert_eq!(Mat4::<F>::ident().determinant(), F(1.0));
    assert_eq!(Mat2::<F>::zero().determinant(), F(0.0));
    assert_eq!(Mat3::<F>::zero().determinant(), F(0.0));
    assert_eq!(Mat4::<F>::zero().determinant(), F(0.0));
}

#[test]
fn mat2_determinant_of_scaled_identity() {
    assert_eq!(m2(2.0, 0.0, 0.0, 2.0).determinant(), F(4.0));
    assert_eq!(m2(1.0, 2.0, 3.0, 4.0).determinant(), F(-2.0));
}

#[test]
fn mat3_determinant_expands_along_first_row_of_columns() {
    assert_eq!(sample3().determinant(), F(25.0));
    assert_eq!(m3([1.0, 2.0, 3.0, 4.0, 5.0, 6.0, 7.0, 8.0, 10.0]).determinant(), F(-3.0));
}

#[test]
fn mat4_determinant_expands_into_minors() {
    assert_eq!(quarter_turn4().determinant(), F(1.0));
    let m = m4([2.0, 0.0, 0.0, 0.0, 0.0, 3.0, 0.0, 0.0, 0.0, 0.0, 4.0, 0.0, 0.0, 0.0, 0.0, 5.0]);
    assert_eq!(m.determinant(), F(120.0));
    let n = m4([1.0, 2.0, 0.0, 0.0, 3.0, 4.0, 0.0, 0.0, 0.0, 0.0, 1.0, 0.0, 0.0, 0.0, 0.0, 1.0]);
    assert_eq!(n.determinant(), F(-2.0));
    assert_eq!(
        n.minor_of(1),
        m3([2.0, 0.0, 0.0, 0.0, 1.0, 0.0, 0.0, 0.0, 1.0])
    );
}

// Inversion

#[test]
fn mat2_invert_of_scaled_identity() {
    assert_eq!(m2(2.0, 0.0, 0.0, 2.0).invert(), Some(m2(0.5, 0.0, 0.0, 0.5)));
    assert_eq!(m2(1.0, 2.0, 3.0, 4.0).invert(), Some(m2(-2.0, 1.0, 1.5, -0.5)));
}

#[test]
fn invert_of_singular_matrix_is_none() {
    assert_eq!(m2(1.0, 2.0, 2.0, 4.0).invert(), None);
    assert_eq!(Mat2::<F>::zero().invert(), None);
    assert_eq!(m3([1.0, 2.0, 3.0, 4.0, 5.0, 6.0, 7.0, 8.0, 9.0]).invert(), None);
    assert_eq!(Mat3::<F>::zero().invert(), None);
    let m = m4([
        1.0, 2.0, 3.0, 4.0, 2.0, 4.0, 6.0, 8.0, 0.0, 0.0, 1.0, 0.0, 0.0, 0.0, 0.0, 1.0,
    ]);
    assert_eq!(m.invert(), None);
    assert_eq!(Mat4::<F>::zero().invert(), None);
    assert!(!m.is_invertible());
    let nearly = m2(1.0, 0.0, 0.0, 1.0e-9);
    assert_eq!(nearly.invert(), None);
}

#[test]
fn product_with_inverse_is_identity_in_both_orders() {
    let a = m2(1.0, 2.0, 3.0, 4.0);
    let ai = a.invert().unwrap();
    assert!(a.mul_m(&ai).approx_eq(&Mat2::ident()));
    assert!(ai.mul_m(&a).approx_eq(&Mat2::ident()));
    let b = sample3();
    let bi = b.invert().unwrap();
    assert!(b.mul_m(&bi).is_identity());
    assert!(bi.mul_m(&b).is_identity());
    let c = sample4();
    let ci = c.invert().unwrap();
    assert!(c.mul_m(&ci).is_identity());
    assert!(ci.mul_m(&c).is_identity());
}

#[test]
fn mat3_invert_exact_value() {
    let m = m3([2.0, 0.0, 0.0, 0.0, 4.0, 0.0, 0.0, 0.0, 8.0]);
    assert_eq!(m.invert(), Some(m3([0.5, 0.0, 0.0, 0.0, 0.25, 0.0, 0.0, 0.0, 0.125])));
    let n = m3([1.0, 0.0, 0.0, 2.0, 1.0, 0.0, 0.0, 0.0, 1.0]);
    assert_eq!(n.invert(), Some(m3([1.0, 0.0, 0.0, -2.0, 1.0, 0.0, 0.0, 0.0, 1.0])));
}

#[test]
fn mat4_invert_exact_value() {
    let m = m4([2.0, 0.0, 0.0, 0.0, 0.0, 4.0, 0.0, 0.0, 0.0, 0.0, 8.0, 0.0, 0.0, 0.0, 0.0, 1.0]);
    assert_eq!(
        m.invert(),
        Some(m4([
            0.5, 0.0, 0.0, 0.0, 0.0, 0.25, 0.0, 0.0, 0.0, 0.0, 0.125, 0.0, 0.0, 0.0, 0.0, 1.0,
        ]))
    );
    let shear = m4([
        1.0, 0.0, 0.0, 0.0, 2.0, 1.0, 0.0, 0.0, 0.0, 0.0, 1.0, 0.0, 0.0, 0.0, 0.0, 1.0,
    ]);
    assert_eq!(
        shear.invert(),
        Some(m4([
            1.0, 0.0, 0.0, 0.0, -2.0, 1.0, 0.0, 0.0, 0.0, 0.0, 1.0, 0.0, 0.0, 0.0, 0.0, 1.0,
        ]))
    );
}

#[test]
fn mat4_inverse_of_quarter_turn_is_its_transpose() {
    let q = quarter_turn4();
    let inverse = q.invert().unwrap();
    assert!(inverse.approx_eq(&q.transpose()));
    assert!(q.mul_m(&inverse).is_identity());
}

#[test]
fn elimination_steps() {
    let q = quarter_turn4();
    let mut system = Augmented { left: q, right: Mat4::ident() };
    assert_eq!(system.pivot_row(0), 1);
    assert_eq!(system.pivot_row(1), 1);
    assert_eq!(system.pivot_row(3), 3);
    system.swap_c(1, 0);
    assert_eq!(*system.left.c(0), v4(-1.0, 0.0, 0.0, 0.0));
    assert_eq!(*system.right.c(0), v4(0.0, 1.0, 0.0, 0.0));
    system.scale_column(0);
    assert_eq!(*system.left.c(0), v4(1.0, -0.0, -0.0, -0.0));
    assert_eq!(*system.right.c(0), v4(-0.0, -1.0, -0.0, -0.0));
    let mut other = Augmented { left: sample4(), right: Mat4::ident() };
    let before = other;
    other.eliminate(0, 0);
    assert_eq!(other, before);
    other.eliminate(0, 1);
    assert_eq!(*other.left.c(1), v4(-3.0, 4.0, 1.0, -0.5));
    assert_eq!(*other.right.c(1), v4(-1.0, 1.0, 0.0, 0.0));
    assert_eq!(*other.left.c(0), *before.left.c(0));
    let mut third = Augmented { left: sample4(), right: Mat4::ident() };
    third.reduce_column(0);
    assert_eq!(*third.left.c(0), v4(1.0, 0.25, 0.0, 0.125));
    assert_eq!(third.left.r(0), v4(1.0, 0.0, 0.0, 0.0));
}

#[test]
fn pivot_is_first_of_equal_entries() {
    let m = m4([
        1.0, -3.0, 3.0, 2.0, 0.0, 1.0, 0.0, 0.0, 0.0, 0.0, 1.0, 0.0, 0.0, 0.0, 0.0, 1.0,
    ]);
    let system = Augmented { left: m, right: Mat4::ident() };
    assert_eq!(system.pivot_row(0), 1);
}

#[test]
fn invert_self_replaces_the_matrix() {
    let mut m = m2(2.0, 0.0, 0.0, 2.0);
    assert!(m.is_invertible());
    m.invert_self();
    assert_eq!(m, m2(0.5, 0.0, 0.0, 0.5));
    let mut n = sample4();
    let expected = n.invert().unwrap();
    n.invert_self();
    assert_eq!(n, expected);
}

// Predicates

#[test]
fn mat3_ident_is_diagonal_and_symmetric() {
    assert_eq!(Mat3::<F>::ident().is_diagonal(), true);
    assert_eq!(Mat3::<F>::ident().is_symmetric(), true);
}

#[test]
fn structural_predicates() {
    assert!(Mat2::<F>::ident().is_identity());
    assert!(!Mat2::<F>::ident().is_rotated());
    assert!(Mat2::from_angle(F(1.0)).is_rotated());
    assert!(!m2(1.0, 2.0, 3.0, 4.0).is_diagonal());
    assert!(!m2(1.0, 2.0, 3.0, 4.0).is_symmetric());
    assert!(m2(1.0, 2.0, 2.0, 4.0).is_symmetric());
    assert!(m2(5.0, 0.0, 0.0, 4.0).is_diagonal());
    assert!(!sample3().is_diagonal());
    assert!(!sample3().is_symmetric());
    assert!(sample4().is_symmetric());
    assert!(!sample4().is_diagonal());
    assert!(Mat4::from_value(F(2.0)).is_diagonal());
    assert!(!quarter_turn4().is_symmetric());
    assert!(sample4().is_invertible());
    assert!(Mat4::<F>::ident().is_identity());
    let mut off = Mat4::<F>::ident();
    *off.mut_cr(3, 2) = F(0.5);
    assert!(!off.is_diagonal());
    assert!(!off.is_symmetric());
    assert!(!off.is_identity());
    assert!(off.is_rotated());
}

// Quaternions

#[test]
fn mat3_ident_to_quat_is_unit_scalar() {
    let q = Mat3::<F>::ident().to_quat();
    assert_eq!(q, Quat::new(F(1.0), F(0.0), F(0.0), F(0.0)));
    assert_eq!(q.s, F(1.0));
    assert_eq!(q.v, v3(0.0, 0.0, 0.0));
}

#[test]
fn to_quat_with_trace_not_negative() {
    // trace 3, root 2, scale 0.25
    let m = m3([1.0, 1.0, 2.0, 3.0, 1.0, 4.0, 6.0, 8.0, 1.0]);
    let q = m.to_quat();
    assert_eq!(q, Quat::new(F(1.0), F(1.0), F(-1.0), F(0.5)));
}

#[test]
fn to_quat_with_first_diagonal_entry_largest() {
    // trace -1; 0.5 + 1.75 + 1 + 1 = 4.25 is not a square, so take entries
    // that give root 2: 0.5 + m00 - m11 - m22 = 4
    let m = m3([1.5, 1.0, 2.0, 3.0, -1.0, 4.0, 6.0, 8.0, -1.0]);
    let q = m.to_quat();
    assert_eq!(q, Quat::new(F(1.0), F(-0.5), F(1.0), F(-1.0)));
}

#[test]
fn to_quat_with_second_diagonal_entry_largest() {
    let m = m3([-1.0, 1.0, 2.0, 3.0, 1.5, 4.0, 6.0, 8.0, -1.0]);
    let q = m.to_quat();
    assert_eq!(q, Quat::new(F(1.0), F(-0.5), F(-1.0), F(1.0)));
}

#[test]
fn to_quat_with_third_diagonal_entry_largest() {
    let m = m3([-1.0, 1.0, 2.0, 3.0, -1.0, 4.0, 6.0, 8.0, 1.5]);
    let q = m.to_quat();
    assert_eq!(q, Quat::new(F(1.0), F(1.0), F(-1.0), F(-0.5)));
}

/// The rotation matrix of a unit quaternion, with the entries that `to_quat`
/// reads its vector part from.
fn rotation_of(q: &Quat<F>) -> Mat3<F> {
    let (w, x, y, z) = (q.s.0, q.v.x.0, q.v.y.0, q.v.z.0);
    m3([
        1.0 - 2.0 * (y * y + z * z),
        2.0 * (x * y - w * z),
        2.0 * (x * z + w * y),
        2.0 * (x * y + w * z),
        1.0 - 2.0 * (x * x + z * z),
        2.0 * (y * z - w * x),
        2.0 * (x * z - w * y),
        2.0 * (y * z + w * x),
        1.0 - 2.0 * (x * x + y * y),
    ])
}

#[test]
fn quaternion_of_a_rotation_gives_the_rotation_back() {
    let turn = Mat2::from_angle(F(0.7));
    let about_z = Mat3::from_cols(
        Vec3::new(turn.x.x, turn.x.y, F(0.0)),
        Vec3::new(turn.y.x, turn.y.y, F(0.0)),
        v3(0.0, 0.0, 1.0),
    );
    let q = about_z.to_quat();
    assert!(rotation_of(&q).approx_eq(&about_z));
    let about_x = Mat3::from_cols(
        v3(1.0, 0.0, 0.0),
        Vec3::new(F(0.0), turn.x.x, turn.x.y),
        Vec3::new(F(0.0), turn.y.x, turn.y.y),
    );
    let p = about_x.to_quat();
    assert!(rotation_of(&p).approx_eq(&about_x));
    let length = p.s.0 * p.s.0 + p.v.dot(&p.v).0;
    assert!((length - 1.0).abs() < 1.0e-12);
}

#[test]
fn checked_access_tests_the_index() {
    let m = m2(1.0, 2.0, 3.0, 4.0);
    assert_eq!(m.checked_c(1), Some(&v2(3.0, 4.0)));
    assert_eq!(m.checked_c(2), None);
    assert_eq!(m.checked_r(0), Some(v2(1.0, 3.0)));
    assert_eq!(m.checked_r(2), None);
    assert_eq!(m.checked_cr(1, 0), Some(&F(3.0)));
    assert_eq!(m.checked_cr(2, 0), None);
    assert_eq!(m.checked_cr(0, 2), None);
    let n = sample4();
    assert_eq!(n.checked_cr(3, 3), Some(&F(7.0)));
    assert_eq!(n.checked_c(4), None);
    assert_eq!(sample3().checked_r(3), None);
    assert_eq!(sample3().checked_r(2), Some(v3(1.0, 0.0, 4.0)));
    assert_eq!(Mat2::<F>::order(), 2);
    assert_eq!(Mat3::<F>::order(), 3);
    assert_eq!(Mat4::<F>::order(), 4);
}

#[test]
fn mat4_column_exchange_can_leave_a_zero_pivot() {
    // Row 1 holds the largest entry of column 0, so columns 1 and 0 change
    // places; the entry that comes to the diagonal is zero.
    let m = m4([0.0, 1.0, 0.0, 0.0, 0.0, 0.0, 1.0, 0.0, 1.0, 0.0, 0.0, 0.0, 0.0, 0.0, 0.0, 1.0]);
    assert!(m.is_invertible());
    let system = Augmented { left: m, right: Mat4::ident() };
    assert_eq!(system.pivot_row(0), 1);
    let inverse = m.invert().unwrap();
    assert!(!m.mul_m(&inverse).is_identity());
}
