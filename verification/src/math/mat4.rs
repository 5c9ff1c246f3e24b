//! 4x4 fixed-point matrices in column-major element order: the element at
//! column `x`, row `y` sits at index `x + 4 * y`, matching the layout the
//! GL host consumes directly.
//!
//! Multiplication dots the left operand's rows against the right operand's
//! columns: the raw 32.32 products are summed exactly and scaled back down
//! once per element.

use vstd::prelude::*;
use super::fx::{
    FX_ONE, fx_sat, fx_rescale, fx_mul_spec, fx_div_spec, fx_mul, fx_add, fx_sub, fx_div,
    fx_rescale_i128, lemma_mul_i32_bound,
};
use super::quaternion::Quaternion;
use super::vec3::{Vector3, vec3_cross_spec, vec3_dot_spec, vec3_neg_spec};

verus! {

/// A 4x4 matrix of 16.16 fixed-point scalars.
#[derive(Debug, Clone, Copy)]
pub struct Matrix4 {
    pub data: [i32; 16],
}

impl View for Matrix4 {
    type V = Seq<int>;

    open spec fn view(&self) -> Seq<int> {
        self.data@.map_values(|v: i32| v as int)
    }
}

/// The identity matrix: one along the diagonal, zero elsewhere.
pub open spec fn identity_spec() -> Seq<int> {
    Seq::new(16, |i: int| if i == 0 || i == 5 || i == 10 || i == 15 { 65536int } else { 0int })
}

/// The all-zero matrix.
pub open spec fn zero_spec() -> Seq<int> {
    Seq::new(16, |i: int| 0int)
}

/// The matrix translating by `(x, y, z)`.
pub open spec fn translate_spec(x: int, y: int, z: int) -> Seq<int> {
    Seq::new(
        16,
        |i: int|
            if i == 0 || i == 5 || i == 10 || i == 15 {
                65536int
            } else if i == 12 {
                x
            } else if i == 13 {
                y
            } else if i == 14 {
                z
            } else {
                0int
            },
    )
}

/// The matrix scaling each axis by its own factor.
pub open spec fn scale_spec(x: int, y: int, z: int) -> Seq<int> {
    Seq::new(
        16,
        |i: int|
            if i == 0 {
                x
            } else if i == 5 {
                y
            } else if i == 10 {
                z
            } else if i == 15 {
                65536int
            } else {
                0int
            },
    )
}

/// The rotation matrix of a quaternion `[q1, q2, q3, s]`, by the standard
/// quaternion-to-matrix formula, each step saturating.
pub open spec fn rotate_spec(q: Seq<int>) -> Seq<int> {
    let q1 = q[0];
    let q2 = q[1];
    let q3 = q[2];
    let s = q[3];
    let ss = fx_mul_spec(s, s);
    let q11 = fx_mul_spec(q1, q1);
    let q22 = fx_mul_spec(q2, q2);
    let q33 = fx_mul_spec(q3, q3);
    seq![
        fx_sat(fx_sat(fx_sat(ss + q11) - q22) - q33),
        dbl_spec(fx_sat(fx_mul_spec(q1, q2) - fx_mul_spec(s, q3))),
        dbl_spec(fx_sat(fx_mul_spec(s, q2) + fx_mul_spec(q1, q3))),
        0int,
        dbl_spec(fx_sat(fx_mul_spec(q1, q2) + fx_mul_spec(s, q3))),
        fx_sat(fx_sat(fx_sat(ss - q11) + q22) - q33),
        dbl_spec(fx_sat(fx_mul_spec(q2, q3) - fx_mul_spec(s, q1))),
        0int,
        dbl_spec(fx_sat(fx_mul_spec(q1, q3) - fx_mul_spec(s, q2))),
        dbl_spec(fx_sat(fx_mul_spec(s, q1) + fx_mul_spec(q2, q3))),
        fx_sat(fx_sat(fx_sat(ss - q11) - q22) + q33),
        0int,
        0int, 0int, 0int, 65536int,
    ]
}

/// A value doubled, saturating.
pub open spec fn dbl_spec(t: int) -> int {
    fx_sat(t + t)
}

/// One element of the matrix product: the left operand's row `y` dotted
/// against the right operand's column `x`, summed exactly and scaled back
/// down once.
pub open spec fn mat_mul_entry(a: Seq<int>, b: Seq<int>, x: int, y: int) -> int {
    fx_rescale(
        a[4 * y] * b[x] + a[4 * y + 1] * b[x + 4] + a[4 * y + 2] * b[x + 8] + a[4 * y + 3] * b[x
            + 12],
    )
}

/// The matrix product `a * b`.
pub open spec fn mat_mul_spec(a: Seq<int>, b: Seq<int>) -> Seq<int> {
    Seq::new(16, |i: int| mat_mul_entry(a, b, i % 4, i / 4))
}

/// The elementwise saturating sum of two matrices.
pub open spec fn mat_add_spec(a: Seq<int>, b: Seq<int>) -> Seq<int> {
    Seq::new(16, |i: int| fx_sat(a[i] + b[i]))
}

/// The matrix with columns and rows exchanged.
pub open spec fn transpose_spec(m: Seq<int>) -> Seq<int> {
    Seq::new(16, |i: int| m[4 * (i % 4) + i / 4])
}

/// The perspective projection matrix built from a precomputed focal scale
/// (the reciprocal tangent of half the field of view), an aspect ratio and
/// the near and far plane distances.
pub open spec fn perspective_spec(focal: int, aspect_ratio: int, near: int, far: int) -> Seq<int> {
    let ri = fx_div_spec(65536, fx_sat(near - far));
    let t = fx_mul_spec(fx_mul_spec(near, far), ri);
    seq![
        fx_div_spec(focal, aspect_ratio), 0int, 0int, 0int,
        0int, focal, 0int, 0int,
        0int, 0int, fx_mul_spec(fx_sat(near + far), ri), -65536int,
        0int, 0int, dbl_spec(t), 0int,
    ]
}

/// The view matrix orienting a camera at `p` with basis rows built from the
/// `u` (up) and `f` (forward) directions.
pub open spec fn view_spec(p: Seq<int>, u: Seq<int>, f: Seq<int>) -> Seq<int> {
    let r = vec3_cross_spec(u, f);
    let np = vec3_neg_spec(p);
    seq![
        r[0], u[0], f[0], 0int,
        r[1], u[1], f[1], 0int,
        r[2], u[2], f[2], 0int,
        vec3_dot_spec(r, np), vec3_dot_spec(u, np), vec3_dot_spec(f, np), 65536int,
    ]
}

/// The view matrix built from given right and forward directions, with the
/// up direction completed by a cross product.
pub open spec fn view_xz_spec(p: Seq<int>, r: Seq<int>, f: Seq<int>) -> Seq<int> {
    let u = vec3_cross_spec(r, f);
    let np = vec3_neg_spec(p);
    seq![
        r[0], u[0], f[0], 0int,
        r[1], u[1], f[1], 0int,
        r[2], u[2], f[2], 0int,
        vec3_dot_spec(r, np), vec3_dot_spec(u, np), vec3_dot_spec(f, np), 65536int,
    ]
}

/// One element of the product: four raw products summed exactly in a wide
/// accumulator, then scaled back down.
fn dot4(a0: i32, a1: i32, a2: i32, a3: i32, b0: i32, b1: i32, b2: i32, b3: i32) -> (r: i32)
    ensures
        r as int == fx_rescale(
            a0 * b0 + a1 * b1 + a2 * b2 + a3 * b3,
        ),
{
    proof {
        lemma_mul_i32_bound(a0 as int, b0 as int);
        lemma_mul_i32_bound(a1 as int, b1 as int);
        lemma_mul_i32_bound(a2 as int, b2 as int);
        lemma_mul_i32_bound(a3 as int, b3 as int);
    }
    let s: i128 = (a0 as i128) * (b0 as i128) + (a1 as i128) * (b1 as i128) + (a2 as i128) * (b2
        as i128) + (a3 as i128) * (b3 as i128);
    fx_rescale_i128(s)
}

impl Matrix4 {
    /// The 4x4 identity matrix.
    pub fn identity() -> (r: Self)
        ensures
            r@ == identity_spec(),
    {
        let m = Matrix4 {
            data: [
                FX_ONE, 0, 0, 0,
                0, FX_ONE, 0, 0,
                0, 0, FX_ONE, 0,
                0, 0, 0, FX_ONE,
            ],
        };
        proof {
            assert(m@ =~= identity_spec());
        }
        m
    }

    /// The all-zero matrix.
    pub fn zero() -> (r: Self)
        ensures
            r@ == zero_spec(),
    {
        let m = Matrix4 { data: [0, 0, 0, 0, 0, 0, 0, 0, 0, 0, 0, 0, 0, 0, 0, 0] };
        proof {
            assert(m@ =~= zero_spec());
        }
        m
    }

    /// The matrix translating by `(x, y, z)`.
    pub fn translate(x: i32, y: i32, z: i32) -> (r: Self)
        ensures
            r@ == translate_spec(x as int, y as int, z as int),
    {
        let m = Matrix4 {
            data: [
                FX_ONE, 0, 0, 0,
                0, FX_ONE, 0, 0,
                0, 0, FX_ONE, 0,
                x, y, z, FX_ONE,
            ],
        };
        proof {
            assert(m@ =~= translate_spec(x as int, y as int, z as int));
        }
        m
    }

    /// The rotation matrix of a quaternion, by the standard
    /// quaternion-to-matrix formula over the components `[q1, q2, q3, s]`.
    pub fn rotate(q: Quaternion) -> (r: Self)
        ensures
            r@ == rotate_spec(q@),
    {
        let q1 = q.data[0];
        let q2 = q.data[1];
        let q3 = q.data[2];
        let s = q.data[3];
        let ss = fx_mul(s, s);
        let q11 = fx_mul(q1, q1);
        let q22 = fx_mul(q2, q2);
        let q33 = fx_mul(q3, q3);
        let e0 = fx_sub(fx_sub(fx_add(ss, q11), q22), q33);
        let t1 = fx_sub(fx_mul(q1, q2), fx_mul(s, q3));
        let t2 = fx_add(fx_mul(s, q2), fx_mul(q1, q3));
        let t4 = fx_add(fx_mul(q1, q2), fx_mul(s, q3));
        let e5 = fx_sub(fx_add(fx_sub(ss, q11), q22), q33);
        let t6 = fx_sub(fx_mul(q2, q3), fx_mul(s, q1));
        let t8 = fx_sub(fx_mul(q1, q3), fx_mul(s, q2));
        let t9 = fx_add(fx_mul(s, q1), fx_mul(q2, q3));
        let e10 = fx_add(fx_sub(fx_sub(ss, q11), q22), q33);
        let m = Matrix4 {
            data: [
                e0, fx_add(t1, t1), fx_add(t2, t2), 0,
                fx_add(t4, t4), e5, fx_add(t6, t6), 0,
                fx_add(t8, t8), fx_add(t9, t9), e10, 0,
                0, 0, 0, FX_ONE,
            ],
        };
        proof {
            assert(m@ =~= rotate_spec(q@));
        }
        m
    }

    /// The matrix scaling each local axis by its own factor.
    pub fn scale(x: i32, y: i32, z: i32) -> (r: Self)
        ensures
            r@ == scale_spec(x as int, y as int, z as int),
    {
        let m = Matrix4 {
            data: [
                x, 0, 0, 0,
                0, y, 0, 0,
                0, 0, z, 0,
                0, 0, 0, FX_ONE,
            ],
        };
        proof {
            assert(m@ =~= scale_spec(x as int, y as int, z as int));
        }
        m
    }

    /// The matrix scaling uniformly along each axis.
    pub fn scale_uniform(scale: i32) -> (r: Self)
        ensures
            r@ == scale_spec(scale as int, scale as int, scale as int),
    {
        Self::scale(scale, scale, scale)
    }

    /// The perspective projection matrix. The focal scale stands in for the
    /// field of view: it is the reciprocal tangent of half the view angle,
    /// which the host computes since it takes trigonometry.
    pub fn perspective(focal: i32, aspect_ratio: i32, near: i32, far: i32) -> (r: Self)
        requires
            aspect_ratio != 0,
            near != far,
        ensures
            r@ == perspective_spec(focal as int, aspect_ratio as int, near as int, far as int),
    {
        let f_over_ar = fx_div(focal, aspect_ratio);
        let ri = fx_div(FX_ONE, fx_sub(near, far));
        let e10 = fx_mul(fx_add(near, far), ri);
        let t = fx_mul(fx_mul(near, far), ri);
        let m = Matrix4 {
            data: [
                f_over_ar, 0, 0, 0,
                0, focal, 0, 0,
                0, 0, e10, -FX_ONE,
                0, 0, fx_add(t, t), 0,
            ],
        };
        proof {
            assert(m@ =~= perspective_spec(focal as int, aspect_ratio as int, near as int,
                far as int));
        }
        m
    }

    /// The view matrix orienting the camera in world space from a position,
    /// an up direction and a forward direction.
    pub fn view(position: Vector3, up: Vector3, forward: Vector3) -> (r: Self)
        ensures
            r@ == view_spec(position@, up@, forward@),
    {
        let right = Vector3::cross(up, forward);
        let np = position.neg();
        let tx = Vector3::dot(right, np);
        let ty = Vector3::dot(up, np);
        let tz = Vector3::dot(forward, np);
        let m = Matrix4 {
            data: [
                right.data[0], up.data[0], forward.data[0], 0,
                right.data[1], up.data[1], forward.data[1], 0,
                right.data[2], up.data[2], forward.data[2], 0,
                tx, ty, tz, FX_ONE,
            ],
        };
        proof {
            assert(m@ =~= view_spec(position@, up@, forward@));
        }
        m
    }

    /// The view matrix from a position, a right direction and a forward
    /// direction, with the up direction completed by a cross product.
    pub fn view_xz(position: Vector3, right: Vector3, forward: Vector3) -> (r: Self)
        ensures
            r@ == view_xz_spec(position@, right@, forward@),
    {
        let up = Vector3::cross(right, forward);
        let np = position.neg();
        let tx = Vector3::dot(right, np);
        let ty = Vector3::dot(up, np);
        let tz = Vector3::dot(forward, np);
        let m = Matrix4 {
            data: [
                right.data[0], up.data[0], forward.data[0], 0,
                right.data[1], up.data[1], forward.data[1], 0,
                right.data[2], up.data[2], forward.data[2], 0,
                tx, ty, tz, FX_ONE,
            ],
        };
        proof {
            assert(m@ =~= view_xz_spec(position@, right@, forward@));
        }
        m
    }

    /// The matrix with columns and rows exchanged.
    pub fn transpose(&self) -> (r: Self)
        ensures
            r@ == transpose_spec(self@),
    {
        let a = &self.data;
        let m = Matrix4 {
            data: [
                a[0], a[4], a[8], a[12],
                a[1], a[5], a[9], a[13],
                a[2], a[6], a[10], a[14],
                a[3], a[7], a[11], a[15],
            ],
        };
        proof {
            assert(m@ =~= transpose_spec(self@));
        }
        m
    }

    /// The element at column `x`, row `y`.
    pub fn get(&self, x: usize, y: usize) -> (r: i32)
        requires
            x < 4,
            y < 4,
        ensures
            r as int == self@[x as int + 4 * y as int],
    {
        self.data[x + 4 * y]
    }

    /// Replace the element at column `x`, row `y`.
    pub fn set(&mut self, x: usize, y: usize, v: i32)
        requires
            x < 4,
            y < 4,
        ensures
            final(self)@ == old(self)@.update(x as int + 4 * y as int, v as int),
    {
        self.data[x + 4 * y] = v;
        proof {
            assert(self@ =~= old(self)@.update(x as int + 4 * y as int, v as int));
        }
    }

    /// The matrix product `self * rhs`: each element dots one of this
    /// matrix's rows against one of the right operand's columns.
    pub fn mul(&self, rhs: &Matrix4) -> (r: Self)
        ensures
            r@ == mat_mul_spec(self@, rhs@),
    {
        let a = &self.data;
        let b = &rhs.data;
        let m = Matrix4 {
            data: [
                dot4(a[0], a[1], a[2], a[3], b[0], b[4], b[8], b[12]),
                dot4(a[0], a[1], a[2], a[3], b[1], b[5], b[9], b[13]),
                dot4(a[0], a[1], a[2], a[3], b[2], b[6], b[10], b[14]),
                dot4(a[0], a[1], a[2], a[3], b[3], b[7], b[11], b[15]),
                dot4(a[4], a[5], a[6], a[7], b[0], b[4], b[8], b[12]),
                dot4(a[4], a[5], a[6], a[7], b[1], b[5], b[9], b[13]),
                dot4(a[4], a[5], a[6], a[7], b[2], b[6], b[10], b[14]),
                dot4(a[4], a[5], a[6], a[7], b[3], b[7], b[11], b[15]),
                dot4(a[8], a[9], a[10], a[11], b[0], b[4], b[8], b[12]),
                dot4(a[8], a[9], a[10], a[11], b[1], b[5], b[9], b[13]),
                dot4(a[8], a[9], a[10], a[11], b[2], b[6], b[10], b[14]),
                dot4(a[8], a[9], a[10], a[11], b[3], b[7], b[11], b[15]),
                dot4(a[12], a[13], a[14], a[15], b[0], b[4], b[8], b[12]),
                dot4(a[12], a[13], a[14], a[15], b[1], b[5], b[9], b[13]),
                dot4(a[12], a[13], a[14], a[15], b[2], b[6], b[10], b[14]),
                dot4(a[12], a[13], a[14], a[15], b[3], b[7], b[11], b[15]),
            ],
        };
        proof {
            assert(m@ =~= mat_mul_spec(self@, rhs@));
        }
        m
    }

    /// Replace this matrix by the product `self * rhs`.
    pub fn mul_assign(&mut self, rhs: &Matrix4)
        ensures
            final(self)@ == mat_mul_spec(old(self)@, rhs@),
    {
        let m = self.mul(rhs);
        self.data = m.data;
    }

    /// The elementwise saturating sum of two matrices.
    pub fn add(&self, rhs: &Matrix4) -> (r: Self)
        ensures
            r@ == mat_add_spec(self@, rhs@),
    {
        let a = &self.data;
        let b = &rhs.data;
        let m = Matrix4 {
            data: [
                fx_add(a[0], b[0]), fx_add(a[1], b[1]), fx_add(a[2], b[2]), fx_add(a[3], b[3]),
                fx_add(a[4], b[4]), fx_add(a[5], b[5]), fx_add(a[6], b[6]), fx_add(a[7], b[7]),
                fx_add(a[8], b[8]), fx_add(a[9], b[9]), fx_add(a[10], b[10]), fx_add(a[11], b[11]),
                fx_add(a[12], b[12]), fx_add(a[13], b[13]), fx_add(a[14], b[14]), fx_add(
                    a[15], b[15]),
            ],
        };
        proof {
            assert(m@ =~= mat_add_spec(self@, rhs@));
        }
        m
    }

    /// Replace this matrix by the elementwise saturating sum.
    pub fn add_assign(&mut self, rhs: &Matrix4)
        ensures
            final(self)@ == mat_add_spec(old(self)@, rhs@),
    {
        let m = self.add(rhs);
        self.data = m.data;
    }
}

/// A well-formed matrix model: sixteen entries, each within the scalar
/// range. The model of every `Matrix4` value is well formed.
pub open spec fn mat_wf(m: Seq<int>) -> bool {
    &&& m.len() == 16
    &&& forall|i: int| 0 <= i < 16 ==> -0x80000000 <= #[trigger] m[i] <= 0x7fffffff
}

/// The model of any matrix value is well formed.
pub proof fn lemma_matrix_view_wf(m: Matrix4)
    ensures
        mat_wf(m@),
{
}

/// Law: the identity matrix is a left unit of matrix multiplication for
/// every well-formed matrix.
#[verifier::rlimit(50)]
pub proof fn lemma_identity_left(m: Seq<int>)
    requires
        mat_wf(m),
    ensures
        mat_mul_spec(identity_spec(), m) == m,
{
    let p = mat_mul_spec(identity_spec(), m);
    assert forall|i: int| 0 <= i < 16 implies p[i] == m[i] by {
        crate::math::fx::lemma_scaled_div(m[i]);
        assert(i == 4 * (i / 4) + i % 4);
    }
    assert(p =~= m);
}

/// Law: the identity matrix is a right unit of matrix multiplication for
/// every well-formed matrix.
#[verifier::rlimit(50)]
pub proof fn lemma_identity_right(m: Seq<int>)
    requires
        mat_wf(m),
    ensures
        mat_mul_spec(m, identity_spec()) == m,
{
    let p = mat_mul_spec(m, identity_spec());
    let idm = identity_spec();
    assert forall|i: int| 0 <= i < 16 implies p[i] == m[i] by {
        let x = i % 4;
        let y = i / 4;
        crate::math::fx::lemma_scaled_div(m[i]);
        assert(i == x + 4 * y);
        assert(p[i] == fx_rescale(
            m[4 * y] * idm[x] + m[4 * y + 1] * idm[x + 4] + m[4 * y + 2] * idm[x + 8] + m[4 * y
                + 3] * idm[x + 12],
        ));
        if x == 0 {
            assert(idm[0] == 65536 && idm[4] == 0 && idm[8] == 0 && idm[12] == 0);
        } else if x == 1 {
            assert(idm[1] == 0 && idm[5] == 65536 && idm[9] == 0 && idm[13] == 0);
        } else if x == 2 {
            assert(idm[2] == 0 && idm[6] == 0 && idm[10] == 65536 && idm[14] == 0);
        } else {
            assert(idm[3] == 0 && idm[7] == 0 && idm[11] == 0 && idm[15] == 65536);
        }
    }
    assert(p =~= m);
}

/// Law: translation matrices compose additively — the product of two
/// translations is the translation by the (saturating) sum of the offsets,
/// exactly, whatever the offsets are.
#[verifier::rlimit(50)]
pub proof fn lemma_translate_compose(ax: int, ay: int, az: int, bx: int, by: int, bz: int)
    ensures
        mat_mul_spec(translate_spec(ax, ay, az), translate_spec(bx, by, bz)) == translate_spec(
            fx_sat(ax + bx),
            fx_sat(ay + by),
            fx_sat(az + bz),
        ),
{
    let p = mat_mul_spec(translate_spec(ax, ay, az), translate_spec(bx, by, bz));
    let t = translate_spec(fx_sat(ax + bx), fx_sat(ay + by), fx_sat(az + bz));
    crate::math::fx::lemma_scaled_div(65536);
    crate::math::fx::lemma_scaled_div(0);
    crate::math::fx::lemma_scaled_div(ax + bx);
    crate::math::fx::lemma_scaled_div(ay + by);
    crate::math::fx::lemma_scaled_div(az + bz);
    assert forall|i: int| 0 <= i < 16 implies p[i] == t[i] by {
        assert(i == 4 * (i / 4) + i % 4);
    }
    assert(p =~= t);
}

impl Default for Matrix4 {
    /// The default matrix is the identity.
    fn default() -> (r: Self)
        ensures
            r@ == identity_spec(),
    {
        Matrix4::identity()
    }
}

} // verus!
