//! Three-component fixed-point vectors.

use vstd::prelude::*;
use super::fx::{
    FX_ONE, fx_sat, fx_rescale, fx_mul_spec, fx_div_spec, fx_mul, fx_add, fx_sub, fx_neg, fx_div,
    fx_sat32, fx_rescale_i128, lemma_mul_i32_bound, lemma_sq_i32_bound, isqrt64,
};

verus! {

/// A vector of three 16.16 fixed-point scalars.
#[derive(Debug, Clone, Copy)]
pub struct Vector3 {
    pub data: [i32; 3],
}

impl View for Vector3 {
    type V = Seq<int>;

    open spec fn view(&self) -> Seq<int> {
        self.data@.map_values(|v: i32| v as int)
    }
}

/// The fixed-point dot product: the raw products are summed exactly, then
/// scaled back down once.
pub open spec fn vec3_dot_spec(a: Seq<int>, b: Seq<int>) -> int {
    fx_rescale(a[0] * b[0] + a[1] * b[1] + a[2] * b[2])
}

/// The fixed-point cross product, componentwise saturating.
pub open spec fn vec3_cross_spec(a: Seq<int>, b: Seq<int>) -> Seq<int> {
    seq![
        fx_sat(fx_mul_spec(a[1], b[2]) - fx_mul_spec(a[2], b[1])),
        fx_sat(fx_mul_spec(a[2], b[0]) - fx_mul_spec(a[0], b[2])),
        fx_sat(fx_mul_spec(a[0], b[1]) - fx_mul_spec(a[1], b[0])),
    ]
}

/// The componentwise saturating sum.
pub open spec fn vec3_add_spec(a: Seq<int>, b: Seq<int>) -> Seq<int> {
    seq![fx_sat(a[0] + b[0]), fx_sat(a[1] + b[1]), fx_sat(a[2] + b[2])]
}

/// The componentwise saturating difference.
pub open spec fn vec3_sub_spec(a: Seq<int>, b: Seq<int>) -> Seq<int> {
    seq![fx_sat(a[0] - b[0]), fx_sat(a[1] - b[1]), fx_sat(a[2] - b[2])]
}

/// The componentwise saturating negation.
pub open spec fn vec3_neg_spec(a: Seq<int>) -> Seq<int> {
    seq![fx_sat(-a[0]), fx_sat(-a[1]), fx_sat(-a[2])]
}

/// Every component multiplied by one fixed-point scalar.
pub open spec fn vec3_scale_spec(a: Seq<int>, s: int) -> Seq<int> {
    seq![fx_mul_spec(a[0], s), fx_mul_spec(a[1], s), fx_mul_spec(a[2], s)]
}

/// The exact sum of the squared raw components (a doubly-scaled value).
pub open spec fn vec3_sq_sum(a: Seq<int>) -> int {
    a[0] * a[0] + a[1] * a[1] + a[2] * a[2]
}

/// `m` is the integer square root of `s`.
pub open spec fn is_isqrt(m: int, s: int) -> bool {
    0 <= m && m * m <= s && s < (m + 1) * (m + 1)
}

impl Vector3 {
    /// A vector from its three components.
    pub fn new(x: i32, y: i32, z: i32) -> (r: Self)
        ensures
            r@ == seq![x as int, y as int, z as int],
    {
        let r = Vector3 { data: [x, y, z] };
        proof {
            assert(r@ =~= seq![x as int, y as int, z as int]);
        }
        r
    }

    /// The zero vector.
    pub fn zero() -> (r: Self)
        ensures
            r@ == seq![0int, 0int, 0int],
    {
        Vector3::new(0, 0, 0)
    }

    /// The unit vector pointing to absolute forward (`+z`).
    pub fn forward() -> (r: Self)
        ensures
            r@ == seq![0int, 0int, FX_ONE as int],
    {
        Vector3::new(0, 0, FX_ONE)
    }

    /// The unit vector pointing to absolute right (`+x`).
    pub fn right() -> (r: Self)
        ensures
            r@ == seq![FX_ONE as int, 0int, 0int],
    {
        Vector3::new(FX_ONE, 0, 0)
    }

    /// The unit vector pointing to absolute up (`+y`).
    pub fn up() -> (r: Self)
        ensures
            r@ == seq![0int, FX_ONE as int, 0int],
    {
        Vector3::new(0, FX_ONE, 0)
    }

    /// The dot product of two vectors.
    pub fn dot(a: Vector3, b: Vector3) -> (r: i32)
        ensures
            r as int == vec3_dot_spec(a@, b@),
    {
        proof {
            lemma_mul_i32_bound(a@[0], b@[0]);
            lemma_mul_i32_bound(a@[1], b@[1]);
            lemma_mul_i32_bound(a@[2], b@[2]);
        }
        let s: i128 = (a.data[0] as i128) * (b.data[0] as i128)
            + (a.data[1] as i128) * (b.data[1] as i128)
            + (a.data[2] as i128) * (b.data[2] as i128);
        fx_rescale_i128(s)
    }

    /// The cross product of two vectors: perpendicular to the plane that the
    /// operands span.
    pub fn cross(a: Vector3, b: Vector3) -> (r: Self)
        ensures
            r@ == vec3_cross_spec(a@, b@),
    {
        let r = Vector3 {
            data: [
                fx_sub(fx_mul(a.data[1], b.data[2]), fx_mul(a.data[2], b.data[1])),
                fx_sub(fx_mul(a.data[2], b.data[0]), fx_mul(a.data[0], b.data[2])),
                fx_sub(fx_mul(a.data[0], b.data[1]), fx_mul(a.data[1], b.data[0])),
            ],
        };
        proof {
            assert(r@ =~= vec3_cross_spec(a@, b@));
        }
        r
    }

    /// The length of the vector: the integer square root of the exact sum of
    /// squares, clamped into the scalar range.
    pub fn magnitude(&self) -> (r: i32)
        ensures
            exists|m: int| is_isqrt(m, vec3_sq_sum(self@)) && r as int == fx_sat(m),
    {
        proof {
            lemma_sq_i32_bound(self@[0]);
            lemma_sq_i32_bound(self@[1]);
            lemma_sq_i32_bound(self@[2]);
        }
        let s: i128 = (self.data[0] as i128) * (self.data[0] as i128)
            + (self.data[1] as i128) * (self.data[1] as i128)
            + (self.data[2] as i128) * (self.data[2] as i128);
        let n: u64 = s as u64;
        let m: u64 = isqrt64(n);
        proof {
            assert((m as int) < 0x100000000int) by (nonlinear_arith)
                requires
                    (m as int) * (m as int) <= n as int,
                    (n as int) < 0x10000000000000000int,
                    m as int >= 0,
            ;
        }
        let r = fx_sat32(m as i64);
        proof {
            assert(is_isqrt(m as int, vec3_sq_sum(self@)));
        }
        r
    }

    /// The squared length, scaled back down to a 16.16 scalar.
    pub fn sqr_magnitude(&self) -> (r: i32)
        ensures
            r as int == fx_rescale(vec3_sq_sum(self@)),
    {
        proof {
            lemma_sq_i32_bound(self@[0]);
            lemma_sq_i32_bound(self@[1]);
            lemma_sq_i32_bound(self@[2]);
        }
        let s: i128 = (self.data[0] as i128) * (self.data[0] as i128)
            + (self.data[1] as i128) * (self.data[1] as i128)
            + (self.data[2] as i128) * (self.data[2] as i128);
        fx_rescale_i128(s)
    }

    /// A vector of the same direction scaled by the reciprocal of the length;
    /// a vector of length zero is returned unchanged.
    pub fn normalize(&self) -> (r: Self)
        ensures
            exists|m: int|
                is_isqrt(m, vec3_sq_sum(self@)) && r@ == (if fx_sat(m) == 0 {
                    self@
                } else {
                    vec3_scale_spec(self@, fx_div_spec(FX_ONE as int, fx_sat(m)))
                }),
    {
        let mag: i32 = self.magnitude();
        if mag != 0 {
            let recip: i32 = fx_div(FX_ONE, mag);
            let r = Vector3 {
                data: [
                    fx_mul(self.data[0], recip),
                    fx_mul(self.data[1], recip),
                    fx_mul(self.data[2], recip),
                ],
            };
            proof {
                assert(r@ =~= vec3_scale_spec(self@, recip as int));
            }
            r
        } else {
            *self
        }
    }

    /// The componentwise saturating sum.
    pub fn add(&self, rhs: &Vector3) -> (r: Self)
        ensures
            r@ == vec3_add_spec(self@, rhs@),
    {
        let r = Vector3 {
            data: [
                fx_add(self.data[0], rhs.data[0]),
                fx_add(self.data[1], rhs.data[1]),
                fx_add(self.data[2], rhs.data[2]),
            ],
        };
        proof {
            assert(r@ =~= vec3_add_spec(self@, rhs@));
        }
        r
    }

    /// The componentwise saturating difference.
    pub fn sub(&self, rhs: &Vector3) -> (r: Self)
        ensures
            r@ == vec3_sub_spec(self@, rhs@),
    {
        let r = Vector3 {
            data: [
                fx_sub(self.data[0], rhs.data[0]),
                fx_sub(self.data[1], rhs.data[1]),
                fx_sub(self.data[2], rhs.data[2]),
            ],
        };
        proof {
            assert(r@ =~= vec3_sub_spec(self@, rhs@));
        }
        r
    }

    /// The componentwise saturating negation.
    pub fn neg(&self) -> (r: Self)
        ensures
            r@ == vec3_neg_spec(self@),
    {
        let r = Vector3 {
            data: [fx_neg(self.data[0]), fx_neg(self.data[1]), fx_neg(self.data[2])],
        };
        proof {
            assert(r@ =~= vec3_neg_spec(self@));
        }
        r
    }

    /// Every component multiplied by one fixed-point scalar.
    pub fn scale(&self, s: i32) -> (r: Self)
        ensures
            r@ == vec3_scale_spec(self@, s as int),
    {
        let r = Vector3 {
            data: [fx_mul(self.data[0], s), fx_mul(self.data[1], s), fx_mul(self.data[2], s)],
        };
        proof {
            assert(r@ =~= vec3_scale_spec(self@, s as int));
        }
        r
    }
}

impl Default for Vector3 {
    /// The default vector is the zero vector.
    fn default() -> (r: Self)
        ensures
            r@ == seq![0int, 0int, 0int],
    {
        Vector3::zero()
    }
}

} // verus!
