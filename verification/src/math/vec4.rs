//! Four-component fixed-point vectors (homogeneous coordinates).

use vstd::prelude::*;
use super::fx::{
    FX_ONE, fx_sat, fx_rescale, fx_mul_spec, fx_div_spec, fx_mul, fx_add, fx_sub, fx_neg, fx_div,
    fx_sat32, fx_rescale_i128, lemma_sq_i32_bound, isqrt64,
};
use super::vec3::is_isqrt;

verus! {

/// A vector of four 16.16 fixed-point scalars.
#[derive(Debug, Clone, Copy)]
pub struct Vector4 {
    pub data: [i32; 4],
}

impl View for Vector4 {
    type V = Seq<int>;

    open spec fn view(&self) -> Seq<int> {
        self.data@.map_values(|v: i32| v as int)
    }
}

/// The componentwise saturating sum.
pub open spec fn vec4_add_spec(a: Seq<int>, b: Seq<int>) -> Seq<int> {
    seq![fx_sat(a[0] + b[0]), fx_sat(a[1] + b[1]), fx_sat(a[2] + b[2]), fx_sat(a[3] + b[3])]
}

/// The componentwise saturating difference.
pub open spec fn vec4_sub_spec(a: Seq<int>, b: Seq<int>) -> Seq<int> {
    seq![fx_sat(a[0] - b[0]), fx_sat(a[1] - b[1]), fx_sat(a[2] - b[2]), fx_sat(a[3] - b[3])]
}

/// The componentwise saturating negation.
pub open spec fn vec4_neg_spec(a: Seq<int>) -> Seq<int> {
    seq![fx_sat(-a[0]), fx_sat(-a[1]), fx_sat(-a[2]), fx_sat(-a[3])]
}

/// Every component multiplied by one fixed-point scalar.
pub open spec fn vec4_scale_spec(a: Seq<int>, s: int) -> Seq<int> {
    seq![fx_mul_spec(a[0], s), fx_mul_spec(a[1], s), fx_mul_spec(a[2], s), fx_mul_spec(a[3], s)]
}

/// The exact sum of the squared raw components (a doubly-scaled value).
pub open spec fn vec4_sq_sum(a: Seq<int>) -> int {
    a[0] * a[0] + a[1] * a[1] + a[2] * a[2] + a[3] * a[3]
}

impl Vector4 {
    /// A vector from its four components.
    pub fn new(x: i32, y: i32, z: i32, w: i32) -> (r: Self)
        ensures
            r@ == seq![x as int, y as int, z as int, w as int],
    {
        let r = Vector4 { data: [x, y, z, w] };
        proof {
            assert(r@ =~= seq![x as int, y as int, z as int, w as int]);
        }
        r
    }

    /// The zero direction.
    pub fn zero() -> (r: Self)
        ensures
            r@ == seq![0int, 0int, 0int, 0int],
    {
        Vector4::new(0, 0, 0, 0)
    }

    /// The origin as a point: zero position, unit weight.
    pub fn zero_point() -> (r: Self)
        ensures
            r@ == seq![0int, 0int, 0int, FX_ONE as int],
    {
        Vector4::new(0, 0, 0, FX_ONE)
    }

    /// The unit direction pointing to absolute forward (`+z`).
    pub fn forward() -> (r: Self)
        ensures
            r@ == seq![0int, 0int, FX_ONE as int, 0int],
    {
        Vector4::new(0, 0, FX_ONE, 0)
    }

    /// The unit direction pointing to absolute right (`+x`).
    pub fn right() -> (r: Self)
        ensures
            r@ == seq![FX_ONE as int, 0int, 0int, 0int],
    {
        Vector4::new(FX_ONE, 0, 0, 0)
    }

    /// The unit direction pointing to absolute up (`+y`).
    pub fn up() -> (r: Self)
        ensures
            r@ == seq![0int, FX_ONE as int, 0int, 0int],
    {
        Vector4::new(0, FX_ONE, 0, 0)
    }

    /// The length of the vector: the integer square root of the exact sum of
    /// squares, clamped into the scalar range.
    pub fn magnitude(&self) -> (r: i32)
        ensures
            exists|m: int| is_isqrt(m, vec4_sq_sum(self@)) && r as int == fx_sat(m),
    {
        proof {
            lemma_sq_i32_bound(self@[0]);
            lemma_sq_i32_bound(self@[1]);
            lemma_sq_i32_bound(self@[2]);
            lemma_sq_i32_bound(self@[3]);
        }
        let s: i128 = (self.data[0] as i128) * (self.data[0] as i128)
            + (self.data[1] as i128) * (self.data[1] as i128)
            + (self.data[2] as i128) * (self.data[2] as i128)
            + (self.data[3] as i128) * (self.data[3] as i128);
        if s > 0xffffffffffffffffi128 {
            // Only the extreme corner where every component is the most
            // negative scalar sums to one more than the widest square root
            // argument; its root is exactly 2^32, far beyond the scalar range.
            proof {
                assert(is_isqrt(0x100000000, s as int) && fx_sat(0x100000000) == 0x7fffffff)
                    by (nonlinear_arith)
                    requires
                        0xffffffffffffffffi128 < s as int <= 0x10000000000000000int,
                ;
            }
            i32::MAX
        } else {
            let n: u64 = s as u64;
            let m: u64 = isqrt64(n);
            proof {
                assert((m as int) < 0x100000000int) by (nonlinear_arith)
                    requires
                        (m as int) * (m as int) <= n as int,
                        (n as int) < 0x10000000000000000int,
                        m as int >= 0,
                ;
            }
            fx_sat32(m as i64)
        }
    }

    /// The squared length, scaled back down to a 16.16 scalar.
    pub fn sqr_magnitude(&self) -> (r: i32)
        ensures
            r as int == fx_rescale(vec4_sq_sum(self@)),
    {
        proof {
            lemma_sq_i32_bound(self@[0]);
            lemma_sq_i32_bound(self@[1]);
            lemma_sq_i32_bound(self@[2]);
            lemma_sq_i32_bound(self@[3]);
        }
        let s: i128 = (self.data[0] as i128) * (self.data[0] as i128)
            + (self.data[1] as i128) * (self.data[1] as i128)
            + (self.data[2] as i128) * (self.data[2] as i128)
            + (self.data[3] as i128) * (self.data[3] as i128);
        fx_rescale_i128(s)
    }

    /// A vector of the same direction scaled by the reciprocal of the
    /// length; a vector of length zero is returned unchanged.
    pub fn normalize(&self) -> (r: Self)
        ensures
            exists|m: int|
                is_isqrt(m, vec4_sq_sum(self@)) && r@ == (if fx_sat(m) == 0 {
                    self@
                } else {
                    vec4_scale_spec(self@, fx_div_spec(FX_ONE as int, fx_sat(m)))
                }),
    {
        let mag: i32 = self.magnitude();
        if mag != 0 {
            let recip: i32 = fx_div(FX_ONE, mag);
            let r = Vector4 {
                data: [
                    fx_mul(self.data[0], recip),
                    fx_mul(self.data[1], recip),
                    fx_mul(self.data[2], recip),
                    fx_mul(self.data[3], recip),
                ],
            };
            proof {
                assert(r@ =~= vec4_scale_spec(self@, recip as int));
            }
            r
        } else {
            *self
        }
    }

    /// The componentwise saturating sum.
    pub fn add(&self, rhs: &Vector4) -> (r: Self)
        ensures
            r@ == vec4_add_spec(self@, rhs@),
    {
        let r = Vector4 {
            data: [
                fx_add(self.data[0], rhs.data[0]),
                fx_add(self.data[1], rhs.data[1]),
                fx_add(self.data[2], rhs.data[2]),
                fx_add(self.data[3], rhs.data[3]),
            ],
        };
        proof {
            assert(r@ =~= vec4_add_spec(self@, rhs@));
        }
        r
    }

    /// The componentwise saturating difference.
    pub fn sub(&self, rhs: &Vector4) -> (r: Self)
        ensures
            r@ == vec4_sub_spec(self@, rhs@),
    {
        let r = Vector4 {
            data: [
                fx_sub(self.data[0], rhs.data[0]),
                fx_sub(self.data[1], rhs.data[1]),
                fx_sub(self.data[2], rhs.data[2]),
                fx_sub(self.data[3], rhs.data[3]),
            ],
        };
        proof {
            assert(r@ =~= vec4_sub_spec(self@, rhs@));
        }
        r
    }

    /// The componentwise saturating negation.
    pub fn neg(&self) -> (r: Self)
        ensures
            r@ == vec4_neg_spec(self@),
    {
        let r = Vector4 {
            data: [
                fx_neg(self.data[0]),
                fx_neg(self.data[1]),
                fx_neg(self.data[2]),
                fx_neg(self.data[3]),
            ],
        };
        proof {
            assert(r@ =~= vec4_neg_spec(self@));
        }
        r
    }

    /// Every component multiplied by one fixed-point scalar.
    pub fn scale(&self, s: i32) -> (r: Self)
        ensures
            r@ == vec4_scale_spec(self@, s as int),
    {
        let r = Vector4 {
            data: [
                fx_mul(self.data[0], s),
                fx_mul(self.data[1], s),
                fx_mul(self.data[2], s),
                fx_mul(self.data[3], s),
            ],
        };
        proof {
            assert(r@ =~= vec4_scale_spec(self@, s as int));
        }
        r
    }
}

} // verus!
