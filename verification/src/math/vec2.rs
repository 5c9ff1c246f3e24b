//! Two-component fixed-point vectors.

use vstd::prelude::*;
use super::fx::{
    FX_ONE, fx_sat, fx_rescale, fx_mul_spec, fx_mul, fx_add, fx_sub, fx_neg, fx_sat32,
    fx_rescale_i128, lemma_mul_i32_bound, lemma_sq_i32_bound, isqrt64,
};

verus! {

/// A vector of two 16.16 fixed-point scalars.
#[derive(Debug, Clone, Copy)]
pub struct Vector2 {
    pub data: [i32; 2],
}

impl View for Vector2 {
    type V = Seq<int>;

    open spec fn view(&self) -> Seq<int> {
        self.data@.map_values(|v: i32| v as int)
    }
}

/// The fixed-point dot product: the raw products are summed exactly, then
/// scaled back down once.
pub open spec fn vec2_dot_spec(a: Seq<int>, b: Seq<int>) -> int {
    fx_rescale(a[0] * b[0] + a[1] * b[1])
}

/// The componentwise saturating sum.
pub open spec fn vec2_add_spec(a: Seq<int>, b: Seq<int>) -> Seq<int> {
    seq![fx_sat(a[0] + b[0]), fx_sat(a[1] + b[1])]
}

/// The componentwise saturating difference.
pub open spec fn vec2_sub_spec(a: Seq<int>, b: Seq<int>) -> Seq<int> {
    seq![fx_sat(a[0] - b[0]), fx_sat(a[1] - b[1])]
}

/// The componentwise saturating negation.
pub open spec fn vec2_neg_spec(a: Seq<int>) -> Seq<int> {
    seq![fx_sat(-a[0]), fx_sat(-a[1])]
}

/// Every component multiplied by one fixed-point scalar.
pub open spec fn vec2_scale_spec(a: Seq<int>, s: int) -> Seq<int> {
    seq![fx_mul_spec(a[0], s), fx_mul_spec(a[1], s)]
}

/// The exact sum of the squared raw components (a doubly-scaled value).
pub open spec fn vec2_sq_sum(a: Seq<int>) -> int {
    a[0] * a[0] + a[1] * a[1]
}

impl Vector2 {
    /// A vector from its two components.
    pub fn new(x: i32, y: i32) -> (r: Self)
        ensures
            r@ == seq![x as int, y as int],
    {
        let r = Vector2 { data: [x, y] };
        proof {
            assert(r@ =~= seq![x as int, y as int]);
        }
        r
    }

    /// The zero vector.
    pub fn zero() -> (r: Self)
        ensures
            r@ == seq![0int, 0int],
    {
        Vector2::new(0, 0)
    }

    /// The unit vector pointing absolute up (`+y`).
    pub fn up() -> (r: Self)
        ensures
            r@ == seq![0int, FX_ONE as int],
    {
        Vector2::new(0, FX_ONE)
    }

    /// The unit vector pointing absolute right (`+x`).
    pub fn right() -> (r: Self)
        ensures
            r@ == seq![FX_ONE as int, 0int],
    {
        Vector2::new(FX_ONE, 0)
    }

    /// The dot product of two vectors.
    pub fn dot(a: Vector2, b: Vector2) -> (r: i32)
        ensures
            r as int == vec2_dot_spec(a@, b@),
    {
        proof {
            lemma_mul_i32_bound(a@[0], b@[0]);
            lemma_mul_i32_bound(a@[1], b@[1]);
        }
        let s: i128 = (a.data[0] as i128) * (b.data[0] as i128)
            + (a.data[1] as i128) * (b.data[1] as i128);
        fx_rescale_i128(s)
    }

    /// The length of the vector: the integer square root of the exact sum of
    /// squares, clamped into the scalar range.
    pub fn magnitude(&self) -> (r: i32)
        ensures
            exists|m: int|
                super::vec3::is_isqrt(m, vec2_sq_sum(self@)) && r as int == fx_sat(m),
    {
        proof {
            lemma_sq_i32_bound(self@[0]);
            lemma_sq_i32_bound(self@[1]);
        }
        let s: i128 = (self.data[0] as i128) * (self.data[0] as i128)
            + (self.data[1] as i128) * (self.data[1] as i128);
        let n: u64 = s as u64;
        let m: u64 = isqrt64(n);
        proof {
            assert((m as int) < 0x100000000int) by (nonlinear_arith)
                requires
                    (m as int) * (m as int) <= n as int,
                    (n as int) < 0x10000000000000000int,
                    m as int >= 0,
            ;
        }
        fx_sat32(m as i64)
    }

    /// The squared length, scaled back down to a 16.16 scalar.
    pub fn sqr_magnitude(&self) -> (r: i32)
        ensures
            r as int == fx_rescale(vec2_sq_sum(self@)),
    {
        proof {
            lemma_sq_i32_bound(self@[0]);
            lemma_sq_i32_bound(self@[1]);
        }
        let s: i128 = (self.data[0] as i128) * (self.data[0] as i128)
            + (self.data[1] as i128) * (self.data[1] as i128);
        fx_rescale_i128(s)
    }

    /// The componentwise saturating sum.
    pub fn add(&self, rhs: &Vector2) -> (r: Self)
        ensures
            r@ == vec2_add_spec(self@, rhs@),
    {
        let r = Vector2 {
            data: [fx_add(self.data[0], rhs.data[0]), fx_add(self.data[1], rhs.data[1])],
        };
        proof {
            assert(r@ =~= vec2_add_spec(self@, rhs@));
        }
        r
    }

    /// The componentwise saturating difference.
    pub fn sub(&self, rhs: &Vector2) -> (r: Self)
        ensures
            r@ == vec2_sub_spec(self@, rhs@),
    {
        let r = Vector2 {
            data: [fx_sub(self.data[0], rhs.data[0]), fx_sub(self.data[1], rhs.data[1])],
        };
        proof {
            assert(r@ =~= vec2_sub_spec(self@, rhs@));
        }
        r
    }

    /// The componentwise saturating negation.
    pub fn neg(&self) -> (r: Self)
        ensures
            r@ == vec2_neg_spec(self@),
    {
        let r = Vector2 { data: [fx_neg(self.data[0]), fx_neg(self.data[1])] };
        proof {
            assert(r@ =~= vec2_neg_spec(self@));
        }
        r
    }

    /// Every component multiplied by one fixed-point scalar.
    pub fn scale(&self, s: i32) -> (r: Self)
        ensures
            r@ == vec2_scale_spec(self@, s as int),
    {
        let r = Vector2 { data: [fx_mul(self.data[0], s), fx_mul(self.data[1], s)] };
        proof {
            assert(r@ =~= vec2_scale_spec(self@, s as int));
        }
        r
    }
}

} // verus!
