//! Fixed-point scalars.
//!
//! Every quantity the pose engine manipulates (seconds, radians, bone
//! offsets, blend weights) is an [`Fx`]: a signed count of millionths.
//! The arithmetic is total: results are clipped to `[-LIM, LIM]`, so a
//! value never overflows and every operation is a pure function of its
//! operands.  Division truncates toward zero, like the machine division
//! it is computed with.

use vstd::prelude::*;

verus! {

/// One whole unit, in millionths.
pub const SCALE: i64 = 1_000_000;

/// Largest magnitude a scalar may carry: twenty million whole units.
pub const LIM: i64 = 20_000_000_000_000;

/// A fixed-point scalar; `v` counts millionths of a unit.
#[derive(Clone, Copy, PartialEq, Eq, Structural, Debug)]
pub struct Fx {
    pub v: i64,
}

/// The number a scalar stands for, in millionths.
pub open spec fn val(a: Fx) -> int {
    a.v as int
}

/// Clipping keeps every result within `[-LIM, LIM]`.
pub open spec fn clip(x: int) -> int {
    if x > LIM as int {
        LIM as int
    } else if x < -(LIM as int) {
        -(LIM as int)
    } else {
        x
    }
}

/// The scalar that stands for `x` millionths, clipped into range.
pub open spec fn fx(x: int) -> Fx {
    Fx { v: clip(x) as i64 }
}

/// Whether a scalar is within the clipped range; every operation
/// and constructor returns such a scalar.
pub open spec fn fx_wf(a: Fx) -> bool {
    -(LIM as int) <= val(a) <= LIM as int
}

/// Division truncating toward zero, for a positive divisor.
pub open spec fn tdiv(p: int, d: int) -> int {
    if p >= 0 {
        p / d
    } else {
        -((-p) / d)
    }
}

pub open spec fn fx_add(a: Fx, b: Fx) -> Fx {
    fx(val(a) + val(b))
}

pub open spec fn fx_sub(a: Fx, b: Fx) -> Fx {
    fx(val(a) - val(b))
}

pub open spec fn fx_neg(a: Fx) -> Fx {
    fx(-val(a))
}

pub open spec fn fx_mul(a: Fx, b: Fx) -> Fx {
    fx(tdiv(val(a) * val(b), SCALE as int))
}

/// Quotient of two scalars; meaningful for a positive divisor.
pub open spec fn fx_div(a: Fx, b: Fx) -> Fx {
    fx(tdiv(val(a) * (SCALE as int), val(b)))
}

pub open spec fn fx_min(a: Fx, b: Fx) -> Fx {
    if val(a) <= val(b) {
        a
    } else {
        b
    }
}

/// Zero whole units.
pub open spec fn fx_zero() -> Fx {
    fx(0)
}

/// One whole unit.
pub open spec fn fx_one() -> Fx {
    fx(SCALE as int)
}

/// The scalar for `u` whole units.
pub open spec fn fx_whole(u: int) -> Fx {
    fx(u * (SCALE as int))
}

/// The scalar for `c` hundredths of a unit.
pub open spec fn fx_cents(c: int) -> Fx {
    fx(c * 10_000)
}

fn clip_exec(x: i128) -> (r: i64)
    ensures
        r as int == clip(x as int),
{
    if x > LIM as i128 {
        LIM
    } else if x < -(LIM as i128) {
        -LIM
    } else {
        x as i64
    }
}

pub(crate) fn tdiv_exec(p: i128, d: i128) -> (r: i128)
    requires
        d > 0,
        -(0x4000_0000_0000_0000_0000_0000_0000_0000 as int) < p as int,
    ensures
        r as int == tdiv(p as int, d as int),
        p >= 0 ==> 0 <= r <= p,
        p < 0 ==> p <= r <= 0,
{
    if p >= 0 {
        let q: u128 = (p as u128) / (d as u128);
        proof {
            assert(q <= p as u128) by (nonlinear_arith)
                requires
                    q == (p as u128) / (d as u128) && d as u128 >= 1,
            ;
        }
        q as i128
    } else {
        let n: i128 = -p;
        let q: u128 = (n as u128) / (d as u128);
        proof {
            assert(q <= n as u128) by (nonlinear_arith)
                requires
                    q == (n as u128) / (d as u128) && d as u128 >= 1,
            ;
        }
        -(q as i128)
    }
}

impl Fx {
    /// The scalar for `u` whole units.
    pub fn whole(u: i64) -> (r: Fx)
        ensures
            r == fx_whole(u as int),
    {
        Fx { v: clip_exec(u as i128 * 1_000_000) }
    }

    /// The scalar for `c` hundredths of a unit.
    pub fn cents(c: i64) -> (r: Fx)
        ensures
            r == fx_cents(c as int),
    {
        Fx { v: clip_exec(c as i128 * 10_000) }
    }

    /// The scalar for `m` millionths of a unit.
    pub fn micros(m: i64) -> (r: Fx)
        ensures
            r == fx(m as int),
    {
        Fx { v: clip_exec(m as i128) }
    }

    pub fn zero() -> (r: Fx)
        ensures
            r == fx_zero(),
    {
        Fx { v: 0 }
    }

    pub fn one() -> (r: Fx)
        ensures
            r == fx_one(),
    {
        Fx { v: SCALE }
    }

    pub fn plus(self, o: Fx) -> (r: Fx)
        ensures
            r == fx_add(self, o),
    {
        Fx { v: clip_exec(self.v as i128 + o.v as i128) }
    }

    pub fn minus(self, o: Fx) -> (r: Fx)
        ensures
            r == fx_sub(self, o),
    {
        Fx { v: clip_exec(self.v as i128 - o.v as i128) }
    }

    pub fn negate(self) -> (r: Fx)
        ensures
            r == fx_neg(self),
    {
        Fx { v: clip_exec(-(self.v as i128)) }
    }

    pub fn times(self, o: Fx) -> (r: Fx)
        ensures
            r == fx_mul(self, o),
    {
        proof {
            assert((self.v as int) * (o.v as int) <= 0x4000_0000_0000_0000_0000_0000_0000_0000
                && -(0x4000_0000_0000_0000_0000_0000_0000_0000) < (self.v as int) * (o.v as int))
                by (nonlinear_arith)
                requires
                    -0x8000_0000_0000_0000 <= self.v as int <= 0x7fff_ffff_ffff_ffff
                        && -0x8000_0000_0000_0000 <= o.v as int <= 0x7fff_ffff_ffff_ffff,
            ;
        }
        let p: i128 = self.v as i128 * o.v as i128;
        Fx { v: clip_exec(tdiv_exec(p, SCALE as i128)) }
    }

    pub fn over(self, o: Fx) -> (r: Fx)
        requires
            val(o) > 0,
        ensures
            r == fx_div(self, o),
    {
        proof {
            assert((self.v as int) * (SCALE as int) <= 0x4000_0000_0000_0000_0000_0000_0000_0000
                && -(0x4000_0000_0000_0000_0000_0000_0000_0000) < (self.v as int) * (
            SCALE as int)) by (nonlinear_arith)
                requires
                    -0x8000_0000_0000_0000 <= self.v as int <= 0x7fff_ffff_ffff_ffff,
            ;
        }
        let p: i128 = self.v as i128 * SCALE as i128;
        Fx { v: clip_exec(tdiv_exec(p, o.v as i128)) }
    }

    pub fn smallest(self, o: Fx) -> (r: Fx)
        ensures
            r == fx_min(self, o),
    {
        if self.v <= o.v {
            self
        } else {
            o
        }
    }

    /// Whether the scalar is within the clipped range; callers outside
    /// verified code can test this before handing a raw value in.
    pub fn in_range(self) -> (b: bool)
        ensures
            b == fx_wf(self),
    {
        -LIM <= self.v && self.v <= LIM
    }
}

/// Multiplying by zero gives zero.
pub proof fn lemma_mul_zero(a: Fx)
    ensures
        fx_mul(a, fx_zero()) == fx_zero(),
        fx_mul(fx_zero(), a) == fx_zero(),
{
    assert(val(fx_zero()) == 0);
    assert(val(a) * 0 == 0) by (nonlinear_arith);
    assert(0 * val(a) == 0) by (nonlinear_arith);
}

/// Adding or subtracting zero keeps a well-formed scalar.
pub proof fn lemma_add_zero(a: Fx)
    requires
        fx_wf(a),
    ensures
        fx_add(a, fx_zero()) == a,
        fx_add(fx_zero(), a) == a,
        fx_sub(a, fx_zero()) == a,
{
}

/// Multiplying a well-formed scalar by one keeps it.
pub proof fn lemma_mul_one(a: Fx)
    requires
        fx_wf(a),
    ensures
        fx_mul(a, fx_one()) == a,
        fx_mul(fx_one(), a) == a,
{
    assert(val(a) * (SCALE as int) == (SCALE as int) * val(a)) by (nonlinear_arith);
    if val(a) >= 0 {
        assert(val(a) * (SCALE as int) / (SCALE as int) == val(a)) by (nonlinear_arith)
            requires
                val(a) >= 0,
        ;
    } else {
        assert((-(val(a) * (SCALE as int))) / (SCALE as int) == -val(a)) by (nonlinear_arith)
            requires
                val(a) < 0,
        ;
    }
}

/// A square is never negative.
pub proof fn lemma_square_nonneg(a: Fx)
    ensures
        val(fx_mul(a, a)) >= 0,
{
    assert(val(a) * val(a) >= 0) by (nonlinear_arith);
}

/// Truncating division by a positive divisor is monotone.
pub proof fn lemma_tdiv_monotone(p1: int, p2: int, d: int)
    requires
        p1 <= p2,
        d > 0,
    ensures
        tdiv(p1, d) <= tdiv(p2, d),
{
    if p1 >= 0 {
        assert(p1 / d <= p2 / d) by (nonlinear_arith)
            requires
                0 <= p1 <= p2 && d > 0,
        ;
    } else if p2 >= 0 {
        assert((-p1) / d >= 0 && p2 / d >= 0) by (nonlinear_arith)
            requires
                p1 < 0 <= p2 && d > 0,
        ;
    } else {
        assert((-p2) / d <= (-p1) / d) by (nonlinear_arith)
            requires
                p1 <= p2 < 0 && d > 0,
        ;
    }
}

/// Multiplication by a fixed non-negative factor is monotone.
pub proof fn lemma_mul_monotone(a1: Fx, a2: Fx, b: Fx)
    requires
        val(a1) <= val(a2),
        val(b) >= 0,
    ensures
        val(fx_mul(a1, b)) <= val(fx_mul(a2, b)),
{
    assert(val(a1) * val(b) <= val(a2) * val(b)) by (nonlinear_arith)
        requires
            val(a1) <= val(a2) && val(b) >= 0,
    ;
    lemma_tdiv_monotone(val(a1) * val(b), val(a2) * val(b), SCALE as int);
}

/// Multiplication of scalars is commutative.
pub proof fn lemma_mul_comm(a: Fx, b: Fx)
    ensures
        fx_mul(a, b) == fx_mul(b, a),
{
    assert(val(a) * val(b) == val(b) * val(a)) by (nonlinear_arith);
}

/// The product of two non-negative scalars is non-negative.
pub proof fn lemma_mul_nonneg(a: Fx, b: Fx)
    requires
        val(a) >= 0,
        val(b) >= 0,
    ensures
        val(fx_mul(a, b)) >= 0,
{
    assert(val(a) * val(b) >= 0) by (nonlinear_arith)
        requires
            val(a) >= 0 && val(b) >= 0,
    ;
}

} // verus!
