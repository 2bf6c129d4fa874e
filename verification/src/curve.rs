//! The shaping-curve library: the small pure functions every pose
//! program is built from.
//!
//! `fx_sqrt` and `fx_root5` are exact integer roots of the scaled value,
//! so the fractional powers the programs use — `t^(1/4)` as a double
//! square root, `t^(2/5)` and `t^(1/10)` through the fifth root — are
//! deterministic and total.  Negative inputs are clamped to zero before
//! any fractional power, as the engine's numeric invariant demands.
//! `fx_sin` reduces its argument to one period and applies a fixed
//! rational approximation, odd and periodic by construction.

use vstd::prelude::*;

use crate::fixed::{fx, fx_add, fx_div, fx_mul, fx_neg, fx_sub, fx_whole, fx_zero, val, Fx, SCALE};

verus! {

/// The integer square root: the largest `r` with `r * r <= n`.
pub open spec fn nat_sqrt(n: nat) -> nat
    decreases n,
{
    if n == 0 {
        0
    } else {
        let r = nat_sqrt((n - 1) as nat);
        if (r + 1) * (r + 1) <= n {
            r + 1
        } else {
            r
        }
    }
}

pub proof fn lemma_nat_sqrt(n: nat)
    ensures
        nat_sqrt(n) * nat_sqrt(n) <= n,
        n < (nat_sqrt(n) + 1) * (nat_sqrt(n) + 1),
    decreases n,
{
    if n > 0 {
        lemma_nat_sqrt((n - 1) as nat);
        let r = nat_sqrt((n - 1) as nat);
        if (r + 1) * (r + 1) <= n {
            assert(nat_sqrt(n) == r + 1);
            assert(n < ((r + 1) + 1) * ((r + 1) + 1)) by (nonlinear_arith)
                requires
                    (n - 1) < (r + 1) * (r + 1),
            ;
            assert(n < (nat_sqrt(n) + 1) * (nat_sqrt(n) + 1)) by (nonlinear_arith)
                requires
                    nat_sqrt(n) == r + 1 && n < ((r + 1) + 1) * ((r + 1) + 1),
            ;
        } else {
            assert(nat_sqrt(n) == r);
            assert(n < (nat_sqrt(n) + 1) * (nat_sqrt(n) + 1)) by (nonlinear_arith)
                requires
                    nat_sqrt(n) == r && !((r + 1) * (r + 1) <= n),
            ;
        }
    } else {
        assert(nat_sqrt(n) == 0);
        assert(n < (nat_sqrt(n) + 1) * (nat_sqrt(n) + 1)) by (nonlinear_arith)
            requires
                nat_sqrt(n) == 0 && n == 0,
        ;
    }
}

pub proof fn lemma_nat_sqrt_unique(n: nat, r: nat)
    requires
        r * r <= n,
        n < (r + 1) * (r + 1),
    ensures
        r == nat_sqrt(n),
{
    lemma_nat_sqrt(n);
    let s = nat_sqrt(n);
    if r < s {
        assert((r + 1) * (r + 1) <= s * s) by (nonlinear_arith)
            requires
                r + 1 <= s,
        ;
    }
    if s < r {
        assert((s + 1) * (s + 1) <= r * r) by (nonlinear_arith)
            requires
                s + 1 <= r,
        ;
    }
}

/// The fifth power, for root bracketing.
pub open spec fn pow5(r: nat) -> nat {
    r * r * r * r * r
}

/// The integer fifth root: the largest `r` with `r^5 <= n`.
pub open spec fn nat_root5(n: nat) -> nat
    decreases n,
{
    if n == 0 {
        0
    } else {
        let r = nat_root5((n - 1) as nat);
        if pow5(r + 1) <= n {
            r + 1
        } else {
            r
        }
    }
}

pub proof fn lemma_nat_root5(n: nat)
    ensures
        pow5(nat_root5(n)) <= n,
        n < pow5(nat_root5(n) + 1),
    decreases n,
{
    if n > 0 {
        lemma_nat_root5((n - 1) as nat);
        let r = nat_root5((n - 1) as nat);
        if pow5(r + 1) <= n {
            assert(nat_root5(n) == r + 1);
            assert(n < pow5((r + 1) + 1)) by (nonlinear_arith)
                requires
                    (n - 1) < pow5(r + 1) && pow5(r + 1) == (r + 1) * (r + 1) * (r + 1) * (r + 1)
                        * (r + 1) && pow5((r + 1) + 1) == ((r + 1) + 1) * ((r + 1) + 1) * ((r + 1)
                        + 1) * ((r + 1) + 1) * ((r + 1) + 1),
            ;
        } else {
            assert(nat_root5(n) == r);
        }
    } else {
        assert(nat_root5(n) == 0);
        assert(pow5(0) == 0);
        assert(pow5(1) == 1);
    }
}

pub proof fn lemma_pow5_increases(a: nat, b: nat)
    requires
        a < b,
    ensures
        pow5(a) < pow5(b),
{
    assert(a * a * a * a * a < b * b * b * b * b) by (nonlinear_arith)
        requires
            a < b,
    ;
}

pub proof fn lemma_nat_root5_unique(n: nat, r: nat)
    requires
        pow5(r) <= n,
        n < pow5(r + 1),
    ensures
        r == nat_root5(n),
{
    lemma_nat_root5(n);
    let s = nat_root5(n);
    if r < s {
        lemma_pow5_increases(r + 1, s + 1);
        assert(pow5(r + 1) <= pow5(s)) by {
            if r + 1 < s {
                lemma_pow5_increases(r + 1, s);
            }
        }
    }
    if s < r {
        assert(pow5(s + 1) <= pow5(r)) by {
            if s + 1 < r {
                lemma_pow5_increases(s + 1, r);
            }
        }
    }
}

/// Binary search for the integer square root.
fn isqrt(n: u128) -> (r: u64)
    requires
        n < 49_000_000_000_000_000_000,
    ensures
        r as nat == nat_sqrt(n as nat),
        r < 7_000_000_000,
{
    let mut lo: u64 = 0;
    let mut hi: u64 = 7_000_000_000;
    while lo + 1 < hi
        invariant
            lo < hi <= 7_000_000_000,
            (lo as nat) * (lo as nat) <= n as nat,
            (n as nat) < (hi as nat) * (hi as nat),
        decreases hi - lo,
    {
        let mid: u64 = lo + (hi - lo) / 2;
        proof {
            assert((mid as int) * (mid as int) <= 49_000_000_000_000_000_000) by (nonlinear_arith)
                requires
                    0 <= mid as int <= 7_000_000_000,
            ;
        }
        if (mid as u128) * (mid as u128) <= n {
            lo = mid;
        } else {
            hi = mid;
        }
    }
    proof {
        lemma_nat_sqrt_unique(n as nat, lo as nat);
    }
    lo
}

/// Binary search for the integer fifth root.
fn iroot5(n: u128) -> (r: u64)
    requires
        n < 102_400_000_000_000_000_000_000_000_000_000_000_000,
    ensures
        r as nat == nat_root5(n as nat),
        r < 40_000_000,
{
    let mut lo: u64 = 0;
    let mut hi: u64 = 40_000_000;
    proof {
        assert(pow5(40_000_000) == 102_400_000_000_000_000_000_000_000_000_000_000_000);
    }
    while lo + 1 < hi
        invariant
            lo < hi <= 40_000_000,
            pow5(lo as nat) <= n as nat,
            (n as nat) < pow5(hi as nat),
        decreases hi - lo,
    {
        let mid: u64 = lo + (hi - lo) / 2;
        let m: u128 = mid as u128;
        proof {
            assert((m as int) * (m as int) <= 1_600_000_000_000_000) by (nonlinear_arith)
                requires
                    0 <= m as int <= 40_000_000,
            ;
        }
        let m2: u128 = m * m;
        proof {
            assert((m2 as int) * (m2 as int) <= 2_560_000_000_000_000_000_000_000_000_000)
                by (nonlinear_arith)
                requires
                    0 <= m2 as int <= 1_600_000_000_000_000,
            ;
        }
        let m4: u128 = m2 * m2;
        proof {
            assert((m4 as int) * (m as int) <= 102_400_000_000_000_000_000_000_000_000_000_000_000)
                by (nonlinear_arith)
                requires
                    0 <= m4 as int <= 2_560_000_000_000_000_000_000_000_000_000 && 0 <= m as int
                        <= 40_000_000,
            ;
        }
        let m5: u128 = m4 * m;
        proof {
            assert(m5 as nat == pow5(mid as nat)) by (nonlinear_arith)
                requires
                    m as nat == mid as nat && m2 as nat == (m as nat) * (m as nat) && m4 as nat == (
                    m2 as nat) * (m2 as nat) && m5 as nat == (m4 as nat) * (m as nat) && pow5(
                        mid as nat,
                    ) == (mid as nat) * (mid as nat) * (mid as nat) * (mid as nat) * (mid as nat),
            ;
        }
        if m5 <= n {
            lo = mid;
        } else {
            hi = mid;
        }
    }
    proof {
        lemma_nat_root5_unique(n as nat, lo as nat);
    }
    lo
}

/// The square root of a scalar, clamped below at zero:
/// `fx_sqrt(x)` stands for `sqrt(max(x, 0))`.
pub open spec fn fx_sqrt(x: Fx) -> Fx {
    if val(x) <= 0 {
        fx_zero()
    } else {
        fx(nat_sqrt((val(x) * (SCALE as int)) as nat) as int)
    }
}

/// The fifth root of a scalar, clamped below at zero:
/// `fx_root5(x)` stands for `(max(x, 0))^(1/5)`.
pub open spec fn fx_root5(x: Fx) -> Fx {
    if val(x) <= 0 {
        fx_zero()
    } else {
        fx(nat_root5((val(x) * 1_000_000_000_000_000_000_000_000) as nat) as int)
    }
}

impl Fx {
    /// Square root, clamped below at zero.
    pub fn sqrt(self) -> (r: Fx)
        requires
            crate::fixed::fx_wf(self),
        ensures
            r == fx_sqrt(self),
    {
        if self.v <= 0 {
            Fx::zero()
        } else {
            let n: u128 = (self.v as u128) * 1_000_000;
            let r: u64 = isqrt(n);
            Fx { v: r as i64 }
        }
    }

    /// Fifth root, clamped below at zero.
    pub fn root5(self) -> (r: Fx)
        requires
            crate::fixed::fx_wf(self),
        ensures
            r == fx_root5(self),
    {
        if self.v <= 0 {
            Fx::zero()
        } else {
            let n: u128 = (self.v as u128) * 1_000_000_000_000_000_000_000_000;
            let r: u64 = iroot5(n);
            Fx { v: r as i64 }
        }
    }
}

/// The quarter power `t^(1/4)`: a double square root.
pub open spec fn ease_quarter(t: Fx) -> Fx {
    fx_sqrt(fx_sqrt(t))
}

/// The fourth power `t^4`.
pub open spec fn ease_pow4(t: Fx) -> Fx {
    fx_mul(fx_mul(t, t), fx_mul(t, t))
}

/// The tenth power root `t^(1/10)`: the fifth root of the square root.
pub open spec fn ease_tenth(t: Fx) -> Fx {
    fx_root5(fx_sqrt(t))
}

/// The two-fifths power `t^(2/5)`: the fifth root of the square.
pub open spec fn pow_two_fifths(t: Fx) -> Fx {
    fx_root5(fx_mul(t, t))
}

pub fn ease_quarter_exec(t: Fx) -> (r: Fx)
    requires
        crate::fixed::fx_wf(t),
    ensures
        r == ease_quarter(t),
{
    t.sqrt().sqrt()
}

pub fn ease_pow4_exec(t: Fx) -> (r: Fx)
    ensures
        r == ease_pow4(t),
{
    let s: Fx = t.times(t);
    s.times(s)
}

pub fn ease_tenth_exec(t: Fx) -> (r: Fx)
    requires
        crate::fixed::fx_wf(t),
    ensures
        r == ease_tenth(t),
{
    t.sqrt().root5()
}

pub fn pow_two_fifths_exec(t: Fx) -> (r: Fx)
    ensures
        r == pow_two_fifths(t),
{
    t.times(t).root5()
}

/// Half a turn, in millionths of a radian.
pub const PI_MICROS: i64 = 3_141_593;

/// A full turn, in millionths of a radian.
pub const TWO_PI_MICROS: i64 = 6_283_185;

/// Half a turn as a scalar.
pub open spec fn fx_pi() -> Fx {
    fx(PI_MICROS as int)
}

/// The argument reduced to `[0, 2*pi)`.
pub open spec fn sin_reduce(x: Fx) -> int {
    let m = val(x) % (TWO_PI_MICROS as int);
    m
}

/// The rational half-wave approximation on `[0, pi]`.
pub open spec fn sin_wave(z: Fx) -> Fx {
    let w = fx_mul(z, fx_sub(fx_pi(), z));
    let num = fx_mul(fx_whole(16), w);
    let den = fx_sub(fx_mul(fx_whole(5), fx_mul(fx_pi(), fx_pi())), fx_mul(fx_whole(4), w));
    fx_div(num, den)
}

/// The sine of a scalar argument in radians: periodic, odd about the
/// half turn, and a pure function of the reduced argument.
pub open spec fn fx_sin(x: Fx) -> Fx {
    let m = sin_reduce(x);
    if m <= PI_MICROS as int {
        sin_wave(Fx { v: m as i64 })
    } else {
        fx_neg(sin_wave(Fx { v: (m - PI_MICROS as int) as i64 }))
    }
}

#[verifier::rlimit(50)]
fn sin_wave_exec(z: Fx) -> (r: Fx)
    requires
        0 <= z.v <= PI_MICROS,
    ensures
        r == sin_wave(z),
{
    let w: Fx = z.times(Fx { v: PI_MICROS }.minus(z));
    proof {
        assert(val(fx_sub(fx_pi(), z)) == PI_MICROS as int - val(z));
        assert(val(z) * (PI_MICROS as int - val(z)) <= 2_467_402_000_000) by (nonlinear_arith)
            requires
                0 <= val(z) <= PI_MICROS as int,
        ;
        assert(val(z) * (PI_MICROS as int - val(z)) >= 0) by (nonlinear_arith)
            requires
                0 <= val(z) <= PI_MICROS as int,
        ;
        crate::fixed::lemma_tdiv_monotone(0, val(z) * (PI_MICROS as int - val(z)), SCALE as int);
        crate::fixed::lemma_tdiv_monotone(
            val(z) * (PI_MICROS as int - val(z)),
            2_467_402_000_000,
            SCALE as int,
        );
        assert(0 <= val(w) <= 2_467_402);
    }
    let num: Fx = Fx::whole(16).times(w);
    let den: Fx = Fx::whole(5).times(Fx { v: PI_MICROS }.times(Fx { v: PI_MICROS })).minus(
        Fx::whole(4).times(w),
    );
    proof {
        let pp = fx_mul(fx_pi(), fx_pi());
        assert(val(pp) == 9_869_606);
        let a = fx_mul(fx_whole(5), pp);
        assert(val(fx_whole(5)) == 5_000_000);
        assert(val(fx_whole(5)) * val(pp) == 49_348_030_000_000) by (nonlinear_arith)
            requires
                val(fx_whole(5)) == 5_000_000 && val(pp) == 9_869_606,
        ;
        assert(val(a) == 49_348_030);
        assert(4_000_000 * val(w) <= 9_869_608_000_000);
        assert(0 <= 4_000_000 * val(w));
        crate::fixed::lemma_tdiv_monotone(0, 4_000_000 * val(w), SCALE as int);
        crate::fixed::lemma_tdiv_monotone(4_000_000 * val(w), 9_869_608_000_000, SCALE as int);
        assert(0 <= val(fx_mul(fx_whole(4), w)) <= 9_869_608);
        assert(val(den) > 0);
    }
    num.over(den)
}

impl Fx {
    /// Sine of the scalar, taken as radians.
    pub fn sin(self) -> (r: Fx)
        ensures
            r == fx_sin(self),
    {
        let d: i128 = TWO_PI_MICROS as i128;
        let v: i128 = self.v as i128;
        let q: i128 = crate::fixed::tdiv_exec(v, d);
        proof {
            assert(-58_000_000_000_000_000_000_000_000 <= (q as int) * (d as int)
                <= 58_000_000_000_000_000_000_000_000) by (nonlinear_arith)
                requires
                    -9_223_372_036_854_775_808 <= q as int <= 9_223_372_036_854_775_808 && d as int
                        == 6_283_185,
            ;
        }
        let m0: i128 = v - q * d;
        proof {
            let vi = v as int;
            let di = d as int;
            if vi >= 0 {
                vstd::arithmetic::div_mod::lemma_fundamental_div_mod(vi, di);
                vstd::arithmetic::div_mod::lemma_mod_division_less_than_divisor(vi, di);
                assert(q * d == di * (vi / di)) by (nonlinear_arith)
                    requires
                        q as int == vi / di && d as int == di,
                ;
                assert(m0 as int == vi % di);
            } else {
                let nv = -vi;
                vstd::arithmetic::div_mod::lemma_fundamental_div_mod(nv, di);
                let q2 = nv / di;
                let r2 = nv % di;
                vstd::arithmetic::div_mod::lemma_mod_division_less_than_divisor(nv, di);
                assert(q * d == -(di * q2)) by (nonlinear_arith)
                    requires
                        q as int == -q2 && d as int == di,
                ;
                assert(m0 as int == -r2);
                if r2 == 0 {
                    assert(vi == (-q2) * di + 0) by (nonlinear_arith)
                        requires
                            nv == di * q2 + r2 && r2 == 0 && nv == -vi,
                    ;
                    vstd::arithmetic::div_mod::lemma_fundamental_div_mod_converse_mod(
                        vi,
                        di,
                        -q2,
                        0,
                    );
                    assert(vi % di == 0);
                } else {
                    assert(vi == (-q2 - 1) * di + (di - r2)) by (nonlinear_arith)
                        requires
                            nv == di * q2 + r2 && nv == -vi,
                    ;
                    vstd::arithmetic::div_mod::lemma_fundamental_div_mod_converse_mod(
                        vi,
                        di,
                        -q2 - 1,
                        di - r2,
                    );
                    assert(vi % di == di - r2);
                }
            }
        }
        let m: i64 = if m0 < 0 {
            (m0 + d) as i64
        } else {
            m0 as i64
        };
        proof {
            assert(m as int == val(self) % (TWO_PI_MICROS as int));
        }
        if m <= PI_MICROS {
            sin_wave_exec(Fx { v: m })
        } else {
            sin_wave_exec(Fx { v: m - PI_MICROS }).negate()
        }
    }
}

} // verus!
