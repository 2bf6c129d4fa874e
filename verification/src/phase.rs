//! The phase-tapering protocol.
//!
//! Every pose program partitions its motion into three progress
//! scalars, driven by the externally owned stage tag and the elapsed
//! time within it: `m1` rises during buildup, `m2` during action, `m3`
//! during recover, and `pullback = 1 - m3` collapses the whole pose
//! back toward neutral as recover completes.  Each program chooses its
//! own easing per stage; the choices are parameters here.

use vstd::prelude::*;

use crate::curve::{ease_pow4, ease_pow4_exec, ease_quarter, ease_quarter_exec, ease_tenth,
    ease_tenth_exec, fx_sin, fx_pi};
use crate::fixed::{fx, fx_add, fx_min, fx_mul, fx_one, fx_sub, fx_wf, fx_zero, val, Fx};

verus! {

/// The externally owned execution phase of an ability.
#[derive(Clone, Copy, PartialEq, Eq, Structural, Debug)]
pub enum StageSection {
    Buildup,
    Action,
    Recover,
}

/// An easing curve a program may pick for one stage.
#[derive(Clone, Copy, PartialEq, Eq, Structural, Debug)]
pub enum Ease {
    /// The identity: progress is the elapsed time itself.
    Lin,
    /// The quarter power `t^(1/4)`.
    Quarter,
    /// The quarter power, capped at one.
    QuarterCapped,
    /// The tenth power root `t^(1/10)`, capped at one.
    TenthCapped,
    /// The fourth power `t^4`.
    Quartic,
}

pub open spec fn apply_ease(e: Ease, t: Fx) -> Fx {
    match e {
        Ease::Lin => t,
        Ease::Quarter => ease_quarter(t),
        Ease::QuarterCapped => fx_min(ease_quarter(t), fx_one()),
        Ease::TenthCapped => fx_min(ease_tenth(t), fx_one()),
        Ease::Quartic => ease_pow4(t),
    }
}

pub fn apply_ease_exec(e: Ease, t: Fx) -> (r: Fx)
    requires
        fx_wf(t),
    ensures
        r == apply_ease(e, t),
{
    match e {
        Ease::Lin => t,
        Ease::Quarter => ease_quarter_exec(t),
        Ease::QuarterCapped => ease_quarter_exec(t).smallest(Fx::one()),
        Ease::TenthCapped => ease_tenth_exec(t).smallest(Fx::one()),
        Ease::Quartic => ease_pow4_exec(t),
    }
}

/// The three progress scalars and the recover-phase collapse weight.
#[derive(Clone, Copy, PartialEq, Eq, Structural, Debug)]
pub struct Weights {
    pub m1: Fx,
    pub m2: Fx,
    pub m3: Fx,
    pub pullback: Fx,
}

/// The shared phase-progress helper: a program supplies only its
/// easing choice per stage.  An absent stage means idle: every
/// progress scalar is zero.
pub open spec fn stage_weights(
    stage: Option<StageSection>,
    t: Fx,
    on_buildup: Ease,
    on_action: Ease,
    on_recover: Ease,
) -> Weights {
    let m1 = match stage {
        Some(StageSection::Buildup) => apply_ease(on_buildup, t),
        Some(StageSection::Action) => fx_one(),
        Some(StageSection::Recover) => fx_one(),
        None => fx_zero(),
    };
    let m2 = match stage {
        Some(StageSection::Action) => apply_ease(on_action, t),
        Some(StageSection::Recover) => fx_one(),
        _ => fx_zero(),
    };
    let m3 = match stage {
        Some(StageSection::Recover) => apply_ease(on_recover, t),
        _ => fx_zero(),
    };
    Weights { m1, m2, m3, pullback: fx_sub(fx_one(), m3) }
}

pub fn stage_weights_exec(
    stage: Option<StageSection>,
    t: Fx,
    on_buildup: Ease,
    on_action: Ease,
    on_recover: Ease,
) -> (w: Weights)
    requires
        fx_wf(t),
    ensures
        w == stage_weights(stage, t, on_buildup, on_action, on_recover),
{
    let m1: Fx = match stage {
        Some(StageSection::Buildup) => apply_ease_exec(on_buildup, t),
        Some(StageSection::Action) => Fx::one(),
        Some(StageSection::Recover) => Fx::one(),
        None => Fx::zero(),
    };
    let m2: Fx = match stage {
        Some(StageSection::Action) => apply_ease_exec(on_action, t),
        Some(StageSection::Recover) => Fx::one(),
        _ => Fx::zero(),
    };
    let m3: Fx = match stage {
        Some(StageSection::Recover) => apply_ease_exec(on_recover, t),
        _ => Fx::zero(),
    };
    Weights { m1, m2, m3, pullback: Fx::one().minus(m3) }
}

/// The buildup-phase shake term `sin(10 t + pi)` used by beam and bolt
/// programs; one after buildup, zero when idle.
pub open spec fn buildup_shake(stage: Option<StageSection>, t: Fx) -> Fx {
    match stage {
        Some(StageSection::Buildup) => fx_sin(fx_add(fx_mul(t, fx(10_000_000)), fx_pi())),
        Some(StageSection::Action) => fx_one(),
        Some(StageSection::Recover) => fx_one(),
        None => fx_zero(),
    }
}

pub fn buildup_shake_exec(stage: Option<StageSection>, t: Fx) -> (r: Fx)
    ensures
        r == buildup_shake(stage, t),
{
    match stage {
        Some(StageSection::Buildup) => t.times(Fx::micros(10_000_000)).plus(
            Fx::micros(crate::curve::PI_MICROS),
        ).sin(),
        Some(StageSection::Action) => Fx::one(),
        Some(StageSection::Recover) => Fx::one(),
        None => Fx::zero(),
    }
}

/// The action-phase shake term `sin(15 t + pi)` of the mortar program;
/// one after action, zero before.
pub open spec fn action_shake(stage: Option<StageSection>, t: Fx) -> Fx {
    match stage {
        Some(StageSection::Action) => fx_sin(fx_add(fx_mul(t, fx(15_000_000)), fx_pi())),
        Some(StageSection::Recover) => fx_one(),
        _ => fx_zero(),
    }
}

pub fn action_shake_exec(stage: Option<StageSection>, t: Fx) -> (r: Fx)
    ensures
        r == action_shake(stage, t),
{
    match stage {
        Some(StageSection::Action) => t.times(Fx::micros(15_000_000)).plus(
            Fx::micros(crate::curve::PI_MICROS),
        ).sin(),
        Some(StageSection::Recover) => Fx::one(),
        _ => Fx::zero(),
    }
}

/// Idle inertness: with no active stage every progress scalar is zero
/// and the pullback weight is whole, whatever the easing choices, so
/// every term a program scales by a progress weight vanishes.
pub proof fn lemma_idle_weights(t: Fx, b: Ease, a: Ease, r: Ease)
    ensures
        stage_weights(None, t, b, a, r) == (Weights {
            m1: fx_zero(),
            m2: fx_zero(),
            m3: fx_zero(),
            pullback: fx_one(),
        }),
        buildup_shake(None, t) == fx_zero(),
        action_shake(None, t) == fx_zero(),
{
}

/// Within recover, as phase-local time rises the collapse completes:
/// `m3` is non-decreasing and `pullback` non-increasing, for the
/// linear as well as the quartic recover easing.
pub proof fn lemma_pullback_monotone(t1: Fx, t2: Fx, b: Ease, a: Ease, r: Ease)
    requires
        0 <= val(t1) <= val(t2),
        fx_wf(t2),
        r == Ease::Lin || r == Ease::Quartic,
    ensures
        val(stage_weights(Some(StageSection::Recover), t1, b, a, r).m3) <= val(
            stage_weights(Some(StageSection::Recover), t2, b, a, r).m3,
        ),
        val(stage_weights(Some(StageSection::Recover), t2, b, a, r).pullback) <= val(
            stage_weights(Some(StageSection::Recover), t1, b, a, r).pullback,
        ),
{
    if r == Ease::Quartic {
        let s1 = fx_mul(t1, t1);
        let s2 = fx_mul(t2, t2);
        crate::fixed::lemma_mul_monotone(t1, t2, t1);
        crate::fixed::lemma_mul_comm(t2, t1);
        crate::fixed::lemma_mul_monotone(t1, t2, t2);
        assert(val(s1) <= val(s2));
        crate::fixed::lemma_mul_nonneg(t1, t1);
        crate::fixed::lemma_mul_nonneg(t2, t2);
        crate::fixed::lemma_mul_monotone(s1, s2, s1);
        crate::fixed::lemma_mul_comm(s2, s1);
        crate::fixed::lemma_mul_monotone(s1, s2, s2);
        assert(val(ease_pow4(t1)) <= val(ease_pow4(t2)));
    }
}

} // verus!
