//! Sword-bucket pose programs: the thrown-blade volleys and the elder
//! adlet's air blade and trap setters.

use vstd::prelude::*;

use crate::fixed::{fx_add, fx_cents, fx_div, fx_mul, fx_neg, fx_wf, fx_whole, Fx};
use crate::curve::fx_pi;
use crate::phase::{stage_weights, stage_weights_exec, Ease, StageSection, Weights};
use crate::skeleton::{rot1, rot2, v3, Axis, Ori, Pose, SkeletonAttr, V3, Xform};

verus! {

/// The knife-rain / fierce-darts program: a two-handed overhead throw
/// with a quartic, near-instant pullback.
pub open spec fn knife_rain_pose(
    prev: Pose,
    a: SkeletonAttr,
    stage: Option<StageSection>,
    t: Fx,
) -> Pose {
    let w = stage_weights(stage, t, Ease::Quarter, Ease::Lin, Ease::Quartic);
    let m1 = fx_mul(w.m1, w.pullback);
    let m2 = fx_mul(w.m2, w.pullback);
    Pose {
        main: Xform {
            position: v3(fx_whole(-10), fx_whole(-8), fx_whole(12)),
            orientation: rot2(Axis::Y, fx_cents(250), Axis::Z, fx_div(fx_pi(), fx_whole(2))),
            scale: prev.main.scale,
        },
        hand_l: Xform {
            position: v3(fx_neg(a.hand.x), fx_add(a.hand.y, fx_whole(4)), a.hand.z),
            orientation: rot2(
                Axis::X,
                fx_mul(m1, fx_cents(150)),
                Axis::Y,
                fx_add(fx_mul(m1, fx_cents(-100)), fx_mul(m2, fx_cents(150))),
            ),
            scale: prev.hand_l.scale,
        },
        hand_r: Xform {
            position: v3(a.hand.x, fx_add(a.hand.y, fx_whole(4)), a.hand.z),
            orientation: rot2(
                Axis::X,
                fx_mul(m1, fx_cents(150)),
                Axis::Y,
                fx_add(fx_mul(m1, fx_cents(100)), fx_mul(m2, fx_cents(-150))),
            ),
            scale: prev.hand_r.scale,
        },
        upper_torso: Xform {
            position: prev.upper_torso.position,
            orientation: rot2(
                Axis::Y,
                fx_add(fx_mul(m1, fx_cents(-10)), fx_mul(m2, fx_cents(10))),
                Axis::Z,
                fx_add(fx_mul(m1, fx_cents(-10)), fx_mul(m2, fx_cents(10))),
            ),
            scale: prev.upper_torso.scale,
        },
        foot_l: Xform {
            position: prev.foot_l.position,
            orientation: rot1(Axis::Y, fx_add(fx_mul(m1, fx_cents(30)), fx_mul(m2, fx_cents(-30)))),
            scale: prev.foot_l.scale,
        },
        foot_r: Xform {
            position: prev.foot_r.position,
            orientation: rot1(Axis::Y, fx_add(fx_mul(m1, fx_cents(30)), fx_mul(m2, fx_cents(-30)))),
            scale: prev.foot_r.scale,
        },
        ..prev
    }
}

pub fn apply_knife_rain(next: &mut Pose, a: &SkeletonAttr, stage: Option<StageSection>, t: Fx)
    requires
        fx_wf(t),
    ensures
        *final(next) == knife_rain_pose(*old(next), *a, stage, t),
{
    let w: Weights = stage_weights_exec(stage, t, Ease::Quarter, Ease::Lin, Ease::Quartic);
    let m1: Fx = w.m1.times(w.pullback);
    let m2: Fx = w.m2.times(w.pullback);
    next.main.position = V3::new(Fx::whole(-10), Fx::whole(-8), Fx::whole(12));
    next.main.orientation = Ori::around(Axis::Y, Fx::cents(250)).chain(
        Axis::Z,
        Fx::micros(crate::curve::PI_MICROS).over(Fx::whole(2)),
    );
    next.hand_l.position = V3::new(a.hand.x.negate(), a.hand.y.plus(Fx::whole(4)), a.hand.z);
    next.hand_r.position = V3::new(a.hand.x, a.hand.y.plus(Fx::whole(4)), a.hand.z);
    next.hand_l.orientation = Ori::around(Axis::X, m1.times(Fx::cents(150))).chain(
        Axis::Y,
        m1.times(Fx::cents(-100)).plus(m2.times(Fx::cents(150))),
    );
    next.hand_r.orientation = Ori::around(Axis::X, m1.times(Fx::cents(150))).chain(
        Axis::Y,
        m1.times(Fx::cents(100)).plus(m2.times(Fx::cents(-150))),
    );
    next.upper_torso.orientation = Ori::around(
        Axis::Y,
        m1.times(Fx::cents(-10)).plus(m2.times(Fx::cents(10))),
    ).chain(Axis::Z, m1.times(Fx::cents(-10)).plus(m2.times(Fx::cents(10))));
    next.foot_l.orientation = Ori::around(
        Axis::Y,
        m1.times(Fx::cents(30)).plus(m2.times(Fx::cents(-30))),
    );
    next.foot_r.orientation = Ori::around(
        Axis::Y,
        m1.times(Fx::cents(30)).plus(m2.times(Fx::cents(-30))),
    );
}

/// The knife-rain hand pitch: the first rotation angle of either
/// hand, `move1 * 1.5` with `move1 = 1 * pullback` during recover.
pub open spec fn knife_rain_hand_pitch(stage: Option<StageSection>, t: Fx) -> Fx {
    let w = stage_weights(stage, t, Ease::Quarter, Ease::Lin, Ease::Quartic);
    fx_mul(fx_mul(w.m1, w.pullback), fx_cents(150))
}

/// Pullback monotonicity on the knife-rain program: within recover,
/// as phase-local time rises from zero toward one, the collapse
/// weight never increases, and the blended hand pitch falls back
/// monotonically toward its buildup-start value of zero.
pub proof fn lemma_knife_rain_recover_monotone(prev: Pose, a: SkeletonAttr, t1: Fx, t2: Fx)
    requires
        0 <= crate::fixed::val(t1) <= crate::fixed::val(t2),
        crate::fixed::val(t2) <= crate::fixed::val(crate::fixed::fx_one()),
    ensures
        crate::fixed::val(
            stage_weights(
                Some(StageSection::Recover),
                t2,
                Ease::Quarter,
                Ease::Lin,
                Ease::Quartic,
            ).pullback,
        ) <= crate::fixed::val(
            stage_weights(
                Some(StageSection::Recover),
                t1,
                Ease::Quarter,
                Ease::Lin,
                Ease::Quartic,
            ).pullback,
        ),
        knife_rain_pose(prev, a, Some(StageSection::Recover), t1).hand_l.orientation->R2_0.ang
            == knife_rain_hand_pitch(Some(StageSection::Recover), t1),
        knife_rain_pose(prev, a, Some(StageSection::Recover), t2).hand_l.orientation->R2_0.ang
            == knife_rain_hand_pitch(Some(StageSection::Recover), t2),
        0 <= crate::fixed::val(knife_rain_hand_pitch(Some(StageSection::Recover), t2)),
        crate::fixed::val(knife_rain_hand_pitch(Some(StageSection::Recover), t2))
            <= crate::fixed::val(knife_rain_hand_pitch(Some(StageSection::Recover), t1)),
{
    crate::phase::lemma_pullback_monotone(t1, t2, Ease::Quarter, Ease::Lin, Ease::Quartic);
    let w1 = stage_weights(Some(StageSection::Recover), t1, Ease::Quarter, Ease::Lin, Ease::Quartic);
    let w2 = stage_weights(Some(StageSection::Recover), t2, Ease::Quarter, Ease::Lin, Ease::Quartic);
    let one = crate::fixed::fx_one();
    let s = crate::fixed::SCALE as int;
    assert(crate::fixed::val(t2) * crate::fixed::val(t2) <= 1_000_000_000_000) by (nonlinear_arith)
        requires
            0 <= crate::fixed::val(t2) <= 1_000_000,
    ;
    assert(crate::fixed::val(t2) * crate::fixed::val(t2) >= 0) by (nonlinear_arith);
    crate::fixed::lemma_tdiv_monotone(0, crate::fixed::val(t2) * crate::fixed::val(t2), s);
    crate::fixed::lemma_tdiv_monotone(crate::fixed::val(t2) * crate::fixed::val(t2), 1_000_000_000_000, s);
    let q2 = crate::fixed::fx_mul(t2, t2);
    assert(0 <= crate::fixed::val(q2) <= 1_000_000);
    assert(crate::fixed::val(q2) * crate::fixed::val(q2) <= 1_000_000_000_000) by (nonlinear_arith)
        requires
            0 <= crate::fixed::val(q2) <= 1_000_000,
    ;
    assert(crate::fixed::val(q2) * crate::fixed::val(q2) >= 0) by (nonlinear_arith);
    crate::fixed::lemma_tdiv_monotone(0, crate::fixed::val(q2) * crate::fixed::val(q2), s);
    crate::fixed::lemma_tdiv_monotone(crate::fixed::val(q2) * crate::fixed::val(q2), 1_000_000_000_000, s);
    assert(0 <= crate::fixed::val(w2.m3) <= 1_000_000);
    assert(0 <= crate::fixed::val(w2.pullback));
    crate::fixed::lemma_mul_one(w1.pullback);
    crate::fixed::lemma_mul_one(w2.pullback);
    crate::fixed::lemma_mul_monotone(w2.pullback, w1.pullback, fx_cents(150));
    crate::fixed::lemma_mul_nonneg(w2.pullback, fx_cents(150));
}

/// The shared upper-body raise of the air-blade and trap programs.
pub open spec fn adlet_arms_pose(prev: Pose, a: SkeletonAttr, m1: Fx, m2: Fx) -> Pose {
    let lift = fx_add(fx_mul(m1, fx_whole(4)), fx_mul(m2, fx_cents(-70)));
    Pose {
        hand_l: Xform {
            position: v3(
                fx_neg(a.hand.x),
                fx_add(a.hand.y, fx_whole(1)),
                fx_add(a.hand.z, fx_whole(5)),
            ),
            orientation: rot1(Axis::X, lift),
            scale: prev.hand_l.scale,
        },
        hand_r: Xform {
            position: v3(a.hand.x, fx_add(a.hand.y, fx_whole(1)), fx_add(a.hand.z, fx_whole(5))),
            orientation: rot1(Axis::X, lift),
            scale: prev.hand_r.scale,
        },
        shoulder_l: Xform {
            position: prev.shoulder_l.position,
            orientation: rot1(Axis::X, lift),
            scale: prev.shoulder_l.scale,
        },
        shoulder_r: Xform {
            position: prev.shoulder_r.position,
            orientation: rot1(Axis::X, lift),
            scale: prev.shoulder_r.scale,
        },
        head: Xform {
            position: prev.head.position,
            orientation: rot1(Axis::X, fx_add(fx_mul(m1, fx_cents(40)), fx_mul(m2, fx_cents(-20)))),
            scale: prev.head.scale,
        },
        ..prev
    }
}

/// The air-blade program: arms thrown high, the blade mount pitched
/// up, linear pullback.
pub open spec fn air_blade_pose(
    prev: Pose,
    a: SkeletonAttr,
    stage: Option<StageSection>,
    t: Fx,
) -> Pose {
    let w = stage_weights(stage, t, Ease::Lin, Ease::Quarter, Ease::Lin);
    let m1 = fx_mul(w.m1, w.pullback);
    let m2 = fx_mul(w.m2, w.pullback);
    Pose {
        main: Xform {
            position: v3(fx_whole(-10), fx_whole(-8), fx_whole(12)),
            orientation: rot2(Axis::Y, fx_cents(250), Axis::Z, fx_div(fx_pi(), fx_whole(2))),
            scale: prev.main.scale,
        },
        ..adlet_arms_pose(prev, a, m1, m2)
    }
}

/// The trap program: the same raise as the air blade, with the weapon
/// mount left where the baseline put it.
pub open spec fn trap_pose(prev: Pose, a: SkeletonAttr, stage: Option<StageSection>, t: Fx) -> Pose {
    let w = stage_weights(stage, t, Ease::Lin, Ease::Quarter, Ease::Lin);
    let m1 = fx_mul(w.m1, w.pullback);
    let m2 = fx_mul(w.m2, w.pullback);
    adlet_arms_pose(prev, a, m1, m2)
}

fn apply_adlet_arms(next: &mut Pose, a: &SkeletonAttr, m1: Fx, m2: Fx)
    ensures
        *final(next) == adlet_arms_pose(*old(next), *a, m1, m2),
{
    let lift: Fx = m1.times(Fx::whole(4)).plus(m2.times(Fx::cents(-70)));
    next.hand_l.position = V3::new(
        a.hand.x.negate(),
        a.hand.y.plus(Fx::whole(1)),
        a.hand.z.plus(Fx::whole(5)),
    );
    next.hand_r.position = V3::new(
        a.hand.x,
        a.hand.y.plus(Fx::whole(1)),
        a.hand.z.plus(Fx::whole(5)),
    );
    next.hand_l.orientation = Ori::around(Axis::X, lift);
    next.hand_r.orientation = Ori::around(Axis::X, lift);
    next.shoulder_l.orientation = Ori::around(Axis::X, lift);
    next.shoulder_r.orientation = Ori::around(Axis::X, lift);
    next.head.orientation = Ori::around(
        Axis::X,
        m1.times(Fx::cents(40)).plus(m2.times(Fx::cents(-20))),
    );
}

pub fn apply_air_blade(next: &mut Pose, a: &SkeletonAttr, stage: Option<StageSection>, t: Fx)
    requires
        fx_wf(t),
    ensures
        *final(next) == air_blade_pose(*old(next), *a, stage, t),
{
    let w: Weights = stage_weights_exec(stage, t, Ease::Lin, Ease::Quarter, Ease::Lin);
    let m1: Fx = w.m1.times(w.pullback);
    let m2: Fx = w.m2.times(w.pullback);
    apply_adlet_arms(next, a, m1, m2);
    next.main.position = V3::new(Fx::whole(-10), Fx::whole(-8), Fx::whole(12));
    next.main.orientation = Ori::around(Axis::Y, Fx::cents(250)).chain(
        Axis::Z,
        Fx::micros(crate::curve::PI_MICROS).over(Fx::whole(2)),
    );
}

pub fn apply_trap(next: &mut Pose, a: &SkeletonAttr, stage: Option<StageSection>, t: Fx)
    requires
        fx_wf(t),
    ensures
        *final(next) == trap_pose(*old(next), *a, stage, t),
{
    let w: Weights = stage_weights_exec(stage, t, Ease::Lin, Ease::Quarter, Ease::Lin);
    let m1: Fx = w.m1.times(w.pullback);
    let m2: Fx = w.m2.times(w.pullback);
    apply_adlet_arms(next, a, m1, m2);
}

} // verus!
