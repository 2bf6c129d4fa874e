//! Natural-weapon pose programs: the minotaur's axe throw, the
//! wendigo's frost bomb, the yeti's snowball, the terracotta
//! demolisher's throw, and the lobbed projectiles of the harvester
//! and the strigoi.

use vstd::prelude::*;

use crate::fixed::{fx_add, fx_cents, fx_div, fx_mul, fx_neg, fx_one, fx_sub, fx_wf, fx_whole,
    fx_zero, val, Fx};
use crate::curve::fx_pi;
use crate::gait::GaitVals;
use crate::phase::{stage_weights, stage_weights_exec, Ease, StageSection, Weights};
use crate::skeleton::{rot1, rot2, rot3, v3, Axis, Ori, Pose, SkeletonAttr, V3, Xform};

verus! {

/// The minotaur axe-throw program.  On entering recover the weapon
/// mounts receive a fixed ten-million-unit offset, unconditionally and
/// untapered: the hide-by-displacement idiom that keeps the thrown
/// axes out of sight while the projectiles fly.
pub open spec fn axethrow_pose(
    prev: Pose,
    a: SkeletonAttr,
    stage: Option<StageSection>,
    t: Fx,
) -> Pose {
    let w = stage_weights(stage, t, Ease::Lin, Ease::Quarter, Ease::Lin);
    let m1 = fx_mul(w.m1, w.pullback);
    let m2 = fx_mul(w.m2, w.pullback);
    let swing = fx_add(fx_mul(m1, fx_cents(-150)), fx_mul(m2, fx_cents(-350)));
    let raise = fx_add(fx_mul(m1, fx_whole(3)), fx_mul(m2, fx_whole(-3)));
    let hidden = stage == Some(StageSection::Recover);
    Pose {
        second: Xform {
            position: if hidden {
                v3(
                    fx_add(fx_whole(12), fx_zero()),
                    fx_add(fx_whole(-4), fx_whole(10_000_000)),
                    fx_add(fx_whole(-20), fx_zero()),
                )
            } else {
                v3(fx_whole(12), fx_whole(-4), fx_whole(-20))
            },
            orientation: rot1(Axis::X, swing),
            scale: v3(fx_one(), fx_one(), fx_one()),
        },
        main: Xform {
            position: if hidden {
                v3(
                    fx_add(fx_whole(-12), fx_zero()),
                    fx_add(fx_whole(-4), fx_whole(10_000_000)),
                    fx_add(fx_whole(-20), fx_zero()),
                )
            } else {
                v3(fx_whole(-12), fx_whole(-4), fx_whole(-20))
            },
            orientation: rot1(Axis::X, swing),
            scale: prev.main.scale,
        },
        hand_l: Xform {
            position: v3(
                fx_neg(a.hand.x),
                fx_sub(a.hand.y, fx_whole(2)),
                fx_add(a.hand.z, fx_cents(0)),
            ),
            orientation: prev.hand_l.orientation,
            scale: prev.hand_l.scale,
        },
        hand_r: Xform {
            position: v3(a.hand.x, fx_sub(a.hand.y, fx_whole(2)), fx_add(a.hand.z, fx_cents(0))),
            orientation: prev.hand_r.orientation,
            scale: prev.hand_r.scale,
        },
        control: Xform {
            position: prev.control.position,
            orientation: rot1(Axis::X, raise),
            scale: prev.control.scale,
        },
        shoulder_l: Xform {
            position: prev.shoulder_l.position,
            orientation: rot1(Axis::X, raise),
            scale: prev.shoulder_l.scale,
        },
        shoulder_r: Xform {
            position: prev.shoulder_r.position,
            orientation: rot1(Axis::X, raise),
            scale: prev.shoulder_r.scale,
        },
        head: Xform {
            position: prev.head.position,
            orientation: rot1(Axis::X, fx_add(fx_mul(m1, fx_cents(40)), fx_mul(m2, fx_cents(-20)))),
            scale: prev.head.scale,
        },
        ..prev
    }
}

pub fn apply_axethrow(next: &mut Pose, a: &SkeletonAttr, stage: Option<StageSection>, t: Fx)
    requires
        fx_wf(t),
    ensures
        *final(next) == axethrow_pose(*old(next), *a, stage, t),
{
    let w: Weights = stage_weights_exec(stage, t, Ease::Lin, Ease::Quarter, Ease::Lin);
    let m1: Fx = w.m1.times(w.pullback);
    let m2: Fx = w.m2.times(w.pullback);
    let swing: Fx = m1.times(Fx::cents(-150)).plus(m2.times(Fx::cents(-350)));
    let raise: Fx = m1.times(Fx::whole(3)).plus(m2.times(Fx::whole(-3)));
    next.second.scale = V3::splat(Fx::one());
    next.main.position = V3::new(Fx::whole(-12), Fx::whole(-4), Fx::whole(-20));
    next.second.position = V3::new(Fx::whole(12), Fx::whole(-4), Fx::whole(-20));
    next.main.orientation = Ori::around(Axis::X, swing);
    next.second.orientation = Ori::around(Axis::X, swing);
    if let Some(StageSection::Recover) = stage {
        let m: V3 = next.main.position;
        next.main.position = V3::new(
            m.x.plus(Fx::zero()),
            m.y.plus(Fx::whole(10_000_000)),
            m.z.plus(Fx::zero()),
        );
        let s: V3 = next.second.position;
        next.second.position = V3::new(
            s.x.plus(Fx::zero()),
            s.y.plus(Fx::whole(10_000_000)),
            s.z.plus(Fx::zero()),
        );
    }
    next.hand_l.position = V3::new(
        a.hand.x.negate(),
        a.hand.y.minus(Fx::whole(2)),
        a.hand.z.plus(Fx::cents(0)),
    );
    next.hand_r.position = V3::new(
        a.hand.x,
        a.hand.y.minus(Fx::whole(2)),
        a.hand.z.plus(Fx::cents(0)),
    );
    next.control.orientation = Ori::around(Axis::X, raise);
    next.shoulder_l.orientation = Ori::around(Axis::X, raise);
    next.shoulder_r.orientation = Ori::around(Axis::X, raise);
    next.head.orientation = Ori::around(
        Axis::X,
        m1.times(Fx::cents(40)).plus(m2.times(Fx::cents(-20))),
    );
}

/// The wendigo frost-bomb program: both pivots sweep up and inward
/// with a quartic pullback.
pub open spec fn frostbomb_pose(prev: Pose, stage: Option<StageSection>, t: Fx) -> Pose {
    let w = stage_weights(stage, t, Ease::Quarter, Ease::Lin, Ease::Quartic);
    let m1 = fx_mul(w.m1, w.pullback);
    Pose {
        control_l: Xform {
            position: v3(
                fx_add(fx_whole(-9), fx_mul(m1, fx_whole(6))),
                fx_add(fx_whole(19), fx_mul(m1, fx_whole(6))),
                fx_add(fx_whole(-13), fx_mul(m1, fx_cents(1050))),
            ),
            orientation: rot3(
                Axis::X,
                fx_add(fx_div(fx_pi(), fx_whole(3)), fx_mul(m1, fx_cents(50))),
                Axis::Y,
                fx_cents(-15),
                Axis::Z,
                fx_mul(m1, fx_cents(50)),
            ),
            scale: prev.control_l.scale,
        },
        control_r: Xform {
            position: v3(
                fx_add(fx_whole(9), fx_mul(m1, fx_whole(-6))),
                fx_add(fx_whole(19), fx_mul(m1, fx_whole(6))),
                fx_add(fx_whole(-13), fx_mul(m1, fx_cents(1450))),
            ),
            orientation: rot3(
                Axis::X,
                fx_add(fx_div(fx_pi(), fx_whole(3)), fx_mul(m1, fx_cents(50))),
                Axis::Y,
                fx_cents(15),
                Axis::Z,
                fx_mul(m1, fx_cents(-50)),
            ),
            scale: prev.control_r.scale,
        },
        head: Xform {
            position: prev.head.position,
            orientation: rot1(Axis::X, fx_mul(m1, fx_cents(-30))),
            scale: prev.head.scale,
        },
        ..prev
    }
}

pub fn apply_frostbomb(next: &mut Pose, stage: Option<StageSection>, t: Fx)
    requires
        fx_wf(t),
    ensures
        *final(next) == frostbomb_pose(*old(next), stage, t),
{
    let w: Weights = stage_weights_exec(stage, t, Ease::Quarter, Ease::Lin, Ease::Quartic);
    let m1: Fx = w.m1.times(w.pullback);
    next.control_l.position = V3::new(
        Fx::whole(-9).plus(m1.times(Fx::whole(6))),
        Fx::whole(19).plus(m1.times(Fx::whole(6))),
        Fx::whole(-13).plus(m1.times(Fx::cents(1050))),
    );
    next.control_r.position = V3::new(
        Fx::whole(9).plus(m1.times(Fx::whole(-6))),
        Fx::whole(19).plus(m1.times(Fx::whole(6))),
        Fx::whole(-13).plus(m1.times(Fx::cents(1450))),
    );
    next.control_l.orientation = Ori::around(
        Axis::X,
        Fx::micros(crate::curve::PI_MICROS).over(Fx::whole(3)).plus(m1.times(Fx::cents(50))),
    ).chain(Axis::Y, Fx::cents(-15)).chain(Axis::Z, m1.times(Fx::cents(50)));
    next.control_r.orientation = Ori::around(
        Axis::X,
        Fx::micros(crate::curve::PI_MICROS).over(Fx::whole(3)).plus(m1.times(Fx::cents(50))),
    ).chain(Axis::Y, Fx::cents(15)).chain(Axis::Z, m1.times(Fx::cents(-50)));
    next.head.orientation = Ori::around(Axis::X, m1.times(Fx::cents(-30)));
}

/// The torso twist shared by the heaving two-stage throws: raw
/// progress weights, no pullback scaling.
pub open spec fn heave_twist(m1: Fx, m3: Fx) -> Fx {
    fx_add(fx_mul(m1, fx_cents(80)), fx_mul(m3, fx_cents(-80)))
}

/// The yeti snowball program: the body heaves a lump from behind the
/// head; the second weapon mount is scaled away entirely.
pub open spec fn snowball_pose(prev: Pose, a: SkeletonAttr, stage: Option<StageSection>, t: Fx) -> Pose {
    let w = stage_weights(stage, t, Ease::Quarter, Ease::Lin, Ease::Quartic);
    let m1 = w.m1;
    let m2 = w.m2;
    let twist = heave_twist(m1, w.m3);
    Pose {
        second: Xform {
            position: prev.second.position,
            orientation: prev.second.orientation,
            scale: v3(fx_zero(), fx_zero(), fx_zero()),
        },
        head: Xform {
            position: prev.head.position,
            orientation: rot1(Axis::X, fx_mul(m1, fx_cents(40))),
            scale: prev.head.scale,
        },
        jaw: Xform {
            position: v3(fx_zero(), a.jaw.0, a.jaw.1),
            orientation: rot1(Axis::X, fx_mul(m2, fx_cents(-30))),
            scale: prev.jaw.scale,
        },
        control_l: Xform {
            position: v3(fx_cents(-50), fx_whole(4), fx_whole(1)),
            orientation: rot1(Axis::X, fx_div(fx_pi(), fx_whole(2))),
            scale: prev.control_l.scale,
        },
        control_r: Xform {
            position: v3(fx_cents(-50), fx_whole(4), fx_whole(1)),
            orientation: rot1(Axis::X, fx_div(fx_pi(), fx_whole(2))),
            scale: prev.control_r.scale,
        },
        weapon_l: Xform {
            position: v3(fx_whole(-12), fx_whole(-1), fx_whole(-15)),
            orientation: rot1(Axis::X, fx_sub(fx_neg(fx_div(fx_pi(), fx_whole(2))), fx_cents(10))),
            scale: prev.weapon_l.scale,
        },
        weapon_r: Xform {
            position: v3(fx_whole(12), fx_whole(-1), fx_whole(-15)),
            orientation: rot1(Axis::X, fx_sub(fx_neg(fx_div(fx_pi(), fx_whole(2))), fx_cents(10))),
            scale: prev.weapon_r.scale,
        },
        upper_torso: Xform {
            position: v3(fx_zero(), a.upper_torso.0, a.upper_torso.1),
            orientation: rot2(
                Axis::X,
                fx_add(fx_mul(m1, fx_cents(80)), fx_mul(m2, fx_cents(-110))),
                Axis::Z,
                fx_add(
                    fx_add(fx_mul(twist, fx_cents(-20)), fx_mul(m1, fx_cents(-10))),
                    fx_mul(m2, fx_cents(30)),
                ),
            ),
            scale: prev.upper_torso.scale,
        },
        lower_torso: Xform {
            position: prev.lower_torso.position,
            orientation: rot2(
                Axis::X,
                fx_add(fx_mul(m1, fx_cents(-80)), fx_mul(m2, fx_cents(110))),
                Axis::Z,
                twist,
            ),
            scale: prev.lower_torso.scale,
        },
        arm_control_r: Xform {
            position: v3(fx_zero(), fx_add(fx_mul(m1, fx_whole(10)), fx_mul(m2, fx_whole(-10))), fx_zero()),
            orientation: rot2(
                Axis::X,
                fx_div(fx_mul(m1, fx_pi()), fx_whole(2)),
                Axis::Y,
                fx_add(fx_div(fx_mul(m1, fx_neg(fx_pi())), fx_whole(2)), fx_mul(m2, fx_cents(250))),
            ),
            scale: prev.arm_control_r.scale,
        },
        ..prev
    }
}

pub fn apply_snowball(next: &mut Pose, a: &SkeletonAttr, stage: Option<StageSection>, t: Fx)
    requires
        fx_wf(t),
    ensures
        *final(next) == snowball_pose(*old(next), *a, stage, t),
{
    let w: Weights = stage_weights_exec(stage, t, Ease::Quarter, Ease::Lin, Ease::Quartic);
    let m1: Fx = w.m1;
    let m2: Fx = w.m2;
    let twist: Fx = m1.times(Fx::cents(80)).plus(w.m3.times(Fx::cents(-80)));
    next.second.scale = V3::splat(Fx::zero());
    next.head.orientation = Ori::around(Axis::X, m1.times(Fx::cents(40)));
    next.jaw.position = V3::new(Fx::zero(), a.jaw.0, a.jaw.1);
    next.jaw.orientation = Ori::around(Axis::X, m2.times(Fx::cents(-30)));
    next.control_l.position = V3::new(Fx::cents(-50), Fx::whole(4), Fx::whole(1));
    next.control_r.position = V3::new(Fx::cents(-50), Fx::whole(4), Fx::whole(1));
    next.control_l.orientation = Ori::around(
        Axis::X,
        Fx::micros(crate::curve::PI_MICROS).over(Fx::whole(2)),
    );
    next.control_r.orientation = Ori::around(
        Axis::X,
        Fx::micros(crate::curve::PI_MICROS).over(Fx::whole(2)),
    );
    next.weapon_l.position = V3::new(Fx::whole(-12), Fx::whole(-1), Fx::whole(-15));
    next.weapon_r.position = V3::new(Fx::whole(12), Fx::whole(-1), Fx::whole(-15));
    next.weapon_l.orientation = Ori::around(
        Axis::X,
        Fx::micros(crate::curve::PI_MICROS).over(Fx::whole(2)).negate().minus(Fx::cents(10)),
    );
    next.weapon_r.orientation = Ori::around(
        Axis::X,
        Fx::micros(crate::curve::PI_MICROS).over(Fx::whole(2)).negate().minus(Fx::cents(10)),
    );
    next.upper_torso.position = V3::new(Fx::zero(), a.upper_torso.0, a.upper_torso.1);
    next.upper_torso.orientation = Ori::around(
        Axis::X,
        m1.times(Fx::cents(80)).plus(m2.times(Fx::cents(-110))),
    ).chain(
        Axis::Z,
        twist.times(Fx::cents(-20)).plus(m1.times(Fx::cents(-10))).plus(m2.times(Fx::cents(30))),
    );
    next.lower_torso.orientation = Ori::around(
        Axis::X,
        m1.times(Fx::cents(-80)).plus(m2.times(Fx::cents(110))),
    ).chain(Axis::Z, twist);
    next.arm_control_r.orientation = Ori::around(
        Axis::X,
        m1.times(Fx::micros(crate::curve::PI_MICROS)).over(Fx::whole(2)),
    ).chain(
        Axis::Y,
        m1.times(Fx::micros(crate::curve::PI_MICROS).negate()).over(Fx::whole(2)).plus(
            m2.times(Fx::cents(250)),
        ),
    );
    next.arm_control_r.position = V3::new(
        Fx::zero(),
        m1.times(Fx::whole(10)).plus(m2.times(Fx::whole(-10))),
        Fx::zero(),
    );
}

/// The terracotta demolisher's throw: the same heave as the snowball
/// with the charge held before the chest.
pub open spec fn demolisher_throw_pose(
    prev: Pose,
    a: SkeletonAttr,
    stage: Option<StageSection>,
    t: Fx,
) -> Pose {
    let w = stage_weights(stage, t, Ease::Quarter, Ease::Lin, Ease::Quartic);
    let m1 = w.m1;
    let m2 = w.m2;
    let twist = heave_twist(m1, w.m3);
    Pose {
        head: Xform {
            position: prev.head.position,
            orientation: rot1(Axis::X, fx_mul(m1, fx_cents(40))),
            scale: prev.head.scale,
        },
        control_l: Xform {
            position: v3(fx_cents(-50), fx_whole(4), fx_whole(1)),
            orientation: rot1(Axis::X, fx_div(fx_pi(), fx_cents(150))),
            scale: prev.control_l.scale,
        },
        control_r: Xform {
            position: v3(fx_cents(-50), fx_whole(4), fx_whole(1)),
            orientation: rot1(Axis::X, fx_div(fx_pi(), fx_cents(150))),
            scale: prev.control_r.scale,
        },
        weapon_l: Xform {
            position: v3(fx_whole(-9), fx_whole(5), fx_zero()),
            orientation: rot1(Axis::X, fx_sub(fx_neg(fx_div(fx_pi(), fx_whole(2))), fx_cents(10))),
            scale: prev.weapon_l.scale,
        },
        weapon_r: Xform {
            position: v3(fx_whole(9), fx_whole(5), fx_zero()),
            orientation: rot1(Axis::X, fx_sub(fx_neg(fx_div(fx_pi(), fx_whole(2))), fx_cents(10))),
            scale: prev.weapon_r.scale,
        },
        upper_torso: Xform {
            position: v3(fx_zero(), a.upper_torso.0, a.upper_torso.1),
            orientation: rot2(
                Axis::X,
                fx_add(fx_mul(m1, fx_cents(80)), fx_mul(m2, fx_cents(-110))),
                Axis::Z,
                fx_add(
                    fx_add(fx_mul(twist, fx_cents(-20)), fx_mul(m1, fx_cents(-10))),
                    fx_mul(m2, fx_cents(30)),
                ),
            ),
            scale: prev.upper_torso.scale,
        },
        lower_torso: Xform {
            position: prev.lower_torso.position,
            orientation: rot2(
                Axis::X,
                fx_add(fx_mul(m1, fx_cents(-80)), fx_mul(m2, fx_cents(110))),
                Axis::Z,
                twist,
            ),
            scale: prev.lower_torso.scale,
        },
        arm_control_r: Xform {
            position: v3(
                fx_zero(),
                fx_add(fx_mul(m1, fx_one()), fx_mul(m2, fx_whole(-1))),
                fx_zero(),
            ),
            orientation: rot2(
                Axis::X,
                fx_div(fx_mul(m1, fx_pi()), fx_whole(2)),
                Axis::Y,
                fx_add(fx_div(fx_mul(m1, fx_neg(fx_pi())), fx_whole(3)), fx_mul(m2, fx_cents(150))),
            ),
            scale: prev.arm_control_r.scale,
        },
        ..prev
    }
}

pub fn apply_demolisher_throw(next: &mut Pose, a: &SkeletonAttr, stage: Option<StageSection>, t: Fx)
    requires
        fx_wf(t),
    ensures
        *final(next) == demolisher_throw_pose(*old(next), *a, stage, t),
{
    let w: Weights = stage_weights_exec(stage, t, Ease::Quarter, Ease::Lin, Ease::Quartic);
    let m1: Fx = w.m1;
    let m2: Fx = w.m2;
    let twist: Fx = m1.times(Fx::cents(80)).plus(w.m3.times(Fx::cents(-80)));
    next.head.orientation = Ori::around(Axis::X, m1.times(Fx::cents(40)));
    next.control_l.position = V3::new(Fx::cents(-50), Fx::whole(4), Fx::whole(1));
    next.control_r.position = V3::new(Fx::cents(-50), Fx::whole(4), Fx::whole(1));
    next.control_l.orientation = Ori::around(
        Axis::X,
        Fx::micros(crate::curve::PI_MICROS).over(Fx::cents(150)),
    );
    next.control_r.orientation = Ori::around(
        Axis::X,
        Fx::micros(crate::curve::PI_MICROS).over(Fx::cents(150)),
    );
    next.weapon_l.position = V3::new(Fx::whole(-9), Fx::whole(5), Fx::zero());
    next.weapon_r.position = V3::new(Fx::whole(9), Fx::whole(5), Fx::zero());
    next.weapon_l.orientation = Ori::around(
        Axis::X,
        Fx::micros(crate::curve::PI_MICROS).over(Fx::whole(2)).negate().minus(Fx::cents(10)),
    );
    next.weapon_r.orientation = Ori::around(
        Axis::X,
        Fx::micros(crate::curve::PI_MICROS).over(Fx::whole(2)).negate().minus(Fx::cents(10)),
    );
    next.upper_torso.position = V3::new(Fx::zero(), a.upper_torso.0, a.upper_torso.1);
    next.upper_torso.orientation = Ori::around(
        Axis::X,
        m1.times(Fx::cents(80)).plus(m2.times(Fx::cents(-110))),
    ).chain(
        Axis::Z,
        twist.times(Fx::cents(-20)).plus(m1.times(Fx::cents(-10))).plus(m2.times(Fx::cents(30))),
    );
    next.lower_torso.orientation = Ori::around(
        Axis::X,
        m1.times(Fx::cents(-80)).plus(m2.times(Fx::cents(110))),
    ).chain(Axis::Z, twist);
    next.arm_control_r.orientation = Ori::around(
        Axis::X,
        m1.times(Fx::micros(crate::curve::PI_MICROS)).over(Fx::whole(2)),
    ).chain(
        Axis::Y,
        m1.times(Fx::micros(crate::curve::PI_MICROS).negate()).over(Fx::whole(3)).plus(
            m2.times(Fx::cents(150)),
        ),
    );
    next.arm_control_r.position = V3::new(
        Fx::zero(),
        m1.times(Fx::one()).plus(m2.times(Fx::whole(-1))),
        Fx::zero(),
    );
}

/// The lobbed-projectile program of the harvester's exploding
/// pumpkin: a one-armed underhand lob.  When the character stands
/// still the left leg braces as well.
pub open spec fn pumpkin_throw_pose(
    prev: Pose,
    a: SkeletonAttr,
    g: GaitVals,
    stage: Option<StageSection>,
    t: Fx,
) -> Pose {
    let w = stage_weights(stage, t, Ease::Quarter, Ease::Lin, Ease::Quartic);
    let m1 = w.m1;
    let m2 = w.m2;
    let twist = heave_twist(m1, w.m3);
    let thrown = Pose {
        control_l: Xform {
            position: v3(fx_whole(1), fx_whole(2), fx_whole(8)),
            orientation: rot2(Axis::X, fx_div(fx_pi(), fx_whole(2)), Axis::Z, fx_pi()),
            scale: prev.control_l.scale,
        },
        control_r: Xform {
            position: v3(fx_whole(1), fx_whole(1), fx_whole(-2)),
            orientation: rot3(
                Axis::X,
                fx_add(fx_div(fx_pi(), fx_whole(2)), fx_cents(20)),
                Axis::Y,
                fx_whole(-1),
                Axis::Z,
                fx_cents(0),
            ),
            scale: prev.control_r.scale,
        },
        control: Xform {
            position: v3(
                fx_whole(-7),
                fx_add(fx_cents(0), fx_div(a.grip.0, fx_one())),
                fx_div(fx_neg(a.grip.0), fx_cents(80)),
            ),
            orientation: rot2(Axis::X, fx_cents(-140), Axis::Y, fx_cents(-280)),
            scale: prev.control.scale,
        },
        head: Xform {
            position: prev.head.position,
            orientation: rot1(Axis::X, fx_mul(m1, fx_cents(20))),
            scale: prev.head.scale,
        },
        jaw: Xform {
            position: v3(fx_zero(), a.jaw.0, a.jaw.1),
            orientation: rot1(Axis::X, fx_mul(m2, fx_cents(-30))),
            scale: prev.jaw.scale,
        },
        upper_torso: Xform {
            position: v3(
                fx_zero(),
                a.upper_torso.0,
                fx_add(fx_add(a.upper_torso.1, fx_mul(m1, fx_one())), fx_mul(m2, fx_whole(-1))),
            ),
            orientation: rot2(
                Axis::X,
                fx_add(fx_mul(m1, fx_cents(80)), fx_mul(m2, fx_cents(-110))),
                Axis::Z,
                fx_add(
                    fx_add(fx_mul(twist, fx_cents(-20)), fx_mul(m1, fx_cents(-10))),
                    fx_mul(m2, fx_cents(30)),
                ),
            ),
            scale: prev.upper_torso.scale,
        },
        lower_torso: Xform {
            position: prev.lower_torso.position,
            orientation: rot2(
                Axis::X,
                fx_add(fx_mul(m1, fx_cents(-80)), fx_mul(m2, fx_cents(110))),
                Axis::Z,
                fx_add(fx_neg(twist), fx_mul(m1, fx_cents(40))),
            ),
            scale: prev.lower_torso.scale,
        },
        shoulder_l: Xform {
            position: v3(
                fx_neg(a.shoulder.x),
                a.shoulder.y,
                fx_sub(a.shoulder.z, fx_mul(g.foothorir, fx_one())),
            ),
            orientation: rot1(Axis::X, fx_cents(-40)),
            scale: prev.shoulder_l.scale,
        },
        shoulder_r: Xform {
            position: v3(fx_add(a.shoulder.x, fx_mul(m2, fx_whole(-2))), a.shoulder.y, a.shoulder.z),
            orientation: rot3(
                Axis::Y,
                fx_div(fx_mul(m1, fx_neg(fx_pi())), fx_whole(2)),
                Axis::X,
                fx_mul(m2, fx_whole(2)),
                Axis::Z,
                fx_div(fx_mul(m1, fx_neg(fx_pi())), fx_whole(2)),
            ),
            scale: prev.shoulder_r.scale,
        },
        hand_r: Xform {
            position: v3(
                fx_add(fx_add(fx_neg(a.grip.1), fx_mul(m1, fx_whole(-2))), fx_mul(m2, fx_whole(8))),
                fx_add(fx_cents(0), fx_mul(m1, fx_whole(6))),
                fx_add(fx_add(a.grip.0, fx_mul(m1, fx_whole(18))), fx_mul(m2, fx_whole(-19))),
            ),
            orientation: rot3(
                Axis::X,
                fx_add(fx_mul(m1, fx_whole(-3)), fx_mul(m2, fx_whole(3))),
                Axis::Y,
                fx_add(fx_mul(m1, fx_cents(50)), fx_mul(m2, fx_cents(-150))),
                Axis::Z,
                fx_mul(m1, fx_cents(-150)),
            ),
            scale: prev.hand_r.scale,
        },
        ..prev
    };
    if val(g.speed) == 0 {
        Pose {
            leg_l: Xform {
                position: thrown.leg_l.position,
                orientation: rot1(Axis::X, fx_add(fx_mul(m1, fx_cents(80)), fx_mul(m2, fx_cents(-80)))),
                scale: thrown.leg_l.scale,
            },
            foot_l: Xform {
                position: v3(
                    fx_neg(a.foot.x),
                    a.foot.y,
                    fx_add(fx_add(a.foot.z, fx_mul(m1, fx_whole(4))), fx_mul(m2, fx_whole(-4))),
                ),
                orientation: rot1(Axis::X, fx_add(fx_mul(m1, fx_cents(-60)), fx_mul(m2, fx_cents(60)))),
                scale: thrown.foot_l.scale,
            },
            ..thrown
        }
    } else {
        thrown
    }
}

pub fn apply_pumpkin_throw(
    next: &mut Pose,
    a: &SkeletonAttr,
    g: GaitVals,
    stage: Option<StageSection>,
    t: Fx,
)
    requires
        fx_wf(t),
    ensures
        *final(next) == pumpkin_throw_pose(*old(next), *a, g, stage, t),
{
    let w: Weights = stage_weights_exec(stage, t, Ease::Quarter, Ease::Lin, Ease::Quartic);
    let m1: Fx = w.m1;
    let m2: Fx = w.m2;
    let twist: Fx = m1.times(Fx::cents(80)).plus(w.m3.times(Fx::cents(-80)));
    next.control_l.position = V3::new(Fx::whole(1), Fx::whole(2), Fx::whole(8));
    next.control_r.position = V3::new(Fx::whole(1), Fx::whole(1), Fx::whole(-2));
    next.control.position = V3::new(
        Fx::whole(-7),
        Fx::cents(0).plus(a.grip.0.over(Fx::one())),
        a.grip.0.negate().over(Fx::cents(80)),
    );
    next.control_l.orientation = Ori::around(
        Axis::X,
        Fx::micros(crate::curve::PI_MICROS).over(Fx::whole(2)),
    ).chain(Axis::Z, Fx::micros(crate::curve::PI_MICROS));
    next.control_r.orientation = Ori::around(
        Axis::X,
        Fx::micros(crate::curve::PI_MICROS).over(Fx::whole(2)).plus(Fx::cents(20)),
    ).chain(Axis::Y, Fx::whole(-1)).chain(Axis::Z, Fx::cents(0));
    next.control.orientation = Ori::around(Axis::X, Fx::cents(-140)).chain(
        Axis::Y,
        Fx::cents(-280),
    );
    next.head.orientation = Ori::around(Axis::X, m1.times(Fx::cents(20)));
    next.jaw.position = V3::new(Fx::zero(), a.jaw.0, a.jaw.1);
    next.jaw.orientation = Ori::around(Axis::X, m2.times(Fx::cents(-30)));
    next.upper_torso.position = V3::new(
        Fx::zero(),
        a.upper_torso.0,
        a.upper_torso.1.plus(m1.times(Fx::one())).plus(m2.times(Fx::whole(-1))),
    );
    next.upper_torso.orientation = Ori::around(
        Axis::X,
        m1.times(Fx::cents(80)).plus(m2.times(Fx::cents(-110))),
    ).chain(
        Axis::Z,
        twist.times(Fx::cents(-20)).plus(m1.times(Fx::cents(-10))).plus(m2.times(Fx::cents(30))),
    );
    next.lower_torso.orientation = Ori::around(
        Axis::X,
        m1.times(Fx::cents(-80)).plus(m2.times(Fx::cents(110))),
    ).chain(Axis::Z, twist.negate().plus(m1.times(Fx::cents(40))));
    next.shoulder_l.position = V3::new(
        a.shoulder.x.negate(),
        a.shoulder.y,
        a.shoulder.z.minus(g.foothorir.times(Fx::one())),
    );
    next.shoulder_l.orientation = Ori::around(Axis::X, Fx::cents(-40));
    next.shoulder_r.position = V3::new(
        a.shoulder.x.plus(m2.times(Fx::whole(-2))),
        a.shoulder.y,
        a.shoulder.z,
    );
    next.shoulder_r.orientation = Ori::around(
        Axis::Y,
        m1.times(Fx::micros(crate::curve::PI_MICROS).negate()).over(Fx::whole(2)),
    ).chain(Axis::X, m2.times(Fx::whole(2))).chain(
        Axis::Z,
        m1.times(Fx::micros(crate::curve::PI_MICROS).negate()).over(Fx::whole(2)),
    );
    next.hand_r.position = V3::new(
        a.grip.1.negate().plus(m1.times(Fx::whole(-2))).plus(m2.times(Fx::whole(8))),
        Fx::cents(0).plus(m1.times(Fx::whole(6))),
        a.grip.0.plus(m1.times(Fx::whole(18))).plus(m2.times(Fx::whole(-19))),
    );
    next.hand_r.orientation = Ori::around(
        Axis::X,
        m1.times(Fx::whole(-3)).plus(m2.times(Fx::whole(3))),
    ).chain(Axis::Y, m1.times(Fx::cents(50)).plus(m2.times(Fx::cents(-150)))).chain(
        Axis::Z,
        m1.times(Fx::cents(-150)),
    );
    if g.speed.v == 0 {
        next.leg_l.orientation = Ori::around(
            Axis::X,
            m1.times(Fx::cents(80)).plus(m2.times(Fx::cents(-80))),
        );
        next.foot_l.position = V3::new(
            a.foot.x.negate(),
            a.foot.y,
            a.foot.z.plus(m1.times(Fx::whole(4))).plus(m2.times(Fx::whole(-4))),
        );
        next.foot_l.orientation = Ori::around(
            Axis::X,
            m1.times(Fx::cents(-60)).plus(m2.times(Fx::cents(60))),
        );
    }
}

/// The strigoi's projectile volley: the pumpkin lob with the head
/// thrust far forward as the darts leave.
pub open spec fn strigoi_darts_pose(
    prev: Pose,
    a: SkeletonAttr,
    g: GaitVals,
    stage: Option<StageSection>,
    t: Fx,
) -> Pose {
    let w = stage_weights(stage, t, Ease::Quarter, Ease::Lin, Ease::Quartic);
    let m1 = w.m1;
    let m2 = w.m2;
    let thrown = pumpkin_throw_pose(prev, a, g, stage, t);
    Pose {
        head: Xform {
            position: v3(
                fx_sub(fx_add(fx_cents(0), fx_mul(m1, fx_whole(32))), fx_mul(m2, fx_whole(32))),
                fx_add(fx_sub(a.head.0, fx_mul(m1, fx_whole(2))), fx_mul(m2, fx_whole(2))),
                fx_add(fx_sub(a.head.1, fx_mul(m1, fx_whole(8))), fx_mul(m2, fx_whole(8))),
            ),
            orientation: thrown.head.orientation,
            scale: thrown.head.scale,
        },
        ..thrown
    }
}

pub fn apply_strigoi_darts(
    next: &mut Pose,
    a: &SkeletonAttr,
    g: GaitVals,
    stage: Option<StageSection>,
    t: Fx,
)
    requires
        fx_wf(t),
    ensures
        *final(next) == strigoi_darts_pose(*old(next), *a, g, stage, t),
{
    let w: Weights = stage_weights_exec(stage, t, Ease::Quarter, Ease::Lin, Ease::Quartic);
    let m1: Fx = w.m1;
    let m2: Fx = w.m2;
    apply_pumpkin_throw(next, a, g, stage, t);
    next.head.position = V3::new(
        Fx::cents(0).plus(m1.times(Fx::whole(32))).minus(m2.times(Fx::whole(32))),
        a.head.0.minus(m1.times(Fx::whole(2))).plus(m2.times(Fx::whole(2))),
        a.head.1.minus(m1.times(Fx::whole(8))).plus(m2.times(Fx::whole(8))),
    );
}

} // verus!
