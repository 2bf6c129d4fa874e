//! Hammer-bucket pose programs: the cyclops optic blast and the
//! forgemaster's lava mortar (also used for laying mines).

use vstd::prelude::*;

use crate::fixed::{fx_add, fx_cents, fx_div, fx_mul, fx_neg, fx_one, fx_sub, fx_wf, fx_whole,
    fx_zero, Fx};
use crate::curve::fx_pi;
use crate::gait::GaitVals;
use crate::phase::{action_shake, action_shake_exec, stage_weights, stage_weights_exec, Ease,
    StageSection, Weights};
use crate::skeleton::{rot1, rot2, rot3, v3, Axis, Ori, Pose, SkeletonAttr, V3, Xform};

verus! {

/// The optic-blast program: head and torso lean into a sustained beam
/// while the off hand braces the weapon mount.
pub open spec fn optic_blast_pose(
    prev: Pose,
    a: SkeletonAttr,
    stage: Option<StageSection>,
    t: Fx,
) -> Pose {
    let w = stage_weights(stage, t, Ease::Lin, Ease::Quarter, Ease::Lin);
    let m1 = fx_mul(w.m1, w.pullback);
    let m2 = fx_mul(w.m2, w.pullback);
    Pose {
        head: Xform {
            position: prev.head.position,
            orientation: rot2(
                Axis::X,
                fx_add(fx_mul(m1, fx_cents(25)), fx_mul(m2, fx_cents(-25))),
                Axis::Z,
                fx_mul(m1, fx_cents(25)),
            ),
            scale: prev.head.scale,
        },
        torso: Xform {
            position: prev.torso.position,
            orientation: rot1(Axis::X, fx_add(fx_mul(m1, fx_cents(-25)), fx_mul(m2, fx_cents(25)))),
            scale: prev.torso.scale,
        },
        upper_torso: Xform {
            position: prev.upper_torso.position,
            orientation: rot2(
                Axis::X,
                fx_add(fx_mul(m1, fx_cents(-10)), fx_mul(m2, fx_cents(10))),
                Axis::Z,
                fx_add(fx_mul(m1, fx_cents(-10)), fx_mul(m2, fx_cents(10))),
            ),
            scale: prev.upper_torso.scale,
        },
        foot_l: Xform {
            position: prev.foot_l.position,
            orientation: rot1(Axis::X, fx_add(fx_mul(m1, fx_cents(30)), fx_mul(m2, fx_cents(-30)))),
            scale: prev.foot_l.scale,
        },
        foot_r: Xform {
            position: prev.foot_r.position,
            orientation: rot1(Axis::X, fx_add(fx_mul(m1, fx_cents(30)), fx_mul(m2, fx_cents(-30)))),
            scale: prev.foot_r.scale,
        },
        main: Xform {
            position: v3(fx_zero(), fx_whole(-10), fx_whole(3)),
            orientation: rot1(Axis::X, fx_neg(fx_div(fx_pi(), fx_whole(2)))),
            scale: prev.main.scale,
        },
        weapon_l: Xform {
            position: v3(
                fx_sub(fx_neg(a.hand.x), fx_mul(fx_whole(3), m1)),
                fx_add(fx_add(a.hand.y, fx_whole(4)), fx_mul(fx_whole(8), m1)),
                fx_add(fx_whole(-15), fx_mul(fx_whole(2), m1)),
            ),
            orientation: rot1(Axis::X, fx_mul(m1, fx_cents(60))),
            scale: prev.weapon_l.scale,
        },
        hand_r: Xform {
            position: v3(
                fx_add(a.hand.x, fx_mul(fx_whole(6), m1)),
                fx_add(a.hand.y, fx_whole(4)),
                fx_add(a.hand.z, fx_mul(fx_whole(6), m1)),
            ),
            orientation: rot2(
                Axis::X,
                fx_mul(m1, fx_one()),
                Axis::Y,
                fx_mul(m1, fx_cents(-140)),
            ),
            scale: prev.hand_r.scale,
        },
        shoulder_l: Xform {
            position: prev.shoulder_l.position,
            orientation: rot2(Axis::X, fx_mul(m1, fx_cents(60)), Axis::Y, fx_mul(m1, fx_cents(50))),
            scale: prev.shoulder_l.scale,
        },
        shoulder_r: Xform {
            position: prev.shoulder_r.position,
            orientation: rot2(
                Axis::X,
                fx_mul(m1, fx_cents(140)),
                Axis::Y,
                fx_mul(m1, fx_cents(-50)),
            ),
            scale: prev.shoulder_r.scale,
        },
        ..prev
    }
}

pub fn apply_optic_blast(next: &mut Pose, a: &SkeletonAttr, stage: Option<StageSection>, t: Fx)
    requires
        fx_wf(t),
    ensures
        *final(next) == optic_blast_pose(*old(next), *a, stage, t),
{
    let w: Weights = stage_weights_exec(stage, t, Ease::Lin, Ease::Quarter, Ease::Lin);
    let m1: Fx = w.m1.times(w.pullback);
    let m2: Fx = w.m2.times(w.pullback);
    next.head.orientation = Ori::around(
        Axis::X,
        m1.times(Fx::cents(25)).plus(m2.times(Fx::cents(-25))),
    ).chain(Axis::Z, m1.times(Fx::cents(25)));
    next.torso.orientation = Ori::around(
        Axis::X,
        m1.times(Fx::cents(-25)).plus(m2.times(Fx::cents(25))),
    );
    next.upper_torso.orientation = Ori::around(
        Axis::X,
        m1.times(Fx::cents(-10)).plus(m2.times(Fx::cents(10))),
    ).chain(Axis::Z, m1.times(Fx::cents(-10)).plus(m2.times(Fx::cents(10))));
    next.foot_l.orientation = Ori::around(
        Axis::X,
        m1.times(Fx::cents(30)).plus(m2.times(Fx::cents(-30))),
    );
    next.foot_r.orientation = Ori::around(
        Axis::X,
        m1.times(Fx::cents(30)).plus(m2.times(Fx::cents(-30))),
    );
    next.main.position = V3::new(Fx::zero(), Fx::whole(-10), Fx::whole(3));
    next.main.orientation = Ori::around(
        Axis::X,
        Fx::micros(crate::curve::PI_MICROS).over(Fx::whole(2)).negate(),
    );
    next.weapon_l.position = V3::new(
        a.hand.x.negate().minus(Fx::whole(3).times(m1)),
        a.hand.y.plus(Fx::whole(4)).plus(Fx::whole(8).times(m1)),
        Fx::whole(-15).plus(Fx::whole(2).times(m1)),
    );
    next.weapon_l.orientation = Ori::around(Axis::X, m1.times(Fx::cents(60)));
    next.hand_r.position = V3::new(
        a.hand.x.plus(Fx::whole(6).times(m1)),
        a.hand.y.plus(Fx::whole(4)),
        a.hand.z.plus(Fx::whole(6).times(m1)),
    );
    next.hand_r.orientation = Ori::around(Axis::X, m1.times(Fx::one())).chain(
        Axis::Y,
        m1.times(Fx::cents(-140)),
    );
    next.shoulder_l.orientation = Ori::around(Axis::X, m1.times(Fx::cents(60))).chain(
        Axis::Y,
        m1.times(Fx::cents(50)),
    );
    next.shoulder_r.orientation = Ori::around(Axis::X, m1.times(Fx::cents(140))).chain(
        Axis::Y,
        m1.times(Fx::cents(-50)),
    );
}

/// The lava-mortar program: the mortar is shouldered, shaken while it
/// fires, and lowered over a linear recover.
pub open spec fn lava_mortar_pose(
    prev: Pose,
    a: SkeletonAttr,
    g: GaitVals,
    stage: Option<StageSection>,
    t: Fx,
) -> Pose {
    let w = stage_weights(stage, t, Ease::QuarterCapped, Ease::TenthCapped, Ease::Lin);
    let shake2 = action_shake(stage, t);
    let m1 = fx_mul(w.m1, w.pullback);
    Pose {
        control_l: Xform {
            position: v3(fx_whole(-1), fx_whole(3), fx_whole(6)),
            orientation: rot2(Axis::X, fx_div(fx_pi(), fx_whole(2)), Axis::Y, fx_cents(-50)),
            scale: prev.control_l.scale,
        },
        control_r: Xform {
            position: v3(
                fx_add(fx_whole(-1), fx_mul(m1, fx_whole(5))),
                fx_add(fx_whole(2), fx_mul(m1, fx_one())),
                fx_add(fx_whole(2), fx_mul(m1, fx_whole(8))),
            ),
            orientation: rot3(
                Axis::X,
                fx_add(fx_div(fx_pi(), fx_cents(250)), fx_mul(m1, fx_cents(40))),
                Axis::Y,
                fx_one(),
                Axis::Z,
                fx_add(fx_mul(m1, fx_cents(120)), fx_mul(shake2, fx_cents(50))),
            ),
            scale: prev.control_r.scale,
        },
        control: Xform {
            position: v3(
                fx_add(fx_whole(-3), fx_mul(m1, fx_whole(-5))),
                fx_add(
                    fx_add(
                        fx_add(fx_whole(-2), fx_div(a.grip.0, fx_cents(120))),
                        fx_mul(m1, fx_whole(3)),
                    ),
                    fx_mul(shake2, fx_one()),
                ),
                fx_add(
                    fx_add(fx_whole(8), fx_div(fx_neg(a.grip.0), fx_whole(2))),
                    fx_mul(m1, fx_whole(-2)),
                ),
            ),
            orientation: rot2(
                Axis::X,
                fx_add(fx_cents(-20), fx_mul(m1, fx_cents(-10))),
                Axis::Y,
                fx_add(fx_cents(-10), fx_mul(m1, fx_cents(30))),
            ),
            scale: prev.control.scale,
        },
        head: Xform {
            position: prev.head.position,
            orientation: rot2(Axis::X, fx_mul(m1, fx_cents(-20)), Axis::Y, fx_mul(m1, fx_cents(20))),
            scale: prev.head.scale,
        },
        jaw: Xform {
            position: prev.jaw.position,
            orientation: rot1(Axis::X, fx_zero()),
            scale: prev.jaw.scale,
        },
        shoulder_l: Xform {
            position: v3(
                fx_neg(a.shoulder.x),
                a.shoulder.y,
                fx_sub(a.shoulder.z, fx_mul(g.foothorir, fx_one())),
            ),
            orientation: rot1(
                Axis::X,
                fx_add(
                    fx_add(
                        fx_add(fx_mul(m1, fx_cents(20)), fx_cents(30)),
                        fx_mul(fx_cents(80), g.speednorm),
                    ),
                    fx_mul(g.footrotr, fx_cents(-20)),
                ),
            ),
            scale: prev.shoulder_l.scale,
        },
        shoulder_r: Xform {
            position: v3(
                a.shoulder.x,
                a.shoulder.y,
                fx_sub(a.shoulder.z, fx_mul(g.foothoril, fx_one())),
            ),
            orientation: rot1(
                Axis::X,
                fx_add(
                    fx_add(
                        fx_add(fx_mul(m1, fx_cents(20)), fx_cents(110)),
                        fx_mul(fx_cents(60), g.speednorm),
                    ),
                    fx_mul(g.footrotl, fx_cents(-20)),
                ),
            ),
            scale: prev.shoulder_r.scale,
        },
        ..prev
    }
}

pub fn apply_lava_mortar(
    next: &mut Pose,
    a: &SkeletonAttr,
    g: GaitVals,
    stage: Option<StageSection>,
    t: Fx,
)
    requires
        fx_wf(t),
    ensures
        *final(next) == lava_mortar_pose(*old(next), *a, g, stage, t),
{
    let w: Weights = stage_weights_exec(stage, t, Ease::QuarterCapped, Ease::TenthCapped, Ease::Lin);
    let shake2: Fx = action_shake_exec(stage, t);
    let m1: Fx = w.m1.times(w.pullback);
    next.control_l.position = V3::new(Fx::whole(-1), Fx::whole(3), Fx::whole(6));
    next.control_r.position = V3::new(
        Fx::whole(-1).plus(m1.times(Fx::whole(5))),
        Fx::whole(2).plus(m1.times(Fx::one())),
        Fx::whole(2).plus(m1.times(Fx::whole(8))),
    );
    next.control.position = V3::new(
        Fx::whole(-3).plus(m1.times(Fx::whole(-5))),
        Fx::whole(-2).plus(a.grip.0.over(Fx::cents(120))).plus(m1.times(Fx::whole(3))).plus(
            shake2.times(Fx::one()),
        ),
        Fx::whole(8).plus(a.grip.0.negate().over(Fx::whole(2))).plus(m1.times(Fx::whole(-2))),
    );
    next.head.orientation = Ori::around(Axis::X, m1.times(Fx::cents(-20))).chain(
        Axis::Y,
        m1.times(Fx::cents(20)),
    );
    next.jaw.orientation = Ori::around(Axis::X, Fx::zero());
    next.control_l.orientation = Ori::around(
        Axis::X,
        Fx::micros(crate::curve::PI_MICROS).over(Fx::whole(2)),
    ).chain(Axis::Y, Fx::cents(-50));
    next.control_r.orientation = Ori::around(
        Axis::X,
        Fx::micros(crate::curve::PI_MICROS).over(Fx::cents(250)).plus(m1.times(Fx::cents(40))),
    ).chain(Axis::Y, Fx::one()).chain(
        Axis::Z,
        m1.times(Fx::cents(120)).plus(shake2.times(Fx::cents(50))),
    );
    next.control.orientation = Ori::around(
        Axis::X,
        Fx::cents(-20).plus(m1.times(Fx::cents(-10))),
    ).chain(Axis::Y, Fx::cents(-10).plus(m1.times(Fx::cents(30))));
    next.shoulder_l.position = V3::new(
        a.shoulder.x.negate(),
        a.shoulder.y,
        a.shoulder.z.minus(g.foothorir.times(Fx::one())),
    );
    next.shoulder_l.orientation = Ori::around(
        Axis::X,
        m1.times(Fx::cents(20)).plus(Fx::cents(30)).plus(Fx::cents(80).times(g.speednorm)).plus(
            g.footrotr.times(Fx::cents(-20)),
        ),
    );
    next.shoulder_r.position = V3::new(
        a.shoulder.x,
        a.shoulder.y,
        a.shoulder.z.minus(g.foothoril.times(Fx::one())),
    );
    next.shoulder_r.orientation = Ori::around(
        Axis::X,
        m1.times(Fx::cents(20)).plus(Fx::cents(110)).plus(Fx::cents(60).times(g.speednorm)).plus(
            g.footrotl.times(Fx::cents(-20)),
        ),
    );
}

} // verus!
