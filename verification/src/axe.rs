//! The axe-bucket pose program: a wide sideways wind-up used by every
//! axe ability, with a linear recover.

use vstd::prelude::*;

use crate::fixed::{fx_add, fx_cents, fx_div, fx_mul, fx_neg, fx_one, fx_wf, fx_whole, fx_zero, Fx};
use crate::curve::fx_pi;
use crate::phase::{stage_weights, stage_weights_exec, Ease, StageSection, Weights};
use crate::skeleton::{rot1, rot2, rot3, v3, Axis, Ori, Pose, SkeletonAttr, V3, Xform};

verus! {

/// The axe wind-up program.
pub open spec fn axe_swing_pose(
    prev: Pose,
    a: SkeletonAttr,
    stage: Option<StageSection>,
    t: Fx,
) -> Pose {
    let w = stage_weights(stage, t, Ease::Quarter, Ease::Lin, Ease::Lin);
    let m1 = fx_mul(w.m1, w.pullback);
    let m2 = fx_mul(w.m2, w.pullback);
    Pose {
        shoulder_r: Xform {
            position: prev.shoulder_r.position,
            orientation: rot2(Axis::Y, fx_mul(m1, fx_cents(-50)), Axis::X, fx_mul(m1, fx_cents(-50))),
            scale: prev.shoulder_r.scale,
        },
        head: Xform {
            position: prev.head.position,
            orientation: rot3(
                Axis::X,
                fx_cents(0),
                Axis::Y,
                fx_mul(m1, fx_cents(30)),
                Axis::Z,
                fx_add(fx_mul(m1, fx_cents(-20)), fx_mul(m2, fx_cents(50))),
            ),
            scale: prev.head.scale,
        },
        main: Xform {
            position: v3(fx_zero(), fx_zero(), fx_zero()),
            orientation: rot1(Axis::Z, fx_mul(m1, fx_whole(5))),
            scale: prev.main.scale,
        },
        hand_l: Xform {
            position: v3(a.grip.1, fx_zero(), a.grip.0),
            orientation: rot1(Axis::X, fx_zero()),
            scale: prev.hand_l.scale,
        },
        hand_r: Xform {
            position: v3(fx_neg(a.grip.1), fx_zero(), a.grip.0),
            orientation: rot1(Axis::X, fx_zero()),
            scale: prev.hand_r.scale,
        },
        control_l: Xform {
            position: v3(fx_whole(-1), fx_whole(2), fx_whole(12)),
            orientation: rot2(
                Axis::X,
                fx_add(fx_div(fx_pi(), fx_whole(2)), fx_mul(m1, fx_cents(30))),
                Axis::Y,
                fx_neg(fx_cents(0)),
            ),
            scale: prev.control_l.scale,
        },
        control_r: Xform {
            position: v3(
                fx_add(fx_whole(1), fx_mul(m1, fx_whole(40))),
                fx_whole(2),
                fx_add(fx_whole(-2), fx_mul(m1, fx_whole(10))),
            ),
            orientation: rot3(
                Axis::X,
                fx_add(fx_add(fx_div(fx_pi(), fx_whole(2)), fx_cents(20)), fx_mul(m1, fx_one())),
                Axis::Y,
                fx_cents(0),
                Axis::Z,
                fx_cents(0),
            ),
            scale: prev.control_r.scale,
        },
        control: Xform {
            position: v3(
                fx_add(fx_whole(4), fx_mul(m1, fx_whole(-25))),
                fx_add(fx_add(fx_cents(0), fx_div(a.grip.0, fx_one())), fx_mul(m1, fx_whole(-6))),
                fx_add(fx_div(fx_neg(a.grip.0), fx_cents(80)), fx_mul(m1, fx_whole(10))),
            ),
            orientation: rot3(
                Axis::X,
                fx_add(fx_whole(-1), fx_mul(m1, fx_cents(0))),
                Axis::Y,
                fx_add(fx_cents(-180), fx_mul(m1, fx_whole(2))),
                Axis::Z,
                fx_add(fx_cents(0), fx_mul(m1, fx_neg(fx_cents(0)))),
            ),
            scale: prev.control.scale,
        },
        upper_torso: Xform {
            position: prev.upper_torso.position,
            orientation: rot1(Axis::Y, fx_mul(m1, fx_cents(30))),
            scale: prev.upper_torso.scale,
        },
        lower_torso: Xform {
            position: prev.lower_torso.position,
            orientation: rot1(Axis::Y, fx_mul(m1, fx_cents(-30))),
            scale: prev.lower_torso.scale,
        },
        torso: Xform {
            position: v3(m1, fx_zero(), fx_zero()),
            orientation: prev.torso.orientation,
            scale: prev.torso.scale,
        },
        ..prev
    }
}

pub fn apply_axe_swing(next: &mut Pose, a: &SkeletonAttr, stage: Option<StageSection>, t: Fx)
    requires
        fx_wf(t),
    ensures
        *final(next) == axe_swing_pose(*old(next), *a, stage, t),
{
    let w: Weights = stage_weights_exec(stage, t, Ease::Quarter, Ease::Lin, Ease::Lin);
    let m1: Fx = w.m1.times(w.pullback);
    let m2: Fx = w.m2.times(w.pullback);
    next.shoulder_r.orientation = Ori::around(Axis::Y, m1.times(Fx::cents(-50))).chain(
        Axis::X,
        m1.times(Fx::cents(-50)),
    );
    next.head.orientation = Ori::around(Axis::X, Fx::cents(0)).chain(
        Axis::Y,
        m1.times(Fx::cents(30)),
    ).chain(Axis::Z, m1.times(Fx::cents(-20)).plus(m2.times(Fx::cents(50))));
    next.main.position = V3::new(Fx::zero(), Fx::zero(), Fx::zero());
    next.main.orientation = Ori::around(Axis::Z, m1.times(Fx::whole(5)));
    next.hand_l.position = V3::new(a.grip.1, Fx::zero(), a.grip.0);
    next.hand_r.position = V3::new(a.grip.1.negate(), Fx::zero(), a.grip.0);
    next.hand_l.orientation = Ori::around(Axis::X, Fx::zero());
    next.hand_r.orientation = Ori::around(Axis::X, Fx::zero());
    next.control_l.position = V3::new(Fx::whole(-1), Fx::whole(2), Fx::whole(12));
    next.control_r.position = V3::new(
        Fx::whole(1).plus(m1.times(Fx::whole(40))),
        Fx::whole(2),
        Fx::whole(-2).plus(m1.times(Fx::whole(10))),
    );
    next.control.position = V3::new(
        Fx::whole(4).plus(m1.times(Fx::whole(-25))),
        Fx::cents(0).plus(a.grip.0.over(Fx::one())).plus(m1.times(Fx::whole(-6))),
        a.grip.0.negate().over(Fx::cents(80)).plus(m1.times(Fx::whole(10))),
    );
    next.control_l.orientation = Ori::around(
        Axis::X,
        Fx::micros(crate::curve::PI_MICROS).over(Fx::whole(2)).plus(m1.times(Fx::cents(30))),
    ).chain(Axis::Y, Fx::cents(0).negate());
    next.control_r.orientation = Ori::around(
        Axis::X,
        Fx::micros(crate::curve::PI_MICROS).over(Fx::whole(2)).plus(Fx::cents(20)).plus(
            m1.times(Fx::one()),
        ),
    ).chain(Axis::Y, Fx::cents(0)).chain(Axis::Z, Fx::cents(0));
    next.control.orientation = Ori::around(
        Axis::X,
        Fx::whole(-1).plus(m1.times(Fx::cents(0))),
    ).chain(Axis::Y, Fx::cents(-180).plus(m1.times(Fx::whole(2)))).chain(
        Axis::Z,
        Fx::cents(0).plus(m1.times(Fx::cents(0).negate())),
    );
    next.upper_torso.orientation = Ori::around(Axis::Y, m1.times(Fx::cents(30)));
    next.lower_torso.orientation = Ori::around(Axis::Y, m1.times(Fx::cents(-30)));
    next.torso.position = V3::new(m1, Fx::zero(), Fx::zero());
}

} // verus!
