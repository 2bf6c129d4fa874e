//! Bow-bucket pose programs: a parameterized draw-and-loose motion.
//! The besieger's multishot and the default bow shot share the same
//! shape and differ only in authored constants.

use vstd::prelude::*;

use crate::fixed::{fx_add, fx_cents, fx_div, fx_mul, fx_neg, fx_one, fx_sub, fx_wf, fx_whole, Fx};
use crate::curve::fx_pi;
use crate::gait::GaitVals;
use crate::phase::{stage_weights, stage_weights_exec, Ease, StageSection, Weights};
use crate::skeleton::{rot1, rot2, rot3, v3, Axis, Ori, Pose, SkeletonAttr, V3, Xform};

verus! {

/// The authored constants that distinguish one bow shot from another.
#[derive(Clone, Copy, PartialEq, Eq, Structural, Debug)]
pub struct BowShot {
    /// Rest x of the string hand's pivot.
    pub string_x: Fx,
    /// Rest x of the bow hand's pivot.
    pub bow_x: Fx,
    /// How strongly the draw lifts with the archetype's height.
    pub height_lift: Fx,
    /// Base yaw of the whole grip frame.
    pub aim_yaw: Fx,
    /// Roll of the whole grip frame.
    pub aim_roll: Fx,
}

/// The draw-and-loose program, shaped by a [`BowShot`]'s constants:
/// quarter-power buildup, linear action, quartic pullback.
pub open spec fn bow_shot_pose(
    prev: Pose,
    a: SkeletonAttr,
    g: GaitVals,
    stage: Option<StageSection>,
    t: Fx,
    k: BowShot,
) -> Pose {
    let w = stage_weights(stage, t, Ease::Quarter, Ease::Lin, Ease::Quartic);
    let m1 = fx_mul(w.m1, w.pullback);
    let m2 = fx_mul(w.m2, w.pullback);
    Pose {
        control_l: Xform {
            position: v3(
                k.string_x,
                fx_add(fx_whole(-2), fx_mul(m2, fx_whole(-7))),
                fx_whole(-3),
            ),
            orientation: rot2(
                Axis::X,
                fx_add(
                    fx_add(fx_mul(m1, fx_cents(20)), fx_div(fx_pi(), fx_whole(2))),
                    fx_mul(m2, fx_cents(40)),
                ),
                Axis::Y,
                fx_cents(-20),
            ),
            scale: prev.control_l.scale,
        },
        control_r: Xform {
            position: v3(k.bow_x, fx_whole(4), fx_whole(1)),
            orientation: rot3(
                Axis::X,
                fx_add(fx_div(fx_pi(), fx_cents(220)), fx_mul(m1, fx_cents(40))),
                Axis::Y,
                fx_cents(40),
                Axis::Z,
                fx_cents(0),
            ),
            scale: prev.control_r.scale,
        },
        control: Xform {
            position: v3(
                fx_add(fx_whole(-1), fx_mul(m1, fx_whole(2))),
                fx_add(fx_add(fx_whole(6), fx_div(a.grip.0, fx_cents(120))), fx_mul(m1, fx_whole(7))),
                fx_add(
                    fx_add(fx_whole(-5), fx_div(fx_neg(a.grip.0), fx_whole(2))),
                    fx_mul(fx_mul(m1, a.height), k.height_lift),
                ),
            ),
            orientation: rot3(
                Axis::X,
                fx_cents(-20),
                Axis::Y,
                fx_add(k.aim_yaw, fx_mul(m1, fx_cents(-40))),
                Axis::Z,
                k.aim_roll,
            ),
            scale: prev.control.scale,
        },
        head: Xform {
            position: prev.head.position,
            orientation: rot1(Axis::Z, fx_mul(m1, fx_cents(25))),
            scale: prev.head.scale,
        },
        shoulder_l: Xform {
            position: v3(
                fx_neg(a.shoulder.x),
                a.shoulder.y,
                fx_sub(a.shoulder.z, fx_mul(g.foothorir, fx_one())),
            ),
            orientation: rot1(
                Axis::X,
                fx_add(
                    fx_add(fx_mul(m1, fx_cents(120)), fx_mul(fx_cents(120), g.speednorm)),
                    fx_mul(g.footrotr, fx_cents(-20)),
                ),
            ),
            scale: prev.shoulder_l.scale,
        },
        shoulder_r: Xform {
            position: v3(
                a.shoulder.x,
                a.shoulder.y,
                fx_sub(a.shoulder.z, fx_mul(g.foothoril, fx_one())),
            ),
            orientation: rot1(
                Axis::X,
                fx_add(
                    fx_add(fx_mul(m1, fx_cents(80)), fx_mul(fx_cents(120), g.speednorm)),
                    fx_mul(g.footrotl, fx_cents(-20)),
                ),
            ),
            scale: prev.shoulder_r.scale,
        },
        ..prev
    }
}

/// The besieger multishot's constants.
pub fn multishot_constants() -> (k: BowShot)
    ensures
        k == (BowShot {
            string_x: fx_whole(-5),
            bow_x: fx_whole(4),
            height_lift: fx_cents(150),
            aim_yaw: fx_whole(2),
            aim_roll: fx_cents(10),
        }),
{
    BowShot {
        string_x: Fx::whole(-5),
        bow_x: Fx::whole(4),
        height_lift: Fx::cents(150),
        aim_yaw: Fx::whole(2),
        aim_roll: Fx::cents(10),
    }
}

/// The default bow shot's constants.
pub fn default_shot_constants() -> (k: BowShot)
    ensures
        k == (BowShot {
            string_x: fx_whole(-1),
            bow_x: fx_whole(0),
            height_lift: fx_cents(340),
            aim_yaw: fx_whole(1),
            aim_roll: fx_cents(-10),
        }),
{
    BowShot {
        string_x: Fx::whole(-1),
        bow_x: Fx::whole(0),
        height_lift: Fx::cents(340),
        aim_yaw: Fx::whole(1),
        aim_roll: Fx::cents(-10),
    }
}

pub fn apply_bow_shot(
    next: &mut Pose,
    a: &SkeletonAttr,
    g: GaitVals,
    stage: Option<StageSection>,
    t: Fx,
    k: BowShot,
)
    requires
        fx_wf(t),
    ensures
        *final(next) == bow_shot_pose(*old(next), *a, g, stage, t, k),
{
    let w: Weights = stage_weights_exec(stage, t, Ease::Quarter, Ease::Lin, Ease::Quartic);
    let m1: Fx = w.m1.times(w.pullback);
    let m2: Fx = w.m2.times(w.pullback);
    next.control_l.position = V3::new(
        k.string_x,
        Fx::whole(-2).plus(m2.times(Fx::whole(-7))),
        Fx::whole(-3),
    );
    next.control_r.position = V3::new(k.bow_x, Fx::whole(4), Fx::whole(1));
    next.control.position = V3::new(
        Fx::whole(-1).plus(m1.times(Fx::whole(2))),
        Fx::whole(6).plus(a.grip.0.over(Fx::cents(120))).plus(m1.times(Fx::whole(7))),
        Fx::whole(-5).plus(a.grip.0.negate().over(Fx::whole(2))).plus(
            m1.times(a.height).times(k.height_lift),
        ),
    );
    next.control_l.orientation = Ori::around(
        Axis::X,
        m1.times(Fx::cents(20)).plus(Fx::micros(crate::curve::PI_MICROS).over(Fx::whole(2))).plus(
            m2.times(Fx::cents(40)),
        ),
    ).chain(Axis::Y, Fx::cents(-20));
    next.control_r.orientation = Ori::around(
        Axis::X,
        Fx::micros(crate::curve::PI_MICROS).over(Fx::cents(220)).plus(m1.times(Fx::cents(40))),
    ).chain(Axis::Y, Fx::cents(40)).chain(Axis::Z, Fx::cents(0));
    next.control.orientation = Ori::around(Axis::X, Fx::cents(-20)).chain(
        Axis::Y,
        k.aim_yaw.plus(m1.times(Fx::cents(-40))),
    ).chain(Axis::Z, k.aim_roll);
    next.head.orientation = Ori::around(Axis::Z, m1.times(Fx::cents(25)));
    next.shoulder_l.position = V3::new(
        a.shoulder.x.negate(),
        a.shoulder.y,
        a.shoulder.z.minus(g.foothorir.times(Fx::one())),
    );
    next.shoulder_l.orientation = Ori::around(
        Axis::X,
        m1.times(Fx::cents(120)).plus(Fx::cents(120).times(g.speednorm)).plus(
            g.footrotr.times(Fx::cents(-20)),
        ),
    );
    next.shoulder_r.position = V3::new(
        a.shoulder.x,
        a.shoulder.y,
        a.shoulder.z.minus(g.foothoril.times(Fx::one())),
    );
    next.shoulder_r.orientation = Ori::around(
        Axis::X,
        m1.times(Fx::cents(80)).plus(Fx::cents(120).times(g.speednorm)).plus(
            g.footrotl.times(Fx::cents(-20)),
        ),
    );
}

} // verus!
