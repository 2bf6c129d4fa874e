//! The sceptre bolt-channelling program.  Every sceptre ability uses
//! it, and the staff bucket falls back to the same motion.

use vstd::prelude::*;

use crate::fixed::{fx_add, fx_cents, fx_div, fx_mul, fx_neg, fx_one, fx_sub, fx_wf, fx_whole,
    fx_zero, Fx};
use crate::curve::fx_pi;
use crate::gait::GaitVals;
use crate::phase::{buildup_shake, buildup_shake_exec, stage_weights, stage_weights_exec, Ease,
    StageSection, Weights};
use crate::skeleton::{rot1, rot2, rot3, v3, Axis, Ori, Pose, SkeletonAttr, V3, Xform};

verus! {

/// The channelled-bolt program: the grip frame rises with a buildup
/// shake, the head turns in, and the shoulders follow the gait.
pub open spec fn channel_bolt_pose(
    prev: Pose,
    a: SkeletonAttr,
    g: GaitVals,
    stage: Option<StageSection>,
    t: Fx,
) -> Pose {
    let w = stage_weights(stage, t, Ease::Lin, Ease::Quarter, Ease::Lin);
    let shake = buildup_shake(stage, t);
    let m1 = fx_mul(w.m1, w.pullback);
    let m2 = fx_mul(w.m2, w.pullback);
    Pose {
        control_l: Xform {
            position: v3(fx_whole(-1), fx_whole(3), fx_whole(12)),
            orientation: rot2(
                Axis::X,
                fx_add(fx_div(fx_pi(), fx_whole(2)), fx_mul(m1, fx_cents(50))),
                Axis::Y,
                fx_mul(m1, fx_cents(-40)),
            ),
            scale: prev.control_l.scale,
        },
        control_r: Xform {
            position: v3(fx_whole(1), fx_whole(2), fx_whole(2)),
            orientation: rot3(
                Axis::X,
                fx_add(fx_div(fx_pi(), fx_cents(250)), fx_mul(m1, fx_cents(50))),
                Axis::Y,
                fx_cents(50),
                Axis::Z,
                fx_cents(0),
            ),
            scale: prev.control_r.scale,
        },
        control: Xform {
            position: v3(
                fx_whole(-3),
                fx_add(
                    fx_add(
                        fx_add(
                            fx_add(
                                fx_add(fx_whole(3), fx_div(a.grip.0, fx_cents(120))),
                                fx_mul(m1, fx_whole(4)),
                            ),
                            m2,
                        ),
                        fx_mul(shake, fx_whole(2)),
                    ),
                    fx_mul(m2, fx_whole(-2)),
                ),
                fx_add(
                    fx_add(fx_whole(-11), fx_div(fx_neg(a.grip.0), fx_whole(2))),
                    fx_mul(m1, fx_whole(3)),
                ),
            ),
            orientation: rot2(
                Axis::X,
                fx_add(fx_add(fx_cents(-20), fx_mul(m1, fx_cents(-20))), fx_mul(shake, fx_cents(10))),
                Axis::Y,
                fx_add(fx_add(fx_cents(-10), fx_mul(m1, fx_cents(80))), fx_mul(m2, fx_cents(-30))),
            ),
            scale: prev.control.scale,
        },
        head: Xform {
            position: prev.head.position,
            orientation: rot3(
                Axis::X,
                fx_mul(m1, fx_cents(-15)),
                Axis::Y,
                fx_mul(m1, fx_cents(25)),
                Axis::Z,
                fx_mul(m1, fx_cents(25)),
            ),
            scale: prev.head.scale,
        },
        jaw: Xform {
            position: prev.jaw.position,
            orientation: rot1(Axis::X, fx_mul(m1, fx_cents(-50))),
            scale: prev.jaw.scale,
        },
        shoulder_l: Xform {
            position: v3(
                fx_neg(a.shoulder.x),
                a.shoulder.y,
                fx_sub(a.shoulder.z, fx_mul(g.foothorir, fx_one())),
            ),
            orientation: rot1(
                Axis::X,
                fx_add(
                    fx_add(fx_mul(m1, fx_cents(80)), fx_mul(fx_cents(80), g.speednorm)),
                    fx_mul(fx_mul(g.footrotr, fx_cents(-20)), g.speednorm),
                ),
            ),
            scale: prev.shoulder_l.scale,
        },
        shoulder_r: Xform {
            position: v3(
                a.shoulder.x,
                a.shoulder.y,
                fx_sub(a.shoulder.z, fx_mul(g.foothoril, fx_one())),
            ),
            orientation: rot1(
                Axis::X,
                fx_add(
                    fx_add(fx_mul(m1, fx_cents(80)), fx_mul(fx_cents(60), g.speednorm)),
                    fx_mul(g.footrotl, fx_cents(-20)),
                ),
            ),
            scale: prev.shoulder_r.scale,
        },
        ..prev
    }
}

/// Inertness of the bolt program's blended terms: with no active
/// stage every progress weight and the shake are zero, so each
/// tapered term vanishes and the program adds only its rest framing
/// — head and jaw neutral, the grip frame at its constant anchor
/// offsets.  (The dispatcher goes further and withholds programs
/// entirely while no stage is active; this law is about the program
/// itself.)
pub proof fn lemma_channel_bolt_idle(prev: Pose, a: SkeletonAttr, g: GaitVals, t: Fx)
    requires
        crate::skeleton::attr_wf(a),
    ensures
        channel_bolt_pose(prev, a, g, None, t).head.orientation == crate::skeleton::rot3(
            Axis::X,
            fx_zero(),
            Axis::Y,
            fx_zero(),
            Axis::Z,
            fx_zero(),
        ),
        channel_bolt_pose(prev, a, g, None, t).jaw.orientation == rot1(Axis::X, fx_zero()),
        channel_bolt_pose(prev, a, g, None, t).control.position.y == fx_add(
            fx_whole(3),
            fx_div(a.grip.0, fx_cents(120)),
        ),
        channel_bolt_pose(prev, a, g, None, t).control.position.z == fx_add(
            fx_whole(-11),
            fx_div(fx_neg(a.grip.0), fx_whole(2)),
        ),
{
    let w = crate::phase::stage_weights(None, t, Ease::Lin, Ease::Quarter, Ease::Lin);
    crate::phase::lemma_idle_weights(t, Ease::Lin, Ease::Quarter, Ease::Lin);
    let m1 = fx_mul(w.m1, w.pullback);
    let m2 = fx_mul(w.m2, w.pullback);
    crate::fixed::lemma_mul_zero(w.pullback);
    assert(m1 == fx_zero() && m2 == fx_zero());
    crate::fixed::lemma_mul_zero(fx_cents(-15));
    crate::fixed::lemma_mul_zero(fx_cents(25));
    crate::fixed::lemma_mul_zero(fx_cents(-50));
    crate::fixed::lemma_mul_zero(fx_whole(4));
    crate::fixed::lemma_mul_zero(fx_whole(2));
    crate::fixed::lemma_mul_zero(fx_whole(3));
    crate::fixed::lemma_mul_zero(fx_whole(-2));
    let base_y = fx_add(fx_whole(3), fx_div(a.grip.0, fx_cents(120)));
    crate::fixed::lemma_add_zero(base_y);
    crate::fixed::lemma_add_zero(fx_add(base_y, fx_zero()));
    crate::fixed::lemma_add_zero(fx_add(fx_add(base_y, fx_zero()), fx_zero()));
    crate::fixed::lemma_add_zero(fx_add(fx_add(fx_add(base_y, fx_zero()), fx_zero()), fx_zero()));
    let base_z = fx_add(fx_whole(-11), fx_div(fx_neg(a.grip.0), fx_whole(2)));
    crate::fixed::lemma_add_zero(base_z);
}

pub fn apply_channel_bolt(
    next: &mut Pose,
    a: &SkeletonAttr,
    g: GaitVals,
    stage: Option<StageSection>,
    t: Fx,
)
    requires
        fx_wf(t),
    ensures
        *final(next) == channel_bolt_pose(*old(next), *a, g, stage, t),
{
    let w: Weights = stage_weights_exec(stage, t, Ease::Lin, Ease::Quarter, Ease::Lin);
    let shake: Fx = buildup_shake_exec(stage, t);
    let m1: Fx = w.m1.times(w.pullback);
    let m2: Fx = w.m2.times(w.pullback);
    next.control_l.position = V3::new(Fx::whole(-1), Fx::whole(3), Fx::whole(12));
    next.control_r.position = V3::new(Fx::whole(1), Fx::whole(2), Fx::whole(2));
    next.control.position = V3::new(
        Fx::whole(-3),
        Fx::whole(3).plus(a.grip.0.over(Fx::cents(120))).plus(m1.times(Fx::whole(4))).plus(m2).plus(
            shake.times(Fx::whole(2)),
        ).plus(m2.times(Fx::whole(-2))),
        Fx::whole(-11).plus(a.grip.0.negate().over(Fx::whole(2))).plus(m1.times(Fx::whole(3))),
    );
    next.head.orientation = Ori::around(Axis::X, m1.times(Fx::cents(-15))).chain(
        Axis::Y,
        m1.times(Fx::cents(25)),
    ).chain(Axis::Z, m1.times(Fx::cents(25)));
    next.jaw.orientation = Ori::around(Axis::X, m1.times(Fx::cents(-50)));
    next.control_l.orientation = Ori::around(
        Axis::X,
        Fx::micros(crate::curve::PI_MICROS).over(Fx::whole(2)).plus(m1.times(Fx::cents(50))),
    ).chain(Axis::Y, m1.times(Fx::cents(-40)));
    next.control_r.orientation = Ori::around(
        Axis::X,
        Fx::micros(crate::curve::PI_MICROS).over(Fx::cents(250)).plus(m1.times(Fx::cents(50))),
    ).chain(Axis::Y, Fx::cents(50)).chain(Axis::Z, Fx::cents(0));
    next.control.orientation = Ori::around(
        Axis::X,
        Fx::cents(-20).plus(m1.times(Fx::cents(-20))).plus(shake.times(Fx::cents(10))),
    ).chain(Axis::Y, Fx::cents(-10).plus(m1.times(Fx::cents(80))).plus(m2.times(Fx::cents(-30))));
    next.shoulder_l.position = V3::new(
        a.shoulder.x.negate(),
        a.shoulder.y,
        a.shoulder.z.minus(g.foothorir.times(Fx::one())),
    );
    next.shoulder_l.orientation = Ori::around(
        Axis::X,
        m1.times(Fx::cents(80)).plus(Fx::cents(80).times(g.speednorm)).plus(
            g.footrotr.times(Fx::cents(-20)).times(g.speednorm),
        ),
    );
    next.shoulder_r.position = V3::new(
        a.shoulder.x,
        a.shoulder.y,
        a.shoulder.z.minus(g.foothoril.times(Fx::one())),
    );
    next.shoulder_r.orientation = Ori::around(
        Axis::X,
        m1.times(Fx::cents(80)).plus(Fx::cents(60).times(g.speednorm)).plus(
            g.footrotl.times(Fx::cents(-20)),
        ),
    );
}

} // verus!
