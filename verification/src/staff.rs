//! Staff-bucket pose programs.  The mindflayer's necrotic-sphere
//! multiblast spins and lifts the torso on top of the shared
//! channelled-bolt motion; every other staff ability uses the
//! channelled bolt unchanged.

use vstd::prelude::*;

use crate::fixed::{fx_add, fx_mul, fx_sub, fx_wf, fx_whole, fx_zero, Fx};
use crate::curve::fx_pi;
use crate::gait::GaitVals;
use crate::phase::{stage_weights, stage_weights_exec, Ease, StageSection, Weights};
use crate::sceptre::{apply_channel_bolt, channel_bolt_pose};
use crate::skeleton::{rot1, v3, Axis, Ori, Pose, SkeletonAttr, V3, Xform};

verus! {

/// The necrotic-sphere multiblast: the channelled bolt plus a full
/// torso turn of `2 pi` per progress unit and a rise of twenty units
/// that falls back as the blast lands.
pub open spec fn necrotic_multiblast_pose(
    prev: Pose,
    a: SkeletonAttr,
    g: GaitVals,
    stage: Option<StageSection>,
    t: Fx,
) -> Pose {
    let w = stage_weights(stage, t, Ease::Lin, Ease::Quarter, Ease::Lin);
    let m1 = fx_mul(w.m1, w.pullback);
    let m2 = fx_mul(w.m2, w.pullback);
    let rotate = fx_add(
        fx_mul(fx_mul(m1, fx_whole(2)), fx_pi()),
        fx_mul(fx_mul(m2, fx_whole(2)), fx_pi()),
    );
    let rise = fx_sub(fx_mul(m1, fx_whole(20)), fx_mul(m2, fx_whole(20)));
    Pose {
        upper_torso: Xform {
            position: v3(fx_zero(), fx_zero(), fx_add(a.upper_torso.1, rise)),
            orientation: rot1(Axis::Z, rotate),
            scale: prev.upper_torso.scale,
        },
        ..channel_bolt_pose(prev, a, g, stage, t)
    }
}

pub fn apply_necrotic_multiblast(
    next: &mut Pose,
    a: &SkeletonAttr,
    g: GaitVals,
    stage: Option<StageSection>,
    t: Fx,
)
    requires
        fx_wf(t),
    ensures
        *final(next) == necrotic_multiblast_pose(*old(next), *a, g, stage, t),
{
    let w: Weights = stage_weights_exec(stage, t, Ease::Lin, Ease::Quarter, Ease::Lin);
    let m1: Fx = w.m1.times(w.pullback);
    let m2: Fx = w.m2.times(w.pullback);
    let rotate: Fx = m1.times(Fx::whole(2)).times(Fx::micros(crate::curve::PI_MICROS)).plus(
        m2.times(Fx::whole(2)).times(Fx::micros(crate::curve::PI_MICROS)),
    );
    let rise: Fx = m1.times(Fx::whole(20)).minus(m2.times(Fx::whole(20)));
    apply_channel_bolt(next, a, g, stage, t);
    next.upper_torso.orientation = Ori::around(Axis::Z, rotate);
    next.upper_torso.position = V3::new(Fx::zero(), Fx::zero(), a.upper_torso.1.plus(rise));
}

} // verus!
