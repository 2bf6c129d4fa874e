//! The gait blender: locomotion-driven baseline sway.
//!
//! From the horizontal speed, the accumulated velocity phase and the
//! archetype's cadence it derives a per-side foot phase and a per-side
//! counter-rotation, then writes the baseline shoulder, jaw, weapon
//! mount and hand transforms.  It is independent of ability state and
//! applied first; a pose program may override any of it.

use vstd::prelude::*;

use crate::curve::{fx_pi, fx_sin, fx_sqrt, pow_two_fifths, pow_two_fifths_exec};
use crate::fixed::{fx_add, fx_cents, fx_div, fx_mul, fx_neg, fx_one, fx_sub, fx_wf, fx_whole,
    fx_zero, val, Fx};
use crate::skeleton::{rot1, v3, v3_wf, Axis, Pose, SkeletonAttr, V3, Xform};

verus! {

/// The locomotion terms shared by the baseline and the programs.
#[derive(Clone, Copy, PartialEq, Eq, Structural, Debug)]
pub struct GaitVals {
    /// Horizontal speed: the magnitude of the velocity's ground plane.
    pub speed: Fx,
    /// Normalized speed `(speed / 12)^(2/5)`.
    pub speednorm: Fx,
    /// Left foot horizontal phase.
    pub foothoril: Fx,
    /// Right foot horizontal phase.
    pub foothorir: Fx,
    /// Left foot counter-rotation.
    pub footrotl: Fx,
    /// Right foot counter-rotation.
    pub footrotr: Fx,
}

/// The gait phase angle `acc_vel * lab + pi * c/100`.
pub open spec fn gait_phase(acc_vel: Fx, lab: Fx, c: int) -> Fx {
    fx_add(fx_mul(acc_vel, lab), fx_mul(fx_pi(), fx_cents(c)))
}

/// The normalized-amplitude counter-rotation for one phase value:
/// `sqrt(1 / (0.5 + 0.5 * sin(theta)^2)) * sin(theta) * speednorm`.
pub open spec fn foot_rot(s: Fx, speednorm: Fx) -> Fx {
    let den = fx_add(fx_cents(50), fx_mul(fx_cents(50), fx_mul(s, s)));
    fx_mul(fx_mul(fx_sqrt(fx_div(fx_one(), den)), s), speednorm)
}

/// All locomotion terms, as a pure function of velocity, accumulated
/// velocity phase and cadence.
pub open spec fn gait_vals(velocity: V3, acc_vel: Fx, tempo: Fx) -> GaitVals {
    let speed = fx_sqrt(fx_add(fx_mul(velocity.x, velocity.x), fx_mul(velocity.y, velocity.y)));
    let lab = fx_mul(fx_cents(65), tempo);
    let d = fx_div(speed, fx_whole(12));
    let speednorm = pow_two_fifths(d);
    GaitVals {
        speed,
        speednorm,
        foothoril: fx_mul(fx_sin(gait_phase(acc_vel, lab, 145)), speednorm),
        foothorir: fx_mul(fx_sin(gait_phase(acc_vel, lab, 45)), speednorm),
        footrotl: foot_rot(fx_sin(gait_phase(acc_vel, lab, 140)), speednorm),
        footrotr: foot_rot(fx_sin(gait_phase(acc_vel, lab, 40)), speednorm),
    }
}

fn foot_rot_exec(s: Fx, speednorm: Fx) -> (r: Fx)
    ensures
        r == foot_rot(s, speednorm),
{
    proof {
        crate::fixed::lemma_square_nonneg(s);
        crate::fixed::lemma_mul_nonneg(fx_cents(50), fx_mul(s, s));
    }
    let den: Fx = Fx::cents(50).plus(Fx::cents(50).times(s.times(s)));
    let q: Fx = Fx::one().over(den);
    q.sqrt().times(s).times(speednorm)
}

pub fn gait_vals_exec(velocity: V3, acc_vel: Fx, tempo: Fx) -> (g: GaitVals)
    requires
        v3_wf(velocity),
        fx_wf(acc_vel),
        fx_wf(tempo),
    ensures
        g == gait_vals(velocity, acc_vel, tempo),
{
    let speed: Fx = velocity.x.times(velocity.x).plus(velocity.y.times(velocity.y)).sqrt();
    let lab: Fx = Fx::cents(65).times(tempo);
    let d: Fx = speed.over(Fx::whole(12));
    let speednorm: Fx = pow_two_fifths_exec(d);
    let phase_l: Fx = acc_vel.times(lab).plus(Fx::micros(crate::curve::PI_MICROS).times(
        Fx::cents(145),
    ));
    let phase_r: Fx = acc_vel.times(lab).plus(Fx::micros(crate::curve::PI_MICROS).times(
        Fx::cents(45),
    ));
    let rot_phase_l: Fx = acc_vel.times(lab).plus(Fx::micros(crate::curve::PI_MICROS).times(
        Fx::cents(140),
    ));
    let rot_phase_r: Fx = acc_vel.times(lab).plus(Fx::micros(crate::curve::PI_MICROS).times(
        Fx::cents(40),
    ));
    GaitVals {
        speed,
        speednorm,
        foothoril: phase_l.sin().times(speednorm),
        foothorir: phase_r.sin().times(speednorm),
        footrotl: foot_rot_exec(rot_phase_l.sin(), speednorm),
        footrotr: foot_rot_exec(rot_phase_r.sin(), speednorm),
    }
}

/// The baseline shoulder x-rotation:
/// `0.8 + 1.2 * speednorm + (rot * -0.2) * speednorm`.
pub open spec fn shoulder_swing(rot: Fx, speednorm: Fx) -> Fx {
    fx_add(
        fx_add(fx_cents(80), fx_mul(fx_cents(120), speednorm)),
        fx_mul(fx_mul(rot, fx_cents(-20)), speednorm),
    )
}

/// The gait-blended baseline pose: shoulder sway from the opposite
/// foot's phase, neutral jaw, weapon mount and hands at the grip.
pub open spec fn baseline_pose(prev: Pose, a: SkeletonAttr, g: GaitVals) -> Pose {
    Pose {
        shoulder_l: Xform {
            position: v3(
                fx_neg(a.shoulder.x),
                a.shoulder.y,
                fx_sub(a.shoulder.z, fx_mul(g.foothorir, fx_one())),
            ),
            orientation: rot1(Axis::X, shoulder_swing(g.footrotr, g.speednorm)),
            scale: prev.shoulder_l.scale,
        },
        shoulder_r: Xform {
            position: v3(
                a.shoulder.x,
                a.shoulder.y,
                fx_sub(a.shoulder.z, fx_mul(g.foothoril, fx_one())),
            ),
            orientation: rot1(Axis::X, shoulder_swing(g.footrotl, g.speednorm)),
            scale: prev.shoulder_r.scale,
        },
        jaw: Xform {
            position: v3(fx_zero(), a.jaw.0, a.jaw.1),
            orientation: rot1(Axis::X, fx_zero()),
            scale: prev.jaw.scale,
        },
        main: Xform {
            position: v3(fx_zero(), fx_zero(), fx_zero()),
            orientation: rot1(Axis::X, fx_zero()),
            scale: prev.main.scale,
        },
        hand_l: Xform {
            position: v3(fx_zero(), fx_zero(), a.grip.0),
            orientation: rot1(Axis::X, fx_zero()),
            scale: prev.hand_l.scale,
        },
        hand_r: Xform {
            position: v3(fx_zero(), fx_zero(), a.grip.0),
            orientation: rot1(Axis::X, fx_zero()),
            scale: prev.hand_r.scale,
        },
        ..prev
    }
}

pub fn apply_baseline(next: &mut Pose, a: &SkeletonAttr, g: GaitVals)
    ensures
        *final(next) == baseline_pose(*old(next), *a, g),
{
    next.shoulder_l.position = V3::new(
        a.shoulder.x.negate(),
        a.shoulder.y,
        a.shoulder.z.minus(g.foothorir.times(Fx::one())),
    );
    next.shoulder_l.orientation = swing_rotation(g.footrotr, g.speednorm);
    next.shoulder_r.position = V3::new(
        a.shoulder.x,
        a.shoulder.y,
        a.shoulder.z.minus(g.foothoril.times(Fx::one())),
    );
    next.shoulder_r.orientation = swing_rotation(g.footrotl, g.speednorm);
    next.jaw.position = V3::new(Fx::zero(), a.jaw.0, a.jaw.1);
    next.jaw.orientation = crate::skeleton::Ori::around(Axis::X, Fx::zero());
    next.main.position = V3::new(Fx::zero(), Fx::zero(), Fx::zero());
    next.main.orientation = crate::skeleton::Ori::around(Axis::X, Fx::zero());
    next.hand_l.position = V3::new(Fx::zero(), Fx::zero(), a.grip.0);
    next.hand_r.position = V3::new(Fx::zero(), Fx::zero(), a.grip.0);
    next.hand_l.orientation = crate::skeleton::Ori::around(Axis::X, Fx::zero());
    next.hand_r.orientation = crate::skeleton::Ori::around(Axis::X, Fx::zero());
}

/// Speed-normalization bound: at rest the normalized speed is zero,
/// every phase term vanishes, and the baseline shoulder transforms
/// collapse to the archetype's raw anchor offsets with the constant
/// swing angle alone.
pub proof fn lemma_gait_at_rest(prev: Pose, a: SkeletonAttr, velocity: V3, acc_vel: Fx)
    requires
        val(velocity.x) == 0,
        val(velocity.y) == 0,
        crate::skeleton::attr_wf(a),
    ensures
        gait_vals(velocity, acc_vel, a.tempo).speednorm == fx_zero(),
        gait_vals(velocity, acc_vel, a.tempo).foothoril == fx_zero(),
        gait_vals(velocity, acc_vel, a.tempo).foothorir == fx_zero(),
        gait_vals(velocity, acc_vel, a.tempo).footrotl == fx_zero(),
        gait_vals(velocity, acc_vel, a.tempo).footrotr == fx_zero(),
        baseline_pose(prev, a, gait_vals(velocity, acc_vel, a.tempo)).shoulder_l.position == v3(
            fx_neg(a.shoulder.x),
            a.shoulder.y,
            a.shoulder.z,
        ),
        baseline_pose(prev, a, gait_vals(velocity, acc_vel, a.tempo)).shoulder_r.position == v3(
            a.shoulder.x,
            a.shoulder.y,
            a.shoulder.z,
        ),
        baseline_pose(prev, a, gait_vals(velocity, acc_vel, a.tempo)).shoulder_l.orientation
            == rot1(crate::skeleton::Axis::X, crate::fixed::fx_cents(80)),
{
    let g = gait_vals(velocity, acc_vel, a.tempo);
    assert(val(velocity.x) * val(velocity.x) == 0) by (nonlinear_arith)
        requires
            val(velocity.x) == 0,
    ;
    assert(val(velocity.y) * val(velocity.y) == 0) by (nonlinear_arith)
        requires
            val(velocity.y) == 0,
    ;
    let speed = fx_sqrt(fx_add(fx_mul(velocity.x, velocity.x), fx_mul(velocity.y, velocity.y)));
    assert(speed == fx_zero());
    let d = fx_div(speed, fx_whole(12));
    assert(val(speed) * (crate::fixed::SCALE as int) == 0) by (nonlinear_arith)
        requires
            val(speed) == 0,
    ;
    assert(d == fx_zero());
    crate::fixed::lemma_mul_zero(d);
    assert(g.speednorm == fx_zero());
    let lab = fx_mul(fx_cents(65), a.tempo);
    crate::fixed::lemma_mul_zero(fx_sin(gait_phase(acc_vel, lab, 145)));
    crate::fixed::lemma_mul_zero(fx_sin(gait_phase(acc_vel, lab, 45)));
    let sl = fx_sin(gait_phase(acc_vel, lab, 140));
    let sr = fx_sin(gait_phase(acc_vel, lab, 40));
    let den_l = fx_add(fx_cents(50), fx_mul(fx_cents(50), fx_mul(sl, sl)));
    let den_r = fx_add(fx_cents(50), fx_mul(fx_cents(50), fx_mul(sr, sr)));
    crate::fixed::lemma_mul_zero(fx_mul(fx_sqrt(fx_div(fx_one(), den_l)), sl));
    crate::fixed::lemma_mul_zero(fx_mul(fx_sqrt(fx_div(fx_one(), den_r)), sr));
    crate::fixed::lemma_mul_zero(fx_one());
    crate::fixed::lemma_add_zero(a.shoulder.z);
    crate::fixed::lemma_mul_zero(fx_cents(120));
    crate::fixed::lemma_mul_zero(fx_mul(g.footrotr, fx_cents(-20)));
    crate::fixed::lemma_add_zero(fx_cents(80));
    crate::fixed::lemma_add_zero(fx_add(fx_cents(80), fx_mul(fx_cents(120), g.speednorm)));
}

fn swing_rotation(rot: Fx, speednorm: Fx) -> (r: crate::skeleton::Ori)
    ensures
        r == rot1(Axis::X, shoulder_swing(rot, speednorm)),
{
    crate::skeleton::Ori::around(
        Axis::X,
        Fx::cents(80).plus(Fx::cents(120).times(speednorm)).plus(
            rot.times(Fx::cents(-20)).times(speednorm),
        ),
    )
}

} // verus!
