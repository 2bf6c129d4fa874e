//! The skeleton data model.
//!
//! A pose is a complete assignment of a local transform to every bone
//! of the rig.  An orientation is kept as what the programs author: an
//! ordered product of up to three axis rotations.  All types are plain
//! data, so two poses are equal exactly when every field agrees.

use vstd::prelude::*;

use crate::fixed::{fx_wf, Fx};

verus! {

/// A coordinate axis of a bone-local rotation.
#[derive(Clone, Copy, PartialEq, Eq, Structural, Debug)]
pub enum Axis {
    X,
    Y,
    Z,
}

/// One rotation factor: an angle, in radians, about one axis.
#[derive(Clone, Copy, PartialEq, Eq, Structural, Debug)]
pub struct AxisRot {
    pub axis: Axis,
    pub ang: Fx,
}

/// An orientation: an ordered product of one to three axis rotations,
/// applied left to right.
#[derive(Clone, Copy, PartialEq, Eq, Structural, Debug)]
pub enum Ori {
    R1(AxisRot),
    R2(AxisRot, AxisRot),
    R3(AxisRot, AxisRot, AxisRot),
}

/// A three-component vector of scalars.
#[derive(Clone, Copy, PartialEq, Eq, Structural, Debug)]
pub struct V3 {
    pub x: Fx,
    pub y: Fx,
    pub z: Fx,
}

/// One bone's local transform.
#[derive(Clone, Copy, PartialEq, Eq, Structural, Debug)]
pub struct Xform {
    pub position: V3,
    pub orientation: Ori,
    pub scale: V3,
}

/// A full pose: one transform per bone of the rig.
#[derive(Clone, Copy, PartialEq, Eq, Structural, Debug)]
pub struct Pose {
    pub head: Xform,
    pub jaw: Xform,
    pub torso: Xform,
    pub upper_torso: Xform,
    pub lower_torso: Xform,
    pub shoulder_l: Xform,
    pub shoulder_r: Xform,
    pub hand_l: Xform,
    pub hand_r: Xform,
    pub leg_l: Xform,
    pub leg_r: Xform,
    pub foot_l: Xform,
    pub foot_r: Xform,
    pub main: Xform,
    pub second: Xform,
    pub control: Xform,
    pub control_l: Xform,
    pub control_r: Xform,
    pub weapon_l: Xform,
    pub weapon_r: Xform,
    pub arm_control_r: Xform,
}

/// A pair of archetype constants, indexed as `.0` and `.1`.
#[derive(Clone, Copy, PartialEq, Eq, Structural, Debug)]
pub struct Pair(pub Fx, pub Fx);

/// Per-archetype constant geometry, read-only to the engine.
#[derive(Clone, Copy, PartialEq, Eq, Structural, Debug)]
pub struct SkeletonAttr {
    pub tempo: Fx,
    pub shoulder: V3,
    pub hand: V3,
    pub jaw: Pair,
    pub grip: Pair,
    pub head: Pair,
    pub upper_torso: Pair,
    pub foot: V3,
    pub height: Fx,
}

pub open spec fn v3_wf(v: V3) -> bool {
    fx_wf(v.x) && fx_wf(v.y) && fx_wf(v.z)
}

/// Whether an archetype's constants are all within the scalar range.
pub open spec fn attr_wf(a: SkeletonAttr) -> bool {
    fx_wf(a.tempo) && v3_wf(a.shoulder) && v3_wf(a.hand) && fx_wf(a.jaw.0) && fx_wf(a.jaw.1)
        && fx_wf(a.grip.0) && fx_wf(a.grip.1) && fx_wf(a.head.0) && fx_wf(a.head.1) && fx_wf(
        a.upper_torso.0,
    ) && fx_wf(a.upper_torso.1) && v3_wf(a.foot) && fx_wf(a.height)
}

/// A rotation about one axis.
pub open spec fn rot1(axis: Axis, ang: Fx) -> Ori {
    Ori::R1(AxisRot { axis, ang })
}

/// The ordered product of two axis rotations.
pub open spec fn rot2(a1: Axis, g1: Fx, a2: Axis, g2: Fx) -> Ori {
    Ori::R2(AxisRot { axis: a1, ang: g1 }, AxisRot { axis: a2, ang: g2 })
}

/// The ordered product of three axis rotations.
pub open spec fn rot3(a1: Axis, g1: Fx, a2: Axis, g2: Fx, a3: Axis, g3: Fx) -> Ori {
    Ori::R3(
        AxisRot { axis: a1, ang: g1 },
        AxisRot { axis: a2, ang: g2 },
        AxisRot { axis: a3, ang: g3 },
    )
}

pub open spec fn v3(x: Fx, y: Fx, z: Fx) -> V3 {
    V3 { x, y, z }
}

impl V3 {
    pub fn new(x: Fx, y: Fx, z: Fx) -> (r: V3)
        ensures
            r == v3(x, y, z),
    {
        V3 { x, y, z }
    }

    /// The vector with every component equal to `s`.
    pub fn splat(s: Fx) -> (r: V3)
        ensures
            r == v3(s, s, s),
    {
        V3 { x: s, y: s, z: s }
    }
}

/// The rest transform: no offset, no rotation, unit scale.
pub open spec fn rest_xform() -> Xform {
    Xform {
        position: v3(
            crate::fixed::fx_zero(),
            crate::fixed::fx_zero(),
            crate::fixed::fx_zero(),
        ),
        orientation: rot1(Axis::X, crate::fixed::fx_zero()),
        scale: v3(crate::fixed::fx_one(), crate::fixed::fx_one(), crate::fixed::fx_one()),
    }
}

/// The rest pose: every bone at its rest transform.
pub open spec fn rest_pose() -> Pose {
    Pose {
        head: rest_xform(),
        jaw: rest_xform(),
        torso: rest_xform(),
        upper_torso: rest_xform(),
        lower_torso: rest_xform(),
        shoulder_l: rest_xform(),
        shoulder_r: rest_xform(),
        hand_l: rest_xform(),
        hand_r: rest_xform(),
        leg_l: rest_xform(),
        leg_r: rest_xform(),
        foot_l: rest_xform(),
        foot_r: rest_xform(),
        main: rest_xform(),
        second: rest_xform(),
        control: rest_xform(),
        control_l: rest_xform(),
        control_r: rest_xform(),
        weapon_l: rest_xform(),
        weapon_r: rest_xform(),
        arm_control_r: rest_xform(),
    }
}

impl Pose {
    /// A fresh pose with every bone at rest.
    pub fn rest() -> (p: Pose)
        ensures
            p == rest_pose(),
    {
        let x: Xform = Xform {
            position: V3::new(Fx::zero(), Fx::zero(), Fx::zero()),
            orientation: Ori::around(Axis::X, Fx::zero()),
            scale: V3::new(Fx::one(), Fx::one(), Fx::one()),
        };
        Pose {
            head: x,
            jaw: x,
            torso: x,
            upper_torso: x,
            lower_torso: x,
            shoulder_l: x,
            shoulder_r: x,
            hand_l: x,
            hand_r: x,
            leg_l: x,
            leg_r: x,
            foot_l: x,
            foot_r: x,
            main: x,
            second: x,
            control: x,
            control_l: x,
            control_r: x,
            weapon_l: x,
            weapon_r: x,
            arm_control_r: x,
        }
    }
}

impl Ori {
    pub fn around(axis: Axis, ang: Fx) -> (r: Ori)
        ensures
            r == rot1(axis, ang),
    {
        Ori::R1(AxisRot { axis, ang })
    }

    pub fn chain(self, axis: Axis, ang: Fx) -> (r: Ori)
        ensures
            self is R1 ==> r == Ori::R2(self->R1_0, AxisRot { axis, ang }),
            self is R2 ==> r == Ori::R3(self->R2_0, self->R2_1, AxisRot { axis, ang }),
            self is R3 ==> r == self,
    {
        match self {
            Ori::R1(a) => Ori::R2(a, AxisRot { axis, ang }),
            Ori::R2(a, b) => Ori::R3(a, b, AxisRot { axis, ang }),
            Ori::R3(a, b, c) => Ori::R3(a, b, c),
        }
    }
}

} // verus!
