//! The dispatcher: selects the pose program for the frame's tool kind
//! and ability identifier and runs it over the gait-blended baseline.
//!
//! Resolution order: an absent stage means idle — the baseline alone,
//! whatever is wielded; no tool likewise means the baseline alone; a
//! known tool kind selects its bucket; within the bucket an exactly
//! matching ability identifier selects its program, an unmatched or
//! absent one the bucket's default, and a bucket without a default
//! leaves the baseline standing.  No branch fails: unknown
//! identifiers degrade to a neutral pose.

use vstd::prelude::*;

use vstd::string::StringExecFns;

use crate::axe::{apply_axe_swing, axe_swing_pose};
use crate::bow::{apply_bow_shot, bow_shot_pose, default_shot_constants, multishot_constants,
    BowShot};
use crate::fixed::{fx_one, fx_wf, Fx};
use crate::gait::{apply_baseline, baseline_pose, gait_vals, gait_vals_exec, GaitVals};
use crate::hammer::{apply_lava_mortar, apply_optic_blast, lava_mortar_pose, optic_blast_pose};
use crate::natural::{apply_axethrow, apply_demolisher_throw, apply_frostbomb, apply_pumpkin_throw,
    apply_snowball, apply_strigoi_darts, axethrow_pose, demolisher_throw_pose, frostbomb_pose,
    pumpkin_throw_pose, snowball_pose, strigoi_darts_pose};
use crate::phase::StageSection;
use crate::sceptre::{apply_channel_bolt, channel_bolt_pose};
use crate::skeleton::{v3_wf, Pose, SkeletonAttr, V3};
use crate::staff::{apply_necrotic_multiblast, necrotic_multiblast_pose};
use crate::sword::{apply_air_blade, apply_knife_rain, apply_trap, air_blade_pose, knife_rain_pose,
    trap_pose};

verus! {

/// The kind of tool the character wields.  Only some kinds carry shoot
/// programs; the rest fall through to the baseline.
#[derive(Clone, Copy, PartialEq, Eq, Structural, Debug)]
pub enum ToolKind {
    Sword,
    Axe,
    Hammer,
    Bow,
    Staff,
    Sceptre,
    Dagger,
    Shield,
    Spear,
    Blowgun,
    Natural,
    Debug,
    Farming,
    Pick,
    Instrument,
    Empty,
}

/// The per-frame inputs of the shoot animation, handed in by the
/// caller that owns ability state and locomotion.
pub struct ShootDependency {
    pub active_tool_kind: Option<ToolKind>,
    pub second_tool_kind: Option<ToolKind>,
    /// Opaque ability specializer of the secondary tool; unread here.
    pub ability_spec: Option<String>,
    pub velocity: V3,
    pub orientation: V3,
    pub last_ori: V3,
    pub global_time: Fx,
    pub stage_section: Option<StageSection>,
    pub acc_vel: Fx,
    pub ability_id: Option<String>,
}

/// What the dispatcher reads must be within the scalar range.
pub open spec fn dep_wf(dep: ShootDependency) -> bool {
    v3_wf(dep.velocity) && fx_wf(dep.acc_vel)
}

/// The pose for one frame, as a pure function of the previous pose
/// and the frame's inputs.
pub open spec fn update_pose(prev: Pose, dep: ShootDependency, t: Fx, a: SkeletonAttr) -> Pose {
    let g = gait_vals(dep.velocity, dep.acc_vel, a.tempo);
    let base = baseline_pose(prev, a, g);
    let stage = dep.stage_section;
    if stage is None {
        base
    } else {
        match dep.active_tool_kind {
            Some(ToolKind::Sword) => match dep.ability_id {
                Some(id) => if id@ == "common.abilities.custom.dullahan.knife_rain"@ || id@
                    == "common.abilities.custom.dullahan.fierce_darts"@ {
                    knife_rain_pose(base, a, stage, t)
                } else if id@ == "common.abilities.adlet.elder.air_blade"@ {
                    air_blade_pose(base, a, stage, t)
                } else if id@ == "common.abilities.adlet.elder.trap"@ {
                    trap_pose(base, a, stage, t)
                } else {
                    base
                },
                None => base,
            },
            Some(ToolKind::Hammer) => match dep.ability_id {
                Some(id) => if id@ == "common.abilities.custom.cyclops.optic_blast"@ {
                    optic_blast_pose(base, a, stage, t)
                } else if id@ == "common.abilities.custom.dwarves.forgemaster.lava_mortar"@ || id@
                    == "common.abilities.custom.dwarves.forgemaster.mines"@ {
                    lava_mortar_pose(base, a, g, stage, t)
                } else {
                    base
                },
                None => base,
            },
            Some(ToolKind::Sceptre) => channel_bolt_pose(base, a, g, stage, t),
            Some(ToolKind::Staff) => match dep.ability_id {
                Some(id) => if id@
                    == "common.abilities.custom.mindflayer.necroticsphere_multiblast"@ {
                    necrotic_multiblast_pose(base, a, g, stage, t)
                } else {
                    channel_bolt_pose(base, a, g, stage, t)
                },
                None => channel_bolt_pose(base, a, g, stage, t),
            },
            Some(ToolKind::Bow) => match dep.ability_id {
                Some(id) => if id@ == "common.abilities.custom.terracotta_besieger.multishot"@ {
                    bow_shot_pose(base, a, g, stage, t, multishot_spec())
                } else {
                    bow_shot_pose(base, a, g, stage, t, default_shot_spec())
                },
                None => bow_shot_pose(base, a, g, stage, t, default_shot_spec()),
            },
            Some(ToolKind::Axe) => axe_swing_pose(base, a, stage, t),
            Some(ToolKind::Natural) => match dep.ability_id {
                Some(id) => if id@ == "common.abilities.custom.minotaur.axethrow"@ {
                    axethrow_pose(base, a, stage, t)
                } else if id@ == "common.abilities.custom.wendigomagic.frostbomb"@ {
                    frostbomb_pose(base, stage, t)
                } else if id@ == "common.abilities.custom.yeti.snowball"@ {
                    snowball_pose(base, a, stage, t)
                } else if id@ == "common.abilities.custom.terracotta_demolisher.throw"@ {
                    demolisher_throw_pose(base, a, stage, t)
                } else if id@ == "common.abilities.custom.terracotta_demolisher.drop"@ {
                    knife_rain_pose(base, a, stage, t)
                } else if id@ == "common.abilities.custom.harvester.explodingpumpkin"@ {
                    pumpkin_throw_pose(base, a, g, stage, t)
                } else if id@ == "common.abilities.vampire.strigoi.projectiles"@ {
                    strigoi_darts_pose(base, a, g, stage, t)
                } else {
                    base
                },
                None => base,
            },
            _ => base,
        }
    }
}

/// The besieger multishot's authored constants, at spec level.
pub open spec fn multishot_spec() -> BowShot {
    BowShot {
        string_x: crate::fixed::fx_whole(-5),
        bow_x: crate::fixed::fx_whole(4),
        height_lift: crate::fixed::fx_cents(150),
        aim_yaw: crate::fixed::fx_whole(2),
        aim_roll: crate::fixed::fx_cents(10),
    }
}

/// The default bow shot's authored constants, at spec level.
pub open spec fn default_shot_spec() -> BowShot {
    BowShot {
        string_x: crate::fixed::fx_whole(-1),
        bow_x: crate::fixed::fx_whole(0),
        height_lift: crate::fixed::fx_cents(340),
        aim_yaw: crate::fixed::fx_whole(1),
        aim_roll: crate::fixed::fx_cents(-10),
    }
}

/// Whether an ability identifier equals a catalog literal.
fn id_is(id: &String, lit: &str) -> (b: bool)
    ensures
        b == (id@ == lit@),
{
    let s: String = String::from_str(lit);
    *id == s
}

/// The shoot animation: one pose update per frame.
pub struct ShootAnimation;

impl ShootAnimation {
    /// Computes the next pose from the previous one and the frame's
    /// inputs, and sets the animation rate to its constant one.
    pub fn update_skeleton_inner(
        skeleton: &Pose,
        dep: &ShootDependency,
        anim_time: Fx,
        rate: &mut Fx,
        s_a: &SkeletonAttr,
    ) -> (next: Pose)
        requires
            dep_wf(*dep),
            fx_wf(anim_time),
            fx_wf(s_a.tempo),
        ensures
            next == update_pose(*skeleton, *dep, anim_time, *s_a),
            *final(rate) == fx_one(),
    {
        *rate = Fx::one();
        let g: GaitVals = gait_vals_exec(dep.velocity, dep.acc_vel, s_a.tempo);
        let stage: Option<StageSection> = dep.stage_section;
        let mut next: Pose = *skeleton;
        apply_baseline(&mut next, s_a, g);
        if stage.is_some() {
            match dep.active_tool_kind {
                Some(ToolKind::Sword) => match &dep.ability_id {
                    Some(id) => {
                        if id_is(id, "common.abilities.custom.dullahan.knife_rain") || id_is(
                            id,
                            "common.abilities.custom.dullahan.fierce_darts",
                        ) {
                            apply_knife_rain(&mut next, s_a, stage, anim_time);
                        } else if id_is(id, "common.abilities.adlet.elder.air_blade") {
                            apply_air_blade(&mut next, s_a, stage, anim_time);
                        } else if id_is(id, "common.abilities.adlet.elder.trap") {
                            apply_trap(&mut next, s_a, stage, anim_time);
                        }
                    },
                    None => {},
                },
                Some(ToolKind::Hammer) => match &dep.ability_id {
                    Some(id) => {
                        if id_is(id, "common.abilities.custom.cyclops.optic_blast") {
                            apply_optic_blast(&mut next, s_a, stage, anim_time);
                        } else if id_is(id, "common.abilities.custom.dwarves.forgemaster.lava_mortar")
                            || id_is(id, "common.abilities.custom.dwarves.forgemaster.mines") {
                            apply_lava_mortar(&mut next, s_a, g, stage, anim_time);
                        }
                    },
                    None => {},
                },
                Some(ToolKind::Sceptre) => {
                    apply_channel_bolt(&mut next, s_a, g, stage, anim_time);
                },
                Some(ToolKind::Staff) => match &dep.ability_id {
                    Some(id) => {
                        if id_is(id, "common.abilities.custom.mindflayer.necroticsphere_multiblast") {
                            apply_necrotic_multiblast(&mut next, s_a, g, stage, anim_time);
                        } else {
                            apply_channel_bolt(&mut next, s_a, g, stage, anim_time);
                        }
                    },
                    None => {
                        apply_channel_bolt(&mut next, s_a, g, stage, anim_time);
                    },
                },
                Some(ToolKind::Bow) => match &dep.ability_id {
                    Some(id) => {
                        if id_is(id, "common.abilities.custom.terracotta_besieger.multishot") {
                            let k: BowShot = multishot_constants();
                            apply_bow_shot(&mut next, s_a, g, stage, anim_time, k);
                        } else {
                            let k: BowShot = default_shot_constants();
                            apply_bow_shot(&mut next, s_a, g, stage, anim_time, k);
                        }
                    },
                    None => {
                        let k: BowShot = default_shot_constants();
                        apply_bow_shot(&mut next, s_a, g, stage, anim_time, k);
                    },
                },
                Some(ToolKind::Axe) => {
                    apply_axe_swing(&mut next, s_a, stage, anim_time);
                },
                Some(ToolKind::Natural) => match &dep.ability_id {
                    Some(id) => {
                        if id_is(id, "common.abilities.custom.minotaur.axethrow") {
                            apply_axethrow(&mut next, s_a, stage, anim_time);
                        } else if id_is(id, "common.abilities.custom.wendigomagic.frostbomb") {
                            apply_frostbomb(&mut next, stage, anim_time);
                        } else if id_is(id, "common.abilities.custom.yeti.snowball") {
                            apply_snowball(&mut next, s_a, stage, anim_time);
                        } else if id_is(id, "common.abilities.custom.terracotta_demolisher.throw") {
                            apply_demolisher_throw(&mut next, s_a, stage, anim_time);
                        } else if id_is(id, "common.abilities.custom.terracotta_demolisher.drop") {
                            apply_knife_rain(&mut next, s_a, stage, anim_time);
                        } else if id_is(id, "common.abilities.custom.harvester.explodingpumpkin") {
                            apply_pumpkin_throw(&mut next, s_a, g, stage, anim_time);
                        } else if id_is(id, "common.abilities.vampire.strigoi.projectiles") {
                            apply_strigoi_darts(&mut next, s_a, g, stage, anim_time);
                        }
                    },
                    None => {},
                },
                _ => {},
            }
        }
        next
    }
}

/// Determinism: the next pose is a function of the frame's inputs
/// alone, so two results computed from equal inputs are equal.
pub proof fn lemma_update_deterministic(
    prev: Pose,
    dep: ShootDependency,
    t: Fx,
    a: SkeletonAttr,
    r1: Pose,
    r2: Pose,
)
    requires
        r1 == update_pose(prev, dep, t, a),
        r2 == update_pose(prev, dep, t, a),
    ensures
        r1 == r2,
{
}

/// An absent tool kind resolves to the gait-blended baseline alone,
/// and so does a tool kind with no shoot bucket.
pub proof fn lemma_no_bucket_is_baseline(prev: Pose, dep: ShootDependency, t: Fx, a: SkeletonAttr)
    requires
        dep.active_tool_kind == Option::<ToolKind>::None || dep.active_tool_kind == Some(
            ToolKind::Dagger,
        ) || dep.active_tool_kind == Some(ToolKind::Spear),
    ensures
        update_pose(prev, dep, t, a) == baseline_pose(
            prev,
            a,
            gait_vals(dep.velocity, dep.acc_vel, a.tempo),
        ),
{
}

/// The idle invariant: with no active stage every progress weight is
/// zero and every ability-specific override is withheld, so the pose
/// is exactly the gait-blended baseline, whatever tool and ability
/// identifier are in hand.
pub proof fn lemma_idle_stage_is_baseline(prev: Pose, dep: ShootDependency, t: Fx, a: SkeletonAttr)
    requires
        dep.stage_section == Option::<StageSection>::None,
    ensures
        update_pose(prev, dep, t, a) == baseline_pose(
            prev,
            a,
            gait_vals(dep.velocity, dep.acc_vel, a.tempo),
        ),
{
}

/// Fallback resolution: under a known tool kind, an ability identifier
/// that matches no registered program gives exactly the bucket
/// default's output — for the bow, the same pose as no identifier at
/// all; while a stage is active, that is the default bow shot.
#[verifier::rlimit(50)]
pub proof fn lemma_bow_fallback(
    prev: Pose,
    dep: ShootDependency,
    dep_none: ShootDependency,
    t: Fx,
    a: SkeletonAttr,
    id: String,
)
    requires
        dep.active_tool_kind == Some(ToolKind::Bow),
        dep.ability_id == Some(id),
        id@ != "common.abilities.custom.terracotta_besieger.multishot"@,
        dep_none == (ShootDependency { ability_id: Option::<String>::None, ..dep }),
    ensures
        update_pose(prev, dep, t, a) == update_pose(prev, dep_none, t, a),
        dep.stage_section is Some ==> update_pose(prev, dep, t, a) == bow_shot_pose(
            baseline_pose(prev, a, gait_vals(dep.velocity, dep.acc_vel, a.tempo)),
            a,
            gait_vals(dep.velocity, dep.acc_vel, a.tempo),
            dep.stage_section,
            t,
            default_shot_spec(),
        ),
{
    if dep.stage_section is None {
        lemma_idle_stage_is_baseline(prev, dep, t, a);
        lemma_idle_stage_is_baseline(prev, dep_none, t, a);
    }
}

} // verus!
