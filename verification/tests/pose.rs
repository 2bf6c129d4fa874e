use pose_engine::curve::PI_MICROS;
use pose_engine::fixed::Fx;
use pose_engine::gait::gait_vals_exec;
use pose_engine::phase::StageSection;
use pose_engine::shoot::{ShootAnimation, ShootDependency, ToolKind};
use pose_engine::skeleton::{Axis, Ori, Pair, Pose, SkeletonAttr, V3};

fn test_attr() -> SkeletonAttr {
    SkeletonAttr {
        tempo: Fx::one(),
        shoulder: V3::new(Fx::whole(6), Fx::whole(1), Fx::whole(2)),
        hand: V3::new(Fx::whole(3), Fx::whole(1), Fx::whole(-4)),
        jaw: Pair(Fx::whole(1), Fx::whole(2)),
        grip: Pair(Fx::whole(6), Fx::whole(2)),
        head: Pair(Fx::whole(2), Fx::whole(10)),
        upper_torso: Pair(Fx::whole(1), Fx::whole(14)),
        foot: V3::new(Fx::whole(2), Fx::whole(1), Fx::whole(-7)),
        height: Fx::whole(4),
    }
}

fn still_dep(
    tool: Option<ToolKind>,
    stage: Option<StageSection>,
    ability_id: Option<&str>,
) -> ShootDependency {
    ShootDependency {
        active_tool_kind: tool,
        second_tool_kind: None,
        ability_spec: None,
        velocity: V3::new(Fx::zero(), Fx::zero(), Fx::zero()),
        orientation: V3::new(Fx::zero(), Fx::one(), Fx::zero()),
        last_ori: V3::new(Fx::zero(), Fx::one(), Fx::zero()),
        global_time: Fx::zero(),
        stage_section: stage,
        acc_vel: Fx::zero(),
        ability_id: ability_id.map(|s| s.to_string()),
    }
}

fn run(dep: &ShootDependency, t: Fx) -> Pose {
    let prev = Pose::rest();
    let mut rate = Fx::zero();
    let attr = test_attr();
    ShootAnimation::update_skeleton_inner(&prev, dep, t, &mut rate, &attr)
}

/// Repeated invocation on identical inputs yields identical poses.
#[test]
fn determinism_repeated_calls() {
    let dep = still_dep(
        Some(ToolKind::Sceptre),
        Some(StageSection::Action),
        Some("common.abilities.custom.anything"),
    );
    let p1 = run(&dep, Fx::cents(73));
    let p2 = run(&dep, Fx::cents(73));
    assert_eq!(p1, p2);
}

/// No tool, or a tool kind without a shoot bucket, leaves the
/// gait-blended baseline untouched.
#[test]
fn idle_tool_is_baseline() {
    let dep = still_dep(None, None, None);
    let next = run(&dep, Fx::cents(40));

    let attr = test_attr();
    let g = gait_vals_exec(dep.velocity, dep.acc_vel, attr.tempo);
    let mut expected = Pose::rest();
    pose_engine::gait::apply_baseline(&mut expected, &attr, g);
    assert_eq!(next, expected);

    let dagger = still_dep(Some(ToolKind::Dagger), Some(StageSection::Action), None);
    assert_eq!(run(&dagger, Fx::cents(40)), expected);
}

/// With the stage absent the pose is exactly the gait-blended
/// baseline, even with a tool in hand and a matching ability
/// identifier: every ability-specific override is withheld at idle.
#[test]
fn idle_stage_is_baseline() {
    let attr = test_attr();
    let mut expected = Pose::rest();
    let g = gait_vals_exec(
        V3::new(Fx::zero(), Fx::zero(), Fx::zero()),
        Fx::zero(),
        attr.tempo,
    );
    pose_engine::gait::apply_baseline(&mut expected, &attr, g);

    let sceptre = still_dep(Some(ToolKind::Sceptre), None, Some("common.abilities.some.bolt"));
    assert_eq!(run(&sceptre, Fx::cents(77)), expected);

    let knives = still_dep(
        Some(ToolKind::Sword),
        None,
        Some("common.abilities.custom.dullahan.knife_rain"),
    );
    let next = run(&knives, Fx::cents(40));
    assert_eq!(next, expected);
    // In particular the weapon mount stays at the baseline's origin.
    assert_eq!(next.main.position, V3::new(Fx::zero(), Fx::zero(), Fx::zero()));
}

/// Pullback monotonicity on the knife-rain program: within recover
/// the hand pitch falls back toward zero as time advances.
#[test]
fn knife_rain_recover_pullback_monotone() {
    let dep = still_dep(
        Some(ToolKind::Sword),
        Some(StageSection::Recover),
        Some("common.abilities.custom.dullahan.knife_rain"),
    );
    let mut last = i64::MAX;
    for t in [0i64, 20, 45, 70, 95, 100] {
        let next = run(&dep, Fx::cents(t));
        let pitch = match next.hand_l.orientation {
            Ori::R2(first, _) => first.ang,
            other => panic!("unexpected orientation shape: {:?}", other),
        };
        assert!(pitch.v >= 0);
        assert!(pitch.v <= last);
        last = pitch.v;
    }
    // At t = 1 the pullback is complete and the blended pitch is zero.
    let done = run(&dep, Fx::one());
    let pitch = match done.hand_l.orientation {
        Ori::R2(first, _) => first.ang,
        other => panic!("unexpected orientation shape: {:?}", other),
    };
    assert_eq!(pitch, Fx::zero());
}

/// Fallback resolution: an unrecognized ability identifier under the
/// bow gives exactly the default bow program's output.
#[test]
fn unknown_bow_ability_falls_back() {
    let stage = Some(StageSection::Action);
    let unknown = still_dep(Some(ToolKind::Bow), stage, Some("common.abilities.not.registered"));
    let none = still_dep(Some(ToolKind::Bow), stage, None);
    assert_eq!(run(&unknown, Fx::cents(30)), run(&none, Fx::cents(30)));
}

/// A staff with an unmatched identifier runs the same channelled-bolt
/// default as the sceptre bucket.
#[test]
fn staff_default_matches_sceptre() {
    let stage = Some(StageSection::Buildup);
    let staff = still_dep(Some(ToolKind::Staff), stage, Some("common.abilities.unknown.id"));
    let sceptre = still_dep(Some(ToolKind::Sceptre), stage, Some("common.abilities.other.id"));
    assert_eq!(run(&staff, Fx::cents(25)), run(&sceptre, Fx::cents(25)));
}

/// Speed normalization at rest: zero speed gives a zero norm, no
/// phase term contributes, and the shoulders sit at their raw
/// anchors.
#[test]
fn zero_speed_collapses_gait() {
    let attr = test_attr();
    let v0 = V3::new(Fx::zero(), Fx::zero(), Fx::zero());
    let g = gait_vals_exec(v0, Fx::cents(321), attr.tempo);
    assert_eq!(g.speednorm, Fx::zero());
    assert_eq!(g.foothoril, Fx::zero());
    assert_eq!(g.foothorir, Fx::zero());
    assert_eq!(g.footrotl, Fx::zero());
    assert_eq!(g.footrotr, Fx::zero());

    let dep = still_dep(None, None, None);
    let next = run(&dep, Fx::zero());
    assert_eq!(
        next.shoulder_l.position,
        V3::new(Fx::whole(6).negate(), Fx::whole(1), Fx::whole(2))
    );
    assert_eq!(
        next.shoulder_r.position,
        V3::new(Fx::whole(6), Fx::whole(1), Fx::whole(2))
    );
    assert_eq!(next.shoulder_l.orientation, Ori::around(Axis::X, Fx::cents(80)));
}

/// Sceptre scenario at buildup, t = 0.5: `move1` is exactly one half,
/// the shake is `sin(0.5 * 10 + pi)`, later weights are zero, and the
/// grip frame's height matches the closed form
/// `3 + grip.0/1.2 + move1*4 + move2 + shake*2 + move2*(-2)` exactly.
#[test]
fn sceptre_buildup_midpoint_scenario() {
    let dep = still_dep(
        Some(ToolKind::Sceptre),
        Some(StageSection::Buildup),
        Some("common.abilities.any.at.all"),
    );
    let t = Fx::cents(50);
    let next = run(&dep, t);

    let move1 = Fx::cents(50); // linear buildup at t = 0.5, pullback whole
    let move2 = Fx::zero();
    let shake = t.times(Fx::whole(10)).plus(Fx::micros(PI_MICROS)).sin();
    let expected_y = Fx::whole(3)
        .plus(Fx::whole(6).over(Fx::cents(120)))
        .plus(move1.times(Fx::whole(4)))
        .plus(move2)
        .plus(shake.times(Fx::whole(2)))
        .plus(move2.times(Fx::whole(-2)));
    assert_eq!(next.control.position.y, expected_y);

    // The jaw angle is move1 * -0.5: exactly -0.25 radians.
    assert_eq!(next.jaw.orientation, Ori::around(Axis::X, Fx::micros(-250_000)));
}

/// Axe scenario at recover, t = 1: every progress weight saturates,
/// the pullback is zero, and the weapon mount's z-rotation
/// `move1 * 5.0 * pullback` collapses to zero exactly.
#[test]
fn axe_recover_end_scenario() {
    let dep = still_dep(Some(ToolKind::Axe), Some(StageSection::Recover), None);
    let next = run(&dep, Fx::one());
    assert_eq!(next.main.orientation, Ori::around(Axis::Z, Fx::zero()));
    assert_eq!(
        next.shoulder_r.orientation,
        Ori::around(Axis::Y, Fx::zero()).chain(Axis::X, Fx::zero())
    );
    assert_eq!(next.torso.position, V3::new(Fx::zero(), Fx::zero(), Fx::zero()));
}

/// Hide-by-displacement: at recover the minotaur axe-throw program
/// moves both weapon mounts ten million units away, unconditionally
/// and regardless of the phase-local time.
#[test]
fn axethrow_recover_hides_weapons() {
    let dep = still_dep(
        Some(ToolKind::Natural),
        Some(StageSection::Recover),
        Some("common.abilities.custom.minotaur.axethrow"),
    );
    let far_y = Fx::whole(-4).plus(Fx::whole(10_000_000));
    for t in [0i64, 30, 100] {
        let next = run(&dep, Fx::cents(t));
        assert_eq!(next.main.position.x, Fx::whole(-12));
        assert_eq!(next.main.position.y, far_y);
        assert_eq!(next.main.position.z, Fx::whole(-20));
        assert_eq!(next.second.position.y, far_y);
    }
    // Outside recover the mounts stay in reach.
    let buildup = still_dep(
        Some(ToolKind::Natural),
        Some(StageSection::Buildup),
        Some("common.abilities.custom.minotaur.axethrow"),
    );
    let near = run(&buildup, Fx::cents(50));
    assert_eq!(near.main.position.y, Fx::whole(-4));
}

/// The knife-rain buildup easing is the quarter power: at
/// t = 0.0625 the hand pitch is exactly 0.5 * 1.5 = 0.75 radians.
#[test]
fn knife_rain_buildup_exact_quarter_power() {
    let dep = still_dep(
        Some(ToolKind::Sword),
        Some(StageSection::Buildup),
        Some("common.abilities.custom.dullahan.fierce_darts"),
    );
    let next = run(&dep, Fx::micros(62_500));
    let pitch = match next.hand_l.orientation {
        Ori::R2(first, _) => first.ang,
        other => panic!("unexpected orientation shape: {:?}", other),
    };
    assert_eq!(pitch, Fx::micros(750_000));
}

/// The terracotta drop shares the dullahan throw program, and the
/// rate output is the constant one.
#[test]
fn drop_shares_knife_rain_and_rate_is_one() {
    let stage = Some(StageSection::Action);
    let drop = still_dep(
        Some(ToolKind::Natural),
        stage,
        Some("common.abilities.custom.terracotta_demolisher.drop"),
    );
    let knives = still_dep(
        Some(ToolKind::Sword),
        stage,
        Some("common.abilities.custom.dullahan.knife_rain"),
    );
    assert_eq!(run(&drop, Fx::cents(42)), run(&knives, Fx::cents(42)));

    let prev = Pose::rest();
    let mut rate = Fx::zero();
    let attr = test_attr();
    let _ = ShootAnimation::update_skeleton_inner(&prev, &drop, Fx::cents(42), &mut rate, &attr);
    assert_eq!(rate, Fx::one());
}

/// Phase-local time slightly outside the unit range stays harmless:
/// negative times clamp to zero progress before any fractional
/// power, and excess times yield finite, in-range transforms.
#[test]
fn out_of_range_time_is_tolerated() {
    let dep = still_dep(
        Some(ToolKind::Sword),
        Some(StageSection::Buildup),
        Some("common.abilities.custom.dullahan.knife_rain"),
    );
    let early = run(&dep, Fx::cents(-50));
    let pitch = match early.hand_l.orientation {
        Ori::R2(first, _) => first.ang,
        other => panic!("unexpected orientation shape: {:?}", other),
    };
    assert_eq!(pitch, Fx::zero());

    let late = run(&dep, Fx::cents(120));
    let late_pitch = match late.hand_l.orientation {
        Ori::R2(first, _) => first.ang,
        other => panic!("unexpected orientation shape: {:?}", other),
    };
    assert!(late_pitch.in_range());
    assert!(late_pitch.v > 0);
}

/// The mortar's buildup easing is capped at one: past the end of the
/// phase the braced arm stops at its authored offsets exactly.
#[test]
fn lava_mortar_buildup_easing_is_capped() {
    let dep = still_dep(
        Some(ToolKind::Hammer),
        Some(StageSection::Buildup),
        Some("common.abilities.custom.dwarves.forgemaster.lava_mortar"),
    );
    let next = run(&dep, Fx::cents(120));
    // move1 = min(t^(1/4), 1) = 1: control_r sits at (-1+5, 2+1, 2+8).
    assert_eq!(
        next.control_r.position,
        V3::new(Fx::whole(4), Fx::whole(3), Fx::whole(10))
    );
    // The mines ability shares the mortar program.
    let mines = still_dep(
        Some(ToolKind::Hammer),
        Some(StageSection::Buildup),
        Some("common.abilities.custom.dwarves.forgemaster.mines"),
    );
    assert_eq!(run(&mines, Fx::cents(120)), next);
}

/// A fresh pose starts as a clone of the previous frame's pose:
/// bones no program touches carry their old transforms through.
#[test]
fn untouched_bones_carry_over() {
    let dep = still_dep(
        Some(ToolKind::Sceptre),
        Some(StageSection::Action),
        Some("common.abilities.any.bolt"),
    );
    let mut prev = Pose::rest();
    prev.torso.position = V3::new(Fx::whole(9), Fx::whole(8), Fx::whole(7));
    prev.leg_r.orientation = Ori::around(Axis::Z, Fx::cents(33));
    let mut rate = Fx::zero();
    let attr = test_attr();
    let next = ShootAnimation::update_skeleton_inner(&prev, &dep, Fx::cents(60), &mut rate, &attr);
    assert_eq!(next.torso, prev.torso);
    assert_eq!(next.leg_r, prev.leg_r);
}

/// The harvester lob braces the left leg only when standing still.
#[test]
fn pumpkin_leg_brace_depends_on_speed() {
    let id = "common.abilities.custom.harvester.explodingpumpkin";
    let stage = Some(StageSection::Buildup);
    let still = still_dep(Some(ToolKind::Natural), stage, Some(id));
    let braced = run(&still, Fx::one());
    assert_ne!(braced.foot_l.position, Pose::rest().foot_l.position);

    let mut moving = still_dep(Some(ToolKind::Natural), stage, Some(id));
    moving.velocity = V3::new(Fx::whole(3), Fx::whole(4), Fx::zero());
    let attr = test_attr();
    let mut rate = Fx::zero();
    let prev = Pose::rest();
    let running =
        ShootAnimation::update_skeleton_inner(&prev, &moving, Fx::one(), &mut rate, &attr);
    assert_eq!(running.foot_l.position, prev.foot_l.position);
}
