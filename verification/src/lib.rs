//! A deterministic skeletal pose engine for a humanoid rig.
//!
//! Once per animation frame the engine computes the full set of bone-local
//! transforms for a character as a pure function of the wielded tool kind,
//! the ability being performed, the phase of that ability (buildup, action,
//! recover) and its elapsed time, and the ambient locomotion state.
//!
//! All arithmetic is fixed point over [`fixed::Fx`], so a pose is a pure,
//! bit-reproducible function of its inputs: no rounding mode, no NaN, and
//! the clamps that guard fractional powers are part of the definitions.

pub mod admin;
pub mod axe;
pub mod bow;
pub mod catalog;
pub mod curve;
pub mod fixed;
pub mod gait;
pub mod hammer;
pub mod natural;
pub mod phase;
pub mod sceptre;
pub mod shoot;
pub mod skeleton;
pub mod staff;
pub mod sword;

pub use fixed::Fx;
