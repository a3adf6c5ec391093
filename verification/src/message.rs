//! Outbound events.
//!
//! A weapon never touches the sound, projectile or damage subsystems
//! directly: a successful shot appends messages to an ordered queue the
//! caller owns and delivers. Delivery is fire-and-forget; nothing flows back.

use crate::definition::ProjectileKind;
use crate::handle::WeaponHandle;
use crate::math::Vec3;
use vstd::prelude::*;

verus! {

/// A side effect requested by a weapon, to be performed by a collaborating
/// subsystem. Sound gain, rolloff and radius are in fixed-point ticks.
#[derive(Clone, Copy, Debug)]
pub enum Message {
    PlaySound {
        path: &'static str,
        position: Vec3,
        gain: i64,
        rolloff_factor: i64,
        radius: i64,
    },
    CreateProjectile {
        kind: ProjectileKind,
        position: Vec3,
        direction: Vec3,
        owner: WeaponHandle,
        initial_velocity: Vec3,
    },
    ShootRay {
        weapon: WeaponHandle,
        begin: Vec3,
        end: Vec3,
        damage: u32,
    },
}

} // verus!
