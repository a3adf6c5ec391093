//! Weapon archetypes and their immutable configuration.
//!
//! Each [`WeaponKind`] has exactly one [`WeaponDefinition`], looked up by
//! kind and never mutated; the definition decides starting ammo, the minimum
//! spacing between shots and whether a shot spawns a projectile or resolves
//! instantaneously as a ray. Kinds serialize as small integers; an unknown
//! integer is a decode error.

use vstd::prelude::*;

verus! {

broadcast use vstd::string::to_string_from_display_ensures_for_str;

/// Closed enumeration of weapon archetypes.
#[derive(Clone, Copy, PartialEq, Eq, Structural, Hash, Debug)]
pub enum WeaponKind {
    M4,
    Ak47,
    PlasmaRifle,
}

/// Kinds of discrete projectiles a weapon can ask to spawn.
#[derive(Clone, Copy, PartialEq, Eq, Structural, Hash, Debug)]
pub enum ProjectileKind {
    Plasma,
}

/// How a shot leaves the weapon: as a simulated projectile, or as an
/// instantaneous ray with a fixed damage value.
#[derive(Clone, Copy, PartialEq, Eq, Structural, Hash, Debug)]
pub enum WeaponProjectile {
    Projectile(ProjectileKind),
    /// For high-speed "projectiles" resolved by a single ray query.
    Ray { damage: u32 },
}

/// Immutable per-kind configuration. The model and sound identifiers are
/// opaque to this crate; `shoot_interval` is in milliseconds.
#[derive(Clone, Copy, Debug)]
pub struct WeaponDefinition {
    pub model: &'static str,
    pub shot_sound: &'static str,
    pub ammo: u32,
    pub projectile: WeaponProjectile,
    pub shoot_interval: u64,
}

impl WeaponKind {
    /// The small integer a kind serializes as.
    pub open spec fn spec_id(self) -> u32 {
        match self {
            WeaponKind::M4 => 0,
            WeaponKind::Ak47 => 1,
            WeaponKind::PlasmaRifle => 2,
        }
    }

    pub fn id(self) -> (r: u32)
        ensures
            r == self.spec_id(),
    {
        match self {
            WeaponKind::M4 => 0,
            WeaponKind::Ak47 => 1,
            WeaponKind::PlasmaRifle => 2,
        }
    }

    /// Decodes a kind from its integer id; ids other than the three known
    /// ones are a configuration error.
    pub fn new(id: u32) -> (r: Result<WeaponKind, String>)
        ensures
            r is Ok <==> id < 3,
            id < 3 ==> r == Ok::<WeaponKind, String>(WeaponKind::spec_from_id(id as int)),
            r is Err ==> (r->Err_0)@ == "unknown weapon kind"@,
    {
        match id {
            0 => Ok(WeaponKind::M4),
            1 => Ok(WeaponKind::Ak47),
            2 => Ok(WeaponKind::PlasmaRifle),
            _ => Err("unknown weapon kind".to_string()),
        }
    }

    /// The kind a known id decodes to.
    pub open spec fn spec_from_id(id: int) -> WeaponKind {
        if id == 0 {
            WeaponKind::M4
        } else if id == 1 {
            WeaponKind::Ak47
        } else {
            WeaponKind::PlasmaRifle
        }
    }
}

impl Default for WeaponKind {
    fn default() -> (r: Self)
        ensures
            r == WeaponKind::M4,
    {
        WeaponKind::M4
    }
}

/// Kind ids round-trip: decoding the id of any kind yields that kind back.
pub proof fn lemma_kind_id_round_trip(kind: WeaponKind)
    ensures
        WeaponKind::spec_from_id(kind.spec_id() as int) == kind,
{
}

/// The immutable definition of each kind.
pub open spec fn spec_definition(kind: WeaponKind) -> WeaponDefinition {
    match kind {
        WeaponKind::M4 => WeaponDefinition {
            model: "data/models/m4.FBX",
            shot_sound: "data/sounds/m4_shot.ogg",
            ammo: 200,
            projectile: WeaponProjectile::Ray { damage: 15 },
            shoot_interval: 150,
        },
        WeaponKind::Ak47 => WeaponDefinition {
            model: "data/models/ak47.FBX",
            shot_sound: "data/sounds/ak47.ogg",
            ammo: 200,
            projectile: WeaponProjectile::Ray { damage: 17 },
            shoot_interval: 150,
        },
        WeaponKind::PlasmaRifle => WeaponDefinition {
            model: "data/models/plasma_rifle.fbx",
            shot_sound: "data/sounds/plasma_shot.ogg",
            ammo: 100,
            projectile: WeaponProjectile::Projectile(ProjectileKind::Plasma),
            shoot_interval: 250,
        },
    }
}

} // verus!
