//! Weapon state machine, definitions and math behavior.

use weapons::definition::{ProjectileKind, WeaponKind, WeaponProjectile};
use weapons::handle::{ActorHandle, NodeHandle, WeaponHandle};
use weapons::laser::LaserSight;
use weapons::math::{isqrt, Vec3};
use weapons::message::Message;
use weapons::weapon::Weapon;

fn node(i: u32) -> NodeHandle {
    NodeHandle { index: i, generation: 1 }
}

fn bare_weapon(kind: WeaponKind) -> Weapon {
    Weapon::new(
        kind,
        NodeHandle::none(),
        NodeHandle::none(),
        NodeHandle::none(),
        NodeHandle::none(),
        NodeHandle::none(),
        LaserSight::new(NodeHandle::none(), NodeHandle::none()),
    )
}

#[test]
fn kind_ids_round_trip() {
    for kind in [WeaponKind::M4, WeaponKind::Ak47, WeaponKind::PlasmaRifle] {
        assert_eq!(WeaponKind::new(kind.id()).unwrap(), kind);
    }
    assert_eq!(WeaponKind::M4.id(), 0);
    assert_eq!(WeaponKind::Ak47.id(), 1);
    assert_eq!(WeaponKind::PlasmaRifle.id(), 2);
}

#[test]
fn unknown_kind_id_is_error() {
    let err = WeaponKind::new(3).unwrap_err();
    assert_eq!(err, "unknown weapon kind");
    assert!(WeaponKind::new(u32::MAX).is_err());
}

#[test]
fn definitions_match_kinds() {
    let m4 = Weapon::get_definition(WeaponKind::M4);
    assert_eq!(m4.ammo, 200);
    assert_eq!(m4.shoot_interval, 150);
    assert!(matches!(m4.projectile, WeaponProjectile::Ray { damage: 15 }));
    assert_eq!(m4.model, "data/models/m4.FBX");
    assert_eq!(m4.shot_sound, "data/sounds/m4_shot.ogg");

    let ak = Weapon::get_definition(WeaponKind::Ak47);
    assert!(matches!(ak.projectile, WeaponProjectile::Ray { damage: 17 }));

    let plasma = Weapon::get_definition(WeaponKind::PlasmaRifle);
    assert_eq!(plasma.ammo, 100);
    assert_eq!(plasma.shoot_interval, 250);
    assert!(matches!(
        plasma.projectile,
        WeaponProjectile::Projectile(ProjectileKind::Plasma)
    ));
}

#[test]
fn default_weapon_is_loaded_m4() {
    let w = Weapon::default();
    assert_eq!(w.get_kind(), WeaponKind::M4);
    assert_eq!(w.ammo(), 250);
    assert_eq!(w.owner(), ActorHandle::none());
    assert_eq!(w.last_shot_time, None);
}

#[test]
fn empty_weapon_try_shoot_is_a_no_op() {
    let mut w = bare_weapon(WeaponKind::M4);
    w.ammo = 0;
    w.last_shot_time = Some(40);
    let mut events: Vec<Message> = Vec::new();
    w.try_shoot(WeaponHandle { index: 0, generation: 1 }, 10_000, None, &mut events);
    assert_eq!(events.len(), 0);
    assert_eq!(w.ammo(), 0);
    assert_eq!(w.last_shot_time, Some(40));
}

#[test]
fn interval_scenario_fires_exactly_once() {
    // shoot_interval 150 ms, one round: t=0 fires, t=100 cooling, t=200 empty
    let mut w = bare_weapon(WeaponKind::M4);
    w.ammo = 1;
    let h = WeaponHandle { index: 0, generation: 1 };
    let mut events: Vec<Message> = Vec::new();

    w.try_shoot(h, 0, None, &mut events);
    assert_eq!(w.ammo(), 0);
    assert_eq!(w.last_shot_time, Some(0));
    assert_eq!(events.len(), 2);

    w.try_shoot(h, 100, None, &mut events);
    assert_eq!(events.len(), 2);
    assert_eq!(w.last_shot_time, Some(0));

    w.try_shoot(h, 200, None, &mut events);
    assert_eq!(events.len(), 2);
    assert_eq!(w.ammo(), 0);
}

#[test]
fn second_shot_within_interval_is_rejected() {
    let mut w = bare_weapon(WeaponKind::M4);
    let h = WeaponHandle { index: 0, generation: 1 };
    let mut events: Vec<Message> = Vec::new();
    w.try_shoot(h, 1_000, None, &mut events);
    w.try_shoot(h, 1_149, None, &mut events);
    assert_eq!(w.ammo(), 199);
    assert_eq!(events.len(), 2);
    w.try_shoot(h, 1_150, None, &mut events);
    assert_eq!(w.ammo(), 198);
    assert_eq!(events.len(), 4);
}

#[test]
fn hitscan_shot_emits_sound_then_ray() {
    let mut w = bare_weapon(WeaponKind::M4);
    w.shot_position = Vec3::new(2_000, 0, 0);
    let h = WeaponHandle { index: 3, generation: 7 };
    let mut events: Vec<Message> = Vec::new();
    // aim straight along +z, already unit length
    w.try_shoot(h, 0, Some(Vec3::new(0, 0, 1_000)), &mut events);
    assert_eq!(events.len(), 2);
    match &events[0] {
        Message::PlaySound { path, position, gain, rolloff_factor, radius } => {
            assert_eq!(*path, "data/sounds/m4_shot.ogg");
            assert_eq!(*position, Vec3::new(2_000, 0, 0));
            assert_eq!(*gain, 1_000);
            assert_eq!(*rolloff_factor, 5_000);
            assert_eq!(*radius, 3_000);
        }
        other => panic!("expected PlaySound, got {:?}", other),
    }
    match &events[1] {
        Message::ShootRay { weapon, begin, end, damage } => {
            assert_eq!(*weapon, h);
            assert_eq!(*begin, Vec3::new(2_000, 0, 0));
            // 1000 world units along +z from the shot position
            assert_eq!(*end, Vec3::new(2_000, 0, 1_000_000));
            assert_eq!(*damage, 15);
        }
        other => panic!("expected ShootRay, got {:?}", other),
    }
}

#[test]
fn degenerate_aim_falls_back_to_forward_axis() {
    let mut w = bare_weapon(WeaponKind::M4);
    // cached aim is the zero vector and the caller gives none
    let mut events: Vec<Message> = Vec::new();
    w.try_shoot(WeaponHandle { index: 0, generation: 1 }, 0, None, &mut events);
    match &events[1] {
        Message::ShootRay { end, .. } => {
            assert_eq!(*end, Vec3::new(0, 0, 1_000_000));
        }
        other => panic!("expected ShootRay, got {:?}", other),
    }
}

#[test]
fn plasma_rifle_spawns_projectile() {
    let mut w = bare_weapon(WeaponKind::PlasmaRifle);
    let h = WeaponHandle { index: 1, generation: 2 };
    let mut events: Vec<Message> = Vec::new();
    w.try_shoot(h, 0, Some(Vec3::new(0, 600, 800)), &mut events);
    assert_eq!(events.len(), 2);
    match &events[1] {
        Message::CreateProjectile { kind, direction, owner, initial_velocity, .. } => {
            assert!(matches!(kind, ProjectileKind::Plasma));
            assert_eq!(*direction, Vec3::new(0, 600, 800));
            assert_eq!(*owner, h);
            assert_eq!(*initial_velocity, Vec3::zero());
        }
        other => panic!("expected CreateProjectile, got {:?}", other),
    }
}

#[test]
fn successful_shot_kicks_recoil_and_muzzle_flash() {
    let mut w = Weapon::new(
        WeaponKind::Ak47,
        node(1),
        node(2),
        node(3),
        node(4),
        node(5),
        LaserSight::new(node(6), node(7)),
    );
    let mut events: Vec<Message> = Vec::new();
    w.try_shoot(WeaponHandle { index: 0, generation: 1 }, 500, None, &mut events);
    assert_eq!(w.offset, Vec3::new(0, 0, -50));
    assert_eq!(w.muzzle_flash_timer, 75);
    assert_eq!(w.ammo(), 199);
}

#[test]
fn add_ammo_can_exceed_starting_amount() {
    let mut w = bare_weapon(WeaponKind::PlasmaRifle);
    assert_eq!(w.ammo(), 100);
    w.add_ammo(250);
    assert_eq!(w.ammo(), 350);
}

#[test]
fn owner_can_be_assigned() {
    let mut w = bare_weapon(WeaponKind::M4);
    let a = ActorHandle { index: 4, generation: 9 };
    w.set_owner(a);
    assert_eq!(w.owner(), a);
}

#[test]
fn flash_light_toggles_only_when_present() {
    let mut without = bare_weapon(WeaponKind::M4);
    without.switch_flash_light();
    assert!(!without.flash_light_enabled);

    let mut with = Weapon::new(
        WeaponKind::M4,
        node(1),
        NodeHandle::none(),
        NodeHandle::none(),
        NodeHandle::none(),
        node(9),
        LaserSight::new(NodeHandle::none(), NodeHandle::none()),
    );
    with.switch_flash_light();
    assert!(with.flash_light_enabled);
    with.switch_flash_light();
    assert!(!with.flash_light_enabled);
}

#[test]
fn owned_scene_nodes_cover_model_and_laser_visuals() {
    let w = Weapon::new(
        WeaponKind::M4,
        node(1),
        NodeHandle::none(),
        NodeHandle::none(),
        NodeHandle::none(),
        NodeHandle::none(),
        LaserSight::new(node(6), node(7)),
    );
    assert_eq!(w.owned_scene_nodes(), vec![node(1), node(6), node(7)]);
}

#[test]
fn isqrt_matches_square_root_floor() {
    assert_eq!(isqrt(0), 0);
    assert_eq!(isqrt(1), 1);
    assert_eq!(isqrt(24), 4);
    assert_eq!(isqrt(25), 5);
    assert_eq!(isqrt(26), 5);
    assert_eq!(isqrt(u64::MAX), 0xFFFF_FFFF);
}

#[test]
fn normalize_rescales_to_unit_length() {
    assert_eq!(Vec3::new(3, 4, 0).normalize_or_z(), Vec3::new(600, 800, 0));
    assert_eq!(Vec3::new(0, 0, 5_000).normalize_or_z(), Vec3::new(0, 0, 1_000));
    assert_eq!(Vec3::new(-3, 4, 0).normalize_or_z(), Vec3::new(-600, 800, 0));
    assert_eq!(Vec3::zero().normalize_or_z(), Vec3::z_axis());
}

#[test]
fn follow_damps_one_fifth_toward_target() {
    let kicked = Vec3::new(0, 0, -50);
    let rest = Vec3::zero();
    let once = kicked.follow(&rest);
    assert_eq!(once, Vec3::new(0, 0, -40));
    let twice = once.follow(&rest);
    assert_eq!(twice, Vec3::new(0, 0, -32));
}
