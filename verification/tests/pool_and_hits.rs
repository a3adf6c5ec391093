//! Pool lifetimes, hit resolution, laser sight and persistence.

use weapons::actor::{Actor, ActorContainer};
use weapons::definition::WeaponKind;
use weapons::handle::{ActorHandle, BodyHandle, ColliderHandle, FeatureId, NodeHandle};
use weapons::hit::{ray_hit, ColliderParent, RayHitRecord};
use weapons::laser::LaserSight;
use weapons::math::Vec3;
use weapons::pool::{WeaponContainer, WeaponFrame};
use weapons::weapon::Weapon;

fn bare_weapon(kind: WeaponKind) -> Weapon {
    Weapon::new(
        kind,
        NodeHandle::none(),
        NodeHandle::none(),
        NodeHandle::none(),
        NodeHandle::none(),
        NodeHandle::none(),
        LaserSight::new(NodeHandle::none(), NodeHandle::none()),
    )
}

fn collider(i: u32) -> ColliderHandle {
    ColliderHandle { index: i, generation: 1 }
}

fn body(i: u32) -> BodyHandle {
    BodyHandle { index: i, generation: 1 }
}

fn record(c: ColliderHandle, toi: u64, z: i64) -> RayHitRecord {
    RayHitRecord {
        toi,
        position: Vec3::new(0, 0, z),
        normal: Vec3::new(0, 0, -1_000),
        collider: c,
        feature: FeatureId::Face(0),
    }
}

#[test]
fn freed_handle_is_stale_even_after_slot_reuse() {
    let mut pool = WeaponContainer::new();
    let h1 = pool.add(bare_weapon(WeaponKind::M4));
    assert!(pool.contains(h1));
    assert_eq!(pool.index(h1).get_kind(), WeaponKind::M4);

    pool.free(h1);
    assert!(!pool.contains(h1));

    // the next spawn reuses the same underlying slot under a new generation
    let h2 = pool.add(bare_weapon(WeaponKind::Ak47));
    assert_eq!(h2.index, h1.index);
    assert_ne!(h2, h1);
    assert!(!pool.contains(h1));
    assert!(pool.contains(h2));
    assert_eq!(pool.index(h2).get_kind(), WeaponKind::Ak47);
}

#[test]
fn pool_hands_out_distinct_slots() {
    let mut pool = WeaponContainer::new();
    let h1 = pool.add(bare_weapon(WeaponKind::M4));
    let h2 = pool.add(bare_weapon(WeaponKind::PlasmaRifle));
    assert_ne!(h1.index, h2.index);
    assert_eq!(pool.len(), 2);
    assert_eq!(pool.index(h1).get_kind(), WeaponKind::M4);
    assert_eq!(pool.index(h2).get_kind(), WeaponKind::PlasmaRifle);
    pool.index_mut(h2).add_ammo(5);
    assert_eq!(pool.index(h2).ammo(), 105);
    assert_eq!(pool.index(h1).ammo(), 200);
}

#[test]
fn live_handles_walk_the_arena_in_slot_order() {
    let mut pool = WeaponContainer::new();
    let h1 = pool.add(bare_weapon(WeaponKind::M4));
    let h2 = pool.add(bare_weapon(WeaponKind::Ak47));
    let h3 = pool.add(bare_weapon(WeaponKind::PlasmaRifle));
    pool.free(h2);
    let live = pool.live_handles();
    assert_eq!(live, vec![h1, h3]);
    for h in live {
        pool.index_mut(h).add_ammo(1);
    }
    assert_eq!(pool.index(h3).ammo(), 101);
}

#[test]
fn resolver_skips_owner_collider_and_hits_enemy() {
    // two results: 2.0 units away on the owner's own collider, 5.0 units
    // away on the enemy's; the expected hit is the enemy at 5.0
    let owner_handle = ActorHandle { index: 1, generation: 1 };
    let enemy_handle = ActorHandle { index: 2, generation: 1 };
    let owner_collider = collider(10);
    let enemy_collider = collider(20);

    let mut actors = ActorContainer::new();
    actors.add(owner_handle, Actor { body: body(1), colliders: vec![owner_collider] });
    actors.add(enemy_handle, Actor { body: body(2), colliders: vec![enemy_collider] });

    let colliders = vec![
        ColliderParent { collider: owner_collider, body: body(1) },
        ColliderParent { collider: enemy_collider, body: body(2) },
    ];

    let mut pool = WeaponContainer::new();
    let mut w = bare_weapon(WeaponKind::M4);
    w.set_owner(owner_handle);
    let h = pool.add(w);

    let query = vec![record(owner_collider, 2_000, 2_000), record(enemy_collider, 5_000, 5_000)];
    let hit = ray_hit(&query, h, &pool, &actors, &colliders, owner_collider).unwrap();
    assert_eq!(hit.actor, enemy_handle);
    assert_eq!(hit.who, owner_handle);
    assert_eq!(hit.position, Vec3::new(0, 0, 5_000));
    assert_eq!(hit.collider, enemy_collider);
}

#[test]
fn resolver_classifies_owner_body_as_environment() {
    // the nearest qualifying record strikes the owner's own body through a
    // second collider: environment hit at that same point, no skipping
    let owner_handle = ActorHandle { index: 1, generation: 1 };
    let main_collider = collider(10);
    let second_collider = collider(11);

    let mut actors = ActorContainer::new();
    actors.add(owner_handle, Actor { body: body(1), colliders: vec![main_collider] });

    let colliders = vec![
        ColliderParent { collider: main_collider, body: body(1) },
        ColliderParent { collider: second_collider, body: body(1) },
    ];

    let mut pool = WeaponContainer::new();
    let mut w = bare_weapon(WeaponKind::M4);
    w.set_owner(owner_handle);
    let h = pool.add(w);

    let far_wall = collider(30);
    let query = vec![record(second_collider, 1_000, 1_000), record(far_wall, 9_000, 9_000)];
    let hit = ray_hit(&query, h, &pool, &actors, &colliders, main_collider).unwrap();
    assert_eq!(hit.actor, ActorHandle::none());
    assert_eq!(hit.position, Vec3::new(0, 0, 1_000));
    assert_eq!(hit.collider, second_collider);
}

#[test]
fn resolver_returns_no_hit_when_nothing_qualifies() {
    let pool = WeaponContainer::new();
    let actors = ActorContainer::new();
    let colliders: Vec<ColliderParent> = Vec::new();
    let ignored = collider(10);

    let empty: Vec<RayHitRecord> = Vec::new();
    assert!(ray_hit(&empty, weapons::handle::WeaponHandle::none(), &pool, &actors, &colliders, ignored).is_none());

    let all_ignored = vec![record(ignored, 1_000, 1_000), record(ignored, 2_000, 2_000)];
    assert!(ray_hit(&all_ignored, weapons::handle::WeaponHandle::none(), &pool, &actors, &colliders, ignored).is_none());
}

#[test]
fn environment_hit_without_weapon_owner() {
    let pool = WeaponContainer::new();
    let actors = ActorContainer::new();
    let wall = collider(42);
    let colliders = vec![ColliderParent { collider: wall, body: body(9) }];
    let query = vec![record(wall, 3_000, 3_000)];
    let hit = ray_hit(
        &query,
        weapons::handle::WeaponHandle::none(),
        &pool,
        &actors,
        &colliders,
        collider(1),
    )
    .unwrap();
    assert_eq!(hit.actor, ActorHandle::none());
    assert_eq!(hit.who, ActorHandle::none());
    assert_eq!(hit.feature, FeatureId::Face(0));
}

#[test]
fn laser_pose_uses_first_non_excluded_result() {
    let sight = LaserSight::new(NodeHandle::none(), NodeHandle::none());
    let own = collider(1);
    let wall = collider(2);
    let query = vec![record(own, 1_000, 1_000), record(wall, 2_000, 2_000)];
    let position = Vec3::new(0, 0, 0);
    let direction = Vec3::new(0, 0, 1_000);
    let pose = sight.update(&query, position, direction, own).unwrap();
    assert_eq!(pose.ray_length_ticks, 2_000);
    assert_eq!(pose.position, position);
    // tip sits a tenth of the aim direction behind the hit point
    assert_eq!(pose.tip_position, Vec3::new(0, 0, 1_900));

    let nothing = sight.update(&vec![record(own, 1_000, 1_000)], position, direction, own);
    assert!(nothing.is_none());
}

#[test]
fn pool_update_advances_every_live_weapon() {
    let mut pool = WeaponContainer::new();
    let mut w = bare_weapon(WeaponKind::M4);
    w.offset = Vec3::new(0, 0, -50);
    w.muzzle_flash_timer = 20;
    let h = pool.add(w);
    let gone = pool.add(bare_weapon(WeaponKind::Ak47));
    pool.free(gone);

    let actors = ActorContainer::new();
    let frame = WeaponFrame {
        model_position: Vec3::new(1, 2, 3),
        shot_point_position: Vec3::new(7, 8, 9),
        look_vector: Vec3::new(0, 0, 1_000),
    };
    let queries = pool.update(16, &vec![frame, frame], &actors);

    assert_eq!(queries.len(), 2);
    let q = queries[0].as_ref().unwrap();
    // no shot-point attachment: falls back to the model position
    assert_eq!(q.begin, Vec3::new(1, 2, 3));
    assert_eq!(q.direction, Vec3::new(0, 0, 1_000));
    assert_eq!(q.ignore, ColliderHandle::none());
    assert!(queries[1].is_none());

    let updated = pool.index(h);
    assert_eq!(updated.offset, Vec3::new(0, 0, -40));
    assert_eq!(updated.muzzle_flash_timer, 4);
    assert_eq!(updated.get_shot_position(), Vec3::new(1, 2, 3));
    assert_eq!(updated.get_shot_direction(), Vec3::new(0, 0, 1_000));
}

#[test]
fn weapon_update_excludes_owner_collider() {
    let owner_handle = ActorHandle { index: 3, generation: 2 };
    let own_collider = collider(77);
    let mut actors = ActorContainer::new();
    actors.add(owner_handle, Actor { body: body(5), colliders: vec![own_collider] });

    let mut w = bare_weapon(WeaponKind::M4);
    w.set_owner(owner_handle);
    let q = w.update(16, Vec3::zero(), Vec3::zero(), Vec3::new(0, 0, 1_000), &actors);
    assert_eq!(q.ignore, own_collider);
    assert_eq!(q.max_len_ticks, 100_000);
}

#[test]
fn pool_snapshot_round_trips() {
    let mut pool = WeaponContainer::new();
    let mut w = bare_weapon(WeaponKind::PlasmaRifle);
    w.set_owner(ActorHandle { index: 6, generation: 2 });
    w.add_ammo(11);
    w.last_shot_time = Some(1_234);
    w.muzzle_flash_timer = 33;
    let h = pool.add(w);
    let gone = pool.add(bare_weapon(WeaponKind::M4));
    pool.free(gone);

    let snapshot = pool.snapshot();
    let restored = WeaponContainer::restore(&snapshot).unwrap();

    assert_eq!(restored.len(), 2);
    assert!(restored.contains(h));
    assert!(!restored.contains(gone));
    let rw = restored.index(h);
    assert_eq!(rw.get_kind(), WeaponKind::PlasmaRifle);
    assert_eq!(rw.ammo(), 111);
    assert_eq!(rw.owner(), ActorHandle { index: 6, generation: 2 });
    assert_eq!(rw.last_shot_time, Some(1_234));
    assert_eq!(rw.muzzle_flash_timer, 33);
    // the definition is re-derived from the kind, not stored
    assert_eq!(rw.definition.ammo, 100);
    assert_eq!(rw.definition.shoot_interval, 250);
}

#[test]
fn restore_rejects_unknown_kind_id() {
    let mut pool = WeaponContainer::new();
    pool.add(bare_weapon(WeaponKind::M4));
    let mut snapshot = pool.snapshot();
    snapshot.slots[0].weapon.as_mut().unwrap().kind_id = 9;
    let err = WeaponContainer::restore(&snapshot).unwrap_err();
    assert_eq!(err, "unknown weapon kind");
}

#[test]
fn weapon_snapshot_round_trips() {
    let mut w = bare_weapon(WeaponKind::Ak47);
    w.offset = Vec3::new(1, -2, 3);
    w.last_shot_time = Some(99);
    let restored = Weapon::restore(&w.snapshot()).unwrap();
    assert_eq!(restored.get_kind(), WeaponKind::Ak47);
    assert_eq!(restored.offset, Vec3::new(1, -2, 3));
    assert_eq!(restored.last_shot_time, Some(99));
    assert_eq!(restored.ammo(), 200);
}
