//! The per-weapon state machine.
//!
//! A weapon is Ready when it has ammunition and its fire interval has
//! elapsed, Empty when out of ammunition, and Cooling down otherwise.
//! `try_shoot` fires only from Ready: it spends one round, records the shot
//! time, kicks the recoil offset, and emits the shot's outbound events;
//! anything else is a strict no-op. `update` advances the per-frame state:
//! recoil damping, the muzzle-flash countdown, the cached shot position and
//! direction, and the laser-sight query for this frame.

use crate::actor::{ignored_collider_of, spec_ignored_collider, ActorContainer};
use crate::definition::{spec_definition, WeaponDefinition, WeaponKind, WeaponProjectile};
use crate::handle::{ActorHandle, NodeHandle, WeaponHandle};
use crate::laser::{LaserQuery, LaserSight, LASER_RANGE_TICKS};
use crate::math::Vec3;
use crate::message::Message;
use vstd::prelude::*;

verus! {

/// How long the muzzle flash stays visible after a shot, in milliseconds.
pub const MUZZLE_FLASH_MS: u64 = 75;

/// Recoil: the model is kicked this far back along its local forward axis
/// (0.05 world units).
pub const RECOIL_OFFSET_Z: i64 = -50;

/// How far a hitscan ray reaches, in world units.
pub const HITSCAN_RANGE_UNITS: i64 = 1000;

/// Shot sound playback parameters, in fixed-point ticks (gain 1.0, rolloff
/// factor 5.0, radius 3.0).
pub const SHOT_SOUND_GAIN: i64 = 1000;

pub const SHOT_SOUND_ROLLOFF: i64 = 5000;

pub const SHOT_SOUND_RADIUS: i64 = 3000;

/// A weapon instance. Fields are public so that contracts and callers can
/// read them; mutate only through the methods, which keep `wf()`.
#[derive(Clone, Copy, Debug)]
pub struct Weapon {
    pub kind: WeaponKind,
    pub model: NodeHandle,
    pub shot_point: NodeHandle,
    pub muzzle_flash: NodeHandle,
    pub shot_light: NodeHandle,
    /// Current visual recoil offset of the model.
    pub offset: Vec3,
    /// Rest target the recoil offset is damped toward.
    pub dest_offset: Vec3,
    /// When the weapon last fired successfully; absent until the first shot.
    pub last_shot_time: Option<u64>,
    /// Shot origin cached by `update` from the scene each frame.
    pub shot_position: Vec3,
    /// Aim direction cached by `update` from the scene each frame.
    pub shot_direction: Vec3,
    /// The actor carrying this weapon; may be the "none" handle.
    pub owner: ActorHandle,
    /// Rounds left; never negative, may exceed the starting amount.
    pub ammo: u32,
    /// Milliseconds until the muzzle-flash visuals hide.
    pub muzzle_flash_timer: u64,
    /// The per-kind configuration; always `spec_definition(kind)`.
    pub definition: WeaponDefinition,
    pub flash_light: NodeHandle,
    /// Whether the flash light is switched on.
    pub flash_light_enabled: bool,
    pub laser_sight: LaserSight,
}

impl Weapon {
    /// Internal consistency: the definition matches the kind and all cached
    /// geometry is within coordinate range.
    pub open spec fn wf(self) -> bool {
        &&& self.definition == spec_definition(self.kind)
        &&& self.offset.in_range()
        &&& self.dest_offset.in_range()
        &&& self.shot_position.in_range()
        &&& self.shot_direction.in_range()
    }

    /// Ready to fire: has ammunition, and the fire interval has elapsed
    /// since the last successful shot (a weapon that never fired is ready).
    pub open spec fn can_shoot(self, now_ms: u64) -> bool {
        &&& self.ammo > 0
        &&& match self.last_shot_time {
            Some(t) => now_ms >= t && now_ms - t >= self.definition.shoot_interval,
            None => true,
        }
    }

    /// The state a ready weapon moves to when fired at `now_ms`.
    pub open spec fn spec_after_shot(self, now_ms: u64) -> Weapon {
        Weapon {
            ammo: (self.ammo - 1) as u32,
            offset: Vec3 { x: 0, y: 0, z: RECOIL_OFFSET_Z },
            last_shot_time: Some(now_ms),
            muzzle_flash_timer: if self.muzzle_flash.spec_is_some() {
                MUZZLE_FLASH_MS
            } else {
                self.muzzle_flash_timer
            },
            ..self
        }
    }

    /// The direction a shot leaves in: the caller's aim if given, else the
    /// cached aim, unit-scaled with a degenerate vector replaced by the
    /// canonical forward axis.
    pub open spec fn spec_shot_direction(self, direction: Option<Vec3>) -> Vec3 {
        (match direction {
            Some(d) => d,
            None => self.shot_direction,
        }).spec_normalize_or_z()
    }

    /// The events a successful shot at the current state emits, in order:
    /// the shot sound, then either a projectile spawn or a hitscan ray over
    /// [`HITSCAN_RANGE_UNITS`].
    pub open spec fn spec_shot_events(
        self,
        self_handle: WeaponHandle,
        direction: Option<Vec3>,
    ) -> Seq<Message> {
        let position = self.shot_position;
        let d = self.spec_shot_direction(direction);
        seq![
            Message::PlaySound {
                path: self.definition.shot_sound,
                position,
                gain: SHOT_SOUND_GAIN,
                rolloff_factor: SHOT_SOUND_ROLLOFF,
                radius: SHOT_SOUND_RADIUS,
            },
        ] + match self.definition.projectile {
            WeaponProjectile::Projectile(kind) => seq![
                Message::CreateProjectile {
                    kind,
                    position,
                    direction: d,
                    owner: self_handle,
                    initial_velocity: Vec3::spec_zero(),
                },
            ],
            WeaponProjectile::Ray { damage } => seq![
                Message::ShootRay {
                    weapon: self_handle,
                    begin: position,
                    end: Vec3::spec_add(position, Vec3::spec_scale(d, HITSCAN_RANGE_UNITS as int)),
                    damage,
                },
            ],
        }
    }

    /// What one frame's `update` does to the weapon state.
    pub open spec fn spec_update(
        self,
        dt_ms: u64,
        model_position: Vec3,
        shot_point_position: Vec3,
        look_vector: Vec3,
    ) -> Weapon {
        Weapon {
            offset: Vec3::spec_follow(self.offset, self.dest_offset),
            shot_position: if self.shot_point.spec_is_some() {
                shot_point_position
            } else {
                model_position
            },
            shot_direction: look_vector,
            muzzle_flash_timer: if self.muzzle_flash_timer >= dt_ms {
                (self.muzzle_flash_timer - dt_ms) as u64
            } else {
                0
            },
            ..self
        }
    }

    /// The laser-sight ray this weapon wants cast, from its cached shot
    /// position along `look_vector`, excluding its owner's own collider.
    pub open spec fn spec_laser_query(
        self,
        look_vector: Vec3,
        actors: Seq<crate::actor::ActorEntry>,
    ) -> LaserQuery {
        LaserQuery {
            begin: self.shot_position,
            direction: look_vector,
            max_len_ticks: LASER_RANGE_TICKS,
            ignore: spec_ignored_collider(actors, self.owner),
        }
    }

    /// The per-kind configuration table.
    pub fn get_definition(kind: WeaponKind) -> (d: WeaponDefinition)
        ensures
            d == spec_definition(kind),
    {
        match kind {
            WeaponKind::M4 => WeaponDefinition {
                model: "data/models/m4.FBX",
                shot_sound: "data/sounds/m4_shot.ogg",
                ammo: 200,
                projectile: WeaponProjectile::Ray { damage: 15 },
                shoot_interval: 150,
            },
            WeaponKind::Ak47 => WeaponDefinition {
                model: "data/models/ak47.FBX",
                shot_sound: "data/sounds/ak47.ogg",
                ammo: 200,
                projectile: WeaponProjectile::Ray { damage: 17 },
                shoot_interval: 150,
            },
            WeaponKind::PlasmaRifle => WeaponDefinition {
                model: "data/models/plasma_rifle.fbx",
                shot_sound: "data/sounds/plasma_shot.ogg",
                ammo: 100,
                projectile: WeaponProjectile::Projectile(
                    crate::definition::ProjectileKind::Plasma,
                ),
                shoot_interval: 250,
            },
        }
    }

    /// A fresh weapon of `kind`, fully loaded, with the scene attachments
    /// the caller resolved (absent attachments are "none" handles).
    pub fn new(
        kind: WeaponKind,
        model: NodeHandle,
        shot_point: NodeHandle,
        muzzle_flash: NodeHandle,
        shot_light: NodeHandle,
        flash_light: NodeHandle,
        laser_sight: LaserSight,
    ) -> (w: Weapon)
        ensures
            w == (Weapon {
                kind,
                model,
                shot_point,
                muzzle_flash,
                shot_light,
                offset: Vec3::spec_zero(),
                dest_offset: Vec3::spec_zero(),
                last_shot_time: None::<u64>,
                shot_position: Vec3::spec_zero(),
                shot_direction: Vec3::spec_zero(),
                owner: ActorHandle::spec_none(),
                ammo: spec_definition(kind).ammo,
                muzzle_flash_timer: 0,
                definition: spec_definition(kind),
                flash_light,
                flash_light_enabled: false,
                laser_sight,
            }),
            w.wf(),
    {
        let definition = Self::get_definition(kind);
        Weapon {
            kind,
            model,
            shot_point,
            muzzle_flash,
            shot_light,
            offset: Vec3::zero(),
            dest_offset: Vec3::zero(),
            last_shot_time: None,
            shot_position: Vec3::zero(),
            shot_direction: Vec3::zero(),
            owner: ActorHandle::none(),
            ammo: definition.ammo,
            muzzle_flash_timer: 0,
            definition,
            flash_light,
            flash_light_enabled: false,
            laser_sight,
        }
    }

    pub fn get_model(&self) -> (h: NodeHandle)
        ensures
            h == self.model,
    {
        self.model
    }

    pub fn get_kind(&self) -> (k: WeaponKind)
        ensures
            k == self.kind,
    {
        self.kind
    }

    /// The cached shot origin for this frame.
    pub fn get_shot_position(&self) -> (p: Vec3)
        ensures
            p == self.shot_position,
    {
        self.shot_position
    }

    /// The cached aim direction for this frame.
    pub fn get_shot_direction(&self) -> (d: Vec3)
        ensures
            d == self.shot_direction,
    {
        self.shot_direction
    }

    pub fn ammo(&self) -> (n: u32)
        ensures
            n == self.ammo,
    {
        self.ammo
    }

    pub fn owner(&self) -> (h: ActorHandle)
        ensures
            h == self.owner,
    {
        self.owner
    }

    pub fn set_owner(&mut self, owner: ActorHandle)
        ensures
            *final(self) == (Weapon { owner, ..*old(self) }),
    {
        self.owner = owner;
    }

    /// Picked-up rounds; ammunition may exceed the starting amount.
    pub fn add_ammo(&mut self, amount: u32)
        requires
            old(self).ammo + amount <= u32::MAX,
        ensures
            *final(self) == (Weapon { ammo: (old(self).ammo + amount) as u32, ..*old(self) }),
    {
        self.ammo = self.ammo + amount;
    }

    /// Toggles the flash light, when the model has one.
    pub fn switch_flash_light(&mut self)
        ensures
            *final(self) == (Weapon {
                flash_light_enabled: if old(self).flash_light.spec_is_some() {
                    !old(self).flash_light_enabled
                } else {
                    old(self).flash_light_enabled
                },
                ..*old(self)
            }),
    {
        if self.flash_light.is_some() {
            self.flash_light_enabled = !self.flash_light_enabled;
        }
    }

    /// The scene nodes this weapon owns: its model and the two laser-sight
    /// visuals, in that order. These are the nodes whose visibility follows
    /// the weapon's, and the nodes to remove when it is destroyed.
    pub fn owned_scene_nodes(&self) -> (ns: Vec<NodeHandle>)
        ensures
            ns@.len() == 3,
            ns@[0] == self.model,
            ns@[1] == self.laser_sight.ray,
            ns@[2] == self.laser_sight.tip,
    {
        let mut ns: Vec<NodeHandle> = Vec::new();
        ns.push(self.model);
        ns.push(self.laser_sight.ray);
        ns.push(self.laser_sight.tip);
        ns
    }

    /// One frame step: damps the recoil offset toward its rest target, runs
    /// the muzzle-flash countdown (the visuals hide once it reaches zero),
    /// caches the scene's current shot position (the shot point attachment
    /// when present, else the model origin) and aim direction, and returns
    /// the laser-sight ray to cast, excluding the owner's own collider.
    pub fn update(
        &mut self,
        dt_ms: u64,
        model_position: Vec3,
        shot_point_position: Vec3,
        look_vector: Vec3,
        actors: &ActorContainer,
    ) -> (q: LaserQuery)
        requires
            old(self).wf(),
            model_position.in_range(),
            shot_point_position.in_range(),
            look_vector.in_range(),
        ensures
            *final(self) == old(self).spec_update(
                dt_ms,
                model_position,
                shot_point_position,
                look_vector,
            ),
            final(self).wf(),
            q == final(self).spec_laser_query(look_vector, actors@),
    {
        self.offset = self.offset.follow(&self.dest_offset);
        self.shot_position = if self.shot_point.is_some() {
            shot_point_position
        } else {
            model_position
        };
        self.shot_direction = look_vector;
        self.muzzle_flash_timer = if self.muzzle_flash_timer >= dt_ms {
            self.muzzle_flash_timer - dt_ms
        } else {
            0
        };
        let ignore = ignored_collider_of(actors, self.owner);
        LaserQuery {
            begin: self.shot_position,
            direction: look_vector,
            max_len_ticks: LASER_RANGE_TICKS,
            ignore,
        }
    }

    /// Fires once if Ready, else does nothing at all. A successful shot
    /// spends one round, records `now_ms`, kicks the recoil offset, starts
    /// the muzzle-flash countdown when the model has a flash attachment, and
    /// appends the shot's events to `events`; the shot direction falls back
    /// to the cached aim and is never the zero vector.
    pub fn try_shoot(
        &mut self,
        self_handle: WeaponHandle,
        now_ms: u64,
        direction: Option<Vec3>,
        events: &mut Vec<Message>,
    )
        requires
            old(self).wf(),
            direction matches Some(d) ==> d.in_range(),
        ensures
            final(self).wf(),
            old(self).can_shoot(now_ms) ==> *final(self) == old(self).spec_after_shot(now_ms)
                && final(events)@ == old(events)@ + old(self).spec_shot_events(
                self_handle,
                direction,
            ),
            !old(self).can_shoot(now_ms) ==> *final(self) == *old(self) && final(events)@ == old(
                events,
            )@,
    {
        let ready = self.ammo != 0 && match self.last_shot_time {
            Some(t) => now_ms >= t && now_ms - t >= self.definition.shoot_interval,
            None => true,
        };
        if !ready {
            proof {
                assert(final(events)@ =~= old(events)@);
            }
            return;
        }
        let ghost events0 = events@;
        self.ammo = self.ammo - 1;
        self.offset = Vec3::new(0, 0, RECOIL_OFFSET_Z);
        self.last_shot_time = Some(now_ms);
        let position = self.shot_position;
        events.push(
            Message::PlaySound {
                path: self.definition.shot_sound,
                position,
                gain: SHOT_SOUND_GAIN,
                rolloff_factor: SHOT_SOUND_ROLLOFF,
                radius: SHOT_SOUND_RADIUS,
            },
        );
        if self.muzzle_flash.is_some() {
            self.muzzle_flash_timer = MUZZLE_FLASH_MS;
        }
        let raw_direction = match direction {
            Some(d) => d,
            None => self.shot_direction,
        };
        let d = raw_direction.normalize_or_z();
        match self.definition.projectile {
            WeaponProjectile::Projectile(kind) => {
                events.push(
                    Message::CreateProjectile {
                        kind,
                        position,
                        direction: d,
                        owner: self_handle,
                        initial_velocity: Vec3::zero(),
                    },
                );
            },
            WeaponProjectile::Ray { damage } => {
                let end = position.add(&d.scale(HITSCAN_RANGE_UNITS));
                events.push(
                    Message::ShootRay { weapon: self_handle, begin: position, end, damage },
                );
            },
        }
        proof {
            assert(final(events)@ =~= events0 + old(self).spec_shot_events(
                self_handle,
                direction,
            ));
        }
    }
}

impl Default for Weapon {
    /// The state a weapon deserializes over: an M4 with 250 rounds and no
    /// attachments.
    fn default() -> (w: Self)
        ensures
            w == (Weapon {
                kind: WeaponKind::M4,
                model: NodeHandle::spec_none(),
                shot_point: NodeHandle::spec_none(),
                muzzle_flash: NodeHandle::spec_none(),
                shot_light: NodeHandle::spec_none(),
                offset: Vec3::spec_zero(),
                dest_offset: Vec3::spec_zero(),
                last_shot_time: None::<u64>,
                shot_position: Vec3::spec_zero(),
                shot_direction: Vec3::spec_zero(),
                owner: ActorHandle::spec_none(),
                ammo: 250,
                muzzle_flash_timer: 0,
                definition: spec_definition(WeaponKind::M4),
                flash_light: NodeHandle::spec_none(),
                flash_light_enabled: false,
                laser_sight: (LaserSight {
                    ray: NodeHandle::spec_none(),
                    tip: NodeHandle::spec_none(),
                }),
            }),
            w.wf(),
    {
        Weapon {
            kind: WeaponKind::M4,
            model: NodeHandle::none(),
            shot_point: NodeHandle::none(),
            muzzle_flash: NodeHandle::none(),
            shot_light: NodeHandle::none(),
            offset: Vec3::zero(),
            dest_offset: Vec3::zero(),
            last_shot_time: None,
            shot_position: Vec3::zero(),
            shot_direction: Vec3::zero(),
            owner: ActorHandle::none(),
            ammo: 250,
            muzzle_flash_timer: 0,
            definition: Self::get_definition(WeaponKind::M4),
            flash_light: NodeHandle::none(),
            flash_light_enabled: false,
            laser_sight: LaserSight::new(NodeHandle::none(), NodeHandle::none()),
        }
    }
}

/// Ammunition can never go negative: an Empty weapon is never Ready, so
/// `try_shoot` never touches it.
pub proof fn lemma_empty_weapon_never_ready(w: Weapon, now_ms: u64)
    requires
        w.ammo == 0,
    ensures
        !w.can_shoot(now_ms),
{
}

/// The last-shot timestamp never moves backward: a weapon only fires when
/// `now_ms` has reached its previous timestamp, and firing records `now_ms`.
pub proof fn lemma_last_shot_time_monotonic(w: Weapon, now_ms: u64)
    requires
        w.can_shoot(now_ms),
    ensures
        (match w.last_shot_time {
            Some(t) => now_ms >= t,
            None => true,
        }),
        w.spec_after_shot(now_ms).last_shot_time == Some(now_ms),
{
}

/// Rate limiting: after a successful shot at `now1_ms`, a second attempt
/// less than one fire interval later is never Ready, so of two such calls
/// exactly the first fires.
pub proof fn lemma_no_second_fire_within_interval(w: Weapon, now1_ms: u64, now2_ms: u64)
    requires
        w.can_shoot(now1_ms),
        now1_ms <= now2_ms,
        now2_ms - now1_ms < w.definition.shoot_interval,
    ensures
        !w.spec_after_shot(now1_ms).can_shoot(now2_ms),
{
}

} // verus!
