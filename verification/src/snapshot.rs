//! Persisted state.
//!
//! A weapon serializes as its kind id, scene references, recoil offsets,
//! last-shot timestamp, owner, ammunition and muzzle-flash timer; the
//! definition is re-derived from the kind on restore, never stored. The pool
//! serializes as its backing arena, slot contents and generation counters
//! alike, so restored handles keep their validity. An unknown kind id is a
//! hard decode error. The snapshot records are plain values; encoding them
//! to a concrete save format is the caller's business.

use crate::definition::{spec_definition, WeaponKind};
use crate::handle::{ActorHandle, NodeHandle, WeaponHandle};
use crate::laser::LaserSight;
use crate::math::Vec3;
use crate::pool::{pool_wf, spec_contains, Slot, WeaponContainer};
use crate::weapon::Weapon;
use vstd::prelude::*;

verus! {

/// The persisted form of one weapon.
#[derive(Clone, Copy, PartialEq, Eq, Structural, Hash, Debug)]
pub struct WeaponSnapshot {
    pub kind_id: u32,
    pub model: NodeHandle,
    pub offset: Vec3,
    pub dest_offset: Vec3,
    pub last_shot_time: Option<u64>,
    pub owner: ActorHandle,
    pub ammo: u32,
    pub shot_point: NodeHandle,
    pub muzzle_flash: NodeHandle,
    pub muzzle_flash_timer: u64,
    pub shot_light: NodeHandle,
    pub flash_light: NodeHandle,
    pub laser_ray: NodeHandle,
    pub laser_tip: NodeHandle,
}

/// The persisted form of one pool slot.
#[derive(Clone, Copy, PartialEq, Eq, Structural, Hash, Debug)]
pub struct SlotSnapshot {
    pub generation: u64,
    pub weapon: Option<WeaponSnapshot>,
}

/// The persisted form of the whole pool: its backing arena.
#[derive(Clone, Debug)]
pub struct PoolSnapshot {
    pub slots: Vec<SlotSnapshot>,
}

pub open spec fn spec_weapon_snapshot(w: Weapon) -> WeaponSnapshot {
    WeaponSnapshot {
        kind_id: w.kind.spec_id(),
        model: w.model,
        offset: w.offset,
        dest_offset: w.dest_offset,
        last_shot_time: w.last_shot_time,
        owner: w.owner,
        ammo: w.ammo,
        shot_point: w.shot_point,
        muzzle_flash: w.muzzle_flash,
        muzzle_flash_timer: w.muzzle_flash_timer,
        shot_light: w.shot_light,
        flash_light: w.flash_light,
        laser_ray: w.laser_sight.ray,
        laser_tip: w.laser_sight.tip,
    }
}

/// The weapon a snapshot with a known kind id restores to. Per-frame state
/// (cached shot position and direction, flash-light switch) starts fresh.
pub open spec fn spec_weapon_restore(s: WeaponSnapshot) -> Weapon {
    let kind = WeaponKind::spec_from_id(s.kind_id as int);
    Weapon {
        kind,
        model: s.model,
        shot_point: s.shot_point,
        muzzle_flash: s.muzzle_flash,
        shot_light: s.shot_light,
        offset: s.offset,
        dest_offset: s.dest_offset,
        last_shot_time: s.last_shot_time,
        shot_position: Vec3::spec_zero(),
        shot_direction: Vec3::spec_zero(),
        owner: s.owner,
        ammo: s.ammo,
        muzzle_flash_timer: s.muzzle_flash_timer,
        definition: spec_definition(kind),
        flash_light: s.flash_light,
        flash_light_enabled: false,
        laser_sight: LaserSight { ray: s.laser_ray, tip: s.laser_tip },
    }
}

pub open spec fn spec_slot_snapshot(s: Slot) -> SlotSnapshot {
    SlotSnapshot {
        generation: s.generation,
        weapon: match s.weapon {
            Some(w) => Some(spec_weapon_snapshot(w)),
            None => None,
        },
    }
}

pub open spec fn spec_slot_restore(s: SlotSnapshot) -> Slot {
    Slot {
        generation: s.generation,
        weapon: match s.weapon {
            Some(ws) => Some(spec_weapon_restore(ws)),
            None => None,
        },
    }
}

pub open spec fn spec_pool_snapshot(s: Seq<Slot>) -> Seq<SlotSnapshot> {
    Seq::new(s.len(), |i: int| spec_slot_snapshot(s[i]))
}

pub open spec fn spec_pool_restore(ss: Seq<SlotSnapshot>) -> Seq<Slot> {
    Seq::new(ss.len(), |i: int| spec_slot_restore(ss[i]))
}

impl Weapon {
    /// The persisted record of this weapon.
    pub fn snapshot(&self) -> (s: WeaponSnapshot)
        ensures
            s == spec_weapon_snapshot(*self),
    {
        WeaponSnapshot {
            kind_id: self.kind.id(),
            model: self.model,
            offset: self.offset,
            dest_offset: self.dest_offset,
            last_shot_time: self.last_shot_time,
            owner: self.owner,
            ammo: self.ammo,
            shot_point: self.shot_point,
            muzzle_flash: self.muzzle_flash,
            muzzle_flash_timer: self.muzzle_flash_timer,
            shot_light: self.shot_light,
            flash_light: self.flash_light,
            laser_ray: self.laser_sight.ray,
            laser_tip: self.laser_sight.tip,
        }
    }

    /// Restores a weapon from its persisted record, re-deriving the
    /// definition from the kind. An unknown kind id aborts the restore.
    pub fn restore(s: &WeaponSnapshot) -> (r: Result<Weapon, String>)
        ensures
            r is Ok <==> s.kind_id < 3,
            s.kind_id < 3 ==> r == Ok::<Weapon, String>(spec_weapon_restore(*s)),
            r is Err ==> (r->Err_0)@ == "unknown weapon kind"@,
    {
        match WeaponKind::new(s.kind_id) {
            Ok(kind) => Ok(
                Weapon {
                    kind,
                    model: s.model,
                    shot_point: s.shot_point,
                    muzzle_flash: s.muzzle_flash,
                    shot_light: s.shot_light,
                    offset: s.offset,
                    dest_offset: s.dest_offset,
                    last_shot_time: s.last_shot_time,
                    shot_position: Vec3::zero(),
                    shot_direction: Vec3::zero(),
                    owner: s.owner,
                    ammo: s.ammo,
                    muzzle_flash_timer: s.muzzle_flash_timer,
                    definition: Weapon::get_definition(kind),
                    flash_light: s.flash_light,
                    flash_light_enabled: false,
                    laser_sight: LaserSight::new(s.laser_ray, s.laser_tip),
                },
            ),
            Err(e) => Err(e),
        }
    }
}

impl WeaponContainer {
    /// The persisted form of the arena: every slot, live or empty, with its
    /// generation counter.
    pub fn snapshot(&self) -> (ps: PoolSnapshot)
        ensures
            ps.slots@ == spec_pool_snapshot(self@),
    {
        let n = self.len();
        let mut slots: Vec<SlotSnapshot> = Vec::new();
        let mut i: usize = 0;
        while i < n
            invariant
                0 <= i <= n == self@.len(),
                slots@.len() == i,
                forall|j: int| 0 <= j < i ==> slots@[j] == spec_slot_snapshot(self@[j]),
            decreases n - i,
        {
            let slot = self.slot_at(i);
            let snap = match &slot.weapon {
                Some(w) => Some(w.snapshot()),
                None => None,
            };
            slots.push(SlotSnapshot { generation: slot.generation, weapon: snap });
            i += 1;
        }
        proof {
            assert(slots@ =~= spec_pool_snapshot(self@));
        }
        PoolSnapshot { slots }
    }

    /// Restores an arena from its persisted form; fails exactly when some
    /// stored weapon carries an unknown kind id.
    pub fn restore(ps: &PoolSnapshot) -> (r: Result<WeaponContainer, String>)
        ensures
            r is Ok <==> (forall|i: int|
                0 <= i < ps.slots@.len() ==> ((#[trigger] ps.slots@[i]).weapon matches Some(ws)
                    ==> ws.kind_id < 3)),
            r matches Ok(c) ==> c@ == spec_pool_restore(ps.slots@),
            r is Err ==> (r->Err_0)@ == "unknown weapon kind"@,
    {
        let n = ps.slots.len();
        let mut slots: Vec<Slot> = Vec::new();
        let mut i: usize = 0;
        while i < n
            invariant
                0 <= i <= n == ps.slots@.len(),
                slots@.len() == i,
                forall|j: int| 0 <= j < i ==> (#[trigger] slots@[j]) == spec_slot_restore(
                    ps.slots@[j],
                ),
                forall|j: int|
                    0 <= j < i ==> ((#[trigger] ps.slots@[j]).weapon matches Some(ws)
                        ==> ws.kind_id < 3),
            decreases n - i,
        {
            let snap = &ps.slots[i];
            let weapon = match &snap.weapon {
                Some(ws) => match Weapon::restore(ws) {
                    Ok(w) => Some(w),
                    Err(e) => {
                        return Err(e);
                    },
                },
                None => None,
            };
            slots.push(Slot { generation: snap.generation, weapon });
            i += 1;
        }
        let c = WeaponContainer::from_slots(slots);
        proof {
            assert(c@ =~= spec_pool_restore(ps.slots@));
        }
        Ok(c)
    }
}

/// Round trip for one weapon: restoring its own snapshot gives back every
/// persisted field unchanged — kind, ammunition, owner and both timers
/// included — with the definition re-derived from the kind equal to the one
/// it was saved with.
pub proof fn lemma_weapon_snapshot_round_trip(w: Weapon)
    requires
        w.wf(),
    ensures
        spec_weapon_snapshot(w).kind_id < 3,
        ({
            let r = spec_weapon_restore(spec_weapon_snapshot(w));
            &&& r.kind == w.kind
            &&& r.ammo == w.ammo
            &&& r.owner == w.owner
            &&& r.last_shot_time == w.last_shot_time
            &&& r.muzzle_flash_timer == w.muzzle_flash_timer
            &&& r.definition == w.definition
            &&& r.offset == w.offset
            &&& r.dest_offset == w.dest_offset
            &&& r.model == w.model
            &&& r.shot_point == w.shot_point
            &&& r.muzzle_flash == w.muzzle_flash
            &&& r.shot_light == w.shot_light
            &&& r.flash_light == w.flash_light
            &&& r.laser_sight == w.laser_sight
            &&& r.wf()
        }),
{
}

/// Round trip for the pool: restoring its own snapshot preserves the arena
/// shape — length, generations, which slots are live — and therefore the
/// validity of every handle, and round-trips every stored weapon.
pub proof fn lemma_pool_snapshot_round_trip(s: Seq<Slot>)
    requires
        pool_wf(s),
    ensures
        ({
            let r = spec_pool_restore(spec_pool_snapshot(s));
            &&& r.len() == s.len()
            &&& forall|i: int|
                0 <= i < s.len() ==> (#[trigger] r[i]).generation == s[i].generation && (r[i].weapon
                    is Some <==> s[i].weapon is Some)
            &&& forall|h: WeaponHandle| spec_contains(r, h) <==> spec_contains(s, h)
            &&& pool_wf(r)
        }),
{
    let r = spec_pool_restore(spec_pool_snapshot(s));
    assert forall|i: int|
        0 <= i < s.len() implies (#[trigger] r[i]).generation == s[i].generation && (r[i].weapon
        is Some <==> s[i].weapon is Some) && (r[i].weapon matches Some(w) ==> w.wf()) by {
        match s[i].weapon {
            Some(w) => {
                lemma_weapon_snapshot_round_trip(w);
            },
            None => {},
        }
    }
}

} // verus!
