//! The weapon pool: a generation-checked arena.
//!
//! Weapons live in slots addressed by [`WeaponHandle`]s carrying the slot's
//! generation at spawn time. `free` leaves the generation in place and
//! `add` bumps it when reusing a slot, so every handle issued before a
//! `free` of its slot fails the validity check afterward — it can never
//! alias an unrelated weapon spawned into the same slot. A slot whose
//! generation counter is exhausted is retired rather than reused.

use crate::actor::ActorContainer;
use crate::handle::WeaponHandle;
use crate::laser::LaserQuery;
use crate::math::Vec3;
use crate::weapon::Weapon;
use vstd::pervasive::unreached;
use vstd::prelude::*;

verus! {

/// One arena slot: its current generation and its occupant, if any.
#[derive(Clone, Copy, Debug)]
pub struct Slot {
    pub generation: u64,
    pub weapon: Option<Weapon>,
}

/// The per-frame scene inputs for one pooled weapon's update.
#[derive(Clone, Copy, Debug)]
pub struct WeaponFrame {
    /// Global position of the weapon's model node.
    pub model_position: Vec3,
    /// Global position of the model's shot-point attachment (ignored when
    /// the weapon has none).
    pub shot_point_position: Vec3,
    /// The model's current forward-aim vector.
    pub look_vector: Vec3,
}

impl WeaponFrame {
    pub open spec fn wf(self) -> bool {
        &&& self.model_position.in_range()
        &&& self.shot_point_position.in_range()
        &&& self.look_vector.in_range()
    }
}

/// `h` addresses a live weapon: its slot exists, holds a weapon, and still
/// has the generation the handle was issued with.
pub open spec fn spec_contains(s: Seq<Slot>, h: WeaponHandle) -> bool {
    &&& 0 <= h.index < s.len()
    &&& s[h.index as int].generation == h.generation
    &&& s[h.index as int].weapon is Some
}

/// Every slot has a positive generation (so the "none" handle is never
/// valid) and every live weapon is well formed.
pub open spec fn pool_wf(s: Seq<Slot>) -> bool {
    forall|i: int|
        0 <= i < s.len() ==> (#[trigger] s[i]).generation >= 1 && (s[i].weapon matches Some(w)
            ==> w.wf())
}

/// Index of the first reusable slot: empty and with generation headroom.
/// Equals `s.len()` when there is none.
pub open spec fn spec_first_free(s: Seq<Slot>) -> int
    decreases s.len(),
{
    if s.len() == 0 {
        0
    } else if s[0].weapon is None && s[0].generation < u64::MAX {
        0
    } else {
        1 + spec_first_free(s.drop_first())
    }
}

/// What `add` does: spawn into the first reusable slot under a bumped
/// generation, or append a fresh slot at generation one.
pub open spec fn spec_add(s: Seq<Slot>, w: Weapon) -> (Seq<Slot>, WeaponHandle) {
    let i = spec_first_free(s);
    if i < s.len() {
        let g = (s[i].generation + 1) as u64;
        (
            s.update(i, Slot { generation: g, weapon: Some(w) }),
            WeaponHandle { index: i as usize, generation: g },
        )
    } else {
        (
            s.push(Slot { generation: 1, weapon: Some(w) }),
            WeaponHandle { index: s.len() as usize, generation: 1 },
        )
    }
}

/// What `free` does: empty the slot, keeping its generation.
pub open spec fn spec_free(s: Seq<Slot>, h: WeaponHandle) -> Seq<Slot> {
    s.update(h.index as int, Slot { generation: h.generation, weapon: None })
}

/// The first reusable slot really is the first: it is reusable, and no slot
/// before it is.
pub proof fn lemma_first_free_properties(s: Seq<Slot>)
    ensures
        0 <= spec_first_free(s) <= s.len(),
        spec_first_free(s) < s.len() ==> s[spec_first_free(s)].weapon is None && s[spec_first_free(
            s,
        )].generation < u64::MAX,
        forall|j: int|
            0 <= j < spec_first_free(s) ==> !((#[trigger] s[j]).weapon is None && s[j].generation
                < u64::MAX),
    decreases s.len(),
{
    if s.len() == 0 {
    } else if s[0].weapon is None && s[0].generation < u64::MAX {
    } else {
        lemma_first_free_properties(s.drop_first());
        assert forall|j: int|
            0 <= j < spec_first_free(s) implies !((#[trigger] s[j]).weapon is None
            && s[j].generation < u64::MAX) by {
            if j > 0 {
                assert(s.drop_first()[j - 1] == s[j]);
            }
        }
        if spec_first_free(s) < s.len() {
            assert(s.drop_first()[spec_first_free(s) - 1] == s[spec_first_free(s)]);
        }
    }
}

/// A generation-checked arena of weapons with stable, stale-detecting
/// handles.
#[derive(Debug)]
pub struct WeaponContainer {
    slots: Vec<Slot>,
}

impl View for WeaponContainer {
    type V = Seq<Slot>;

    closed spec fn view(&self) -> Seq<Slot> {
        self.slots@
    }
}

impl WeaponContainer {
    pub fn new() -> (c: WeaponContainer)
        ensures
            c@ == Seq::<Slot>::empty(),
            pool_wf(c@),
    {
        WeaponContainer { slots: Vec::new() }
    }

    pub fn len(&self) -> (n: usize)
        ensures
            n == self@.len(),
    {
        self.slots.len()
    }

    /// Rebuilds an arena around restored slots.
    pub(crate) fn from_slots(slots: Vec<Slot>) -> (c: WeaponContainer)
        ensures
            c@ == slots@,
    {
        WeaponContainer { slots }
    }

    /// Read access to a slot, for walking the arena in slot order.
    pub fn slot_at(&self, index: usize) -> (s: &Slot)
        requires
            index < self@.len(),
        ensures
            *s == self@[index as int],
    {
        &self.slots[index]
    }

    /// Spawns a weapon and returns the handle it will be known by until it
    /// is freed. Handles of already-freed slots stay invalid.
    pub fn add(&mut self, weapon: Weapon) -> (h: WeaponHandle)
        requires
            pool_wf(old(self)@),
            weapon.wf(),
        ensures
            pool_wf(final(self)@),
            (final(self)@, h) == spec_add(old(self)@, weapon),
            spec_contains(final(self)@, h),
            final(self)@[h.index as int].weapon == Some(weapon),
            h.spec_is_some(),
    {
        proof {
            lemma_first_free_properties(self@);
            assert(self@.skip(0) =~= self@);
        }
        let n = self.slots.len();
        let mut i: usize = 0;
        while i < n
            invariant
                0 <= i <= n == self@.len(),
                self@ == old(self)@,
                pool_wf(self@),
                weapon.wf(),
                spec_first_free(self@) == i + spec_first_free(self@.skip(i as int)),
            decreases n - i,
        {
            proof {
                assert(self@.skip(i as int)[0] == self@[i as int]);
            }
            let free_here = match &self.slots[i].weapon {
                Some(_) => false,
                None => self.slots[i].generation < u64::MAX,
            };
            if free_here {
                proof {
                    assert(spec_first_free(old(self)@) == i);
                }
                let g = self.slots[i].generation + 1;
                self.slots[i] = Slot { generation: g, weapon: Some(weapon) };
                let h = WeaponHandle { index: i, generation: g };
                proof {
                    assert forall|k: int|
                        0 <= k < self@.len() implies (#[trigger] self@[k]).generation >= 1 && (
                    self@[k].weapon matches Some(w) ==> w.wf()) by {
                        if k != i {
                            assert(self@[k] == old(self)@[k]);
                        } else {
                            assert(self@[k] == (Slot { generation: g, weapon: Some(weapon) }));
                            assert(weapon.wf());
                            assert(g >= 1);
                        }
                    }
                }
                return h;
            }
            proof {
                assert(self@.skip(i as int).drop_first() =~= self@.skip(i as int + 1));
            }
            i += 1;
        }
        proof {
            assert(self@.skip(n as int).len() == 0);
            assert(spec_first_free(old(self)@) == n);
        }
        self.slots.push(Slot { generation: 1, weapon: Some(weapon) });
        let h = WeaponHandle { index: n, generation: 1 };
        proof {
            assert forall|k: int|
                0 <= k < self@.len() implies (#[trigger] self@[k]).generation >= 1 && (
            self@[k].weapon matches Some(w) ==> w.wf()) by {
                if k != n {
                    assert(self@[k] == old(self)@[k]);
                }
            }
        }
        h
    }

    /// Whether `h` still addresses the weapon it was issued for.
    pub fn contains(&self, h: WeaponHandle) -> (r: bool)
        ensures
            r == spec_contains(self@, h),
    {
        h.index < self.slots.len() && self.slots[h.index].generation == h.generation
            && self.slots[h.index].weapon.is_some()
    }

    /// Removes the weapon `h` addresses. The slot keeps its generation, so
    /// `h` (and every copy of it) is stale from here on.
    pub fn free(&mut self, h: WeaponHandle)
        requires
            pool_wf(old(self)@),
            spec_contains(old(self)@, h),
        ensures
            pool_wf(final(self)@),
            final(self)@ == spec_free(old(self)@, h),
            !spec_contains(final(self)@, h),
    {
        self.slots[h.index] = Slot { generation: h.generation, weapon: None };
        proof {
            assert forall|k: int|
                0 <= k < self@.len() implies (#[trigger] self@[k]).generation >= 1 && (
            self@[k].weapon matches Some(w) ==> w.wf()) by {
                if k != h.index {
                    assert(self@[k] == old(self)@[k]);
                }
            }
        }
    }

    /// Shared access to the weapon `h` addresses. Stale handles fail the
    /// precondition: callers check `contains` first.
    pub fn index(&self, h: WeaponHandle) -> (w: &Weapon)
        requires
            spec_contains(self@, h),
        ensures
            self@[h.index as int].weapon == Some(*w),
    {
        match &self.slots[h.index].weapon {
            Some(w) => w,
            None => unreached(),
        }
    }

    /// Exclusive access to the weapon `h` addresses; the rest of the arena
    /// is untouched.
    pub fn index_mut(&mut self, h: WeaponHandle) -> (w: &mut Weapon)
        requires
            spec_contains(old(self)@, h),
        ensures
            old(self)@[h.index as int].weapon == Some(*w),
            final(self)@ == old(self)@.update(
                h.index as int,
                Slot { generation: h.generation, weapon: Some(*final(w)) },
            ),
    {
        let slot = &mut self.slots[h.index];
        match &mut slot.weapon {
            Some(w) => w,
            None => unreached(),
        }
    }

    /// The pool's iteration surface: the handle of every live weapon, in
    /// slot order, each valid and every valid handle among them. Mutate one
    /// through `index_mut`.
    pub fn live_handles(&self) -> (hs: Vec<WeaponHandle>)
        ensures
            forall|k: int| 0 <= k < hs@.len() ==> spec_contains(self@, #[trigger] hs@[k]),
            forall|h: WeaponHandle| spec_contains(self@, h) ==> hs@.contains(h),
            forall|k1: int, k2: int|
                0 <= k1 < k2 < hs@.len() ==> hs@[k1].index < hs@[k2].index,
    {
        let n = self.slots.len();
        let mut hs: Vec<WeaponHandle> = Vec::new();
        let mut i: usize = 0;
        while i < n
            invariant
                0 <= i <= n == self@.len(),
                forall|k: int|
                    0 <= k < hs@.len() ==> spec_contains(self@, #[trigger] hs@[k]) && hs@[k].index
                        < i,
                forall|h: WeaponHandle| spec_contains(self@, h) && h.index < i ==> hs@.contains(h),
                forall|k1: int, k2: int|
                    0 <= k1 < k2 < hs@.len() ==> hs@[k1].index < hs@[k2].index,
            decreases n - i,
        {
            let live = match &self.slots[i].weapon {
                Some(_) => true,
                None => false,
            };
            if live {
                let h = WeaponHandle { index: i, generation: self.slots[i].generation };
                let ghost old_hs = hs@;
                hs.push(h);
                proof {
                    assert forall|h2: WeaponHandle|
                        spec_contains(self@, h2) && h2.index < i + 1 implies hs@.contains(h2) by {
                        if h2.index < i {
                            let k = choose|k: int| 0 <= k < old_hs.len() && old_hs[k] == h2;
                            assert(hs@[k] == h2);
                        } else {
                            assert(h2 == h);
                            assert(hs@[old_hs.len() as int] == h2);
                        }
                    }
                }
            } else {
                proof {
                    assert forall|h2: WeaponHandle|
                        spec_contains(self@, h2) && h2.index < i + 1 implies hs@.contains(h2) by {
                        assert(h2.index != i);
                    }
                }
            }
            i += 1;
        }
        hs
    }

    /// Advances every live weapon by one frame (recoil damping, muzzle-flash
    /// countdown, cached aim), with `frames[i]` the scene inputs for slot
    /// `i`, and returns each live slot's laser-sight query.
    pub fn update(
        &mut self,
        dt_ms: u64,
        frames: &Vec<WeaponFrame>,
        actors: &ActorContainer,
    ) -> (queries: Vec<Option<LaserQuery>>)
        requires
            pool_wf(old(self)@),
            frames@.len() == old(self)@.len(),
            forall|j: int| 0 <= j < frames@.len() ==> (#[trigger] frames@[j]).wf(),
        ensures
            pool_wf(final(self)@),
            final(self)@.len() == old(self)@.len(),
            queries@.len() == old(self)@.len(),
            forall|j: int|
                0 <= j < old(self)@.len() ==> (#[trigger] final(self)@[j]) == spec_slot_update(
                    old(self)@[j],
                    dt_ms,
                    frames@[j],
                ),
            forall|j: int|
                0 <= j < old(self)@.len() ==> (#[trigger] queries@[j]) == spec_slot_query(
                    old(self)@[j],
                    dt_ms,
                    frames@[j],
                    actors@,
                ),
    {
        let n = self.slots.len();
        let mut queries: Vec<Option<LaserQuery>> = Vec::new();
        let mut i: usize = 0;
        while i < n
            invariant
                0 <= i <= n == self@.len(),
                n == old(self)@.len(),
                n == frames@.len(),
                forall|j: int| 0 <= j < frames@.len() ==> (#[trigger] frames@[j]).wf(),
                pool_wf(old(self)@),
                queries@.len() == i,
                forall|j: int| i <= j < n ==> (#[trigger] self@[j]) == old(self)@[j],
                forall|j: int|
                    0 <= j < i ==> (#[trigger] self@[j]) == spec_slot_update(
                        old(self)@[j],
                        dt_ms,
                        frames@[j],
                    ),
                forall|j: int|
                    0 <= j < i ==> (#[trigger] queries@[j]) == spec_slot_query(
                        old(self)@[j],
                        dt_ms,
                        frames@[j],
                        actors@,
                    ),
            decreases n - i,
        {
            let slot = self.slots[i];
            match slot.weapon {
                Some(mut w) => {
                    let f = &frames[i];
                    let q = w.update(
                        dt_ms,
                        f.model_position,
                        f.shot_point_position,
                        f.look_vector,
                        actors,
                    );
                    self.slots[i] = Slot { generation: slot.generation, weapon: Some(w) };
                    queries.push(Some(q));
                },
                None => {
                    queries.push(None);
                },
            }
            i += 1;
        }
        proof {
            assert forall|k: int|
                0 <= k < self@.len() implies (#[trigger] self@[k]).generation >= 1 && (
            self@[k].weapon matches Some(w) ==> w.wf()) by {
                assert(self@[k] == spec_slot_update(old(self)@[k], dt_ms, frames@[k]));
            }
        }
        queries
    }
}

/// What one frame of `update` does to a slot: an empty slot is untouched, a
/// live weapon takes its per-frame step.
pub open spec fn spec_slot_update(s: Slot, dt_ms: u64, f: WeaponFrame) -> Slot {
    match s.weapon {
        Some(w) => Slot {
            generation: s.generation,
            weapon: Some(
                w.spec_update(dt_ms, f.model_position, f.shot_point_position, f.look_vector),
            ),
        },
        None => s,
    }
}

/// The laser query a slot's update produces: one per live weapon.
pub open spec fn spec_slot_query(
    s: Slot,
    dt_ms: u64,
    f: WeaponFrame,
    actors: Seq<crate::actor::ActorEntry>,
) -> Option<LaserQuery> {
    match s.weapon {
        Some(w) => Some(
            w.spec_update(dt_ms, f.model_position, f.shot_point_position, f.look_vector)
                .spec_laser_query(f.look_vector, actors),
        ),
        None => None,
    }
}

/// Stale-handle safety: after `free(h)`, `h` is invalid, and stays invalid
/// even when a new weapon is spawned right afterward — including into the
/// same underlying slot — and the new weapon's handle never equals `h`.
pub proof fn lemma_freed_handle_stays_stale(s: Seq<Slot>, h: WeaponHandle, w: Weapon)
    requires
        pool_wf(s),
        spec_contains(s, h),
        s.len() <= usize::MAX,
    ensures
        !spec_contains(spec_free(s, h), h),
        !spec_contains(spec_add(spec_free(s, h), w).0, h),
        spec_add(spec_free(s, h), w).1 != h,
{
    let s2 = spec_free(s, h);
    lemma_first_free_properties(s2);
    let i = spec_first_free(s2);
    let s3 = spec_add(s2, w).0;
    let h2 = spec_add(s2, w).1;
    if i < s2.len() {
        if i == h.index {
            assert(s2[i].generation == h.generation);
            assert(s3[h.index as int].generation == h.generation + 1);
            assert(h2.generation == h.generation + 1);
        } else {
            assert(s3[h.index as int] == s2[h.index as int]);
            assert(h2.index != h.index);
        }
    } else {
        assert(s3[h.index as int] == s2[h.index as int]);
        assert(h2.index == s2.len() && h.index < s2.len());
    }
}

} // verus!
