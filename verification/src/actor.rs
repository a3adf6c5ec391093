//! The actor registry, as the weapon logic sees it.
//!
//! Actors themselves (health, AI, movement) live outside this crate; the hit
//! resolver and the self-exclusion rule only need each actor's handle, the
//! rigid body standing for it, and its collision shapes. The registry
//! preserves insertion order, and lookups find the first entry with a given
//! handle.

use crate::handle::{ActorHandle, BodyHandle, ColliderHandle};
use vstd::pervasive::unreached;
use vstd::prelude::*;

verus! {

/// What the weapon logic reads of one actor.
#[derive(Clone, Debug)]
pub struct Actor {
    /// The rigid body representing the actor in the physics world.
    pub body: BodyHandle,
    /// The actor's collision shapes; the first one is used as its
    /// representative collider for self-exclusion.
    pub colliders: Vec<ColliderHandle>,
}

impl Actor {
    pub fn get_body(&self) -> (b: BodyHandle)
        ensures
            b == self.body,
    {
        self.body
    }
}

/// One registry entry: an actor together with the handle it is known by.
#[derive(Clone, Debug)]
pub struct ActorEntry {
    pub handle: ActorHandle,
    pub actor: Actor,
}

/// The first actor registered under `h`, if any.
pub open spec fn spec_lookup(s: Seq<ActorEntry>, h: ActorHandle) -> Option<Actor>
    decreases s.len(),
{
    if s.len() == 0 {
        None
    } else if s[0].handle == h {
        Some(s[0].actor)
    } else {
        spec_lookup(s.drop_first(), h)
    }
}

/// An ordered registry of actors, addressed by handle.
#[derive(Debug)]
pub struct ActorContainer {
    entries: Vec<ActorEntry>,
}

impl View for ActorContainer {
    type V = Seq<ActorEntry>;

    closed spec fn view(&self) -> Seq<ActorEntry> {
        self.entries@
    }
}

impl ActorContainer {
    pub fn new() -> (c: ActorContainer)
        ensures
            c@ == Seq::<ActorEntry>::empty(),
    {
        ActorContainer { entries: Vec::new() }
    }

    /// Registers an actor; entries keep their insertion order.
    pub fn add(&mut self, handle: ActorHandle, actor: Actor)
        ensures
            final(self)@ == old(self)@.push(ActorEntry { handle, actor }),
    {
        self.entries.push(ActorEntry { handle, actor });
    }

    pub fn len(&self) -> (n: usize)
        ensures
            n == self@.len(),
    {
        self.entries.len()
    }

    /// Whether some actor is registered under `h`.
    pub fn contains(&self, h: ActorHandle) -> (r: bool)
        ensures
            r == (spec_lookup(self@, h) is Some),
    {
        let n = self.entries.len();
        let mut i: usize = 0;
        proof {
            assert(self@.skip(0) =~= self@);
        }
        while i < n
            invariant
                0 <= i <= n == self@.len(),
                spec_lookup(self@, h) == spec_lookup(self@.skip(i as int), h),
            decreases n - i,
        {
            if self.entries[i].handle == h {
                proof {
                    assert(self@.skip(i as int)[0] == self@[i as int]);
                }
                return true;
            }
            proof {
                assert(self@.skip(i as int).drop_first() =~= self@.skip(i as int + 1));
                assert(self@.skip(i as int)[0] == self@[i as int]);
            }
            i += 1;
        }
        proof {
            assert(self@.skip(n as int).len() == 0);
        }
        false
    }

    /// The first actor registered under `h`.
    pub fn get(&self, h: ActorHandle) -> (a: &Actor)
        requires
            spec_lookup(self@, h) is Some,
        ensures
            spec_lookup(self@, h) == Some(*a),
    {
        let n = self.entries.len();
        let mut i: usize = 0;
        proof {
            assert(self@.skip(0) =~= self@);
        }
        while i < n
            invariant
                0 <= i <= n == self@.len(),
                spec_lookup(self@, h) == spec_lookup(self@.skip(i as int), h),
                spec_lookup(self@, h) is Some,
            decreases n - i,
        {
            if self.entries[i].handle == h {
                proof {
                    assert(self@.skip(i as int)[0] == self@[i as int]);
                }
                return &self.entries[i].actor;
            }
            proof {
                assert(self@.skip(i as int).drop_first() =~= self@.skip(i as int + 1));
                assert(self@.skip(i as int)[0] == self@[i as int]);
            }
            i += 1;
        }
        proof {
            assert(self@.skip(n as int).len() == 0);
        }
        unreached()
    }

    /// Shared access to the entries in registry order.
    pub fn entries(&self) -> (s: &Vec<ActorEntry>)
        ensures
            s@ == self@,
    {
        &self.entries
    }
}

/// The collider used to exclude the weapon's owner from its own ray tests:
/// the owner's first collision shape, or the "exclude nothing" sentinel when
/// the owner is absent, unknown, or has no collider.
pub open spec fn spec_ignored_collider(s: Seq<ActorEntry>, owner: ActorHandle) -> ColliderHandle {
    match spec_lookup(s, owner) {
        Some(a) => if a.colliders@.len() > 0 {
            a.colliders@[0]
        } else {
            ColliderHandle::spec_none()
        },
        None => ColliderHandle::spec_none(),
    }
}

/// Computes [`spec_ignored_collider`] for a live registry.
pub fn ignored_collider_of(actors: &ActorContainer, owner: ActorHandle) -> (c: ColliderHandle)
    ensures
        c == spec_ignored_collider(actors@, owner),
{
    if actors.contains(owner) {
        let a = actors.get(owner);
        if a.colliders.len() > 0 {
            a.colliders[0]
        } else {
            ColliderHandle::none()
        }
    } else {
        ColliderHandle::none()
    }
}

} // verus!
