//! Opaque, copyable references.
//!
//! A pooled weapon is addressed by a [`WeaponHandle`]: a slot index plus the
//! generation the slot had when the weapon was spawned, so a handle kept
//! across a `free` is detectably stale. Actors, scene nodes, physical bodies
//! and colliders live in collaborating systems outside this crate; their
//! handles are carried through untouched and only ever compared. Generation
//! zero is the reserved "none" sentinel in every handle kind.

use vstd::prelude::*;

verus! {

/// Reference to a weapon slot in a [`crate::pool::WeaponContainer`].
#[derive(Clone, Copy, PartialEq, Eq, Structural, Hash, Debug)]
pub struct WeaponHandle {
    pub index: usize,
    pub generation: u64,
}

impl WeaponHandle {
    pub open spec fn spec_none() -> WeaponHandle {
        WeaponHandle { index: 0, generation: 0 }
    }

    pub open spec fn spec_is_some(self) -> bool {
        self.generation != 0
    }

    pub fn none() -> (h: WeaponHandle)
        ensures
            h == WeaponHandle::spec_none(),
    {
        WeaponHandle { index: 0, generation: 0 }
    }

    pub fn is_some(&self) -> (r: bool)
        ensures
            r == self.spec_is_some(),
    {
        self.generation != 0
    }

    pub fn is_none(&self) -> (r: bool)
        ensures
            r == !self.spec_is_some(),
    {
        self.generation == 0
    }
}

/// Reference to an actor in the caller's actor registry.
#[derive(Clone, Copy, PartialEq, Eq, Structural, Hash, Debug)]
pub struct ActorHandle {
    pub index: u32,
    pub generation: u32,
}

impl ActorHandle {
    pub open spec fn spec_none() -> ActorHandle {
        ActorHandle { index: 0, generation: 0 }
    }

    pub open spec fn spec_is_some(self) -> bool {
        self.generation != 0
    }

    pub fn none() -> (h: ActorHandle)
        ensures
            h == ActorHandle::spec_none(),
    {
        ActorHandle { index: 0, generation: 0 }
    }

    pub fn is_some(&self) -> (r: bool)
        ensures
            r == self.spec_is_some(),
    {
        self.generation != 0
    }
}

/// Reference to a node of the caller's scene graph (models, lights, sprites).
#[derive(Clone, Copy, PartialEq, Eq, Structural, Hash, Debug)]
pub struct NodeHandle {
    pub index: u32,
    pub generation: u32,
}

impl NodeHandle {
    pub open spec fn spec_none() -> NodeHandle {
        NodeHandle { index: 0, generation: 0 }
    }

    pub open spec fn spec_is_some(self) -> bool {
        self.generation != 0
    }

    pub fn none() -> (h: NodeHandle)
        ensures
            h == NodeHandle::spec_none(),
    {
        NodeHandle { index: 0, generation: 0 }
    }

    pub fn is_some(&self) -> (r: bool)
        ensures
            r == self.spec_is_some(),
    {
        self.generation != 0
    }
}

/// Reference to a rigid body in the caller's physics world.
#[derive(Clone, Copy, PartialEq, Eq, Structural, Hash, Debug)]
pub struct BodyHandle {
    pub index: u32,
    pub generation: u32,
}

/// Reference to a collision shape in the caller's physics world. The "none"
/// value doubles as the "exclude nothing" filter for ray queries.
#[derive(Clone, Copy, PartialEq, Eq, Structural, Hash, Debug)]
pub struct ColliderHandle {
    pub index: u32,
    pub generation: u32,
}

impl ColliderHandle {
    pub open spec fn spec_none() -> ColliderHandle {
        ColliderHandle { index: 0, generation: 0 }
    }

    pub fn none() -> (h: ColliderHandle)
        ensures
            h == ColliderHandle::spec_none(),
    {
        ColliderHandle { index: 0, generation: 0 }
    }
}

/// Sub-part of a collider surface struck by a ray (vertex, edge or face of
/// the shape), as reported by the ray query interface.
#[derive(Clone, Copy, PartialEq, Eq, Structural, Hash, Debug)]
pub enum FeatureId {
    Vertex(u32),
    Edge(u32),
    Face(u32),
    Unknown,
}

} // verus!
