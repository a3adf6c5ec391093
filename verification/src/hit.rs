//! Hit resolution: from a distance-sorted ray query to at most one
//! authoritative hit.
//!
//! The physics world itself is a collaborator: the caller casts the ray and
//! hands in the intersection records (sorted by distance, nearest first)
//! together with the collider-to-body table. The resolver walks the records
//! in order, skips the excluded collider, and classifies the first surviving
//! record as an actor hit or an environment hit, never crediting the firing
//! weapon's own owner as a victim.

use crate::actor::{ActorContainer, ActorEntry};
use crate::handle::{ActorHandle, BodyHandle, ColliderHandle, FeatureId, WeaponHandle};
use crate::math::Vec3;
use crate::pool::{spec_contains, Slot, WeaponContainer};
use vstd::prelude::*;

verus! {

/// One intersection record from the ray query interface, at `toi` ticks from
/// the ray origin. Queries hand records back in ascending `toi` order.
#[derive(Clone, Copy, PartialEq, Eq, Structural, Hash, Debug)]
pub struct RayHitRecord {
    pub toi: u64,
    pub position: Vec3,
    pub normal: Vec3,
    pub collider: ColliderHandle,
    pub feature: FeatureId,
}

/// One row of the physics world's collider table: which rigid body a
/// collider is attached to.
#[derive(Clone, Copy, PartialEq, Eq, Structural, Hash, Debug)]
pub struct ColliderParent {
    pub collider: ColliderHandle,
    pub body: BodyHandle,
}

/// The authoritative result of resolving one shot. `actor` is the "none"
/// handle when level geometry was hit (or the only matching actor was the
/// shooter); `who` is the actor credited with the shot.
#[derive(Clone, Copy, PartialEq, Eq, Structural, Hash, Debug)]
pub struct Hit {
    pub actor: ActorHandle,
    pub who: ActorHandle,
    pub position: Vec3,
    pub normal: Vec3,
    pub collider: ColliderHandle,
    pub feature: FeatureId,
}

/// The body the collider table attaches `c` to, if it lists `c` at all.
pub open spec fn spec_body_of(map: Seq<ColliderParent>, c: ColliderHandle) -> Option<BodyHandle>
    decreases map.len(),
{
    if map.len() == 0 {
        None
    } else if map[0].collider == c {
        Some(map[0].body)
    } else {
        spec_body_of(map.drop_first(), c)
    }
}

/// The first actor (in registry order) standing on `body`, other than the
/// shooter's own actor.
pub open spec fn spec_first_actor_match(
    s: Seq<ActorEntry>,
    body: BodyHandle,
    owner: ActorHandle,
) -> Option<ActorHandle>
    decreases s.len(),
{
    if s.len() == 0 {
        None
    } else if s[0].actor.body == body && s[0].handle != owner {
        Some(s[0].handle)
    } else {
        spec_first_actor_match(s.drop_first(), body, owner)
    }
}

/// Classifies one surviving intersection: an actor hit when some actor other
/// than the shooter's owner stands on the struck body, else an environment
/// hit with the same geometric fields. A collider the table does not list is
/// an environment hit as well.
pub open spec fn spec_resolve_record(
    r: RayHitRecord,
    owner: Option<ActorHandle>,
    actors: Seq<ActorEntry>,
    map: Seq<ColliderParent>,
) -> Hit {
    let matched = match owner {
        Some(o) => match spec_body_of(map, r.collider) {
            Some(b) => spec_first_actor_match(actors, b, o),
            None => None,
        },
        None => None,
    };
    match matched {
        Some(a) => Hit {
            actor: a,
            who: match owner {
                Some(o) => o,
                None => ActorHandle::spec_none(),
            },
            position: r.position,
            normal: r.normal,
            collider: r.collider,
            feature: r.feature,
        },
        None => Hit {
            actor: ActorHandle::spec_none(),
            who: ActorHandle::spec_none(),
            position: r.position,
            normal: r.normal,
            collider: r.collider,
            feature: r.feature,
        },
    }
}

/// The whole resolution: the first record whose collider is not the excluded
/// one decides the hit; with no such record there is no hit.
pub open spec fn spec_ray_hit(
    query: Seq<RayHitRecord>,
    owner: Option<ActorHandle>,
    actors: Seq<ActorEntry>,
    map: Seq<ColliderParent>,
    ignored: ColliderHandle,
) -> Option<Hit>
    decreases query.len(),
{
    if query.len() == 0 {
        None
    } else if query[0].collider == ignored {
        spec_ray_hit(query.drop_first(), owner, actors, map, ignored)
    } else {
        Some(spec_resolve_record(query[0], owner, actors, map))
    }
}

/// The owner credited for shots of `weapon`: absent when the handle is the
/// "none" handle (then no actor can be hit at all).
pub open spec fn spec_shooter_owner(weapons: Seq<Slot>, weapon: WeaponHandle) -> Option<
    ActorHandle,
> {
    if weapon.spec_is_some() {
        match weapons[weapon.index as int].weapon {
            Some(w) => Some(w.owner),
            None => None,
        }
    } else {
        None
    }
}

/// Looks `c` up in the physics world's collider table.
fn body_of(map: &Vec<ColliderParent>, c: ColliderHandle) -> (b: Option<BodyHandle>)
    ensures
        b == spec_body_of(map@, c),
{
    let n = map.len();
    let mut i: usize = 0;
    proof {
        assert(map@.skip(0) =~= map@);
    }
    while i < n
        invariant
            0 <= i <= n == map@.len(),
            spec_body_of(map@, c) == spec_body_of(map@.skip(i as int), c),
        decreases n - i,
    {
        proof {
            assert(map@.skip(i as int)[0] == map@[i as int]);
        }
        if map[i].collider == c {
            return Some(map[i].body);
        }
        proof {
            assert(map@.skip(i as int).drop_first() =~= map@.skip(i as int + 1));
        }
        i += 1;
    }
    proof {
        assert(map@.skip(n as int).len() == 0);
    }
    None
}

/// Scans the registry for the first actor on `body` other than `owner`.
fn first_actor_match(actors: &ActorContainer, body: BodyHandle, owner: ActorHandle) -> (r: Option<
    ActorHandle,
>)
    ensures
        r == spec_first_actor_match(actors@, body, owner),
{
    let entries = actors.entries();
    let n = entries.len();
    let mut i: usize = 0;
    proof {
        assert(actors@.skip(0) =~= actors@);
    }
    while i < n
        invariant
            0 <= i <= n == actors@.len(),
            entries@ == actors@,
            spec_first_actor_match(actors@, body, owner) == spec_first_actor_match(
                actors@.skip(i as int),
                body,
                owner,
            ),
        decreases n - i,
    {
        proof {
            assert(actors@.skip(i as int)[0] == actors@[i as int]);
        }
        if entries[i].actor.body == body && entries[i].handle != owner {
            return Some(entries[i].handle);
        }
        proof {
            assert(actors@.skip(i as int).drop_first() =~= actors@.skip(i as int + 1));
        }
        i += 1;
    }
    proof {
        assert(actors@.skip(n as int).len() == 0);
    }
    None
}

/// Resolves a shot from the distance-sorted ray query results: walks the
/// records nearest-first, skips the excluded collider, and classifies the
/// first survivor against the actor registry, never crediting the firing
/// weapon's own owner as the victim. Returns no hit when every record is
/// excluded.
pub fn ray_hit(
    query: &Vec<RayHitRecord>,
    weapon: WeaponHandle,
    weapons: &WeaponContainer,
    actors: &ActorContainer,
    physics_colliders: &Vec<ColliderParent>,
    ignored_collider: ColliderHandle,
) -> (hit: Option<Hit>)
    requires
        weapon.spec_is_some() ==> spec_contains(weapons@, weapon),
    ensures
        hit == spec_ray_hit(
            query@,
            spec_shooter_owner(weapons@, weapon),
            actors@,
            physics_colliders@,
            ignored_collider,
        ),
{
    let owner: Option<ActorHandle> = if weapon.is_some() {
        Some(weapons.index(weapon).owner)
    } else {
        None
    };
    let ghost spec_owner = spec_shooter_owner(weapons@, weapon);
    proof {
        assert(owner == spec_owner);
    }
    let n = query.len();
    let mut i: usize = 0;
    proof {
        assert(query@.skip(0) =~= query@);
    }
    while i < n
        invariant
            0 <= i <= n == query@.len(),
            owner == spec_owner,
            spec_owner == spec_shooter_owner(weapons@, weapon),
            weapon.spec_is_some() ==> spec_contains(weapons@, weapon),
            spec_ray_hit(query@, spec_owner, actors@, physics_colliders@, ignored_collider)
                == spec_ray_hit(
                query@.skip(i as int),
                spec_owner,
                actors@,
                physics_colliders@,
                ignored_collider,
            ),
        decreases n - i,
    {
        proof {
            assert(query@.skip(i as int)[0] == query@[i as int]);
        }
        if query[i].collider != ignored_collider {
            let record = query[i];
            let matched: Option<ActorHandle> = match owner {
                Some(o) => match body_of(physics_colliders, record.collider) {
                    Some(b) => first_actor_match(actors, b, o),
                    None => None,
                },
                None => None,
            };
            let resolved = match matched {
                Some(a) => Hit {
                    actor: a,
                    who: match owner {
                        Some(o) => o,
                        None => ActorHandle::none(),
                    },
                    position: record.position,
                    normal: record.normal,
                    collider: record.collider,
                    feature: record.feature,
                },
                None => Hit {
                    actor: ActorHandle::none(),
                    who: ActorHandle::none(),
                    position: record.position,
                    normal: record.normal,
                    collider: record.collider,
                    feature: record.feature,
                },
            };
            return Some(resolved);
        }
        proof {
            assert(query@.skip(i as int).drop_first() =~= query@.skip(i as int + 1));
        }
        i += 1;
    }
    proof {
        assert(query@.skip(n as int).len() == 0);
    }
    None
}

/// Index of the first record not excluded by the collider filter; equals
/// `query.len()` when every record is excluded.
pub open spec fn spec_first_qualifying(query: Seq<RayHitRecord>, ignored: ColliderHandle) -> int
    decreases query.len(),
{
    if query.len() == 0 {
        0
    } else if query[0].collider != ignored {
        0
    } else {
        1 + spec_first_qualifying(query.drop_first(), ignored)
    }
}

/// The resolution is decided exactly by the first non-excluded record: no
/// hit when there is none, else the classification of that record, with
/// every earlier record excluded.
pub proof fn lemma_ray_hit_first_qualifying(
    query: Seq<RayHitRecord>,
    owner: Option<ActorHandle>,
    actors: Seq<ActorEntry>,
    map: Seq<ColliderParent>,
    ignored: ColliderHandle,
)
    ensures
        0 <= spec_first_qualifying(query, ignored) <= query.len(),
        spec_first_qualifying(query, ignored) == query.len() ==> spec_ray_hit(
            query,
            owner,
            actors,
            map,
            ignored,
        ) is None,
        spec_first_qualifying(query, ignored) < query.len() ==> spec_ray_hit(
            query,
            owner,
            actors,
            map,
            ignored,
        ) == Some(spec_resolve_record(query[spec_first_qualifying(query, ignored)], owner, actors, map))
            && query[spec_first_qualifying(query, ignored)].collider != ignored,
        forall|j: int|
            0 <= j < spec_first_qualifying(query, ignored) ==> (#[trigger] query[j]).collider
                == ignored,
    decreases query.len(),
{
    if query.len() == 0 {
    } else if query[0].collider != ignored {
    } else {
        lemma_ray_hit_first_qualifying(query.drop_first(), owner, actors, map, ignored);
        assert forall|j: int|
            0 <= j < spec_first_qualifying(query, ignored) implies (#[trigger] query[j]).collider
            == ignored by {
            if j > 0 {
                assert(query.drop_first()[j - 1] == query[j]);
            }
        }
        if spec_first_qualifying(query, ignored) < query.len() {
            assert(query.drop_first()[spec_first_qualifying(query, ignored) - 1]
                == query[spec_first_qualifying(query, ignored)]);
        }
    }
}

/// With no record outside the excluded collider — in particular with an
/// empty result list — there is no hit.
pub proof fn lemma_no_qualifying_no_hit(
    query: Seq<RayHitRecord>,
    owner: Option<ActorHandle>,
    actors: Seq<ActorEntry>,
    map: Seq<ColliderParent>,
    ignored: ColliderHandle,
)
    requires
        forall|j: int| 0 <= j < query.len() ==> (#[trigger] query[j]).collider == ignored,
    ensures
        spec_ray_hit(query, owner, actors, map, ignored) is None,
    decreases query.len(),
{
    if query.len() > 0 {
        assert forall|j: int|
            0 <= j < query.drop_first().len() implies (#[trigger] query.drop_first()[j]).collider
            == ignored by {
            assert(query.drop_first()[j] == query[j + 1]);
        }
        lemma_no_qualifying_no_hit(query.drop_first(), owner, actors, map, ignored);
    }
}

/// On a list sorted by distance, the hit (when there is one) comes from the
/// nearest non-excluded record: no qualifying record is closer.
pub proof fn lemma_hit_is_nearest_qualifying(
    query: Seq<RayHitRecord>,
    owner: Option<ActorHandle>,
    actors: Seq<ActorEntry>,
    map: Seq<ColliderParent>,
    ignored: ColliderHandle,
)
    requires
        forall|j: int, k: int|
            0 <= j <= k < query.len() ==> (#[trigger] query[j]).toi <= (#[trigger] query[k]).toi,
        spec_first_qualifying(query, ignored) < query.len(),
    ensures
        spec_ray_hit(query, owner, actors, map, ignored) == Some(
            spec_resolve_record(query[spec_first_qualifying(query, ignored)], owner, actors, map),
        ),
        forall|k: int|
            0 <= k < query.len() && (#[trigger] query[k]).collider != ignored ==> query[spec_first_qualifying(
                query,
                ignored,
            )].toi <= query[k].toi,
{
    lemma_ray_hit_first_qualifying(query, owner, actors, map, ignored);
    let f = spec_first_qualifying(query, ignored);
    assert forall|k: int|
        0 <= k < query.len() && (#[trigger] query[k]).collider != ignored implies query[f].toi
        <= query[k].toi by {
        if k < f {
            assert(query[k].collider == ignored);
        }
    }
}

/// When every actor standing on `body` is the shooter's own, the resolver
/// never matches an actor.
pub proof fn lemma_owner_only_never_matches(
    s: Seq<ActorEntry>,
    body: BodyHandle,
    owner: ActorHandle,
)
    requires
        forall|j: int|
            0 <= j < s.len() && (#[trigger] s[j]).actor.body == body ==> s[j].handle == owner,
    ensures
        spec_first_actor_match(s, body, owner) is None,
    decreases s.len(),
{
    if s.len() > 0 {
        assert forall|j: int|
            0 <= j < s.drop_first().len() && (#[trigger] s.drop_first()[j]).actor.body
            == body implies s.drop_first()[j].handle == owner by {
            assert(s.drop_first()[j] == s[j + 1]);
        }
        lemma_owner_only_never_matches(s.drop_first(), body, owner);
    }
}

/// Self-exclusion classifies, it never skips: when the nearest qualifying
/// record strikes a body on which only the shooter's own actor stands, the
/// hit is the environment classification of that same record — same
/// geometric point — not some farther record.
pub proof fn lemma_owner_hit_is_environment(
    query: Seq<RayHitRecord>,
    owner: ActorHandle,
    actors: Seq<ActorEntry>,
    map: Seq<ColliderParent>,
    ignored: ColliderHandle,
    body: BodyHandle,
)
    requires
        spec_first_qualifying(query, ignored) < query.len(),
        spec_body_of(map, query[spec_first_qualifying(query, ignored)].collider) == Some(body),
        forall|j: int|
            0 <= j < actors.len() && (#[trigger] actors[j]).actor.body == body ==> actors[j].handle
                == owner,
    ensures
        spec_ray_hit(query, Some(owner), actors, map, ignored) == Some(
            Hit {
                actor: ActorHandle::spec_none(),
                who: ActorHandle::spec_none(),
                position: query[spec_first_qualifying(query, ignored)].position,
                normal: query[spec_first_qualifying(query, ignored)].normal,
                collider: query[spec_first_qualifying(query, ignored)].collider,
                feature: query[spec_first_qualifying(query, ignored)].feature,
            },
        ),
{
    lemma_ray_hit_first_qualifying(query, Some(owner), actors, map, ignored);
    lemma_owner_only_never_matches(actors, body, owner);
}

} // verus!
