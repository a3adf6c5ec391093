//! The laser-sight aiming aid.
//!
//! A stateless helper recomputed every frame: the weapon's update step
//! produces a [`LaserQuery`] describing the ray to cast, the caller runs the
//! query against its physics world, and [`LaserSight::update`] turns the
//! distance-sorted results into the pose of the two visuals (a thin ray
//! stretched to the hit distance, and a tip marker slightly behind the hit
//! point). When nothing qualifies, the visuals keep their last pose.

use crate::handle::{ColliderHandle, NodeHandle};
use crate::hit::RayHitRecord;
use crate::math::{div_trunc, spec_div_trunc, Vec3};
use vstd::prelude::*;

verus! {

/// How far the laser sight reaches, in fixed-point ticks (100 world units).
pub const LASER_RANGE_TICKS: u64 = 100_000;

/// How far behind the hit point the tip marker sits, as a divisor of the aim
/// direction (one tenth, i.e. 0.1 of the direction vector).
pub const TIP_BACKOFF_DIVISOR: i64 = 10;

/// The ray the laser sight wants cast this frame.
#[derive(Clone, Copy, PartialEq, Eq, Structural, Hash, Debug)]
pub struct LaserQuery {
    pub begin: Vec3,
    pub direction: Vec3,
    pub max_len_ticks: u64,
    pub ignore: ColliderHandle,
}

/// Where the two laser visuals should be placed after a frame's query.
#[derive(Clone, Copy, PartialEq, Eq, Structural, Hash, Debug)]
pub struct LaserPose {
    /// Origin of the ray visual: the current shot position.
    pub position: Vec3,
    /// Length to stretch the ray visual to: the hit distance, in ticks.
    pub ray_length_ticks: u64,
    /// Where the tip marker sits: the hit point, backed off a tenth of the
    /// aim direction.
    pub tip_position: Vec3,
}

/// Handles of the two scene visuals the laser sight drives.
#[derive(Clone, Copy, PartialEq, Eq, Structural, Hash, Debug)]
pub struct LaserSight {
    pub ray: NodeHandle,
    pub tip: NodeHandle,
}

/// The pose the laser visuals take for a given query outcome: the first
/// result whose collider is not the excluded one decides it; with no such
/// result the visuals are left as they are.
pub open spec fn spec_laser_pose(
    query: Seq<RayHitRecord>,
    position: Vec3,
    direction: Vec3,
    ignore: ColliderHandle,
) -> Option<LaserPose>
    decreases query.len(),
{
    if query.len() == 0 {
        None
    } else if query[0].collider == ignore {
        spec_laser_pose(query.drop_first(), position, direction, ignore)
    } else {
        Some(
            LaserPose {
                position,
                ray_length_ticks: query[0].toi,
                tip_position: Vec3::spec_sub(
                    query[0].position,
                    Vec3 {
                        x: spec_div_trunc(direction.x as int, TIP_BACKOFF_DIVISOR as int) as i64,
                        y: spec_div_trunc(direction.y as int, TIP_BACKOFF_DIVISOR as int) as i64,
                        z: spec_div_trunc(direction.z as int, TIP_BACKOFF_DIVISOR as int) as i64,
                    },
                ),
            },
        )
    }
}

impl LaserSight {
    /// Adopts the two visuals the caller built for the sight.
    pub fn new(ray: NodeHandle, tip: NodeHandle) -> (s: LaserSight)
        ensures
            s == (LaserSight { ray, tip }),
    {
        LaserSight { ray, tip }
    }

    /// Resolves this frame's query results into a pose for the visuals, or
    /// `None` when every intersection is excluded and the visuals keep their
    /// last pose.
    pub fn update(
        &self,
        query: &Vec<RayHitRecord>,
        position: Vec3,
        direction: Vec3,
        ignore: ColliderHandle,
    ) -> (pose: Option<LaserPose>)
        requires
            direction.in_range(),
            forall|j: int| 0 <= j < query@.len() ==> (#[trigger] query@[j]).position.in_range(),
        ensures
            pose == spec_laser_pose(query@, position, direction, ignore),
    {
        let n = query.len();
        let mut i: usize = 0;
        proof {
            assert(query@.skip(0) =~= query@);
        }
        while i < n
            invariant
                0 <= i <= n == query@.len(),
                direction.in_range(),
                forall|j: int| 0 <= j < query@.len() ==> (#[trigger] query@[j]).position.in_range(),
                spec_laser_pose(query@, position, direction, ignore) == spec_laser_pose(
                    query@.skip(i as int),
                    position,
                    direction,
                    ignore,
                ),
            decreases n - i,
        {
            proof {
                assert(query@.skip(i as int)[0] == query@[i as int]);
            }
            if query[i].collider != ignore {
                let backoff = Vec3 {
                    x: div_trunc(direction.x, TIP_BACKOFF_DIVISOR),
                    y: div_trunc(direction.y, TIP_BACKOFF_DIVISOR),
                    z: div_trunc(direction.z, TIP_BACKOFF_DIVISOR),
                };
                let tip_position = query[i].position.sub(&backoff);
                return Some(
                    LaserPose { position, ray_length_ticks: query[i].toi, tip_position },
                );
            }
            proof {
                assert(query@.skip(i as int).drop_first() =~= query@.skip(i as int + 1));
            }
            i += 1;
        }
        proof {
            assert(query@.skip(n as int).len() == 0);
        }
        None
    }
}

impl Default for LaserSight {
    fn default() -> (s: Self)
        ensures
            s == (LaserSight { ray: NodeHandle::spec_none(), tip: NodeHandle::spec_none() }),
    {
        LaserSight { ray: NodeHandle { index: 0, generation: 0 }, tip: NodeHandle { index: 0, generation: 0 } }
    }
}

} // verus!
