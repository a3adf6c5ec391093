//! Ranged-weapon core: the per-weapon state machine (ammo, cooldown, shot
//! dispatch), the hit resolver that turns a distance-sorted ray query into at
//! most one authoritative hit, the laser-sight aiming helper, and the
//! generation-checked pool that owns weapon instances and detects stale
//! handles.
//!
//! Geometry is carried in fixed-point coordinates (one world unit is
//! [`math::FIX_ONE`] ticks) and time in whole milliseconds, so every rule is
//! stated and proved over plain integers. Scene rendering, asset loading,
//! audio and the physics engine's internals stay outside: callers hand in the
//! per-frame positions and ray-query results, and receive outbound event
//! messages back.

pub mod actor;
pub mod hit;
pub mod laser;
pub mod weapon;
pub mod definition;
pub mod handle;
pub mod math;
pub mod message;
pub mod pool;
pub mod snapshot;
