//! Release of a charged projectile: from a shooter's aim and charge time to the
//! components of a new projectile entity and the packets that announce it.
//!
//! All quantities are fixed-point integers: time in nanoseconds, speeds in
//! picometres per second, positions in micrometres and directions in millionths
//! of a unit vector.

mod aim;
mod broadcast;
mod charge;
mod identity;
mod pose;
mod release;
mod velocity;

pub use aim::{is_unit_length, lemma_unit_component_bounds, norm_sq, Direction, DIRECTION_TOLERANCE, DIRECTION_UNIT};
pub use broadcast::{broadcast_spec, compose_broadcast, Packet, ProjectileKind, SpawnAnnouncement};
pub use charge::{
    charge_counted, clamped_charge, initial_speed, speed_for_charge, MAX_CHARGE_NANOS, MAX_SPEED,
    SPEED_PER_CHARGE_NANO,
};
pub use identity::{
    is_random_uuid, uuid_variant, uuid_version, wire_entity_id, wire_entity_id_spec, ReleaseError,
};
pub use pose::{
    box_around, box_around_spec, can_launch_from, fits_launch, launch_point, launch_point_spec,
    BoundingBox, Position, BOX_HALF_EXTENT, EYE_HEIGHT,
};
pub use release::{
    announcement_spec, is_release_of, lemma_replay_gives_distinct_projectiles, plan_release,
    release_item, release_velocity, EntityPhysics, PhysicsState, PlayerInventory,
    ProjectilePose, ProjectileSpawn, ReleaseItemQuery, ShooterPose, DRAG_MILLI, GRAVITY_MILLI,
};
pub use velocity::{
    clamp_i16, decode_component, encode_component, encode_velocity, lemma_wire_round_trip,
    scaled_component, trunc_div, unwired_component, velocity_along, velocity_spec,
    wire_component, wire_velocity_spec, Velocity, WireVelocity, WIRE_VELOCITY_STEP,
};
