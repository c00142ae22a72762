use vstd::prelude::*;
use crate::aim::Direction;
use crate::broadcast::{broadcast_spec, compose_broadcast, Packet, ProjectileKind, SpawnAnnouncement};
use crate::charge::{initial_speed, speed_for_charge};
use crate::identity::{fresh_object_id, is_random_uuid, wire_entity_id, ReleaseError};
use crate::pose::{
    box_around, box_around_spec, fits_launch, launch_point, launch_point_spec, BoundingBox,
    Position,
};
use crate::velocity::{encode_velocity, velocity_along, velocity_spec, wire_velocity_spec, Velocity};

verus! {

/// Downward pull on a projectile, in thousandths of a metre per tick squared.
pub const GRAVITY_MILLI: u32 = 50;

/// Fraction of its speed a projectile loses each tick, in thousandths.
pub const DRAG_MILLI: u32 = 10;

/// Where a shooter stands and how it aims.
#[derive(Clone, Copy, Debug)]
pub struct ShooterPose {
    /// The shooter's feet.
    pub position: Position,
    /// The unit vector the shooter faces.
    pub direction: Direction,
    /// Pitch as a byte angle (256 steps to the turn).
    pub pitch_angle: u8,
    /// Yaw as a byte angle (256 steps to the turn).
    pub yaw_angle: u8,
}

/// What a release reads of the shooter's inventory.
#[derive(Clone, Copy, Debug, PartialEq, Eq, Structural)]
pub struct PlayerInventory {
    /// How long the item was held before release, in nanoseconds, if it was.
    pub charge_nanos: Option<u64>,
}

/// The shooter's components that a release needs.
#[derive(Clone, Copy, Debug)]
pub struct ReleaseItemQuery {
    pub pose: ShooterPose,
    pub inventory: PlayerInventory,
}

/// How a projectile moves.
#[derive(Clone, Copy, Debug, PartialEq, Eq, Structural)]
pub enum PhysicsState {
    Idle,
    Moving { velocity: Velocity },
}

/// A projectile's motion and the forces on it.
#[derive(Clone, Copy, Debug, PartialEq, Eq, Structural)]
pub struct EntityPhysics {
    pub state: PhysicsState,
    pub gravity_milli: u32,
    pub drag_milli: u32,
}

/// Where a projectile is and the space it takes. Its orientation is the shooter's.
#[derive(Clone, Copy, Debug, PartialEq, Eq, Structural)]
pub struct ProjectilePose {
    pub position: Position,
    pub bounding: BoundingBox,
}

/// A projectile ready to enter the world: its identity, its components, and
/// the packets that announce it, in the order they are sent.
#[derive(Clone, Debug)]
pub struct ProjectileSpawn {
    pub entity_id: i32,
    pub object_id: u128,
    pub physics: EntityPhysics,
    pub pose: ProjectilePose,
    pub packets: Vec<Packet>,
}

/// The launch velocity of a release: the charge's speed along the shooter's aim.
pub open spec fn release_velocity(query: ReleaseItemQuery) -> Velocity {
    velocity_spec(query.pose.direction@, speed_for_charge(query.inventory.charge_nanos) as int)
}

/// The announcement of the projectile that `query` releases.
pub open spec fn announcement_spec(
    query: ReleaseItemQuery,
    entity_id: i32,
    object_id: u128,
) -> SpawnAnnouncement {
    SpawnAnnouncement {
        entity_id,
        object_id,
        kind: ProjectileKind::Arrow,
        position: launch_point_spec(query.pose.position),
        pitch: query.pose.pitch_angle,
        yaw: query.pose.yaw_angle,
        head_yaw: 0,
        data: 0,
        velocity: wire_velocity_spec(release_velocity(query)),
    }
}

/// `p` is the projectile that `query` releases as the entity at `index`, with
/// the random identifier `object_id`.
pub open spec fn is_release_of(
    p: ProjectileSpawn,
    query: ReleaseItemQuery,
    index: u32,
    object_id: u128,
) -> bool {
    let position = launch_point_spec(query.pose.position);
    &&& p.entity_id == index
    &&& p.object_id == object_id
    &&& p.physics == EntityPhysics {
        state: PhysicsState::Moving { velocity: release_velocity(query) },
        gravity_milli: GRAVITY_MILLI,
        drag_milli: DRAG_MILLI,
    }
    &&& p.pose == ProjectilePose { position, bounding: box_around_spec(position) }
    &&& p.packets@ == broadcast_spec(announcement_spec(query, p.entity_id, object_id))
}

impl ReleaseItemQuery {
    /// The query for a shooter with both a pose and an inventory; without
    /// either, the release does not go ahead.
    pub fn bind(pose: Option<ShooterPose>, inventory: Option<PlayerInventory>) -> (r: Result<
        ReleaseItemQuery,
        ReleaseError,
    >)
        ensures
            r is Ok <==> pose is Some && inventory is Some,
            r matches Err(e) ==> e == ReleaseError::MissingPrecondition,
            r matches Ok(q) ==> Some(q.pose) == pose && Some(q.inventory) == inventory,
    {
        match (pose, inventory) {
            (Some(pose), Some(inventory)) => Ok(ReleaseItemQuery { pose, inventory }),
            _ => Err(ReleaseError::MissingPrecondition),
        }
    }
}

/// The projectile that `query` releases as the entity at `entity_index`, with
/// the random identifier `object_id`. An index past the wire's 32-bit signed
/// range is refused.
pub fn plan_release(query: &ReleaseItemQuery, entity_index: u32, object_id: u128) -> (r: Result<
    ProjectileSpawn,
    ReleaseError,
>)
    requires
        fits_launch(query.pose.position),
    ensures
        r is Ok <==> entity_index <= i32::MAX,
        r matches Err(e) ==> e == ReleaseError::AllocationExhausted,
        r matches Ok(p) ==> is_release_of(p, *query, entity_index, object_id),
{
    let entity_id = match wire_entity_id(entity_index) {
        Ok(id) => id,
        Err(e) => return Err(e),
    };
    let speed = initial_speed(query.inventory.charge_nanos);
    let velocity = velocity_along(&query.pose.direction, speed);
    let wire_velocity = encode_velocity(&velocity);
    let position = launch_point(&query.pose.position);
    let bounding = box_around(&position);
    let announcement = SpawnAnnouncement {
        entity_id,
        object_id,
        kind: ProjectileKind::Arrow,
        position,
        pitch: query.pose.pitch_angle,
        yaw: query.pose.yaw_angle,
        head_yaw: 0,
        data: 0,
        velocity: wire_velocity,
    };
    let packets = compose_broadcast(announcement);
    Ok(ProjectileSpawn {
        entity_id,
        object_id,
        physics: EntityPhysics {
            state: PhysicsState::Moving { velocity },
            gravity_milli: GRAVITY_MILLI,
            drag_milli: DRAG_MILLI,
        },
        pose: ProjectilePose { position, bounding },
        packets,
    })
}

/// Releases a projectile from the shooter that `query` describes, as the
/// entity at `entity_index`, under a fresh random identifier.
pub fn release_item(query: &ReleaseItemQuery, entity_index: u32) -> (r: Result<
    ProjectileSpawn,
    ReleaseError,
>)
    requires
        fits_launch(query.pose.position),
    ensures
        r is Ok <==> entity_index <= i32::MAX,
        r matches Err(e) ==> e == ReleaseError::AllocationExhausted,
        r matches Ok(p) ==> is_release_of(p, *query, entity_index, p.object_id),
        r matches Ok(p) ==> is_random_uuid(p.object_id),
{
    if entity_index > i32::MAX as u32 {
        return Err(ReleaseError::AllocationExhausted);
    }
    let object_id = fresh_object_id();
    plan_release(query, entity_index, object_id)
}

/// Releasing the same shot twice, as two entities under two identifiers, gives
/// two projectiles with distinct wire ids and identifiers, the same motion and
/// place, and both announced spawn first.
pub proof fn lemma_replay_gives_distinct_projectiles(
    query: ReleaseItemQuery,
    first_index: u32,
    second_index: u32,
    first_id: u128,
    second_id: u128,
    first: ProjectileSpawn,
    second: ProjectileSpawn,
)
    requires
        is_release_of(first, query, first_index, first_id),
        is_release_of(second, query, second_index, second_id),
        first_index != second_index,
        first_id != second_id,
    ensures
        first.entity_id != second.entity_id,
        first.object_id != second.object_id,
        first.physics == second.physics,
        first.pose == second.pose,
        first.packets@.len() == 2 && first.packets@[0] is Spawn && first.packets@[1] is VelocityUpdate,
        second.packets@.len() == 2 && second.packets@[0] is Spawn && second.packets@[1] is VelocityUpdate,
{
}

} // verus!
