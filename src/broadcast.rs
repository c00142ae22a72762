use vstd::prelude::*;
use crate::pose::Position;
use crate::velocity::WireVelocity;

verus! {

/// The kind of entity a spawn announcement introduces.
#[derive(Clone, Copy, Debug, PartialEq, Eq, Structural)]
pub enum ProjectileKind {
    Arrow,
}

/// What clients are told of a new projectile.
#[derive(Clone, Copy, Debug, PartialEq, Eq, Structural)]
pub struct SpawnAnnouncement {
    pub entity_id: i32,
    pub object_id: u128,
    pub kind: ProjectileKind,
    pub position: Position,
    pub pitch: u8,
    pub yaw: u8,
    pub head_yaw: u8,
    pub data: i32,
    pub velocity: WireVelocity,
}

/// A packet for every connected client.
#[derive(Clone, Copy, Debug, PartialEq, Eq, Structural)]
pub enum Packet {
    Spawn(SpawnAnnouncement),
    VelocityUpdate { entity_id: i32, velocity: WireVelocity },
}

/// The packets that announce a spawn, in the order they are sent: the spawn
/// itself, then the same velocity once more so that clients move the entity at
/// once instead of waiting for the next position sync.
pub open spec fn broadcast_spec(spawn: SpawnAnnouncement) -> Seq<Packet> {
    seq![
        Packet::Spawn(spawn),
        Packet::VelocityUpdate { entity_id: spawn.entity_id, velocity: spawn.velocity },
    ]
}

/// The packets that announce `spawn` to every client, spawn first.
pub fn compose_broadcast(spawn: SpawnAnnouncement) -> (r: Vec<Packet>)
    ensures
        r@ == broadcast_spec(spawn),
        r@.len() == 2,
        r@[0] is Spawn,
        r@[1] is VelocityUpdate,
{
    let update = Packet::VelocityUpdate { entity_id: spawn.entity_id, velocity: spawn.velocity };
    let mut packets: Vec<Packet> = Vec::new();
    packets.push(Packet::Spawn(spawn));
    packets.push(update);
    assert(packets@ =~= broadcast_spec(spawn));
    packets
}

} // verus!
