use projectile_release::{
    can_launch_from, clamped_charge, compose_broadcast, decode_component, encode_component, encode_velocity,
    initial_speed, plan_release, release_item, velocity_along, wire_entity_id, BoundingBox,
    Direction, EntityPhysics, Packet, PhysicsState, PlayerInventory, Position, ProjectileKind,
    ReleaseError, ReleaseItemQuery, ShooterPose, SpawnAnnouncement, Velocity, WireVelocity,
    BOX_HALF_EXTENT, DRAG_MILLI, EYE_HEIGHT, GRAVITY_MILLI, MAX_CHARGE_NANOS, MAX_SPEED,
    WIRE_VELOCITY_STEP,
};
use std::collections::HashSet;

const SECOND: u64 = 1_000_000_000;

fn direction_from_degrees(pitch: f64, yaw: f64) -> Option<Direction> {
    let (ps, pc) = pitch.to_radians().sin_cos();
    let (ys, yc) = yaw.to_radians().sin_cos();
    let x = (-pc * ys * 1_000_000.0).round() as i32;
    let y = (-ps * 1_000_000.0).round() as i32;
    let z = (pc * yc * 1_000_000.0).round() as i32;
    Direction::new(x, y, z)
}

fn shooter(direction: Direction, charge_nanos: Option<u64>) -> ReleaseItemQuery {
    ReleaseItemQuery {
        pose: ShooterPose {
            position: Position { x: 1_000_000, y: 64_000_000, z: 2_000_000 },
            direction,
            pitch_angle: 0,
            yaw_angle: 0,
        },
        inventory: PlayerInventory { charge_nanos },
    }
}

fn announcement(p: &Packet) -> SpawnAnnouncement {
    match p {
        Packet::Spawn(a) => *a,
        Packet::VelocityUpdate { .. } => panic!("expected a spawn announcement"),
    }
}

#[test]
fn speed_is_capped_at_full_charge() {
    assert_eq!(initial_speed(Some(SECOND)), 4_220_000_000_000);
    assert_eq!(initial_speed(Some(2 * SECOND)), MAX_SPEED);
    assert_eq!(initial_speed(Some(u64::MAX)), MAX_SPEED);
}

#[test]
fn speed_grows_with_partial_charge() {
    assert_eq!(initial_speed(Some(SECOND / 2)), 2_110_000_000_000);
    assert_eq!(initial_speed(Some(250_000_000)), 1_055_000_000_000);
    assert_eq!(initial_speed(Some(1)), 4220);
}

#[test]
fn missing_or_zero_charge_gives_no_speed() {
    assert_eq!(initial_speed(None), 0);
    assert_eq!(initial_speed(Some(0)), 0);
}

#[test]
fn charge_is_clamped_to_one_second() {
    assert_eq!(clamped_charge(Some(3 * SECOND)), MAX_CHARGE_NANOS);
    assert_eq!(clamped_charge(Some(700)), 700);
    assert_eq!(clamped_charge(None), 0);
}

#[test]
fn aim_directions_have_unit_length() {
    let mut pitch = -90.0;
    while pitch <= 90.0 {
        let mut yaw = -180.0;
        while yaw <= 180.0 {
            let d = direction_from_degrees(pitch, yaw);
            assert!(d.is_some(), "pitch {pitch} yaw {yaw}");
            yaw += 7.5;
        }
        pitch += 2.5;
    }
}

#[test]
fn direction_rejects_vectors_off_unit_length() {
    assert!(Direction::new(0, 0, 0).is_none());
    assert!(Direction::new(0, 0, 1_000_011).is_none());
    assert!(Direction::new(0, 999_989, 0).is_none());
    assert!(Direction::new(0, 0, 1_000_010).is_some());
    assert!(Direction::new(-999_990, 0, 0).is_some());
    let d = Direction::new(600_000, 0, -800_000).unwrap();
    assert_eq!((d.x(), d.y(), d.z()), (600_000, 0, -800_000));
}

#[test]
fn velocity_follows_direction_and_speed() {
    let d = Direction::new(600_000, 0, -800_000).unwrap();
    let v = velocity_along(&d, 1_000_000_000_000);
    assert_eq!(v, Velocity { x: 600_000_000_000, y: 0, z: -800_000_000_000 });
    let v = velocity_along(&d, 3);
    assert_eq!(v, Velocity { x: 1, y: 0, z: -2 });
}

#[test]
fn wire_encoding_scales_by_eight_thousand() {
    assert_eq!(WIRE_VELOCITY_STEP, 125_000_000);
    assert_eq!(encode_component(1_000_000_000_000), 8000);
    assert_eq!(encode_component(-1_000_000_000_000), -8000);
    assert_eq!(encode_component(124_999_999), 0);
    assert_eq!(encode_component(-250_000_001), -2);
    assert_eq!(decode_component(8000), 1_000_000_000_000);
    assert_eq!(decode_component(-3), -375_000_000);
}

#[test]
fn wire_encoding_clamps_instead_of_wrapping() {
    assert_eq!(encode_component(4_220_000_000_000), i16::MAX);
    assert_eq!(encode_component(-4_220_000_000_000), i16::MIN);
    assert_eq!(encode_component(i64::MAX), i16::MAX);
    assert_eq!(encode_component(i64::MIN), i16::MIN);
    assert_eq!(encode_component(32_767 * 125_000_000), 32_767);
    assert_eq!(encode_component(32_768 * 125_000_000), 32_767);
}

#[test]
fn wire_round_trip_is_within_one_step() {
    let samples: [i64; 7] = [0, 1, -1, 1_491_995_770_000, -1_491_995_770_000, 4_095_999_999_999, -4_095_999_999_999];
    for v in samples {
        let back = decode_component(encode_component(v));
        assert!((back - v).abs() < WIRE_VELOCITY_STEP, "{v} came back as {back}");
    }
}

#[test]
fn encodes_whole_velocity() {
    let w = encode_velocity(&Velocity { x: 0, y: 1_491_995_770_000, z: -4_220_000_000_000 });
    assert_eq!(w, WireVelocity { x: 0, y: 11_935, z: i16::MIN });
}

#[test]
fn entity_index_past_wire_range_is_refused() {
    assert_eq!(wire_entity_id(0), Ok(0));
    assert_eq!(wire_entity_id(i32::MAX as u32), Ok(i32::MAX));
    assert_eq!(wire_entity_id(i32::MAX as u32 + 1), Err(ReleaseError::AllocationExhausted));
    assert_eq!(wire_entity_id(u32::MAX), Err(ReleaseError::AllocationExhausted));
}

#[test]
fn spawn_packet_precedes_velocity_packet() {
    let spawn = SpawnAnnouncement {
        entity_id: 9,
        object_id: 77,
        kind: ProjectileKind::Arrow,
        position: Position { x: 1, y: 2, z: 3 },
        pitch: 4,
        yaw: 5,
        head_yaw: 0,
        data: 0,
        velocity: WireVelocity { x: 1, y: -1, z: 2 },
    };
    let packets = compose_broadcast(spawn);
    assert_eq!(packets.len(), 2);
    assert_eq!(packets[0], Packet::Spawn(spawn));
    assert_eq!(packets[1], Packet::VelocityUpdate { entity_id: 9, velocity: WireVelocity { x: 1, y: -1, z: 2 } });
}

#[test]
fn binding_needs_pose_and_inventory() {
    let q = shooter(Direction::new(0, 0, 1_000_000).unwrap(), Some(SECOND));
    let inv = PlayerInventory { charge_nanos: Some(SECOND) };
    assert_eq!(ReleaseItemQuery::bind(None, Some(inv)).unwrap_err(), ReleaseError::MissingPrecondition);
    assert_eq!(ReleaseItemQuery::bind(Some(q.pose), None).unwrap_err(), ReleaseError::MissingPrecondition);
    let bound = ReleaseItemQuery::bind(Some(q.pose), Some(inv)).unwrap();
    assert_eq!(bound.inventory, inv);
    assert_eq!(bound.pose.position, q.pose.position);
}

#[test]
fn level_aim_full_charge_is_clamped_on_the_wire() {
    let d = direction_from_degrees(0.0, 0.0).unwrap();
    assert_eq!((d.x(), d.y(), d.z()), (0, 0, 1_000_000));
    let q = shooter(d, Some(2 * SECOND));
    let p = plan_release(&q, 5, 0xABCD).unwrap();
    let v = Velocity { x: 0, y: 0, z: 4_220_000_000_000 };
    assert_eq!(p.entity_id, 5);
    assert_eq!(p.object_id, 0xABCD);
    assert_eq!(
        p.physics,
        EntityPhysics { state: PhysicsState::Moving { velocity: v }, gravity_milli: GRAVITY_MILLI, drag_milli: DRAG_MILLI }
    );
    assert_eq!((GRAVITY_MILLI, DRAG_MILLI), (50, 10));
    let launch = Position { x: 1_000_000, y: 65_520_000, z: 2_000_000 };
    assert_eq!(p.pose.position, launch);
    assert_eq!(
        p.pose.bounding,
        BoundingBox {
            min: Position { x: 500_000, y: 65_020_000, z: 1_500_000 },
            max: Position { x: 1_500_000, y: 66_020_000, z: 2_500_000 },
        }
    );
    let wire = WireVelocity { x: 0, y: 0, z: 32_767 };
    assert_eq!(p.packets.len(), 2);
    let a = announcement(&p.packets[0]);
    assert_eq!(a.entity_id, 5);
    assert_eq!(a.object_id, 0xABCD);
    assert_eq!(a.kind, ProjectileKind::Arrow);
    assert_eq!(a.position, launch);
    assert_eq!((a.pitch, a.yaw, a.head_yaw, a.data), (0, 0, 0, 0));
    assert_eq!(a.velocity, wire);
    assert_eq!(p.packets[1], Packet::VelocityUpdate { entity_id: 5, velocity: wire });
}

#[test]
fn straight_down_without_charge_stands_still() {
    let d = direction_from_degrees(90.0, 0.0).unwrap();
    assert_eq!((d.x(), d.y(), d.z()), (0, -1_000_000, 0));
    let p = plan_release(&shooter(d, Some(0)), 1, 2).unwrap();
    let zero = Velocity { x: 0, y: 0, z: 0 };
    assert_eq!(p.physics.state, PhysicsState::Moving { velocity: zero });
    assert_eq!(announcement(&p.packets[0]).velocity, WireVelocity { x: 0, y: 0, z: 0 });
    assert_eq!(p.packets[1], Packet::VelocityUpdate { entity_id: 1, velocity: WireVelocity { x: 0, y: 0, z: 0 } });
}

#[test]
fn upward_backward_half_charge() {
    assert_eq!(initial_speed(Some(SECOND / 2)), 2_110_000_000_000);
    let d = direction_from_degrees(-45.0, 180.0).unwrap();
    assert_eq!((d.x(), d.y(), d.z()), (0, 707_107, -707_107));
    let p = plan_release(&shooter(d, Some(SECOND / 2)), 3, 4).unwrap();
    let v = Velocity { x: 0, y: 1_491_995_770_000, z: -1_491_995_770_000 };
    assert_eq!(p.physics.state, PhysicsState::Moving { velocity: v });
    let metres_per_second = v.y as f64 / 1e12;
    assert!((metres_per_second - 1.49).abs() < 0.005);
    assert_eq!(announcement(&p.packets[0]).velocity, WireVelocity { x: 0, y: 11_935, z: -11_935 });
}

#[test]
fn replaying_a_release_gives_two_projectiles() {
    let q = shooter(Direction::new(0, 0, 1_000_000).unwrap(), Some(2 * SECOND));
    let first = release_item(&q, 10).unwrap();
    let second = release_item(&q, 11).unwrap();
    assert_ne!(first.entity_id, second.entity_id);
    assert_ne!(first.object_id, second.object_id);
    assert_eq!(first.physics, second.physics);
    assert_eq!(first.packets.len(), 2);
    assert_eq!(second.packets.len(), 2);
    assert_eq!(announcement(&first.packets[0]).object_id, first.object_id);
    assert_eq!(announcement(&second.packets[0]).object_id, second.object_id);
}

#[test]
fn random_identifiers_do_not_repeat() {
    let q = shooter(Direction::new(0, 0, 1_000_000).unwrap(), Some(SECOND));
    let mut seen = HashSet::new();
    for i in 0..10_000u32 {
        let p = release_item(&q, i).unwrap();
        assert_eq!((p.object_id >> 76) & 0xF, 4);
        assert_eq!((p.object_id >> 62) & 0x3, 2);
        assert!(seen.insert(p.object_id));
    }
}

#[test]
fn release_past_wire_range_is_refused() {
    let q = shooter(Direction::new(0, 0, 1_000_000).unwrap(), Some(SECOND));
    assert_eq!(release_item(&q, u32::MAX).unwrap_err(), ReleaseError::AllocationExhausted);
    assert_eq!(plan_release(&q, 1 << 31, 1).unwrap_err(), ReleaseError::AllocationExhausted);
}

#[test]
fn launch_needs_room_above_and_around() {
    assert!(can_launch_from(&Position { x: 0, y: 0, z: 0 }));
    assert!(can_launch_from(&Position { x: 0, y: i64::MAX - BOX_HALF_EXTENT - EYE_HEIGHT, z: 0 }));
    assert!(!can_launch_from(&Position { x: 0, y: i64::MAX - BOX_HALF_EXTENT - EYE_HEIGHT + 1, z: 0 }));
    assert!(!can_launch_from(&Position { x: i64::MIN, y: 0, z: 0 }));
    assert!(!can_launch_from(&Position { x: 0, y: 0, z: i64::MAX }));
}
