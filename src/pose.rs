use vstd::prelude::*;

verus! {

/// Height of a shooter's eyes above its feet: 1.52 m, in micrometres.
pub const EYE_HEIGHT: i64 = 1_520_000;

/// Half the side of a projectile's bounding box: 0.5 m, in micrometres.
pub const BOX_HALF_EXTENT: i64 = 500_000;

/// A point in the world, in micrometres on each axis.
#[derive(Clone, Copy, Debug, PartialEq, Eq, Structural)]
pub struct Position {
    pub x: i64,
    pub y: i64,
    pub z: i64,
}

/// An axis-aligned box between two corners.
#[derive(Clone, Copy, Debug, PartialEq, Eq, Structural)]
pub struct BoundingBox {
    pub min: Position,
    pub max: Position,
}

/// A shooter stands where a projectile can be placed: its eye point, and a box
/// around that point, fit the coordinate range.
pub open spec fn fits_launch(p: Position) -> bool {
    &&& i64::MIN + BOX_HALF_EXTENT <= p.x <= i64::MAX - BOX_HALF_EXTENT
    &&& i64::MIN + BOX_HALF_EXTENT <= p.z <= i64::MAX - BOX_HALF_EXTENT
    &&& i64::MIN + BOX_HALF_EXTENT - EYE_HEIGHT <= p.y <= i64::MAX - BOX_HALF_EXTENT - EYE_HEIGHT
}

/// The point a projectile leaves from: the shooter's eye point.
pub open spec fn launch_point_spec(shooter: Position) -> Position {
    Position { x: shooter.x, y: (shooter.y + EYE_HEIGHT) as i64, z: shooter.z }
}

/// The box centred on `p` with half-extent 0.5 m on every axis.
pub open spec fn box_around_spec(p: Position) -> BoundingBox {
    BoundingBox {
        min: Position {
            x: (p.x - BOX_HALF_EXTENT) as i64,
            y: (p.y - BOX_HALF_EXTENT) as i64,
            z: (p.z - BOX_HALF_EXTENT) as i64,
        },
        max: Position {
            x: (p.x + BOX_HALF_EXTENT) as i64,
            y: (p.y + BOX_HALF_EXTENT) as i64,
            z: (p.z + BOX_HALF_EXTENT) as i64,
        },
    }
}

/// Whether a projectile can be placed for a shooter standing at `p`.
pub fn can_launch_from(p: &Position) -> (r: bool)
    ensures
        r == fits_launch(*p),
{
    let lo = i64::MIN + BOX_HALF_EXTENT;
    let hi = i64::MAX - BOX_HALF_EXTENT;
    // The eye point lies above the feet, so only the top of the y range can run out.
    lo <= p.x && p.x <= hi && lo <= p.z && p.z <= hi && p.y <= hi - EYE_HEIGHT
}

/// The point 1.52 m above `shooter`, where a released projectile appears.
pub fn launch_point(shooter: &Position) -> (r: Position)
    requires
        shooter.y <= i64::MAX - EYE_HEIGHT,
    ensures
        r == launch_point_spec(*shooter),
{
    Position { x: shooter.x, y: shooter.y + EYE_HEIGHT, z: shooter.z }
}

/// The box centred on `p` with half-extent 0.5 m on every axis.
pub fn box_around(p: &Position) -> (r: BoundingBox)
    requires
        i64::MIN + BOX_HALF_EXTENT <= p.x <= i64::MAX - BOX_HALF_EXTENT,
        i64::MIN + BOX_HALF_EXTENT <= p.y <= i64::MAX - BOX_HALF_EXTENT,
        i64::MIN + BOX_HALF_EXTENT <= p.z <= i64::MAX - BOX_HALF_EXTENT,
    ensures
        r == box_around_spec(*p),
{
    BoundingBox {
        min: Position {
            x: p.x - BOX_HALF_EXTENT,
            y: p.y - BOX_HALF_EXTENT,
            z: p.z - BOX_HALF_EXTENT,
        },
        max: Position {
            x: p.x + BOX_HALF_EXTENT,
            y: p.y + BOX_HALF_EXTENT,
            z: p.z + BOX_HALF_EXTENT,
        },
    }
}

} // verus!
