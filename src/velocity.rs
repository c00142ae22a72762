use vstd::prelude::*;
use crate::aim::{lemma_unit_component_bounds, Direction, DIRECTION_UNIT};
use crate::charge::MAX_SPEED;

verus! {

/// One step of the wire's velocity encoding, 1/8000 m/s, in picometres per second.
pub const WIRE_VELOCITY_STEP: i64 = 125_000_000;

/// Integer division rounded toward zero, for a positive divisor.
pub open spec fn trunc_div(a: int, b: int) -> int {
    if a >= 0 { a / b } else { -((-a) / b) }
}

/// The nearest value of a signed 16-bit integer.
pub open spec fn clamp_i16(v: int) -> int {
    if v > i16::MAX { i16::MAX as int } else if v < i16::MIN { i16::MIN as int } else { v }
}

/// A velocity component on the wire: scaled by 8000 per m/s, cut toward zero,
/// and held to the 16-bit range.
pub open spec fn wire_component(v: int) -> int {
    clamp_i16(trunc_div(v, WIRE_VELOCITY_STEP as int))
}

/// A velocity component read back from the wire, in picometres per second.
pub open spec fn unwired_component(w: int) -> int {
    w * WIRE_VELOCITY_STEP
}

/// One component of a direction (millionths) stretched to `speed`, cut toward zero.
pub open spec fn scaled_component(c: int, speed: int) -> int {
    trunc_div(c * speed, DIRECTION_UNIT as int)
}

/// A velocity, in picometres per second on each axis.
#[derive(Clone, Copy, Debug, PartialEq, Eq, Structural)]
pub struct Velocity {
    pub x: i64,
    pub y: i64,
    pub z: i64,
}

/// A velocity as the wire carries it: 1/8000 m/s per unit on each axis.
#[derive(Clone, Copy, Debug, PartialEq, Eq, Structural)]
pub struct WireVelocity {
    pub x: i16,
    pub y: i16,
    pub z: i16,
}

/// The velocity of `speed` (picometres per second) along `direction`.
pub open spec fn velocity_spec(direction: (int, int, int), speed: int) -> Velocity {
    Velocity {
        x: scaled_component(direction.0, speed) as i64,
        y: scaled_component(direction.1, speed) as i64,
        z: scaled_component(direction.2, speed) as i64,
    }
}

/// The wire form of a velocity.
pub open spec fn wire_velocity_spec(v: Velocity) -> WireVelocity {
    WireVelocity {
        x: wire_component(v.x as int) as i16,
        y: wire_component(v.y as int) as i16,
        z: wire_component(v.z as int) as i16,
    }
}

fn scale_component(c: i32, speed: u64) -> (r: i64)
    requires
        -1_000_010 <= c <= 1_000_010,
        speed <= MAX_SPEED,
    ensures
        r == scaled_component(c as int, speed as int),
{
    let ci = c as i128;
    let si = speed as i128;
    assert(-4_220_042_200_000_000_000 <= ci * si <= 4_220_042_200_000_000_000) by (nonlinear_arith)
        requires
            -1_000_010 <= ci <= 1_000_010,
            0 <= si <= 4_220_000_000_000,
    {
        if ci >= 0 {
            assert(ci * si <= 1_000_010 * si);
        } else {
            assert(-ci * si <= 1_000_010 * si);
        }
    }
    let p = ci * si;
    let unit = DIRECTION_UNIT as i128;
    if p >= 0 {
        (p / unit) as i64
    } else {
        -((-p) / unit) as i64
    }
}

/// The velocity of `speed` picometres per second along `direction`, each
/// component cut toward zero to a whole picometre per second.
pub fn velocity_along(direction: &Direction, speed: u64) -> (r: Velocity)
    requires
        speed <= MAX_SPEED,
    ensures
        r == velocity_spec(direction@, speed as int),
{
    let (x, y, z) = (direction.x(), direction.y(), direction.z());
    proof {
        lemma_unit_component_bounds(x as int, y as int, z as int);
    }
    Velocity {
        x: scale_component(x, speed),
        y: scale_component(y, speed),
        z: scale_component(z, speed),
    }
}

/// A velocity component in picometres per second, as the wire carries it.
/// Values past the 16-bit range are held at its ends rather than wrapped.
pub fn encode_component(v: i64) -> (r: i16)
    ensures
        r == wire_component(v as int),
{
    let step = WIRE_VELOCITY_STEP as i128;
    let vi = v as i128;
    let q: i128 = if vi >= 0 { vi / step } else { -((-vi) / step) };
    if q > i16::MAX as i128 {
        i16::MAX
    } else if q < i16::MIN as i128 {
        i16::MIN
    } else {
        q as i16
    }
}

/// A velocity component read back from the wire, in picometres per second.
pub fn decode_component(w: i16) -> (r: i64)
    ensures
        r == unwired_component(w as int),
{
    w as i64 * WIRE_VELOCITY_STEP
}

/// The wire form of a velocity, component by component.
pub fn encode_velocity(v: &Velocity) -> (r: WireVelocity)
    ensures
        r == wire_velocity_spec(*v),
{
    WireVelocity { x: encode_component(v.x), y: encode_component(v.y), z: encode_component(v.z) }
}

/// A velocity component whose scaled value fits the wire's 16-bit range comes
/// back from the wire within one step (1/8000 m/s); one past that range is held
/// at the nearest end of it, so its sign is never reversed.
pub proof fn lemma_wire_round_trip(v: i64)
    ensures
        i16::MIN <= trunc_div(v as int, WIRE_VELOCITY_STEP as int) <= i16::MAX ==> {
            let back = unwired_component(wire_component(v as int));
            -WIRE_VELOCITY_STEP < back - v < WIRE_VELOCITY_STEP
        },
        trunc_div(v as int, WIRE_VELOCITY_STEP as int) > i16::MAX ==> wire_component(v as int)
            == i16::MAX,
        trunc_div(v as int, WIRE_VELOCITY_STEP as int) < i16::MIN ==> wire_component(v as int)
            == i16::MIN,
        v >= 0 ==> wire_component(v as int) >= 0,
        v <= 0 ==> wire_component(v as int) <= 0,
{
    let s = WIRE_VELOCITY_STEP as int;
    let a = v as int;
    if a >= 0 {
        vstd::arithmetic::div_mod::lemma_fundamental_div_mod(a, s);
    } else {
        vstd::arithmetic::div_mod::lemma_fundamental_div_mod(-a, s);
    }
}

} // verus!
