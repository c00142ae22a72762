use vstd::prelude::*;

verus! {

/// The length of a unit vector in direction components (millionths).
pub const DIRECTION_UNIT: i32 = 1_000_000;

/// How far a direction's length may stray from one, in millionths (1e-5).
pub const DIRECTION_TOLERANCE: i32 = 10;

/// Squared length of a vector.
pub open spec fn norm_sq(x: int, y: int, z: int) -> int {
    x * x + y * y + z * z
}

/// A vector, in millionths, whose length is 1 within 1e-5.
pub open spec fn is_unit_length(x: int, y: int, z: int) -> bool {
    let lo = DIRECTION_UNIT - DIRECTION_TOLERANCE;
    let hi = DIRECTION_UNIT + DIRECTION_TOLERANCE;
    lo * lo <= norm_sq(x, y, z) <= hi * hi
}

/// The direction a shooter faces, as a unit vector in millionths.
#[derive(Clone, Copy, Debug)]
pub struct Direction {
    x: i32,
    y: i32,
    z: i32,
}

impl View for Direction {
    type V = (int, int, int);

    closed spec fn view(&self) -> (int, int, int) {
        (self.x as int, self.y as int, self.z as int)
    }
}

impl Direction {
    #[verifier::type_invariant]
    spec fn inv(self) -> bool {
        is_unit_length(self.x as int, self.y as int, self.z as int)
    }

    /// The direction with components `(x, y, z)` in millionths, where that
    /// vector has length 1 within 1e-5; `None` otherwise.
    pub fn new(x: i32, y: i32, z: i32) -> (r: Option<Direction>)
        ensures
            r is Some <==> is_unit_length(x as int, y as int, z as int),
            r matches Some(d) ==> d@ == (x as int, y as int, z as int),
    {
        let (xi, yi, zi) = (x as i128, y as i128, z as i128);
        let lo: i128 = (DIRECTION_UNIT - DIRECTION_TOLERANCE) as i128;
        let hi: i128 = (DIRECTION_UNIT + DIRECTION_TOLERANCE) as i128;
        assert(0 <= xi * xi <= 0x4000_0000_0000_0000) by (nonlinear_arith)
            requires -0x8000_0000 <= xi <= 0x8000_0000;
        assert(0 <= yi * yi <= 0x4000_0000_0000_0000) by (nonlinear_arith)
            requires -0x8000_0000 <= yi <= 0x8000_0000;
        assert(0 <= zi * zi <= 0x4000_0000_0000_0000) by (nonlinear_arith)
            requires -0x8000_0000 <= zi <= 0x8000_0000;
        let n = xi * xi + yi * yi + zi * zi;
        if lo * lo <= n && n <= hi * hi {
            Some(Direction { x, y, z })
        } else {
            None
        }
    }

    /// East-west component, in millionths.
    pub fn x(&self) -> (r: i32)
        ensures
            r == self@.0,
            is_unit_length(self@.0, self@.1, self@.2),
    {
        proof { use_type_invariant(self); }
        self.x
    }

    /// Vertical component, in millionths.
    pub fn y(&self) -> (r: i32)
        ensures
            r == self@.1,
            is_unit_length(self@.0, self@.1, self@.2),
    {
        proof { use_type_invariant(self); }
        self.y
    }

    /// North-south component, in millionths.
    pub fn z(&self) -> (r: i32)
        ensures
            r == self@.2,
            is_unit_length(self@.0, self@.1, self@.2),
    {
        proof { use_type_invariant(self); }
        self.z
    }
}

/// No component of a vector of unit length exceeds the tolerated length.
pub proof fn lemma_unit_component_bounds(x: int, y: int, z: int)
    requires
        is_unit_length(x, y, z),
    ensures
        -(DIRECTION_UNIT + DIRECTION_TOLERANCE) <= x <= DIRECTION_UNIT + DIRECTION_TOLERANCE,
        -(DIRECTION_UNIT + DIRECTION_TOLERANCE) <= y <= DIRECTION_UNIT + DIRECTION_TOLERANCE,
        -(DIRECTION_UNIT + DIRECTION_TOLERANCE) <= z <= DIRECTION_UNIT + DIRECTION_TOLERANCE,
{
    let h = DIRECTION_UNIT + DIRECTION_TOLERANCE;
    assert(-h <= x <= h && -h <= y <= h && -h <= z <= h) by (nonlinear_arith)
        requires
            x * x + y * y + z * z <= h * h,
            h == 1_000_010,
    {
        assert(x * x >= 0 && y * y >= 0 && z * z >= 0);
        if x > h { assert(x * x > h * h); }
        if x < -h { assert(x * x > h * h); }
        if y > h { assert(y * y > h * h); }
        if y < -h { assert(y * y > h * h); }
        if z > h { assert(z * z > h * h); }
        if z < -h { assert(z * z > h * h); }
    }
}

} // verus!
