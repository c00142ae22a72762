use vstd::prelude::*;

verus! {

/// A charge is counted up to one second; holding longer gives no more speed.
pub const MAX_CHARGE_NANOS: u64 = 1_000_000_000;

/// Speed gained per nanosecond of charge, in picometres per second
/// (4.22 m/s over one second of charge).
pub const SPEED_PER_CHARGE_NANO: u64 = 4220;

/// The launch speed of a fully charged release: 4.22 m/s, in picometres per second.
pub const MAX_SPEED: u64 = 4_220_000_000_000;

/// The charge that counts toward speed: an absent charge is none at all, and
/// anything past one second counts as one second.
pub open spec fn charge_counted(charge_nanos: Option<u64>) -> nat {
    match charge_nanos {
        Some(n) => if n <= MAX_CHARGE_NANOS { n as nat } else { MAX_CHARGE_NANOS as nat },
        None => 0,
    }
}

/// Launch speed in picometres per second: 4.22 m/s for each second of counted charge.
pub open spec fn speed_for_charge(charge_nanos: Option<u64>) -> nat {
    (charge_counted(charge_nanos) * SPEED_PER_CHARGE_NANO) as nat
}

/// The charge time, in nanoseconds, that counts toward the launch speed.
pub fn clamped_charge(charge_nanos: Option<u64>) -> (r: u64)
    ensures
        r == charge_counted(charge_nanos),
        r <= MAX_CHARGE_NANOS,
{
    match charge_nanos {
        Some(n) => if n <= MAX_CHARGE_NANOS { n } else { MAX_CHARGE_NANOS },
        None => 0,
    }
}

/// Launch speed in picometres per second for a charge of `charge_nanos`
/// nanoseconds: `4.22 * d` m/s for a charge of `d` seconds below one second,
/// exactly 4.22 m/s from one second on, and zero without a charge.
pub fn initial_speed(charge_nanos: Option<u64>) -> (r: u64)
    ensures
        r == speed_for_charge(charge_nanos),
        r <= MAX_SPEED,
        charge_nanos matches Some(n) ==> (n >= MAX_CHARGE_NANOS ==> r == MAX_SPEED),
        charge_nanos matches Some(n) ==> (n < MAX_CHARGE_NANOS ==> r == n * SPEED_PER_CHARGE_NANO),
        charge_nanos is None ==> r == 0,
{
    let counted = clamped_charge(charge_nanos);
    counted * SPEED_PER_CHARGE_NANO
}

} // verus!
