use vstd::prelude::*;

verus! {

/// Why a release produced no projectile.
#[derive(Clone, Copy, Debug, PartialEq, Eq, Structural)]
pub enum ReleaseError {
    /// The shooter lacks a pose or an inventory.
    MissingPrecondition,
    /// The entity's index does not fit the wire's 32-bit signed entity id.
    AllocationExhausted,
}

/// The wire id of the entity at `index`, where it fits a 32-bit signed integer.
pub open spec fn wire_entity_id_spec(index: u32) -> Result<i32, ReleaseError> {
    if index <= i32::MAX {
        Ok(index as i32)
    } else {
        Err(ReleaseError::AllocationExhausted)
    }
}

/// The wire id of the entity at `index`. An index past the signed 32-bit range
/// is refused rather than wrapped.
pub fn wire_entity_id(index: u32) -> (r: Result<i32, ReleaseError>)
    ensures
        r == wire_entity_id_spec(index),
        r is Ok <==> index <= i32::MAX,
        r matches Ok(id) ==> id == index,
{
    if index <= i32::MAX as u32 {
        Ok(index as i32)
    } else {
        Err(ReleaseError::AllocationExhausted)
    }
}

/// The version field of a 128-bit identifier (bits 76 to 79, big-endian layout).
pub open spec fn uuid_version(id: u128) -> int {
    (id as int / 0x1_0000_0000_0000_0000_000) % 16
}

/// The variant field of a 128-bit identifier (bits 62 and 63, big-endian layout).
pub open spec fn uuid_variant(id: u128) -> int {
    (id as int / 0x4000_0000_0000_0000) % 4
}

/// A random (version 4) identifier of the RFC 4122 variant.
pub open spec fn is_random_uuid(id: u128) -> bool {
    uuid_version(id) == 4 && uuid_variant(id) == 2
}

/// A fresh random identifier.
///
/// Relies on `uuid::Uuid::new_v4`, which draws 128 random bits and sets the
/// version nibble to 4 and the variant bits to `10`, and on `Uuid::as_u128`,
/// which reads the identifier's bytes big-endian. `new_v4` panics only when the
/// system has no randomness to give.
#[verifier::external_body]
pub(crate) fn fresh_object_id() -> (r: u128)
    ensures
        is_random_uuid(r),
{
    uuid::Uuid::new_v4().as_u128()
}

} // verus!
