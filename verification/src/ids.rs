use vstd::prelude::*;

verus! {

/// Identifiers of scene elements are UUIDs, held as their 128-bit value
/// (most significant byte first, as `uuid::Uuid::as_u128` gives it).
///
/// A random (version-4) UUID: its version field (bits 76..80) is 4 and its
/// variant field (bits 62..64) is `0b10`, the RFC 9562 variant.
pub open spec fn is_random_uuid(id: u128) -> bool {
    &&& (id >> 76u128) & 0xfu128 == 4
    &&& (id >> 62u128) & 0x3u128 == 2
}

/// Calls `uuid::Uuid::new_v4` and gives back its 128-bit value. `new_v4`
/// masks a random number and sets the version field to 4 and the variant
/// field to `0b10`; nothing else is claimed of the value, which rests on
/// chance. The outside function panics only when the operating system's
/// random source fails, which no argument can rule out.
#[verifier::external_body]
pub(crate) fn new_uuid() -> (id: u128)
    ensures
        is_random_uuid(id),
{
    uuid::Uuid::new_v4().as_u128()
}

} // verus!
