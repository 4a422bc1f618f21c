//! Fresh identifiers.
use vstd::prelude::*;
use crate::types::RoomId;

verus! {

/// Relies on uuid's `Uuid::new_v4` for a random version-4 identifier, taken as
/// its 128-bit value with `Uuid::as_u128`. Nothing is promised of the value.
#[verifier::external_body]
pub(crate) fn new_room_id() -> (r: RoomId) {
    uuid::Uuid::new_v4().as_u128()
}

} // verus!
