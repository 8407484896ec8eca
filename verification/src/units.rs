//! The grid on which positions and sizes are measured.
//!
//! Positions and sizes are whole numbers of coordinate units, and a world
//! unit, the side of one pixel of an image, is
//! [`UNITS_PER_WORLD_UNIT`] of them.

use vstd::prelude::*;

verus! {

/// The number of coordinate units in one world unit.
pub const UNITS_PER_WORLD_UNIT: i32 = 4;

/// The coordinate that lies `world` world units from the origin, unless it
/// is beyond the range of coordinates.
pub fn coordinate_from_world(world: i32) -> (units: Option<i32>)
    ensures
        units == (if i32::MIN <= world * UNITS_PER_WORLD_UNIT <= i32::MAX {
            Some((world * UNITS_PER_WORLD_UNIT) as i32)
        } else {
            None
        }),
{
    world.checked_mul(UNITS_PER_WORLD_UNIT)
}

/// The length of `world` world units, unless it is beyond the range of
/// lengths.
pub fn length_from_world(world: u32) -> (units: Option<u32>)
    ensures
        units == (if world * UNITS_PER_WORLD_UNIT <= u32::MAX {
            Some((world * UNITS_PER_WORLD_UNIT) as u32)
        } else {
            None
        }),
{
    world.checked_mul(UNITS_PER_WORLD_UNIT as u32)
}

} // verus!
