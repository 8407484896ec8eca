//! Collision detection between rectangular bodies on an integer grid.
//!
//! A [`body::Body`] is an image placed at a position; a [`manager::Manager`]
//! keeps the bodies in the order in which they were added and tells whether
//! the first of them overlaps any other. The [`control`] module holds what a
//! frame of the interactive program decides: how far a key moves a body,
//! which body it moves, and when the program ends.
//!
//! Coordinates are whole numbers. One world unit is
//! [`units::UNITS_PER_WORLD_UNIT`] coordinate units, so that the finest
//! step a key can make is a whole number of them.

pub mod body;
pub mod control;
pub mod manager;
pub mod rect;
pub mod units;
