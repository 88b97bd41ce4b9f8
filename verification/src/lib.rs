//! Core of a 2D grid-based factory prototype: a four-way facing algebra,
//! exact world/grid coordinate transforms over fixed-point coordinates, a
//! sparse multi-cell tilemap with atomic placement and removal, a conveyor
//! step that funnels items onto belt centerlines, and the tool controller
//! that turns pointer actions into tilemap mutations.
//!
//! Continuous quantities (world positions, velocities, sub-cell offsets,
//! frame time) are fixed-point integers with [`coords::SCALE`] units per
//! cell, so every transform and every conveyor step is exact. Handles to
//! host-owned visual resources are opaque `u64` values: the core only emits
//! spawn and despawn requests carrying them.

pub mod coords;
pub mod direction;
pub mod items;
pub mod placing;
pub mod tilemap;
pub mod transformations;
