//! Simulation core of a minimal real-time arena game.
//!
//! A single player entity grows in size and is clamped to the arena; enemy
//! entities move linearly and reflect their velocity off the arena boundary;
//! a bounded spawner populates enemies with randomized attributes; an
//! axis-aligned bounding-box test reports player/enemy overlap.
//!
//! The world is modelled on integer coordinates (world units); the hosting
//! application converts to and from whatever representation its renderer
//! uses, queries the window for arena bounds, captures raw key state, and
//! measures frame time in milliseconds.

use vstd::prelude::*;

pub mod collision;
pub mod confine;
pub mod entities;
pub mod frame;
pub mod geom;
pub mod growth;
pub mod motion;
pub mod spawn;
pub mod store;

verus! {

/// Errors of the simulation core: the only failure in scope is a singleton
/// lookup (player, spawner) that finds zero or more than one instance.
#[derive(Clone, Copy, Debug, PartialEq, Eq, Structural)]
pub enum SimError {
    PreconditionViolation,
}

} // verus!
