//! Entity records of the simulation: the player singleton, enemies, the
//! spawner singleton, the per-frame input snapshot, and the values the core
//! hands across its boundary (colors for the renderer, collision events for
//! the diagnostic sink).

use vstd::prelude::*;
use crate::geom::{Vec2, pos_ok, unit_ok, vel_ok, UNIT_MAX};

verus! {

/// Units per second the player moves while a directional key is held.
pub const PLAYER_MOVE_SPEED: i64 = 200;

/// Diameter of the player at startup.
pub const PLAYER_START_SIZE: i64 = 2;

/// Capacity of the spawner: enemies are emitted while
/// `current_count <= max_count`, so one more than this number is created.
pub const SPAWN_CAP: u32 = 10;

/// Exclusive upper bound of a freshly spawned enemy's diameter.
pub const ENEMY_SIZE_RANGE: i64 = 20;

/// Exclusive upper bound of each freshly spawned velocity component.
pub const ENEMY_SPEED_RANGE: i64 = 10;

/// Exclusive upper bound of a spawned color channel, in thousandths: the
/// channel range `[0, 2)` handed to the renderer, which may exceed `1.0`
/// to signal an HDR color, becomes `[0, 2000)` thousandths here.
pub const COLOR_CHANNEL_RANGE: i64 = 2000;

/// The player: a world-space center, a constant movement speed in units per
/// second, and a diameter that doubles on growth events.
#[derive(Clone, Copy, Debug, PartialEq, Eq, Structural)]
pub struct Player {
    pub id: u64,
    pub position: Vec2,
    pub move_speed: i64,
    pub size: i64,
}

/// An enemy: a world-space center, a velocity in units per frame, and a
/// diameter fixed at creation.
#[derive(Clone, Copy, Debug, PartialEq, Eq, Structural)]
pub struct Enemy {
    pub id: u64,
    pub position: Vec2,
    pub velocity: Vec2,
    pub size: i64,
}

/// The spawner: how many enemies it has emitted and its capacity.
#[derive(Clone, Copy, Debug, PartialEq, Eq, Structural)]
pub struct Spawner {
    pub id: u64,
    pub current_count: u32,
    pub max_count: u32,
}

/// An RGB color in thousandths of a channel unit, drawn at spawn time and
/// handed unclamped to the rendering collaborator.
#[derive(Clone, Copy, Debug, PartialEq, Eq, Structural)]
pub struct Color {
    pub r: i64,
    pub g: i64,
    pub b: i64,
}

/// Raw key state of one frame: `true` while the key is down. Edge
/// detection for the growth key is the core's own business (it remembers
/// the previous frame's state), so this snapshot carries levels, not edges.
#[derive(Clone, Copy, Debug, PartialEq, Eq, Structural)]
pub struct InputFrame {
    pub up: bool,
    pub down: bool,
    pub left: bool,
    pub right: bool,
    pub grow: bool,
}

/// A collision notification for the diagnostic sink: which enemy's box the
/// player's center fell strictly inside.
#[derive(Clone, Copy, Debug, PartialEq, Eq, Structural)]
pub struct CollisionEvent {
    pub enemy_id: u64,
}

impl InputFrame {
    /// A frame with no key down.
    pub fn released() -> (r: InputFrame)
        ensures
            r == (InputFrame { up: false, down: false, left: false, right: false, grow: false }),
    {
        InputFrame { up: false, down: false, left: false, right: false, grow: false }
    }
}

impl Player {
    /// Bounded diameter and speed — the part of well-formedness that
    /// movement cannot disturb.
    pub open spec fn attrs_ok(self) -> bool {
        &&& 0 < self.size <= UNIT_MAX
        &&& unit_ok(self.move_speed as int)
    }

    /// Well-formed player: position representable, positive diameter,
    /// nonnegative bounded speed.
    pub open spec fn wf(self) -> bool {
        &&& pos_ok(self.position.x as int)
        &&& pos_ok(self.position.y as int)
        &&& self.attrs_ok()
    }

    /// The visual radius handed to the rendering collaborator: half the
    /// diameter.
    pub fn radius(&self) -> (r: i64)
        requires
            self.size >= 0,
        ensures
            r == self.size as int / 2,
    {
        crate::geom::half(self.size)
    }
}

impl Enemy {
    /// Well-formed enemy: position representable, bounded velocity,
    /// nonnegative bounded diameter. A zero diameter is a valid degenerate
    /// point enemy, not an error.
    pub open spec fn wf(self) -> bool {
        &&& pos_ok(self.position.x as int)
        &&& pos_ok(self.position.y as int)
        &&& vel_ok(self.velocity.x as int)
        &&& vel_ok(self.velocity.y as int)
        &&& 0 <= self.size <= UNIT_MAX
    }

    /// The enemy's next motion step stays within the representable world.
    pub open spec fn step_ok(self) -> bool {
        &&& pos_ok(self.position.x + self.velocity.x)
        &&& pos_ok(self.position.y + self.velocity.y)
    }

    /// The visual radius handed to the rendering collaborator: half the
    /// diameter.
    pub fn radius(&self) -> (r: i64)
        requires
            self.size >= 0,
        ensures
            r == self.size as int / 2,
    {
        crate::geom::half(self.size)
    }
}

impl Spawner {
    /// Well-formed spawner: the count after filling to capacity still fits.
    pub open spec fn wf(self) -> bool {
        self.max_count < 0xffff_ffffu32
    }
}

impl Color {
    /// Every channel lies in the spawned color range `[0, 2000)` thousandths.
    pub open spec fn in_spawn_range(self) -> bool {
        &&& 0 <= self.r < COLOR_CHANNEL_RANGE
        &&& 0 <= self.g < COLOR_CHANNEL_RANGE
        &&& 0 <= self.b < COLOR_CHANNEL_RANGE
    }
}

} // verus!
