//! The entity store: exclusive owner of all live entity records. It hands
//! out fresh identities on insertion, iterates records by kind (the systems
//! walk the per-kind vectors), and looks up the unique instance of a
//! singleton kind, failing when zero or more than one exists.
//!
//! No record is ever destroyed in scope, so an identity, once given out,
//! stays with its record for the life of the store.

use vstd::prelude::*;
use crate::SimError;
use crate::geom::{Vec2, pos_ok, vel_ok, unit_ok, UNIT_MAX};
use crate::entities::{Player, Enemy, Spawner, PLAYER_MOVE_SPEED, PLAYER_START_SIZE, SPAWN_CAP};

verus! {

/// All live entity records, grouped by kind, plus the identity counter and
/// the previous frame's growth-key level (the store-side state that turns
/// the raw key level into an edge trigger).
pub struct Store {
    pub next_id: u64,
    pub players: Vec<Player>,
    pub enemies: Vec<Enemy>,
    pub spawners: Vec<Spawner>,
    pub grow_was_down: bool,
}

impl Store {
    /// Every identity already handed out lies below the counter.
    pub open spec fn ids_below_next(self) -> bool {
        &&& forall|i: int|
            0 <= i < self.players@.len() ==> (#[trigger] self.players@[i].id) < self.next_id
        &&& forall|i: int|
            0 <= i < self.enemies@.len() ==> (#[trigger] self.enemies@[i].id) < self.next_id
        &&& forall|i: int|
            0 <= i < self.spawners@.len() ==> (#[trigger] self.spawners@[i].id) < self.next_id
    }

    /// No two live records, of any kinds, share an identity.
    pub open spec fn ids_distinct(self) -> bool {
        &&& forall|i: int, j: int|
            0 <= i < j < self.players@.len()
                ==> (#[trigger] self.players@[i].id) != (#[trigger] self.players@[j].id)
        &&& forall|i: int, j: int|
            0 <= i < j < self.enemies@.len()
                ==> (#[trigger] self.enemies@[i].id) != (#[trigger] self.enemies@[j].id)
        &&& forall|i: int, j: int|
            0 <= i < j < self.spawners@.len()
                ==> (#[trigger] self.spawners@[i].id) != (#[trigger] self.spawners@[j].id)
        &&& forall|i: int, j: int|
            0 <= i < self.players@.len() && 0 <= j < self.enemies@.len()
                ==> (#[trigger] self.players@[i].id) != (#[trigger] self.enemies@[j].id)
        &&& forall|i: int, j: int|
            0 <= i < self.players@.len() && 0 <= j < self.spawners@.len()
                ==> (#[trigger] self.players@[i].id) != (#[trigger] self.spawners@[j].id)
        &&& forall|i: int, j: int|
            0 <= i < self.enemies@.len() && 0 <= j < self.spawners@.len()
                ==> (#[trigger] self.enemies@[i].id) != (#[trigger] self.spawners@[j].id)
    }

    /// Well-formed store: identities fresh and distinct, every record
    /// well-formed.
    pub open spec fn wf(self) -> bool {
        &&& self.ids_below_next()
        &&& self.ids_distinct()
        &&& forall|i: int| 0 <= i < self.players@.len() ==> (#[trigger] self.players@[i]).wf()
        &&& forall|i: int| 0 <= i < self.enemies@.len() ==> (#[trigger] self.enemies@[i]).wf()
        &&& forall|i: int| 0 <= i < self.spawners@.len() ==> (#[trigger] self.spawners@[i]).wf()
    }

    /// Well-formedness up to the player's position: what holds in the
    /// middle of a frame, after movement has displaced the player and
    /// before confinement has clamped it back.
    pub open spec fn wf_loose(self) -> bool {
        &&& self.ids_below_next()
        &&& self.ids_distinct()
        &&& forall|i: int|
            0 <= i < self.players@.len() ==> (#[trigger] self.players@[i]).attrs_ok()
        &&& forall|i: int| 0 <= i < self.enemies@.len() ==> (#[trigger] self.enemies@[i]).wf()
        &&& forall|i: int| 0 <= i < self.spawners@.len() ==> (#[trigger] self.spawners@[i]).wf()
    }

    /// An empty store.
    pub fn new() -> (s: Store)
        ensures
            s.wf(),
            s.next_id == 0,
            s.players@.len() == 0,
            s.enemies@.len() == 0,
            s.spawners@.len() == 0,
            s.grow_was_down == false,
    {
        Store {
            next_id: 0,
            players: Vec::new(),
            enemies: Vec::new(),
            spawners: Vec::new(),
            grow_was_down: false,
        }
    }

    /// Insert a player record, returning its fresh identity.
    pub fn insert_player(&mut self, position: Vec2, move_speed: i64, size: i64) -> (id: u64)
        requires
            old(self).wf_loose(),
            old(self).next_id < u64::MAX,
            pos_ok(position.x as int),
            pos_ok(position.y as int),
            unit_ok(move_speed as int),
            0 < size <= UNIT_MAX,
        ensures
            final(self).wf_loose(),
            old(self).wf() ==> final(self).wf(),
            id == old(self).next_id,
            final(self).next_id == old(self).next_id + 1,
            final(self).players@ == old(self).players@.push(
                Player { id, position, move_speed, size },
            ),
            final(self).enemies == old(self).enemies,
            final(self).spawners == old(self).spawners,
            final(self).grow_was_down == old(self).grow_was_down,
    {
        let id = self.next_id;
        self.next_id = id + 1;
        self.players.push(Player { id, position, move_speed, size });
        id
    }

    /// Insert an enemy record, returning its fresh identity.
    pub fn insert_enemy(&mut self, position: Vec2, velocity: Vec2, size: i64) -> (id: u64)
        requires
            old(self).wf_loose(),
            old(self).next_id < u64::MAX,
            pos_ok(position.x as int),
            pos_ok(position.y as int),
            vel_ok(velocity.x as int),
            vel_ok(velocity.y as int),
            0 <= size <= UNIT_MAX,
        ensures
            final(self).wf_loose(),
            old(self).wf() ==> final(self).wf(),
            id == old(self).next_id,
            final(self).next_id == old(self).next_id + 1,
            final(self).enemies@ == old(self).enemies@.push(
                Enemy { id, position, velocity, size },
            ),
            final(self).players == old(self).players,
            final(self).spawners == old(self).spawners,
            final(self).grow_was_down == old(self).grow_was_down,
    {
        let id = self.next_id;
        self.next_id = id + 1;
        self.enemies.push(Enemy { id, position, velocity, size });
        id
    }

    /// Insert a spawner record, returning its fresh identity.
    pub fn insert_spawner(&mut self, current_count: u32, max_count: u32) -> (id: u64)
        requires
            old(self).wf_loose(),
            old(self).next_id < u64::MAX,
            max_count < 0xffff_ffffu32,
        ensures
            final(self).wf_loose(),
            old(self).wf() ==> final(self).wf(),
            id == old(self).next_id,
            final(self).next_id == old(self).next_id + 1,
            final(self).spawners@ == old(self).spawners@.push(
                Spawner { id, current_count, max_count },
            ),
            final(self).players == old(self).players,
            final(self).enemies == old(self).enemies,
            final(self).grow_was_down == old(self).grow_was_down,
    {
        let id = self.next_id;
        self.next_id = id + 1;
        self.spawners.push(Spawner { id, current_count, max_count });
        id
    }

    /// Look up the unique player. Exactly one must be live; zero or more
    /// than one is a fatal precondition violation.
    pub fn get_player(&self) -> (r: Result<Player, SimError>)
        ensures
            self.players@.len() == 1 ==> r == Ok::<Player, SimError>(self.players@[0]),
            self.players@.len() != 1 ==> r == Err::<Player, SimError>(
                SimError::PreconditionViolation,
            ),
    {
        if self.players.len() == 1 {
            Ok(self.players[0])
        } else {
            Err(SimError::PreconditionViolation)
        }
    }

    /// Look up the unique spawner, as [`Store::get_player`] does the player.
    pub fn get_spawner(&self) -> (r: Result<Spawner, SimError>)
        ensures
            self.spawners@.len() == 1 ==> r == Ok::<Spawner, SimError>(self.spawners@[0]),
            self.spawners@.len() != 1 ==> r == Err::<Spawner, SimError>(
                SimError::PreconditionViolation,
            ),
    {
        if self.spawners.len() == 1 {
            Ok(self.spawners[0])
        } else {
            Err(SimError::PreconditionViolation)
        }
    }
}

/// Startup: a store holding the player at the origin with its constant
/// movement speed and starting diameter, and a fresh spawner at capacity
/// `SPAWN_CAP`. (Camera and mesh creation at startup belong
/// to the rendering collaborator, outside this core.)
pub fn setup() -> (s: Store)
    ensures
        s.wf(),
        s.players@.len() == 1,
        s.players@[0] == (Player {
            id: 0,
            position: Vec2 { x: 0, y: 0 },
            move_speed: PLAYER_MOVE_SPEED,
            size: PLAYER_START_SIZE,
        }),
        s.spawners@.len() == 1,
        s.spawners@[0] == (Spawner { id: 1, current_count: 0, max_count: SPAWN_CAP }),
        s.enemies@.len() == 0,
        s.next_id == 2,
        s.grow_was_down == false,
{
    let mut s = Store::new();
    s.insert_player(Vec2 { x: 0, y: 0 }, PLAYER_MOVE_SPEED, PLAYER_START_SIZE);
    s.insert_spawner(0, SPAWN_CAP);
    s
}

} // verus!
