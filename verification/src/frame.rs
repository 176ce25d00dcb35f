//! One frame of the simulation, in the fixed system order: input/growth on
//! the player, confinement of the player, the spawner, motion of the
//! enemies, confinement of the enemies, and the collision check. A frame
//! aborts up front, changing nothing, when a singleton (player, spawner)
//! is missing or duplicated.

use vstd::prelude::*;
use crate::SimError;
use crate::geom::{DELTA_MAX_MS, POS_MAX, UNIT_MAX};
use crate::entities::{Player, Enemy, Spawner, Color, CollisionEvent, InputFrame};
use crate::store::Store;
use crate::growth::{moved_player, grow_step, get_player_input, update_player_size};
use crate::confine::{clamped_player, reflected_enemy, confine_player, confine_enemies};
use crate::motion::{moved_enemy, move_enemies};
use crate::spawn::{spawned_in_ranges, spawn_enemies};
use crate::collision::{collision_events, check_collisions};

verus! {

/// What one frame hands outward: the collision notifications for the
/// diagnostic sink, and the colors of the enemies spawned this frame for
/// the rendering collaborator.
pub struct TickOutput {
    pub collisions: Vec<CollisionEvent>,
    pub colors: Vec<Color>,
}

/// The frame inputs a tick demands beyond store well-formedness: arena
/// extents and elapsed time in range, headroom on the identity counter,
/// every enemy's next step representable, and room to double the player
/// on a growth edge.
pub open spec fn tick_inputs_ok(
    store: Store,
    width: int,
    height: int,
    input: InputFrame,
    delta_ms: int,
) -> bool {
    &&& 2 <= width <= UNIT_MAX
    &&& 2 <= height <= UNIT_MAX
    &&& 0 <= delta_ms <= DELTA_MAX_MS
    &&& store.next_id <= u64::MAX - 0x1_0000_0000u64
    &&& forall|i: int|
        0 <= i < store.enemies@.len() ==> (#[trigger] store.enemies@[i]).step_ok()
    &&& (store.players@.len() == 1 && input.grow && !store.grow_was_down ==> 2
        * store.players@[0].size <= UNIT_MAX)
}

/// The player at frame end: displaced by the held keys, doubled on a
/// growth edge, then clamped to the arena.
pub open spec fn tick_player(
    p: Player,
    grow_was_down: bool,
    input: InputFrame,
    delta_ms: int,
    width: int,
    height: int,
) -> Player {
    let p1 = moved_player(p, input, delta_ms);
    let p2 = Player {
        id: p1.id,
        position: p1.position,
        move_speed: p1.move_speed,
        size: grow_step(p1.size as int, grow_was_down, input.grow) as i64,
    };
    clamped_player(p2, width, height)
}

/// How a frame's enemies at its end relate to those at its start: the
/// enemies of the start, followed by the freshly spawned ones (each
/// within the spawn ranges, with consecutive fresh identities), every one
/// advanced one motion step and then reflected.
pub open spec fn tick_enemies_match(
    before: Seq<Enemy>,
    spawned: Seq<Enemy>,
    after: Seq<Enemy>,
    first_id: int,
    width: int,
    height: int,
) -> bool {
    &&& after.len() == before.len() + spawned.len()
    &&& forall|i: int|
        0 <= i < spawned.len() ==> spawned_in_ranges(#[trigger] spawned[i], width, height)
            && spawned[i].id == first_id + i
    &&& forall|i: int|
        0 <= i < before.len() ==> after[i] == reflected_enemy(
            moved_enemy(#[trigger] before[i]),
            width,
            height,
        )
    &&& forall|i: int|
        before.len() <= i < after.len() ==> #[trigger] after[i] == reflected_enemy(
            moved_enemy(spawned[i - before.len()]),
            width,
            height,
        )
}

/// How many enemies one spawner pass creates.
pub open spec fn spawn_count(sp: Spawner) -> int {
    if sp.current_count <= sp.max_count {
        sp.max_count + 1 - sp.current_count
    } else {
        0
    }
}

/// Run one frame. On success the returned events and colors, and the
/// ensured relations, pin the whole frame down up to the randomness of
/// the spawned attributes.
pub fn tick(
    store: &mut Store,
    width: i64,
    height: i64,
    input: InputFrame,
    delta_ms: i64,
) -> (r: Result<TickOutput, SimError>)
    requires
        old(store).wf(),
        tick_inputs_ok(*old(store), width as int, height as int, input, delta_ms as int),
    ensures
        final(store).wf(),
        r is Ok <==> old(store).players@.len() == 1 && old(store).spawners@.len() == 1,
        r is Err ==> *final(store) == *old(store) && r == Err::<TickOutput, SimError>(
            SimError::PreconditionViolation,
        ),
        old(store).players@.len() == 1 && old(store).spawners@.len() == 1 ==> ({
            let sp = old(store).spawners@[0];
            let created = spawn_count(sp);
            &&& final(store).players@.len() == 1
            &&& final(store).players@[0] == tick_player(
                old(store).players@[0],
                old(store).grow_was_down,
                input,
                delta_ms as int,
                width as int,
                height as int,
            )
            &&& final(store).grow_was_down == input.grow
            &&& final(store).spawners@.len() == 1
            &&& final(store).spawners@[0] == (Spawner {
                id: sp.id,
                current_count: if sp.current_count <= sp.max_count {
                    (sp.max_count + 1) as u32
                } else {
                    sp.current_count
                },
                max_count: sp.max_count,
            })
            &&& final(store).next_id == old(store).next_id + created
            &&& final(store).enemies@.len() == old(store).enemies@.len() + created
            &&& exists|spawned: Seq<Enemy>|
                tick_enemies_match(
                    old(store).enemies@,
                    spawned,
                    final(store).enemies@,
                    old(store).next_id as int,
                    width as int,
                    height as int,
                )
            &&& (r matches Ok(out) && out.collisions@ == collision_events(
                final(store).players@[0],
                final(store).enemies@,
            ) && out.colors@.len() == created && forall|i: int|
                0 <= i < out.colors@.len() ==> (#[trigger] out.colors@[i]).in_spawn_range())
        }),
{
    if store.players.len() != 1 || store.spawners.len() != 1 {
        return Err(SimError::PreconditionViolation);
    }
    let r1 = get_player_input(store, input, delta_ms);
    if r1.is_err() {
        return Err(SimError::PreconditionViolation);
    }
    let r2 = update_player_size(store, input);
    if r2.is_err() {
        return Err(SimError::PreconditionViolation);
    }
    let r3 = confine_player(store, width, height);
    if r3.is_err() {
        return Err(SimError::PreconditionViolation);
    }
    let ghost pre_spawn = *store;
    let colors = match spawn_enemies(store, width, height) {
        Ok(colors) => colors,
        Err(_) => {
            return Err(SimError::PreconditionViolation);
        },
    };
    let ghost snap = store.enemies@;
    let ghost old_len = old(store).enemies@.len() as int;
    proof {
        assert(store.wf()) by {
            assert(forall|i: int|
                0 <= i < store.players@.len() ==> (#[trigger] store.players@[i]).wf());
        }
        assert forall|i: int| 0 <= i < snap.len() implies (#[trigger] snap[i]).step_ok() by {
            if i < old_len {
                assert(snap[i] == old(store).enemies@[i]);
            } else {
                assert(spawned_in_ranges(snap[i], width as int, height as int));
            }
        }
    }
    move_enemies(store);
    confine_enemies(store, width, height);
    let events = match check_collisions(store) {
        Ok(events) => events,
        Err(_) => {
            return Err(SimError::PreconditionViolation);
        },
    };
    proof {
        let spawned = snap.skip(old_len);
        assert forall|i: int| 0 <= i < spawned.len() implies spawned_in_ranges(
            #[trigger] spawned[i],
            width as int,
            height as int,
        ) && spawned[i].id == old(store).next_id + i by {
            assert(spawned[i] == snap[old_len + i]);
        }
        assert forall|i: int| old_len <= i < store.enemies@.len() implies #[trigger] store
            .enemies@[i] == reflected_enemy(
            moved_enemy(spawned[i - old_len]),
            width as int,
            height as int,
        ) by {
            assert(spawned[i - old_len] == snap[i]);
        }
        assert(tick_enemies_match(
            old(store).enemies@,
            spawned,
            store.enemies@,
            old(store).next_id as int,
            width as int,
            height as int,
        ));
    }
    Ok(TickOutput { collisions: events, colors })
}

/// Whether a frame's inputs meet [`tick`]'s demands — the runtime test an
/// unverified host performs before each frame.
pub fn tick_ready(
    store: &Store,
    width: i64,
    height: i64,
    input: InputFrame,
    delta_ms: i64,
) -> (r: bool)
    ensures
        r == tick_inputs_ok(*store, width as int, height as int, input, delta_ms as int),
{
    if !(width >= 2 && width <= UNIT_MAX && height >= 2 && height <= UNIT_MAX) {
        return false;
    }
    if !(delta_ms >= 0 && delta_ms <= DELTA_MAX_MS) {
        return false;
    }
    if !(store.next_id <= u64::MAX - 0x1_0000_0000u64) {
        return false;
    }
    let n = store.enemies.len();
    let mut i: usize = 0;
    while i < n
        invariant
            n == store.enemies@.len(),
            0 <= i <= n,
            forall|j: int| 0 <= j < i ==> (#[trigger] store.enemies@[j]).step_ok(),
        decreases n - i,
    {
        let e = &store.enemies[i];
        let sx = match e.position.x.checked_add(e.velocity.x) {
            Some(sx) => sx,
            None => {
                return false;
            },
        };
        let sy = match e.position.y.checked_add(e.velocity.y) {
            Some(sy) => sy,
            None => {
                return false;
            },
        };
        if !(-POS_MAX <= sx && sx <= POS_MAX && -POS_MAX <= sy && sy <= POS_MAX) {
            return false;
        }
        i = i + 1;
    }
    if store.players.len() == 1 && input.grow && !store.grow_was_down {
        if !(store.players[0].size <= UNIT_MAX / 2) {
            return false;
        }
    }
    true
}

} // verus!
