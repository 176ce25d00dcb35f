//! Spawner system: while the spawner's count has not passed its capacity,
//! create one enemy per step with randomized position, size, color and
//! velocity, incrementing the count each time. The loop bound is
//! inclusive (`current_count <= max_count`), so a fresh spawner of
//! capacity `max_count` emits exactly `max_count + 1` enemies — the
//! chosen contract. Once the cap is passed the system is a no-op, so
//! running it every frame is safe.

use vstd::prelude::*;
use rand::Rng;
use crate::SimError;
use crate::geom::{Vec2, UNIT_MAX};
use crate::entities::{
    Enemy,
    Color,
    Spawner,
    ENEMY_SIZE_RANGE,
    ENEMY_SPEED_RANGE,
    COLOR_CHANNEL_RANGE,
};
use crate::store::Store;

verus! {

/// Relies on rand::Rng::gen_range on a half-open i64 range: it returns a
/// uniformly drawn value of the range, and panics only on an empty range,
/// which the precondition rules out. Nothing is assumed beyond membership:
/// two calls with the same arguments may differ.
#[verifier::external_body]
fn rand_range(lo: i64, hi: i64) -> (r: i64)
    requires
        lo < hi,
    ensures
        lo <= r < hi,
{
    rand::thread_rng().gen_range(lo..hi)
}

/// A freshly spawned enemy's randomized attributes, each within its
/// documented range for the given arena: position within the half-open
/// arena extents, diameter in `[0, 20)`, velocity components in `[0, 10)`
/// — both nonnegative at spawn time; reflection alone introduces negative
/// velocity.
pub open spec fn spawned_in_ranges(e: Enemy, width: int, height: int) -> bool {
    &&& -(width / 2) <= e.position.x < width / 2
    &&& -(height / 2) <= e.position.y < height / 2
    &&& 0 <= e.size < ENEMY_SIZE_RANGE
    &&& 0 <= e.velocity.x < ENEMY_SPEED_RANGE
    &&& 0 <= e.velocity.y < ENEMY_SPEED_RANGE
}

/// Fill the store with enemies up to one past the spawner's capacity,
/// each with randomized attributes, returning the spawned colors for the
/// rendering collaborator. From a fresh spawner (count zero) exactly
/// `max_count + 1` enemies are created; at quiescence the call is a
/// no-op. Fails, leaving the store untouched, when the spawner singleton
/// is missing or duplicated.
pub fn spawn_enemies(store: &mut Store, width: i64, height: i64) -> (r: Result<Vec<Color>, SimError>)
    requires
        old(store).wf_loose(),
        2 <= width <= UNIT_MAX,
        2 <= height <= UNIT_MAX,
        old(store).next_id <= u64::MAX - 0x1_0000_0000u64,
    ensures
        final(store).wf_loose(),
        r is Ok <==> old(store).spawners@.len() == 1,
        r is Err ==> *final(store) == *old(store) && r == Err::<Vec<Color>, SimError>(
            SimError::PreconditionViolation,
        ),
        old(store).spawners@.len() == 1 ==> ({
            let sp = old(store).spawners@[0];
            let created = if sp.current_count <= sp.max_count {
                sp.max_count + 1 - sp.current_count
            } else {
                0
            };
            &&& final(store).spawners@ =~= old(store).spawners@.update(
                0,
                Spawner {
                    id: sp.id,
                    current_count: if sp.current_count <= sp.max_count {
                        (sp.max_count + 1) as u32
                    } else {
                        sp.current_count
                    },
                    max_count: sp.max_count,
                },
            )
            &&& final(store).enemies@.len() == old(store).enemies@.len() + created
            &&& forall|i: int|
                0 <= i < old(store).enemies@.len() ==> final(store).enemies@[i] == old(
                    store,
                ).enemies@[i]
            &&& forall|i: int|
                old(store).enemies@.len() <= i < final(store).enemies@.len() ==> {
                    &&& spawned_in_ranges(
                        #[trigger] final(store).enemies@[i],
                        width as int,
                        height as int,
                    )
                    &&& final(store).enemies@[i].id == old(store).next_id + (i - old(
                        store,
                    ).enemies@.len())
                }
            &&& final(store).next_id == old(store).next_id + created
            &&& (r matches Ok(colors) && colors@.len() == created && forall|i: int|
                0 <= i < colors@.len() ==> (#[trigger] colors@[i]).in_spawn_range())
        }),
        final(store).players == old(store).players,
        final(store).grow_was_down == old(store).grow_was_down,
{
    if store.spawners.len() != 1 {
        return Err(SimError::PreconditionViolation);
    }
    let ghost old_store = *store;
    let sp = store.spawners[0];
    let mut current: u32 = sp.current_count;
    let max: u32 = sp.max_count;
    let mut colors: Vec<Color> = Vec::new();
    let half_w = crate::geom::half(width);
    let half_h = crate::geom::half(height);
    while current <= max
        invariant
            store.wf_loose(),
            old_store.wf_loose(),
            store.spawners@.len() == 1,
            store.spawners@ == old_store.spawners@,
            sp == old_store.spawners@[0],
            max == sp.max_count,
            max < 0xffff_ffffu32,
            sp.current_count <= current,
            current <= max + 1 || current == sp.current_count,
            sp.current_count > max ==> current == sp.current_count,
            2 <= width <= UNIT_MAX,
            2 <= height <= UNIT_MAX,
            half_w == width as int / 2,
            half_h == height as int / 2,
            old_store.next_id <= u64::MAX - 0x1_0000_0000u64,
            store.next_id == old_store.next_id + (current - sp.current_count),
            store.enemies@.len() == old_store.enemies@.len() + (current - sp.current_count),
            forall|i: int|
                0 <= i < old_store.enemies@.len() ==> store.enemies@[i] == old_store.enemies@[i],
            forall|i: int|
                old_store.enemies@.len() <= i < store.enemies@.len() ==> {
                    &&& spawned_in_ranges(
                        #[trigger] store.enemies@[i],
                        width as int,
                        height as int,
                    )
                    &&& store.enemies@[i].id == old_store.next_id + (i
                        - old_store.enemies@.len())
                }
            ,
            colors@.len() == current - sp.current_count,
            forall|i: int| 0 <= i < colors@.len() ==> (#[trigger] colors@[i]).in_spawn_range(),
            store.players == old_store.players,
            store.grow_was_down == old_store.grow_was_down,
        decreases max + 1 - current,
    {
        let x = rand_range(-half_w, half_w);
        let y = rand_range(-half_h, half_h);
        let size = rand_range(0, ENEMY_SIZE_RANGE);
        let red = rand_range(0, COLOR_CHANNEL_RANGE);
        let green = rand_range(0, COLOR_CHANNEL_RANGE);
        let blue = rand_range(0, COLOR_CHANNEL_RANGE);
        let vx = rand_range(0, ENEMY_SPEED_RANGE);
        let vy = rand_range(0, ENEMY_SPEED_RANGE);
        store.insert_enemy(Vec2 { x, y }, Vec2 { x: vx, y: vy }, size);
        colors.push(Color { r: red, g: green, b: blue });
        current = current + 1;
    }
    let mut sp_new = sp;
    sp_new.current_count = current;
    store.spawners.set(0, sp_new);
    Ok(colors)
}

} // verus!
