//! Motion system: every enemy advances by its velocity once per frame.
//! Enemy velocity is a per-frame displacement, deliberately not scaled by
//! elapsed time (unlike the player's time-scaled movement), so enemy speed
//! is frame-rate-dependent.

use vstd::prelude::*;
use crate::geom::Vec2;
use crate::entities::Enemy;
use crate::store::Store;

verus! {

/// The enemy one motion step later: position advanced by velocity,
/// everything else unchanged.
pub open spec fn moved_enemy(e: Enemy) -> Enemy {
    Enemy {
        id: e.id,
        position: Vec2 {
            x: (e.position.x + e.velocity.x) as i64,
            y: (e.position.y + e.velocity.y) as i64,
        },
        velocity: e.velocity,
        size: e.size,
    }
}

/// Advance one enemy by its velocity.
pub fn move_enemy(e: &mut Enemy)
    requires
        old(e).wf(),
        old(e).step_ok(),
    ensures
        *final(e) == moved_enemy(*old(e)),
        final(e).wf(),
{
    e.position.x = e.position.x + e.velocity.x;
    e.position.y = e.position.y + e.velocity.y;
}

/// Advance every enemy in the store by its velocity.
pub fn move_enemies(store: &mut Store)
    requires
        old(store).wf(),
        forall|i: int|
            0 <= i < old(store).enemies@.len() ==> (#[trigger] old(store).enemies@[i]).step_ok(),
    ensures
        final(store).wf(),
        final(store).enemies@.len() == old(store).enemies@.len(),
        forall|i: int|
            0 <= i < old(store).enemies@.len()
                ==> final(store).enemies@[i] == moved_enemy(#[trigger] old(store).enemies@[i]),
        final(store).players == old(store).players,
        final(store).spawners == old(store).spawners,
        final(store).next_id == old(store).next_id,
        final(store).grow_was_down == old(store).grow_was_down,
{
    let n = store.enemies.len();
    let mut i: usize = 0;
    while i < n
        invariant
            n == store.enemies@.len(),
            n == old(store).enemies@.len(),
            0 <= i <= n,
            forall|j: int|
                0 <= j < i ==> store.enemies@[j] == moved_enemy(#[trigger] old(store).enemies@[j]),
            forall|j: int| i <= j < n ==> store.enemies@[j] == old(store).enemies@[j],
            forall|j: int|
                0 <= j < old(store).enemies@.len()
                    ==> (#[trigger] old(store).enemies@[j]).step_ok(),
            old(store).wf(),
            store.wf(),
            store.players == old(store).players,
            store.spawners == old(store).spawners,
            store.next_id == old(store).next_id,
            store.grow_was_down == old(store).grow_was_down,
        decreases n - i,
    {
        let mut e = store.enemies[i];
        move_enemy(&mut e);
        store.enemies.set(i, e);
        i = i + 1;
    }
}

} // verus!
