//! Confinement system: the player's position is clamped to the arena every
//! frame; an enemy whose bounding box exceeds the arena has the offending
//! velocity component negated. Reflection never repositions the enemy: it
//! may stay outside the arena for a few frames while its flipped velocity
//! carries it back — a deliberate simplification of the design,
//! kept here.

use vstd::prelude::*;
use crate::SimError;
use crate::geom::{Vec2, clamp_axis, clamp_coord, half, UNIT_MAX};
use crate::entities::{Player, Enemy};
use crate::store::Store;

verus! {

/// Lower bound of a center coordinate whose entity (of diameter `size`)
/// must fit in an arena extent `dim`: `-(dim/2) + size/2`.
pub open spec fn axis_min(dim: int, size: int) -> int {
    -(dim / 2) + size / 2
}

/// Upper bound of the same center coordinate: `dim/2 - size/2`.
pub open spec fn axis_max(dim: int, size: int) -> int {
    dim / 2 - size / 2
}

/// A center coordinate whose entity pokes out of the arena on either side.
pub open spec fn outside_axis(pos: int, dim: int, size: int) -> bool {
    pos < axis_min(dim, size) || pos > axis_max(dim, size)
}

/// The player after one confinement pass: each coordinate clamped to the
/// arena with the if/else-if pattern, everything else unchanged.
pub open spec fn clamped_player(p: Player, width: int, height: int) -> Player {
    Player {
        id: p.id,
        position: Vec2 {
            x: clamp_axis(
                p.position.x as int,
                axis_min(width, p.size as int),
                axis_max(width, p.size as int),
            ) as i64,
            y: clamp_axis(
                p.position.y as int,
                axis_min(height, p.size as int),
                axis_max(height, p.size as int),
            ) as i64,
        },
        move_speed: p.move_speed,
        size: p.size,
    }
}

/// The x velocity after one reflection pass: negated exactly when the
/// enemy's box exceeds the arena horizontally.
pub open spec fn reflected_vx(e: Enemy, width: int) -> int {
    if outside_axis(e.position.x as int, width, e.size as int) {
        -(e.velocity.x as int)
    } else {
        e.velocity.x as int
    }
}

/// The y velocity after one reflection pass.
pub open spec fn reflected_vy(e: Enemy, height: int) -> int {
    if outside_axis(e.position.y as int, height, e.size as int) {
        -(e.velocity.y as int)
    } else {
        e.velocity.y as int
    }
}

/// The enemy after one confinement pass: velocity components reflected
/// independently, position untouched.
pub open spec fn reflected_enemy(e: Enemy, width: int, height: int) -> Enemy {
    Enemy {
        id: e.id,
        position: e.position,
        velocity: Vec2 {
            x: reflected_vx(e, width) as i64,
            y: reflected_vy(e, height) as i64,
        },
        size: e.size,
    }
}

/// Clamp one player to the arena.
pub fn clamp_player(p: &mut Player, width: i64, height: i64)
    requires
        0 < width <= UNIT_MAX,
        0 < height <= UNIT_MAX,
        0 < old(p).size <= UNIT_MAX,
        crate::geom::unit_ok(old(p).move_speed as int),
    ensures
        *final(p) == clamped_player(*old(p), width as int, height as int),
        final(p).wf(),
        -UNIT_MAX <= final(p).position.x <= UNIT_MAX,
        -UNIT_MAX <= final(p).position.y <= UNIT_MAX,
{
    let half_size = half(p.size);
    let half_w = half(width);
    let half_h = half(height);
    let x_min = -half_w + half_size;
    let x_max = half_w - half_size;
    let y_min = -half_h + half_size;
    let y_max = half_h - half_size;
    p.position.x = clamp_coord(p.position.x, x_min, x_max);
    p.position.y = clamp_coord(p.position.y, y_min, y_max);
}

/// Reflect one enemy's velocity off the arena boundary.
pub fn reflect_enemy(e: &mut Enemy, width: i64, height: i64)
    requires
        0 < width <= UNIT_MAX,
        0 < height <= UNIT_MAX,
        old(e).wf(),
    ensures
        *final(e) == reflected_enemy(*old(e), width as int, height as int),
        final(e).wf(),
{
    let half_size = half(e.size);
    let half_w = half(width);
    let half_h = half(height);
    let x_min = -half_w + half_size;
    let x_max = half_w - half_size;
    let y_min = -half_h + half_size;
    let y_max = half_h - half_size;
    if e.position.x < x_min || e.position.x > x_max {
        e.velocity.x = -e.velocity.x;
    }
    if e.position.y < y_min || e.position.y > y_max {
        e.velocity.y = -e.velocity.y;
    }
}

/// Confine the unique player to the arena. Fails, leaving the store
/// untouched, when the player singleton is missing or duplicated.
pub fn confine_player(store: &mut Store, width: i64, height: i64) -> (r: Result<(), SimError>)
    requires
        old(store).wf_loose(),
        0 < width <= UNIT_MAX,
        0 < height <= UNIT_MAX,
    ensures
        old(store).players@.len() == 1 ==> final(store).wf(),
        final(store).wf_loose(),
        r is Ok <==> old(store).players@.len() == 1,
        r is Err ==> *final(store) == *old(store) && r == Err::<(), SimError>(
            SimError::PreconditionViolation,
        ),
        old(store).players@.len() == 1 ==> final(store).players@ == old(store).players@.update(
            0,
            clamped_player(old(store).players@[0], width as int, height as int),
        ),
        final(store).enemies == old(store).enemies,
        final(store).spawners == old(store).spawners,
        final(store).next_id == old(store).next_id,
        final(store).grow_was_down == old(store).grow_was_down,
{
    if store.players.len() != 1 {
        return Err(SimError::PreconditionViolation);
    }
    let mut p = store.players[0];
    clamp_player(&mut p, width, height);
    store.players.set(0, p);
    Ok(())
}

/// Reflect every enemy in the store off the arena boundary.
pub fn confine_enemies(store: &mut Store, width: i64, height: i64)
    requires
        old(store).wf(),
        0 < width <= UNIT_MAX,
        0 < height <= UNIT_MAX,
    ensures
        final(store).wf(),
        final(store).enemies@.len() == old(store).enemies@.len(),
        forall|i: int|
            0 <= i < old(store).enemies@.len()
                ==> final(store).enemies@[i] == reflected_enemy(
                    #[trigger] old(store).enemies@[i],
                    width as int,
                    height as int,
                ),
        final(store).players == old(store).players,
        final(store).spawners == old(store).spawners,
        final(store).next_id == old(store).next_id,
        final(store).grow_was_down == old(store).grow_was_down,
{
    let n = store.enemies.len();
    let mut i: usize = 0;
    while i < n
        invariant
            n == store.enemies@.len(),
            n == old(store).enemies@.len(),
            0 <= i <= n,
            0 < width <= UNIT_MAX,
            0 < height <= UNIT_MAX,
            forall|j: int|
                0 <= j < i ==> store.enemies@[j] == reflected_enemy(
                    #[trigger] old(store).enemies@[j],
                    width as int,
                    height as int,
                ),
            forall|j: int| i <= j < n ==> store.enemies@[j] == old(store).enemies@[j],
            old(store).wf(),
            store.wf(),
            store.players == old(store).players,
            store.spawners == old(store).spawners,
            store.next_id == old(store).next_id,
            store.grow_was_down == old(store).grow_was_down,
        decreases n - i,
    {
        let mut e = store.enemies[i];
        reflect_enemy(&mut e, width, height);
        store.enemies.set(i, e);
        i = i + 1;
    }
}

/// Law: clamping a position that is already within the arena bounds is a
/// no-op.
pub proof fn lemma_clamp_in_bounds_noop(v: int, lo: int, hi: int)
    requires
        lo <= v <= hi,
    ensures
        clamp_axis(v, lo, hi) == v,
{
}

/// Law: the clamp is idempotent whenever the bounds are not inverted —
/// clamping twice yields what clamping once does.
pub proof fn lemma_clamp_idempotent(v: int, lo: int, hi: int)
    requires
        lo <= hi,
    ensures
        clamp_axis(clamp_axis(v, lo, hi), lo, hi) == clamp_axis(v, lo, hi),
{
}

/// Law: player confinement is idempotent, and a no-op on an in-bounds
/// player, for every arena in which the player fits (its half-size at most
/// each half-extent; a player larger than the arena has inverted bounds,
/// where the if/else-if clamp alternates between the two bounds instead).
pub proof fn lemma_confine_player_idempotent(p: Player, width: int, height: int)
    requires
        0 < width <= UNIT_MAX,
        0 < height <= UNIT_MAX,
        0 < p.size <= UNIT_MAX,
        p.size as int / 2 <= width / 2,
        p.size as int / 2 <= height / 2,
    ensures
        clamped_player(clamped_player(p, width, height), width, height) == clamped_player(
            p,
            width,
            height,
        ),
        axis_min(width, p.size as int) <= p.position.x as int <= axis_max(width, p.size as int)
            && axis_min(height, p.size as int) <= p.position.y as int <= axis_max(
            height,
            p.size as int,
        ) ==> clamped_player(p, width, height) == p,
{
}

/// Law: reflection is purely reactive to the current position, not
/// hysteretic — a second confinement pass on an unmoved enemy undoes the
/// first, restoring the velocity the enemy began the frame with.
pub proof fn lemma_reflection_reactive(e: Enemy, width: int, height: int)
    requires
        0 < width <= UNIT_MAX,
        0 < height <= UNIT_MAX,
        e.wf(),
    ensures
        reflected_enemy(reflected_enemy(e, width, height), width, height) == e,
{
}

} // verus!
