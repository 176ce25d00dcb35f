//! Input/Growth system: held directional keys displace the player by
//! `move_speed * delta_ms / 1000` per axis, independently (diagonal input
//! moves on both axes at once, faster than along one axis — deliberately
//! unnormalized). A rising edge of the growth key doubles the player's
//! diameter; holding the key re-triggers nothing.

use vstd::prelude::*;
use crate::SimError;
use crate::geom::{Vec2, DELTA_MAX_MS, POS_MAX, STEP_MAX, UNIT_MAX};
use crate::entities::{Player, InputFrame};
use crate::store::Store;

verus! {

/// Displacement of one held directional key over one frame:
/// `speed * delta_ms / 1000`, in world units (flooring division).
pub open spec fn move_step(speed: int, delta_ms: int) -> int {
    speed * delta_ms / 1000
}

/// The player after one movement pass: each axis displaced by the step for
/// each held key of that axis, opposite keys cancelling.
pub open spec fn moved_player(p: Player, input: InputFrame, delta_ms: int) -> Player {
    let step = move_step(p.move_speed as int, delta_ms);
    Player {
        id: p.id,
        position: Vec2 {
            x: (p.position.x + (if input.right {
                step
            } else {
                0
            }) - (if input.left {
                step
            } else {
                0
            })) as i64,
            y: (p.position.y + (if input.up {
                step
            } else {
                0
            }) - (if input.down {
                step
            } else {
                0
            })) as i64,
        },
        move_speed: p.move_speed,
        size: p.size,
    }
}

/// The diameter after one frame of the growth key: doubled exactly on a
/// rising edge (down now, up the frame before), unchanged otherwise.
pub open spec fn grow_step(size: int, was_down: bool, down: bool) -> int {
    if down && !was_down {
        2 * size
    } else {
        size
    }
}

/// The diameter after a whole run of frames of growth-key levels,
/// starting from `was_down` as the level before the first frame.
pub open spec fn size_after_frames(size: int, was_down: bool, downs: Seq<bool>) -> int
    decreases downs.len(),
{
    if downs.len() == 0 {
        size
    } else {
        size_after_frames(grow_step(size, was_down, downs[0]), downs[0], downs.skip(1))
    }
}

/// How many rising edges a run of growth-key levels contains.
pub open spec fn rising_edges(was_down: bool, downs: Seq<bool>) -> nat
    decreases downs.len(),
{
    if downs.len() == 0 {
        0
    } else {
        (if downs[0] && !was_down {
            1nat
        } else {
            0nat
        }) + rising_edges(downs[0], downs.skip(1))
    }
}

/// Two to the power `n`.
pub open spec fn pow2(n: nat) -> int
    decreases n,
{
    if n == 0 {
        1
    } else {
        2 * pow2((n - 1) as nat)
    }
}

/// Move one player according to the held keys and the elapsed time.
pub fn move_player(p: &mut Player, input: InputFrame, delta_ms: i64)
    requires
        old(p).wf(),
        0 <= delta_ms <= DELTA_MAX_MS,
    ensures
        *final(p) == moved_player(*old(p), input, delta_ms as int),
        -(POS_MAX + STEP_MAX) <= final(p).position.x <= POS_MAX + STEP_MAX,
        -(POS_MAX + STEP_MAX) <= final(p).position.y <= POS_MAX + STEP_MAX,
{
    assert((p.move_speed as int) * (delta_ms as int) <= 10_000_000_000_000) by (nonlinear_arith)
        requires
            0 <= p.move_speed <= 1_000_000,
            0 <= delta_ms <= 10_000_000,
    ;
    let step_wide: u64 = (p.move_speed as u64) * (delta_ms as u64) / 1000;
    let step: i64 = step_wide as i64;
    assert(step == move_step(p.move_speed as int, delta_ms as int));
    assert(0 <= step <= STEP_MAX);
    if input.up {
        p.position.y = p.position.y + step;
    }
    if input.down {
        p.position.y = p.position.y - step;
    }
    if input.left {
        p.position.x = p.position.x - step;
    }
    if input.right {
        p.position.x = p.position.x + step;
    }
}

/// Double one player's diameter on a rising edge of the growth key.
pub fn grow_player(p: &mut Player, was_down: bool, down: bool)
    requires
        old(p).attrs_ok(),
        down && !was_down ==> 2 * old(p).size <= UNIT_MAX,
    ensures
        final(p).size == grow_step(old(p).size as int, was_down, down),
        final(p).id == old(p).id,
        final(p).position == old(p).position,
        final(p).move_speed == old(p).move_speed,
        final(p).attrs_ok(),
{
    if down && !was_down {
        p.size = 2 * p.size;
    }
}

/// Move the unique player according to the held keys and the elapsed
/// time. Fails, leaving the store untouched, when the player singleton is
/// missing or duplicated.
pub fn get_player_input(store: &mut Store, input: InputFrame, delta_ms: i64) -> (r: Result<
    (),
    SimError,
>)
    requires
        old(store).wf(),
        0 <= delta_ms <= DELTA_MAX_MS,
    ensures
        r is Ok <==> old(store).players@.len() == 1,
        r is Err ==> *final(store) == *old(store) && r == Err::<(), SimError>(
            SimError::PreconditionViolation,
        ),
        old(store).players@.len() == 1 ==> final(store).players@ == old(store).players@.update(
            0,
            moved_player(old(store).players@[0], input, delta_ms as int),
        ),
        final(store).enemies == old(store).enemies,
        final(store).spawners == old(store).spawners,
        final(store).next_id == old(store).next_id,
        final(store).grow_was_down == old(store).grow_was_down,
        final(store).wf_loose(),
        old(store).players@.len() == 1 ==> {
            &&& -(POS_MAX + STEP_MAX) <= final(store).players@[0].position.x <= POS_MAX + STEP_MAX
            &&& -(POS_MAX + STEP_MAX) <= final(store).players@[0].position.y <= POS_MAX + STEP_MAX
        },
{
    if store.players.len() != 1 {
        return Err(SimError::PreconditionViolation);
    }
    let mut p = store.players[0];
    move_player(&mut p, input, delta_ms);
    store.players.set(0, p);
    Ok(())
}

/// Double the unique player's diameter on a rising edge of the growth
/// key, and remember the key's level for the next frame's edge detection.
/// Fails, leaving the store untouched, when the player singleton is
/// missing or duplicated.
pub fn update_player_size(store: &mut Store, input: InputFrame) -> (r: Result<(), SimError>)
    requires
        old(store).wf_loose(),
        old(store).players@.len() == 1 && input.grow && !old(store).grow_was_down
            ==> 2 * old(store).players@[0].size <= UNIT_MAX,
    ensures
        final(store).wf_loose(),
        r is Ok <==> old(store).players@.len() == 1,
        r is Err ==> *final(store) == *old(store) && r == Err::<(), SimError>(
            SimError::PreconditionViolation,
        ),
        old(store).players@.len() == 1 ==> {
            &&& final(store).players@.len() == 1
            &&& final(store).players@[0].size == grow_step(
                old(store).players@[0].size as int,
                old(store).grow_was_down,
                input.grow,
            )
            &&& final(store).players@[0].id == old(store).players@[0].id
            &&& final(store).players@[0].position == old(store).players@[0].position
            &&& final(store).players@[0].move_speed == old(store).players@[0].move_speed
            &&& final(store).grow_was_down == input.grow
        },
        final(store).enemies == old(store).enemies,
        final(store).spawners == old(store).spawners,
        final(store).next_id == old(store).next_id,
{
    if store.players.len() != 1 {
        return Err(SimError::PreconditionViolation);
    }
    let was_down = store.grow_was_down;
    let mut p = store.players[0];
    grow_player(&mut p, was_down, input.grow);
    store.players.set(0, p);
    store.grow_was_down = input.grow;
    Ok(())
}

/// Law: growth is exactly exponential in the number of rising edges —
/// after any run of growth-key frames the diameter is the initial diameter
/// times two to the number of edge-triggers; frames where the key is
/// merely held contribute nothing.
pub proof fn lemma_growth_monotonic(size: int, was_down: bool, downs: Seq<bool>)
    ensures
        size_after_frames(size, was_down, downs) == size * pow2(rising_edges(was_down, downs)),
    decreases downs.len(),
{
    if downs.len() == 0 {
    } else {
        let size1 = grow_step(size, was_down, downs[0]);
        let rest = rising_edges(downs[0], downs.skip(1));
        lemma_growth_monotonic(size1, downs[0], downs.skip(1));
        assert(size_after_frames(size, was_down, downs) == size1 * pow2(rest));
        if downs[0] && !was_down {
            assert(rising_edges(was_down, downs) == 1 + rest);
            assert(pow2((1 + rest) as nat) == 2 * pow2(rest));
            assert((2 * size) * pow2(rest) == size * (2 * pow2(rest))) by (nonlinear_arith);
        } else {
            assert(rising_edges(was_down, downs) == rest);
        }
    }
}

/// Law: a growth key that stays held, having been down before the run
/// began, never re-triggers growth.
pub proof fn lemma_held_key_no_growth(size: int, downs: Seq<bool>)
    requires
        forall|i: int| 0 <= i < downs.len() ==> downs[i],
    ensures
        size_after_frames(size, true, downs) == size,
    decreases downs.len(),
{
    if downs.len() == 0 {
    } else {
        assert(downs[0]);
        assert forall|i: int| 0 <= i < downs.skip(1).len() implies downs.skip(1)[i] by {
            assert(downs.skip(1)[i] == downs[i + 1]);
        }
        lemma_held_key_no_growth(size, downs.skip(1));
    }
}

} // verus!
