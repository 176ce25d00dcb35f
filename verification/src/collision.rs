//! Collision system: for each enemy, the player's center is tested
//! strictly inside the box around the enemy's center whose margin is the
//! sum of the two half-diameters (a Minkowski-sum box test, not a
//! circle-circle distance). Tangent boxes — sharing exactly one edge — do
//! not collide. On overlap a collision event is reported; acting on it is
//! outside this core.

use vstd::prelude::*;
use crate::SimError;
use crate::geom::{pos_ok, UNIT_MAX};
use crate::entities::{Player, Enemy, CollisionEvent};
use crate::store::Store;

verus! {

/// The box margin around an enemy's center: half the enemy's diameter
/// plus half the player's diameter (each half rounded toward zero, as the
/// per-entity halves are).
pub open spec fn collision_margin(p: Player, e: Enemy) -> int {
    e.size as int / 2 + p.size as int / 2
}

/// The player's center lies strictly inside the enemy's margin box.
pub open spec fn collides(p: Player, e: Enemy) -> bool {
    let m = collision_margin(p, e);
    &&& e.position.x - m < p.position.x < e.position.x + m
    &&& e.position.y - m < p.position.y < e.position.y + m
}

/// The collision events of one frame, one per overlapping enemy, in store
/// order.
pub open spec fn collision_events(p: Player, enemies: Seq<Enemy>) -> Seq<CollisionEvent>
    decreases enemies.len(),
{
    if enemies.len() == 0 {
        Seq::empty()
    } else {
        let rest = collision_events(p, enemies.drop_last());
        if collides(p, enemies.last()) {
            rest.push(CollisionEvent { enemy_id: enemies.last().id })
        } else {
            rest
        }
    }
}

/// Test one enemy's box against the player's center.
pub fn enemy_hits_player(p: &Player, e: &Enemy) -> (r: bool)
    requires
        pos_ok(p.position.x as int),
        pos_ok(p.position.y as int),
        pos_ok(e.position.x as int),
        pos_ok(e.position.y as int),
        0 < p.size <= UNIT_MAX,
        0 <= e.size <= UNIT_MAX,
    ensures
        r == collides(*p, *e),
{
    let half_e = crate::geom::half(e.size);
    let half_p = crate::geom::half(p.size);
    let x_min = e.position.x - half_e - half_p;
    let x_max = e.position.x + half_e + half_p;
    let y_min = e.position.y - half_e - half_p;
    let y_max = e.position.y + half_e + half_p;
    p.position.x > x_min && p.position.x < x_max && p.position.y > y_min && p.position.y < y_max
}

/// Report every enemy whose box the unique player's center falls strictly
/// inside. Fails when the player singleton is missing or duplicated.
pub fn check_collisions(store: &Store) -> (r: Result<Vec<CollisionEvent>, SimError>)
    requires
        store.wf(),
    ensures
        r is Ok <==> store.players@.len() == 1,
        r is Err ==> r == Err::<Vec<CollisionEvent>, SimError>(SimError::PreconditionViolation),
        store.players@.len() == 1 ==> (r matches Ok(events) && events@ == collision_events(
            store.players@[0],
            store.enemies@,
        )),
{
    if store.players.len() != 1 {
        return Err(SimError::PreconditionViolation);
    }
    let p = store.players[0];
    let n = store.enemies.len();
    let mut events: Vec<CollisionEvent> = Vec::new();
    let mut i: usize = 0;
    while i < n
        invariant
            n == store.enemies@.len(),
            0 <= i <= n,
            store.wf(),
            store.players@.len() == 1,
            p == store.players@[0],
            events@ == collision_events(p, store.enemies@.take(i as int)),
        decreases n - i,
    {
        proof {
            assert(store.enemies@.take(i + 1).drop_last() =~= store.enemies@.take(i as int));
            assert(store.enemies@.take(i + 1).last() == store.enemies@[i as int]);
        }
        let e = store.enemies[i];
        if enemy_hits_player(&p, &e) {
            events.push(CollisionEvent { enemy_id: e.id });
        }
        i = i + 1;
    }
    proof {
        assert(store.enemies@.take(n as int) =~= store.enemies@);
    }
    Ok(events)
}

/// Law: boxes that share exactly one edge — the player's center exactly a
/// margin away on some axis — never register a collision: the test is
/// strict.
pub proof fn lemma_tangent_no_collision(p: Player, e: Enemy)
    requires
        p.position.x - e.position.x == collision_margin(p, e) || e.position.x - p.position.x
            == collision_margin(p, e) || p.position.y - e.position.y == collision_margin(p, e)
            || e.position.y - p.position.y == collision_margin(p, e),
    ensures
        !collides(p, e),
{
}

/// Law: from a horizontal tangent contact with vertical overlap, shifting
/// the player's center toward the enemy by any nonzero amount smaller
/// than the box width registers a collision.
pub proof fn lemma_epsilon_overlap_x(p: Player, e: Enemy, eps: int, p2: Player)
    requires
        pos_ok(p.position.x as int),
        0 <= p.size <= UNIT_MAX,
        0 <= e.size <= UNIT_MAX,
        p.position.x - e.position.x == collision_margin(p, e) && p2.position.x == p.position.x
            - eps || e.position.x - p.position.x == collision_margin(p, e) && p2.position.x
            == p.position.x + eps,
        0 < eps < 2 * collision_margin(p, e),
        e.position.y - collision_margin(p, e) < p.position.y < e.position.y + collision_margin(
            p,
            e,
        ),
        p2.position.y == p.position.y,
        p2.size == p.size,
    ensures
        collides(p2, e),
{
}

/// Law: the vertical counterpart of [`lemma_epsilon_overlap_x`].
pub proof fn lemma_epsilon_overlap_y(p: Player, e: Enemy, eps: int, p2: Player)
    requires
        pos_ok(p.position.y as int),
        0 <= p.size <= UNIT_MAX,
        0 <= e.size <= UNIT_MAX,
        p.position.y - e.position.y == collision_margin(p, e) && p2.position.y == p.position.y
            - eps || e.position.y - p.position.y == collision_margin(p, e) && p2.position.y
            == p.position.y + eps,
        0 < eps < 2 * collision_margin(p, e),
        e.position.x - collision_margin(p, e) < p.position.x < e.position.x + collision_margin(
            p,
            e,
        ),
        p2.position.x == p.position.x,
        p2.size == p.size,
    ensures
        collides(p2, e),
{
}

} // verus!
