use arena_sim::SimError;
use arena_sim::entities::InputFrame;
use arena_sim::geom::Vec2;
use arena_sim::store::{setup, Store};
use arena_sim::growth::{get_player_input, update_player_size};
use arena_sim::confine::{confine_enemies, confine_player};
use arena_sim::motion::move_enemies;
use arena_sim::spawn::spawn_enemies;
use arena_sim::collision::check_collisions;
use arena_sim::frame::{tick, tick_ready};

#[test]
fn setup_initial_values() {
    let s = setup();
    let p = s.get_player().unwrap();
    assert_eq!(p.position, Vec2 { x: 0, y: 0 });
    assert_eq!(p.move_speed, 200);
    assert_eq!(p.size, 2);
    let sp = s.get_spawner().unwrap();
    assert_eq!(sp.current_count, 0);
    assert_eq!(sp.max_count, 10);
    assert_eq!(s.enemies.len(), 0);
}

#[test]
fn spawner_cap_is_eleven() {
    // Inclusive loop bound: a fresh spawner of capacity 10 emits 11 enemies.
    let mut s = setup();
    let colors = spawn_enemies(&mut s, 800, 600).unwrap();
    assert_eq!(s.enemies.len(), 11);
    assert_eq!(colors.len(), 11);
    assert_eq!(s.get_spawner().unwrap().current_count, 11);
    // At quiescence the system is a no-op, so a second run spawns nothing.
    let colors2 = spawn_enemies(&mut s, 800, 600).unwrap();
    assert_eq!(s.enemies.len(), 11);
    assert_eq!(colors2.len(), 0);
    assert_eq!(s.get_spawner().unwrap().current_count, 11);
}

#[test]
fn spawned_attributes_in_ranges() {
    let mut s = setup();
    let colors = spawn_enemies(&mut s, 2, 2).unwrap();
    for e in &s.enemies {
        assert!(-1 <= e.position.x && e.position.x < 1);
        assert!(-1 <= e.position.y && e.position.y < 1);
        assert!(0 <= e.size && e.size < 20);
        assert!(0 <= e.velocity.x && e.velocity.x < 10);
        assert!(0 <= e.velocity.y && e.velocity.y < 10);
    }
    for c in &colors {
        assert!(0 <= c.r && c.r < 2000);
        assert!(0 <= c.g && c.g < 2000);
        assert!(0 <= c.b && c.b < 2000);
    }
}

#[test]
fn spawned_identities_are_fresh() {
    let mut s = setup();
    spawn_enemies(&mut s, 800, 600).unwrap();
    let player_id = s.get_player().unwrap().id;
    let spawner_id = s.get_spawner().unwrap().id;
    for (i, e) in s.enemies.iter().enumerate() {
        assert_ne!(e.id, player_id);
        assert_ne!(e.id, spawner_id);
        for e2 in &s.enemies[i + 1..] {
            assert_ne!(e.id, e2.id);
        }
    }
}

#[test]
fn spawn_without_spawner_fails() {
    let mut s = Store::new();
    assert_eq!(spawn_enemies(&mut s, 800, 600), Err(SimError::PreconditionViolation));
}

#[test]
fn player_movement_step() {
    // One held key displaces by move_speed * delta_ms / 1000 = 200*16/1000 = 3.
    let mut s = setup();
    let input = InputFrame { right: true, ..InputFrame::released() };
    get_player_input(&mut s, input, 16).unwrap();
    assert_eq!(s.get_player().unwrap().position, Vec2 { x: 3, y: 0 });
}

#[test]
fn diagonal_moves_both_axes() {
    let mut s = setup();
    let input = InputFrame { up: true, right: true, ..InputFrame::released() };
    get_player_input(&mut s, input, 16).unwrap();
    assert_eq!(s.get_player().unwrap().position, Vec2 { x: 3, y: 3 });
}

#[test]
fn opposite_keys_cancel() {
    let mut s = setup();
    let input = InputFrame { left: true, right: true, up: true, down: true, ..InputFrame::released() };
    get_player_input(&mut s, input, 16).unwrap();
    assert_eq!(s.get_player().unwrap().position, Vec2 { x: 0, y: 0 });
}

#[test]
fn clamp_in_bounds_is_noop() {
    let mut s = setup();
    s.players[0].position = Vec2 { x: 7, y: -8 };
    confine_player(&mut s, 800, 600).unwrap();
    assert_eq!(s.get_player().unwrap().position, Vec2 { x: 7, y: -8 });
}

#[test]
fn clamp_is_idempotent() {
    // Out of bounds on both axes for a size-2 player in an 800x600 arena:
    // x clamps to 400-1 = 399, y clamps to -(300)+1 = -299.
    let mut s = setup();
    s.players[0].position = Vec2 { x: 500, y: -400 };
    confine_player(&mut s, 800, 600).unwrap();
    assert_eq!(s.get_player().unwrap().position, Vec2 { x: 399, y: -299 });
    confine_player(&mut s, 800, 600).unwrap();
    assert_eq!(s.get_player().unwrap().position, Vec2 { x: 399, y: -299 });
}

#[test]
fn growth_doubles_on_edge_only() {
    let mut s = setup();
    let held = InputFrame { grow: true, ..InputFrame::released() };
    let released = InputFrame::released();
    update_player_size(&mut s, held).unwrap();
    assert_eq!(s.get_player().unwrap().size, 4);
    // Held, not newly pressed: no re-trigger.
    update_player_size(&mut s, held).unwrap();
    assert_eq!(s.get_player().unwrap().size, 4);
    update_player_size(&mut s, held).unwrap();
    assert_eq!(s.get_player().unwrap().size, 4);
    // Release, then press again: a second edge.
    update_player_size(&mut s, released).unwrap();
    assert_eq!(s.get_player().unwrap().size, 4);
    update_player_size(&mut s, held).unwrap();
    assert_eq!(s.get_player().unwrap().size, 8);
}

#[test]
fn reflection_flips_and_flips_back() {
    let mut s = setup();
    // x_max for a size-20 enemy in an 800-wide arena is 400-10 = 390.
    s.insert_enemy(Vec2 { x: 395, y: 0 }, Vec2 { x: 5, y: 3 }, 20);
    confine_enemies(&mut s, 800, 600);
    assert_eq!(s.enemies[0].velocity, Vec2 { x: -5, y: 3 });
    // Position unchanged and still out of bounds: purely reactive, flips again.
    assert_eq!(s.enemies[0].position, Vec2 { x: 395, y: 0 });
    confine_enemies(&mut s, 800, 600);
    assert_eq!(s.enemies[0].velocity, Vec2 { x: 5, y: 3 });
}

#[test]
fn degenerate_point_enemy_inside_never_reflects() {
    let mut s = setup();
    s.insert_enemy(Vec2 { x: 400, y: 0 }, Vec2 { x: 1, y: 1 }, 0);
    confine_enemies(&mut s, 800, 600);
    // A size-0 enemy exactly on the bound is a single-point comparison: not outside.
    assert_eq!(s.enemies[0].velocity, Vec2 { x: 1, y: 1 });
}

#[test]
fn tangent_boxes_do_not_collide() {
    // Margin is 20/2 + 2/2 = 11; the player at x = 395-11 = 384 shares one edge.
    let mut s = setup();
    s.insert_enemy(Vec2 { x: 395, y: 0 }, Vec2 { x: 0, y: 0 }, 20);
    s.players[0].position = Vec2 { x: 384, y: 0 };
    let events = check_collisions(&s).unwrap();
    assert!(events.is_empty());
}

#[test]
fn epsilon_inside_collides() {
    let mut s = setup();
    s.insert_enemy(Vec2 { x: 395, y: 0 }, Vec2 { x: 0, y: 0 }, 20);
    s.players[0].position = Vec2 { x: 385, y: 0 };
    let events = check_collisions(&s).unwrap();
    assert_eq!(events.len(), 1);
    assert_eq!(events[0].enemy_id, s.enemies[0].id);
}

#[test]
fn collision_events_in_store_order() {
    let mut s = setup();
    let id_a = s.insert_enemy(Vec2 { x: 1, y: 0 }, Vec2 { x: 0, y: 0 }, 4);
    let _ = s.insert_enemy(Vec2 { x: 500, y: 500 }, Vec2 { x: 0, y: 0 }, 4);
    let id_c = s.insert_enemy(Vec2 { x: 0, y: -2 }, Vec2 { x: 0, y: 0 }, 4);
    let events = check_collisions(&s).unwrap();
    assert_eq!(events.len(), 2);
    assert_eq!(events[0].enemy_id, id_a);
    assert_eq!(events[1].enemy_id, id_c);
}

#[test]
fn end_to_end_scenario() {
    // Arena 800x600, player at origin size 2, one enemy at (390, 0) of
    // size 20 with velocity (5, 0).
    let mut s = setup();
    s.insert_enemy(Vec2 { x: 390, y: 0 }, Vec2 { x: 5, y: 0 }, 20);
    // One motion pass: the enemy advances to (395, 0).
    move_enemies(&mut s);
    assert_eq!(s.enemies[0].position, Vec2 { x: 395, y: 0 });
    // One confinement pass: 395 > 400 - 20/2 = 390, so the x velocity
    // flips; the position is not corrected.
    confine_enemies(&mut s, 800, 600);
    assert_eq!(s.enemies[0].position, Vec2 { x: 395, y: 0 });
    assert_eq!(s.enemies[0].velocity, Vec2 { x: -5, y: 0 });
    // The player at the origin is 395 - 11 = 384 away from the box edge:
    // no collision.
    let events = check_collisions(&s).unwrap();
    assert!(events.is_empty());
}

#[test]
fn singleton_lookup_fails_on_zero_or_two() {
    let mut s = Store::new();
    assert_eq!(s.get_player(), Err(SimError::PreconditionViolation));
    assert_eq!(s.get_spawner(), Err(SimError::PreconditionViolation));
    assert_eq!(get_player_input(&mut s, InputFrame::released(), 16), Err(SimError::PreconditionViolation));
    assert_eq!(update_player_size(&mut s, InputFrame::released()), Err(SimError::PreconditionViolation));
    assert_eq!(confine_player(&mut s, 800, 600), Err(SimError::PreconditionViolation));
    assert_eq!(check_collisions(&s), Err(SimError::PreconditionViolation));
    s.insert_player(Vec2 { x: 0, y: 0 }, 200, 2);
    s.insert_player(Vec2 { x: 1, y: 1 }, 200, 2);
    assert_eq!(s.get_player(), Err(SimError::PreconditionViolation));
    assert_eq!(check_collisions(&s), Err(SimError::PreconditionViolation));
}

#[test]
fn tick_runs_one_full_frame() {
    let mut s = setup();
    let input = InputFrame { right: true, grow: true, ..InputFrame::released() };
    assert!(tick_ready(&s, 800, 600, input, 16));
    let out = tick(&mut s, 800, 600, input, 16).unwrap();
    let p = s.get_player().unwrap();
    assert_eq!(p.position, Vec2 { x: 3, y: 0 });
    assert_eq!(p.size, 4);
    assert!(s.grow_was_down);
    assert_eq!(s.enemies.len(), 11);
    assert_eq!(out.colors.len(), 11);
    assert_eq!(s.get_spawner().unwrap().current_count, 11);
    // A second frame with the key still held: no growth, no new enemies.
    assert!(tick_ready(&s, 800, 600, input, 16));
    let out2 = tick(&mut s, 800, 600, input, 16).unwrap();
    let p2 = s.get_player().unwrap();
    assert_eq!(p2.position, Vec2 { x: 6, y: 0 });
    assert_eq!(p2.size, 4);
    assert_eq!(s.enemies.len(), 11);
    assert_eq!(out2.colors.len(), 0);
}

#[test]
fn tick_without_singletons_fails() {
    let mut s = Store::new();
    assert!(tick_ready(&s, 800, 600, InputFrame::released(), 16));
    assert!(tick(&mut s, 800, 600, InputFrame::released(), 16).is_err());
    assert_eq!(s.enemies.len(), 0);
    assert_eq!(s.next_id, 0);
}

#[test]
fn visual_radius_is_half_diameter() {
    let mut s = setup();
    assert_eq!(s.get_player().unwrap().radius(), 1);
    s.insert_enemy(Vec2 { x: 0, y: 0 }, Vec2 { x: 0, y: 0 }, 19);
    assert_eq!(s.enemies[0].radius(), 9);
}

#[test]
fn tick_ready_rejects_bad_inputs() {
    let s = setup();
    assert!(!tick_ready(&s, 1, 600, InputFrame::released(), 16));
    assert!(!tick_ready(&s, 800, 600, InputFrame::released(), -1));
    assert!(tick_ready(&s, 800, 600, InputFrame::released(), 16));
}
