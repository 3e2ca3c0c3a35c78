use mana::client::{new_client_id, CLIENT_ID_BOUND};
use mana::components::{Ability, PlayerActions, PlayerId, Position, PressedActions, Vec2Bits};
use mana::config::{duration_to_ticks, ticks_to_duration, TICK_DURATION_MILLISECONDS};
use mana::direction::{vec2_to_direction, Direction};
use mana::input::{shared_player_input, update_abilities, InputOutcome};
use mana::replication::{replicate_players, NetworkTarget, Player, REPLICATION_GROUP};
use mana::sprite::{animation_name, sprite_update, wanted_animation, SpriteUpdate};
use mana::tick::Tick;

fn v(x: f32, y: f32) -> Vec2Bits {
    Vec2Bits { x: x.to_bits(), y: y.to_bits() }
}

#[test]
fn vec2_to_direction_test() {
    // default to down
    assert!(matches!(vec2_to_direction(v(0.0, 0.0)), Direction::Down));
    // simple left
    assert!(matches!(vec2_to_direction(v(-1.0, 0.0)), Direction::Left));
    // simple right
    assert!(matches!(vec2_to_direction(v(1.0, 0.0)), Direction::Right));
    // simple down
    assert!(matches!(vec2_to_direction(v(0.0, 1.0)), Direction::Down));
    // simple up
    assert!(matches!(vec2_to_direction(v(0.0, -1.0)), Direction::Up));

    // left dominates
    assert!(matches!(vec2_to_direction(v(-0.9, -0.1)), Direction::Left));
    // right dominates
    assert!(matches!(vec2_to_direction(v(0.9, -0.1)), Direction::Right));
    // down wins on equal
    assert!(matches!(vec2_to_direction(v(1.0, 1.0)), Direction::Down));
    // up wins on equal
    assert!(matches!(vec2_to_direction(v(1.0, -1.0)), Direction::Down));
}

#[test]
fn direction_follows_dominant_component() {
    assert_eq!(vec2_to_direction(v(-1.0, 0.0)), Direction::Left);
    assert_eq!(vec2_to_direction(v(1.0, 0.0)), Direction::Right);
    assert_eq!(vec2_to_direction(v(0.0, 1.0)), Direction::Down);
    assert_eq!(vec2_to_direction(v(0.0, -1.0)), Direction::Up);
    assert_eq!(vec2_to_direction(v(-0.9, -0.1)), Direction::Left);
    assert_eq!(vec2_to_direction(v(0.9, -0.1)), Direction::Right);
    assert_eq!(vec2_to_direction(v(0.1, 0.9)), Direction::Down);
    assert_eq!(vec2_to_direction(v(-0.1, -0.9)), Direction::Up);
}

#[test]
fn direction_on_ties_zero_and_nan() {
    // equal magnitudes face down, whatever the signs
    assert_eq!(vec2_to_direction(v(1.0, 1.0)), Direction::Down);
    assert_eq!(vec2_to_direction(v(1.0, -1.0)), Direction::Down);
    assert_eq!(vec2_to_direction(v(-2.5, 2.5)), Direction::Down);
    assert_eq!(vec2_to_direction(v(-2.5, -2.5)), Direction::Down);
    // zero vectors face down
    assert_eq!(vec2_to_direction(v(0.0, 0.0)), Direction::Down);
    assert_eq!(vec2_to_direction(v(0.0, -0.0)), Direction::Down);
    assert_eq!(vec2_to_direction(v(-0.0, 0.0)), Direction::Down);
    // a NaN never dominates, nor is dominated
    assert_eq!(vec2_to_direction(v(f32::NAN, 0.0)), Direction::Down);
    assert_eq!(vec2_to_direction(v(5.0, f32::NAN)), Direction::Down);
    assert_eq!(vec2_to_direction(v(0.0, -f32::NAN)), Direction::Down);
    // infinities are ordinary magnitudes
    assert_eq!(vec2_to_direction(v(f32::NEG_INFINITY, 1.0e30)), Direction::Left);
    assert_eq!(vec2_to_direction(v(1.0e30, f32::NEG_INFINITY)), Direction::Up);
    assert_eq!(vec2_to_direction(v(1.0e30, f32::INFINITY)), Direction::Down);
}

#[test]
fn direction_matches_float_comparison() {
    let samples: [f32; 11] = [0.0, -0.0, 1.0, -1.0, 0.5, -0.25, 3.0, -7.5, 1.0e-40, -1.0e-40, 100.0];
    for &x in samples.iter() {
        for &y in samples.iter() {
            let expected = if x.abs() > y.abs() {
                if x.is_sign_negative() { Direction::Left } else { Direction::Right }
            } else if y.abs() > x.abs() && y.is_sign_negative() {
                Direction::Up
            } else {
                Direction::Down
            };
            assert_eq!(vec2_to_direction(v(x, y)), expected, "x = {}, y = {}", x, y);
        }
    }
}

#[test]
fn negating_x_mirrors_left_and_right() {
    assert_eq!(vec2_to_direction(v(2.0, 1.0)), Direction::Right);
    assert_eq!(vec2_to_direction(v(-2.0, 1.0)), Direction::Left);
    assert_eq!(vec2_to_direction(v(1.0, 2.0)), Direction::Down);
    assert_eq!(vec2_to_direction(v(-1.0, 2.0)), Direction::Down);
    assert_eq!(vec2_to_direction(v(1.0, -2.0)), Direction::Up);
    assert_eq!(vec2_to_direction(v(-1.0, -2.0)), Direction::Up);
}

#[test]
fn negating_y_mirrors_up_and_down() {
    assert_eq!(vec2_to_direction(v(1.0, 2.0)), Direction::Down);
    assert_eq!(vec2_to_direction(v(1.0, -2.0)), Direction::Up);
    assert_eq!(vec2_to_direction(v(2.0, 1.0)), Direction::Right);
    assert_eq!(vec2_to_direction(v(2.0, -1.0)), Direction::Right);
    // where y does not dominate its sign does not matter
    assert_eq!(vec2_to_direction(v(3.0, 3.0)), vec2_to_direction(v(3.0, -3.0)));
}

#[test]
fn tick_arithmetic_wraps() {
    assert_eq!(Tick(10).add_ticks(Tick(5)), Tick(15));
    assert_eq!(Tick(65530).add_ticks(Tick(20)), Tick(14));
    assert_eq!(Tick(65535).add_ticks(Tick(1)), Tick(0));
    assert_eq!(Tick(15).ticks_since(Tick(10)), 5);
    assert_eq!(Tick(10).ticks_since(Tick(15)), -5);
    assert_eq!(Tick(14).ticks_since(Tick(65530)), 20);
    assert_eq!(Tick(32767).ticks_since(Tick(0)), 32767);
    assert_eq!(Tick(32768).ticks_since(Tick(0)), -32768);
    // advancing and measuring back gives the advance
    for start in [0u16, 1, 1000, 65500, 65535] {
        for d in [0u16, 1, 20, 32767] {
            assert_eq!(Tick(start).add_ticks(Tick(d)).ticks_since(Tick(start)), d as i16);
        }
    }
}

#[test]
fn durations_and_ticks() {
    assert_eq!(TICK_DURATION_MILLISECONDS, 15);
    assert_eq!(duration_to_ticks(300), Tick(20));
    assert_eq!(duration_to_ticks(0), Tick(0));
    assert_eq!(duration_to_ticks(14), Tick(0));
    assert_eq!(duration_to_ticks(15), Tick(1));
    assert_eq!(duration_to_ticks(29), Tick(1));
    assert_eq!(duration_to_ticks(983_039), Tick(65535));
    assert_eq!(ticks_to_duration(0), 0);
    assert_eq!(ticks_to_duration(20), 300);
    assert_eq!(ticks_to_duration(65535), 983_025);
    // round trip
    for t in [0u16, 1, 7, 20, 4096, 65535] {
        assert_eq!(duration_to_ticks(ticks_to_duration(t) as u128), Tick(t));
    }
    // rounding down
    for ms in [0u128, 1, 14, 15, 16, 299, 300, 301, 1000] {
        let back = ticks_to_duration(duration_to_ticks(ms).0) as u128;
        assert!(back <= ms && ms < back + 15);
    }
}

fn pressed(move_pressed: bool, slash_pressed: bool) -> PressedActions {
    PressedActions { move_pressed, slash_pressed }
}

#[test]
fn pressed_actions() {
    let a = pressed(true, false);
    assert!(a.pressed(PlayerActions::Move));
    assert!(!a.pressed(PlayerActions::Slash));
    let b = pressed(false, true);
    assert!(!b.pressed(PlayerActions::Move));
    assert!(b.pressed(PlayerActions::Slash));
}

#[test]
fn slash_starts_an_ability() {
    let pos = Position(v(100.0, 100.0));
    let out = shared_player_input(&pos, None, Tick(7), &pressed(false, true));
    assert_eq!(
        out,
        InputOutcome {
            spawn_ability: Some(Ability {
                start_tick: Tick(7),
                end_tick: Tick(27),
                position: v(100.0, 100.0),
                direction: v(0.0, 0.0),
            }),
            move_player: false,
        }
    );
}

#[test]
fn slash_end_tick_wraps() {
    let pos = Position(v(-3.0, 4.5));
    let out = shared_player_input(&pos, None, Tick(65530), &pressed(false, true));
    let ability = out.spawn_ability.unwrap();
    assert_eq!(ability.start_tick, Tick(65530));
    assert_eq!(ability.end_tick, Tick(14));
    assert_eq!(ability.end_tick.ticks_since(ability.start_tick), 20);
}

#[test]
fn move_and_slash_in_one_tick() {
    let pos = Position(v(1.0, 2.0));
    let out = shared_player_input(&pos, None, Tick(0), &pressed(true, true));
    assert!(out.move_player);
    assert_eq!(out.spawn_ability.unwrap().end_tick, Tick(20));
}

#[test]
fn move_only_and_idle() {
    let pos = Position(v(1.0, 2.0));
    let out = shared_player_input(&pos, None, Tick(3), &pressed(true, false));
    assert_eq!(out, InputOutcome { spawn_ability: None, move_player: true });
    let out = shared_player_input(&pos, None, Tick(3), &pressed(false, false));
    assert_eq!(out, InputOutcome { spawn_ability: None, move_player: false });
}

#[test]
fn no_input_while_ability_in_progress() {
    let pos = Position(v(1.0, 2.0));
    let ability = Ability { start_tick: Tick(0), end_tick: Tick(20), position: v(1.0, 2.0), direction: v(0.0, 0.0) };
    for (m, s) in [(false, false), (true, false), (false, true), (true, true)] {
        let out = shared_player_input(&pos, Some(&ability), Tick(5), &pressed(m, s));
        assert_eq!(out, InputOutcome { spawn_ability: None, move_player: false });
    }
}

fn ability(start: u16, end: u16) -> Ability {
    Ability { start_tick: Tick(start), end_tick: Tick(end), position: v(0.0, 0.0), direction: v(0.0, 0.0) }
}

#[test]
fn abilities_expire_at_their_end_tick() {
    let list = vec![(1u64, ability(0, 20)), (2, ability(5, 25)), (3, ability(10, 20)), (4, ability(19, 39))];
    assert_eq!(update_abilities(&list, Tick(20)), vec![1, 3]);
    assert_eq!(update_abilities(&list, Tick(25)), vec![2]);
    assert_eq!(update_abilities(&list, Tick(21)), Vec::<u64>::new());
    assert_eq!(update_abilities(&Vec::new(), Tick(20)), Vec::<u64>::new());
}

#[test]
fn slash_ability_lives_exactly_its_duration() {
    let pos = Position(v(0.0, 0.0));
    for start in [0u16, 100, 65530] {
        let a = shared_player_input(&pos, None, Tick(start), &pressed(false, true)).spawn_ability.unwrap();
        let list = vec![(9u64, a)];
        for k in 0u16..=40 {
            let now = Tick(start).add_ticks(Tick(k));
            let expired = update_abilities(&list, now);
            if k == 20 {
                assert_eq!(expired, vec![9]);
            } else {
                assert!(expired.is_empty());
            }
        }
    }
}

#[test]
fn animation_names() {
    assert_eq!(animation_name(Direction::Down, true, true), "down_slash");
    assert_eq!(animation_name(Direction::Up, true, false), "up_slash");
    assert_eq!(animation_name(Direction::Left, true, false), "left_slash");
    assert_eq!(animation_name(Direction::Right, true, true), "right_slash");
    assert_eq!(animation_name(Direction::Down, false, true), "down");
    assert_eq!(animation_name(Direction::Up, false, true), "up");
    assert_eq!(animation_name(Direction::Left, false, true), "left");
    assert_eq!(animation_name(Direction::Right, false, true), "right");
    assert_eq!(animation_name(Direction::Down, false, false), "down_stand");
    assert_eq!(animation_name(Direction::Up, false, false), "up_stand");
    assert_eq!(animation_name(Direction::Left, false, false), "left_stand");
    assert_eq!(animation_name(Direction::Right, false, false), "right_stand");
}

#[test]
fn wanted_animation_combines_facing_ability_and_input() {
    let a = ability(0, 20);
    assert_eq!(wanted_animation(&mana::components::FacingDirection(v(-1.0, 0.2)), Some(&a), &pressed(true, false)), "left_slash");
    assert_eq!(wanted_animation(&mana::components::FacingDirection(v(0.0, -1.0)), None, &pressed(true, false)), "up");
    assert_eq!(wanted_animation(&mana::components::FacingDirection(v(0.3, 1.0)), None, &pressed(false, true)), "down_stand");
    assert_eq!(wanted_animation(&mana::components::FacingDirection(v(2.0, 1.0)), None, &pressed(false, false)), "right_stand");
}

#[test]
fn sprite_updates() {
    assert_eq!(sprite_update(true, Some(Tick(3)), Tick(5)), SpriteUpdate::Keep);
    assert_eq!(sprite_update(true, None, Tick(5)), SpriteUpdate::Keep);
    assert_eq!(sprite_update(false, None, Tick(5)), SpriteUpdate::Switch { seek_millis: None });
    assert_eq!(sprite_update(false, Some(Tick(3)), Tick(5)), SpriteUpdate::Switch { seek_millis: Some(30) });
    assert_eq!(sprite_update(false, Some(Tick(3)), Tick(3)), SpriteUpdate::Switch { seek_millis: Some(0) });
    assert_eq!(sprite_update(false, Some(Tick(65530)), Tick(14)), SpriteUpdate::Switch { seek_millis: Some(300) });
}

#[test]
fn network_targets() {
    assert!(!NetworkTarget::Nobody.should_send_to(1));
    assert!(NetworkTarget::All.should_send_to(1));
    assert!(NetworkTarget::AllExcept(vec![1, 2]).should_send_to(3));
    assert!(!NetworkTarget::AllExcept(vec![1, 2]).should_send_to(2));
    assert!(NetworkTarget::Only(vec![1, 2]).should_send_to(1));
    assert!(!NetworkTarget::Only(vec![1, 2]).should_send_to(3));
    assert!(NetworkTarget::Single(4).should_send_to(4));
    assert!(!NetworkTarget::Single(4).should_send_to(5));
}

#[test]
fn replication_excludes_owner_from_interpolation_and_inputs() {
    let plan = replicate_players(42);
    assert_eq!(plan.replication_group, REPLICATION_GROUP);
    assert_eq!(REPLICATION_GROUP, 1);
    match (&plan.interpolation_target, &plan.action_state_target) {
        (NetworkTarget::AllExcept(a), NetworkTarget::AllExcept(b)) => {
            assert_eq!(a, &vec![42u64]);
            assert_eq!(b, &vec![42u64]);
        }
        _ => panic!("owner must be excluded by AllExcept"),
    }
    for c in [0u64, 1, 41, 42, 43, 999_999] {
        assert!(matches!(plan.replication_target, NetworkTarget::All));
        assert!(plan.replication_target.should_send_to(c));
        assert_eq!(plan.interpolation_target.should_send_to(c), c != 42);
        assert_eq!(plan.action_state_target.should_send_to(c), c != 42);
    }
}

#[test]
fn player_bundle() {
    let p = Player::new(7, Position(v(100.0, 100.0)));
    assert_eq!(p.id, PlayerId(7));
    assert_eq!(p.position, Position(v(100.0, 100.0)));
    assert_eq!(p.replication_group, 1);
}

#[test]
fn client_ids_are_below_the_bound() {
    assert_eq!(CLIENT_ID_BOUND, 1_000_000);
    let mut distinct = std::collections::HashSet::new();
    for _ in 0..200 {
        let id = new_client_id();
        assert!(id < CLIENT_ID_BOUND);
        distinct.insert(id);
    }
    // the identities are drawn at random, not a constant
    assert!(distinct.len() > 1);
}
