use tank_game::game::{GameState, PlayerState, RocketOutcome, INITIAL_CANNON_POWER, POWER_STEP};
use tank_game::input::KeyCommand;

fn with_dead(count: usize, dead: &[usize]) -> GameState {
    let mut g = GameState::new(count);
    for &d in dead {
        g.players[d].is_alive = false;
    }
    g
}

#[test]
fn new_game_has_living_players_at_full_power() {
    let g = GameState::new(4);
    assert_eq!(g.players.len(), 4);
    for p in &g.players {
        assert_eq!(*p, PlayerState { is_alive: true, cannon_power: 200 });
    }
    assert_eq!(INITIAL_CANNON_POWER, 200);
    assert_eq!(g.current_player, 0);
    assert!(g.rocket_owner.is_none());
    assert!(!g.terrain_dirty);
}

#[test]
fn next_turn_goes_to_next_seat() {
    let mut g = GameState::new(4);
    g.next_turn();
    assert_eq!(g.current_player, 1);
}

#[test]
fn next_turn_skips_destroyed_players() {
    let mut g = with_dead(4, &[1, 2]);
    g.next_turn();
    assert_eq!(g.current_player, 3);
}

#[test]
fn next_turn_wraps_round_the_table() {
    let mut g = with_dead(4, &[0]);
    g.current_player = 3;
    g.next_turn();
    assert_eq!(g.current_player, 1);
}

#[test]
fn next_turn_stays_with_last_survivor() {
    let mut g = with_dead(4, &[0, 1, 3]);
    g.current_player = 2;
    g.next_turn();
    assert_eq!(g.current_player, 2);
}

#[test]
fn next_turn_stays_when_nobody_is_alive() {
    let mut g = with_dead(4, &[0, 1, 2, 3]);
    g.current_player = 1;
    g.next_turn();
    assert_eq!(g.current_player, 1);
}

#[test]
fn power_keys_change_current_players_power() {
    let mut g = GameState::new(4);
    g.current_player = 2;
    assert!(!g.apply_key(KeyCommand::PowerUp));
    assert_eq!(g.players[2].cannon_power, 205);
    assert_eq!(g.players[1].cannon_power, 200);
    assert!(!g.apply_key(KeyCommand::PowerDown));
    assert!(!g.apply_key(KeyCommand::PowerDown));
    assert_eq!(g.players[2].cannon_power, 200 - POWER_STEP);
}

#[test]
fn aim_keys_leave_state_alone() {
    let mut g = GameState::new(2);
    assert!(!g.apply_key(KeyCommand::AimLeft));
    assert!(!g.apply_key(KeyCommand::AimRight));
    assert_eq!(g.players[0].cannon_power, 200);
    assert!(g.rocket_owner.is_none());
}

#[test]
fn fire_launches_only_one_rocket() {
    let mut g = GameState::new(4);
    g.current_player = 1;
    assert!(g.apply_key(KeyCommand::Fire));
    assert_eq!(g.rocket_owner, Some(1));
    assert!(!g.apply_key(KeyCommand::Fire));
    assert_eq!(g.rocket_owner, Some(1));
}

#[test]
fn struck_player_skips_shooter_and_destroyed() {
    let mut g = with_dead(4, &[1]);
    g.apply_key(KeyCommand::Fire);
    assert_eq!(g.struck_player(&vec![true, true, false, true]), Some(3));
    assert_eq!(g.struck_player(&vec![true, true, true, true]), Some(2));
    assert_eq!(g.struck_player(&vec![true, true, false, false]), None);
}

#[test]
fn rocket_outcome_precedence() {
    let mut g = GameState::new(3);
    g.apply_key(KeyCommand::Fire);
    let none = vec![false, false, false];
    let second = vec![false, true, false];
    assert_eq!(g.rocket_outcome(false, &second, true), RocketOutcome::OutOfBounds);
    assert_eq!(g.rocket_outcome(true, &second, true), RocketOutcome::HitPlayer(1));
    assert_eq!(g.rocket_outcome(true, &none, true), RocketOutcome::HitTerrain);
    assert_eq!(g.rocket_outcome(true, &none, false), RocketOutcome::InFlight);
}

#[test]
fn rocket_in_flight_changes_nothing() {
    let mut g = GameState::new(3);
    g.apply_key(KeyCommand::Fire);
    g.resolve_rocket(RocketOutcome::InFlight);
    assert_eq!(g.rocket_owner, Some(0));
    assert_eq!(g.current_player, 0);
    assert!(!g.terrain_dirty);
}

#[test]
fn rocket_out_of_bounds_passes_turn() {
    let mut g = GameState::new(3);
    g.apply_key(KeyCommand::Fire);
    g.resolve_rocket(RocketOutcome::OutOfBounds);
    assert!(g.rocket_owner.is_none());
    assert_eq!(g.current_player, 1);
    assert!(!g.terrain_dirty);
}

#[test]
fn rocket_hitting_player_destroys_it() {
    let mut g = GameState::new(3);
    g.apply_key(KeyCommand::Fire);
    g.resolve_rocket(RocketOutcome::HitPlayer(1));
    assert!(g.rocket_owner.is_none());
    assert!(!g.players[1].is_alive);
    assert!(g.players[0].is_alive && g.players[2].is_alive);
    assert_eq!(g.current_player, 2);
    assert!(g.terrain_dirty);
}

#[test]
fn rocket_hitting_terrain_marks_it_dirty() {
    let mut g = GameState::new(2);
    g.current_player = 1;
    g.apply_key(KeyCommand::Fire);
    g.resolve_rocket(RocketOutcome::HitTerrain);
    assert!(g.rocket_owner.is_none());
    assert!(g.terrain_dirty);
    assert_eq!(g.current_player, 0);
    assert!(g.take_terrain_dirty());
    assert!(!g.terrain_dirty);
    assert!(!g.take_terrain_dirty());
}

#[test]
fn fallen_current_player_loses_turn() {
    let mut g = GameState::new(4);
    g.current_player = 1;
    g.settle_players(&vec![false, true, true, false]);
    assert!(g.players[0].is_alive);
    assert!(!g.players[1].is_alive);
    assert!(!g.players[2].is_alive);
    assert!(g.players[3].is_alive);
    assert_eq!(g.current_player, 3);
}

#[test]
fn fallen_other_player_keeps_turn() {
    let mut g = GameState::new(4);
    g.settle_players(&vec![false, false, true, false]);
    assert!(!g.players[2].is_alive);
    assert_eq!(g.current_player, 0);
}

#[test]
fn ui_state_shows_current_player() {
    let mut g = GameState::new(4);
    g.current_player = 3;
    g.players[3].cannon_power = 150;
    let ui = g.ui_state();
    assert_eq!(ui.current_player, Some(3));
    assert_eq!(ui.player_color.as_deref(), Some("purple"));
    assert_eq!(ui.cannon_power, Some(150));
    assert_eq!(ui.game_over, None);
}
