use breakout::ball::{update_ball, WallContact};
use breakout::collision::{check_collision_block, Axis};
use breakout::state::{check_clear, wait_for_start, GameState};

#[test]
fn game_starts_on_title_screen() {
    assert_eq!(GameState::default(), GameState::PreGame);
}

#[test]
fn playing_is_the_only_state_that_plays() {
    assert!(GameState::Playing.is_playing());
    assert!(!GameState::Playing.is_waiting_for_start());
    for s in [GameState::PreGame, GameState::GameOver, GameState::GameClear] {
        assert!(!s.is_playing());
        assert!(s.is_waiting_for_start());
    }
}

#[test]
fn space_starts_from_every_waiting_state() {
    for s in [GameState::PreGame, GameState::GameOver, GameState::GameClear] {
        assert_eq!(wait_for_start(s, true), Some(GameState::Playing));
        assert_eq!(wait_for_start(s, false), None);
    }
}

#[test]
fn space_is_ignored_while_playing() {
    assert_eq!(wait_for_start(GameState::Playing, true), None);
    assert_eq!(wait_for_start(GameState::Playing, false), None);
}

#[test]
fn clear_only_with_no_block_left() {
    assert_eq!(check_clear(GameState::Playing, 0), Some(GameState::GameClear));
    assert_eq!(check_clear(GameState::Playing, 1), None);
    assert_eq!(check_clear(GameState::Playing, 40), None);
}

#[test]
fn clear_check_does_not_run_outside_a_round() {
    assert_eq!(check_clear(GameState::PreGame, 0), None);
    assert_eq!(check_clear(GameState::GameOver, 0), None);
    assert_eq!(check_clear(GameState::GameClear, 0), None);
}

#[test]
fn a_full_cycle_of_rounds() {
    let mut state = GameState::default();
    state = wait_for_start(state, true).unwrap_or(state);
    assert_eq!(state, GameState::Playing);

    let lost = WallContact { top: false, side: false, bottom: true };
    let response = update_ball(state, lost).unwrap();
    state = response.next_state.unwrap_or(state);
    assert_eq!(state, GameState::GameOver);

    state = wait_for_start(state, true).unwrap_or(state);
    assert_eq!(state, GameState::Playing);

    let contacts = vec![None, Some(Axis::X)];
    let hit = check_collision_block(state, &contacts).unwrap();
    assert_eq!(hit.index, 1);
    let left = contacts.len() - 1;
    assert_eq!(check_clear(state, left), None);
    let contacts = vec![Some(Axis::Y)];
    assert!(check_collision_block(state, &contacts).is_some());
    state = check_clear(state, 0).unwrap_or(state);
    assert_eq!(state, GameState::GameClear);

    assert_eq!(wait_for_start(state, true), Some(GameState::Playing));
}
