use platformer_core::state::{game_state_input_events, transition_to_in_game, GameState};

#[test]
fn escape_toggles_pause() {
    assert_eq!(game_state_input_events(GameState::InGame, true), GameState::Paused);
    assert_eq!(game_state_input_events(GameState::Paused, true), GameState::InGame);
}

#[test]
fn a_finished_game_ignores_escape() {
    assert_eq!(game_state_input_events(GameState::GameOver, true), GameState::GameOver);
}

#[test]
fn no_press_changes_nothing() {
    assert_eq!(game_state_input_events(GameState::InGame, false), GameState::InGame);
    assert_eq!(game_state_input_events(GameState::Paused, false), GameState::Paused);
    assert_eq!(game_state_input_events(GameState::GameOver, false), GameState::GameOver);
}

#[test]
fn restart_goes_back_to_playing() {
    assert_eq!(transition_to_in_game(), GameState::InGame);
}
