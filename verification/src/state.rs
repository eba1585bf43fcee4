//! The surrounding game's coarse flow: playing, paused, game over.
//!
//! The escape key toggles between playing and paused; a finished game
//! ignores it and is restarted explicitly.

use vstd::prelude::*;

verus! {

/// The coarse states of a session.
#[derive(Clone, Copy, Debug, PartialEq, Eq, Hash, Default, Structural)]
pub enum GameState {
    #[default]
    InGame,
    Paused,
    GameOver,
}

/// React to the pause key: an escape press toggles playing and paused and
/// leaves a finished game alone; without a press nothing changes.
pub fn game_state_input_events(state: GameState, escape_just_pressed: bool) -> (next: GameState)
    ensures
        next == if escape_just_pressed {
            match state {
                GameState::InGame => GameState::Paused,
                GameState::Paused => GameState::InGame,
                GameState::GameOver => GameState::GameOver,
            }
        } else {
            state
        },
{
    if escape_just_pressed {
        match state {
            GameState::InGame => GameState::Paused,
            GameState::Paused => GameState::InGame,
            GameState::GameOver => GameState::GameOver,
        }
    } else {
        state
    }
}

/// Restart a finished game: the next state is playing.
pub fn transition_to_in_game() -> (next: GameState)
    ensures
        next == GameState::InGame,
{
    GameState::InGame
}

} // verus!
