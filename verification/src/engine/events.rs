//! What a caller asks of the engine, and what the engine answers.

use crate::engine::game::{Game, GameProjection, GameStatus};
use vstd::prelude::*;

verus! {

/// A request to the engine.
#[derive(Debug, Clone, Copy, PartialEq, Eq)]
pub enum ActorEvent {
    /// Start a new game.
    GameRequested,
    /// Show the game stored under `id`.
    GameInfoRequested { id: u128 },
    /// Make `guess` the next guess of the game stored under `id`.
    GuessSubmitted { id: u128, guess: u8 },
}

/// An answer from the engine. Every answer carries the game as the caller
/// may see it.
#[derive(Debug, Clone, Copy, PartialEq, Eq)]
pub enum GameEvent {
    GameCreated(GameProjection),
    GameInfoProvided(GameProjection),
    GuessEvaluated(GameProjection),
    GameLost(GameProjection),
    GameWon(GameProjection),
}

impl GameEvent {
    /// The game that the answer carries.
    pub open spec fn game(self) -> GameProjection {
        match self {
            GameEvent::GameCreated(shown) => shown,
            GameEvent::GameInfoProvided(shown) => shown,
            GameEvent::GuessEvaluated(shown) => shown,
            GameEvent::GameLost(shown) => shown,
            GameEvent::GameWon(shown) => shown,
        }
    }

    /// The answer to a guess that left the game as `game`: its kind follows
    /// the game's status.
    pub open spec fn spec_after_guess(game: Game) -> GameEvent {
        match game.status {
            GameStatus::Won => GameEvent::GameWon(game.spec_projection()),
            GameStatus::Lost => GameEvent::GameLost(game.spec_projection()),
            GameStatus::Ongoing => GameEvent::GuessEvaluated(game.spec_projection()),
        }
    }

    /// Builds the answer to a guess from the game as the guess left it.
    pub fn after_guess(game: &Game) -> (event: GameEvent)
        ensures
            event == GameEvent::spec_after_guess(*game),
    {
        match game.status {
            GameStatus::Won => GameEvent::GameWon(game.projection()),
            GameStatus::Lost => GameEvent::GameLost(game.projection()),
            GameStatus::Ongoing => GameEvent::GuessEvaluated(game.projection()),
        }
    }
}

} // verus!
