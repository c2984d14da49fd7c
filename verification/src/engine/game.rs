//! One guessing session: its data, and what its three guess slots mean.

use crate::engine::errors::GameError;
use vstd::prelude::*;

verus! {

/// How many guesses a game allows.
pub const NUMBER_OF_GUESSES: usize = 3;

/// The smallest number a game can hide.
pub const MIN_TARGET: u8 = 1;

/// The largest number a game can hide.
pub const MAX_TARGET: u8 = 10;

/// Where a game stands. `Ongoing` is where every game starts; `Won` and
/// `Lost` are final.
#[derive(Debug, Clone, Copy, PartialEq, Eq, Structural)]
pub enum GameStatus {
    Ongoing,
    Won,
    Lost,
}

/// Index of the first open slot, or the number of slots when none is open.
pub open spec fn first_open(slots: Seq<Option<u8>>) -> int {
    if slots[0] is None {
        0
    } else if slots[1] is None {
        1
    } else if slots[2] is None {
        2
    } else {
        3
    }
}

/// The slots are filled from the front: no filled slot follows an open one.
pub open spec fn in_order(slots: Seq<Option<u8>>) -> bool {
    &&& slots.len() == NUMBER_OF_GUESSES
    &&& forall|i: int, j: int|
        0 <= i < j < NUMBER_OF_GUESSES && slots[j] is Some ==> slots[i] is Some
}

/// The guesses made so far, oldest first: what the filled slots hold.
pub open spec fn recorded(slots: Seq<Option<u8>>) -> Seq<u8> {
    Seq::new(first_open(slots) as nat, |i: int| slots[i]->0)
}

/// The slots after one more guess: the guess goes into the first open slot.
/// Full slots take no guess, and slots with a gap are refused outright.
pub open spec fn after_append(slots: Seq<Option<u8>>, guess: u8) -> Result<
    Seq<Option<u8>>,
    GameError,
> {
    if !in_order(slots) {
        Err(GameError::GameInvalid)
    } else if first_open(slots) == NUMBER_OF_GUESSES {
        Err(GameError::GameFinished)
    } else {
        Ok(slots.update(first_open(slots), Some(guess)))
    }
}

/// The status that a set of slots gives a game with this target. A hit
/// counts before fullness does: a hit in the last slot wins.
pub open spec fn status_of(slots: Seq<Option<u8>>, target: u8) -> GameStatus {
    if slots.contains(Some(target)) {
        GameStatus::Won
    } else if first_open(slots) == NUMBER_OF_GUESSES {
        GameStatus::Lost
    } else {
        GameStatus::Ongoing
    }
}

/// One guessing session.
#[derive(Debug, Clone, Copy, PartialEq, Eq)]
pub struct Game {
    /// The key under which the engine stores the game.
    pub id: u128,
    /// The three guess slots, in the order in which they fill.
    pub guesses: [Option<u8>; 3],
    /// The hidden target.
    pub number: u8,
    pub status: GameStatus,
}

/// What a caller is shown of a game: everything but the target.
#[derive(Debug, Clone, Copy, PartialEq, Eq)]
pub struct GameProjection {
    pub id: u128,
    pub guesses: [Option<u8>; 3],
    pub status: GameStatus,
}

impl Game {
    /// A game as the engine keeps it: the target is in range, the slots have
    /// no gap, the status is the one the slots give, and only the latest
    /// guess can be a hit, since a decided game takes no further guess.
    pub open spec fn wf(self) -> bool {
        &&& MIN_TARGET <= self.number <= MAX_TARGET
        &&& in_order(self.guesses@)
        &&& self.status == status_of(self.guesses@, self.number)
        &&& forall|i: int|
            0 <= i < first_open(self.guesses@) - 1 ==> self.guesses@[i] != Some(self.number)
    }

    /// The game after one more guess. The slots are looked at first: a gap is
    /// `GameInvalid` and full slots are `GameFinished`, whatever the status
    /// says. A game that is decided with a slot still open refuses the guess
    /// with `GameFinished` too. Otherwise the guess is appended and the
    /// status follows from the new slots.
    pub open spec fn after_guess(self, guess: u8) -> Result<Game, GameError> {
        match after_append(self.guesses@, guess) {
            Err(e) => Err(e),
            Ok(slots) => if self.status != GameStatus::Ongoing {
                Err(GameError::GameFinished)
            } else {
                Ok(
                    Game {
                        id: self.id,
                        guesses: [slots[0], slots[1], slots[2]],
                        number: self.number,
                        status: status_of(slots, self.number),
                    },
                )
            },
        }
    }

    /// The same game with other slots and another status.
    pub open spec fn with_state(self, guesses: [Option<u8>; 3], status: GameStatus) -> Game {
        Game { id: self.id, guesses, number: self.number, status }
    }

    /// The game that creation stores: no guess made, nothing decided.
    pub open spec fn fresh(id: u128, target: u8) -> Game {
        Game { id, guesses: [None, None, None], number: target, status: GameStatus::Ongoing }
    }

    /// The part of the game that leaves the engine.
    pub open spec fn spec_projection(self) -> GameProjection {
        GameProjection { id: self.id, guesses: self.guesses, status: self.status }
    }

    /// Copies out the part of the game that a caller may see.
    pub fn projection(&self) -> (shown: GameProjection)
        ensures
            shown == self.spec_projection(),
    {
        GameProjection { id: self.id, guesses: self.guesses, status: self.status }
    }

    /// Builds a game that has not been decided yet.
    pub fn new(id: u128, number: u8, guesses: [Option<u8>; NUMBER_OF_GUESSES]) -> (game: Game)
        ensures
            game.id == id,
            game.number == number,
            game.guesses == guesses,
            game.status == GameStatus::Ongoing,
            guesses@ == seq![None::<u8>, None, None] ==> game == Game::fresh(id, number),
    {
        let game = Game { guesses, id, number, status: GameStatus::Ongoing };
        assert(guesses@ == seq![None::<u8>, None, None] ==> game.guesses =~= Game::fresh(
            id,
            number,
        ).guesses);
        game
    }
}

} // verus!
