//! The ways a request can fail.

use vstd::prelude::*;

verus! {

/// Why a request was turned down. None of these is fatal: the engine is
/// unchanged and ready for the next request.
#[derive(Debug, Clone, Copy, PartialEq, Eq, Structural)]
pub enum GameError {
    /// No game is stored under the id that the request names.
    GameNotFound,
    /// The game takes no further guess: its slots are full, or it is
    /// already decided.
    GameFinished,
    /// The stored guess slots have a gap: a filled slot follows an open one.
    /// This is reported whatever the stored status says.
    GameInvalid,
}

impl GameError {
    /// The text shown to a caller for this error.
    pub open spec fn message(self) -> Seq<char> {
        match self {
            GameError::GameNotFound => "Game Not Found"@,
            GameError::GameFinished => "Game Already Finished"@,
            GameError::GameInvalid => "Game Invalid"@,
        }
    }

    /// Renders the error as the text of [`GameError::message`].
    pub fn to_string(&self) -> (text: String)
        ensures
            text@ == self.message(),
    {
        match *self {
            GameError::GameNotFound => "Game Not Found".to_owned(),
            GameError::GameFinished => "Game Already Finished".to_owned(),
            GameError::GameInvalid => "Game Invalid".to_owned(),
        }
    }
}

} // verus!
