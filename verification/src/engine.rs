//! The engine and the two pure rules it applies to every guess.

pub mod errors;
pub mod events;
pub mod game;
pub mod random;
pub mod theorems;

use crate::engine::errors::GameError;
use crate::engine::events::{ActorEvent, GameEvent};
use crate::engine::game::{
    after_append, in_order, recorded, status_of, Game, GameStatus, MAX_TARGET, MIN_TARGET,
    NUMBER_OF_GUESSES,
};
use crate::engine::random::{draw_in_range, fresh_uuid, is_random_uuid, thread_generator};
use rand::rngs::ThreadRng;
use std::collections::HashMap;
use vstd::prelude::*;

verus! {

broadcast use vstd::std_specs::hash::group_hash_axioms;

/// Every stored game is sound and sits under its own id.
pub open spec fn repo_wf(repo: Map<u128, Game>) -> bool {
    forall|id: u128| #[trigger] repo.contains_key(id) ==> repo[id].wf() && repo[id].id == id
}

/// What asking for the game under `id` gives.
pub open spec fn info_of(repo: Map<u128, Game>, id: u128) -> Result<GameEvent, GameError> {
    if repo.contains_key(id) {
        Ok(GameEvent::GameInfoProvided(repo[id].spec_projection()))
    } else {
        Err(GameError::GameNotFound)
    }
}

/// The game under `id` as a guess would leave it, or why the guess is
/// turned down.
pub open spec fn guess_outcome(repo: Map<u128, Game>, id: u128, guess: u8) -> Result<
    Game,
    GameError,
> {
    if repo.contains_key(id) {
        repo[id].after_guess(guess)
    } else {
        Err(GameError::GameNotFound)
    }
}

/// The answer to a guess at the game under `id`.
pub open spec fn answer_to_guess(repo: Map<u128, Game>, id: u128, guess: u8) -> Result<
    GameEvent,
    GameError,
> {
    match guess_outcome(repo, id, guess) {
        Ok(game) => Ok(GameEvent::spec_after_guess(game)),
        Err(e) => Err(e),
    }
}

/// The stored games after a guess at the game under `id`: an accepted guess
/// replaces that one game, a guess that is turned down changes nothing.
pub open spec fn repo_after_guess(repo: Map<u128, Game>, id: u128, guess: u8) -> Map<u128, Game> {
    match guess_outcome(repo, id, guess) {
        Ok(game) => repo.insert(id, game),
        Err(_) => repo,
    }
}

/// The stored games after a game with this target was created under `id`.
pub open spec fn repo_after_create(repo: Map<u128, Game>, id: u128, target: u8) -> Map<u128, Game> {
    repo.insert(id, Game::fresh(id, target))
}

/// The answer to the creation of a game under `id`.
pub open spec fn answer_to_create(id: u128, target: u8) -> Result<GameEvent, GameError> {
    Ok(GameEvent::GameCreated(Game::fresh(id, target).spec_projection()))
}

/// Owns every game, each stored under its id, and the generator that
/// targets are drawn from.
pub struct Engine {
    game_repo: HashMap<u128, Game>,
    rand_generator: ThreadRng,
}

impl View for Engine {
    type V = Map<u128, Game>;

    /// The stored games by id. The generator is no part of the view:
    /// nothing is known of what it holds.
    closed spec fn view(&self) -> Map<u128, Game> {
        self.game_repo@
    }
}

impl Engine {
    /// The engine's invariant: every stored game is sound and sits under
    /// its own id. `new` establishes it and every method keeps it.
    pub open spec fn wf(&self) -> bool {
        repo_wf(self@)
    }

    /// An engine that holds no game.
    pub fn new() -> (engine: Engine)
        ensures
            engine@ == Map::<u128, Game>::empty(),
            engine.wf(),
    {
        Engine { game_repo: HashMap::new(), rand_generator: thread_generator() }
    }

    /// Answers one request. Asking for a game stores a new one; asking for
    /// information changes nothing; a guess changes the one game it names,
    /// and only if it is accepted.
    pub fn process(&mut self, event: ActorEvent) -> (result: Result<GameEvent, GameError>)
        ensures
            old(self).wf() ==> final(self).wf(),
            match event {
                ActorEvent::GameInfoRequested { id } => {
                    &&& result == info_of(old(self)@, id)
                    &&& final(self)@ == old(self)@
                },
                ActorEvent::GuessSubmitted { id, guess } => {
                    &&& result == answer_to_guess(old(self)@, id, guess)
                    &&& final(self)@ == repo_after_guess(old(self)@, id, guess)
                },
                ActorEvent::GameRequested => {
                    &&& result matches Ok(GameEvent::GameCreated(shown))
                    &&& is_random_uuid(shown.id)
                    &&& final(self)@.contains_key(shown.id)
                    &&& MIN_TARGET <= final(self)@[shown.id].number <= MAX_TARGET
                    &&& result == answer_to_create(shown.id, final(self)@[shown.id].number)
                    &&& final(self)@ == repo_after_create(
                        old(self)@,
                        shown.id,
                        final(self)@[shown.id].number,
                    )
                },
            },
    {
        match event {
            ActorEvent::GameInfoRequested { id } => self.get_info(id),
            ActorEvent::GuessSubmitted { id, guess } => self.submit_guess(id, guess),
            ActorEvent::GameRequested => self.create_game(),
        }
    }

    /// Shows the game stored under `id`.
    pub fn get_info(&self, id: u128) -> (result: Result<GameEvent, GameError>)
        ensures
            result == info_of(self@, id),
    {
        match self.get_game(id) {
            Ok(game) => Ok(GameEvent::GameInfoProvided(game.projection())),
            Err(e) => Err(e),
        }
    }

    /// Starts a game under a new random id with a target drawn from the
    /// allowed range, and shows it. Should the id be taken, which chance all
    /// but rules out, the new game replaces the one that had it.
    pub fn create_game(&mut self) -> (result: Result<GameEvent, GameError>)
        ensures
            old(self).wf() ==> final(self).wf(),
            result matches Ok(GameEvent::GameCreated(shown)) && {
                &&& is_random_uuid(shown.id)
                &&& final(self)@.contains_key(shown.id)
                &&& MIN_TARGET <= final(self)@[shown.id].number <= MAX_TARGET
                &&& result == answer_to_create(shown.id, final(self)@[shown.id].number)
                &&& final(self)@ == repo_after_create(
                    old(self)@,
                    shown.id,
                    final(self)@[shown.id].number,
                )
            },
    {
        let id = fresh_uuid();
        let target = draw_in_range(&mut self.rand_generator, MIN_TARGET, MAX_TARGET);
        self.create_game_with(id, target)
    }

    /// Starts a game under the given id with the given target, and shows it.
    /// A game already stored under that id is replaced.
    pub fn create_game_with(&mut self, id: u128, target: u8) -> (result: Result<
        GameEvent,
        GameError,
    >)
        requires
            MIN_TARGET <= target <= MAX_TARGET,
        ensures
            old(self).wf() ==> final(self).wf(),
            result == answer_to_create(id, target),
            final(self)@ == repo_after_create(old(self)@, id, target),
    {
        let game = Game::new(id, target, [None, None, None]);
        let event = GameEvent::GameCreated(game.projection());
        self.insert_game(game);
        Ok(event)
    }

    /// Makes `guess` the next guess of the game stored under `id`, stores
    /// the game as the guess leaves it, and answers according to its new
    /// status. A guess that is turned down changes nothing: for want of a
    /// game, for a gap in the stored slots, for full slots, or because the
    /// game is decided, in that order.
    pub fn submit_guess(&mut self, id: u128, guess: u8) -> (result: Result<GameEvent, GameError>)
        ensures
            old(self).wf() ==> final(self).wf(),
            result == answer_to_guess(old(self)@, id, guess),
            final(self)@ == repo_after_guess(old(self)@, id, guess),
    {
        let current_game = match self.get_game(id) {
            Ok(game) => *game,
            Err(e) => {
                return Err(e);
            },
        };
        let new_guess_list = match new_guess_list(current_game.guesses, &guess) {
            Ok(list) => list,
            Err(e) => {
                return Err(e);
            },
        };
        match current_game.status {
            GameStatus::Ongoing => {},
            _ => {
                return Err(GameError::GameFinished);
            },
        }
        let new_status = new_status(new_guess_list, current_game.number);
        assert(current_game.with_state(new_guess_list, new_status) == current_game.after_guess(
            guess,
        )->Ok_0) by {
            assert(new_guess_list =~= current_game.after_guess(guess)->Ok_0.guesses);
        }
        match self.update_game(id, new_guess_list, new_status) {
            Ok(new_game_state) => Ok(GameEvent::after_guess(&new_game_state)),
            Err(e) => Err(e),
        }
    }

    /// Stores a game under its own id, in place of any game stored there.
    fn insert_game(&mut self, game: Game)
        ensures
            final(self)@ == old(self)@.insert(game.id, game),
            old(self).wf() && game.wf() ==> final(self).wf(),
    {
        self.game_repo.insert(game.id, game);
    }

    /// Gives the game under `id` new slots and a new status, and hands back
    /// the game as it is stored then. Its id and its target stay. Nothing is
    /// stored where no game is.
    fn update_game(
        &mut self,
        id: u128,
        new_state: [Option<u8>; NUMBER_OF_GUESSES],
        new_status: GameStatus,
    ) -> (result: Result<Game, GameError>)
        ensures
            !old(self)@.contains_key(id) ==> {
                &&& result == Err::<Game, GameError>(GameError::GameNotFound)
                &&& final(self)@ == old(self)@
            },
            old(self)@.contains_key(id) ==> {
                &&& result == Ok::<Game, GameError>(old(self)@[id].with_state(new_state, new_status))
                &&& final(self)@ == old(self)@.insert(
                    id,
                    old(self)@[id].with_state(new_state, new_status),
                )
            },
            old(self).wf() && (old(self)@.contains_key(id) ==> old(self)@[id].with_state(
                new_state,
                new_status,
            ).wf()) ==> final(self).wf(),
    {
        let updated = match self.get_game(id) {
            Ok(game) => Game {
                id: game.id,
                guesses: new_state,
                number: game.number,
                status: new_status,
            },
            Err(e) => {
                return Err(e);
            },
        };
        self.game_repo.insert(id, updated);
        Ok(updated)
    }

    /// Looks up the game stored under `id`.
    fn get_game(&self, id: u128) -> (result: Result<&Game, GameError>)
        ensures
            match result {
                Ok(game) => self@.contains_key(id) && *game == self@[id],
                Err(e) => !self@.contains_key(id) && e == GameError::GameNotFound,
            },
    {
        match self.game_repo.get(&id) {
            Some(game) => Ok(game),
            None => Err(GameError::GameNotFound),
        }
    }
}

/// Derives a game's status from its slots and its target. A hit wins,
/// wherever it stands; without a hit, full slots lose; otherwise the game
/// goes on.
pub fn new_status(new_guess_list: [Option<u8>; NUMBER_OF_GUESSES], selected_number: u8) -> (status:
    GameStatus)
    ensures
        status == status_of(new_guess_list@, selected_number),
{
    let mut hit = false;
    let mut full = true;
    for i in 0..NUMBER_OF_GUESSES
        invariant
            hit <==> exists|j: int| 0 <= j < i && new_guess_list@[j] == Some(selected_number),
            full <==> forall|j: int| 0 <= j < i ==> new_guess_list@[j] is Some,
    {
        match new_guess_list[i] {
            Some(guess) => {
                if guess == selected_number {
                    hit = true;
                }
            },
            None => {
                full = false;
            },
        }
    }
    if hit {
        GameStatus::Won
    } else if full {
        GameStatus::Lost
    } else {
        GameStatus::Ongoing
    }
}

/// Appends a guess to the slots: it goes into the first open one. Full
/// slots give `GameFinished`, slots with a gap `GameInvalid`; the slots
/// handed in are never changed.
pub fn new_guess_list(current_guesses: [Option<u8>; NUMBER_OF_GUESSES], guess: &u8) -> (result:
    Result<[Option<u8>; NUMBER_OF_GUESSES], GameError>)
    ensures
        match after_append(current_guesses@, *guess) {
            Ok(slots) => result matches Ok(list) && list@ == slots,
            Err(e) => result == Err::<[Option<u8>; NUMBER_OF_GUESSES], GameError>(e),
        },
        result matches Ok(list) ==> {
            &&& in_order(list@)
            &&& recorded(list@) == recorded(current_guesses@).push(*guess)
        },
{
    match (current_guesses[0], current_guesses[1], current_guesses[2]) {
        (None, None, None) => Ok([Some(*guess), None, None]),
        (Some(a), None, None) => Ok([Some(a), Some(*guess), None]),
        (Some(a), Some(b), None) => Ok([Some(a), Some(b), Some(*guess)]),
        (Some(_), Some(_), Some(_)) => Err(GameError::GameFinished),
        _ => Err(GameError::GameInvalid),
    }
}

} // verus!
