//! What holds of every game and of every run of guesses.
//!
//! The statements are about the functions that the engine's contracts are
//! written in, so each one holds of the engine itself.

use crate::engine::errors::GameError;
use crate::engine::events::GameEvent;
use crate::engine::game::{
    after_append, first_open, in_order, recorded, status_of, Game, GameStatus, MAX_TARGET,
    MIN_TARGET, NUMBER_OF_GUESSES,
};
use crate::engine::{
    answer_to_create, answer_to_guess, guess_outcome, info_of, repo_after_create,
    repo_after_guess, repo_wf,
};
use vstd::prelude::*;

verus! {

/// A game is sound right after its creation: it has no guess on record, it
/// is ongoing, and its target is the one drawn, which lies in range.
pub proof fn created_game_is_fresh(id: u128, target: u8)
    requires
        MIN_TARGET <= target <= MAX_TARGET,
    ensures
        Game::fresh(id, target).wf(),
        Game::fresh(id, target).status == GameStatus::Ongoing,
        recorded(Game::fresh(id, target).guesses@) == Seq::<u8>::empty(),
        Game::fresh(id, target).guesses@ == seq![None::<u8>, None, None],
        1 <= Game::fresh(id, target).number <= 10,
{
    assert(Game::fresh(id, target).guesses@ =~= seq![None::<u8>, None, None]);
    assert(recorded(Game::fresh(id, target).guesses@) =~= Seq::<u8>::empty());
}

/// Creating a game keeps the stored games sound, stores the new game under
/// its id and shows it with empty slots; asking for it right away shows the
/// same.
pub proof fn creation_stores_a_fresh_game(repo: Map<u128, Game>, id: u128, target: u8)
    requires
        repo_wf(repo),
        MIN_TARGET <= target <= MAX_TARGET,
    ensures
        repo_wf(repo_after_create(repo, id, target)),
        repo_after_create(repo, id, target)[id] == Game::fresh(id, target),
        answer_to_create(id, target) matches Ok(GameEvent::GameCreated(shown)) && {
            &&& shown.id == id
            &&& shown.guesses@ == seq![None::<u8>, None, None]
            &&& shown.status == GameStatus::Ongoing
            &&& info_of(repo_after_create(repo, id, target), id) == Ok::<GameEvent, GameError>(
                GameEvent::GameInfoProvided(shown),
            )
        },
{
    created_game_is_fresh(id, target);
}

/// In a sound game the status says exactly what the record of guesses
/// shows: won, if the target is among them; lost, if three were made and
/// none was the target; ongoing otherwise. There are never more than three.
pub proof fn status_follows_record(game: Game)
    requires
        game.wf(),
    ensures
        recorded(game.guesses@).len() <= NUMBER_OF_GUESSES,
        game.status == GameStatus::Won <==> recorded(game.guesses@).contains(game.number),
        game.status == GameStatus::Lost <==> recorded(game.guesses@).len() == NUMBER_OF_GUESSES
            && !recorded(game.guesses@).contains(game.number),
{
    let slots = game.guesses@;
    let made = recorded(slots);
    if slots.contains(Some(game.number)) {
        let i = choose|i: int| 0 <= i < slots.len() && slots[i] == Some(game.number);
        assert(made[i] == game.number);
    }
    if made.contains(game.number) {
        let i = choose|i: int| 0 <= i < made.len() && made[i] == game.number;
        assert(slots[i] == Some(game.number));
    }
}

/// A guess that is accepted leaves a sound game sound, keeps its id and its
/// target, and adds the guess to the end of the record: no earlier guess is
/// dropped or moved.
pub proof fn guess_extends_record(game: Game, guess: u8)
    requires
        game.wf(),
        game.after_guess(guess) is Ok,
    ensures
        game.after_guess(guess)->Ok_0.wf(),
        game.after_guess(guess)->Ok_0.id == game.id,
        game.after_guess(guess)->Ok_0.number == game.number,
        recorded(game.after_guess(guess)->Ok_0.guesses@) == recorded(game.guesses@).push(guess),
{
    let next = game.after_guess(guess)->Ok_0;
    assert(recorded(next.guesses@) =~= recorded(game.guesses@).push(guess));
}

/// A guess is accepted exactly while the game is ongoing, and a sound game
/// never has a gap in its slots to complain about.
pub proof fn guess_accepted_iff_ongoing(game: Game, guess: u8)
    requires
        game.wf(),
    ensures
        game.after_guess(guess) is Ok <==> game.status == GameStatus::Ongoing,
        game.after_guess(guess) is Err ==> game.after_guess(guess) == Err::<Game, GameError>(
            GameError::GameFinished,
        ),
{
}

/// Won and lost are final: a decided game whose slots have no gap turns
/// every guess down with `GameFinished`, and the stored games stay as they
/// were.
pub proof fn decided_game_is_final(repo: Map<u128, Game>, id: u128, guess: u8)
    requires
        repo.contains_key(id),
        in_order(repo[id].guesses@),
        repo[id].status != GameStatus::Ongoing,
    ensures
        answer_to_guess(repo, id, guess) == Err::<GameEvent, GameError>(GameError::GameFinished),
        repo_after_guess(repo, id, guess) == repo,
{
}

/// A gap in the stored slots is reported as such, whatever the stored
/// status says: the guess is turned down with `GameInvalid`, and the stored
/// games stay as they were.
pub proof fn gap_is_invalid(repo: Map<u128, Game>, id: u128, guess: u8)
    requires
        repo.contains_key(id),
        !in_order(repo[id].guesses@),
    ensures
        answer_to_guess(repo, id, guess) == Err::<GameEvent, GameError>(GameError::GameInvalid),
        repo_after_guess(repo, id, guess) == repo,
{
}

/// Which answer a guess at a stored game gets is settled in a fixed order:
/// a gap in the slots first, then full slots, then a decided game; only an
/// ongoing game with an open slot and no gap accepts the guess.
pub proof fn guess_answer_by_cases(game: Game, guess: u8)
    ensures
        !in_order(game.guesses@) ==> game.after_guess(guess) == Err::<Game, GameError>(
            GameError::GameInvalid,
        ),
        in_order(game.guesses@) && first_open(game.guesses@) == NUMBER_OF_GUESSES
            ==> game.after_guess(guess) == Err::<Game, GameError>(GameError::GameFinished),
        in_order(game.guesses@) && first_open(game.guesses@) < NUMBER_OF_GUESSES && game.status
            != GameStatus::Ongoing ==> game.after_guess(guess) == Err::<Game, GameError>(
            GameError::GameFinished,
        ),
        in_order(game.guesses@) && first_open(game.guesses@) < NUMBER_OF_GUESSES && game.status
            == GameStatus::Ongoing ==> game.after_guess(guess) is Ok,
{
}

/// A fourth guess always fails: whatever a game's three full slots hold, a
/// further guess is turned down with `GameFinished` and the stored games
/// stay as they were.
pub proof fn full_slots_take_no_guess(repo: Map<u128, Game>, id: u128, guess: u8)
    requires
        repo.contains_key(id),
        first_open(repo[id].guesses@) == NUMBER_OF_GUESSES,
    ensures
        after_append(repo[id].guesses@, guess) == Err::<Seq<Option<u8>>, GameError>(
            GameError::GameFinished,
        ),
        answer_to_guess(repo, id, guess) == Err::<GameEvent, GameError>(GameError::GameFinished),
        repo_after_guess(repo, id, guess) == repo,
{
}

/// A guess at an id under which nothing is stored fails with
/// `GameNotFound`, as does asking for that game, and nothing changes.
pub proof fn unknown_id_is_not_found(repo: Map<u128, Game>, id: u128, guess: u8)
    requires
        !repo.contains_key(id),
    ensures
        info_of(repo, id) == Err::<GameEvent, GameError>(GameError::GameNotFound),
        answer_to_guess(repo, id, guess) == Err::<GameEvent, GameError>(GameError::GameNotFound),
        repo_after_guess(repo, id, guess) == repo,
{
}

/// A guess keeps the stored games sound and touches no game but the one it
/// names.
pub proof fn guess_keeps_repo_sound(repo: Map<u128, Game>, id: u128, guess: u8)
    requires
        repo_wf(repo),
    ensures
        repo_wf(repo_after_guess(repo, id, guess)),
        repo_after_guess(repo, id, guess).dom() == repo.dom(),
        forall|other: u128|
            other != id && repo.contains_key(other) ==> #[trigger] repo_after_guess(
                repo,
                id,
                guess,
            )[other] == repo[other],
{
    if guess_outcome(repo, id, guess) is Ok {
        guess_extends_record(repo[id], guess);
        assert(repo_after_guess(repo, id, guess).dom() =~= repo.dom());
    }
}

/// Guessing the target of an ongoing game wins it, whichever slot the guess
/// falls into: the answer is `GameWon`, and the slots it shows hold the
/// target.
pub proof fn guessing_target_wins(repo: Map<u128, Game>, id: u128)
    requires
        repo_wf(repo),
        repo.contains_key(id),
        repo[id].status == GameStatus::Ongoing,
    ensures
        answer_to_guess(repo, id, repo[id].number) matches Ok(GameEvent::GameWon(shown)) && {
            &&& shown.id == id
            &&& shown.status == GameStatus::Won
            &&& shown.guesses@.contains(Some(repo[id].number))
            &&& shown.guesses@[first_open(repo[id].guesses@)] == Some(repo[id].number)
        },
        repo_after_guess(repo, id, repo[id].number)[id].status == GameStatus::Won,
{
    let game = repo[id];
    let slots = game.guesses@;
    let next = game.after_guess(game.number)->Ok_0;
    assert(next.guesses@[first_open(slots)] == Some(game.number));
}

/// A hit in the last slot wins: with two guesses on record, guessing the
/// target gives `GameWon` and not `GameLost`, though the slots are full.
pub proof fn last_guess_can_win(repo: Map<u128, Game>, id: u128)
    requires
        repo_wf(repo),
        repo.contains_key(id),
        repo[id].status == GameStatus::Ongoing,
        first_open(repo[id].guesses@) == NUMBER_OF_GUESSES - 1,
    ensures
        answer_to_guess(repo, id, repo[id].number) matches Ok(GameEvent::GameWon(shown)) && {
            &&& shown.status == GameStatus::Won
            &&& first_open(shown.guesses@) == NUMBER_OF_GUESSES
            &&& shown.guesses@[NUMBER_OF_GUESSES - 1] == Some(repo[id].number)
        },
{
    guessing_target_wins(repo, id);
}

/// Full slots with a hit give `Won`, never `Lost`, wherever the hit stands.
pub proof fn hit_counts_before_fullness(slots: Seq<Option<u8>>, target: u8)
    requires
        slots.len() == NUMBER_OF_GUESSES,
        slots.contains(Some(target)),
    ensures
        status_of(slots, target) == GameStatus::Won,
{
}

/// Three wrong guesses in a row lose a new game on the third: the first two
/// are answered `GuessEvaluated`, the third `GameLost`, with all three
/// guesses in the slots in the order made and none of them the target. The
/// game is then final.
pub proof fn three_misses_lose(
    repo: Map<u128, Game>,
    id: u128,
    target: u8,
    first: u8,
    second: u8,
    third: u8,
)
    requires
        repo.contains_key(id),
        repo[id] == Game::fresh(id, target),
        first != target,
        second != target,
        third != target,
    ensures
        ({
            let after_first = repo_after_guess(repo, id, first);
            let after_second = repo_after_guess(after_first, id, second);
            let after_third = repo_after_guess(after_second, id, third);
            &&& answer_to_guess(repo, id, first) matches Ok(GameEvent::GuessEvaluated(shown))
                && shown.guesses@ == seq![Some(first), None, None]
                && shown.status == GameStatus::Ongoing
            &&& answer_to_guess(after_first, id, second) matches Ok(
                GameEvent::GuessEvaluated(shown),
            ) && shown.guesses@ == seq![Some(first), Some(second), None]
                && shown.status == GameStatus::Ongoing
            &&& answer_to_guess(after_second, id, third) matches Ok(GameEvent::GameLost(shown))
                && shown.guesses@ == seq![Some(first), Some(second), Some(third)]
                && shown.status == GameStatus::Lost
                && !shown.guesses@.contains(Some(target))
            &&& after_third[id].status == GameStatus::Lost
            &&& forall|fourth: u8|
                #[trigger] answer_to_guess(after_third, id, fourth) == Err::<GameEvent, GameError>(
                    GameError::GameFinished,
                ) && repo_after_guess(after_third, id, fourth) == after_third
        }),
{
    let after_first = repo_after_guess(repo, id, first);
    let after_second = repo_after_guess(after_first, id, second);
    let after_third = repo_after_guess(after_second, id, third);
    let none: Option<u8> = None;
    assert(repo[id].guesses@ =~= seq![none, none, none]);
    assert(after_first[id].guesses@ =~= seq![Some(first), none, none]);
    assert(after_second[id].guesses@ =~= seq![Some(first), Some(second), none]);
    assert(after_third[id].guesses@ =~= seq![Some(first), Some(second), Some(third)]);
}

} // verus!
