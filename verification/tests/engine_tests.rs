use guessing_game::engine::errors::GameError;
use guessing_game::engine::events::{ActorEvent, GameEvent};
use guessing_game::engine::game::{GameProjection, GameStatus};
use guessing_game::engine::Engine;
use uuid::Uuid;

const ID: u128 = 0x5f85938b_b7fe_488f_8dc5_eed7f573d94d;

fn game_with_target(engine: &mut Engine, target: u8) -> GameProjection {
    match engine.create_game_with(ID, target) {
        Ok(GameEvent::GameCreated(game)) => game,
        _ => panic!("Did not receive new game after processing event"),
    }
}

fn wrong_guess_for(target: u8) -> u8 {
    ((target + 1) % 10) + 1
}

#[test]
fn test_create_new_game() {
    let mut engine = Engine::new();
    let event = engine.process(ActorEvent::GameRequested);

    match event {
        Ok(GameEvent::GameCreated(game)) => {
            assert_eq!([None, None, None], game.guesses);
            assert_eq!(GameStatus::Ongoing, game.status);
            let below = engine.process(ActorEvent::GuessSubmitted { guess: 0, id: game.id });
            let above = engine.process(ActorEvent::GuessSubmitted { guess: 11, id: game.id });
            assert!(matches!(below, Ok(GameEvent::GuessEvaluated(_))));
            assert!(matches!(above, Ok(GameEvent::GuessEvaluated(_))));
        }
        _ => panic!("Did not receive new game after processing event"),
    }
}

#[test]
fn test_add_wrong_guess() {
    for target in 1..=10u8 {
        let mut engine = Engine::new();
        let game = game_with_target(&mut engine, target);
        let guess = wrong_guess_for(target);
        let event = engine.process(ActorEvent::GuessSubmitted { guess, id: game.id });

        match event {
            Ok(GameEvent::GuessEvaluated(GameProjection { guesses, .. })) => {
                assert_eq!([Some(guess), None, None], guesses);
            }
            _ => panic!("Wrong guess was not evaluated correctly"),
        }
    }
}

#[test]
fn test_add_correct_guess() {
    for target in 1..=10u8 {
        let mut engine = Engine::new();
        let game = game_with_target(&mut engine, target);
        let guess = target;
        let event = engine.process(ActorEvent::GuessSubmitted { guess, id: game.id });

        match event {
            Ok(GameEvent::GameWon(GameProjection { guesses, .. })) => {
                assert_eq!([Some(guess), None, None], guesses);
            }
            _ => panic!("Correct guess was not evaluated correctly"),
        }
    }
}

#[test]
fn test_exhaust_guesses() {
    for target in 1..=10u8 {
        let mut engine = Engine::new();
        let game = game_with_target(&mut engine, target);
        let guess = wrong_guess_for(target);

        engine.process(ActorEvent::GuessSubmitted { guess, id: game.id }).unwrap();
        engine.process(ActorEvent::GuessSubmitted { guess, id: game.id }).unwrap();
        let event = engine.process(ActorEvent::GuessSubmitted { guess, id: game.id });

        match event {
            Ok(GameEvent::GameLost(GameProjection { guesses, .. })) => {
                assert_eq!([Some(guess), Some(guess), Some(guess)], guesses);
            }
            _ => panic!("Game was not lost after exhasuting guesses"),
        }
    }
}

#[test]
fn test_win_game_on_last_guess() {
    for target in 1..=10u8 {
        let mut engine = Engine::new();
        let game = game_with_target(&mut engine, target);
        let guess = wrong_guess_for(target);

        engine.process(ActorEvent::GuessSubmitted { guess, id: game.id }).unwrap();
        engine.process(ActorEvent::GuessSubmitted { guess, id: game.id }).unwrap();
        let event = engine.process(ActorEvent::GuessSubmitted { guess: target, id: game.id });

        match event {
            Ok(GameEvent::GameWon(GameProjection { guesses, .. })) => {
                assert_eq!([Some(guess), Some(guess), Some(target)], guesses);
            }
            _ => panic!("Game was not lost after exhasuting guesses"),
        }
    }
}

#[test]
fn test_game_finished_error() {
    for target in 1..=10u8 {
        let mut engine = Engine::new();
        let game = game_with_target(&mut engine, target);
        let guess = wrong_guess_for(target);

        engine.process(ActorEvent::GuessSubmitted { guess, id: game.id }).unwrap();
        engine.process(ActorEvent::GuessSubmitted { guess, id: game.id }).unwrap();
        engine.process(ActorEvent::GuessSubmitted { guess, id: game.id }).unwrap();

        let event = engine.process(ActorEvent::GuessSubmitted { guess, id: game.id });

        match event {
            Err(GameError::GameFinished) => (),
            _ => panic!("Did not get game not found error for inexistent game"),
        }
    }
}

#[test]
fn test_game_not_found_error() {
    let mut engine = Engine::new();
    let event = engine.process(ActorEvent::GameInfoRequested { id: Uuid::new_v4().as_u128() });

    match event {
        Err(GameError::GameNotFound) => (),
        _ => panic!("Did not get game not found error for inexistent game"),
    }
}

#[test]
fn wrong_guess_is_never_the_target() {
    for target in 1..=10u8 {
        let guess = wrong_guess_for(target);
        assert_ne!(target, guess);
        assert!((1..=10).contains(&guess));
    }
}

#[test]
fn two_misses_then_a_hit_win_the_game() {
    let mut engine = Engine::new();
    let created = engine.create_game_with(ID, 7);
    assert_eq!(
        Ok(GameEvent::GameCreated(GameProjection {
            id: ID,
            guesses: [None, None, None],
            status: GameStatus::Ongoing,
        })),
        created
    );

    let first = engine.process(ActorEvent::GuessSubmitted { id: ID, guess: 3 });
    assert_eq!(
        Ok(GameEvent::GuessEvaluated(GameProjection {
            id: ID,
            guesses: [Some(3), None, None],
            status: GameStatus::Ongoing,
        })),
        first
    );

    let second = engine.process(ActorEvent::GuessSubmitted { id: ID, guess: 3 });
    assert_eq!(
        Ok(GameEvent::GuessEvaluated(GameProjection {
            id: ID,
            guesses: [Some(3), Some(3), None],
            status: GameStatus::Ongoing,
        })),
        second
    );

    let third = engine.process(ActorEvent::GuessSubmitted { id: ID, guess: 7 });
    assert_eq!(
        Ok(GameEvent::GameWon(GameProjection {
            id: ID,
            guesses: [Some(3), Some(3), Some(7)],
            status: GameStatus::Won,
        })),
        third
    );
}

#[test]
fn info_for_an_id_never_created_is_not_found() {
    let mut engine = Engine::new();
    engine.create_game_with(ID, 7).unwrap();
    assert_eq!(Err(GameError::GameNotFound), engine.get_info(ID + 1));
    assert_eq!(
        Err(GameError::GameNotFound),
        engine.process(ActorEvent::GameInfoRequested { id: ID + 1 })
    );
    assert_eq!(
        Err(GameError::GameNotFound),
        engine.process(ActorEvent::GuessSubmitted { id: ID + 1, guess: 7 })
    );
    assert_eq!(Err(GameError::GameNotFound), Engine::new().get_info(ID));
}

#[test]
fn three_misses_lose_and_a_fourth_guess_changes_nothing() {
    let mut engine = Engine::new();
    engine.create_game_with(ID, 7).unwrap();
    engine.submit_guess(ID, 3).unwrap();
    engine.submit_guess(ID, 3).unwrap();
    let third = engine.submit_guess(ID, 3);
    let lost = GameProjection { id: ID, guesses: [Some(3), Some(3), Some(3)], status: GameStatus::Lost };
    assert_eq!(Ok(GameEvent::GameLost(lost)), third);

    let fourth = engine.submit_guess(ID, 3);
    assert_eq!(Err(GameError::GameFinished), fourth);
    assert_eq!(Ok(GameEvent::GameInfoProvided(lost)), engine.get_info(ID));

    let late_hit = engine.submit_guess(ID, 7);
    assert_eq!(Err(GameError::GameFinished), late_hit);
    assert_eq!(Ok(GameEvent::GameInfoProvided(lost)), engine.get_info(ID));
}

#[test]
fn three_different_misses_are_kept_in_order() {
    let mut engine = Engine::new();
    engine.create_game_with(ID, 10).unwrap();
    engine.submit_guess(ID, 1).unwrap();
    engine.submit_guess(ID, 9).unwrap();
    let third = engine.submit_guess(ID, 0);
    assert_eq!(
        Ok(GameEvent::GameLost(GameProjection {
            id: ID,
            guesses: [Some(1), Some(9), Some(0)],
            status: GameStatus::Lost,
        })),
        third
    );
}

#[test]
fn a_won_game_takes_no_further_guess() {
    let mut engine = Engine::new();
    engine.create_game_with(ID, 4).unwrap();
    let won = GameProjection { id: ID, guesses: [Some(4), None, None], status: GameStatus::Won };
    assert_eq!(Ok(GameEvent::GameWon(won)), engine.submit_guess(ID, 4));

    assert_eq!(Err(GameError::GameFinished), engine.submit_guess(ID, 5));
    assert_eq!(Err(GameError::GameFinished), engine.submit_guess(ID, 4));
    assert_eq!(Ok(GameEvent::GameInfoProvided(won)), engine.get_info(ID));
}

#[test]
fn a_hit_on_the_second_guess_wins() {
    let mut engine = Engine::new();
    engine.create_game_with(ID, 1).unwrap();
    engine.submit_guess(ID, 10).unwrap();
    assert_eq!(
        Ok(GameEvent::GameWon(GameProjection {
            id: ID,
            guesses: [Some(10), Some(1), None],
            status: GameStatus::Won,
        })),
        engine.submit_guess(ID, 1)
    );
}

#[test]
fn info_shows_the_game_and_changes_nothing() {
    let mut engine = Engine::new();
    engine.create_game_with(ID, 7).unwrap();
    let fresh = GameProjection { id: ID, guesses: [None, None, None], status: GameStatus::Ongoing };
    assert_eq!(Ok(GameEvent::GameInfoProvided(fresh)), engine.get_info(ID));
    assert_eq!(
        Ok(GameEvent::GameInfoProvided(fresh)),
        engine.process(ActorEvent::GameInfoRequested { id: ID })
    );

    engine.submit_guess(ID, 2).unwrap();
    let after = GameProjection { id: ID, guesses: [Some(2), None, None], status: GameStatus::Ongoing };
    assert_eq!(Ok(GameEvent::GameInfoProvided(after)), engine.get_info(ID));
    assert_eq!(Ok(GameEvent::GameInfoProvided(after)), engine.get_info(ID));
}

#[test]
fn games_do_not_touch_each_other() {
    let mut engine = Engine::new();
    engine.create_game_with(1, 7).unwrap();
    engine.create_game_with(2, 3).unwrap();
    engine.submit_guess(1, 3).unwrap();

    assert_eq!(
        Ok(GameEvent::GameInfoProvided(GameProjection {
            id: 2,
            guesses: [None, None, None],
            status: GameStatus::Ongoing,
        })),
        engine.get_info(2)
    );
    assert_eq!(
        Ok(GameEvent::GameWon(GameProjection {
            id: 2,
            guesses: [Some(3), None, None],
            status: GameStatus::Won,
        })),
        engine.submit_guess(2, 3)
    );
    assert_eq!(
        Ok(GameEvent::GameInfoProvided(GameProjection {
            id: 1,
            guesses: [Some(3), None, None],
            status: GameStatus::Ongoing,
        })),
        engine.get_info(1)
    );
}

#[test]
fn creating_under_a_taken_id_replaces_the_game() {
    let mut engine = Engine::new();
    engine.create_game_with(ID, 7).unwrap();
    engine.submit_guess(ID, 7).unwrap();
    engine.create_game_with(ID, 2).unwrap();

    assert_eq!(
        Ok(GameEvent::GameInfoProvided(GameProjection {
            id: ID,
            guesses: [None, None, None],
            status: GameStatus::Ongoing,
        })),
        engine.get_info(ID)
    );
    assert_eq!(
        Ok(GameEvent::GuessEvaluated(GameProjection {
            id: ID,
            guesses: [Some(7), None, None],
            status: GameStatus::Ongoing,
        })),
        engine.submit_guess(ID, 7)
    );
}

#[test]
fn targets_at_both_ends_of_the_range_can_be_won() {
    for target in [1u8, 10u8] {
        let mut engine = Engine::new();
        engine.create_game_with(ID, target).unwrap();
        assert!(matches!(engine.submit_guess(ID, target), Ok(GameEvent::GameWon(_))));
    }
}

#[test]
fn created_game_is_stored_under_the_id_it_shows() {
    let mut engine = Engine::new();
    let created = match engine.create_game() {
        Ok(GameEvent::GameCreated(game)) => game,
        _ => panic!("creation did not answer with the new game"),
    };
    assert_eq!([None, None, None], created.guesses);
    assert_eq!(GameStatus::Ongoing, created.status);
    assert_eq!(Ok(GameEvent::GameInfoProvided(created)), engine.get_info(created.id));
}

#[test]
fn created_ids_are_random_uuids() {
    let mut engine = Engine::new();
    let mut seen = Vec::new();
    for _ in 0..64 {
        let id = match engine.process(ActorEvent::GameRequested) {
            Ok(GameEvent::GameCreated(game)) => game.id,
            _ => panic!("creation did not answer with the new game"),
        };
        let uuid = Uuid::from_u128(id);
        assert_eq!(4, uuid.get_version_num());
        assert_eq!(uuid::Variant::RFC4122, uuid.get_variant());
        assert_eq!(
            0x0000_0000_0000_4000_8000_0000_0000_0000,
            id & 0x0000_0000_0000_f000_c000_0000_0000_0000
        );
        assert!(!seen.contains(&id));
        seen.push(id);
    }
}

#[test]
fn guesses_outside_the_range_never_win_a_created_game() {
    let mut engine = Engine::new();
    for round in 0..300 {
        let id = match engine.create_game() {
            Ok(GameEvent::GameCreated(game)) => game.id,
            _ => panic!("creation did not answer with the new game"),
        };
        let outside = if round % 2 == 0 { [0u8, 11, 255] } else { [11u8, 0, 12] };
        assert!(matches!(engine.submit_guess(id, outside[0]), Ok(GameEvent::GuessEvaluated(_))));
        assert!(matches!(engine.submit_guess(id, outside[1]), Ok(GameEvent::GuessEvaluated(_))));
        assert!(matches!(engine.submit_guess(id, outside[2]), Ok(GameEvent::GameLost(_))));
    }
}

#[test]
fn every_target_in_the_range_is_drawn() {
    let mut engine = Engine::new();
    let mut won_with = [false; 11];
    for round in 0..6000usize {
        let id = match engine.create_game() {
            Ok(GameEvent::GameCreated(game)) => game.id,
            _ => panic!("creation did not answer with the new game"),
        };
        let guess = (round % 10) as u8 + 1;
        match engine.submit_guess(id, guess) {
            Ok(GameEvent::GameWon(game)) => {
                assert_eq!([Some(guess), None, None], game.guesses);
                won_with[guess as usize] = true;
            }
            Ok(GameEvent::GuessEvaluated(game)) => {
                assert_eq!([Some(guess), None, None], game.guesses);
            }
            _ => panic!("a first guess was neither a hit nor a miss"),
        }
    }
    for target in 1..=10usize {
        assert!(won_with[target], "no game with target {} in 600 tries", target);
    }
}
