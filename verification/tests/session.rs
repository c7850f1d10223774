use game_session::coordinator::GameSession;
use game_session::ids::{ActorId, MessageId};
use game_session::session::{is_full_match, is_valid_guess};
use game_session::session_io::{
    Effect, GameSessionAction, GameSessionError, GameSessionEvent, GameSessionInit,
    GameSessionState, GameStatus, MessageContext, SessionInfo, SessionStatus, UserStatus,
    WordleAction, WordleEvent, MAX_TRIES, TIMEOUT_DELAY, WORD_LENGTH,
};

fn actor(value: u8) -> ActorId {
    let mut bytes = [0u8; 32];
    bytes[0] = value;
    ActorId::new(bytes)
}

fn message(value: u8) -> MessageId {
    let mut bytes = [0u8; 32];
    bytes[31] = value;
    MessageId::new(bytes)
}

const ORACLE: u8 = 1;
const PROGRAM: u8 = 2;
const ALICE: u8 = 10;
const BOB: u8 = 11;

fn from(user: u8, id: u8) -> MessageContext {
    MessageContext { source: actor(user), id: message(id), program: actor(PROGRAM) }
}

fn new_game() -> GameSession {
    GameSession::from(GameSessionInit { wordle_program_id: actor(ORACLE) })
}

fn guess(word: &str) -> GameSessionAction {
    GameSessionAction::CheckWord { word: word.to_string() }
}

fn answer(event: GameSessionEvent) -> Effect {
    Effect::Reply { reply: Ok(event) }
}

fn refusal(error: GameSessionError) -> Effect {
    Effect::Reply { reply: Err(error) }
}

fn checked(user: u8, correct: &[u8], contained: &[u8]) -> WordleEvent {
    WordleEvent::WordChecked {
        user: actor(user),
        correct_positions: correct.to_vec(),
        contained_in_word: contained.to_vec(),
    }
}

/// A game of `user`, started by the call `id` and open for guesses.
fn started(game: &mut GameSession, user: u8, id: u8) {
    let ctx = from(user, id);
    assert_eq!(
        game.handle(ctx, GameSessionAction::StartGame),
        Effect::Forward { request: WordleAction::StartGame { user: actor(user) } }
    );
    assert_eq!(
        game.handle_reply(WordleEvent::GameStarted { user: actor(user) }),
        Effect::Wake { message: message(id) }
    );
    assert_eq!(
        game.handle(ctx, GameSessionAction::StartGame),
        Effect::ReplyAndSchedule {
            event: GameSessionEvent::StartSuccess,
            check: GameSessionAction::CheckGameStatus { user: actor(user), session_id: message(id) },
            delay: 200,
        }
    );
}

/// One guess of `user`, carried by the call `id`, which the oracle answers
/// with `event`.
fn guessed(game: &mut GameSession, user: u8, id: u8, word: &str, event: WordleEvent) -> Effect {
    let ctx = from(user, id);
    assert_eq!(
        game.handle(ctx, guess(word)),
        Effect::Forward {
            request: WordleAction::CheckWord { user: actor(user), word: word.to_string() }
        }
    );
    assert_eq!(game.handle_reply(event), Effect::Wake { message: message(id) });
    game.handle(ctx, guess(word))
}

fn session(game: &GameSession, user: u8) -> SessionInfo {
    game.session(&actor(user)).expect("a session").clone()
}

#[test]
fn fixed_rules() {
    assert_eq!(MAX_TRIES, 6);
    assert_eq!(WORD_LENGTH, 5);
    assert_eq!(TIMEOUT_DELAY, 200);
}

#[test]
fn a_new_coordinator_has_no_session() {
    let game = new_game();
    assert_eq!(game.wordle_program_id, actor(ORACLE));
    assert!(game.session(&actor(ALICE)).is_none());
    assert_eq!(game.user_status(&actor(ALICE)), UserStatus::GameNotStarted);
    assert!(game.state().game_sessions.is_empty());
}

#[test]
fn first_start_creates_the_session_and_asks_the_oracle() {
    let mut game = new_game();
    let effect = game.handle(from(ALICE, 1), GameSessionAction::StartGame);
    assert_eq!(effect, Effect::Forward { request: WordleAction::StartGame { user: actor(ALICE) } });
    assert_eq!(
        session(&game, ALICE),
        SessionInfo {
            session_id: message(1),
            original_msg_id: message(1),
            send_to_wordle_msg_id: message(1),
            tries: 0,
            session_status: SessionStatus::WaitWordleStartReply,
        }
    );
    assert_eq!(game.user_status(&actor(ALICE)), UserStatus::GameNotStarted);
}

#[test]
fn oracle_answer_is_kept_for_the_parked_call() {
    let mut game = new_game();
    game.handle(from(ALICE, 1), GameSessionAction::StartGame);
    let event = WordleEvent::GameStarted { user: actor(ALICE) };
    assert_eq!(game.handle_reply(event.clone()), Effect::Wake { message: message(1) });
    let kept = session(&game, ALICE);
    assert_eq!(kept.session_status, SessionStatus::ReplyReceived(event));
    assert!(kept.send_to_wordle_msg_id.is_zero());
    assert_eq!(kept.original_msg_id, message(1));
}

#[test]
fn start_twice_in_succession_asks_the_oracle_once() {
    let mut game = new_game();
    let first = game.handle(from(ALICE, 1), GameSessionAction::StartGame);
    assert!(matches!(first, Effect::Forward { .. }));
    let before = session(&game, ALICE);

    let second = game.handle(from(ALICE, 2), GameSessionAction::StartGame);
    assert_eq!(second, answer(GameSessionEvent::StartSuccess));
    assert_eq!(session(&game, ALICE), before);

    // The first call is answered the same when the oracle has answered.
    game.handle_reply(WordleEvent::GameStarted { user: actor(ALICE) });
    let resumed = game.handle(from(ALICE, 1), GameSessionAction::StartGame);
    assert!(matches!(
        resumed,
        Effect::ReplyAndSchedule { event: GameSessionEvent::StartSuccess, .. }
    ));

    // And so is any later one, while the game is on.
    let before = session(&game, ALICE);
    assert_eq!(
        game.handle(from(ALICE, 3), GameSessionAction::StartGame),
        answer(GameSessionEvent::StartSuccess)
    );
    assert_eq!(session(&game, ALICE), before);
}

#[test]
fn start_between_answer_and_resumption_does_not_take_the_answer() {
    let mut game = new_game();
    game.handle(from(ALICE, 1), GameSessionAction::StartGame);
    game.handle_reply(WordleEvent::GameStarted { user: actor(ALICE) });
    let before = session(&game, ALICE);
    assert_eq!(
        game.handle(from(ALICE, 2), GameSessionAction::StartGame),
        answer(GameSessionEvent::StartSuccess)
    );
    assert_eq!(session(&game, ALICE), before);
}

#[test]
fn hello_against_house() {
    let mut game = new_game();
    started(&mut game, ALICE, 1);
    let effect = guessed(&mut game, ALICE, 2, "hello", checked(ALICE, &[0], &[1, 4]));
    assert_eq!(
        effect,
        answer(GameSessionEvent::CheckWordResult {
            correct_positions: vec![0],
            contained_in_word: vec![1, 4],
            tries: 1,
            game_over: None,
        })
    );
    let after = session(&game, ALICE);
    assert_eq!(after.tries, 1);
    assert_eq!(after.session_status, SessionStatus::WaitUserInput);
    assert_eq!(game.user_status(&actor(ALICE)), UserStatus::GameStarted);
}

#[test]
fn guess_of_six_letters_is_invalid() {
    let mut game = new_game();
    started(&mut game, ALICE, 1);
    guessed(&mut game, ALICE, 2, "hello", checked(ALICE, &[0], &[1, 4]));
    let before = session(&game, ALICE);
    assert_eq!(before.tries, 1);

    let effect = game.handle(from(ALICE, 3), guess("wrong1"));
    assert_eq!(effect, refusal(GameSessionError::InvalidGuess));
    assert_eq!(session(&game, ALICE), before);
}

#[test]
fn guesses_outside_the_alphabet_are_invalid() {
    for word in ["", "hous", "houses", "HOUSE", "hou e", "hous3", "h\u{f6}use", "ho-se", "{ouse", "`ouse"] {
        assert!(!is_valid_guess(word), "{:?}", word);
        let mut game = new_game();
        started(&mut game, ALICE, 1);
        let before = session(&game, ALICE);
        assert_eq!(
            game.handle(from(ALICE, 2), guess(word)),
            refusal(GameSessionError::InvalidGuess),
            "{:?}",
            word
        );
        assert_eq!(session(&game, ALICE), before);
    }
    for word in ["house", "aaaaa", "zzzzz", "azbyc"] {
        assert!(is_valid_guess(word), "{:?}", word);
    }
}

#[test]
fn full_match_needs_every_position() {
    assert!(is_full_match(&vec![0, 1, 2, 3, 4]));
    assert!(is_full_match(&vec![4, 3, 2, 1, 0]));
    assert!(is_full_match(&vec![0, 1, 2, 3, 4, 9]));
    assert!(!is_full_match(&vec![0, 1, 2, 3]));
    assert!(!is_full_match(&vec![0, 0, 0, 0, 0]));
    assert!(!is_full_match(&vec![1, 2, 3, 4, 5]));
    assert!(!is_full_match(&vec![]));
}

#[test]
fn exact_guess_wins_at_the_first_try() {
    let mut game = new_game();
    started(&mut game, ALICE, 1);
    let effect = guessed(&mut game, ALICE, 2, "house", checked(ALICE, &[0, 1, 2, 3, 4], &[]));
    assert_eq!(
        effect,
        answer(GameSessionEvent::CheckWordResult {
            correct_positions: vec![0, 1, 2, 3, 4],
            contained_in_word: vec![],
            tries: 1,
            game_over: Some(GameStatus::Win),
        })
    );
    assert_eq!(session(&game, ALICE).session_status, SessionStatus::GameOver(GameStatus::Win));
    assert_eq!(game.user_status(&actor(ALICE)), UserStatus::GameOver(GameStatus::Win));
}

#[test]
fn exact_guess_wins_at_the_last_try() {
    let mut game = new_game();
    started(&mut game, ALICE, 1);
    for id in 2..7 {
        guessed(&mut game, ALICE, id, "wrong", checked(ALICE, &[], &[2]));
    }
    assert_eq!(session(&game, ALICE).tries, 5);
    let effect = guessed(&mut game, ALICE, 7, "house", checked(ALICE, &[0, 1, 2, 3, 4], &[]));
    assert_eq!(
        effect,
        answer(GameSessionEvent::CheckWordResult {
            correct_positions: vec![0, 1, 2, 3, 4],
            contained_in_word: vec![],
            tries: 6,
            game_over: Some(GameStatus::Win),
        })
    );
    let won = session(&game, ALICE);
    assert_eq!(won.session_status, SessionStatus::GameOver(GameStatus::Win));

    // A guess after that finds the game won, not lost.
    assert_eq!(
        game.handle(from(ALICE, 8), guess("house")),
        answer(GameSessionEvent::GameOver(GameStatus::Win))
    );
    assert_eq!(session(&game, ALICE), won);
}

#[test]
fn sixth_wrong_guess_loses_and_the_seventh_is_not_sent() {
    let mut game = new_game();
    started(&mut game, ALICE, 1);
    for id in 2..7 {
        let effect = guessed(&mut game, ALICE, id, "wrong", checked(ALICE, &[], &[2]));
        assert_eq!(
            effect,
            answer(GameSessionEvent::CheckWordResult {
                correct_positions: vec![],
                contained_in_word: vec![2],
                tries: id - 1,
                game_over: None,
            })
        );
    }
    let effect = guessed(&mut game, ALICE, 7, "wrong", checked(ALICE, &[], &[2]));
    assert_eq!(
        effect,
        answer(GameSessionEvent::CheckWordResult {
            correct_positions: vec![],
            contained_in_word: vec![2],
            tries: 6,
            game_over: Some(GameStatus::Lose),
        })
    );
    let lost = session(&game, ALICE);
    assert_eq!(lost.tries, 6);
    assert_eq!(lost.session_status, SessionStatus::GameOver(GameStatus::Lose));

    let seventh = game.handle(from(ALICE, 8), guess("house"));
    assert_eq!(seventh, answer(GameSessionEvent::GameOver(GameStatus::Lose)));
    assert_eq!(session(&game, ALICE), lost);
}

#[test]
fn session_with_no_try_left_loses_without_asking() {
    let mut session = SessionInfo {
        session_id: message(1),
        original_msg_id: message(1),
        send_to_wordle_msg_id: MessageId::zero(),
        tries: 6,
        session_status: SessionStatus::WaitUserInput,
    };
    let effect = session.check_word(actor(ALICE), message(2), "house".to_string());
    assert_eq!(effect, answer(GameSessionEvent::GameOver(GameStatus::Lose)));
    assert_eq!(session.tries, 6);
    assert_eq!(session.session_status, SessionStatus::GameOver(GameStatus::Lose));
    assert_eq!(session.original_msg_id, message(1));
}

#[test]
fn count_of_tries_stops_at_the_largest_value() {
    let mut session = SessionInfo {
        session_id: message(1),
        original_msg_id: message(2),
        send_to_wordle_msg_id: MessageId::zero(),
        tries: 255,
        session_status: SessionStatus::ReplyReceived(checked(ALICE, &[1], &[])),
    };
    let effect = session.check_word(actor(ALICE), message(2), "house".to_string());
    assert_eq!(
        effect,
        answer(GameSessionEvent::CheckWordResult {
            correct_positions: vec![1],
            contained_in_word: vec![],
            tries: 255,
            game_over: Some(GameStatus::Lose),
        })
    );
    assert_eq!(session.tries, 255);
}

#[test]
fn guess_without_a_session_is_turned_down() {
    let mut game = new_game();
    assert_eq!(
        game.handle(from(ALICE, 1), guess("house")),
        refusal(GameSessionError::NoActiveGame(UserStatus::GameNotStarted))
    );
    assert!(game.session(&actor(ALICE)).is_none());
    assert!(game.state().game_sessions.is_empty());
}

#[test]
fn guess_before_the_round_has_started_is_turned_down() {
    let mut game = new_game();
    game.handle(from(ALICE, 1), GameSessionAction::StartGame);
    let before = session(&game, ALICE);
    assert_eq!(
        game.handle(from(ALICE, 2), guess("house")),
        refusal(GameSessionError::NoActiveGame(UserStatus::GameNotStarted))
    );
    assert_eq!(session(&game, ALICE), before);

    game.handle_reply(WordleEvent::GameStarted { user: actor(ALICE) });
    let before = session(&game, ALICE);
    assert_eq!(
        game.handle(from(ALICE, 3), guess("house")),
        refusal(GameSessionError::NoActiveGame(UserStatus::GameNotStarted))
    );
    assert_eq!(session(&game, ALICE), before);
}

#[test]
fn second_guess_while_one_is_with_the_oracle_is_turned_down() {
    let mut game = new_game();
    started(&mut game, ALICE, 1);
    assert!(matches!(game.handle(from(ALICE, 2), guess("hello")), Effect::Forward { .. }));
    let before = session(&game, ALICE);
    assert_eq!(before.send_to_wordle_msg_id, message(2));
    assert_eq!(
        game.handle(from(ALICE, 3), guess("horse")),
        refusal(GameSessionError::NoActiveGame(UserStatus::GameStarted))
    );
    assert_eq!(session(&game, ALICE), before);

    // Nor does another call take the answer that is kept for the parked one.
    game.handle_reply(checked(ALICE, &[0], &[1, 4]));
    let before = session(&game, ALICE);
    assert_eq!(
        game.handle(from(ALICE, 3), guess("horse")),
        refusal(GameSessionError::NoActiveGame(UserStatus::GameStarted))
    );
    assert_eq!(session(&game, ALICE), before);
}

#[test]
fn answer_for_an_unknown_user_is_dropped() {
    let mut game = new_game();
    started(&mut game, ALICE, 1);
    let before = game.state();
    assert_eq!(game.handle_reply(WordleEvent::GameStarted { user: actor(BOB) }), Effect::Ignore);
    assert_eq!(game.handle_reply(checked(BOB, &[0], &[])), Effect::Ignore);
    assert_eq!(game.state(), before);
}

#[test]
fn answer_that_is_not_awaited_is_passed_over() {
    let mut game = new_game();
    game.handle(from(ALICE, 1), GameSessionAction::StartGame);
    let before = session(&game, ALICE);
    // The wrong kind of answer.
    assert_eq!(game.handle_reply(checked(ALICE, &[0, 1, 2, 3, 4], &[])), Effect::Ignore);
    assert_eq!(session(&game, ALICE), before);

    // The same answer twice.
    let event = WordleEvent::GameStarted { user: actor(ALICE) };
    assert_eq!(game.handle_reply(event.clone()), Effect::Wake { message: message(1) });
    let before = session(&game, ALICE);
    assert_eq!(game.handle_reply(event.clone()), Effect::Ignore);
    assert_eq!(session(&game, ALICE), before);

    // An answer while the user is to guess.
    game.handle(from(ALICE, 1), GameSessionAction::StartGame);
    let before = session(&game, ALICE);
    assert_eq!(before.session_status, SessionStatus::WaitUserInput);
    assert_eq!(game.handle_reply(event), Effect::Ignore);
    assert_eq!(game.handle_reply(checked(ALICE, &[0, 1, 2, 3, 4], &[])), Effect::Ignore);
    assert_eq!(session(&game, ALICE), before);
}

#[test]
fn user_who_never_guesses_loses_at_the_deadline() {
    let mut game = new_game();
    started(&mut game, ALICE, 1);
    let check = GameSessionAction::CheckGameStatus { user: actor(ALICE), session_id: message(1) };
    assert_eq!(game.handle(from(PROGRAM, 50), check), Effect::Ignore);
    assert_eq!(game.user_status(&actor(ALICE)), UserStatus::GameOver(GameStatus::Lose));
    let lost = session(&game, ALICE);
    assert_eq!(lost.session_status, SessionStatus::GameOver(GameStatus::Lose));
    assert_eq!(lost.tries, 0);
    let state = game.state();
    assert_eq!(state.game_sessions, vec![(actor(ALICE), lost)]);

    // A guess after that is answered with the loss and is not sent on.
    assert_eq!(
        game.handle(from(ALICE, 2), guess("house")),
        answer(GameSessionEvent::GameOver(GameStatus::Lose))
    );
}

#[test]
fn deadline_gives_up_the_request_that_is_outstanding() {
    let mut game = new_game();
    started(&mut game, ALICE, 1);
    game.handle(from(ALICE, 2), guess("hello"));
    assert_eq!(session(&game, ALICE).send_to_wordle_msg_id, message(2));
    let check = GameSessionAction::CheckGameStatus { user: actor(ALICE), session_id: message(1) };
    game.handle(from(PROGRAM, 50), check);
    let lost = session(&game, ALICE);
    assert_eq!(lost.session_status, SessionStatus::GameOver(GameStatus::Lose));
    assert!(lost.send_to_wordle_msg_id.is_zero());

    // The late answer does not reopen the game.
    assert_eq!(game.handle_reply(checked(ALICE, &[0, 1, 2, 3, 4], &[])), Effect::Ignore);
    assert_eq!(session(&game, ALICE), lost);
}

#[test]
fn call_resumed_after_the_deadline_is_told_the_end() {
    let mut game = new_game();
    started(&mut game, ALICE, 1);
    game.handle(from(ALICE, 2), guess("hello"));
    game.handle_reply(checked(ALICE, &[0], &[1, 4]));
    let check = GameSessionAction::CheckGameStatus { user: actor(ALICE), session_id: message(1) };
    game.handle(from(PROGRAM, 50), check);
    assert_eq!(
        game.handle(from(ALICE, 2), guess("hello")),
        answer(GameSessionEvent::GameOver(GameStatus::Lose))
    );
    assert_eq!(session(&game, ALICE).tries, 0);

    // The same for a start that is resumed on a game that has ended.
    let mut game = new_game();
    game.handle(from(ALICE, 1), GameSessionAction::StartGame);
    game.handle_reply(WordleEvent::GameStarted { user: actor(ALICE) });
    let check = GameSessionAction::CheckGameStatus { user: actor(ALICE), session_id: message(1) };
    game.handle(from(PROGRAM, 50), check);
    let lost = session(&game, ALICE);
    assert_eq!(
        game.handle(from(ALICE, 1), GameSessionAction::StartGame),
        answer(GameSessionEvent::GameOver(GameStatus::Lose))
    );
    assert_eq!(session(&game, ALICE), lost);
}

#[test]
fn status_check_from_a_stranger_is_passed_over() {
    let mut game = new_game();
    started(&mut game, ALICE, 1);
    let before = session(&game, ALICE);
    let check = GameSessionAction::CheckGameStatus { user: actor(ALICE), session_id: message(1) };
    assert_eq!(game.handle(from(BOB, 50), check.clone()), Effect::Ignore);
    assert_eq!(game.handle(from(ALICE, 51), check), Effect::Ignore);
    assert_eq!(session(&game, ALICE), before);
}

#[test]
fn status_check_for_an_unknown_user_is_passed_over() {
    let mut game = new_game();
    let check = GameSessionAction::CheckGameStatus { user: actor(ALICE), session_id: message(1) };
    assert_eq!(game.handle(from(PROGRAM, 50), check), Effect::Ignore);
    assert!(game.session(&actor(ALICE)).is_none());
}

#[test]
fn new_start_after_the_end_begins_a_new_game() {
    let mut game = new_game();
    started(&mut game, ALICE, 1);
    guessed(&mut game, ALICE, 2, "hello", checked(ALICE, &[0], &[1, 4]));
    guessed(&mut game, ALICE, 3, "house", checked(ALICE, &[0, 1, 2, 3, 4], &[]));
    assert_eq!(session(&game, ALICE).tries, 2);

    let effect = game.handle(from(ALICE, 4), GameSessionAction::StartGame);
    assert_eq!(effect, Effect::Forward { request: WordleAction::StartGame { user: actor(ALICE) } });
    assert_eq!(
        session(&game, ALICE),
        SessionInfo {
            session_id: message(4),
            original_msg_id: message(4),
            send_to_wordle_msg_id: message(4),
            tries: 0,
            session_status: SessionStatus::WaitWordleStartReply,
        }
    );
}

#[test]
fn outdated_status_check_spares_the_new_game() {
    let mut game = new_game();
    started(&mut game, ALICE, 1);
    guessed(&mut game, ALICE, 2, "house", checked(ALICE, &[0, 1, 2, 3, 4], &[]));
    started(&mut game, ALICE, 3);
    guessed(&mut game, ALICE, 4, "hello", checked(ALICE, &[0], &[1, 4]));
    let before = session(&game, ALICE);
    assert_eq!(before.session_id, message(3));

    let outdated = GameSessionAction::CheckGameStatus { user: actor(ALICE), session_id: message(1) };
    assert_eq!(game.handle(from(PROGRAM, 50), outdated), Effect::Ignore);
    assert_eq!(session(&game, ALICE), before);
    assert_eq!(game.user_status(&actor(ALICE)), UserStatus::GameStarted);

    // The check of the new game still counts.
    let due = GameSessionAction::CheckGameStatus { user: actor(ALICE), session_id: message(3) };
    game.handle(from(PROGRAM, 51), due);
    assert_eq!(game.user_status(&actor(ALICE)), UserStatus::GameOver(GameStatus::Lose));
    assert_eq!(session(&game, ALICE).tries, 1);
}

#[test]
fn users_do_not_touch_each_other() {
    let mut game = new_game();
    started(&mut game, ALICE, 1);
    guessed(&mut game, ALICE, 2, "hello", checked(ALICE, &[0], &[1, 4]));
    let alice = session(&game, ALICE);

    started(&mut game, BOB, 3);
    guessed(&mut game, BOB, 4, "house", checked(BOB, &[0, 1, 2, 3, 4], &[]));
    let check = GameSessionAction::CheckGameStatus { user: actor(BOB), session_id: message(3) };
    game.handle(from(PROGRAM, 50), check);
    assert_eq!(session(&game, ALICE), alice);
    assert_eq!(session(&game, BOB).session_status, SessionStatus::GameOver(GameStatus::Win));

    let mut listed = game.state().game_sessions;
    listed.sort_by_key(|(user, _)| user.into_bytes());
    assert_eq!(listed, vec![(actor(ALICE), alice), (actor(BOB), session(&game, BOB))]);
}

#[test]
fn status_as_the_user_sees_it() {
    assert_eq!(SessionStatus::Init.user_status(), UserStatus::GameNotStarted);
    assert_eq!(SessionStatus::WaitWordleStartReply.user_status(), UserStatus::GameNotStarted);
    assert_eq!(
        SessionStatus::ReplyReceived(WordleEvent::GameStarted { user: actor(ALICE) }).user_status(),
        UserStatus::GameNotStarted
    );
    assert_eq!(SessionStatus::WaitUserInput.user_status(), UserStatus::GameStarted);
    assert_eq!(SessionStatus::WaitWordleCheckWordReply.user_status(), UserStatus::GameStarted);
    assert_eq!(
        SessionStatus::ReplyReceived(checked(ALICE, &[], &[])).user_status(),
        UserStatus::GameStarted
    );
    assert_eq!(
        SessionStatus::GameOver(GameStatus::Win).user_status(),
        UserStatus::GameOver(GameStatus::Win)
    );
}

#[test]
fn oracle_event_names_its_user_and_passes_on() {
    let started = WordleEvent::GameStarted { user: actor(ALICE) };
    let word_checked = checked(BOB, &[3], &[0, 1]);
    assert_eq!(*started.get_user(), actor(ALICE));
    assert_eq!(*word_checked.get_user(), actor(BOB));
    assert_eq!(GameSessionEvent::from(started, 3, None), GameSessionEvent::StartSuccess);
    assert_eq!(
        GameSessionEvent::from(word_checked, 3, Some(GameStatus::Lose)),
        GameSessionEvent::CheckWordResult {
            correct_positions: vec![3],
            contained_in_word: vec![0, 1],
            tries: 3,
            game_over: Some(GameStatus::Lose),
        }
    );
}

#[test]
fn session_steps_on_their_own() {
    let mut session = SessionInfo::new(message(1));
    assert_eq!(session.session_status, SessionStatus::Init);
    assert_eq!(session.session_id, message(1));
    assert!(session.send_to_wordle_msg_id.is_zero());
    assert_eq!(session.tries, 0);

    assert!(!session.check_game_status(message(9)));
    assert!(matches!(session.start_game(actor(ALICE), message(1)), Effect::Forward { .. }));
    assert_eq!(
        session.receive_reply(WordleEvent::GameStarted { user: actor(ALICE) }),
        Effect::Wake { message: message(1) }
    );
    assert!(session.check_game_status(message(1)));
    assert!(!session.check_game_status(message(1)));
    assert_eq!(session.session_status, SessionStatus::GameOver(GameStatus::Lose));
}

#[test]
fn configuration_needs_a_real_oracle() {
    assert!(GameSessionInit { wordle_program_id: actor(ORACLE) }.is_valid());
    assert!(!GameSessionInit { wordle_program_id: ActorId::zero() }.is_valid());
    GameSessionInit { wordle_program_id: actor(ORACLE) }.assert_valid();
}

#[test]
fn every_user_is_listed_once() {
    let mut game = new_game();
    for user in 20..120u8 {
        game.handle(from(user, user), GameSessionAction::StartGame);
        if user % 2 == 0 {
            game.handle_reply(WordleEvent::GameStarted { user: actor(user) });
        }
    }
    let state = GameSessionState::from(&game);
    assert_eq!(state.wordle_program_id, actor(ORACLE));
    assert_eq!((state.word_length, state.max_tries, state.timeout_delay), (5, 6, 200));
    assert_eq!(state.game_sessions.len(), 100);
    let mut listed = state.game_sessions;
    listed.sort_by_key(|(user, _)| user.into_bytes());
    for (at, (user, listed_session)) in listed.iter().enumerate() {
        assert_eq!(*user, actor(20 + at as u8));
        assert_eq!(*listed_session, session(&game, 20 + at as u8));
        assert_eq!(listed_session.session_id, message(20 + at as u8));
        assert_eq!(
            matches!(listed_session.session_status, SessionStatus::ReplyReceived(_)),
            at % 2 == 0
        );
    }
    let again = game.state().game_sessions;
    assert_eq!(again.len(), 100);
}
