//! What holds of the coordinator whatever messages reach it, in whatever order.

use crate::coordinator::GameSessionView;
use crate::ids::{ActorId, MessageId};
use crate::session::{all_positions_correct, valid_guess};
use crate::session_io::{
    EffectView, GameSessionActionView, GameSessionEventView, GameStatus, MessageContext,
    SessionInfoView, SessionStatusView, UserStatus, WordleActionView, WordleEventView, MAX_TRIES,
    TIMEOUT_DELAY, WORD_LENGTH,
};
use crate::wordle::{correct_positions, lemma_evaluation, WordleView};
use vstd::prelude::*;

verus! {

/// An effect answers the current call with `StartSuccess`.
pub open spec fn answers_start_success(effect: EffectView) -> bool {
    ||| effect == (EffectView::Reply { reply: Ok(GameSessionEventView::StartSuccess) })
    ||| effect matches EffectView::ReplyAndSchedule { event, .. } && event
        == GameSessionEventView::StartSuccess
}

/// No transition of a session takes it out of the well-formed ones: the
/// guesses used up never exceed `MAX_TRIES`.
pub proof fn session_stays_well_formed(
    session: SessionInfoView,
    user: ActorId,
    msg_id: MessageId,
    word: Seq<char>,
    event: WordleEventView,
)
    requires
        session.wf(),
    ensures
        SessionInfoView::fresh(msg_id).wf(),
        session.start_game(user, msg_id).0.wf(),
        session.check_word(user, msg_id, word).0.wf(),
        session.receive_reply(event).0.wf(),
        session.check_game_status(msg_id).wf(),
{
}

/// Whatever action the coordinator takes in, its sessions stay well-formed:
/// for all users, the guesses used up never exceed `MAX_TRIES`.
pub proof fn tries_stay_bounded(
    game: GameSessionView,
    ctx: MessageContext,
    action: GameSessionActionView,
)
    requires
        game.wf(),
    ensures
        game.handle(ctx, action).0.wf(),
{
    let after = game.handle(ctx, action).0;
    assert forall|user: ActorId| #[trigger]
        after.sessions.contains_key(user) implies after.sessions[user].wf() by {
        if game.sessions.contains_key(user) {
            session_stays_well_formed(
                game.sessions[user],
                ctx.source,
                ctx.id,
                arbitrary(),
                arbitrary(),
            );
        }
    }
}

/// Whatever answer of the oracle the coordinator takes in, its sessions stay
/// well-formed.
pub proof fn tries_stay_bounded_on_reply(game: GameSessionView, event: WordleEventView)
    requires
        game.wf(),
    ensures
        game.handle_reply(event).0.wf(),
{
    let after = game.handle_reply(event).0;
    assert forall|user: ActorId| #[trigger]
        after.sessions.contains_key(user) implies after.sessions[user].wf() by {
        assert(game.sessions.contains_key(user));
    }
}

/// A message that reaches the coordinator.
pub enum Inbound {
    /// An action of a user, or the coordinator's own status check.
    Action { ctx: MessageContext, action: GameSessionActionView },
    /// An answer of the oracle.
    Reply { event: WordleEventView },
}

/// The coordinator after it has taken in one message.
pub open spec fn after(game: GameSessionView, inbound: Inbound) -> GameSessionView {
    match inbound {
        Inbound::Action { ctx, action } => game.handle(ctx, action).0,
        Inbound::Reply { event } => game.handle_reply(event).0,
    }
}

/// The coordinator after it has taken in the messages of `history`, one after
/// the other.
pub open spec fn after_all(game: GameSessionView, history: Seq<Inbound>) -> GameSessionView
    decreases history.len(),
{
    if history.len() == 0 {
        game
    } else {
        after(after_all(game, history.drop_last()), history.last())
    }
}

/// Whatever messages have reached a coordinator since it was set up, and in
/// whatever order, no user has used up more than `MAX_TRIES` guesses, and
/// every session is well-formed.
pub proof fn tries_never_exceed_the_limit(
    wordle_program_id: ActorId,
    history: Seq<Inbound>,
    user: ActorId,
)
    ensures
        ({
            let begun = GameSessionView {
                wordle_program_id,
                sessions: GameSessionView::no_sessions(),
            };
            let game = after_all(begun, history);
            &&& game.wf()
            &&& game.sessions.contains_key(user) ==> game.sessions[user].tries <= MAX_TRIES
        }),
    decreases history.len(),
{
    let begun = GameSessionView { wordle_program_id, sessions: GameSessionView::no_sessions() };
    if history.len() > 0 {
        tries_never_exceed_the_limit(wordle_program_id, history.drop_last(), user);
        let before = after_all(begun, history.drop_last());
        match history.last() {
            Inbound::Action { ctx, action } => tries_stay_bounded(before, ctx, action),
            Inbound::Reply { event } => tries_stay_bounded_on_reply(before, event),
        }
    }
}

/// A finished game is never overwritten, except by a `StartGame` that is a
/// new call: that one begins a new game, with no guess used up.
pub proof fn finished_game_stays_finished(
    game: GameSessionView,
    user: ActorId,
    ctx: MessageContext,
    action: GameSessionActionView,
)
    requires
        game.sessions.contains_key(user),
        game.sessions[user].session_status is GameOver,
    ensures
        game.handle(ctx, action).0.sessions.contains_key(user),
        game.handle(ctx, action).0.sessions[user] == game.sessions[user] || ({
            &&& action is StartGame
            &&& ctx.source == user
            &&& ctx.id != game.sessions[user].original_msg_id
            &&& game.handle(ctx, action).0.sessions[user] == SessionInfoView::begun(ctx.id)
        }),
{
}

/// An answer of the oracle never overwrites a finished game.
pub proof fn finished_game_ignores_replies(
    game: GameSessionView,
    user: ActorId,
    event: WordleEventView,
)
    requires
        game.sessions.contains_key(user),
        game.sessions[user].session_status is GameOver,
    ensures
        game.handle_reply(event).0.sessions.contains_key(user),
        game.handle_reply(event).0.sessions[user] == game.sessions[user],
{
}

/// `StartGame` twice in succession from one user: unless the first call was
/// told that the game is over, the second contacts the oracle no more and is
/// answered `StartSuccess`. Where the first call asked the oracle for a
/// round, the second changes nothing.
pub proof fn start_game_is_idempotent(
    game: GameSessionView,
    first: MessageContext,
    second: MessageContext,
)
    requires
        first.source == second.source,
        !(game.handle(first, GameSessionActionView::StartGame).1 matches EffectView::Reply {
            reply: Ok(GameSessionEventView::GameOver(_)),
        }),
    ensures
        ({
            let (started, first_effect) = game.handle(first, GameSessionActionView::StartGame);
            let (after, second_effect) = started.handle(second, GameSessionActionView::StartGame);
            &&& first_effect.contacts_oracle() || answers_start_success(first_effect)
            &&& !second_effect.contacts_oracle()
            &&& answers_start_success(second_effect)
            &&& first_effect.contacts_oracle() ==> after == started && second_effect == (
            EffectView::Reply { reply: Ok(GameSessionEventView::StartSuccess) })
        }),
{
    let (started, first_effect) = game.handle(first, GameSessionActionView::StartGame);
    let (after, second_effect) = started.handle(second, GameSessionActionView::StartGame);
    if first_effect.contacts_oracle() {
        assert(after.sessions =~= started.sessions);
    }
}

/// The call that asked the oracle for a round is answered `StartSuccess` when
/// the oracle has answered and the call is resumed; the game is then open
/// for guesses, and the status check is scheduled for this game.
pub proof fn started_round_opens_the_game(game: GameSessionView, ctx: MessageContext)
    requires
        game.handle(ctx, GameSessionActionView::StartGame).1.contacts_oracle(),
    ensures
        ({
            let user = ctx.source;
            let (asked, request) = game.handle(ctx, GameSessionActionView::StartGame);
            let (answered, wake) = asked.handle_reply(WordleEventView::GameStarted { user });
            let (open, answer) = answered.handle(ctx, GameSessionActionView::StartGame);
            &&& request == (EffectView::Forward { request: WordleActionView::StartGame { user } })
            &&& wake == (EffectView::Wake { message: ctx.id })
            &&& answer == (EffectView::ReplyAndSchedule {
                event: GameSessionEventView::StartSuccess,
                check: GameSessionActionView::CheckGameStatus { user, session_id: ctx.id },
                delay: TIMEOUT_DELAY,
            })
            &&& open.sessions[user].session_status == SessionStatusView::WaitUserInput
            &&& open.sessions[user].tries == 0
            &&& open.sessions[user].session_id == ctx.id
        }),
{
}

/// Of a guess and a secret of `WORD_LENGTH` letters each, every position is
/// correct exactly if the guess is the secret.
pub proof fn all_correct_iff_exact_guess(secret: Seq<char>, guess: Seq<char>)
    requires
        secret.len() == WORD_LENGTH,
        guess.len() == WORD_LENGTH,
    ensures
        all_positions_correct(correct_positions(secret, guess)) <==> guess == secret,
{
    lemma_evaluation(secret, guess);
    if all_positions_correct(correct_positions(secret, guess)) {
        assert forall|i: int| 0 <= i < WORD_LENGTH implies guess[i] == secret[i] by {
            let p = i as u8;
            assert(correct_positions(secret, guess).contains(p));
        }
        assert(guess =~= secret);
    }
}

/// A guess that matches the secret at every position wins the game, however
/// many guesses are left: the guess is sent on, the oracle's answer resumes
/// the call, and the call finds the game won.
pub proof fn exact_guess_wins(
    game: GameSessionView,
    oracle: WordleView,
    ctx: MessageContext,
    word: Seq<char>,
)
    requires
        game.sessions.contains_key(ctx.source),
        game.sessions[ctx.source].session_status is WaitUserInput,
        game.sessions[ctx.source].tries < MAX_TRIES,
        valid_guess(word),
        oracle.games.contains_key(ctx.source),
        oracle.games[ctx.source] == word,
    ensures
        ({
            let user = ctx.source;
            let guess = GameSessionActionView::CheckWord { word };
            let (asked, request) = game.handle(ctx, guess);
            let checked = oracle.check_word(user, word);
            let (answered, wake) = asked.handle_reply(checked->Ok_0);
            let (settled, answer) = answered.handle(ctx, guess);
            &&& request == (EffectView::Forward {
                request: WordleActionView::CheckWord { user, word },
            })
            &&& checked is Ok
            &&& wake == (EffectView::Wake { message: ctx.id })
            &&& settled.sessions[user].session_status == SessionStatusView::GameOver(
                GameStatus::Win,
            )
            &&& settled.sessions[user].tries == game.sessions[user].tries + 1
            &&& answer matches EffectView::Reply {
                reply: Ok(GameSessionEventView::CheckWordResult { game_over, .. }),
            } && game_over == Some(GameStatus::Win)
        }),
{
    all_correct_iff_exact_guess(word, word);
}

/// The oracle's answer that every position is correct settles the game as
/// won whatever the count of guesses.
pub proof fn all_correct_wins(
    session: SessionInfoView,
    user: ActorId,
    word: Seq<char>,
    checked: WordleEventView,
)
    requires
        session.session_status == SessionStatusView::ReplyReceived(checked),
        (checked matches WordleEventView::WordChecked { correct_positions, .. }
            && all_positions_correct(correct_positions)),
    ensures
        session.check_word(user, session.original_msg_id, word).0.session_status
            == SessionStatusView::GameOver(GameStatus::Win),
{
}

/// Once the guesses are used up, a guess never reaches the oracle.
pub proof fn no_request_after_last_try(
    session: SessionInfoView,
    user: ActorId,
    msg_id: MessageId,
    word: Seq<char>,
)
    requires
        session.tries >= MAX_TRIES,
    ensures
        !session.check_word(user, msg_id, word).1.contacts_oracle(),
{
}

/// A guess after `MAX_TRIES` used-up guesses leaves the game lost, uses up
/// no guess and does not contact the oracle, unless the last guess won.
pub proof fn guess_after_last_try_loses(
    game: GameSessionView,
    ctx: MessageContext,
    word: Seq<char>,
)
    requires
        game.wf(),
        game.sessions.contains_key(ctx.source),
        game.sessions[ctx.source].tries >= MAX_TRIES,
        game.sessions[ctx.source].session_status != SessionStatusView::GameOver(GameStatus::Win),
    ensures
        ({
            let (after, effect) = game.handle(ctx, GameSessionActionView::CheckWord { word });
            &&& effect == (EffectView::Reply {
                reply: Ok(GameSessionEventView::GameOver(GameStatus::Lose)),
            })
            &&& after.sessions[ctx.source].session_status == SessionStatusView::GameOver(
                GameStatus::Lose,
            )
            &&& after.sessions[ctx.source].tries == game.sessions[ctx.source].tries
        }),
{
}

/// A status check that carries another identifier than that of the user's
/// current game changes nothing.
pub proof fn stale_check_changes_nothing(
    game: GameSessionView,
    ctx: MessageContext,
    user: ActorId,
    session_id: MessageId,
)
    requires
        game.sessions.contains_key(user) ==> game.sessions[user].session_id != session_id,
    ensures
        game.handle(ctx, GameSessionActionView::CheckGameStatus { user, session_id }) == (
            game,
            EffectView::Ignore,
        ),
{
    let after = game.handle(ctx, GameSessionActionView::CheckGameStatus { user, session_id }).0;
    assert(after.sessions =~= game.sessions);
}

/// A status check that was scheduled for a game does not touch the game
/// that the user has started since.
pub proof fn check_of_earlier_game_spares_the_new_one(
    game: GameSessionView,
    restart: MessageContext,
    timer: MessageContext,
)
    requires
        game.sessions.contains_key(restart.source),
        game.sessions[restart.source].session_status is GameOver,
        restart.id != game.sessions[restart.source].original_msg_id,
        restart.id != game.sessions[restart.source].session_id,
    ensures
        ({
            let user = restart.source;
            let check = GameSessionActionView::CheckGameStatus {
                user,
                session_id: game.sessions[user].session_id,
            };
            let (restarted, request) = game.handle(restart, GameSessionActionView::StartGame);
            &&& request.contacts_oracle()
            &&& restarted.sessions[user] == SessionInfoView::begun(restart.id)
            &&& restarted.handle(timer, check) == (restarted, EffectView::Ignore)
        }),
{
    let user = restart.source;
    let restarted = game.handle(restart, GameSessionActionView::StartGame).0;
    stale_check_changes_nothing(restarted, timer, user, game.sessions[user].session_id);
}

/// The status check of the current game ends it as lost, if it is not over;
/// it is the coordinator's own message.
pub proof fn due_check_ends_the_game(game: GameSessionView, timer: MessageContext, user: ActorId)
    requires
        timer.source == timer.program,
        game.sessions.contains_key(user),
        !(game.sessions[user].session_status is GameOver),
    ensures
        ({
            let check = GameSessionActionView::CheckGameStatus {
                user,
                session_id: game.sessions[user].session_id,
            };
            let (after, effect) = game.handle(timer, check);
            &&& effect == EffectView::Ignore
            &&& after.sessions[user].session_status == SessionStatusView::GameOver(
                GameStatus::Lose,
            )
            &&& after.sessions[user].tries == game.sessions[user].tries
            &&& after.user_status(user) == UserStatus::GameOver(GameStatus::Lose)
        }),
{
}

/// A guess uses up a try only when the oracle's answer to it is taken up;
/// a guess that is turned down or sent on uses up none.
pub proof fn only_a_checked_guess_uses_a_try(
    session: SessionInfoView,
    user: ActorId,
    msg_id: MessageId,
    word: Seq<char>,
)
    ensures
        ({
            let (after, effect) = session.check_word(user, msg_id, word);
            ||| after.tries == session.tries
            ||| effect matches EffectView::Reply {
                reply: Ok(GameSessionEventView::CheckWordResult { .. }),
            }
        }),
        !valid_guess(word) ==> !session.check_word(user, msg_id, word).1.contacts_oracle(),
{
}

/// A session never has two requests with the oracle: one is sent only while
/// none is outstanding.
pub proof fn one_request_at_a_time(
    session: SessionInfoView,
    user: ActorId,
    msg_id: MessageId,
    word: Seq<char>,
)
    requires
        session.wf(),
    ensures
        session.start_game(user, msg_id).1.contacts_oracle()
            ==> session.send_to_wordle_msg_id.is_zero(),
        session.check_word(user, msg_id, word).1.contacts_oracle()
            ==> session.send_to_wordle_msg_id.is_zero(),
{
}

/// A game keeps its identifier until a `StartGame` begins the next one: only
/// a transition that asks the oracle for a round sets it, to the identifier
/// of the call.
pub proof fn session_id_changes_only_at_start(
    session: SessionInfoView,
    user: ActorId,
    msg_id: MessageId,
    word: Seq<char>,
    event: WordleEventView,
)
    ensures
        session.check_word(user, msg_id, word).0.session_id == session.session_id,
        session.receive_reply(event).0.session_id == session.session_id,
        session.check_game_status(msg_id).session_id == session.session_id,
        session.start_game(user, msg_id).0.session_id == (if session.start_game(
            user,
            msg_id,
        ).1.contacts_oracle() {
            msg_id
        } else {
            session.session_id
        }),
{
}

/// A message touches no session but that of the user it acts for: the sender
/// of a `StartGame` or `CheckWord`, the user named in a `CheckGameStatus`.
pub proof fn other_sessions_untouched(
    game: GameSessionView,
    ctx: MessageContext,
    action: GameSessionActionView,
    other: ActorId,
)
    requires
        other != (match action {
            GameSessionActionView::CheckGameStatus { user, .. } => user,
            _ => ctx.source,
        }),
    ensures
        game.handle(ctx, action).0.sessions.contains_key(other) == game.sessions.contains_key(
            other,
        ),
        game.handle(ctx, action).0.sessions[other] == game.sessions[other],
        game.handle(ctx, action).0.wordle_program_id == game.wordle_program_id,
{
}

/// An answer of the oracle touches no session but that of the user it names.
pub proof fn reply_touches_one_session(
    game: GameSessionView,
    event: WordleEventView,
    other: ActorId,
)
    requires
        other != event.user(),
    ensures
        game.handle_reply(event).0.sessions.contains_key(other) == game.sessions.contains_key(
            other,
        ),
        game.handle_reply(event).0.sessions[other] == game.sessions[other],
        game.handle_reply(event).0.wordle_program_id == game.wordle_program_id,
{
}

/// Every action of a user is either answered at once or sent on to the
/// oracle, with the call parked; it is never passed over.
pub proof fn user_action_is_answered_or_parked(
    game: GameSessionView,
    ctx: MessageContext,
    action: GameSessionActionView,
)
    requires
        !(action is CheckGameStatus),
    ensures
        ({
            let effect = game.handle(ctx, action).1;
            effect is Forward || effect is Reply || effect is ReplyAndSchedule
        }),
{
}

/// An answer of the oracle either resumes the call that is parked for its
/// user, or is passed over and changes nothing.
pub proof fn reply_wakes_the_parked_call(game: GameSessionView, event: WordleEventView)
    ensures
        ({
            let (after, effect) = game.handle_reply(event);
            let user = event.user();
            if game.sessions.contains_key(user) && game.sessions[user].awaits(event) {
                &&& effect == (EffectView::Wake { message: game.sessions[user].original_msg_id })
                &&& after.sessions[user].session_status == SessionStatusView::ReplyReceived(event)
                &&& after.sessions[user].tries == game.sessions[user].tries
            } else {
                effect == EffectView::Ignore && after == game
            }
        }),
{
    let (after, effect) = game.handle_reply(event);
    assert(after.sessions =~= game.sessions || game.sessions.contains_key(event.user())
        && game.sessions[event.user()].awaits(event));
}

} // verus!
