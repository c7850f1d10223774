//! The life of one session: how a user's actions, the oracle's answers and the
//! delayed status check move it from state to state.

use crate::ids::{ActorId, MessageId};
use crate::session_io::{
    Effect, EffectView, GameSessionAction, GameSessionActionView, GameSessionError,
    GameSessionEvent, GameSessionEventView, GameStatus, SessionInfo, SessionInfoView,
    SessionStatus, SessionStatusView, WordleAction, WordleActionView, WordleEvent,
    WordleEventView, MAX_TRIES, TIMEOUT_DELAY, WORD_LENGTH,
};
use vstd::prelude::*;
use vstd::string::*;

verus! {

/// A guess is taken only if it has `WORD_LENGTH` letters, each from `a` to `z`.
pub open spec fn valid_guess(word: Seq<char>) -> bool {
    &&& word.len() == WORD_LENGTH
    &&& forall|i: int| 0 <= i < word.len() ==> 'a' <= #[trigger] word[i] <= 'z'
}

/// The guess is the secret word: every position is among the correct ones.
pub open spec fn all_positions_correct(correct_positions: Seq<u8>) -> bool {
    forall|p: u8| 0 <= p < WORD_LENGTH ==> #[trigger] correct_positions.contains(p)
}

/// The count of guesses after one more, which stops at the largest `u8`.
pub open spec fn one_more_try(tries: u8) -> u8 {
    if tries < u8::MAX {
        (tries + 1) as u8
    } else {
        tries
    }
}

/// How a game stands after a checked guess: won if the guess was the word,
/// else lost if the guesses are used up, else still on.
pub open spec fn outcome_of_guess(correct_positions: Seq<u8>, tries: u8) -> Option<GameStatus> {
    if all_positions_correct(correct_positions) {
        Some(GameStatus::Win)
    } else if tries >= MAX_TRIES {
        Some(GameStatus::Lose)
    } else {
        None
    }
}

impl SessionInfoView {
    /// What holds of every session that the coordinator keeps: no more than
    /// `MAX_TRIES` guesses are used up, a game whose guesses are used up is
    /// over, and a request to the oracle is on record exactly while its answer
    /// is awaited, under the identifier of the parked call.
    pub open spec fn wf(self) -> bool {
        &&& self.tries <= MAX_TRIES
        &&& self.tries == MAX_TRIES ==> self.session_status is GameOver
        &&& self.session_status.awaits_oracle() ==> self.send_to_wordle_msg_id
            == self.original_msg_id
        &&& !self.session_status.awaits_oracle() ==> self.send_to_wordle_msg_id.is_zero()
    }

    /// The session that a user's first `StartGame`, carried by `msg_id`, creates.
    pub open spec fn fresh(msg_id: MessageId) -> SessionInfoView {
        SessionInfoView {
            session_id: msg_id,
            original_msg_id: msg_id,
            send_to_wordle_msg_id: MessageId::zero(),
            tries: 0,
            session_status: SessionStatusView::Init,
        }
    }

    /// The session at the beginning of a game that the call `msg_id` starts:
    /// the oracle has been asked for a round, and no guess is used up.
    pub open spec fn begun(msg_id: MessageId) -> SessionInfoView {
        SessionInfoView {
            session_id: msg_id,
            original_msg_id: msg_id,
            send_to_wordle_msg_id: msg_id,
            tries: 0,
            session_status: SessionStatusView::WaitWordleStartReply,
        }
    }

    /// `StartGame` from `user`, carried by the message `msg_id`.
    ///
    /// A new session, or a finished one that a new call reaches, begins a game:
    /// the oracle is asked for a round and the call is parked. The parked call,
    /// resumed after the oracle's answer, opens the game for guesses, answers
    /// `StartSuccess` and schedules the status check. The same call, resumed
    /// on a game that has ended meanwhile, is told how it ended. Any other
    /// `StartGame` finds a game that is on: it is answered `StartSuccess` and
    /// changes nothing.
    pub open spec fn start_game(self, user: ActorId, msg_id: MessageId) -> (
        SessionInfoView,
        EffectView,
    ) {
        let begin = (
            Self::begun(msg_id),
            EffectView::Forward { request: WordleActionView::StartGame { user } },
        );
        let resumed = msg_id == self.original_msg_id;
        match self.session_status {
            SessionStatusView::Init => begin,
            SessionStatusView::GameOver(status) => if resumed {
                (self, EffectView::Reply { reply: Ok(GameSessionEventView::GameOver(status)) })
            } else {
                begin
            },
            SessionStatusView::ReplyReceived(WordleEventView::GameStarted { .. }) => if resumed {
                (
                    SessionInfoView { session_status: SessionStatusView::WaitUserInput, ..self },
                    EffectView::ReplyAndSchedule {
                        event: GameSessionEventView::StartSuccess,
                        check: GameSessionActionView::CheckGameStatus {
                            user,
                            session_id: self.session_id,
                        },
                        delay: TIMEOUT_DELAY,
                    },
                )
            } else {
                (self, EffectView::Reply { reply: Ok(GameSessionEventView::StartSuccess) })
            },
            _ => (self, EffectView::Reply { reply: Ok(GameSessionEventView::StartSuccess) }),
        }
    }

    /// The oracle's answer to a guess is taken up: one guess is used up; the
    /// game is won if every position is correct, else lost if the guesses are
    /// used up, else open for the next guess; the user is answered with the
    /// positions, the guesses used up and the end of the game, if it has ended.
    pub open spec fn settle_guess(self, correct_positions: Seq<u8>, contained_in_word: Seq<u8>) -> (
        SessionInfoView,
        EffectView,
    ) {
        let tries = one_more_try(self.tries);
        let game_over = outcome_of_guess(correct_positions, tries);
        (
            SessionInfoView {
                tries,
                session_status: match game_over {
                    Some(status) => SessionStatusView::GameOver(status),
                    None => SessionStatusView::WaitUserInput,
                },
                ..self
            },
            EffectView::Reply {
                reply: Ok(
                    GameSessionEventView::CheckWordResult {
                        correct_positions,
                        contained_in_word,
                        tries,
                        game_over,
                    },
                ),
            },
        )
    }

    /// `CheckWord` with `word` from `user`, carried by the message `msg_id`.
    ///
    /// While the user may guess: a session whose guesses are used up is lost
    /// at once; an invalid guess is turned down and changes nothing; a valid
    /// one is sent to the oracle and the call is parked. The parked call,
    /// resumed after the oracle's answer, uses up one guess, settles how the
    /// game stands and answers with the positions. On a game that is over the
    /// answer is how it ended. In every other state the guess is turned down
    /// with the session's status.
    pub open spec fn check_word(self, user: ActorId, msg_id: MessageId, word: Seq<char>) -> (
        SessionInfoView,
        EffectView,
    ) {
        let resumed = msg_id == self.original_msg_id;
        let turned_down = (
            self,
            EffectView::Reply {
                reply: Err(GameSessionError::NoActiveGame(self.session_status.user_status())),
            },
        );
        match self.session_status {
            SessionStatusView::WaitUserInput => if self.tries >= MAX_TRIES {
                (
                    SessionInfoView {
                        session_status: SessionStatusView::GameOver(GameStatus::Lose),
                        ..self
                    },
                    EffectView::Reply {
                        reply: Ok(GameSessionEventView::GameOver(GameStatus::Lose)),
                    },
                )
            } else if !valid_guess(word) {
                (self, EffectView::Reply { reply: Err(GameSessionError::InvalidGuess) })
            } else {
                (
                    SessionInfoView {
                        original_msg_id: msg_id,
                        send_to_wordle_msg_id: msg_id,
                        session_status: SessionStatusView::WaitWordleCheckWordReply,
                        ..self
                    },
                    EffectView::Forward { request: WordleActionView::CheckWord { user, word } },
                )
            },
            SessionStatusView::ReplyReceived(
                WordleEventView::WordChecked { correct_positions, contained_in_word, .. },
            ) => if resumed {
                self.settle_guess(correct_positions, contained_in_word)
            } else {
                turned_down
            },
            SessionStatusView::GameOver(status) => (
                self,
                EffectView::Reply { reply: Ok(GameSessionEventView::GameOver(status)) },
            ),
            _ => turned_down,
        }
    }

    /// The oracle's answer `event` is the one that this session awaits.
    pub open spec fn awaits(self, event: WordleEventView) -> bool {
        ||| self.session_status is WaitWordleStartReply && event is GameStarted
        ||| self.session_status is WaitWordleCheckWordReply && event is WordChecked
    }

    /// An answer of the oracle that names this session's user.
    ///
    /// The awaited answer is kept for the parked call, which is to be resumed;
    /// the request is no longer outstanding. Any other answer is stale and
    /// changes nothing.
    pub open spec fn receive_reply(self, event: WordleEventView) -> (SessionInfoView, EffectView) {
        if self.awaits(event) {
            (
                SessionInfoView {
                    send_to_wordle_msg_id: MessageId::zero(),
                    session_status: SessionStatusView::ReplyReceived(event),
                    ..self
                },
                EffectView::Wake { message: self.original_msg_id },
            )
        } else {
            (self, EffectView::Ignore)
        }
    }

    /// The status check that was scheduled for the game `session_id` counts
    /// against this session: it is the game that began it, and it is not over.
    pub open spec fn expires_at(self, session_id: MessageId) -> bool {
        self.session_id == session_id && !(self.session_status is GameOver)
    }

    /// The delayed status check for the game `session_id`.
    ///
    /// It ends the game as lost if it still is the game that scheduled the
    /// check and is not over; a request to the oracle is then given up. A check
    /// from an earlier game, or on a game that is over, changes nothing.
    pub open spec fn check_game_status(self, session_id: MessageId) -> SessionInfoView {
        if self.expires_at(session_id) {
            SessionInfoView {
                send_to_wordle_msg_id: MessageId::zero(),
                session_status: SessionStatusView::GameOver(GameStatus::Lose),
                ..self
            }
        } else {
            self
        }
    }
}

/// Whether a word may be sent to the oracle as a guess.
pub fn is_valid_guess(word: &str) -> (r: bool)
    ensures
        r == valid_guess(word@),
{
    if word.unicode_len() != WORD_LENGTH {
        return false;
    }
    let mut i: usize = 0;
    while i < WORD_LENGTH
        invariant
            i <= WORD_LENGTH,
            word@.len() == WORD_LENGTH,
            forall|j: int| 0 <= j < i ==> 'a' <= #[trigger] word@[j] <= 'z',
        decreases WORD_LENGTH - i,
    {
        let c = word.get_char(i);
        if c < 'a' || c > 'z' {
            return false;
        }
        i = i + 1;
    }
    true
}

/// Whether `position` is among `positions`.
fn has_position(positions: &Vec<u8>, position: u8) -> (r: bool)
    ensures
        r == positions@.contains(position),
{
    let mut i: usize = 0;
    while i < positions.len()
        invariant
            i <= positions.len(),
            forall|j: int| 0 <= j < i ==> positions@[j] != position,
        decreases positions.len() - i,
    {
        if positions[i] == position {
            return true;
        }
        i = i + 1;
    }
    false
}

/// Whether the oracle found every letter of a guess in its place.
pub fn is_full_match(correct_positions: &Vec<u8>) -> (r: bool)
    ensures
        r == all_positions_correct(correct_positions@),
{
    let mut p: u8 = 0;
    while (p as usize) < WORD_LENGTH
        invariant
            p <= WORD_LENGTH,
            forall|q: u8| 0 <= q < p ==> #[trigger] correct_positions@.contains(q),
        decreases WORD_LENGTH - p,
    {
        if !has_position(correct_positions, p) {
            return false;
        }
        p = p + 1;
    }
    true
}

impl SessionInfo {
    /// The session that a user's first `StartGame`, carried by `msg_id`, creates.
    pub fn new(msg_id: MessageId) -> (r: SessionInfo)
        ensures
            r@ == SessionInfoView::fresh(msg_id),
    {
        SessionInfo {
            session_id: msg_id,
            original_msg_id: msg_id,
            send_to_wordle_msg_id: MessageId::zero(),
            tries: 0,
            session_status: SessionStatus::Init,
        }
    }

    /// Begins a game on behalf of the call `msg_id`.
    fn begin(&mut self, user: ActorId, msg_id: MessageId) -> (effect: Effect)
        ensures
            final(self)@ == SessionInfoView::begun(msg_id),
            effect@ == (EffectView::Forward { request: WordleActionView::StartGame { user } }),
    {
        self.session_id = msg_id;
        self.original_msg_id = msg_id;
        self.send_to_wordle_msg_id = msg_id;
        self.tries = 0;
        self.session_status = SessionStatus::WaitWordleStartReply;
        Effect::Forward { request: WordleAction::StartGame { user } }
    }

    /// Takes in `StartGame` from `user`, carried by the message `msg_id`.
    pub fn start_game(&mut self, user: ActorId, msg_id: MessageId) -> (effect: Effect)
        ensures
            final(self)@ == old(self)@.start_game(user, msg_id).0,
            effect@ == old(self)@.start_game(user, msg_id).1,
    {
        let resumed = msg_id == self.original_msg_id;
        match self.session_status {
            SessionStatus::Init => self.begin(user, msg_id),
            SessionStatus::GameOver(status) => {
                if resumed {
                    Effect::Reply { reply: Ok(GameSessionEvent::GameOver(status)) }
                } else {
                    self.begin(user, msg_id)
                }
            },
            SessionStatus::ReplyReceived(WordleEvent::GameStarted { .. }) => {
                if resumed {
                    self.session_status = SessionStatus::WaitUserInput;
                    Effect::ReplyAndSchedule {
                        event: GameSessionEvent::StartSuccess,
                        check: GameSessionAction::CheckGameStatus {
                            user,
                            session_id: self.session_id,
                        },
                        delay: TIMEOUT_DELAY,
                    }
                } else {
                    Effect::Reply { reply: Ok(GameSessionEvent::StartSuccess) }
                }
            },
            _ => Effect::Reply { reply: Ok(GameSessionEvent::StartSuccess) },
        }
    }

    /// Takes up the oracle's answer to a guess, which the session holds, on
    /// behalf of the parked call.
    fn settle_guess(&mut self) -> (effect: Effect)
        requires
            old(self)@.session_status matches SessionStatusView::ReplyReceived(event)
                && event is WordChecked,
        ensures
            old(self)@.session_status matches SessionStatusView::ReplyReceived(
                WordleEventView::WordChecked { correct_positions, contained_in_word, .. },
            ) && final(self)@ == old(self)@.settle_guess(correct_positions, contained_in_word).0
                && effect@ == old(self)@.settle_guess(correct_positions, contained_in_word).1,
    {
        let mut status = SessionStatus::WaitUserInput;
        core::mem::swap(&mut self.session_status, &mut status);
        match status {
            SessionStatus::ReplyReceived(event) => {
                let tries: u8 = if self.tries < u8::MAX {
                    self.tries + 1
                } else {
                    self.tries
                };
                let full = match &event {
                    WordleEvent::WordChecked { correct_positions, .. } => is_full_match(
                        correct_positions,
                    ),
                    WordleEvent::GameStarted { .. } => false,
                };
                let game_over = if full {
                    Some(GameStatus::Win)
                } else if tries >= MAX_TRIES {
                    Some(GameStatus::Lose)
                } else {
                    None
                };
                self.tries = tries;
                match game_over {
                    Some(status) => {
                        self.session_status = SessionStatus::GameOver(status);
                    },
                    None => {},
                }
                Effect::Reply { reply: Ok(GameSessionEvent::from(event, tries, game_over)) }
            },
            _ => Effect::Ignore,
        }
    }

    /// Takes in `CheckWord` with `word` from `user`, carried by the message
    /// `msg_id`.
    pub fn check_word(&mut self, user: ActorId, msg_id: MessageId, word: String) -> (effect: Effect)
        ensures
            final(self)@ == old(self)@.check_word(user, msg_id, word@).0,
            effect@ == old(self)@.check_word(user, msg_id, word@).1,
    {
        let resumed = msg_id == self.original_msg_id;
        match self.session_status {
            SessionStatus::WaitUserInput => {
                if self.tries >= MAX_TRIES {
                    self.session_status = SessionStatus::GameOver(GameStatus::Lose);
                    Effect::Reply { reply: Ok(GameSessionEvent::GameOver(GameStatus::Lose)) }
                } else if !is_valid_guess(word.as_str()) {
                    Effect::Reply { reply: Err(GameSessionError::InvalidGuess) }
                } else {
                    self.original_msg_id = msg_id;
                    self.send_to_wordle_msg_id = msg_id;
                    self.session_status = SessionStatus::WaitWordleCheckWordReply;
                    Effect::Forward { request: WordleAction::CheckWord { user, word } }
                }
            },
            SessionStatus::ReplyReceived(WordleEvent::WordChecked { .. }) => {
                if resumed {
                    self.settle_guess()
                } else {
                    let status = self.session_status.user_status();
                    Effect::Reply { reply: Err(GameSessionError::NoActiveGame(status)) }
                }
            },
            SessionStatus::GameOver(status) => Effect::Reply {
                reply: Ok(GameSessionEvent::GameOver(status)),
            },
            _ => {
                let status = self.session_status.user_status();
                Effect::Reply { reply: Err(GameSessionError::NoActiveGame(status)) }
            },
        }
    }

    /// Takes in an answer of the oracle that names this session's user.
    pub fn receive_reply(&mut self, event: WordleEvent) -> (effect: Effect)
        ensures
            final(self)@ == old(self)@.receive_reply(event@).0,
            effect@ == old(self)@.receive_reply(event@).1,
    {
        let awaited = match (&self.session_status, &event) {
            (SessionStatus::WaitWordleStartReply, WordleEvent::GameStarted { .. }) => true,
            (SessionStatus::WaitWordleCheckWordReply, WordleEvent::WordChecked { .. }) => true,
            _ => false,
        };
        if awaited {
            self.send_to_wordle_msg_id = MessageId::zero();
            self.session_status = SessionStatus::ReplyReceived(event);
            Effect::Wake { message: self.original_msg_id }
        } else {
            Effect::Ignore
        }
    }

    /// Takes in the delayed status check for the game `session_id`. Returns
    /// whether it ended the game.
    pub fn check_game_status(&mut self, session_id: MessageId) -> (expired: bool)
        ensures
            final(self)@ == old(self)@.check_game_status(session_id),
            expired == old(self)@.expires_at(session_id),
    {
        let over = match self.session_status {
            SessionStatus::GameOver(_) => true,
            _ => false,
        };
        if self.session_id == session_id && !over {
            self.send_to_wordle_msg_id = MessageId::zero();
            self.session_status = SessionStatus::GameOver(GameStatus::Lose);
            true
        } else {
            false
        }
    }
}

} // verus!
