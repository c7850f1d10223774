//! What the coordinator receives, keeps and sends: the actions of a user, the
//! requests to the word oracle and its answers, and the state of one session.

use crate::ids::{ActorId, MessageId};
use vstd::prelude::*;

verus! {

/// Guesses that one game allows.
pub const MAX_TRIES: u8 = 6;

/// Letters in the secret word and in every guess.
pub const WORD_LENGTH: usize = 5;

/// Time units between the start of a round and the check that ends an
/// unfinished game as lost.
pub const TIMEOUT_DELAY: u32 = 200;

/// Names the coordinator's interface: it is set up with a `GameSessionInit`,
/// takes a `GameSessionAction`, answers with a `GameSessionEvent` or a
/// `GameSessionError`, and shows its state as a `GameSessionState`.
pub struct GameSessionMetadata;

/// What the coordinator is set up with.
#[derive(Clone, Copy, Debug, PartialEq, Eq)]
pub struct GameSessionInit {
    pub wordle_program_id: ActorId,
}

impl GameSessionInit {
    /// The oracle must be a real actor.
    pub open spec fn valid(&self) -> bool {
        !self.wordle_program_id.is_zero()
    }

    /// Whether the configuration is valid.
    pub fn is_valid(&self) -> (valid: bool)
        ensures
            valid == self.valid(),
    {
        !self.wordle_program_id.is_zero()
    }

    /// States that the configuration is valid: a caller has to show it.
    pub fn assert_valid(&self)
        requires
            self.valid(),
    {
    }
}

/// How a game ended.
#[derive(Clone, Copy, Debug, PartialEq, Eq, Structural)]
pub enum GameStatus {
    Win,
    Lose,
}

/// What a session's status means to its user.
#[derive(Clone, Copy, Debug, PartialEq, Eq, Structural)]
pub enum UserStatus {
    GameNotStarted,
    GameStarted,
    GameOver(GameStatus),
}

/// An inbound action. The first two come from a user; the third the
/// coordinator sends to itself, delayed, when a round has started.
#[derive(Clone, Debug, PartialEq, Eq)]
pub enum GameSessionAction {
    StartGame,
    CheckWord { word: String },
    CheckGameStatus { user: ActorId, session_id: MessageId },
}

/// An inbound action, as what it holds.
pub enum GameSessionActionView {
    StartGame,
    CheckWord { word: Seq<char> },
    CheckGameStatus { user: ActorId, session_id: MessageId },
}

impl View for GameSessionAction {
    type V = GameSessionActionView;

    open spec fn view(&self) -> GameSessionActionView {
        match *self {
            GameSessionAction::StartGame => GameSessionActionView::StartGame,
            GameSessionAction::CheckWord { word } => {
                GameSessionActionView::CheckWord { word: word@ }
            },
            GameSessionAction::CheckGameStatus { user, session_id } => {
                GameSessionActionView::CheckGameStatus { user, session_id }
            },
        }
    }
}

/// A request to the word oracle.
#[derive(Clone, Debug, PartialEq, Eq)]
pub enum WordleAction {
    StartGame { user: ActorId },
    CheckWord { user: ActorId, word: String },
}

/// A request to the word oracle, as what it holds.
pub enum WordleActionView {
    StartGame { user: ActorId },
    CheckWord { user: ActorId, word: Seq<char> },
}

impl View for WordleAction {
    type V = WordleActionView;

    open spec fn view(&self) -> WordleActionView {
        match *self {
            WordleAction::StartGame { user } => WordleActionView::StartGame { user },
            WordleAction::CheckWord { user, word } => {
                WordleActionView::CheckWord { user, word: word@ }
            },
        }
    }
}

/// An answer of the word oracle. It names the user whose request it answers.
#[derive(Debug, PartialEq, Eq)]
pub enum WordleEvent {
    GameStarted { user: ActorId },
    WordChecked { user: ActorId, correct_positions: Vec<u8>, contained_in_word: Vec<u8> },
}

/// An answer of the word oracle, as what it holds.
pub enum WordleEventView {
    GameStarted { user: ActorId },
    WordChecked { user: ActorId, correct_positions: Seq<u8>, contained_in_word: Seq<u8> },
}

impl View for WordleEvent {
    type V = WordleEventView;

    open spec fn view(&self) -> WordleEventView {
        match *self {
            WordleEvent::GameStarted { user } => WordleEventView::GameStarted { user },
            WordleEvent::WordChecked { user, correct_positions, contained_in_word } => {
                WordleEventView::WordChecked {
                    user,
                    correct_positions: correct_positions@,
                    contained_in_word: contained_in_word@,
                }
            },
        }
    }
}

impl WordleEventView {
    pub open spec fn user(self) -> ActorId {
        match self {
            WordleEventView::GameStarted { user } => user,
            WordleEventView::WordChecked { user, .. } => user,
        }
    }
}

impl Clone for WordleEvent {
    fn clone(&self) -> (copy: Self)
        ensures
            copy@ == self@,
    {
        match self {
            WordleEvent::GameStarted { user } => WordleEvent::GameStarted { user: *user },
            WordleEvent::WordChecked { user, correct_positions, contained_in_word } => {
                WordleEvent::WordChecked {
                    user: *user,
                    correct_positions: correct_positions.clone(),
                    contained_in_word: contained_in_word.clone(),
                }
            },
        }
    }
}

impl WordleEvent {
    /// The user whose request this event answers.
    pub fn get_user(&self) -> (user: &ActorId)
        ensures
            *user == self@.user(),
    {
        match self {
            WordleEvent::GameStarted { user } => user,
            WordleEvent::WordChecked { user, .. } => user,
        }
    }
}

/// An answer to a user.
#[derive(Clone, Debug, PartialEq, Eq)]
pub enum GameSessionEvent {
    /// The round has started and guesses are awaited.
    StartSuccess,
    /// A guess was checked: where its letters stand, how many guesses are
    /// used up, and how the game ended if this guess ended it.
    CheckWordResult {
        correct_positions: Vec<u8>,
        contained_in_word: Vec<u8>,
        tries: u8,
        game_over: Option<GameStatus>,
    },
    /// The game is over.
    GameOver(GameStatus),
}

/// An answer to a user, as what it holds.
pub enum GameSessionEventView {
    StartSuccess,
    CheckWordResult {
        correct_positions: Seq<u8>,
        contained_in_word: Seq<u8>,
        tries: u8,
        game_over: Option<GameStatus>,
    },
    GameOver(GameStatus),
}

impl View for GameSessionEvent {
    type V = GameSessionEventView;

    open spec fn view(&self) -> GameSessionEventView {
        match *self {
            GameSessionEvent::StartSuccess => GameSessionEventView::StartSuccess,
            GameSessionEvent::CheckWordResult {
                correct_positions,
                contained_in_word,
                tries,
                game_over,
            } => GameSessionEventView::CheckWordResult {
                correct_positions: correct_positions@,
                contained_in_word: contained_in_word@,
                tries,
                game_over,
            },
            GameSessionEvent::GameOver(status) => GameSessionEventView::GameOver(status),
        }
    }
}

impl GameSessionEventView {
    /// The answer that passes an oracle's event on to the user, together with
    /// the guesses used up and the end of the game, if it has ended.
    pub open spec fn from_wordle(
        event: WordleEventView,
        tries: u8,
        game_over: Option<GameStatus>,
    ) -> GameSessionEventView {
        match event {
            WordleEventView::GameStarted { .. } => GameSessionEventView::StartSuccess,
            WordleEventView::WordChecked { correct_positions, contained_in_word, .. } => {
                GameSessionEventView::CheckWordResult {
                    correct_positions,
                    contained_in_word,
                    tries,
                    game_over,
                }
            },
        }
    }
}

impl GameSessionEvent {
    /// Passes an oracle's event on to the user: the start of a round as
    /// `StartSuccess`, a checked word with its positions, the guesses used up
    /// and the end of the game.
    pub fn from(
        event: WordleEvent,
        tries: u8,
        game_over: Option<GameStatus>,
    ) -> (answer: GameSessionEvent)
        ensures
            answer@ == GameSessionEventView::from_wordle(event@, tries, game_over),
    {
        match event {
            WordleEvent::GameStarted { .. } => GameSessionEvent::StartSuccess,
            WordleEvent::WordChecked { correct_positions, contained_in_word, .. } => {
                GameSessionEvent::CheckWordResult {
                    correct_positions,
                    contained_in_word,
                    tries,
                    game_over,
                }
            },
        }
    }
}

/// Why a user's action was turned down. Nothing changes when one is returned.
#[derive(Clone, Copy, Debug, PartialEq, Eq)]
pub enum GameSessionError {
    /// The guess has not `WORD_LENGTH` letters, or a letter outside `a` to `z`.
    InvalidGuess,
    /// The user has no session, or it is in no state to take a guess.
    NoActiveGame(UserStatus),
}

/// Where a session stands.
#[derive(Debug, PartialEq, Eq)]
pub enum SessionStatus {
    /// Created, no round asked for yet.
    Init,
    /// A round is on and the user may guess.
    WaitUserInput,
    /// The oracle was asked to start a round and has not answered.
    WaitWordleStartReply,
    /// The oracle was asked to check a guess and has not answered.
    WaitWordleCheckWordReply,
    /// The oracle has answered; the parked call has not yet taken it up.
    ReplyReceived(WordleEvent),
    /// The game has ended.
    GameOver(GameStatus),
}

/// Where a session stands, as what the status holds.
pub enum SessionStatusView {
    Init,
    WaitUserInput,
    WaitWordleStartReply,
    WaitWordleCheckWordReply,
    ReplyReceived(WordleEventView),
    GameOver(GameStatus),
}

impl View for SessionStatus {
    type V = SessionStatusView;

    open spec fn view(&self) -> SessionStatusView {
        match *self {
            SessionStatus::Init => SessionStatusView::Init,
            SessionStatus::WaitUserInput => SessionStatusView::WaitUserInput,
            SessionStatus::WaitWordleStartReply => SessionStatusView::WaitWordleStartReply,
            SessionStatus::WaitWordleCheckWordReply => SessionStatusView::WaitWordleCheckWordReply,
            SessionStatus::ReplyReceived(event) => SessionStatusView::ReplyReceived(event@),
            SessionStatus::GameOver(status) => SessionStatusView::GameOver(status),
        }
    }
}

impl SessionStatusView {
    /// A request to the oracle is outstanding.
    pub open spec fn awaits_oracle(self) -> bool {
        self is WaitWordleStartReply || self is WaitWordleCheckWordReply
    }

    /// What the status means to the user: a game counts as started from the
    /// moment the user may guess until it ends.
    pub open spec fn user_status(self) -> UserStatus {
        match self {
            SessionStatusView::Init => UserStatus::GameNotStarted,
            SessionStatusView::WaitWordleStartReply => UserStatus::GameNotStarted,
            SessionStatusView::ReplyReceived(WordleEventView::GameStarted { .. }) => {
                UserStatus::GameNotStarted
            },
            SessionStatusView::WaitUserInput => UserStatus::GameStarted,
            SessionStatusView::WaitWordleCheckWordReply => UserStatus::GameStarted,
            SessionStatusView::ReplyReceived(WordleEventView::WordChecked { .. }) => {
                UserStatus::GameStarted
            },
            SessionStatusView::GameOver(status) => UserStatus::GameOver(status),
        }
    }
}

impl Clone for SessionStatus {
    fn clone(&self) -> (copy: Self)
        ensures
            copy@ == self@,
    {
        match self {
            SessionStatus::Init => SessionStatus::Init,
            SessionStatus::WaitUserInput => SessionStatus::WaitUserInput,
            SessionStatus::WaitWordleStartReply => SessionStatus::WaitWordleStartReply,
            SessionStatus::WaitWordleCheckWordReply => SessionStatus::WaitWordleCheckWordReply,
            SessionStatus::ReplyReceived(event) => SessionStatus::ReplyReceived(event.clone()),
            SessionStatus::GameOver(status) => SessionStatus::GameOver(*status),
        }
    }
}

impl SessionStatus {
    pub fn user_status(&self) -> (r: UserStatus)
        ensures
            r == self@.user_status(),
    {
        match self {
            SessionStatus::Init => UserStatus::GameNotStarted,
            SessionStatus::WaitWordleStartReply => UserStatus::GameNotStarted,
            SessionStatus::ReplyReceived(WordleEvent::GameStarted { .. }) => {
                UserStatus::GameNotStarted
            },
            SessionStatus::WaitUserInput => UserStatus::GameStarted,
            SessionStatus::WaitWordleCheckWordReply => UserStatus::GameStarted,
            SessionStatus::ReplyReceived(WordleEvent::WordChecked { .. }) => {
                UserStatus::GameStarted
            },
            SessionStatus::GameOver(status) => UserStatus::GameOver(*status),
        }
    }
}

/// One user's session.
#[derive(Debug, PartialEq, Eq)]
pub struct SessionInfo {
    /// The `StartGame` call that began the current game. A delayed status
    /// check counts only while it carries this identifier.
    pub session_id: MessageId,
    /// The call that is parked, or was parked last.
    pub original_msg_id: MessageId,
    /// The call on whose behalf a request to the oracle is outstanding; zero
    /// when none is.
    pub send_to_wordle_msg_id: MessageId,
    /// Guesses used up in the current game.
    pub tries: u8,
    pub session_status: SessionStatus,
}

/// One user's session, as what it holds.
pub struct SessionInfoView {
    pub session_id: MessageId,
    pub original_msg_id: MessageId,
    pub send_to_wordle_msg_id: MessageId,
    pub tries: u8,
    pub session_status: SessionStatusView,
}

impl View for SessionInfo {
    type V = SessionInfoView;

    open spec fn view(&self) -> SessionInfoView {
        SessionInfoView {
            session_id: self.session_id,
            original_msg_id: self.original_msg_id,
            send_to_wordle_msg_id: self.send_to_wordle_msg_id,
            tries: self.tries,
            session_status: self.session_status@,
        }
    }
}

impl Clone for SessionInfo {
    fn clone(&self) -> (copy: Self)
        ensures
            copy@ == self@,
    {
        SessionInfo {
            session_id: self.session_id,
            original_msg_id: self.original_msg_id,
            send_to_wordle_msg_id: self.send_to_wordle_msg_id,
            tries: self.tries,
            session_status: self.session_status.clone(),
        }
    }
}

/// The inbound message that carries an action: who sent it, which message it
/// is, and the coordinator's own identity, by which it knows its own messages.
#[derive(Clone, Copy, Debug, PartialEq, Eq)]
pub struct MessageContext {
    pub source: ActorId,
    pub id: MessageId,
    pub program: ActorId,
}

/// What is to be done once an inbound message has been taken in.
#[derive(Debug, PartialEq, Eq)]
pub enum Effect {
    /// Nothing: the message was stale or not for the coordinator to act on.
    Ignore,
    /// Send the request to the oracle and park the current call.
    Forward { request: WordleAction },
    /// Answer the current call.
    Reply { reply: Result<GameSessionEvent, GameSessionError> },
    /// Answer the current call, and send `check` to the coordinator itself
    /// after `delay` time units.
    ReplyAndSchedule { event: GameSessionEvent, check: GameSessionAction, delay: u32 },
    /// Resume the parked call `message`.
    Wake { message: MessageId },
}

/// What is to be done, as what the effect holds.
pub enum EffectView {
    Ignore,
    Forward { request: WordleActionView },
    Reply { reply: Result<GameSessionEventView, GameSessionError> },
    ReplyAndSchedule { event: GameSessionEventView, check: GameSessionActionView, delay: u32 },
    Wake { message: MessageId },
}

impl View for Effect {
    type V = EffectView;

    open spec fn view(&self) -> EffectView {
        match *self {
            Effect::Ignore => EffectView::Ignore,
            Effect::Forward { request } => EffectView::Forward { request: request@ },
            Effect::Reply { reply: Ok(event) } => EffectView::Reply { reply: Ok(event@) },
            Effect::Reply { reply: Err(error) } => EffectView::Reply { reply: Err(error) },
            Effect::ReplyAndSchedule { event, check, delay } => EffectView::ReplyAndSchedule {
                event: event@,
                check: check@,
                delay,
            },
            Effect::Wake { message } => EffectView::Wake { message },
        }
    }
}

impl EffectView {
    /// The effect contacts the oracle.
    pub open spec fn contacts_oracle(self) -> bool {
        self is Forward
    }
}

/// What the coordinator shows of itself: every known user with the session,
/// and the fixed rules of the game.
#[derive(Clone, Debug, PartialEq, Eq)]
pub struct GameSessionState {
    pub wordle_program_id: ActorId,
    pub game_sessions: Vec<(ActorId, SessionInfo)>,
    pub word_length: usize,
    pub max_tries: u8,
    pub timeout_delay: u32,
}

} // verus!
