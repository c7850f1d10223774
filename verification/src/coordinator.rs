//! The coordinator: it owns the session table and takes in every inbound
//! message, from users, from the oracle and from its own timer.

use crate::ids::ActorId;
use crate::laws::{tries_stay_bounded, tries_stay_bounded_on_reply};
use crate::session_io::{
    Effect, EffectView, GameSessionAction, GameSessionActionView, GameSessionError,
    GameSessionInit, GameSessionState, MessageContext, SessionInfo, SessionInfoView, UserStatus,
    WordleEvent, WordleEventView, MAX_TRIES, TIMEOUT_DELAY, WORD_LENGTH,
};
use crate::table::{
    session_entries, table_get, table_get_mut, table_get_or_insert, table_new, table_snapshot,
    SessionTable,
};
use vstd::prelude::*;

verus! {

/// The coordinator's state: the oracle it relays to, and one session per user.
pub struct GameSession {
    pub wordle_program_id: ActorId,
    pub sessions: SessionTable,
}

/// The coordinator's state, as what it holds: the session table as a map.
pub struct GameSessionView {
    pub wordle_program_id: ActorId,
    pub sessions: Map<ActorId, SessionInfoView>,
}

impl View for GameSession {
    type V = GameSessionView;

    open spec fn view(&self) -> GameSessionView {
        GameSessionView { wordle_program_id: self.wordle_program_id, sessions: self.sessions@ }
    }
}

impl GameSessionView {
    /// The table that holds no session.
    pub open spec fn no_sessions() -> Map<ActorId, SessionInfoView> {
        Map::empty()
    }

    /// Every session is well-formed.
    pub open spec fn wf(self) -> bool {
        forall|user: ActorId| #[trigger]
            self.sessions.contains_key(user) ==> self.sessions[user].wf()
    }

    /// The coordinator with `session` stored for `user`.
    pub open spec fn with_session(
        self,
        user: ActorId,
        session: SessionInfoView,
    ) -> GameSessionView {
        GameSessionView { sessions: self.sessions.insert(user, session), ..self }
    }

    /// An inbound action, carried by the message that `ctx` describes.
    ///
    /// `StartGame` and `CheckWord` act on the session of the sender: the first
    /// creates it where there is none, the second is turned down where there
    /// is none. `CheckGameStatus` counts only if the coordinator sent it to
    /// itself, and acts on the session of the user that it names. No other
    /// session changes.
    pub open spec fn handle(self, ctx: MessageContext, action: GameSessionActionView) -> (
        GameSessionView,
        EffectView,
    ) {
        match action {
            GameSessionActionView::StartGame => {
                let session = if self.sessions.contains_key(ctx.source) {
                    self.sessions[ctx.source]
                } else {
                    SessionInfoView::fresh(ctx.id)
                };
                let (session, effect) = session.start_game(ctx.source, ctx.id);
                (self.with_session(ctx.source, session), effect)
            },
            GameSessionActionView::CheckWord { word } => {
                if self.sessions.contains_key(ctx.source) {
                    let (session, effect) = self.sessions[ctx.source].check_word(
                        ctx.source,
                        ctx.id,
                        word,
                    );
                    (self.with_session(ctx.source, session), effect)
                } else {
                    (
                        self,
                        EffectView::Reply {
                            reply: Err(GameSessionError::NoActiveGame(UserStatus::GameNotStarted)),
                        },
                    )
                }
            },
            GameSessionActionView::CheckGameStatus { user, session_id } => {
                if ctx.source == ctx.program && self.sessions.contains_key(user) {
                    (
                        self.with_session(user, self.sessions[user].check_game_status(session_id)),
                        EffectView::Ignore,
                    )
                } else {
                    (self, EffectView::Ignore)
                }
            },
        }
    }

    /// An answer of the oracle. It goes to the session of the user that it
    /// names; where that user has no session it is dropped.
    pub open spec fn handle_reply(self, event: WordleEventView) -> (GameSessionView, EffectView) {
        let user = event.user();
        if self.sessions.contains_key(user) {
            let (session, effect) = self.sessions[user].receive_reply(event);
            (self.with_session(user, session), effect)
        } else {
            (self, EffectView::Ignore)
        }
    }

    /// What a user is told of the game on inquiry.
    pub open spec fn user_status(self, user: ActorId) -> UserStatus {
        if self.sessions.contains_key(user) {
            self.sessions[user].session_status.user_status()
        } else {
            UserStatus::GameNotStarted
        }
    }
}

impl GameSession {
    /// The coordinator for the oracle that `init` names, with no session yet.
    pub fn from(init: GameSessionInit) -> (game: GameSession)
        ensures
            game@.wordle_program_id == init.wordle_program_id,
            game@.sessions == GameSessionView::no_sessions(),
            game@.wf(),
    {
        let game = GameSession { wordle_program_id: init.wordle_program_id, sessions: table_new() };
        assert(game@.sessions =~= GameSessionView::no_sessions());
        game
    }

    /// Takes in an inbound action and says what is to be done about it.
    ///
    /// A request in a `Forward` is for the oracle, `self.wordle_program_id`.
    pub fn handle(&mut self, ctx: MessageContext, action: GameSessionAction) -> (effect: Effect)
        ensures
            final(self)@ == old(self)@.handle(ctx, action@).0,
            effect@ == old(self)@.handle(ctx, action@).1,
            old(self)@.wf() ==> final(self)@.wf(),
    {
        proof {
            if self@.wf() {
                tries_stay_bounded(self@, ctx, action@);
            }
        }
        let ghost before = self.sessions@;
        match action {
            GameSessionAction::StartGame => {
                let session = table_get_or_insert(
                    &mut self.sessions,
                    ctx.source,
                    SessionInfo::new(ctx.id),
                );
                let effect = session.start_game(ctx.source, ctx.id);
                assert(self.sessions@ =~= before.insert(
                    ctx.source,
                    old(self)@.handle(ctx, action@).0.sessions[ctx.source],
                ));
                effect
            },
            GameSessionAction::CheckWord { word } => {
                match table_get_mut(&mut self.sessions, &ctx.source) {
                    Some(session) => {
                        let effect = session.check_word(ctx.source, ctx.id, word);
                        assert(self.sessions@ =~= before.insert(
                            ctx.source,
                            old(self)@.handle(ctx, action@).0.sessions[ctx.source],
                        ));
                        effect
                    },
                    None => {
                        assert(self.sessions@ =~= before);
                        Effect::Reply {
                            reply: Err(GameSessionError::NoActiveGame(UserStatus::GameNotStarted)),
                        }
                    },
                }
            },
            GameSessionAction::CheckGameStatus { user, session_id } => {
                if ctx.source == ctx.program {
                    match table_get_mut(&mut self.sessions, &user) {
                        Some(session) => {
                            session.check_game_status(session_id);
                            assert(self.sessions@ =~= before.insert(
                                user,
                                before[user].check_game_status(session_id),
                            ));
                        },
                        None => {
                            assert(self.sessions@ =~= before);
                        },
                    }
                }
                Effect::Ignore
            },
        }
    }

    /// Takes in an answer of the oracle and says which parked call, if any, is
    /// to be resumed.
    pub fn handle_reply(&mut self, event: WordleEvent) -> (effect: Effect)
        ensures
            final(self)@ == old(self)@.handle_reply(event@).0,
            effect@ == old(self)@.handle_reply(event@).1,
            old(self)@.wf() ==> final(self)@.wf(),
    {
        proof {
            if self@.wf() {
                tries_stay_bounded_on_reply(self@, event@);
            }
        }
        let ghost before = self.sessions@;
        let user = *event.get_user();
        match table_get_mut(&mut self.sessions, &user) {
            Some(session) => {
                let effect = session.receive_reply(event);
                assert(self.sessions@ =~= before.insert(
                    user,
                    before[user].receive_reply(event@).0,
                ));
                effect
            },
            None => {
                assert(self.sessions@ =~= before);
                Effect::Ignore
            },
        }
    }

    /// The session of `user`, if there is one.
    pub fn session(&self, user: &ActorId) -> (found: Option<&SessionInfo>)
        ensures
            found.is_some() == self@.sessions.contains_key(*user),
            found matches Some(session) ==> session@ == self@.sessions[*user],
    {
        table_get(&self.sessions, user)
    }

    /// What `user` is told of the game on inquiry: not started where there is
    /// no session.
    pub fn user_status(&self, user: &ActorId) -> (status: UserStatus)
        ensures
            status == self@.user_status(*user),
    {
        match table_get(&self.sessions, user) {
            Some(session) => session.session_status.user_status(),
            None => UserStatus::GameNotStarted,
        }
    }

    /// The state for inspection: every user once, with the session, in no
    /// particular order, and the fixed rules of the game.
    pub fn state(&self) -> (state: GameSessionState)
        ensures
            state.shows(self@),
    {
        GameSessionState::from(self)
    }
}

impl GameSessionState {
    /// The state shows the coordinator `game`: its oracle and the fixed rules
    /// of the game; every user that has a session exactly once, in whatever
    /// order, each with the session as it stands.
    pub open spec fn shows(&self, game: GameSessionView) -> bool {
        &&& self.wordle_program_id == game.wordle_program_id
        &&& self.word_length == WORD_LENGTH
        &&& self.max_tries == MAX_TRIES
        &&& self.timeout_delay == TIMEOUT_DELAY
        &&& forall|i: int|
            0 <= i < self.game_sessions@.len() ==> {
                &&& game.sessions.contains_key(#[trigger] self.game_sessions@[i].0)
                &&& self.game_sessions@[i].1@ == game.sessions[self.game_sessions@[i].0]
            }
        &&& forall|i: int, j: int|
            0 <= i < j < self.game_sessions@.len() ==> #[trigger] self.game_sessions@[i].0
                != #[trigger] self.game_sessions@[j].0
        &&& forall|user: ActorId| #[trigger]
            game.sessions.contains_key(user) ==> exists|i: int|
                0 <= i < self.game_sessions@.len() && #[trigger] self.game_sessions@[i].0 == user
    }

    /// The state of `game` for inspection.
    pub fn from(game: &GameSession) -> (state: GameSessionState)
        ensures
            state.shows(game@),
    {
        let game_sessions = table_snapshot(&game.sessions);
        proof {
            assert forall|user: ActorId| #[trigger]
                game@.sessions.contains_key(user) implies exists|i: int|
                0 <= i < game_sessions@.len() && #[trigger] game_sessions@[i].0 == user by {
                assert(session_entries(game.sessions).contains_key(user));
            }
        }
        GameSessionState {
            wordle_program_id: game.wordle_program_id,
            game_sessions,
            word_length: WORD_LENGTH,
            max_tries: MAX_TRIES,
            timeout_delay: TIMEOUT_DELAY,
        }
    }
}

} // verus!
