//! A coordinator for a word-guessing game. It relays a user's guesses to a
//! separate word oracle, enforces the rules of the game and a deadline, and
//! never learns the secret word itself.
//!
//! The library decides; it sends nothing itself. The runtime around it hands
//! every inbound message to [`coordinator::GameSession`] and carries out the
//! [`session_io::Effect`] that comes back:
//!
//! - an action of a user, or the coordinator's own delayed status check, goes
//!   to `handle`, together with the sender and the identifier of the message;
//! - an answer of the oracle goes to `handle_reply`.
//!
//! A call that has to wait for the oracle is parked: its request is sent on
//! and nothing is answered yet. When the oracle's answer has come, the effect
//! names the parked call, and the runtime delivers that call's message to
//! `handle` once more, under the same identifier. The call then finds the
//! answer in its session and completes.
//!
//! - [`ids`]: identifiers of actors and messages.
//! - [`session_io`]: the messages and the state of a session.
//! - [`session`]: the transitions of one session.
//! - [`table`]: the session table, a hash map behind stated contracts.
//! - [`coordinator`]: the coordinator with its entry points.
//! - [`laws`]: what holds of the coordinator whatever reaches it.
//! - [`wordle_io`], [`wordle`]: the word oracle and its messages.

pub mod coordinator;
pub mod ids;
pub mod laws;
pub mod session;
pub mod session_io;
pub mod table;
pub mod wordle;
pub mod wordle_io;
