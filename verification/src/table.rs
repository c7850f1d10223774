//! The session table: one session per user, kept in a hash map.
//!
//! The map is `gstd`'s, which is `hashbrown`'s. Nothing here is proved of it:
//! each function below states what the map's own code does, and the rest of
//! the library rests on these statements.

use crate::ids::ActorId;
use crate::session_io::{SessionInfo, SessionInfoView};
use gstd::collections::HashMap;
use vstd::prelude::*;

verus! {

/// The table of sessions, keyed by user. It holds a
/// `gstd::collections::HashMap`, which is hidden from the verifier.
#[verifier::external_body]
pub struct SessionTable {
    map: HashMap<ActorId, SessionInfo>,
}

/// What a table holds: the users that have a session, each with its session.
pub uninterp spec fn session_entries(table: SessionTable) -> Map<ActorId, SessionInfo>;

impl View for SessionTable {
    type V = Map<ActorId, SessionInfoView>;

    open spec fn view(&self) -> Map<ActorId, SessionInfoView> {
        session_entries(*self).map_values(|session: SessionInfo| session@)
    }
}

/// `HashMap::new`: a map that holds nothing.
#[verifier::external_body]
pub(crate) fn table_new() -> (empty: SessionTable)
    ensures
        forall|user: ActorId| !session_entries(empty).contains_key(user),
{
    SessionTable { map: HashMap::new() }
}

/// `HashMap::get`: the session stored under `user`, if there is one. The map
/// finds a key by its hash and by `==`, which for `ActorId` compares the bytes.
#[verifier::external_body]
pub(crate) fn table_get<'a>(
    table: &'a SessionTable,
    user: &ActorId,
) -> (found: Option<&'a SessionInfo>)
    ensures
        found.is_some() == session_entries(*table).contains_key(*user),
        found matches Some(session) ==> *session == session_entries(*table)[*user],
{
    table.map.get(user)
}

/// `HashMap::get_mut`: the session stored under `user`, if there is one, to be
/// changed in place. The table afterwards holds under `user` whatever the
/// caller left there, and is otherwise as before.
#[verifier::external_body]
pub(crate) fn table_get_mut<'a>(
    table: &'a mut SessionTable,
    user: &ActorId,
) -> (found: Option<&'a mut SessionInfo>)
    ensures
        found.is_some() == session_entries(*old(table)).contains_key(*user),
        found matches Some(session) ==> *session == session_entries(*old(table))[*user],
        found matches Some(session) ==> session_entries(*final(table)) == session_entries(
            *old(table),
        ).insert(*user, *final(session)),
        found.is_none() ==> session_entries(*final(table)) == session_entries(*old(table)),
{
    table.map.get_mut(user)
}

/// `HashMap::entry` followed by `Entry::or_insert`: the session stored under
/// `user`, to be changed in place; where there was none, `fresh` is stored
/// first. The table afterwards holds under `user` whatever the caller left
/// there, and is otherwise as before.
#[verifier::external_body]
pub(crate) fn table_get_or_insert<'a>(
    table: &'a mut SessionTable,
    user: ActorId,
    fresh: SessionInfo,
) -> (session: &'a mut SessionInfo)
    ensures
        *session == (if session_entries(*old(table)).contains_key(user) {
            session_entries(*old(table))[user]
        } else {
            fresh
        }),
        session_entries(*final(table)) == session_entries(*old(table)).insert(
            user,
            *final(session),
        ),
{
    table.map.entry(user).or_insert(fresh)
}

/// `HashMap::iter`, each pair copied out: every user of the table once, with
/// a copy of the session, in the order in which the map walks its buckets.
/// That order is left open.
#[verifier::external_body]
pub(crate) fn table_snapshot(table: &SessionTable) -> (pairs: Vec<(ActorId, SessionInfo)>)
    ensures
        forall|i: int|
            0 <= i < pairs@.len() ==> session_entries(*table).contains_key(
                #[trigger] pairs@[i].0,
            ),
        forall|i: int|
            0 <= i < pairs@.len() ==> (#[trigger] pairs@[i]).1@ == session_entries(
                *table,
            )[pairs@[i].0]@,
        forall|i: int, j: int|
            0 <= i < j < pairs@.len() ==> #[trigger] pairs@[i].0 != #[trigger] pairs@[j].0,
        forall|user: ActorId| #[trigger]
            session_entries(*table).contains_key(user) ==> exists|i: int|
                0 <= i < pairs@.len() && #[trigger] pairs@[i].0 == user,
{
    table.map.iter().map(|(user, session)| (*user, session.clone())).collect()
}

} // verus!
