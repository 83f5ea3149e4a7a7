//! The chat-session store: each chat's active project.
//!
//! One entry per chat that has ever set a project; overwritten on each
//! setting, never expiring, held in memory only.

use std::collections::hash_map::RandomState;
use vstd::prelude::*;
use crate::ids::EntityId;

verus! {

/// What the session map holds: each chat's active project identifier value.
pub uninterp spec fn session_entries(m: dashmap::DashMap<i64, u128, RandomState>) -> Map<
    i64,
    u128,
>;

/// Relies on `dashmap::DashMap::new`: a new map is empty.
#[verifier::external_body]
fn session_map_new() -> (m: dashmap::DashMap<i64, u128, RandomState>)
    ensures
        forall|c: i64| !session_entries(m).dom().contains(c),
{
    dashmap::DashMap::new()
}

/// Relies on `dashmap::DashMap::get`: the value stored under the key, if
/// any.
#[verifier::external_body]
fn session_map_get(m: &dashmap::DashMap<i64, u128, RandomState>, k: i64) -> (r: Option<u128>)
    ensures
        r == if session_entries(*m).dom().contains(k) {
            Some(session_entries(*m)[k])
        } else {
            None::<u128>
        },
{
    m.get(&k).map(|entry| *entry)
}

/// Relies on `dashmap::DashMap::insert`: stores the value under the key,
/// replacing any entry the key had.
#[verifier::external_body]
fn session_map_insert(m: &mut dashmap::DashMap<i64, u128, RandomState>, k: i64, v: u128)
    ensures
        session_entries(*final(m)) == session_entries(*old(m)).insert(k, v),
{
    m.insert(k, v);
}

/// The per-chat active-project context.
pub struct SessionStore {
    map: dashmap::DashMap<i64, u128, RandomState>,
}

impl SessionStore {
    /// Each chat's active project, as identifier values.
    pub closed spec fn sessions(&self) -> Map<i64, u128> {
        session_entries(self.map)
    }

    /// An empty store: no chat has an active project.
    pub fn new() -> (s: Self)
        ensures
            s.sessions() == Map::<i64, u128>::empty(),
    {
        let s = SessionStore { map: session_map_new() };
        proof {
            assert(s.sessions() =~= Map::<i64, u128>::empty());
        }
        s
    }

    /// The chat's active project, if it has set one.
    pub fn get_active_project(&self, chat_id: i64) -> (r: Option<EntityId>)
        ensures
            r == if self.sessions().dom().contains(chat_id) {
                Some(EntityId { value: self.sessions()[chat_id] })
            } else {
                None::<EntityId>
            },
    {
        match session_map_get(&self.map, chat_id) {
            Some(v) => Some(EntityId { value: v }),
            None => None,
        }
    }

    /// Set the chat's active project, overwriting any earlier choice.
    pub fn set_active_project(&mut self, chat_id: i64, project_id: EntityId)
        ensures
            final(self).sessions() == old(self).sessions().insert(chat_id, project_id.value),
    {
        session_map_insert(&mut self.map, chat_id, project_id.value);
    }
}

/// Setting a chat's active project makes exactly that project the chat's
/// active one, and a later setting overwrites it, last write wins, with no
/// merging, while other chats' entries stay as they were.
pub proof fn lemma_set_active_project_last_write_wins(
    m: Map<i64, u128>,
    c: i64,
    p: u128,
    p2: u128,
)
    ensures
        m.insert(c, p)[c] == p,
        m.insert(c, p).insert(c, p2)[c] == p2,
        forall|c2: i64|
            c2 != c && m.dom().contains(c2) ==> m.insert(c, p)[c2] == m[c2] && m.insert(
                c,
                p,
            ).insert(c, p2)[c2] == m[c2],
{
}

} // verus!
