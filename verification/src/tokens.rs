//! The link-token store: short-lived, single-use credentials that tie a web
//! session to a chat.
//!
//! A token lives at most fifteen minutes from issuance; expiry is the
//! derived predicate [`spec_token_expired`], not a timer. Validation removes
//! a token it finds expired; completion consumes the token, so a token is
//! honoured at most once.

use std::collections::hash_map::RandomState;
use vstd::prelude::*;
use crate::errors::TelegramError;
use crate::ids::fresh_token_text;

verus! {

/// How long a link token lives, in milliseconds: fifteen minutes.
pub const LINK_TOKEN_TTL_MILLIS: i64 = 900000;

/// Whether a token created at `created_at` is past its lifetime at `now`
/// (both in milliseconds); the boundary instant itself is still within it.
pub open spec fn spec_token_expired(created_at: i64, now: i64) -> bool {
    now > created_at + LINK_TOKEN_TTL_MILLIS
}

/// Relies on `chrono::Utc::now`: the wall clock, in milliseconds since the
/// epoch; nothing is promised of its value.
#[verifier::external_body]
pub(crate) fn now_millis() -> i64 {
    chrono::Utc::now().timestamp_millis()
}

/// A pending link token: the opaque text shown to the user, and when it was
/// issued (milliseconds since the epoch).
#[derive(Debug, Clone)]
pub struct LinkToken {
    pub token: String,
    pub created_at: i64,
}

impl LinkToken {
    /// Whether this token is past its lifetime at `now`.
    pub fn is_expired_at(&self, now: i64) -> (r: bool)
        ensures
            r == spec_token_expired(self.created_at, now),
    {
        (now as i128) > (self.created_at as i128) + (LINK_TOKEN_TTL_MILLIS as i128)
    }

    /// Whether this token is past its lifetime now, by the wall clock.
    pub fn is_expired(&self) -> bool {
        let now = now_millis();
        self.is_expired_at(now)
    }
}

/// What the token map holds: each pending token's text, mapped to its
/// issuance time in milliseconds.
pub uninterp spec fn token_entries(m: dashmap::DashMap<String, i64, RandomState>) -> Map<
    Seq<char>,
    i64,
>;

/// The entries of `m` that are still within their lifetime at `now`.
pub open spec fn spec_live_entries(m: Map<Seq<char>, i64>, now: i64) -> Map<Seq<char>, i64> {
    Map::new(
        |t: Seq<char>| m.dom().contains(t) && !spec_token_expired(m[t], now),
        |t: Seq<char>| m[t],
    )
}

/// Relies on `dashmap::DashMap::new`: a new map is empty.
#[verifier::external_body]
fn token_map_new() -> (m: dashmap::DashMap<String, i64, RandomState>)
    ensures
        forall|t: Seq<char>| !token_entries(m).dom().contains(t),
{
    dashmap::DashMap::new()
}

/// Relies on `dashmap::DashMap::get`: the value stored under the key, if
/// any.
#[verifier::external_body]
fn token_map_get(m: &dashmap::DashMap<String, i64, RandomState>, k: &str) -> (r: Option<i64>)
    ensures
        r == if token_entries(*m).dom().contains(k@) {
            Some(token_entries(*m)[k@])
        } else {
            None::<i64>
        },
{
    m.get(k).map(|entry| *entry)
}

/// Relies on `dashmap::DashMap::insert`: stores the value under the key,
/// replacing any entry the key had.
#[verifier::external_body]
fn token_map_insert(m: &mut dashmap::DashMap<String, i64, RandomState>, k: String, v: i64)
    ensures
        token_entries(*final(m)) == token_entries(*old(m)).insert(k@, v),
{
    m.insert(k, v);
}

/// Relies on `dashmap::DashMap::remove`: takes the key's entry out,
/// returning its value if there was one.
#[verifier::external_body]
fn token_map_remove(m: &mut dashmap::DashMap<String, i64, RandomState>, k: &str) -> (r: Option<
    i64,
>)
    ensures
        token_entries(*final(m)) == token_entries(*old(m)).remove(k@),
        r == if token_entries(*old(m)).dom().contains(k@) {
            Some(token_entries(*old(m))[k@])
        } else {
            None::<i64>
        },
{
    m.remove(k).map(|kv| kv.1)
}

/// Whether a token created at `created_at` is still within its lifetime at
/// `now`.
pub fn token_is_live(created_at: i64, now: i64) -> (r: bool)
    ensures
        r == !spec_token_expired(created_at, now),
{
    !((now as i128) > (created_at as i128) + (LINK_TOKEN_TTL_MILLIS as i128))
}

/// Relies on `dashmap::DashMap::retain`: keeps exactly the entries on which
/// the predicate answers true, their values unchanged.
#[verifier::external_body]
fn token_map_retain_live(m: &mut dashmap::DashMap<String, i64, RandomState>, now: i64)
    ensures
        token_entries(*final(m)) == spec_live_entries(token_entries(*old(m)), now),
{
    m.retain(|_token, created_at| token_is_live(*created_at, now));
}

/// What validating `t` at `now` against the pending entries `m` answers:
/// an unknown token is invalid; a known one past its lifetime is expired;
/// a known, live one is accepted.
pub open spec fn spec_validate(m: Map<Seq<char>, i64>, t: Seq<char>, now: i64) -> Result<
    (),
    TelegramError,
> {
    if !m.dom().contains(t) {
        Err(TelegramError::InvalidLinkToken)
    } else if spec_token_expired(m[t], now) {
        Err(TelegramError::LinkTokenExpired)
    } else {
        Ok(())
    }
}

/// What the pending entries are after validating `t` at `now`: a token
/// found expired is removed; nothing else changes.
pub open spec fn spec_validate_rest(m: Map<Seq<char>, i64>, t: Seq<char>, now: i64) -> Map<
    Seq<char>,
    i64,
> {
    if m.dom().contains(t) && spec_token_expired(m[t], now) {
        m.remove(t)
    } else {
        m
    }
}

/// The pending link tokens, keyed by their opaque text.
pub struct TokenStore {
    map: dashmap::DashMap<String, i64, RandomState>,
}

impl TokenStore {
    /// The pending tokens, each mapped to its issuance time.
    pub closed spec fn entries(&self) -> Map<Seq<char>, i64> {
        token_entries(self.map)
    }

    /// An empty store.
    pub fn new() -> (s: Self)
        ensures
            s.entries() == Map::<Seq<char>, i64>::empty(),
    {
        let s = TokenStore { map: token_map_new() };
        proof {
            assert(s.entries() =~= Map::<Seq<char>, i64>::empty());
        }
        s
    }

    /// Issue a fresh token at `now`: expired entries are evicted first, and
    /// the new token is recorded as issued at `now`.
    pub fn issue_at(&mut self, now: i64) -> (token: String)
        ensures
            final(self).entries() == spec_live_entries(old(self).entries(), now).insert(
                token@,
                now,
            ),
    {
        token_map_retain_live(&mut self.map, now);
        let token = fresh_token_text();
        let stored = token.clone();
        token_map_insert(&mut self.map, stored, now);
        token
    }

    /// Validate `token` at `now`: answers as [`spec_validate`] and leaves
    /// the store as [`spec_validate_rest`]. A token found expired is
    /// removed; a live one stays for the completion step.
    pub fn validate_at(&mut self, token: &str, now: i64) -> (r: Result<(), TelegramError>)
        ensures
            r == spec_validate(old(self).entries(), token@, now),
            final(self).entries() == spec_validate_rest(old(self).entries(), token@, now),
    {
        match token_map_get(&self.map, token) {
            None => Err(TelegramError::InvalidLinkToken),
            Some(created_at) => {
                if token_is_live(created_at, now) {
                    Ok(())
                } else {
                    token_map_remove(&mut self.map, token);
                    Err(TelegramError::LinkTokenExpired)
                }
            },
        }
    }

    /// Consume `token`: its entry, if any, is gone afterwards, so a second
    /// completion of the same token cannot succeed.
    pub fn consume(&mut self, token: &str)
        ensures
            final(self).entries() == old(self).entries().remove(token@),
    {
        token_map_remove(&mut self.map, token);
    }
}

/// A token still pending but issued more than fifteen minutes before `now`
/// is reported expired by validation, never accepted.
pub proof fn lemma_expired_token_never_ok(m: Map<Seq<char>, i64>, t: Seq<char>, now: i64)
    requires
        m.dom().contains(t),
        now > m[t] + LINK_TOKEN_TTL_MILLIS,
    ensures
        spec_validate(m, t, now) == Err::<(), TelegramError>(TelegramError::LinkTokenExpired),
{
}

/// However late the validation comes, a token issued more than fifteen
/// minutes before it is never accepted: it is reported expired while still
/// pending, and invalid once gone.
pub proof fn lemma_late_validation_never_accepted(m: Map<Seq<char>, i64>, t: Seq<char>, now: i64)
    requires
        m.dom().contains(t) ==> now > m[t] + LINK_TOKEN_TTL_MILLIS,
    ensures
        spec_validate(m, t, now) != Ok::<(), TelegramError>(()),
{
}

/// A token, once consumed, cannot be validated again: whatever the time,
/// validation after removal reports it invalid, and the store no longer
/// changes on its account.
pub proof fn lemma_consumed_token_invalid(m: Map<Seq<char>, i64>, t: Seq<char>, now: i64)
    ensures
        spec_validate(m.remove(t), t, now) == Err::<(), TelegramError>(
            TelegramError::InvalidLinkToken,
        ),
        spec_validate_rest(m.remove(t), t, now) == m.remove(t),
{
    assert(!m.remove(t).dom().contains(t));
}

} // verus!
