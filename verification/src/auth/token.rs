//! The node's token: held since registration, refreshed before it expires.

use crate::clock::{nanos_between, nanos_of};
use vstd::prelude::*;

verus! {

/// How long a token is taken to live when the coordinator does not say, in seconds.
pub const DEFAULT_TOKEN_TTL_SECS: u64 = 3600;

/// A token is refreshed when no more than this many seconds remain before it expires.
pub const REFRESH_THRESHOLD_SECS: u64 = 120;

/// A token as the node holds it.
struct TokenState {
    token: String,
    node_id: u64,
    /// When the token was issued.
    issued_at: u64,
    /// How long the token is valid.
    ttl_seconds: u64,
}

/// The node's token, if it has one. Tasks that share a store keep it behind a lock of their own.
pub struct TokenStore {
    state: Option<TokenState>,
}

/// What is known of a token: its text, the node it was issued to, when it was issued and for
/// how many seconds.
pub struct Session {
    pub token: Seq<char>,
    pub node_id: u64,
    pub issued_at: u64,
    pub ttl_seconds: u64,
}

impl View for TokenStore {
    type V = Option<Session>;

    closed spec fn view(&self) -> Option<Session> {
        match self.state {
            Some(s) => Some(
                Session {
                    token: s.token@,
                    node_id: s.node_id,
                    issued_at: s.issued_at,
                    ttl_seconds: s.ttl_seconds,
                },
            ),
            None => None,
        }
    }
}

/// Nanoseconds until the token expires; none if it has expired.
pub open spec fn remaining_nanos(s: Session, now: u64) -> nat {
    let ttl = crate::clock::nanos(s.ttl_seconds as nat);
    let elapsed = crate::clock::elapsed(s.issued_at, now);
    if ttl >= elapsed {
        (ttl - elapsed) as nat
    } else {
        0
    }
}

/// Whether a store in state `s` has a token that is due for a refresh at `now`.
pub open spec fn refresh_due(s: Option<Session>, now: u64) -> bool {
    match s {
        Some(session) => remaining_nanos(session, now) <= crate::clock::nanos(
            REFRESH_THRESHOLD_SECS as nat,
        ),
        None => false,
    }
}

/// Whole seconds until the token of a store in state `s` expires; none without a token.
pub open spec fn expiry_seconds(s: Option<Session>, now: u64) -> nat {
    match s {
        Some(session) => crate::clock::whole_seconds(remaining_nanos(session, now)),
        None => 0,
    }
}

impl TokenState {
    fn remaining(&self, now: u64) -> (r: u128)
        ensures
            r == remaining_nanos(
                Session {
                    token: self.token@,
                    node_id: self.node_id,
                    issued_at: self.issued_at,
                    ttl_seconds: self.ttl_seconds,
                },
                now,
            ),
    {
        let elapsed: u64 = nanos_between(self.issued_at, now);
        let ttl: u128 = nanos_of(self.ttl_seconds);
        if ttl >= elapsed as u128 {
            ttl - elapsed as u128
        } else {
            0
        }
    }
}

impl TokenStore {
    /// A store without a token.
    pub fn new() -> (r: Self)
        ensures
            r@ is None,
    {
        TokenStore { state: None }
    }

    /// Stores a new token after registration or refresh, with the default lifetime.
    pub fn set(&mut self, token: String, node_id: u64, now: u64)
        ensures
            final(self)@ == Some(
                (Session {
                    token: token@,
                    node_id,
                    issued_at: now,
                    ttl_seconds: DEFAULT_TOKEN_TTL_SECS,
                }),
            ),
    {
        self.set_with_ttl(token, node_id, DEFAULT_TOKEN_TTL_SECS, now);
    }

    /// Stores a new token with an explicit lifetime in seconds.
    pub fn set_with_ttl(&mut self, token: String, node_id: u64, ttl_seconds: u64, now: u64)
        ensures
            final(self)@ == Some(
                (Session { token: token@, node_id, issued_at: now, ttl_seconds }),
            ),
    {
        self.state = Some(TokenState { token, node_id, issued_at: now, ttl_seconds });
    }

    /// The current token.
    pub fn get(&self) -> (r: Option<String>)
        ensures
            match r {
                Some(token) => self@ matches Some(s) && token@ == s.token,
                None => self@ is None,
            },
    {
        match &self.state {
            Some(s) => Some(s.token.clone()),
            None => None,
        }
    }

    /// The node id that the coordinator assigned.
    pub fn node_id(&self) -> (r: Option<u64>)
        ensures
            match r {
                Some(id) => self@ matches Some(s) && id == s.node_id,
                None => self@ is None,
            },
    {
        match &self.state {
            Some(s) => Some(s.node_id),
            None => None,
        }
    }

    /// Whether there is a token.
    pub fn is_authenticated(&self) -> (r: bool)
        ensures
            r == (self@ is Some),
    {
        self.state.is_some()
    }

    /// Whether the token is within `REFRESH_THRESHOLD_SECS` of its expiry or has expired;
    /// `false` without a token.
    pub fn needs_refresh(&self, now: u64) -> (r: bool)
        ensures
            r == refresh_due(self@, now),
    {
        match &self.state {
            Some(s) => s.remaining(now) <= nanos_of(REFRESH_THRESHOLD_SECS),
            None => false,
        }
    }

    /// Whole seconds until the token expires; 0 if it has expired or there is none.
    pub fn seconds_until_expiry(&self, now: u64) -> (r: u64)
        ensures
            r == expiry_seconds(self@, now),
    {
        match &self.state {
            Some(s) => {
                let secs: u128 = s.remaining(now) / 1_000_000_000;
                assert(secs <= s.ttl_seconds);
                secs as u64
            },
            None => 0,
        }
    }

    /// Forgets the token.
    pub fn clear(&mut self)
        ensures
            final(self)@ is None,
    {
        self.state = None;
    }
}

/// Law: time only brings a token closer to its expiry. The seconds that remain never grow, and
/// a refresh that is due stays due until another token is stored.
pub proof fn expiry_only_approaches(s: Option<Session>, earlier: u64, later: u64)
    requires
        earlier <= later,
    ensures
        expiry_seconds(s, later) <= expiry_seconds(s, earlier),
        refresh_due(s, earlier) ==> refresh_due(s, later),
{
    if let Some(session) = s {
        assert(remaining_nanos(session, later) <= remaining_nanos(session, earlier));
    }
}

/// Law: a token is due for a refresh exactly from the moment on when no more than the threshold
/// remains of its lifetime. One that is stored with so short a lifetime is due at once; any other
/// is fresh when it is stored.
pub proof fn due_exactly_near_expiry(s: Session, now: u64)
    ensures
        refresh_due(Some(s), now) <==> crate::clock::elapsed(s.issued_at, now)
            + crate::clock::nanos(REFRESH_THRESHOLD_SECS as nat) >= crate::clock::nanos(
            s.ttl_seconds as nat,
        ),
        refresh_due(Some(s), s.issued_at) <==> s.ttl_seconds <= REFRESH_THRESHOLD_SECS,
{
}

/// Law: a token lives for its lifetime, counted from when it was stored. All of it remains then,
/// and never more.
pub proof fn lifetime_counts_from_storing(s: Session, now: u64)
    ensures
        expiry_seconds(Some(s), s.issued_at) == s.ttl_seconds,
        expiry_seconds(Some(s), now) <= s.ttl_seconds,
{
    assert(remaining_nanos(s, now) <= crate::clock::nanos(s.ttl_seconds as nat));
}

/// Law: the refresh comes in time. A token that is not due for a refresh at one check has
/// not expired at the next, as long as the two lie no further apart than the threshold.
pub proof fn refresh_comes_before_expiry(s: Option<Session>, check: u64, next: u64)
    requires
        s is Some,
        !refresh_due(s, check),
        check <= next,
        next - check <= crate::clock::nanos(REFRESH_THRESHOLD_SECS as nat),
    ensures
        remaining_nanos(s->0, next) > 0,
{
}

} // verus!
