//! Laws of time: spans, and the life of a token.

use crate::auth::token::TokenStore;
use crate::clock;
use vstd::prelude::*;

verus! {

/// Law: a second is a thousand million nanoseconds, and no span is lost or gained in counting.
pub proof fn seconds_are_nanoseconds(seconds: u64, r: u128)
    requires
        call_ensures(clock::nanos_of, (seconds,), r),
    ensures
        r == seconds * 1_000_000_000,
{
}

/// Law: the span between two points in time leads from the first to the second; back in time
/// there is none.
pub proof fn spans_lead_from_then_to_now(since: u64, now: u64, r: u64)
    requires
        call_ensures(clock::nanos_between, (since, now), r),
    ensures
        since <= now ==> since + r == now,
        now <= since ==> r == 0,
{
}

/// Law: a store gives back what was stored in it, until the next token: the token, the node id,
/// and nothing of what was there before.
pub proof fn stores_give_back_the_last_token(token: String, node_id: u64, ttl: u64, now: u64)
    ensures
        forall|s: &mut TokenStore, u: (), got: Option<String>|
            #![trigger call_ensures(TokenStore::set_with_ttl, (s, token, node_id, ttl, now), u), call_ensures(TokenStore::get, (&*final(s),), got)]
            call_ensures(TokenStore::set_with_ttl, (s, token, node_id, ttl, now), u)
                && call_ensures(TokenStore::get, (&*final(s),), got) ==> got is Some && got->0@
                == token@,
        forall|s: &mut TokenStore, u: (), got: Option<u64>|
            #![trigger call_ensures(TokenStore::set_with_ttl, (s, token, node_id, ttl, now), u), call_ensures(TokenStore::node_id, (&*final(s),), got)]
            call_ensures(TokenStore::set_with_ttl, (s, token, node_id, ttl, now), u)
                && call_ensures(TokenStore::node_id, (&*final(s),), got) ==> got == Some(node_id),
        forall|s: &mut TokenStore, u: (), got: bool|
            #![trigger call_ensures(TokenStore::set_with_ttl, (s, token, node_id, ttl, now), u), call_ensures(TokenStore::is_authenticated, (&*final(s),), got)]
            call_ensures(TokenStore::set_with_ttl, (s, token, node_id, ttl, now), u)
                && call_ensures(TokenStore::is_authenticated, (&*final(s),), got) ==> got,
{
}

/// Law: a token that was stored without a lifetime lives for an hour: storing it so is storing it
/// with 3600 seconds.
pub proof fn tokens_live_for_an_hour(token: String, node_id: u64, now: u64)
    ensures
        forall|s: &mut TokenStore, u: (), t: &mut TokenStore, v: ()|
            #![trigger call_ensures(TokenStore::set, (s, token, node_id, now), u), call_ensures(TokenStore::set_with_ttl, (t, token, node_id, 3600, now), v)]
            call_ensures(TokenStore::set, (s, token, node_id, now), u) && call_ensures(
                TokenStore::set_with_ttl,
                (t, token, node_id, 3600, now),
                v,
            ) ==> final(s)@ == final(t)@,
{
}

/// Law: a store that is new or was cleared has no token, no node id, nothing to refresh and
/// nothing that expires.
pub proof fn empty_stores_hold_nothing(now: u64)
    ensures
        forall|s: TokenStore| #[trigger]
            call_ensures(TokenStore::new, (), s) ==> holds_nothing(s, now),
        forall|s: &mut TokenStore, u: ()| #[trigger]
            call_ensures(TokenStore::clear, (s,), u) ==> holds_nothing(*final(s), now),
{
}

/// Whether nothing can be had from a store.
pub open spec fn holds_nothing(s: TokenStore, now: u64) -> bool {
    &&& forall|got: Option<String>| #[trigger]
        call_ensures(TokenStore::get, (&s,), got) ==> got is None
    &&& forall|got: Option<u64>| #[trigger]
        call_ensures(TokenStore::node_id, (&s,), got) ==> got is None
    &&& forall|got: bool| #[trigger]
        call_ensures(TokenStore::is_authenticated, (&s,), got) ==> !got
    &&& forall|got: bool| #[trigger]
        call_ensures(TokenStore::needs_refresh, (&s, now), got) ==> !got
    &&& forall|got: u64| #[trigger]
        call_ensures(TokenStore::seconds_until_expiry, (&s, now), got) ==> got == 0
}

/// Law: a token that was stored at one time has to be refreshed at a later time exactly if no
/// more than two minutes of its lifetime are left then.
pub proof fn tokens_are_refreshed_in_their_last_two_minutes(
    token: String,
    node_id: u64,
    ttl: u64,
    then: u64,
    now: u64,
)
    requires
        then <= now,
    ensures
        forall|s: &mut TokenStore, u: (), due: bool|
            #![trigger call_ensures(TokenStore::set_with_ttl, (s, token, node_id, ttl, then), u), call_ensures(TokenStore::needs_refresh, (&*final(s), now), due)]
            call_ensures(TokenStore::set_with_ttl, (s, token, node_id, ttl, then), u)
                && call_ensures(TokenStore::needs_refresh, (&*final(s), now), due) ==> (due <==> now
                - then + 120_000_000_000 >= ttl * 1_000_000_000),
{
}

/// Law: the seconds until expiry are the whole seconds that the lifetime of a token exceeds its
/// age by; none once it is as old as that.
pub proof fn seconds_until_expiry_are_what_is_left(
    token: String,
    node_id: u64,
    ttl: u64,
    then: u64,
    now: u64,
)
    requires
        then <= now,
    ensures
        forall|s: &mut TokenStore, u: (), secs: u64|
            #![trigger call_ensures(TokenStore::set_with_ttl, (s, token, node_id, ttl, then), u), call_ensures(TokenStore::seconds_until_expiry, (&*final(s), now), secs)]
            call_ensures(TokenStore::set_with_ttl, (s, token, node_id, ttl, then), u)
                && call_ensures(TokenStore::seconds_until_expiry, (&*final(s), now), secs) ==> {
                let left = ttl * 1_000_000_000 - (now - then);
                &&& left < 0 ==> secs == 0
                &&& left >= 0 ==> secs * 1_000_000_000 <= left < (secs + 1) * 1_000_000_000
            },
{
}

} // verus!
