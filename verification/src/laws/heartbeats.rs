//! Laws of heartbeats, of refreshing the token, and of what is read for the metrics.

use crate::api::client;
use crate::api::client::{ApiError, CoordinatorClient, PostRetry};
use crate::auth::token::TokenStore;
use crate::auth::wallet::sign_message;
use crate::heartbeat;
use crate::heartbeat::{
    heartbeat_loop, heartbeat_post, heartbeat_start, parse_meminfo_kb, read_load,
    read_memory_usage, refresh_token, registration_request,
};
use crate::heartbeat::{
    HeartbeatAction, HeartbeatEvent, MemoryUsage, ReauthConfig, RefreshAction, RefreshEvent,
};
use crate::text;
use crate::types::{NodeRegistrationRequest, NodeRegistrationResponse, NonceResponse};
use vstd::prelude::*;
use vstd::string::*;

verus! {

/// Law: a token that is due for a refresh is refreshed before the heartbeat. On waking without a
/// shutdown the loop asks for that exactly if it is due, and sends the heartbeat at once, with
/// the number of running matches, exactly if it is not, however many run.
pub proof fn due_tokens_are_refreshed_first(
    tokens: &TokenStore,
    active: u32,
    now: u64,
    due: bool,
    r: HeartbeatAction,
)
    requires
        call_ensures(TokenStore::needs_refresh, (tokens, now), due),
        call_ensures(
            heartbeat_loop,
            (tokens, active, now, HeartbeatEvent::Woke { cancelled: false }),
            r,
        ),
    ensures
        due <==> r == (HeartbeatAction::Refresh { then_send: true }),
        !due <==> r == (HeartbeatAction::Send { active_matches: active }),
{
}

/// Law: a heartbeat finds the token fresh. If the token was stored at one time, the loop that
/// wakes at a later time refreshes it exactly if no more than two minutes of its lifetime are
/// left, however many matches run.
pub proof fn tokens_do_not_expire_unnoticed(
    token: String,
    node_id: u64,
    ttl: u64,
    then: u64,
    now: u64,
    active: u32,
)
    requires
        then <= now,
    ensures
        forall|s: &mut TokenStore, u: (), e: HeartbeatEvent, r: HeartbeatAction|
            #![trigger call_ensures(TokenStore::set_with_ttl, (s, token, node_id, ttl, then), u), call_ensures(heartbeat_loop, (&*final(s), active, now, e), r)]
            call_ensures(TokenStore::set_with_ttl, (s, token, node_id, ttl, then), u)
                && call_ensures(heartbeat_loop, (&*final(s), active, now, e), r) && e == (
            HeartbeatEvent::Woke { cancelled: false }) ==> if ttl * 1_000_000_000 - (now - then)
                <= 120_000_000_000 {
                r == (HeartbeatAction::Refresh { then_send: true })
            } else {
                r == (HeartbeatAction::Send { active_matches: active })
            },
{
}

/// Law: a shutdown stops the loop when it wakes, and nothing else does.
pub proof fn only_a_shutdown_stops_heartbeats(
    tokens: &TokenStore,
    active: u32,
    now: u64,
    event: HeartbeatEvent,
    r: HeartbeatAction,
)
    requires
        call_ensures(heartbeat_loop, (tokens, active, now, event), r),
    ensures
        r is Stop <==> (event matches HeartbeatEvent::Woke { cancelled } && cancelled),
{
}

/// Law: a refresh that was asked for before a heartbeat is followed by the heartbeat, and one
/// that was asked for after it by a minute's pause, whether or not it worked.
pub proof fn refreshes_lead_on(
    tokens: &TokenStore,
    active: u32,
    now: u64,
    then_send: bool,
    ok: bool,
    r: HeartbeatAction,
)
    requires
        call_ensures(
            heartbeat_loop,
            (tokens, active, now, HeartbeatEvent::Refreshed { then_send, ok }),
            r,
        ),
    ensures
        then_send ==> r == (HeartbeatAction::Send { active_matches: active }),
        !then_send ==> r == (HeartbeatAction::Sleep { seconds: 60 }),
{
}

/// Law: a heartbeat whose token was refused is followed by a refresh; any other, whether it
/// arrived or not, by a minute's pause. Before the first there is a minute's pause too.
pub proof fn heartbeats_are_a_minute_apart(
    tokens: &TokenStore,
    active: u32,
    now: u64,
    err: ApiError,
    denied: bool,
    first: HeartbeatAction,
    arrived: HeartbeatAction,
    failed: HeartbeatAction,
)
    requires
        call_ensures(client::is_unauthorized, (&err,), denied),
        call_ensures(heartbeat_start, (), first),
        call_ensures(
            heartbeat_loop,
            (tokens, active, now, HeartbeatEvent::Sent(Ok(()))),
            arrived,
        ),
        call_ensures(
            heartbeat_loop,
            (tokens, active, now, HeartbeatEvent::Sent(Err(err))),
            failed,
        ),
    ensures
        first == (HeartbeatAction::Sleep { seconds: 60 }),
        arrived == (HeartbeatAction::Sleep { seconds: 60 }),
        denied ==> failed == (HeartbeatAction::Refresh { then_send: false }),
        !denied ==> failed == (HeartbeatAction::Sleep { seconds: 60 }),
{
}

/// Law: heartbeats go out under the node id that the node is registered with, and not without
/// one.
pub proof fn heartbeats_are_those_of_the_registered_node(
    client: &CoordinatorClient,
    node_id: Option<u64>,
    r: Result<PostRetry, ApiError>,
)
    requires
        call_ensures(TokenStore::node_id, (&client.token_store,), node_id),
        call_ensures(heartbeat_post, (client,), r),
    ensures
        node_id is None ==> r == Err::<PostRetry, _>(ApiError::NotAuthenticated),
        node_id is Some ==> r is Ok && forall|post: PostRetry| #[trigger]
            call_ensures(CoordinatorClient::heartbeat, (client, node_id->0), post) ==> r->Ok_0@
                == post@,
{
}

/// Whether a request registers the node as it describes itself, with its signature of a message.
pub open spec fn is_registration_of(
    req: NodeRegistrationRequest,
    node: ReauthConfig,
    message: Seq<char>,
) -> bool {
    &&& req.wallet_address@ == node.wallet_address@
    &&& req.hardware.cpu_cores == node.hardware.cpu_cores
    &&& req.hardware.memory_gb == node.hardware.memory_gb
    &&& req.hardware.storage_gb == node.hardware.storage_gb
    &&& req.hardware.gpu_model == node.hardware.gpu_model
    &&& req.region@ == node.region@
    &&& req.public_ip@ == node.public_ip@
    &&& req.stake_amount@ == node.stake_amount@
    &&& forall|m: &str, signature: String| #[trigger]
        call_ensures(sign_message, (&node.keypair, m), signature) && m@ == message
            ==> req.signature@ == signature@
}

/// Law: a registration says of the node what the node says of itself, and carries its signature
/// of the message that it got.
pub proof fn registrations_are_signed(
    node: &ReauthConfig,
    message: &str,
    r: NodeRegistrationRequest,
)
    requires
        call_ensures(registration_request, (node, message), r),
    ensures
        is_registration_of(r, *node, message@),
{
}

/// Law: a refresh asks for a nonce for the node's own wallet, then registers the node with its
/// signature of the message that came with the nonce, and in between keeps the token that is
/// held. If either fails it fails for that reason, and the token is kept.
pub proof fn refreshes_register_anew(
    node: &ReauthConfig,
    now: u64,
    nonce: NonceResponse,
    err: ApiError,
)
    ensures
        forall|s: &mut TokenStore, e: RefreshEvent, r: RefreshAction|
            #![trigger call_ensures(refresh_token, (node, s, now, e), r)]
            call_ensures(refresh_token, (node, s, now, e), r) ==> {
                &&& e is Begin ==> (r matches RefreshAction::RequestNonce { wallet_address }
                    && wallet_address@ == node.wallet_address@ && *final(s) == *s)
                &&& e == RefreshEvent::Nonce(Ok(nonce)) ==> (r matches RefreshAction::Register(req)
                    && is_registration_of(req, *node, nonce.message@) && *final(s) == *s)
                &&& e == RefreshEvent::Nonce(Err(err)) || e == RefreshEvent::Registered(Err(err))
                    ==> r == RefreshAction::Failed(err) && *final(s) == *s
            },
{
}

/// Law: the token and the node id that a registration brings are what the store then holds, for
/// an hour from then: as if they had been stored by hand.
pub proof fn registrations_bring_the_token(
    node: &ReauthConfig,
    now: u64,
    reg: NodeRegistrationResponse,
)
    ensures
        forall|s: &mut TokenStore, e: RefreshEvent, r: RefreshAction, t: &mut TokenStore, u: ()|
            #![trigger call_ensures(refresh_token, (node, s, now, e), r), call_ensures(TokenStore::set_with_ttl, (t, reg.token, reg.node_id, 3600, now), u)]
            call_ensures(refresh_token, (node, s, now, e), r) && e == RefreshEvent::Registered(
                Ok(reg),
            ) && call_ensures(
                TokenStore::set_with_ttl,
                (t, reg.token, reg.node_id, 3600, now),
                u,
            ) ==> r is Stored && final(s)@ == final(t)@,
{
}

/// Law: the amount in a line is the number that its second word denotes, if that fits.
pub proof fn amounts_are_second_words(line: &str, r: Option<u64>)
    requires
        call_ensures(parse_meminfo_kb, (line,), r),
    ensures
        r is Some <==> text::word(line@, 1) is Some && text::unsigned_value(
            text::word(line@, 1)->0,
        ) is Some && text::unsigned_value(text::word(line@, 1)->0)->0 <= 0xffff_ffff_ffff_ffff,
        r is Some ==> r->0 == text::unsigned_value(text::word(line@, 1)->0)->0,
{
}

/// Law: the load is the first word.
pub proof fn the_load_is_the_first_word(loadavg: &str, r: Option<&str>)
    requires
        call_ensures(read_load, (loadavg,), r),
    ensures
        r is Some <==> text::word(loadavg@, 0) is Some,
        r is Some ==> r->0@ == text::word(loadavg@, 0)->0,
{
}

/// Law: the memory in use and the available memory are all there is.
pub proof fn used_and_available_memory_are_all(m: MemoryUsage, r: u64)
    requires
        m.available_kb <= m.total_kb,
        call_ensures(MemoryUsage::used_kb, (&m,), r),
    ensures
        r + m.available_kb == m.total_kb,
{
}

/// Whether a line begins with a label.
pub open spec fn labelled(line: Seq<char>, label: Seq<char>) -> bool {
    exists|rest: Seq<char>| line == #[trigger] (label + rest)
}

proof fn lemma_labelled(line: Seq<char>, label: Seq<char>)
    ensures
        labelled(line, label) <==> text::starts_with_text(line, label),
{
    if text::starts_with_text(line, label) {
        assert(line =~= label + line.skip(label.len() as int));
    }
    if labelled(line, label) {
        let rest = choose|rest: Seq<char>| line == #[trigger] (label + rest);
        assert(line.take(label.len() as int) =~= label);
    }
}

/// The amount in a line: the number that its second word denotes, if that fits.
pub open spec fn amount(line: Seq<char>) -> Option<nat> {
    if text::word(line, 1) is Some && text::unsigned_value(text::word(line, 1)->0) is Some
        && text::unsigned_value(text::word(line, 1)->0)->0 <= 0xffff_ffff_ffff_ffff {
        text::unsigned_value(text::word(line, 1)->0)
    } else {
        None
    }
}

/// Whether every line with a label has an amount.
pub open spec fn readable(lines: Seq<Seq<char>>) -> bool {
    forall|i: int|
        #![trigger lines[i]]
        0 <= i < lines.len() && (labelled(lines[i], "MemTotal:"@) || labelled(
            lines[i],
            "MemAvailable:"@,
        )) ==> amount(lines[i]) is Some
}

/// Whether line `i` is the last one with a label.
pub open spec fn is_last(lines: Seq<Seq<char>>, label: Seq<char>, i: int) -> bool {
    &&& 0 <= i < lines.len()
    &&& labelled(lines[i], label)
    &&& forall|k: int| i < k < lines.len() ==> !labelled(#[trigger] lines[k], label)
}

/// Whether no line has a label.
pub open spec fn is_missing(lines: Seq<Seq<char>>, label: Seq<char>) -> bool {
    forall|k: int| 0 <= k < lines.len() ==> !labelled(#[trigger] lines[k], label)
}

proof fn lemma_labels_differ(line: Seq<char>)
    ensures
        !(labelled(line, "MemTotal:"@) && labelled(line, "MemAvailable:"@)),
{
    reveal_strlit("MemTotal:");
    reveal_strlit("MemAvailable:");
    if labelled(line, "MemTotal:"@) && labelled(line, "MemAvailable:"@) {
        let a = choose|rest: Seq<char>| line == #[trigger] ("MemTotal:"@ + rest);
        let b = choose|rest: Seq<char>| line == #[trigger] ("MemAvailable:"@ + rest);
        assert("MemTotal:"@[3] == 'T');
        assert("MemAvailable:"@[3] == 'A');
        assert(line[3] == 'T');
        assert(line[3] == 'A');
    }
}

proof fn lemma_scan(lines: Seq<Seq<char>>, total: nat, available: nat)
    ensures
        heartbeat::meminfo_scan(lines, total, available) is Some <==> readable(lines),
        heartbeat::meminfo_scan(lines, total, available) matches Some((t, a)) ==> {
            &&& is_missing(lines, "MemTotal:"@) ==> t == total
            &&& is_missing(lines, "MemAvailable:"@) ==> a == available
            &&& forall|i: int| #[trigger]
                is_last(lines, "MemTotal:"@, i) ==> amount(lines[i]) == Some(t)
            &&& forall|i: int| #[trigger]
                is_last(lines, "MemAvailable:"@, i) ==> amount(lines[i]) == Some(a)
        },
    decreases lines.len(),
{
    if lines.len() > 0 {
        let first = lines[0];
        let rest = lines.skip(1);
        lemma_labelled(first, "MemTotal:"@);
        lemma_labelled(first, "MemAvailable:"@);
        lemma_labels_differ(first);
        let is_total = labelled(first, "MemTotal:"@);
        let is_available = labelled(first, "MemAvailable:"@);
        assert(heartbeat::meminfo_kb(first) == amount(first));
        let t0 = if is_total && amount(first) is Some {
            amount(first)->0
        } else {
            total
        };
        let a0 = if is_available && amount(first) is Some {
            amount(first)->0
        } else {
            available
        };
        lemma_scan(rest, t0, a0);
        assert forall|k: int| 0 <= k < rest.len() implies #[trigger] rest[k] == lines[k + 1] by {}
        if readable(lines) {
            assert forall|i: int|
                #![trigger rest[i]]
                0 <= i < rest.len() && (labelled(rest[i], "MemTotal:"@) || labelled(
                    rest[i],
                    "MemAvailable:"@,
                )) implies amount(rest[i]) is Some by {
                assert(rest[i] == lines[i + 1]);
            }
        }
        if readable(rest) && (is_total || is_available ==> amount(first) is Some) {
            assert forall|i: int|
                #![trigger lines[i]]
                0 <= i < lines.len() && (labelled(lines[i], "MemTotal:"@) || labelled(
                    lines[i],
                    "MemAvailable:"@,
                )) implies amount(lines[i]) is Some by {
                if i > 0 {
                    assert(rest[i - 1] == lines[i]);
                }
            }
        }
        if heartbeat::meminfo_scan(lines, total, available) is Some {
            lemma_last(lines, "MemTotal:"@);
            lemma_last(lines, "MemAvailable:"@);
        }
    }
}

/// How the last line with a label lies with regard to the lines behind the first.
proof fn lemma_last(lines: Seq<Seq<char>>, label: Seq<char>)
    requires
        lines.len() > 0,
    ensures
        is_missing(lines, label) ==> is_missing(lines.skip(1), label) && !labelled(
            lines[0],
            label,
        ),
        forall|i: int| #[trigger]
            is_last(lines, label, i) && i > 0 ==> is_last(lines.skip(1), label, i - 1)
                && lines.skip(1)[i - 1] == lines[i],
        is_last(lines, label, 0) ==> is_missing(lines.skip(1), label) && labelled(
            lines[0],
            label,
        ),
{
    let rest = lines.skip(1);
    assert forall|k: int| 0 <= k < rest.len() implies #[trigger] rest[k] == lines[k + 1] by {}
    if is_missing(lines, label) {
        assert(!labelled(lines[0], label));
        assert forall|k: int| 0 <= k < rest.len() implies !labelled(#[trigger] rest[k], label) by {
            assert(rest[k] == lines[k + 1]);
        }
    }
    if is_last(lines, label, 0) {
        assert forall|k: int| 0 <= k < rest.len() implies !labelled(#[trigger] rest[k], label) by {
            assert(rest[k] == lines[k + 1]);
        }
    }
    assert forall|i: int| #[trigger] is_last(lines, label, i) && i > 0 implies is_last(
        rest,
        label,
        i - 1,
    ) && rest[i - 1] == lines[i] by {
        assert(rest[i - 1] == lines[i]);
        assert forall|k: int| i - 1 < k < rest.len() implies !labelled(
            #[trigger] rest[k],
            label,
        ) by {
            assert(rest[k] == lines[k + 1]);
        }
    }
}

/// Law: the total and the available memory are the amounts in the last lines that are labelled
/// so; nothing is available if no line says so. There is no result exactly if a line with such a
/// label has no amount, or the total is zero or missing.
pub proof fn memory_is_what_its_lines_say(meminfo: &str, r: Option<MemoryUsage>)
    requires
        call_ensures(read_memory_usage, (meminfo,), r),
    ensures
        ({
            let lines = text::lines_of(meminfo@);
            &&& !readable(lines) || is_missing(lines, "MemTotal:"@) ==> r is None
            &&& forall|i: int| #[trigger]
                is_last(lines, "MemTotal:"@, i) && readable(lines) ==> if amount(lines[i]) == Some(
                    0nat,
                ) {
                    r is None
                } else {
                    r is Some && amount(lines[i]) == Some(r->0.total_kb as nat)
                }
            &&& r is Some && is_missing(lines, "MemAvailable:"@) ==> r->0.available_kb == 0
            &&& r is Some ==> forall|i: int| #[trigger]
                is_last(lines, "MemAvailable:"@, i) ==> amount(lines[i]) == Some(
                    r->0.available_kb as nat,
                )
        }),
{
    lemma_scan(text::lines_of(meminfo@), 0, 0);
}

} // verus!
