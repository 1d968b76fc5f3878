//! Heartbeats: when they are sent, how the token is kept fresh, and what is read from the
//! system for them.

use crate::api::client;
use crate::api::client::{is_unauthorized, ApiError, CoordinatorClient, PostRetry};
use crate::auth::token;
use crate::auth::token::TokenStore;
use crate::auth::wallet;
use crate::auth::wallet::{sign_message, SigningKey};
use crate::clock;
use crate::text;
use crate::text::{lines, nth_word, parse_u64, starts_with};
use crate::types::{
    NodeHardwareSpecs, NodeRegistrationRequest, NodeRegistrationResponse, NonceResponse,
};
use vstd::prelude::*;
use vstd::string::*;

verus! {

/// The pause between two heartbeats, in seconds.
pub const HEARTBEAT_INTERVAL_SECS: u64 = 60;

/// What a node says of itself whenever it registers.
pub struct ReauthConfig {
    pub wallet_address: String,
    pub keypair: SigningKey,
    pub hardware: NodeHardwareSpecs,
    pub region: String,
    pub public_ip: String,
    pub stake_amount: String,
}

// ---------------------------------------------------------------------------
// The loop
// ---------------------------------------------------------------------------

/// What happens to the heartbeat loop.
pub enum HeartbeatEvent {
    /// A pause is over; `cancelled` if the node is being shut down.
    Woke { cancelled: bool },
    /// The token was refreshed, or could not be; `then_send` as it was asked for.
    Refreshed { then_send: bool, ok: bool },
    /// The heartbeat was sent, or could not be.
    Sent(Result<(), ApiError>),
}

/// What the heartbeat loop does next.
pub enum HeartbeatAction {
    /// End the loop.
    Stop,
    /// Refresh the token; `then_send` if the heartbeat is still to be sent.
    Refresh { then_send: bool },
    /// Collect the metrics and send them, with this number of running matches.
    Send { active_matches: u32 },
    /// Pause, unless the node is shut down meanwhile.
    Sleep { seconds: u64 },
}

/// What the heartbeat loop does next, given whether the token is due for a refresh and how many
/// matches run.
pub open spec fn heartbeat_step(
    refresh_due: bool,
    active_matches: u32,
    event: HeartbeatEvent,
) -> HeartbeatAction {
    match event {
        HeartbeatEvent::Woke { cancelled } => if cancelled {
            HeartbeatAction::Stop
        } else if refresh_due {
            HeartbeatAction::Refresh { then_send: true }
        } else {
            HeartbeatAction::Send { active_matches }
        },
        HeartbeatEvent::Refreshed { then_send, .. } => if then_send {
            HeartbeatAction::Send { active_matches }
        } else {
            HeartbeatAction::Sleep { seconds: 60 }
        },
        HeartbeatEvent::Sent(result) => match result {
            Err(err) => if client::denies_access(err) {
                HeartbeatAction::Refresh { then_send: false }
            } else {
                HeartbeatAction::Sleep { seconds: 60 }
            },
            Ok(_) => HeartbeatAction::Sleep { seconds: 60 },
        },
    }
}

/// What the heartbeat loop begins with: the first heartbeat is sent an interval after its start.
pub fn heartbeat_start() -> (r: HeartbeatAction)
    ensures
        r == (HeartbeatAction::Sleep { seconds: 60 }),
{
    HeartbeatAction::Sleep { seconds: HEARTBEAT_INTERVAL_SECS }
}

/// Decides what the heartbeat loop does next. A token that is near its expiry is refreshed
/// before the heartbeat, which is sent even if that fails; a token that the coordinator does not
/// accept is refreshed after it.
pub fn heartbeat_loop(
    tokens: &TokenStore,
    active_matches: u32,
    now: u64,
    event: HeartbeatEvent,
) -> (r: HeartbeatAction)
    ensures
        r == heartbeat_step(token::refresh_due(tokens@, now), active_matches, event),
{
    match event {
        HeartbeatEvent::Woke { cancelled } => {
            if cancelled {
                HeartbeatAction::Stop
            } else if tokens.needs_refresh(now) {
                HeartbeatAction::Refresh { then_send: true }
            } else {
                HeartbeatAction::Send { active_matches }
            }
        },
        HeartbeatEvent::Refreshed { then_send, .. } => {
            if then_send {
                HeartbeatAction::Send { active_matches }
            } else {
                HeartbeatAction::Sleep { seconds: HEARTBEAT_INTERVAL_SECS }
            }
        },
        HeartbeatEvent::Sent(Err(err)) => {
            if is_unauthorized(&err) {
                HeartbeatAction::Refresh { then_send: false }
            } else {
                HeartbeatAction::Sleep { seconds: HEARTBEAT_INTERVAL_SECS }
            }
        },
        HeartbeatEvent::Sent(Ok(_)) => HeartbeatAction::Sleep {
            seconds: HEARTBEAT_INTERVAL_SECS,
        },
    }
}

/// The request that carries a heartbeat of the node as it is registered now; without a
/// registration there is none.
pub fn heartbeat_post(client: &CoordinatorClient) -> (r: Result<PostRetry, ApiError>)
    ensures
        match client.token_store@ {
            Some(session) => r matches Ok(post) && post@ == (client::PostModel {
                url: client::node_url(client.base_url@, session.node_id, "/heartbeat"@),
                mode: client::PostMode::AuthHandled,
                attempt: 0,
            }),
            None => r == Err::<PostRetry, _>(ApiError::NotAuthenticated),
        },
{
    match client.token_store.node_id() {
        Some(node_id) => Ok(client.heartbeat(node_id)),
        None => Err(ApiError::NotAuthenticated),
    }
}

// ---------------------------------------------------------------------------
// Refreshing the token
// ---------------------------------------------------------------------------

/// What happens while the node registers anew.
pub enum RefreshEvent {
    Begin,
    /// The request for a nonce was answered, or failed.
    Nonce(Result<NonceResponse, ApiError>),
    /// The registration was answered, or failed.
    Registered(Result<NodeRegistrationResponse, ApiError>),
}

/// What comes next while the node registers anew.
pub enum RefreshAction {
    /// Request a nonce for this wallet.
    RequestNonce { wallet_address: String },
    /// Register with this request.
    Register(NodeRegistrationRequest),
    /// The new token is stored.
    Stored,
    /// Nothing was stored.
    Failed(ApiError),
}

/// Whether `req` registers the node described by `reauth`, with its signature of `message`.
pub open spec fn registers(
    req: NodeRegistrationRequest,
    reauth: ReauthConfig,
    message: Seq<char>,
) -> bool {
    &&& req.wallet_address == reauth.wallet_address
    &&& req.signature@ == wallet::signature_text(reauth.keypair@, message)
    &&& req.hardware == reauth.hardware
    &&& req.region == reauth.region
    &&& req.public_ip == reauth.public_ip
    &&& req.stake_amount == reauth.stake_amount
}

/// The registration of the node described by `reauth`, with its signature of `message`.
pub fn registration_request(reauth: &ReauthConfig, message: &str) -> (r: NodeRegistrationRequest)
    ensures
        registers(r, *reauth, message@),
{
    NodeRegistrationRequest {
        wallet_address: reauth.wallet_address.clone(),
        signature: sign_message(&reauth.keypair, message),
        hardware: reauth.hardware.clone(),
        region: reauth.region.clone(),
        public_ip: reauth.public_ip.clone(),
        stake_amount: reauth.stake_amount.clone(),
    }
}

/// Registers the node anew: a nonce is requested, its message is signed, the node is registered
/// with the signature, and the token that it gets is stored with the default lifetime. The token
/// that was held before stays until then, also if anything fails.
pub fn refresh_token(
    reauth: &ReauthConfig,
    tokens: &mut TokenStore,
    now: u64,
    event: RefreshEvent,
) -> (r: RefreshAction)
    ensures
        match event {
            RefreshEvent::Begin => r == (RefreshAction::RequestNonce {
                wallet_address: reauth.wallet_address,
            }),
            RefreshEvent::Nonce(Ok(nonce)) => r matches RefreshAction::Register(req) && registers(
                req,
                *reauth,
                nonce.message@,
            ),
            RefreshEvent::Registered(Ok(_)) => r is Stored,
            RefreshEvent::Nonce(Err(err)) => r == RefreshAction::Failed(err),
            RefreshEvent::Registered(Err(err)) => r == RefreshAction::Failed(err),
        },
        match event {
            RefreshEvent::Registered(Ok(reg)) => final(tokens)@ == Some(
                (token::Session {
                    token: reg.token@,
                    node_id: reg.node_id,
                    issued_at: now,
                    ttl_seconds: 3600,
                }),
            ),
            _ => *final(tokens) == *old(tokens),
        },
{
    match event {
        RefreshEvent::Begin => RefreshAction::RequestNonce {
            wallet_address: reauth.wallet_address.clone(),
        },
        RefreshEvent::Nonce(Ok(nonce)) => RefreshAction::Register(
            registration_request(reauth, nonce.message.as_str()),
        ),
        RefreshEvent::Registered(Ok(reg)) => {
            tokens.set(reg.token, reg.node_id, now);
            RefreshAction::Stored
        },
        RefreshEvent::Nonce(Err(err)) => RefreshAction::Failed(err),
        RefreshEvent::Registered(Err(err)) => RefreshAction::Failed(err),
    }
}

// ---------------------------------------------------------------------------
// Metrics
// ---------------------------------------------------------------------------

/// The memory of the system, in kB.
#[derive(Debug, PartialEq, Eq)]
pub struct MemoryUsage {
    pub total_kb: u64,
    pub available_kb: u64,
}

/// The amount in a line of `/proc/meminfo`: its second word, as a number.
pub open spec fn meminfo_kb(line: Seq<char>) -> Option<nat> {
    match text::word(line, 1) {
        Some(w) => match text::unsigned_value(w) {
            Some(n) => if n <= u64::MAX {
                Some(n)
            } else {
                None
            },
            None => None,
        },
        None => None,
    }
}

/// The total and the available memory that `lines` give, starting from what is known already;
/// a line that should give either and does not spoils the whole.
pub open spec fn meminfo_scan(lines: Seq<Seq<char>>, total: nat, available: nat) -> Option<
    (nat, nat),
>
    decreases lines.len(),
{
    if lines.len() == 0 {
        Some((total, available))
    } else if text::starts_with_text(lines[0], "MemTotal:"@) {
        match meminfo_kb(lines[0]) {
            Some(n) => meminfo_scan(lines.skip(1), n, available),
            None => None,
        }
    } else if text::starts_with_text(lines[0], "MemAvailable:"@) {
        match meminfo_kb(lines[0]) {
            Some(n) => meminfo_scan(lines.skip(1), total, n),
            None => None,
        }
    } else {
        meminfo_scan(lines.skip(1), total, available)
    }
}

/// The amount in a line of `/proc/meminfo`.
pub fn parse_meminfo_kb(line: &str) -> (r: Option<u64>)
    ensures
        match r {
            Some(n) => meminfo_kb(line@) == Some(n as nat),
            None => meminfo_kb(line@) is None,
        },
{
    match nth_word(line, 1) {
        Some(w) => parse_u64(w),
        None => None,
    }
}

/// The memory of the system according to `/proc/meminfo`; none if a line cannot be read or the
/// total is missing or zero.
pub fn read_memory_usage(meminfo: &str) -> (r: Option<MemoryUsage>)
    ensures
        match meminfo_scan(text::lines_of(meminfo@), 0, 0) {
            Some((total, available)) => if total == 0 {
                r is None
            } else {
                r matches Some(m) && m.total_kb == total && m.available_kb == available
            },
            None => r is None,
        },
{
    let all = lines(meminfo);
    let mut total: u64 = 0;
    let mut available: u64 = 0;
    let mut i: usize = 0;
    let ghost whole = text::lines_of(meminfo@);
    assert(whole.skip(0) =~= whole);
    while i < all.len()
        invariant
            i <= all.len(),
            whole == text::lines_of(meminfo@),
            text::texts(all@) == whole,
            meminfo_scan(whole.skip(i as int), total as nat, available as nat) == meminfo_scan(
                whole,
                0,
                0,
            ),
        decreases all.len() - i,
    {
        let line = all[i];
        assert(whole[i as int] == line@);
        assert(whole.skip(i as int)[0] == line@);
        assert(whole.skip(i as int).skip(1) =~= whole.skip(i + 1));
        if starts_with(line, "MemTotal:") {
            match parse_meminfo_kb(line) {
                Some(n) => {
                    total = n;
                },
                None => {
                    return None;
                },
            }
        } else if starts_with(line, "MemAvailable:") {
            match parse_meminfo_kb(line) {
                Some(n) => {
                    available = n;
                },
                None => {
                    return None;
                },
            }
        }
        i = i + 1;
    }
    assert(whole.skip(i as int).len() == 0);
    if total == 0 {
        return None;
    }
    Some(MemoryUsage { total_kb: total, available_kb: available })
}

impl MemoryUsage {
    /// The memory in use, in kB.
    pub fn used_kb(&self) -> (r: u64)
        requires
            self.available_kb <= self.total_kb,
        ensures
            r == self.total_kb - self.available_kb,
    {
        self.total_kb - self.available_kb
    }
}

/// The load over the last minute, as `/proc/loadavg` writes it: its first word.
pub fn read_load(loadavg: &str) -> (r: Option<&str>)
    ensures
        match r {
            Some(w) => text::word(loadavg@, 0) == Some(w@),
            None => text::word(loadavg@, 0) is None,
        },
{
    nth_word(loadavg, 0)
}

// ---------------------------------------------------------------------------
// Laws
// ---------------------------------------------------------------------------

/// Law: the token is kept fresh. A token that was not due for a refresh before one heartbeat has
/// not expired an interval later, when it is looked at again.
pub proof fn token_lasts_to_the_next_heartbeat(s: Option<token::Session>, now: u64, next: u64)
    requires
        s is Some,
        !token::refresh_due(s, now),
        now <= next,
        next - now <= clock::nanos(HEARTBEAT_INTERVAL_SECS as nat),
    ensures
        token::remaining_nanos(s->0, next) > 0,
{
    token::refresh_comes_before_expiry(s, now, next);
}

/// Law: each turn of the loop sends one heartbeat. Once awake and not shut down, the loop sends
/// it at once or after one refresh, whether or not that worked, with the number of matches that
/// run by then; what becomes of it leads back to
/// the pause, at once or after one more refresh. Nothing but a shutdown ends the loop.
pub proof fn each_turn_sends_one_heartbeat(
    due: bool,
    due_later: bool,
    active: u32,
    active_later: u32,
    refreshed: bool,
    sent: Result<(), ApiError>,
    refreshed_after: bool,
)
    ensures
        ({
            let woke = heartbeat_step(due, active, HeartbeatEvent::Woke { cancelled: false });
            ||| woke == (HeartbeatAction::Send { active_matches: active })
            ||| woke == (HeartbeatAction::Refresh { then_send: true }) && heartbeat_step(
                due_later,
                active_later,
                HeartbeatEvent::Refreshed { then_send: true, ok: refreshed },
            ) == (HeartbeatAction::Send { active_matches: active_later })
        }),
        ({
            let after = heartbeat_step(due_later, active_later, HeartbeatEvent::Sent(sent));
            let pause = HeartbeatAction::Sleep { seconds: HEARTBEAT_INTERVAL_SECS };
            ||| after == pause
            ||| after == (HeartbeatAction::Refresh { then_send: false }) && heartbeat_step(
                due_later,
                active_later,
                HeartbeatEvent::Refreshed { then_send: false, ok: refreshed_after },
            ) == pause
        }),
        forall|event: HeartbeatEvent|
            #![trigger heartbeat_step(due, active, event)]
            heartbeat_step(due, active, event) is Stop <==> event == (HeartbeatEvent::Woke {
                cancelled: true,
            }),
{
}

} // verus!
