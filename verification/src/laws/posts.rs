//! Laws of requests to the coordinator.

use crate::api::client;
use crate::api::client::{
    ApiError, CoordinatorClient, PollRequest, PostAttempt, PostMode, PostReply, PostRetry, PostStep,
};
use crate::auth::token::TokenStore;
use crate::text;
use crate::types::NonceRequest;
use vstd::prelude::*;
use vstd::string::*;

verus! {

/// Whether `step` tries the post of attempt `a` again: the same post, one attempt later, after
/// one second, or two, or four.
pub open spec fn tries_again(a: PostAttempt, step: PostStep) -> bool {
    &&& step matches PostStep::Again { pause_ms, retry }
    &&& retry@.url == a@.url
    &&& retry@.mode == a@.mode
    &&& retry@.attempt == a@.attempt + 1
    &&& a@.attempt == 0 ==> pause_ms == 1000
    &&& a@.attempt == 1 ==> pause_ms == 2000
    &&& a@.attempt == 2 ==> pause_ms == 4000
}

/// Law: the status of a reply decides about a post, on every attempt and in every mode. The post
/// succeeded exactly if the status is from 200 to 299; it is tried again exactly if it is from
/// 500 to 599; a 401 or 403 says that the token is not accepted, to a post that handles that; and
/// any other status refuses the post, under that very status.
pub proof fn status_decides_about_a_post(a: PostAttempt, status: u16, r: PostStep)
    requires
        call_ensures(PostAttempt::on_reply, (a, PostReply::Status(status)), r),
    ensures
        r is Accepted <==> 200 <= status <= 299,
        r is Again <==> 500 <= status <= 599,
        r is Again ==> tries_again(a, r),
        r is Failed <==> a@.mode == PostMode::AuthHandled && (status == 401 || status == 403),
        r is Failed ==> r == PostStep::Failed(ApiError::Unauthorized),
        !(200 <= status <= 299) && !(500 <= status <= 599) && !(a@.mode == PostMode::AuthHandled
            && (status == 401 || status == 403)) ==> r == (PostStep::Refused { status }),
        a@.attempt <= 2,
{
    reveal_with_fuel(client::backoff_after, 4);
}

/// Law: a post that gets no reply is tried again, but for the third time, when it fails for the
/// reason why there was none.
pub proof fn lost_posts_are_sent_three_times(a: PostAttempt, reason: String, r: PostStep)
    requires
        call_ensures(PostAttempt::on_reply, (a, PostReply::Failed(reason)), r),
    ensures
        a@.attempt <= 2,
        a@.attempt <= 1 ==> tries_again(a, r),
        a@.attempt == 2 ==> r == PostStep::Failed(ApiError::Http(reason)),
{
    reveal_with_fuel(client::backoff_after, 4);
}

/// Law: a post is sent three times at most, to where it goes, and with the token that is held
/// when it is sent, if it needs one; without a token it is then not sent at all.
pub proof fn posts_carry_the_current_token(
    post: PostRetry,
    tokens: &TokenStore,
    token: Option<String>,
    r: Result<PostAttempt, ApiError>,
)
    requires
        call_ensures(PostRetry::begin, (post, tokens), r),
        call_ensures(TokenStore::get, (tokens,), token),
    ensures
        post@.attempt >= 3 <==> r == Err::<PostAttempt, _>(ApiError::MaxRetries),
        post@.attempt < 3 ==> (r is Ok <==> post@.mode == PostMode::Open || token is Some),
        post@.attempt < 3 && r is Err ==> r == Err::<PostAttempt, _>(ApiError::NotAuthenticated),
        r matches Ok(a) ==> {
            &&& a@.mode == post@.mode
            &&& a@.attempt == post@.attempt
            &&& forall|url: &str| #[trigger]
                call_ensures(PostAttempt::url, (&a,), url) ==> url@ == post@.url
            &&& forall|h: Option<&str>| #[trigger]
                call_ensures(PostAttempt::authorization, (&a,), h) ==> if post@.mode
                    == PostMode::Open {
                    h is None
                } else {
                    h is Some && h->0@ == "Bearer "@ + token->0@
                }
        },
{
}

/// Law: requests go to the coordinator's addresses for them, without the slashes at the end of
/// its own. Nonces are requested and nodes registered without a token; heartbeats and reports go
/// to the node's own addresses, with the token, and tell if it is not accepted.
pub proof fn requests_go_to_their_addresses(
    client: &CoordinatorClient,
    node_id: u64,
    wallet: &str,
    nonce: (PostRetry, NonceRequest),
    register: PostRetry,
    heartbeat: PostRetry,
    report: PostRetry,
)
    requires
        call_ensures(CoordinatorClient::request_nonce, (client, wallet), nonce),
        call_ensures(CoordinatorClient::register, (client,), register),
        call_ensures(CoordinatorClient::heartbeat, (client, node_id), heartbeat),
        call_ensures(CoordinatorClient::report_match, (client, node_id), report),
    ensures
        nonce.1.wallet_address@ == wallet@,
        nonce.0@.url == client.base_url@ + "/api/nodes/auth/nonce"@,
        nonce.0@.mode == PostMode::Open,
        register@.url == client.base_url@ + "/api/nodes/register"@,
        register@.mode == PostMode::Open,
        heartbeat@.url == client.base_url@ + "/api/nodes/"@ + text::decimal(node_id as nat)
            + "/heartbeat"@,
        heartbeat@.mode == PostMode::AuthHandled,
        report@.url == client.base_url@ + "/api/nodes/"@ + text::decimal(node_id as nat)
            + "/report"@,
        report@.mode == PostMode::AuthHandled,
        nonce.0@.attempt == 0,
        register@.attempt == 0,
        heartbeat@.attempt == 0,
        report@.attempt == 0,
{
}

/// Law: a post to an address goes there, from its first attempt on, with the token exactly if it
/// was asked for.
pub proof fn posts_go_where_they_are_sent(
    client: &CoordinatorClient,
    url: String,
    auth: bool,
    post: PostRetry,
    handled: PostRetry,
)
    requires
        call_ensures(CoordinatorClient::post_with_retry, (client, url, auth), post),
        call_ensures(
            CoordinatorClient::post_with_retry_with_auth_handler,
            (client, url),
            handled,
        ),
    ensures
        post@.url == url@,
        post@.attempt == 0,
        auth ==> post@.mode == PostMode::Bearer,
        !auth ==> post@.mode == PostMode::Open,
        handled@.url == url@,
        handled@.attempt == 0,
        handled@.mode == PostMode::AuthHandled,
{
}

/// Law: a client keeps the tokens that it was made with, and its address up to the slashes at
/// the end.
pub proof fn clients_know_their_coordinator(
    base_url: &str,
    tokens: TokenStore,
    client: CoordinatorClient,
    trimmed: &str,
)
    requires
        call_ensures(CoordinatorClient::new, (base_url, tokens), client),
        call_ensures(text::trim_end_matches, (base_url, '/'), trimmed),
    ensures
        client.base_url@ == trimmed@,
        client.token_store == tokens,
{
}

/// Law: a poll asks for the node's assignments with the token that is held, names the time that
/// the coordinator may take, and waits five seconds longer; without a token it is not sent.
pub proof fn polls_wait_a_little_longer(
    client: &CoordinatorClient,
    node_id: u64,
    timeout: u32,
    token: Option<String>,
    r: Result<PollRequest, ApiError>,
)
    requires
        timeout <= u32::MAX - 5,
        call_ensures(CoordinatorClient::poll_assignments, (client, node_id, timeout), r),
        call_ensures(TokenStore::get, (&client.token_store,), token),
    ensures
        r is Ok <==> token is Some,
        r is Err ==> r == Err::<PollRequest, _>(ApiError::NotAuthenticated),
        r matches Ok(poll) ==> {
            &&& poll.url@ == client.base_url@ + "/api/nodes/"@ + text::decimal(node_id as nat)
                + "/assignments?timeout="@ + text::decimal(timeout as nat)
            &&& poll.authorization@ == "Bearer "@ + token->0@
            &&& poll.timeout_seconds == timeout + 5
        },
{
    if let Ok(poll) = r {
        let node = client.base_url@ + "/api/nodes/"@ + text::decimal(node_id as nat);
        assert(poll.url@ =~= node + "/assignments?timeout="@ + text::decimal(timeout as nat));
    }
}

/// Law: a poll is answered exactly if its status is from 200 to 299. A 401 and a 403 are both
/// reported as a 401, and any other status as it is.
pub proof fn status_decides_about_a_poll(status: u16, r: Option<u16>)
    requires
        call_ensures(client::poll_refusal, (status,), r),
    ensures
        r is None <==> 200 <= status <= 299,
        status == 401 || status == 403 ==> r == Some(401u16),
        !(200 <= status <= 299) && status != 403 ==> r == Some(status),
{
}

/// Law: a refusal keeps its status and its body; no body is an empty one.
pub proof fn refusals_keep_status_and_body(status: u16, body: Option<String>, r: ApiError)
    requires
        call_ensures(client::refusal, (status, body), r),
    ensures
        r matches ApiError::Api { status: s, body: b } && s == status && (body is None
            ==> b@.len() == 0) && (body is Some ==> b@ == body->0@),
{
}

/// Law: the errors that stand for a refused token are a 401, a 403 and the one that says so;
/// no other does.
pub proof fn refused_tokens_are_told_by_their_errors(
    status: u16,
    body: String,
    reason: String,
    err: ApiError,
    r: bool,
)
    requires
        call_ensures(client::is_unauthorized, (&err,), r),
    ensures
        err == (ApiError::Api { status, body }) ==> (r <==> status == 401 || status == 403),
        err is Unauthorized ==> r,
        err is NotAuthenticated || err is MaxRetries || err is Http ==> !r,
{
}

/// Law: errors say what they are: a refusal its status and body, a lost request its reason.
pub proof fn errors_say_what_they_are(err: ApiError, r: String)
    requires
        call_ensures(ApiError::message, (&err,), r),
    ensures
        err matches ApiError::Http(reason) ==> r@ == "HTTP error: "@ + reason@,
        err matches ApiError::Api { status, body } ==> r@ == "API error ("@ + text::decimal(
            status as nat,
        ) + "): "@ + body@,
        err is NotAuthenticated ==> r@ == "Not authenticated"@,
        err is MaxRetries ==> r@ == "Max retries exceeded"@,
        err is Unauthorized ==> r@ == "Unauthorized — token refresh failed"@,
{
}

} // verus!
