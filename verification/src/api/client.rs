//! Requests to the coordinator: where they go, how they are authorised, when they are retried
//! and what their replies mean. Sending them is the caller's part.

use crate::auth::token::TokenStore;
use crate::text;
use crate::text::{decimal_string, trim_end_matches};
use crate::types::NonceRequest;
use vstd::prelude::*;
use vstd::string::*;

verus! {

/// How often a post is sent before it is given up.
pub const MAX_RETRIES: u32 = 3;

/// The pause after the first failed attempt, in milliseconds; it doubles with each attempt.
pub const INITIAL_BACKOFF_MS: u64 = 1000;

/// How much longer than the coordinator a long poll waits, in seconds.
pub const POLL_GRACE_SECS: u32 = 5;

/// The coordinator as a node sees it: its address, and the token that it issued.
pub struct CoordinatorClient {
    pub base_url: String,
    pub token_store: TokenStore,
}

/// Why a request came to nothing.
#[derive(Debug, PartialEq, Eq)]
pub enum ApiError {
    /// The request could not be sent, or its reply not be read.
    Http(String),
    /// The coordinator refused the request.
    Api { status: u16, body: String },
    /// There is no token to send.
    NotAuthenticated,
    /// Every attempt met a server error.
    MaxRetries,
    /// The coordinator does not accept the token.
    Unauthorized,
}

/// The text of an error.
pub open spec fn error_text(err: ApiError) -> Seq<char> {
    match err {
        ApiError::Http(reason) => "HTTP error: "@ + reason@,
        ApiError::Api { status, body } => "API error ("@ + text::decimal(status as nat) + "): "@
            + body@,
        ApiError::NotAuthenticated => "Not authenticated"@,
        ApiError::MaxRetries => "Max retries exceeded"@,
        ApiError::Unauthorized => "Unauthorized — token refresh failed"@,
    }
}

impl ApiError {
    /// The error in words.
    pub fn message(&self) -> (r: String)
        ensures
            r@ == error_text(*self),
    {
        match self {
            ApiError::Http(reason) => {
                let mut r = "HTTP error: ".to_string();
                r.append(reason.as_str());
                r
            },
            ApiError::Api { status, body } => {
                let mut r = "API error (".to_string();
                r.append(decimal_string(*status as u64).as_str());
                r.append("): ");
                r.append(body.as_str());
                r
            },
            ApiError::NotAuthenticated => "Not authenticated".to_string(),
            ApiError::MaxRetries => "Max retries exceeded".to_string(),
            ApiError::Unauthorized => "Unauthorized — token refresh failed".to_string(),
        }
    }
}

/// Whether an error says that the token was not accepted.
pub open spec fn denies_access(err: ApiError) -> bool {
    match err {
        ApiError::Api { status, .. } => status == 401 || status == 403,
        ApiError::Unauthorized => true,
        _ => false,
    }
}

/// Whether an error stands for a reply 401 or 403.
pub fn is_unauthorized(err: &ApiError) -> (r: bool)
    ensures
        r == denies_access(*err),
{
    match err {
        ApiError::Api { status, .. } => *status == 401 || *status == 403,
        ApiError::Unauthorized => true,
        _ => false,
    }
}

/// Status codes that report success.
pub open spec fn is_success(status: u16) -> bool {
    200 <= status < 300
}

/// Status codes that report a fault of the server.
pub open spec fn is_server_error(status: u16) -> bool {
    500 <= status < 600
}

/// Status codes that refuse the token.
pub open spec fn is_denial(status: u16) -> bool {
    status == 401 || status == 403
}

/// The error that a refusal with this status and body stands for; a body that could not be read
/// counts as empty.
pub fn refusal(status: u16, body: Option<String>) -> (r: ApiError)
    ensures
        r matches ApiError::Api { status: s, body: b } && s == status && match body {
            Some(t) => b == t,
            None => b@ == Seq::<char>::empty(),
        },
{
    match body {
        Some(body) => ApiError::Api { status, body },
        None => ApiError::Api { status, body: String::new() },
    }
}

// ---------------------------------------------------------------------------
// Posting with retries
// ---------------------------------------------------------------------------

/// How a post is authorised.
#[derive(Debug, Clone, Copy, PartialEq, Eq, Structural)]
pub enum PostMode {
    /// Without a token.
    Open,
    /// With the token, and with a refusal of it treated as any other.
    Bearer,
    /// With the token, and with a refusal of it reported as such.
    AuthHandled,
}

/// A post before its next attempt.
pub struct PostRetry {
    url: String,
    mode: PostMode,
    attempt: u32,
    backoff_ms: u64,
}

/// A post before attempt number `attempt`, counted from zero.
pub struct PostModel {
    pub url: Seq<char>,
    pub mode: PostMode,
    pub attempt: nat,
}

/// The pause after attempt number `attempt`, in milliseconds.
pub open spec fn backoff_after(attempt: nat) -> nat
    decreases attempt,
{
    if attempt == 0 {
        INITIAL_BACKOFF_MS as nat
    } else {
        2 * backoff_after((attempt - 1) as nat)
    }
}

impl View for PostRetry {
    type V = PostModel;

    closed spec fn view(&self) -> PostModel {
        PostModel { url: self.url@, mode: self.mode, attempt: self.attempt as nat }
    }
}

impl PostRetry {
    #[verifier::type_invariant]
    spec fn inv(self) -> bool {
        &&& self.attempt <= MAX_RETRIES
        &&& self.backoff_ms == backoff_after(self.attempt as nat)
    }

    fn first(url: String, mode: PostMode) -> (r: Self)
        ensures
            r@ == (PostModel { url: url@, mode, attempt: 0 }),
    {
        PostRetry { url, mode, attempt: 0, backoff_ms: INITIAL_BACKOFF_MS }
    }
}

/// One attempt at a post: what has to be sent.
pub struct PostAttempt {
    retry: PostRetry,
    authorization: Option<String>,
}

impl View for PostAttempt {
    type V = PostModel;

    closed spec fn view(&self) -> PostModel {
        self.retry@
    }
}

/// What came of sending an attempt: the status of the reply, or the reason why there is none.
#[derive(Debug)]
pub enum PostReply {
    Status(u16),
    Failed(String),
}

/// What is to be done about a reply.
pub enum PostStep {
    /// The post succeeded: the reply's body is the answer.
    Accepted,
    /// The post was refused: the reply's body says why.
    Refused { status: u16 },
    /// The post failed.
    Failed(ApiError),
    /// The post is tried again after a pause.
    Again { pause_ms: u64, retry: PostRetry },
}

/// How a post ends.
pub enum PostEnd {
    Accepted,
    Refused { status: u16 },
    Failed(ApiError),
}

/// How attempt number `attempt` of a post is decided by its reply: the end of the post, or none
/// if it is tried again.
pub open spec fn decided(mode: PostMode, attempt: nat, reply: PostReply) -> Option<PostEnd> {
    match reply {
        PostReply::Status(status) => if is_success(status) {
            Some(PostEnd::Accepted)
        } else if mode == PostMode::AuthHandled && is_denial(status) {
            Some(PostEnd::Failed(ApiError::Unauthorized))
        } else if is_server_error(status) {
            None
        } else {
            Some(PostEnd::Refused { status })
        },
        PostReply::Failed(reason) => if attempt + 1 < MAX_RETRIES {
            None
        } else {
            Some(PostEnd::Failed(ApiError::Http(reason)))
        },
    }
}

/// The value of the `Authorization` header for a token.
pub open spec fn bearer(token: Seq<char>) -> Seq<char> {
    "Bearer "@ + token
}

fn bearer_header(token: &String) -> (r: String)
    ensures
        r@ == bearer(token@),
{
    let mut r = "Bearer ".to_string();
    r.append(token.as_str());
    r
}

impl PostRetry {
    /// Prepares the next attempt with the token that is held now. All attempts used up, the post
    /// has failed; without a token, a post that needs one is not sent.
    pub fn begin(self, tokens: &TokenStore) -> (r: Result<PostAttempt, ApiError>)
        ensures
            self@.attempt >= MAX_RETRIES ==> r == Err::<PostAttempt, _>(ApiError::MaxRetries),
            self@.attempt < MAX_RETRIES ==> match (self@.mode, tokens@) {
                (PostMode::Open, _) => r matches Ok(a) && a@ == self@ && a.header() is None,
                (_, Some(session)) => r matches Ok(a) && a@ == self@ && a.header() == Some(
                    bearer(session.token),
                ),
                (_, None) => r == Err::<PostAttempt, _>(ApiError::NotAuthenticated),
            },
    {
        proof {
            use_type_invariant(&self);
        }
        if self.attempt >= MAX_RETRIES {
            return Err(ApiError::MaxRetries);
        }
        match self.mode {
            PostMode::Open => Ok(PostAttempt { retry: self, authorization: None }),
            _ => match tokens.get() {
                Some(token) => {
                    let header = bearer_header(&token);
                    Ok(PostAttempt { retry: self, authorization: Some(header) })
                },
                None => Err(ApiError::NotAuthenticated),
            },
        }
    }
}

impl PostAttempt {
    #[verifier::type_invariant]
    spec fn inv(self) -> bool {
        self.retry.attempt < MAX_RETRIES
    }

    /// The value of the `Authorization` header, if one is sent.
    pub closed spec fn header(&self) -> Option<Seq<char>> {
        match self.authorization {
            Some(h) => Some(h@),
            None => None,
        }
    }

    /// Where the attempt goes.
    pub fn url(&self) -> (r: &str)
        ensures
            r@ == self@.url,
    {
        self.retry.url.as_str()
    }

    /// The value of the `Authorization` header, if one is sent.
    pub fn authorization(&self) -> (r: Option<&str>)
        ensures
            match r {
                Some(h) => self.header() == Some(h@),
                None => self.header() is None,
            },
    {
        match &self.authorization {
            Some(h) => Some(h.as_str()),
            None => None,
        }
    }

    /// Decides about the reply to the attempt.
    pub fn on_reply(self, reply: PostReply) -> (r: PostStep)
        ensures
            self@.attempt < MAX_RETRIES,
            match decided(self@.mode, self@.attempt, reply) {
                Some(PostEnd::Accepted) => r is Accepted,
                Some(PostEnd::Refused { status }) => r == (PostStep::Refused { status }),
                Some(PostEnd::Failed(err)) => r == PostStep::Failed(err),
                None => {
                    &&& r matches PostStep::Again { pause_ms, retry }
                    &&& pause_ms == backoff_after(self@.attempt)
                    &&& retry@ == (PostModel { attempt: self@.attempt + 1, ..self@ })
                },
            },
    {
        proof {
            use_type_invariant(&self);
            use_type_invariant(&self.retry);
            reveal_with_fuel(backoff_after, 4);
        }
        match reply {
            PostReply::Status(status) => {
                if 200 <= status && status < 300 {
                    return PostStep::Accepted;
                }
                if self.retry.mode == PostMode::AuthHandled && (status == 401 || status == 403) {
                    return PostStep::Failed(ApiError::Unauthorized);
                }
                if status < 500 || status >= 600 {
                    return PostStep::Refused { status };
                }
            },
            PostReply::Failed(reason) => {
                if self.retry.attempt >= MAX_RETRIES - 1 {
                    return PostStep::Failed(ApiError::Http(reason));
                }
            },
        }
        let pause_ms: u64 = self.retry.backoff_ms;
        let retry = PostRetry {
            url: self.retry.url,
            mode: self.retry.mode,
            attempt: self.retry.attempt + 1,
            backoff_ms: pause_ms * 2,
        };
        PostStep::Again { pause_ms, retry }
    }
}

// ---------------------------------------------------------------------------
// The requests
// ---------------------------------------------------------------------------

/// A long poll: where it goes, how it is authorised and how long it may take.
pub struct PollRequest {
    pub url: String,
    pub authorization: String,
    pub timeout_seconds: u64,
}

/// The address of a node's resource.
pub open spec fn node_url(base: Seq<char>, node_id: u64, rest: Seq<char>) -> Seq<char> {
    base + "/api/nodes/"@ + text::decimal(node_id as nat) + rest
}

/// The status under which a refused poll is reported, or none if the reply is an answer: a
/// refusal of the token is always reported as 401.
pub open spec fn poll_refused(status: u16) -> Option<u16> {
    if is_denial(status) {
        Some(401)
    } else if is_success(status) {
        None
    } else {
        Some(status)
    }
}

/// The status under which a refused poll is reported, or none if the reply is an answer.
pub fn poll_refusal(status: u16) -> (r: Option<u16>)
    ensures
        r == poll_refused(status),
{
    if status == 401 || status == 403 {
        Some(401)
    } else if 200 <= status && status < 300 {
        None
    } else {
        Some(status)
    }
}

impl CoordinatorClient {
    /// A client for the coordinator at `base_url`, whose trailing slashes do not count.
    pub fn new(base_url: &str, token_store: TokenStore) -> (r: Self)
        ensures
            r.base_url@ == text::trim_end(base_url@, '/'),
            r.token_store == token_store,
    {
        CoordinatorClient {
            base_url: trim_end_matches(base_url, '/').to_string(),
            token_store,
        }
    }

    fn node_path(&self, node_id: u64, rest: &str) -> (r: String)
        ensures
            r@ == node_url(self.base_url@, node_id, rest@),
    {
        let mut r = self.base_url.clone();
        r.append("/api/nodes/");
        r.append(decimal_string(node_id).as_str());
        r.append(rest);
        r
    }

    /// Posts to `url`, with the token if `auth` is set.
    pub fn post_with_retry(&self, url: String, auth: bool) -> (r: PostRetry)
        ensures
            r@ == (PostModel {
                url: url@,
                mode: if auth {
                    PostMode::Bearer
                } else {
                    PostMode::Open
                },
                attempt: 0,
            }),
    {
        let mode = if auth {
            PostMode::Bearer
        } else {
            PostMode::Open
        };
        PostRetry::first(url, mode)
    }

    /// Posts to `url` with the token; a reply 401 or 403 ends the post at once, as
    /// `ApiError::Unauthorized`.
    pub fn post_with_retry_with_auth_handler(&self, url: String) -> (r: PostRetry)
        ensures
            r@ == (PostModel { url: url@, mode: PostMode::AuthHandled, attempt: 0 }),
    {
        PostRetry::first(url, PostMode::AuthHandled)
    }

    /// The request for a nonce, with its body.
    pub fn request_nonce(&self, wallet_address: &str) -> (r: (PostRetry, NonceRequest))
        ensures
            r.0@ == (PostModel {
                url: self.base_url@ + "/api/nodes/auth/nonce"@,
                mode: PostMode::Open,
                attempt: 0,
            }),
            r.1.wallet_address@ == wallet_address@,
    {
        let mut url = self.base_url.clone();
        url.append("/api/nodes/auth/nonce");
        let body = NonceRequest { wallet_address: wallet_address.to_string() };
        (self.post_with_retry(url, false), body)
    }

    /// The request that registers this node; its body is a `NodeRegistrationRequest`.
    pub fn register(&self) -> (r: PostRetry)
        ensures
            r@ == (PostModel {
                url: self.base_url@ + "/api/nodes/register"@,
                mode: PostMode::Open,
                attempt: 0,
            }),
    {
        let mut url = self.base_url.clone();
        url.append("/api/nodes/register");
        self.post_with_retry(url, false)
    }

    /// The request that carries a heartbeat.
    pub fn heartbeat(&self, node_id: u64) -> (r: PostRetry)
        ensures
            r@ == (PostModel {
                url: node_url(self.base_url@, node_id, "/heartbeat"@),
                mode: PostMode::AuthHandled,
                attempt: 0,
            }),
    {
        self.post_with_retry_with_auth_handler(self.node_path(node_id, "/heartbeat"))
    }

    /// The request that carries a `NodeMatchReport`.
    pub fn report_match(&self, node_id: u64) -> (r: PostRetry)
        ensures
            r@ == (PostModel {
                url: node_url(self.base_url@, node_id, "/report"@),
                mode: PostMode::AuthHandled,
                attempt: 0,
            }),
    {
        self.post_with_retry_with_auth_handler(self.node_path(node_id, "/report"))
    }

    /// The long poll for match assignments. It is not sent without a token, and it waits a
    /// little longer for the reply than the coordinator was asked to take.
    pub fn poll_assignments(&self, node_id: u64, timeout_seconds: u32) -> (r: Result<
        PollRequest,
        ApiError,
    >)
        requires
            timeout_seconds <= u32::MAX - POLL_GRACE_SECS,
        ensures
            match self.token_store@ {
                Some(session) => {
                    &&& r matches Ok(poll)
                    &&& poll.url@ == node_url(
                        self.base_url@,
                        node_id,
                        "/assignments?timeout="@ + text::decimal(timeout_seconds as nat),
                    )
                    &&& poll.authorization@ == bearer(session.token)
                    &&& poll.timeout_seconds == timeout_seconds + POLL_GRACE_SECS
                },
                None => r == Err::<PollRequest, _>(ApiError::NotAuthenticated),
            },
    {
        let mut rest = "/assignments?timeout=".to_string();
        rest.append(decimal_string(timeout_seconds as u64).as_str());
        let url = self.node_path(node_id, rest.as_str());
        match self.token_store.get() {
            Some(token) => Ok(
                PollRequest {
                    url,
                    authorization: bearer_header(&token),
                    timeout_seconds: (timeout_seconds + POLL_GRACE_SECS) as u64,
                },
            ),
            None => Err(ApiError::NotAuthenticated),
        }
    }
}

// ---------------------------------------------------------------------------
// Laws
// ---------------------------------------------------------------------------

/// The course of a post from attempt number `attempt` on, with a token at hand whenever one is
/// needed, while `replies` come in: the pauses that it makes, and its end if it has one by then.
pub open spec fn post_course(mode: PostMode, attempt: nat, replies: Seq<PostReply>) -> (
    Seq<nat>,
    Option<PostEnd>,
)
    decreases replies.len(),
{
    if attempt >= MAX_RETRIES {
        (Seq::empty(), Some(PostEnd::Failed(ApiError::MaxRetries)))
    } else if replies.len() == 0 {
        (Seq::empty(), None)
    } else {
        match decided(mode, attempt, replies[0]) {
            Some(end) => (Seq::empty(), Some(end)),
            None => {
                let (pauses, end) = post_course(mode, attempt + 1, replies.skip(1));
                (seq![backoff_after(attempt)] + pauses, end)
            },
        }
    }
}

/// Law: a post is sent at most three times. Three replies bring it to its end, and it pauses no
/// more than once after each, for 1000, 2000 and 4000 milliseconds in this order.
pub proof fn posts_are_bounded(mode: PostMode, replies: Seq<PostReply>)
    requires
        replies.len() >= MAX_RETRIES,
    ensures
        post_course(mode, 0, replies).1 is Some,
        post_course(mode, 0, replies).0.len() <= 3,
        forall|i: int|
            #![trigger post_course(mode, 0, replies).0[i]]
            0 <= i < post_course(mode, 0, replies).0.len() ==> post_course(mode, 0, replies).0[i]
                == seq![1000nat, 2000, 4000][i],
{
    reveal_with_fuel(post_course, 4);
    reveal_with_fuel(backoff_after, 4);
}

/// Law: the first reply that decides a post decides it. Whatever came before it was retried, and
/// whatever would come after it is not asked for.
pub proof fn first_decision_stands(mode: PostMode, replies: Seq<PostReply>, k: int)
    requires
        0 <= k < replies.len(),
        k < MAX_RETRIES,
        forall|i: int| 0 <= i < k ==> decided(mode, i as nat, #[trigger] replies[i]) is None,
        decided(mode, k as nat, replies[k]) is Some,
    ensures
        post_course(mode, 0, replies).1 == decided(mode, k as nat, replies[k]),
        post_course(mode, 0, replies).0.len() == k,
{
    reveal_with_fuel(post_course, 4);
    assert(k == 0 || k == 1 || k == 2);
    if k > 0 {
        assert(decided(mode, 0, replies[0]) is None);
        assert(replies.skip(1)[0] == replies[1]);
    }
    if k > 1 {
        assert(decided(mode, 1, replies[1]) is None);
        assert(replies.skip(1).skip(1)[0] == replies[2]);
    }
}

/// Law: a post fails for want of attempts exactly if all three attempts were retried, the last
/// of them after a server error; it has then paused three times.
pub proof fn gives_up_after_three(mode: PostMode, replies: Seq<PostReply>)
    requires
        replies.len() >= MAX_RETRIES,
    ensures
        post_course(mode, 0, replies).1 == Some(PostEnd::Failed(ApiError::MaxRetries)) <==> (
        decided(mode, 0, replies[0]) is None && decided(mode, 1, replies[1]) is None && decided(
            mode,
            2,
            replies[2],
        ) is None),
        decided(mode, 2, replies[2]) is None <==> (replies[2] matches PostReply::Status(status)
            && is_server_error(status)),
        post_course(mode, 0, replies).1 == Some(PostEnd::Failed(ApiError::MaxRetries))
            ==> post_course(mode, 0, replies).0.len() == 3,
{
    reveal_with_fuel(post_course, 4);
    assert(replies.skip(1)[0] == replies[1]);
    assert(replies.skip(1).skip(1)[0] == replies[2]);
}

/// Law: a refused token is always told as such. A post that reports refusals of the token ends
/// on 401 and 403 at once with an error that denies access; a poll reports both as a 401, which
/// denies access too, and reports no other status so.
pub proof fn denials_are_recognised(status: u16, attempt: nat, body: String)
    ensures
        is_denial(status) ==> (decided(PostMode::AuthHandled, attempt, PostReply::Status(status))
            matches Some(PostEnd::Failed(err)) && denies_access(err)),
        is_denial(status) <==> (poll_refused(status) matches Some(s) && denies_access(
            ApiError::Api { status: s, body },
        )),
{
}

} // verus!
