use dfc_node::api::client::{
    is_unauthorized, poll_refusal, refusal, ApiError, CoordinatorClient, PostReply, PostRetry,
    PostStep,
};
use dfc_node::auth::token::TokenStore;

fn client_with_token() -> CoordinatorClient {
    let mut store = TokenStore::new();
    store.set("secret".to_string(), 7, 0);
    CoordinatorClient::new("http://localhost:3001", store)
}

/// Sends a post, answering its attempts with `replies`; returns the pauses and what it came to.
fn drive(post: PostRetry, tokens: &TokenStore, replies: Vec<PostReply>) -> (Vec<u64>, String) {
    let mut pauses = Vec::new();
    let mut post = post;
    let mut replies = replies.into_iter();
    loop {
        let attempt = match post.begin(tokens) {
            Ok(attempt) => attempt,
            Err(e) => return (pauses, e.message()),
        };
        let reply = match replies.next() {
            Some(reply) => reply,
            None => return (pauses, "waiting".to_string()),
        };
        match attempt.on_reply(reply) {
            PostStep::Accepted => return (pauses, "accepted".to_string()),
            PostStep::Refused { status } => return (pauses, format!("refused {}", status)),
            PostStep::Failed(e) => return (pauses, e.message()),
            PostStep::Again { pause_ms, retry } => {
                pauses.push(pause_ms);
                post = retry;
            }
        }
    }
}

#[test]
fn client_creation() {
    let store = TokenStore::new();
    let client = CoordinatorClient::new("http://localhost:3001", store);
    assert_eq!(client.base_url, "http://localhost:3001");
}

#[test]
fn url_trailing_slash_stripped() {
    let store = TokenStore::new();
    let client = CoordinatorClient::new("http://localhost:3001/", store);
    assert_eq!(client.base_url, "http://localhost:3001");
}

#[test]
fn all_trailing_slashes_are_stripped() {
    let client = CoordinatorClient::new("http://localhost:3001///", TokenStore::new());
    assert_eq!(client.base_url, "http://localhost:3001");
    let client = CoordinatorClient::new("//", TokenStore::new());
    assert_eq!(client.base_url, "");
}

#[test]
fn is_unauthorized_detects_401() {
    let err = ApiError::Api {
        status: 401,
        body: "Unauthorized".to_string(),
    };
    assert!(is_unauthorized(&err));
}

#[test]
fn is_unauthorized_detects_403() {
    let err = ApiError::Api {
        status: 403,
        body: "Forbidden".to_string(),
    };
    assert!(is_unauthorized(&err));
}

#[test]
fn is_unauthorized_false_for_other_errors() {
    let err = ApiError::Api {
        status: 500,
        body: "Server error".to_string(),
    };
    assert!(!is_unauthorized(&err));

    let err2 = ApiError::MaxRetries;
    assert!(!is_unauthorized(&err2));
}

#[test]
fn is_unauthorized_on_the_remaining_variants() {
    assert!(is_unauthorized(&ApiError::Unauthorized));
    assert!(!is_unauthorized(&ApiError::NotAuthenticated));
    assert!(!is_unauthorized(&ApiError::Http("timed out".to_string())));
}

#[test]
fn poll_assignments_returns_unauthorized_on_401() {
    let mut store = TokenStore::new();
    store.set("expired-token".to_string(), 1, 0);
    let client = CoordinatorClient::new("http://localhost:3001", store);

    let poll = match client.poll_assignments(1, 5) {
        Ok(poll) => poll,
        Err(_) => panic!("the poll is sent"),
    };
    assert_eq!(
        poll.url,
        "http://localhost:3001/api/nodes/1/assignments?timeout=5"
    );
    assert_eq!(poll.authorization, "Bearer expired-token");

    let status = poll_refusal(401).unwrap();
    let err = refusal(status, Some("Unauthorized".to_string()));
    assert!(is_unauthorized(&err), "Expected unauthorized error, got: {}", err.message());
}

#[test]
fn polls_wait_five_seconds_longer() {
    let poll = client_with_token().poll_assignments(7, 15).ok().unwrap();
    assert_eq!(poll.timeout_seconds, 20);
    assert_eq!(
        poll.url,
        "http://localhost:3001/api/nodes/7/assignments?timeout=15"
    );
}

#[test]
fn polls_need_a_token() {
    let client = CoordinatorClient::new("http://localhost:3001", TokenStore::new());
    assert_eq!(
        client.poll_assignments(1, 15).err(),
        Some(ApiError::NotAuthenticated)
    );
}

#[test]
fn poll_statuses() {
    assert_eq!(poll_refusal(200), None);
    assert_eq!(poll_refusal(204), None);
    assert_eq!(poll_refusal(299), None);
    assert_eq!(poll_refusal(300), Some(300));
    assert_eq!(poll_refusal(199), Some(199));
    assert_eq!(poll_refusal(401), Some(401));
    assert_eq!(poll_refusal(403), Some(401));
    assert_eq!(poll_refusal(500), Some(500));
}

#[test]
fn refusals_without_a_body_have_an_empty_one() {
    assert_eq!(
        refusal(404, None),
        ApiError::Api {
            status: 404,
            body: String::new()
        }
    );
}

#[test]
fn requests_go_to_their_endpoints() {
    let client = client_with_token();
    let (nonce, body) = client.request_nonce("wallet-1");
    assert_eq!(body.wallet_address, "wallet-1");
    let nonce = nonce.begin(&client.token_store).ok().unwrap();
    assert_eq!(nonce.url(), "http://localhost:3001/api/nodes/auth/nonce");
    assert_eq!(nonce.authorization(), None);

    let register = client.register().begin(&client.token_store).ok().unwrap();
    assert_eq!(register.url(), "http://localhost:3001/api/nodes/register");
    assert_eq!(register.authorization(), None);

    let heartbeat = client.heartbeat(7).begin(&client.token_store).ok().unwrap();
    assert_eq!(heartbeat.url(), "http://localhost:3001/api/nodes/7/heartbeat");
    assert_eq!(heartbeat.authorization(), Some("Bearer secret"));

    let report = client.report_match(7).begin(&client.token_store).ok().unwrap();
    assert_eq!(report.url(), "http://localhost:3001/api/nodes/7/report");
    assert_eq!(report.authorization(), Some("Bearer secret"));
}

#[test]
fn posts_are_sent_three_times_with_growing_pauses() {
    let client = client_with_token();
    let (pauses, end) = drive(
        client.heartbeat(7),
        &client.token_store,
        vec![
            PostReply::Status(500),
            PostReply::Status(503),
            PostReply::Status(599),
            PostReply::Status(200),
        ],
    );
    assert_eq!(pauses, vec![1000, 2000, 4000]);
    assert_eq!(end, "Max retries exceeded");
}

#[test]
fn the_first_deciding_reply_decides() {
    let client = client_with_token();
    let (pauses, end) = drive(
        client.heartbeat(7),
        &client.token_store,
        vec![
            PostReply::Failed("refused".to_string()),
            PostReply::Status(500),
            PostReply::Status(201),
        ],
    );
    assert_eq!(pauses, vec![1000, 2000]);
    assert_eq!(end, "accepted");
}

#[test]
fn the_last_failed_transmission_is_reported() {
    let client = client_with_token();
    let (pauses, end) = drive(
        client.register(),
        &client.token_store,
        vec![
            PostReply::Failed("a".to_string()),
            PostReply::Failed("b".to_string()),
            PostReply::Failed("c".to_string()),
        ],
    );
    assert_eq!(pauses, vec![1000, 2000]);
    assert_eq!(end, "HTTP error: c");
}

#[test]
fn refused_tokens_end_a_post_at_once() {
    let client = client_with_token();
    for status in [401, 403] {
        let attempt = client.heartbeat(7).begin(&client.token_store).ok().unwrap();
        match attempt.on_reply(PostReply::Status(status)) {
            PostStep::Failed(e) => {
                assert_eq!(e, ApiError::Unauthorized);
                assert!(is_unauthorized(&e));
            }
            _ => panic!("a refused token is reported as such"),
        }
    }
}

#[test]
fn open_posts_treat_a_denial_as_any_refusal() {
    let client = client_with_token();
    let (pauses, end) = drive(
        client.register(),
        &client.token_store,
        vec![PostReply::Status(401)],
    );
    assert!(pauses.is_empty());
    assert_eq!(end, "refused 401");
    let (_, end) = drive(
        client.post_with_retry("http://x/".to_string(), true),
        &client.token_store,
        vec![PostReply::Status(403)],
    );
    assert_eq!(end, "refused 403");
}

#[test]
fn posts_that_need_a_token_are_not_sent_without() {
    let client = CoordinatorClient::new("http://localhost:3001", TokenStore::new());
    let (_, end) = drive(client.heartbeat(1), &client.token_store, vec![]);
    assert_eq!(end, "Not authenticated");
    let (_, end) = drive(client.register(), &client.token_store, vec![]);
    assert_eq!(end, "waiting");
}

#[test]
fn errors_in_words() {
    assert_eq!(
        ApiError::Http("no route".to_string()).message(),
        "HTTP error: no route"
    );
    assert_eq!(
        ApiError::Api {
            status: 404,
            body: "gone".to_string()
        }
        .message(),
        "API error (404): gone"
    );
    assert_eq!(ApiError::NotAuthenticated.message(), "Not authenticated");
    assert_eq!(ApiError::MaxRetries.message(), "Max retries exceeded");
    assert_eq!(
        ApiError::Unauthorized.message(),
        "Unauthorized \u{2014} token refresh failed"
    );
}
