use dfc_node::api::client::{ApiError, CoordinatorClient};
use dfc_node::auth::token::{TokenStore, REFRESH_THRESHOLD_SECS};
use dfc_node::auth::wallet::{sign_message, SigningKey};
use dfc_node::heartbeat::{
    heartbeat_loop, heartbeat_post, heartbeat_start, parse_meminfo_kb, read_load,
    read_memory_usage, refresh_token,
    HeartbeatAction, HeartbeatEvent, MemoryUsage, ReauthConfig, RefreshAction, RefreshEvent,
};
use dfc_node::types::{NodeHardwareSpecs, NodeRegistrationResponse, NonceResponse};

fn reauth() -> ReauthConfig {
    let keypair = ed25519_dalek::SigningKey::generate(&mut rand::rngs::OsRng);
    ReauthConfig {
        wallet_address: "test-wallet".to_string(),
        keypair: SigningKey::from_bytes(keypair.as_bytes()),
        hardware: NodeHardwareSpecs {
            cpu_cores: 4,
            memory_gb: 8,
            storage_gb: 100,
            gpu_model: None,
        },
        region: "us-west".to_string(),
        public_ip: "1.2.3.4".to_string(),
        stake_amount: "0".to_string(),
    }
}

#[test]
fn token_refresh_triggered_when_near_expiry() {
    let mut store = TokenStore::new();
    store.set_with_ttl("expiring-token".to_string(), 99, REFRESH_THRESHOLD_SECS - 10, 0);
    assert!(
        store.needs_refresh(0),
        "Expected needs_refresh=true for near-expiry token"
    );
    assert!(matches!(
        heartbeat_loop(&store, 3, 0, HeartbeatEvent::Woke { cancelled: false }),
        HeartbeatAction::Refresh { then_send: true }
    ));
}

#[test]
fn token_refresh_not_triggered_when_fresh() {
    let mut store = TokenStore::new();
    store.set_with_ttl("fresh-token".to_string(), 99, REFRESH_THRESHOLD_SECS * 10, 0);
    assert!(
        !store.needs_refresh(0),
        "Expected needs_refresh=false for fresh token"
    );
    assert!(matches!(
        heartbeat_loop(&store, 3, 0, HeartbeatEvent::Woke { cancelled: false }),
        HeartbeatAction::Send { active_matches: 3 }
    ));
}

#[test]
fn refresh_token_stores_new_token() {
    let mut token_store = TokenStore::new();
    token_store.set("old-token".to_string(), 1, 0);
    let reauth = reauth();

    match refresh_token(&reauth, &mut token_store, 5, RefreshEvent::Begin) {
        RefreshAction::RequestNonce { wallet_address } => {
            assert_eq!(wallet_address, "test-wallet")
        }
        _ => panic!("a nonce is requested"),
    }
    let nonce = NonceResponse {
        nonce: "abc123".to_string(),
        message: "Sign this: abc123".to_string(),
        expires_at: Some("2099-01-01T00:00:00Z".to_string()),
    };
    match refresh_token(&reauth, &mut token_store, 6, RefreshEvent::Nonce(Ok(nonce))) {
        RefreshAction::Register(req) => {
            assert_eq!(req.wallet_address, "test-wallet");
            assert_eq!(req.signature, sign_message(&reauth.keypair, "Sign this: abc123"));
            assert_eq!(req.hardware, reauth.hardware);
            assert_eq!(req.region, "us-west");
            assert_eq!(req.public_ip, "1.2.3.4");
            assert_eq!(req.stake_amount, "0");
        }
        _ => panic!("the node registers with the signed message"),
    }
    assert_eq!(token_store.get().unwrap(), "old-token");

    let registered = NodeRegistrationResponse {
        node_id: 99,
        token: "new-refreshed-token".to_string(),
        status: "active".to_string(),
    };
    assert!(matches!(
        refresh_token(&reauth, &mut token_store, 7, RefreshEvent::Registered(Ok(registered))),
        RefreshAction::Stored
    ));

    assert_eq!(
        token_store.get().unwrap(),
        "new-refreshed-token",
        "Token store should hold the new token after refresh"
    );
    assert_eq!(token_store.node_id().unwrap(), 99);
    assert_eq!(token_store.seconds_until_expiry(7), 3600);
}

#[test]
fn failed_refreshes_keep_the_old_token() {
    let mut store = TokenStore::new();
    store.set("old-token".to_string(), 1, 0);
    let reauth = reauth();
    for event in [
        RefreshEvent::Nonce(Err(ApiError::MaxRetries)),
        RefreshEvent::Registered(Err(ApiError::MaxRetries)),
    ] {
        match refresh_token(&reauth, &mut store, 1, event) {
            RefreshAction::Failed(e) => assert_eq!(e, ApiError::MaxRetries),
            _ => panic!("the refresh fails"),
        }
        assert_eq!(store.get().unwrap(), "old-token");
        assert_eq!(store.node_id().unwrap(), 1);
    }
}

#[test]
fn each_turn_leads_to_one_heartbeat_and_a_pause() {
    let store = TokenStore::new();
    let step = |event| heartbeat_loop(&store, 3, 0, event);
    assert!(matches!(
        step(HeartbeatEvent::Woke { cancelled: true }),
        HeartbeatAction::Stop
    ));
    for ok in [true, false] {
        assert!(matches!(
            step(HeartbeatEvent::Refreshed { then_send: true, ok }),
            HeartbeatAction::Send { active_matches: 3 }
        ));
        assert!(matches!(
            step(HeartbeatEvent::Refreshed { then_send: false, ok }),
            HeartbeatAction::Sleep { seconds: 60 }
        ));
    }
    assert!(matches!(
        step(HeartbeatEvent::Sent(Ok(()))),
        HeartbeatAction::Sleep { seconds: 60 }
    ));
    assert!(matches!(
        step(HeartbeatEvent::Sent(Err(ApiError::Unauthorized))),
        HeartbeatAction::Refresh { then_send: false }
    ));
    assert!(matches!(
        step(HeartbeatEvent::Sent(Err(ApiError::MaxRetries))),
        HeartbeatAction::Sleep { seconds: 60 }
    ));
}

#[test]
fn heartbeats_go_out_under_the_current_node_id() {
    let mut client = CoordinatorClient::new("http://c", TokenStore::new());
    assert_eq!(heartbeat_post(&client).err(), Some(ApiError::NotAuthenticated));
    client.token_store.set("t".to_string(), 12, 0);
    let attempt = heartbeat_post(&client)
        .ok()
        .unwrap()
        .begin(&client.token_store)
        .ok()
        .unwrap();
    assert_eq!(attempt.url(), "http://c/api/nodes/12/heartbeat");
    assert_eq!(attempt.authorization(), Some("Bearer t"));
}

#[test]
fn meminfo_lines() {
    assert_eq!(parse_meminfo_kb("MemTotal:       16384256 kB"), Some(16384256));
    assert_eq!(parse_meminfo_kb("MemTotal:\t+7"), Some(7));
    assert_eq!(parse_meminfo_kb("MemTotal:"), None);
    assert_eq!(parse_meminfo_kb("MemTotal: many kB"), None);
    assert_eq!(parse_meminfo_kb("X: 18446744073709551615"), Some(u64::MAX));
    assert_eq!(parse_meminfo_kb("X: 18446744073709551616"), None);
}

#[test]
fn meminfo_as_a_whole() {
    let usage = read_memory_usage(
        "MemTotal:        1000 kB\r\nMemFree:          100 kB\nMemAvailable:     250 kB\nBuffers: x kB\n",
    )
    .unwrap();
    assert_eq!(
        usage,
        MemoryUsage {
            total_kb: 1000,
            available_kb: 250
        }
    );
    assert_eq!(usage.used_kb(), 750);
    assert_eq!(
        read_memory_usage("MemTotal: 5"),
        Some(MemoryUsage {
            total_kb: 5,
            available_kb: 0
        })
    );
    assert_eq!(read_memory_usage(""), None);
    assert_eq!(read_memory_usage("MemAvailable: 5 kB\n"), None);
    assert_eq!(read_memory_usage("MemTotal: 0 kB\n"), None);
    assert_eq!(read_memory_usage("MemTotal: 5 kB\nMemAvailable: ? kB\n"), None);
    assert_eq!(read_memory_usage(" MemTotal: 5 kB\n"), None);
}

#[test]
fn load_is_the_first_word() {
    assert_eq!(read_load("0.52 0.58 0.59 1/467 12345\n"), Some("0.52"));
    assert_eq!(read_load(" \n"), None);
}

#[test]
fn the_first_heartbeat_comes_after_an_interval() {
    assert!(matches!(
        heartbeat_start(),
        HeartbeatAction::Sleep { seconds: 60 }
    ));
}
