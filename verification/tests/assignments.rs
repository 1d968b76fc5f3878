use std::sync::{Arc, Mutex};
use std::time::Duration;

use dfc_node::api::client::ApiError;
use dfc_node::assignments::{
    assignment_loop, build_env, monitor_match, EndReason, LoopAction, LoopEvent, MonitorEvent,
    MonitorStep,
};
use dfc_node::slots::MatchSlots;
use dfc_node::types::{MatchAssignmentConfig, NodeAssignment};

fn test_match_config() -> MatchAssignmentConfig {
    MatchAssignmentConfig {
        match_id: 42,
        player1_id: 1,
        player2_id: 2,
        game_mode: "ranked".to_string(),
        wager_amount: "100.0".to_string(),
        timeout_seconds: 300,
    }
}

fn assignment(id: u64) -> NodeAssignment {
    NodeAssignment {
        id,
        match_id: id + 100,
        status: "assigned".to_string(),
        assigned_at: "2025-01-01T00:00:00Z".to_string(),
        expires_at: "2025-01-01T01:00:00Z".to_string(),
        match_config: test_match_config(),
    }
}

#[test]
fn build_env_includes_all_required_fields() {
    let config = test_match_config();
    let env = build_env(42, 1, 100, &config);

    assert_eq!(env.get("DFC_MATCH_ID").unwrap(), "42");
    assert_eq!(env.get("DFC_PLAYER_SLOT").unwrap(), "1");
    assert_eq!(env.get("DFC_PLAYER_ID").unwrap(), "100");
    assert_eq!(env.get("DFC_GAME_MODE").unwrap(), "ranked");
    assert_eq!(env.get("DFC_WAGER_AMOUNT").unwrap(), "100.0");
    assert_eq!(env.get("DFC_TIMEOUT").unwrap(), "300");
}

#[test]
fn build_env_player2_slot() {
    let config = test_match_config();
    let env = build_env(42, 2, 999, &config);

    assert_eq!(env.get("DFC_PLAYER_SLOT").unwrap(), "2");
    assert_eq!(env.get("DFC_PLAYER_ID").unwrap(), "999");
    assert!(env.contains_key("DFC_GAME_MODE"));
    assert!(env.contains_key("DFC_WAGER_AMOUNT"));
    assert!(env.contains_key("DFC_TIMEOUT"));
}

#[test]
fn build_env_different_game_modes() {
    for mode in &["casual", "ranked", "tournament"] {
        let mut config = test_match_config();
        config.game_mode = mode.to_string();
        let env = build_env(1, 1, 1, &config);
        assert_eq!(env.get("DFC_GAME_MODE").unwrap().as_str(), *mode);
    }
}

#[test]
fn build_env_has_nothing_else() {
    let env = build_env(u64::MAX, 255, 0, &test_match_config());
    assert_eq!(env.get("DFC_MATCH_ID").unwrap(), "18446744073709551615");
    assert_eq!(env.get("DFC_PLAYER_SLOT").unwrap(), "255");
    assert_eq!(env.get("DFC_PLAYER_ID").unwrap(), "0");
    assert!(!env.contains_key("DFC_REGION"));
    assert_eq!(env.assignments().len(), 6);
}

#[test]
fn counter_increments_before_spawn() {
    let mut slots = MatchSlots {
        active: 2,
        max_concurrent: 2,
    };
    slots.try_acquire();
    assert_eq!(slots.active, 2);
}

#[test]
fn counter_allows_spawn_when_below_limit() {
    let mut slots = MatchSlots {
        active: 1,
        max_concurrent: 2,
    };
    let should_spawn = slots.try_acquire();

    assert!(should_spawn, "Should allow spawn when prev=1 < max=2");
    assert_eq!(slots.active, 2);
}

#[test]
fn counter_blocks_spawn_when_at_limit() {
    let mut slots = MatchSlots {
        active: 2,
        max_concurrent: 2,
    };
    let should_spawn = slots.try_acquire();

    assert!(!should_spawn, "Should block spawn when prev=2 >= max=2");
    assert_eq!(slots.active, 2);
}

#[test]
fn concurrent_counter_no_race_under_concurrency() {
    let max_concurrent: u32 = 3;
    let slots = Arc::new(Mutex::new(MatchSlots::new(max_concurrent)));
    let runtime = tokio::runtime::Builder::new_multi_thread()
        .worker_threads(4)
        .enable_time()
        .build()
        .unwrap();

    runtime.block_on(async {
        let mut handles = vec![];
        for _ in 0..20 {
            let slots = Arc::clone(&slots);
            handles.push(tokio::spawn(async move {
                let acquired = slots.lock().unwrap().try_acquire();
                if acquired {
                    tokio::time::sleep(Duration::from_millis(10)).await;
                    slots.lock().unwrap().release();
                }
                acquired
            }));
        }

        let sampled = slots.lock().unwrap().active;
        assert!(
            sampled <= max_concurrent + 1,
            "Counter {sampled} exceeded max {max_concurrent} (sampled mid-flight)"
        );
        assert!(sampled <= max_concurrent);

        for h in handles {
            h.await.unwrap();
        }
    });

    assert_eq!(
        slots.lock().unwrap().active,
        0,
        "Counter not back to 0 after all tasks"
    );
}

#[test]
fn reserving_takes_the_first_that_fit() {
    let mut slots = MatchSlots {
        active: 1,
        max_concurrent: 3,
    };
    let accepted = slots.reserve(vec![assignment(1), assignment(2), assignment(3)]);
    assert_eq!(accepted, vec![assignment(1), assignment(2)]);
    assert_eq!(slots.active, 3);
    assert!(slots.is_full());
    assert!(slots.reserve(vec![assignment(4)]).is_empty());
    assert_eq!(slots.active, 3);
}

#[test]
fn reserving_when_already_over_the_limit_takes_none() {
    let mut slots = MatchSlots {
        active: 5,
        max_concurrent: 3,
    };
    assert!(slots.reserve(vec![assignment(1)]).is_empty());
    assert_eq!(slots.active, 5);
}

#[test]
fn releasing_an_untaken_slot_wraps() {
    let mut slots = MatchSlots::new(1);
    slots.release();
    assert_eq!(slots.active, u32::MAX);
}

fn turn(slots: &mut MatchSlots, cancelled: bool, unfinished: usize) -> LoopAction {
    assignment_loop(
        slots,
        7,
        LoopEvent::Turn {
            cancelled,
            unfinished,
        },
    )
}

fn polled(
    slots: &mut MatchSlots,
    cancelled: bool,
    result: Result<Vec<NodeAssignment>, ApiError>,
) -> LoopAction {
    assignment_loop(slots, 7, LoopEvent::Polled { cancelled, result })
}

#[test]
fn loop_stops_waits_or_polls() {
    let mut slots = MatchSlots::new(1);
    assert!(matches!(turn(&mut slots, true, 0), LoopAction::Stop));
    assert!(matches!(
        turn(&mut slots, false, 0),
        LoopAction::Poll {
            node_id: 7,
            timeout_seconds: 15
        }
    ));
    assert!(slots.try_acquire());
    assert!(matches!(
        turn(&mut slots, false, 1),
        LoopAction::Wait { seconds: 5 }
    ));
}

#[test]
fn shutdown_waits_for_running_matches() {
    let mut slots = MatchSlots::new(2);
    assert!(slots.try_acquire());
    assert!(matches!(turn(&mut slots, true, 1), LoopAction::Drain));
    // The slot is given back, but the result is not reported yet.
    slots.release();
    assert!(matches!(turn(&mut slots, true, 1), LoopAction::Drain));
    assert!(matches!(turn(&mut slots, true, 0), LoopAction::Stop));
    // A slot that is still taken counts too.
    assert!(slots.try_acquire());
    assert!(matches!(turn(&mut slots, true, 0), LoopAction::Drain));
    assert_eq!(slots.active, 1);
}

#[test]
fn loop_starts_what_fits() {
    let mut slots = MatchSlots::new(2);
    assert!(matches!(
        polled(&mut slots, false, Ok(vec![])),
        LoopAction::Again
    ));
    let list = vec![assignment(1), assignment(2), assignment(3)];
    match polled(&mut slots, false, Ok(list)) {
        LoopAction::Spawn { assignments } => {
            assert_eq!(assignments, vec![assignment(1), assignment(2)])
        }
        _ => panic!("two matches are started"),
    }
    assert_eq!(slots.active, 2);
}

#[test]
fn loop_refreshes_or_pauses_after_failures() {
    let mut slots = MatchSlots::new(2);
    let denied = ApiError::Api {
        status: 401,
        body: String::new(),
    };
    assert!(matches!(
        polled(&mut slots, false, Err(denied)),
        LoopAction::Refresh
    ));
    assert!(matches!(
        polled(&mut slots, false, Err(ApiError::MaxRetries)),
        LoopAction::Wait { seconds: 5 }
    ));
    assert!(matches!(
        assignment_loop(&mut slots, 7, LoopEvent::Refreshed { ok: true }),
        LoopAction::Again
    ));
    assert!(matches!(
        assignment_loop(&mut slots, 7, LoopEvent::Refreshed { ok: false }),
        LoopAction::Wait { seconds: 5 }
    ));
    assert_eq!(slots.active, 0);
}

fn end_of(step: MonitorStep) -> (Option<u64>, String) {
    match step {
        MonitorStep::End(end) => (end.winner_id, end.reason.text()),
        _ => panic!("the match is over"),
    }
}

#[test]
fn the_surviving_container_wins() {
    let look = |c1_running, c2_running| {
        monitor_match(1, 2, 1_000, MonitorEvent::Polled { c1_running, c2_running })
    };
    assert!(matches!(look(true, true), MonitorStep::Sleep { seconds: 5 }));
    assert_eq!(
        end_of(look(false, true)),
        (Some(2), "objective_complete".to_string())
    );
    assert_eq!(
        end_of(look(true, false)),
        (Some(1), "objective_complete".to_string())
    );
    assert_eq!(end_of(look(false, false)), (None, "draw".to_string()));
}

#[test]
fn shutdown_comes_before_timeout() {
    let wake = |cancelled, now| monitor_match(1, 2, 1_000, MonitorEvent::Woke { cancelled, now });
    assert!(matches!(wake(false, 999), MonitorStep::Poll));
    assert_eq!(end_of(wake(false, 1_000)), (None, "timeout".to_string()));
    assert_eq!(end_of(wake(true, 0)), (None, "node_shutdown".to_string()));
    assert_eq!(end_of(wake(true, 2_000)), (None, "node_shutdown".to_string()));
    assert_eq!(EndReason::Error.text(), "error");
}

#[test]
fn reserving_is_like_asking_one_by_one() {
    let mut at_once = MatchSlots::new(2);
    let accepted = at_once.reserve(vec![assignment(1), assignment(2), assignment(3)]);
    let mut one_by_one = MatchSlots::new(2);
    let granted = (0..3).filter(|_| one_by_one.try_acquire()).count();
    assert_eq!(accepted.len(), granted);
    assert_eq!(at_once.active, one_by_one.active);
}

#[test]
fn shutdown_starts_no_new_match() {
    let mut slots = MatchSlots::new(2);
    assert!(slots.try_acquire());
    assert!(matches!(
        polled(&mut slots, true, Ok(vec![assignment(1)])),
        LoopAction::Again
    ));
    assert_eq!(slots.active, 1);
    assert!(matches!(turn(&mut slots, true, 1), LoopAction::Drain));
}
