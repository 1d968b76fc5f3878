use dfc_node::match_run::{MatchAction, MatchEvent, MatchRun};
use dfc_node::types::{MatchAssignmentConfig, NodeAssignment, NodeMatchReport};

const SEC: u64 = 1_000_000_000;

fn assignment() -> NodeAssignment {
    NodeAssignment {
        id: 1,
        match_id: 42,
        status: "assigned".to_string(),
        assigned_at: "now".to_string(),
        expires_at: "later".to_string(),
        match_config: MatchAssignmentConfig {
            match_id: 43,
            player1_id: 11,
            player2_id: 22,
            game_mode: "ranked".to_string(),
            wager_amount: "1".to_string(),
            timeout_seconds: 300,
        },
    }
}

fn spawned(id: &str) -> MatchEvent {
    MatchEvent::Spawned {
        container_id: id.to_string(),
    }
}

fn spawn_failed(created: Option<&str>) -> MatchEvent {
    MatchEvent::SpawnFailed {
        container_id: created.map(|id| id.to_string()),
    }
}

fn describe(action: &MatchAction) -> String {
    match action {
        MatchAction::Spawn {
            match_id,
            slot,
            env,
        } => format!(
            "spawn {} match {} ({}) player {}",
            slot,
            match_id,
            env.get("DFC_MATCH_ID").unwrap(),
            env.get("DFC_PLAYER_ID").unwrap()
        ),
        MatchAction::Check => "check".to_string(),
        MatchAction::Look { c1, c2 } => format!("look {} {}", c1, c2),
        MatchAction::Sleep { seconds } => format!("sleep {}", seconds),
        MatchAction::Kill { container_id } => format!("kill {}", container_id),
        MatchAction::Release => "release".to_string(),
        MatchAction::Report { node_id, report } => format!(
            "report {} {} {:?} {} {}",
            node_id, report.match_id, report.winner_id, report.end_reason, report.duration_seconds
        ),
        MatchAction::Finish => "finish".to_string(),
    }
}

/// Plays a match through `events` and returns what was to be done.
fn play(events: Vec<(u64, MatchEvent)>) -> Vec<String> {
    let (mut run, first) = MatchRun::start(7, assignment(), 10 * SEC);
    let mut actions = vec![describe(&first)];
    for (now, event) in events {
        assert!(run.accepts(&event));
        let (next, action) = run.step(now, event);
        actions.push(describe(&action));
        run = next;
    }
    actions
}

#[test]
fn a_match_from_start_to_report() {
    let looked = |c1_running, c2_running| MatchEvent::Looked {
        c1_running,
        c2_running,
    };
    let woke = || MatchEvent::Woke { cancelled: false };
    assert_eq!(
        play(vec![
            (11 * SEC, spawned("a")),
            (12 * SEC, spawned("b")),
            (12 * SEC, woke()),
            (13 * SEC, looked(true, true)),
            (18 * SEC, woke()),
            (19 * SEC - 1, looked(false, true)),
            (30 * SEC, MatchEvent::Done),
            (31 * SEC, MatchEvent::Done),
            (32 * SEC, MatchEvent::Done),
            (33 * SEC, MatchEvent::Done),
        ]),
        vec![
            "spawn 1 match 42 (42) player 11",
            "spawn 2 match 42 (42) player 22",
            "check",
            "look a b",
            "sleep 5",
            "look a b",
            "kill a",
            "kill b",
            "release",
            "report 7 42 Some(22) objective_complete 8",
            "finish",
        ]
    );
}

#[test]
fn a_match_whose_first_container_fails() {
    assert_eq!(
        play(vec![
            (12 * SEC, spawn_failed(None)),
            (12 * SEC, MatchEvent::Done),
            (12 * SEC, MatchEvent::Done),
        ]),
        vec![
            "spawn 1 match 42 (42) player 11",
            "release",
            "report 7 42 None error 2",
            "finish",
        ]
    );
}

#[test]
fn a_match_whose_second_container_fails_removes_the_first() {
    assert_eq!(
        play(vec![
            (11 * SEC, spawned("a")),
            (12 * SEC, spawn_failed(None)),
            (13 * SEC, MatchEvent::Done),
            (13 * SEC, MatchEvent::Done),
            (13 * SEC, MatchEvent::Done),
        ]),
        vec![
            "spawn 1 match 42 (42) player 11",
            "spawn 2 match 42 (42) player 22",
            "kill a",
            "release",
            "report 7 42 None error 2",
            "finish",
        ]
    );
}

#[test]
fn a_match_that_times_out() {
    // The time limit runs from the moment both containers are up.
    let start = vec![(11 * SEC, spawned("a")), (20 * SEC, spawned("b"))];
    let mut in_time = start;
    in_time.push((320 * SEC - 1, MatchEvent::Woke { cancelled: false }));
    in_time.push((
        320 * SEC,
        MatchEvent::Looked {
            c1_running: true,
            c2_running: true,
        },
    ));
    in_time.push((320 * SEC, MatchEvent::Woke { cancelled: false }));
    in_time.push((321 * SEC, MatchEvent::Done));
    in_time.push((321 * SEC, MatchEvent::Done));
    in_time.push((321 * SEC, MatchEvent::Done));
    let actions = play(in_time);
    assert_eq!(
        actions[3..],
        [
            "look a b",
            "sleep 5",
            "kill a",
            "kill b",
            "release",
            "report 7 42 None timeout 310"
        ]
    );
}

#[test]
fn a_match_that_is_shut_down() {
    let actions = play(vec![
        (11 * SEC, spawned("a")),
        (12 * SEC, spawned("b")),
        (13 * SEC, MatchEvent::Woke { cancelled: true }),
        (14 * SEC, MatchEvent::Done),
        (14 * SEC, MatchEvent::Done),
        (14 * SEC, MatchEvent::Done),
    ]);
    assert_eq!(
        actions[3..],
        ["kill a", "kill b", "release", "report 7 42 None node_shutdown 3"]
    );
}

#[test]
fn reports_have_neither_recording_nor_logs() {
    let (run, _) = MatchRun::start(7, assignment(), 0);
    let (run, _) = run.step(0, spawn_failed(None));
    match run.step(0, MatchEvent::Done).1 {
        MatchAction::Report { report, .. } => assert_eq!(
            report,
            NodeMatchReport {
                match_id: 42,
                winner_id: None,
                end_reason: "error".to_string(),
                duration_seconds: 0,
                recording_ref: None,
                container_logs: None,
            }
        ),
        _ => panic!("the result is reported"),
    }
}

#[test]
fn matches_accept_only_what_they_await() {
    let (run, _) = MatchRun::start(7, assignment(), 0);
    assert!(run.accepts(&spawned("a")));
    assert!(run.accepts(&spawn_failed(None)));
    assert!(!run.accepts(&MatchEvent::Done));
    assert!(!run.accepts(&MatchEvent::Woke { cancelled: true }));
    let (run, _) = run.step(0, spawn_failed(None));
    assert!(run.accepts(&MatchEvent::Done));
    assert!(!run.accepts(&spawn_failed(None)));
    let (run, _) = run.step(0, MatchEvent::Done);
    let (run, _) = run.step(0, MatchEvent::Done);
    assert!(!run.accepts(&MatchEvent::Done));
}

#[test]
fn a_container_that_was_created_but_not_spawned_is_removed() {
    assert_eq!(
        play(vec![
            (11 * SEC, spawned("a")),
            (12 * SEC, spawn_failed(Some("b"))),
            (13 * SEC, MatchEvent::Done),
            (13 * SEC, MatchEvent::Done),
            (13 * SEC, MatchEvent::Done),
            (13 * SEC, MatchEvent::Done),
        ]),
        vec![
            "spawn 1 match 42 (42) player 11",
            "spawn 2 match 42 (42) player 22",
            "kill a",
            "kill b",
            "release",
            "report 7 42 None error 2",
            "finish",
        ]
    );
    assert_eq!(
        play(vec![
            (12 * SEC, spawn_failed(Some("a"))),
            (13 * SEC, MatchEvent::Done),
            (13 * SEC, MatchEvent::Done),
            (13 * SEC, MatchEvent::Done),
        ]),
        vec![
            "spawn 1 match 42 (42) player 11",
            "kill a",
            "release",
            "report 7 42 None error 2",
            "finish",
        ]
    );
}
