//! Match assignments: polling for them, watching a match until it is over, and what its
//! containers are told. The caller performs each step and says what came of it.

use crate::api::client;
use crate::api::client::{is_unauthorized, ApiError};
use crate::docker::env;
use crate::docker::env::EnvVars;
use crate::slots;
use crate::slots::MatchSlots;
use crate::text;
use crate::text::decimal_string;
use crate::types::{MatchAssignmentConfig, NodeAssignment};
use vstd::prelude::*;
use vstd::string::*;

verus! {

/// How long the coordinator may take to answer a poll, in seconds.
pub const LONG_POLL_TIMEOUT_SECS: u32 = 15;

/// The pause after a poll that failed, in seconds.
pub const RETRY_DELAY_SECS: u64 = 5;

/// The pause while no slot is free, in seconds.
pub const CAPACITY_DELAY_SECS: u64 = 5;

/// The pause between two looks at the containers of a match, in seconds.
pub const MONITOR_INTERVAL_SECS: u64 = 5;

// ---------------------------------------------------------------------------
// Polling for matches
// ---------------------------------------------------------------------------

/// What happens to the assignment loop.
pub enum LoopEvent {
    /// It comes round: at its start and after every pause. `cancelled` if the node is being shut
    /// down; `unfinished` is how many of the matches that the loop started are not finished yet,
    /// which they are once their results have been reported.
    Turn { cancelled: bool, unfinished: usize },
    /// A poll was answered or failed; `cancelled` if the node is being shut down by then.
    Polled { cancelled: bool, result: Result<Vec<NodeAssignment>, ApiError> },
    /// The token was refreshed, or could not be.
    Refreshed { ok: bool },
}

/// What the assignment loop does next.
pub enum LoopAction {
    /// End the loop.
    Stop,
    /// Wait until another match is finished, and come round again.
    Drain,
    /// Pause, unless the node is shut down meanwhile.
    Wait { seconds: u64 },
    /// Poll for matches of this node.
    Poll { node_id: u64, timeout_seconds: u32 },
    /// Start these matches, whose slots are taken already.
    Spawn { assignments: Vec<NodeAssignment> },
    /// Refresh the token.
    Refresh,
    /// Come round again at once.
    Again,
}

/// What the assignment loop does when it comes round.
pub open spec fn turn_action(
    slots: MatchSlots,
    node_id: u64,
    cancelled: bool,
    unfinished: usize,
) -> LoopAction {
    if cancelled {
        if slots.active == 0 && unfinished == 0 {
            LoopAction::Stop
        } else {
            LoopAction::Drain
        }
    } else if slots.active >= slots.max_concurrent {
        LoopAction::Wait { seconds: 5 }
    } else {
        LoopAction::Poll { node_id, timeout_seconds: 15 }
    }
}

/// How many matches the assignment loop starts upon an event: of those that a poll brought, as
/// many as there are slots for, and none once the node is being shut down.
pub open spec fn to_start(slots: MatchSlots, event: LoopEvent) -> nat {
    match event {
        LoopEvent::Polled { cancelled: false, result: Ok(list) } => slots::startable(
            slots.active,
            slots.max_concurrent,
            list@.len(),
        ),
        _ => 0,
    }
}

/// Decides what the assignment loop of a node does next. A node that is shut down starts no more
/// matches, not even those that a poll still brings, and stops once those that run are finished;
/// one without a free slot waits; any other polls. Matches are started as far as there are slots
/// for them, in the order in which they were assigned. If the token is not accepted it is
/// refreshed; after any other failure, or if refreshing fails, the loop pauses.
pub fn assignment_loop(slots: &mut MatchSlots, node_id: u64, event: LoopEvent) -> (r: LoopAction)
    ensures
        final(slots).max_concurrent == old(slots).max_concurrent,
        final(slots).active == old(slots).active + to_start(*old(slots), event),
        match event {
            LoopEvent::Turn { cancelled, unfinished } => r == turn_action(
                *old(slots),
                node_id,
                cancelled,
                unfinished,
            ),
            LoopEvent::Polled { cancelled, result: Ok(list) } => if cancelled || list@.len()
                == 0 {
                r is Again
            } else {
                r matches LoopAction::Spawn { assignments } && assignments@ == list@.take(
                    to_start(*old(slots), event) as int,
                )
            },
            LoopEvent::Polled { result: Err(err), .. } => if client::denies_access(err) {
                r is Refresh
            } else {
                r == (LoopAction::Wait { seconds: 5 })
            },
            LoopEvent::Refreshed { ok } => if ok {
                r is Again
            } else {
                r == (LoopAction::Wait { seconds: 5 })
            },
        },
{
    match event {
        LoopEvent::Turn { cancelled, unfinished } => {
            if cancelled {
                if slots.active == 0 && unfinished == 0 {
                    LoopAction::Stop
                } else {
                    LoopAction::Drain
                }
            } else if slots.is_full() {
                LoopAction::Wait { seconds: CAPACITY_DELAY_SECS }
            } else {
                LoopAction::Poll { node_id, timeout_seconds: LONG_POLL_TIMEOUT_SECS }
            }
        },
        LoopEvent::Polled { cancelled, result: Ok(list) } => {
            if cancelled || list.len() == 0 {
                LoopAction::Again
            } else {
                LoopAction::Spawn { assignments: slots.reserve(list) }
            }
        },
        LoopEvent::Polled { result: Err(err), .. } => {
            if is_unauthorized(&err) {
                LoopAction::Refresh
            } else {
                LoopAction::Wait { seconds: RETRY_DELAY_SECS }
            }
        },
        LoopEvent::Refreshed { ok } => {
            if ok {
                LoopAction::Again
            } else {
                LoopAction::Wait { seconds: RETRY_DELAY_SECS }
            }
        },
    }
}

/// Whether the node is known to be shut down when an event comes.
pub open spec fn is_shut_down(event: LoopEvent) -> bool {
    match event {
        LoopEvent::Turn { cancelled, .. } => cancelled,
        LoopEvent::Polled { cancelled, .. } => cancelled,
        LoopEvent::Refreshed { .. } => false,
    }
}

/// Law: a shutdown finishes the current matches and starts no new one. From then on the loop
/// takes no slot and does not poll; as long as a match holds its slot or is not finished it waits
/// for one more to be, and it stops exactly when no slot is taken and every match that it started
/// is finished. Without a shutdown it does not stop.
pub proof fn shutdown_finishes_current_matches(
    slots: MatchSlots,
    node_id: u64,
    unfinished: usize,
    event: LoopEvent,
)
    ensures
        is_shut_down(event) ==> to_start(slots, event) == 0,
        turn_action(slots, node_id, true, unfinished) is Stop <==> slots.active == 0 && unfinished
            == 0,
        turn_action(slots, node_id, true, unfinished) is Drain <==> slots.active > 0 || unfinished
            > 0,
        turn_action(slots, node_id, false, unfinished) !is Stop,
        turn_action(slots, node_id, false, unfinished) !is Drain,
{
}

// ---------------------------------------------------------------------------
// Watching a match
// ---------------------------------------------------------------------------

/// Why a match is over.
#[derive(Debug, Clone, Copy, PartialEq, Eq, Structural)]
pub enum EndReason {
    ObjectiveComplete,
    Draw,
    Timeout,
    NodeShutdown,
    Error,
}

/// A reason as it is reported.
pub open spec fn reason_text(reason: EndReason) -> Seq<char> {
    match reason {
        EndReason::ObjectiveComplete => "objective_complete"@,
        EndReason::Draw => "draw"@,
        EndReason::Timeout => "timeout"@,
        EndReason::NodeShutdown => "node_shutdown"@,
        EndReason::Error => "error"@,
    }
}

impl EndReason {
    /// The reason as it is reported.
    pub fn text(self) -> (r: String)
        ensures
            r@ == reason_text(self),
    {
        match self {
            EndReason::ObjectiveComplete => "objective_complete".to_string(),
            EndReason::Draw => "draw".to_string(),
            EndReason::Timeout => "timeout".to_string(),
            EndReason::NodeShutdown => "node_shutdown".to_string(),
            EndReason::Error => "error".to_string(),
        }
    }
}

/// How a match ended: who won it, if anyone did, and why it is over.
#[derive(Debug, Clone, Copy, PartialEq, Eq, Structural)]
pub struct MatchEnd {
    pub winner_id: Option<u64>,
    pub reason: EndReason,
}

/// What is seen of a match.
pub enum MonitorEvent {
    /// It is time to look, unless the node is being shut down.
    Woke { cancelled: bool, now: u64 },
    /// Which of the two containers run.
    Polled { c1_running: bool, c2_running: bool },
}

/// What follows from it.
pub enum MonitorStep {
    /// Look which containers run.
    Poll,
    /// Pause.
    Sleep { seconds: u64 },
    /// The match is over.
    End(MatchEnd),
}

/// What follows from an observation of a match between two players that has to end at
/// `deadline`.
pub open spec fn monitor_step(
    player1_id: u64,
    player2_id: u64,
    deadline: nat,
    event: MonitorEvent,
) -> MonitorStep {
    match event {
        MonitorEvent::Woke { cancelled, now } => if cancelled {
            MonitorStep::End(MatchEnd { winner_id: None, reason: EndReason::NodeShutdown })
        } else if now >= deadline {
            MonitorStep::End(MatchEnd { winner_id: None, reason: EndReason::Timeout })
        } else {
            MonitorStep::Poll
        },
        MonitorEvent::Polled { c1_running, c2_running } => if c1_running && c2_running {
            MonitorStep::Sleep { seconds: 5 }
        } else if c2_running {
            MonitorStep::End(
                MatchEnd { winner_id: Some(player2_id), reason: EndReason::ObjectiveComplete },
            )
        } else if c1_running {
            MonitorStep::End(
                MatchEnd { winner_id: Some(player1_id), reason: EndReason::ObjectiveComplete },
            )
        } else {
            MonitorStep::End(MatchEnd { winner_id: None, reason: EndReason::Draw })
        },
    }
}

/// Watches the two containers of a match: it goes on while both run, is won by the player whose
/// container is left, and is a draw if both are gone at once. It is broken off when the node is
/// shut down and when its time is up.
pub fn monitor_match(
    player1_id: u64,
    player2_id: u64,
    deadline: u128,
    event: MonitorEvent,
) -> (r: MonitorStep)
    ensures
        r == monitor_step(player1_id, player2_id, deadline as nat, event),
{
    match event {
        MonitorEvent::Woke { cancelled, now } => {
            if cancelled {
                MonitorStep::End(MatchEnd { winner_id: None, reason: EndReason::NodeShutdown })
            } else if now as u128 >= deadline {
                MonitorStep::End(MatchEnd { winner_id: None, reason: EndReason::Timeout })
            } else {
                MonitorStep::Poll
            }
        },
        MonitorEvent::Polled { c1_running, c2_running } => match (c1_running, c2_running) {
            (true, true) => MonitorStep::Sleep { seconds: MONITOR_INTERVAL_SECS },
            (false, true) => MonitorStep::End(
                MatchEnd { winner_id: Some(player2_id), reason: EndReason::ObjectiveComplete },
            ),
            (true, false) => MonitorStep::End(
                MatchEnd { winner_id: Some(player1_id), reason: EndReason::ObjectiveComplete },
            ),
            (false, false) => MonitorStep::End(
                MatchEnd { winner_id: None, reason: EndReason::Draw },
            ),
        },
    }
}

// ---------------------------------------------------------------------------
// The environment of a gladiator
// ---------------------------------------------------------------------------

/// The environment of the container in which a player fights.
pub open spec fn gladiator_env(
    match_id: u64,
    slot: u8,
    player_id: u64,
    config: MatchAssignmentConfig,
) -> Seq<(Seq<char>, Seq<char>)> {
    seq![
        ("DFC_MATCH_ID"@, text::decimal(match_id as nat)),
        ("DFC_PLAYER_SLOT"@, text::decimal(slot as nat)),
        ("DFC_PLAYER_ID"@, text::decimal(player_id as nat)),
        ("DFC_GAME_MODE"@, config.game_mode@),
        ("DFC_WAGER_AMOUNT"@, config.wager_amount@),
        ("DFC_TIMEOUT"@, text::decimal(config.timeout_seconds as nat)),
    ]
}

/// The names of the variables differ from one another.
proof fn lemma_env_names()
    ensures
        "DFC_MATCH_ID"@ != "DFC_PLAYER_SLOT"@,
        "DFC_MATCH_ID"@ != "DFC_PLAYER_ID"@,
        "DFC_PLAYER_SLOT"@ != "DFC_PLAYER_ID"@,
        "DFC_MATCH_ID"@ != "DFC_GAME_MODE"@,
        "DFC_PLAYER_SLOT"@ != "DFC_GAME_MODE"@,
        "DFC_PLAYER_ID"@ != "DFC_GAME_MODE"@,
        "DFC_MATCH_ID"@ != "DFC_WAGER_AMOUNT"@,
        "DFC_PLAYER_SLOT"@ != "DFC_WAGER_AMOUNT"@,
        "DFC_PLAYER_ID"@ != "DFC_WAGER_AMOUNT"@,
        "DFC_GAME_MODE"@ != "DFC_WAGER_AMOUNT"@,
        "DFC_MATCH_ID"@ != "DFC_TIMEOUT"@,
        "DFC_PLAYER_SLOT"@ != "DFC_TIMEOUT"@,
        "DFC_PLAYER_ID"@ != "DFC_TIMEOUT"@,
        "DFC_GAME_MODE"@ != "DFC_TIMEOUT"@,
        "DFC_WAGER_AMOUNT"@ != "DFC_TIMEOUT"@,
{
    reveal_strlit("DFC_MATCH_ID");
    reveal_strlit("DFC_PLAYER_SLOT");
    reveal_strlit("DFC_PLAYER_ID");
    reveal_strlit("DFC_GAME_MODE");
    reveal_strlit("DFC_WAGER_AMOUNT");
    reveal_strlit("DFC_TIMEOUT");
    assert("DFC_MATCH_ID"@.len() == 12);
    assert("DFC_PLAYER_SLOT"@.len() == 15);
    assert("DFC_PLAYER_ID"@.len() == 13);
    assert("DFC_GAME_MODE"@.len() == 13);
    assert("DFC_WAGER_AMOUNT"@.len() == 16);
    assert("DFC_TIMEOUT"@.len() == 11);
    assert("DFC_PLAYER_ID"@[4] == 'P');
    assert("DFC_GAME_MODE"@[4] == 'G');
}

/// Builds the environment of a gladiator container: the match, the player's side and id, and the
/// terms of the match.
pub fn build_env(
    match_id: u64,
    slot: u8,
    player_id: u64,
    config: &MatchAssignmentConfig,
) -> (r: EnvVars)
    ensures
        r@ == gladiator_env(match_id, slot, player_id, *config),
{
    proof {
        lemma_env_names();
    }
    let vars = EnvVars::new();
    proof {
        env::lemma_lookup_none(vars@, "DFC_MATCH_ID"@);
    }
    let vars = vars.with("DFC_MATCH_ID", decimal_string(match_id));
    proof {
        env::lemma_lookup_none(vars@, "DFC_PLAYER_SLOT"@);
    }
    let vars = vars.with("DFC_PLAYER_SLOT", decimal_string(slot as u64));
    proof {
        env::lemma_lookup_none(vars@, "DFC_PLAYER_ID"@);
    }
    let vars = vars.with("DFC_PLAYER_ID", decimal_string(player_id));
    proof {
        env::lemma_lookup_none(vars@, "DFC_GAME_MODE"@);
    }
    let vars = vars.with("DFC_GAME_MODE", config.game_mode.clone());
    proof {
        env::lemma_lookup_none(vars@, "DFC_WAGER_AMOUNT"@);
    }
    let vars = vars.with("DFC_WAGER_AMOUNT", config.wager_amount.clone());
    proof {
        env::lemma_lookup_none(vars@, "DFC_TIMEOUT"@);
    }
    let vars = vars.with("DFC_TIMEOUT", decimal_string(config.timeout_seconds));
    assert(vars@ =~= gladiator_env(match_id, slot, player_id, *config));
    vars
}

/// Law: a gladiator finds everything about its match in its environment.
pub proof fn env_tells_the_match(
    match_id: u64,
    slot: u8,
    player_id: u64,
    config: MatchAssignmentConfig,
)
    ensures
        env::set_once(gladiator_env(match_id, slot, player_id, config)),
        env::lookup(gladiator_env(match_id, slot, player_id, config), "DFC_MATCH_ID"@) == Some(
            text::decimal(match_id as nat),
        ),
        env::lookup(gladiator_env(match_id, slot, player_id, config), "DFC_PLAYER_SLOT"@) == Some(
            text::decimal(slot as nat),
        ),
        env::lookup(gladiator_env(match_id, slot, player_id, config), "DFC_PLAYER_ID"@) == Some(
            text::decimal(player_id as nat),
        ),
        env::lookup(gladiator_env(match_id, slot, player_id, config), "DFC_GAME_MODE"@) == Some(
            config.game_mode@,
        ),
        env::lookup(gladiator_env(match_id, slot, player_id, config), "DFC_WAGER_AMOUNT"@) == Some(
            config.wager_amount@,
        ),
        env::lookup(gladiator_env(match_id, slot, player_id, config), "DFC_TIMEOUT"@) == Some(
            text::decimal(config.timeout_seconds as nat),
        ),
{
    lemma_env_names();
    reveal_with_fuel(env::lookup, 7);
}

} // verus!
