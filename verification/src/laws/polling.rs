//! Laws of slots and of the assignment loop.

use crate::api::client;
use crate::api::client::ApiError;
use crate::assignments::{assignment_loop, monitor_match};
use crate::assignments::{
    EndReason, LoopAction, LoopEvent, MatchEnd, MonitorEvent, MonitorStep,
};
use crate::slots::MatchSlots;
use crate::types::NodeAssignment;
use vstd::prelude::*;

verus! {

/// Law: slots start out free, and there are as many as there may be matches.
pub proof fn slots_start_out_free(max: u32, s: MatchSlots)
    requires
        call_ensures(MatchSlots::new, (max,), s),
    ensures
        s.active == 0,
        s.max_concurrent == max,
{
}

/// Law: slots are full exactly if no fewer matches run than may.
pub proof fn slots_are_full_at_their_limit(s: MatchSlots, r: bool)
    requires
        call_ensures(MatchSlots::is_full, (&s,), r),
    ensures
        r <==> !(s.active < s.max_concurrent),
{
}

/// Law: a match gets a slot exactly if one is free, and then one more is taken; a match that is
/// over makes one slot free again.
pub proof fn slots_are_taken_and_given_back()
    ensures
        forall|s: &mut MatchSlots, r: bool| #[trigger]
            call_ensures(MatchSlots::try_acquire, (s,), r) ==> {
                &&& r <==> s.active < s.max_concurrent
                &&& r ==> final(s).active == s.active + 1
                &&& !r ==> final(s).active == s.active
                &&& final(s).max_concurrent == s.max_concurrent
            },
        forall|s: &mut MatchSlots, u: ()| #[trigger]
            call_ensures(MatchSlots::release, (s,), u) ==> {
                &&& s.active > 0 ==> final(s).active == s.active - 1
                &&& s.active == 0 ==> final(s).active == 0xffff_ffff
                &&& final(s).max_concurrent == s.max_concurrent
            },
{
}

/// Whether `chosen` are those of `offered` that find a slot: the first of them, one for each slot
/// that is taken, and all of them unless the slots are full then.
pub open spec fn find_slots(
    offered: Seq<NodeAssignment>,
    chosen: Seq<NodeAssignment>,
    before: MatchSlots,
    after: MatchSlots,
) -> bool {
    &&& chosen.len() <= offered.len()
    &&& forall|i: int| 0 <= i < chosen.len() ==> chosen[i] == offered[i]
    &&& after.active == before.active + chosen.len()
    &&& after.max_concurrent == before.max_concurrent
    &&& chosen.len() > 0 ==> after.active <= after.max_concurrent
    &&& chosen.len() < offered.len() ==> after.active >= after.max_concurrent
}

/// Law: slots are reserved for the first of the matches that were offered, as long as there are
/// any.
pub proof fn the_first_matches_find_slots(offered: Vec<NodeAssignment>)
    ensures
        forall|s: &mut MatchSlots, r: Vec<NodeAssignment>| #[trigger]
            call_ensures(MatchSlots::reserve, (s, offered), r) ==> find_slots(
                offered@,
                r@,
                *s,
                *final(s),
            ),
{
}

/// Law: when the loop comes round without a shutdown it polls for this node, for 15 seconds,
/// exactly if a slot is free, and waits 5 seconds exactly if none is, whatever it started before.
pub proof fn a_free_slot_means_a_poll(node_id: u64, unfinished: usize)
    ensures
        forall|s: &mut MatchSlots, e: LoopEvent, r: LoopAction|
            #![trigger call_ensures(assignment_loop, (s, node_id, e), r)]
            call_ensures(assignment_loop, (s, node_id, e), r) && e == (LoopEvent::Turn {
                cancelled: false,
                unfinished,
            }) ==> {
                &&& s.active < s.max_concurrent ==> r == (LoopAction::Poll {
                    node_id,
                    timeout_seconds: 15,
                })
                &&& s.active >= s.max_concurrent ==> r == (LoopAction::Wait { seconds: 5 })
                &&& *final(s) == *s
            },
{
}

/// Law: when the loop comes round after a shutdown it stops exactly if no slot is taken and no
/// match unfinished, and otherwise waits for a match; it takes no slot.
pub proof fn a_shutdown_waits_for_the_matches(node_id: u64, unfinished: usize)
    ensures
        forall|s: &mut MatchSlots, e: LoopEvent, r: LoopAction|
            #![trigger call_ensures(assignment_loop, (s, node_id, e), r)]
            call_ensures(assignment_loop, (s, node_id, e), r) && e == (LoopEvent::Turn {
                cancelled: true,
                unfinished,
            }) ==> {
                &&& s.active == 0 && unfinished == 0 ==> r is Stop
                &&& s.active > 0 || unfinished > 0 ==> r is Drain
                &&& *final(s) == *s
            },
{
}

/// Law: of the matches that a poll brings, those that find a slot are started, in their order; a
/// poll that brings none is followed by the next; and none is started after a shutdown.
pub proof fn polled_matches_are_started(
    node_id: u64,
    cancelled: bool,
    offered: Vec<NodeAssignment>,
)
    ensures
        forall|s: &mut MatchSlots, e: LoopEvent, r: LoopAction|
            #![trigger call_ensures(assignment_loop, (s, node_id, e), r)]
            call_ensures(assignment_loop, (s, node_id, e), r) && e == (LoopEvent::Polled {
                cancelled,
                result: Ok(offered),
            }) ==> {
                &&& cancelled || offered@.len() == 0 ==> r is Again && *final(s) == *s
                &&& !cancelled && offered@.len() > 0 ==> (r matches LoopAction::Spawn { assignments }
                    && find_slots(offered@, assignments@, *s, *final(s)))
            },
{
}

/// Law: a poll whose token was refused leads to a refresh, after which the loop polls again at
/// once if it worked; after a refresh that failed, and after any other failure, it waits for 5
/// seconds. No slot is taken by any of this.
pub proof fn failed_polls_refresh_or_wait(
    node_id: u64,
    cancelled: bool,
    err: ApiError,
    denied: bool,
    ok: bool,
)
    requires
        call_ensures(client::is_unauthorized, (&err,), denied),
    ensures
        forall|s: &mut MatchSlots, e: LoopEvent, r: LoopAction|
            #![trigger call_ensures(assignment_loop, (s, node_id, e), r)]
            call_ensures(assignment_loop, (s, node_id, e), r) && e == (LoopEvent::Polled {
                cancelled,
                result: Err(err),
            }) ==> {
                &&& denied ==> r is Refresh
                &&& !denied ==> r == (LoopAction::Wait { seconds: 5 })
                &&& *final(s) == *s
            },
        forall|s: &mut MatchSlots, e: LoopEvent, r: LoopAction|
            #![trigger call_ensures(assignment_loop, (s, node_id, e), r)]
            call_ensures(assignment_loop, (s, node_id, e), r) && e == (LoopEvent::Refreshed {
                ok,
            }) ==> {
                &&& ok ==> r is Again
                &&& !ok ==> r == (LoopAction::Wait { seconds: 5 })
                &&& *final(s) == *s
            },
{
}

/// Law: the player whose container is left wins. If exactly one of the two containers still runs
/// the match is over, its objective completed, and won by the first player if it is the first
/// container and by the second if it is the second, whatever the players' ids and the time.
pub proof fn the_container_that_is_left_wins(
    player1_id: u64,
    player2_id: u64,
    deadline: u128,
    r: MonitorStep,
    q: MonitorStep,
)
    requires
        call_ensures(
            monitor_match,
            (
                player1_id,
                player2_id,
                deadline,
                MonitorEvent::Polled { c1_running: true, c2_running: false },
            ),
            r,
        ),
        call_ensures(
            monitor_match,
            (
                player1_id,
                player2_id,
                deadline,
                MonitorEvent::Polled { c1_running: false, c2_running: true },
            ),
            q,
        ),
    ensures
        r matches MonitorStep::End(end) && end.winner_id == Some(player1_id) && end.reason
            == EndReason::ObjectiveComplete,
        q matches MonitorStep::End(end) && end.winner_id == Some(player2_id) && end.reason
            == EndReason::ObjectiveComplete,
{
}

/// Law: a match goes on while both containers run, to be looked at again after 5 seconds, and is
/// a draw, without a winner, if neither does.
pub proof fn two_containers_play_on_and_none_is_a_draw(
    player1_id: u64,
    player2_id: u64,
    deadline: u128,
    both: bool,
    r: MonitorStep,
)
    requires
        call_ensures(
            monitor_match,
            (
                player1_id,
                player2_id,
                deadline,
                MonitorEvent::Polled { c1_running: both, c2_running: both },
            ),
            r,
        ),
    ensures
        both ==> r == (MonitorStep::Sleep { seconds: 5 }),
        !both ==> r == MonitorStep::End(
            (MatchEnd { winner_id: None, reason: EndReason::Draw }),
        ),
{
}

/// Law: when it is time to look, a shutdown ends a match before anything else does; without one,
/// the match is ended by its time limit exactly if that is reached, and looked at otherwise. It
/// has no winner if it is ended.
pub proof fn time_and_shutdown_end_a_match(
    player1_id: u64,
    player2_id: u64,
    deadline: u128,
    cancelled: bool,
    now: u64,
    r: MonitorStep,
)
    requires
        call_ensures(
            monitor_match,
            (player1_id, player2_id, deadline, MonitorEvent::Woke { cancelled, now }),
            r,
        ),
    ensures
        cancelled ==> r == MonitorStep::End(
            (MatchEnd { winner_id: None, reason: EndReason::NodeShutdown }),
        ),
        !cancelled && now >= deadline ==> r == MonitorStep::End(
            (MatchEnd { winner_id: None, reason: EndReason::Timeout }),
        ),
        !cancelled && now < deadline ==> r is Poll,
{
}

/// Law: each reason why a match is over is reported under its own name.
pub proof fn reasons_have_their_names(reason: EndReason, r: String)
    requires
        call_ensures(EndReason::text, (reason,), r),
    ensures
        reason == EndReason::ObjectiveComplete ==> r@ == "objective_complete"@,
        reason == EndReason::Draw ==> r@ == "draw"@,
        reason == EndReason::Timeout ==> r@ == "timeout"@,
        reason == EndReason::NodeShutdown ==> r@ == "node_shutdown"@,
        reason == EndReason::Error ==> r@ == "error"@,
{
}

} // verus!
