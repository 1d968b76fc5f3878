//! Laws of a match: what it has done when, until when it lasts, and how it ends, along any course
//! of events.

use crate::assignments::build_env;
use crate::docker::env::EnvVars;
use crate::match_run;
use crate::match_run::{
    ActionModel, MatchAction, MatchEvent, MatchPhase, MatchRun, ReportModel,
};
use crate::types::NodeAssignment;
use vstd::prelude::*;
use vstd::string::*;

verus! {

/// The last thing that was to be done for a match along a course.
pub open spec fn last_action(
    node_id: u64,
    assignment: NodeAssignment,
    start: u64,
    inputs: Seq<(u64, MatchEvent)>,
) -> ActionModel {
    match_run::course(match_run::started(node_id, assignment, start), inputs).1.last()
}

/// Whether a course of events is one of the match.
pub open spec fn is_course_of(
    node_id: u64,
    assignment: NodeAssignment,
    start: u64,
    inputs: Seq<(u64, MatchEvent)>,
) -> bool {
    match_run::is_course(match_run::started(node_id, assignment, start), inputs)
}

/// The container that an event speaks of as created, if any.
pub open spec fn created_by(event: MatchEvent) -> Option<Seq<char>> {
    match event {
        MatchEvent::Spawned { container_id } => Some(container_id@),
        MatchEvent::SpawnFailed { container_id: Some(id) } => Some(id@),
        _ => None,
    }
}

/// When the time of a match is up that was spawned by the first two events of its course: as
/// many seconds after its second container was up as the match was assigned with.
pub open spec fn time_limit(assignment: NodeAssignment, inputs: Seq<(u64, MatchEvent)>) -> int {
    inputs[1].0 + assignment.match_config.timeout_seconds * 1_000_000_000
}

/// Whether the first two events of a course spawned the containers of the match.
pub open spec fn both_spawned(inputs: Seq<(u64, MatchEvent)>) -> bool {
    &&& inputs.len() >= 2
    &&& inputs[0].1 is Spawned
    &&& inputs[1].1 is Spawned
}

/// How the phase of a match goes with its course and with what was last to be done.
proof fn lemma_phase(
    node_id: u64,
    assignment: NodeAssignment,
    start: u64,
    inputs: Seq<(u64, MatchEvent)>,
)
    requires
        is_course_of(node_id, assignment, start, inputs),
    ensures
        ({
            let (m, actions) = match_run::course(
                match_run::started(node_id, assignment, start),
                inputs,
            );
            let last = actions.last();
            &&& actions.len() == inputs.len() + 1
            &&& match m.phase {
                MatchPhase::SpawnFirst => inputs.len() == 0 && last is Spawn && last->slot == 1,
                MatchPhase::SpawnSecond => inputs.len() == 1 && inputs[0].1 is Spawned
                    && last is Spawn && last->slot == 2 && m.containers == seq![
                    created_by(inputs[0].1)->0,
                ],
                MatchPhase::Resting | MatchPhase::Looking => {
                    &&& both_spawned(inputs)
                    &&& m.deadline == time_limit(assignment, inputs)
                    &&& m.containers == seq![
                        created_by(inputs[0].1)->0,
                        created_by(inputs[1].1)->0,
                    ]
                    &&& m.phase == MatchPhase::Resting <==> last is Check || last is Sleep
                    &&& m.phase == MatchPhase::Looking <==> last is Look
                },
                MatchPhase::Killing => last is Kill,
                MatchPhase::Releasing => last is Release,
                MatchPhase::Reporting => last is Report,
                MatchPhase::Finished => last is Finish,
            }
        }),
    decreases inputs.len(),
{
    let m0 = match_run::started(node_id, assignment, start);
    if inputs.len() > 0 {
        let earlier = inputs.drop_last();
        lemma_phase(node_id, assignment, start, earlier);
        match_run::lemma_course(node_id, assignment, start, earlier);
        let before = match_run::course(m0, earlier).0;
        let m = match_run::course(m0, inputs).0;
        if before.phase == MatchPhase::SpawnFirst && inputs.last().1 is Spawned {
            assert(m.containers =~= seq![created_by(inputs[0].1)->0]);
        }
        if before.phase == MatchPhase::SpawnSecond && inputs.last().1 is Spawned {
            assert(earlier[0] == inputs[0]);
            assert(m.containers =~= seq![
                created_by(inputs[0].1)->0,
                created_by(inputs[1].1)->0,
            ]);
        }
        if before.phase == MatchPhase::Resting || before.phase == MatchPhase::Looking {
            assert(earlier[0] == inputs[0]);
            assert(earlier[1] == inputs[1]);
        }
    }
}

/// What one more event on a course comes to.
proof fn lemma_next(
    node_id: u64,
    assignment: NodeAssignment,
    start: u64,
    inputs: Seq<(u64, MatchEvent)>,
    now: u64,
    event: MatchEvent,
)
    requires
        is_course_of(node_id, assignment, start, inputs.push((now, event))),
    ensures
        is_course_of(node_id, assignment, start, inputs),
        ({
            let m = match_run::course(match_run::started(node_id, assignment, start), inputs).0;
            &&& match_run::awaits(m.phase, event)
            &&& last_action(node_id, assignment, start, inputs.push((now, event)))
                == match_run::match_step(m, now, event).1
        }),
{
    assert(inputs.push((now, event)).drop_last() =~= inputs);
}

/// Law: a match begins by spawning the container of its first player, and once that is up spawns
/// the one of its second: both under the assigned match, and each told of its own side and
/// player. When both are up the node checks at once whether it is being shut down.
pub proof fn both_players_get_their_container(
    node_id: u64,
    assignment: NodeAssignment,
    start: u64,
    t1: u64,
    t2: u64,
    id1: String,
    id2: String,
    first: EnvVars,
    second: EnvVars,
)
    requires
        call_ensures(
            build_env,
            (
                assignment.match_id,
                1,
                assignment.match_config.player1_id,
                &assignment.match_config,
            ),
            first,
        ),
        call_ensures(
            build_env,
            (
                assignment.match_id,
                2,
                assignment.match_config.player2_id,
                &assignment.match_config,
            ),
            second,
        ),
    ensures
        ({
            let one = seq![(t1, MatchEvent::Spawned { container_id: id1 })];
            let two = one.push((t2, MatchEvent::Spawned { container_id: id2 }));
            &&& is_course_of(node_id, assignment, start, two)
            &&& last_action(node_id, assignment, start, Seq::empty()) == (ActionModel::Spawn {
                match_id: assignment.match_id,
                slot: 1,
                env: first@,
            })
            &&& last_action(node_id, assignment, start, one) == (ActionModel::Spawn {
                match_id: assignment.match_id,
                slot: 2,
                env: second@,
            })
            &&& last_action(node_id, assignment, start, two) is Check
        }),
{
    let m0 = match_run::started(node_id, assignment, start);
    let none = Seq::<(u64, MatchEvent)>::empty();
    let one = seq![(t1, MatchEvent::Spawned { container_id: id1 })];
    let two = one.push((t2, MatchEvent::Spawned { container_id: id2 }));
    assert(one.drop_last() =~= none);
    assert(two.drop_last() =~= one);
    assert(match_run::course(m0, none).0.phase == MatchPhase::SpawnFirst);
    assert(match_run::is_course(m0, none));
    assert(match_run::is_course(m0, one));
    assert(match_run::course(m0, one).0.phase == MatchPhase::SpawnSecond);
}

/// Law: a match lasts as long as it was assigned for. When it is checked without a shutdown
/// before as many seconds have gone by since its second container was up, its two containers are
/// looked at, the first and the second; from that moment on it is ended, by removing the first.
/// A shutdown ends it in the same way at any time.
pub proof fn matches_last_until_their_time_limit(
    node_id: u64,
    assignment: NodeAssignment,
    start: u64,
    inputs: Seq<(u64, MatchEvent)>,
    now: u64,
    cancelled: bool,
)
    requires
        is_course_of(
            node_id,
            assignment,
            start,
            inputs.push((now, MatchEvent::Woke { cancelled })),
        ),
    ensures
        both_spawned(inputs),
        ({
            let next = last_action(
                node_id,
                assignment,
                start,
                inputs.push((now, MatchEvent::Woke { cancelled })),
            );
            if !cancelled && now < time_limit(assignment, inputs) {
                next == (ActionModel::Look {
                    c1: created_by(inputs[0].1)->0,
                    c2: created_by(inputs[1].1)->0,
                })
            } else {
                next == (ActionModel::Kill { container_id: created_by(inputs[0].1)->0 })
            }
        }),
{
    lemma_next(node_id, assignment, start, inputs, now, MatchEvent::Woke { cancelled });
    lemma_phase(node_id, assignment, start, inputs);
    match_run::lemma_course(node_id, assignment, start, inputs);
}

/// Law: a match goes on for 5 seconds more whenever both containers are seen to run, and is ended
/// by removing its first container when either or both are not.
pub proof fn matches_go_on_while_both_containers_run(
    node_id: u64,
    assignment: NodeAssignment,
    start: u64,
    inputs: Seq<(u64, MatchEvent)>,
    now: u64,
    c1: bool,
    c2: bool,
)
    requires
        is_course_of(
            node_id,
            assignment,
            start,
            inputs.push((now, MatchEvent::Looked { c1_running: c1, c2_running: c2 })),
        ),
    ensures
        both_spawned(inputs),
        ({
            let next = last_action(
                node_id,
                assignment,
                start,
                inputs.push((now, MatchEvent::Looked { c1_running: c1, c2_running: c2 })),
            );
            if c1 && c2 {
                next == (ActionModel::Sleep { seconds: 5 })
            } else {
                next == (ActionModel::Kill { container_id: created_by(inputs[0].1)->0 })
            }
        }),
{
    let event = MatchEvent::Looked { c1_running: c1, c2_running: c2 };
    lemma_next(node_id, assignment, start, inputs, now, event);
    lemma_phase(node_id, assignment, start, inputs);
    match_run::lemma_course(node_id, assignment, start, inputs);
}

/// Law: a container that cannot be spawned ends the match. What exists of it by then is removed,
/// beginning with what was created first; if nothing does the slot is given back.
pub proof fn failed_spawns_end_a_match(
    node_id: u64,
    assignment: NodeAssignment,
    start: u64,
    inputs: Seq<(u64, MatchEvent)>,
    now: u64,
    left: Option<String>,
)
    requires
        is_course_of(
            node_id,
            assignment,
            start,
            inputs.push((now, MatchEvent::SpawnFailed { container_id: left })),
        ),
    ensures
        inputs.len() <= 1,
        ({
            let next = last_action(
                node_id,
                assignment,
                start,
                inputs.push((now, MatchEvent::SpawnFailed { container_id: left })),
            );
            if inputs.len() == 1 {
                inputs[0].1 is Spawned && next == (ActionModel::Kill {
                    container_id: created_by(inputs[0].1)->0,
                })
            } else if left is Some {
                next == (ActionModel::Kill { container_id: left->0@ })
            } else {
                next is Release
            }
        }),
{
    let event = MatchEvent::SpawnFailed { container_id: left };
    lemma_next(node_id, assignment, start, inputs, now, event);
    lemma_phase(node_id, assignment, start, inputs);
    match_run::lemma_course(node_id, assignment, start, inputs);
}

/// Law: a match that is over is wound up in order. While more containers were created than were
/// to be removed so far the next of them is removed; when all are, the slot is given back; then
/// the result is reported, and then nothing is left to do.
pub proof fn matches_are_wound_up_in_order(
    node_id: u64,
    assignment: NodeAssignment,
    start: u64,
    inputs: Seq<(u64, MatchEvent)>,
    now: u64,
)
    requires
        is_course_of(node_id, assignment, start, inputs.push((now, MatchEvent::Done))),
    ensures
        ({
            let created = match_run::created_in(inputs);
            let actions = match_run::course(
                match_run::started(node_id, assignment, start),
                inputs,
            ).1;
            let gone = match_run::killed_in(actions).len();
            let last = actions.last();
            let next = last_action(
                node_id,
                assignment,
                start,
                inputs.push((now, MatchEvent::Done)),
            );
            &&& last is Kill || last is Release || last is Report
            &&& last is Kill && gone < created.len() ==> next == (ActionModel::Kill {
                container_id: created[gone as int],
            })
            &&& last is Kill && gone >= created.len() ==> next is Release
            &&& last is Release ==> next is Report
            &&& last is Report ==> next is Finish
        }),
{
    lemma_next(node_id, assignment, start, inputs, now, MatchEvent::Done);
    lemma_phase(node_id, assignment, start, inputs);
    match_run::lemma_course(node_id, assignment, start, inputs);
}

/// Whether the event at `k` of a course ends the match: a spawn that failed, a check after a
/// shutdown or beyond the time limit, or a look that did not find both containers running.
pub open spec fn ends_at(
    assignment: NodeAssignment,
    inputs: Seq<(u64, MatchEvent)>,
    k: int,
) -> bool {
    &&& 0 <= k < inputs.len()
    &&& {
        ||| inputs[k].1 is SpawnFailed
        ||| inputs[k].1 matches MatchEvent::Woke { cancelled } && (cancelled || inputs[k].0
            >= time_limit(assignment, inputs))
        ||| inputs[k].1 matches MatchEvent::Looked { c1_running, c2_running } && !(c1_running
            && c2_running)
    }
}

/// Whether `report` is how the event at `k` of a course ended the match.
pub open spec fn tells_the_end(
    assignment: NodeAssignment,
    start: u64,
    inputs: Seq<(u64, MatchEvent)>,
    k: int,
    report: ReportModel,
) -> bool {
    &&& inputs[k].1 is SpawnFailed ==> report.winner_id is None && report.end_reason == "error"@
    &&& inputs[k].1 matches MatchEvent::Woke { cancelled } ==> report.winner_id is None && if cancelled {
        report.end_reason == "node_shutdown"@
    } else {
        report.end_reason == "timeout"@
    }
    &&& inputs[k].1 matches MatchEvent::Looked { c1_running, c2_running } ==> {
        &&& c1_running ==> report.winner_id == Some(assignment.match_config.player1_id)
        &&& c2_running ==> report.winner_id == Some(assignment.match_config.player2_id)
        &&& c1_running || c2_running ==> report.end_reason == "objective_complete"@
        &&& !c1_running && !c2_running ==> report.winner_id is None && report.end_reason
            == "draw"@
    }
    &&& inputs[k].0 >= start ==> report.duration_seconds * 1_000_000_000 <= inputs[k].0 - start
        < (report.duration_seconds + 1) * 1_000_000_000
    &&& inputs[k].0 <= start ==> report.duration_seconds == 0
}

proof fn lemma_end(
    node_id: u64,
    assignment: NodeAssignment,
    start: u64,
    inputs: Seq<(u64, MatchEvent)>,
    k: int,
)
    requires
        is_course_of(node_id, assignment, start, inputs),
        ends_at(assignment, inputs, k),
    ensures
        ({
            let m = match_run::course(match_run::started(node_id, assignment, start), inputs).0;
            &&& match_run::is_over(m.phase)
            &&& tells_the_end(assignment, start, inputs, k, match_run::report_of(m))
        }),
    decreases inputs.len(),
{
    let m0 = match_run::started(node_id, assignment, start);
    let earlier = inputs.drop_last();
    let before = match_run::course(m0, earlier).0;
    match_run::lemma_course(node_id, assignment, start, earlier);
    lemma_phase(node_id, assignment, start, earlier);
    if k == inputs.len() - 1 {
        if inputs[k].1 is Woke || inputs[k].1 is Looked {
            assert(earlier[1] == inputs[1]);
        }
    } else {
        assert(earlier[k] == inputs[k]);
        if inputs[k].1 is Woke && inputs.len() == 2 {
            lemma_woke_comes_later(node_id, assignment, start, inputs, k);
        }
        if earlier.len() > 1 {
            assert(earlier[1] == inputs[1]);
        }
        lemma_end(node_id, assignment, start, earlier, k);
        assert(inputs.last().1 is Done);
    }
}

/// A match is not checked before both containers are up.
proof fn lemma_woke_comes_later(
    node_id: u64,
    assignment: NodeAssignment,
    start: u64,
    inputs: Seq<(u64, MatchEvent)>,
    k: int,
)
    requires
        is_course_of(node_id, assignment, start, inputs),
        0 <= k < inputs.len(),
        inputs[k].1 is Woke,
    ensures
        k >= 2,
    decreases inputs.len(),
{
    let earlier = inputs.drop_last();
    if k == inputs.len() - 1 {
        lemma_phase(node_id, assignment, start, earlier);
    } else {
        assert(earlier[k] == inputs[k]);
        lemma_woke_comes_later(node_id, assignment, start, earlier, k);
    }
}

/// Law: a report tells how the match ended and how long it took. Whatever event ended it, along
/// any course, every report is made under the node and the match, says what that event means,
/// and counts the whole seconds from the start of the match to that event. In particular the
/// player whose container was left is named as the winner, whatever the players' ids.
pub proof fn reports_tell_the_end(
    node_id: u64,
    assignment: NodeAssignment,
    start: u64,
    inputs: Seq<(u64, MatchEvent)>,
    k: int,
    i: int,
)
    requires
        is_course_of(node_id, assignment, start, inputs),
        ends_at(assignment, inputs, k),
    ensures
        ({
            let actions = match_run::course(
                match_run::started(node_id, assignment, start),
                inputs,
            ).1;
            0 <= i < actions.len() && actions[i] is Report ==> {
                let report = actions[i]->report;
                &&& report.node_id == node_id
                &&& report.match_id == assignment.match_id
                &&& tells_the_end(assignment, start, inputs, k, report)
            }
        }),
{
    let m0 = match_run::started(node_id, assignment, start);
    let (m, actions) = match_run::course(m0, inputs);
    lemma_end(node_id, assignment, start, inputs, k);
    match_run::lemma_course(node_id, assignment, start, inputs);
    lemma_phase(node_id, assignment, start, inputs);
    if 0 <= i < actions.len() && actions[i] is Report {
        lemma_reports(actions, i);
        let reports = match_run::reports_in(actions);
        assert(reports.contains(actions[i]->report));
        let j = choose|j: int| 0 <= j < reports.len() && reports[j] == actions[i]->report;
        assert(reports[j] == match_run::report_of(m));
    }
}

/// A report that was to be made is among the reports.
proof fn lemma_reports(actions: Seq<ActionModel>, i: int)
    requires
        0 <= i < actions.len(),
        actions[i] is Report,
    ensures
        match_run::reports_in(actions).contains(actions[i]->report),
    decreases actions.len(),
{
    let reports = match_run::reports_in(actions);
    if i == actions.len() - 1 {
        assert(reports[reports.len() - 1] == actions[i]->report);
    } else {
        let earlier = actions.drop_last();
        assert(earlier[i] == actions[i]);
        lemma_reports(earlier, i);
        let before = match_run::reports_in(earlier);
        let j = choose|j: int| 0 <= j < before.len() && before[j] == actions[i]->report;
        assert(reports[j] == before[j]);
    }
}

/// Law: a match is only reported after an event that ended it.
pub proof fn no_report_without_an_end(
    node_id: u64,
    assignment: NodeAssignment,
    start: u64,
    inputs: Seq<(u64, MatchEvent)>,
)
    requires
        is_course_of(node_id, assignment, start, inputs),
        last_action(node_id, assignment, start, inputs) is Report,
    ensures
        exists|k: int| ends_at(assignment, inputs, k),
{
    lemma_phase(node_id, assignment, start, inputs);
    lemma_over_after_end(node_id, assignment, start, inputs);
}

proof fn lemma_over_after_end(
    node_id: u64,
    assignment: NodeAssignment,
    start: u64,
    inputs: Seq<(u64, MatchEvent)>,
)
    requires
        is_course_of(node_id, assignment, start, inputs),
        match_run::is_over(
            match_run::course(match_run::started(node_id, assignment, start), inputs).0.phase,
        ),
    ensures
        exists|k: int| ends_at(assignment, inputs, k),
    decreases inputs.len(),
{
    let earlier = inputs.drop_last();
    lemma_phase(node_id, assignment, start, earlier);
    let before = match_run::course(match_run::started(node_id, assignment, start), earlier).0;
    if match_run::is_over(before.phase) {
        lemma_over_after_end(node_id, assignment, start, earlier);
        let k = choose|k: int| ends_at(assignment, earlier, k);
        assert(earlier[k] == inputs[k]);
        if inputs[k].1 is Woke {
            lemma_woke_comes_later(node_id, assignment, start, inputs, k);
            assert(earlier[1] == inputs[1]);
        }
        assert(ends_at(assignment, inputs, k));
    } else {
        if before.phase == MatchPhase::Resting || before.phase == MatchPhase::Looking {
            assert(earlier[1] == inputs[1]);
        }
        assert(ends_at(assignment, inputs, inputs.len() - 1));
    }
}

/// Law: a match awaits what it asked for. Spawning is answered by whether it worked, a check and
/// a pause by whether the node is being shut down, a look by what was seen, and everything else
/// by its being done; a match that is finished awaits nothing.
pub proof fn matches_await_what_they_asked_for(
    node_id: u64,
    assignment: NodeAssignment,
    start: u64,
    inputs: Seq<(u64, MatchEvent)>,
    now: u64,
    event: MatchEvent,
)
    requires
        is_course_of(node_id, assignment, start, inputs),
    ensures
        is_course_of(node_id, assignment, start, inputs.push((now, event))) <==> match last_action(
            node_id,
            assignment,
            start,
            inputs,
        ) {
            ActionModel::Spawn { .. } => event is Spawned || event is SpawnFailed,
            ActionModel::Check | ActionModel::Sleep { .. } => event is Woke,
            ActionModel::Look { .. } => event is Looked,
            ActionModel::Kill { .. } | ActionModel::Release | ActionModel::Report { .. } => event
                is Done,
            ActionModel::Finish => false,
        },
{
    assert(inputs.push((now, event)).drop_last() =~= inputs);
    lemma_phase(node_id, assignment, start, inputs);
}

/// Law: a run is a match on its course. It starts where the course starts, accepts the events
/// that the course awaits, and steps as the course does, handing out what is to be done.
pub proof fn runs_follow_the_course(
    node_id: u64,
    assignment: NodeAssignment,
    start: u64,
    inputs: Seq<(u64, MatchEvent)>,
    now: u64,
    event: MatchEvent,
    begun: (MatchRun, MatchAction),
    run: MatchRun,
    accepted: bool,
    stepped: (MatchRun, MatchAction),
)
    requires
        call_ensures(MatchRun::start, (node_id, assignment, start), begun),
        is_course_of(node_id, assignment, start, inputs),
        run@ == match_run::course(match_run::started(node_id, assignment, start), inputs).0,
        call_ensures(MatchRun::accepts, (&run, &event), accepted),
        call_ensures(MatchRun::step, (run, now, event), stepped),
    ensures
        begun.0@ == match_run::course(
            match_run::started(node_id, assignment, start),
            Seq::empty(),
        ).0,
        asks_for(begun.1, last_action(node_id, assignment, start, Seq::empty())),
        accepted <==> is_course_of(node_id, assignment, start, inputs.push((now, event))),
        accepted ==> stepped.0@ == match_run::course(
            match_run::started(node_id, assignment, start),
            inputs.push((now, event)),
        ).0,
        accepted ==> asks_for(
            stepped.1,
            last_action(node_id, assignment, start, inputs.push((now, event))),
        ),
{
    assert(inputs.push((now, event)).drop_last() =~= inputs);
}

/// Whether an action is what is to be done: the same thing, with the same match, side,
/// variables, containers, seconds or result.
pub open spec fn asks_for(action: MatchAction, model: ActionModel) -> bool {
    match model {
        ActionModel::Spawn { match_id, slot, env } => action matches MatchAction::Spawn {
            match_id: m,
            slot: s,
            env: e,
        } && m == match_id && s == slot && e@ == env,
        ActionModel::Check => action is Check,
        ActionModel::Look { c1, c2 } => action matches MatchAction::Look { c1: a, c2: b } && a@
            == c1 && b@ == c2,
        ActionModel::Sleep { seconds } => action == (MatchAction::Sleep { seconds }),
        ActionModel::Kill { container_id } => action matches MatchAction::Kill { container_id: id }
            && id@ == container_id,
        ActionModel::Release => action is Release,
        ActionModel::Report { report } => action matches MatchAction::Report {
            node_id,
            report: r,
        } && node_id == report.node_id && r.match_id == report.match_id && r.winner_id
            == report.winner_id && r.end_reason@ == report.end_reason && r.duration_seconds
            == report.duration_seconds && r.recording_ref is None && r.container_logs is None,
        ActionModel::Finish => action is Finish,
    }
}

} // verus!
