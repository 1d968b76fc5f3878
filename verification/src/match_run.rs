//! One match, from its first container to its report: both gladiators are spawned, the match is
//! watched until it is over, its containers are removed, its slot is given back and its result
//! is reported. The caller performs each step and says what came of it.

use crate::assignments;
use crate::assignments::{
    build_env, monitor_match, EndReason, MatchEnd, MonitorEvent, MonitorStep,
    MONITOR_INTERVAL_SECS,
};
use crate::clock;
use crate::clock::{nanos_between, nanos_of};
use crate::docker::env;
use crate::docker::env::EnvVars;
use crate::types::{MatchAssignmentConfig, NodeAssignment, NodeMatchReport};
use vstd::prelude::*;
use vstd::string::*;

verus! {

/// How far a match has come: what it is waiting for.
#[derive(Debug, Clone, Copy, PartialEq, Eq, Structural)]
pub enum MatchPhase {
    /// The first container is being spawned.
    SpawnFirst,
    /// The second container is being spawned.
    SpawnSecond,
    /// It is not time to look at the containers yet.
    Resting,
    /// The containers are being looked at.
    Looking,
    /// A container is being removed.
    Killing,
    /// The slot is being given back.
    Releasing,
    /// The result is being reported.
    Reporting,
    /// Nothing is left to do.
    Finished,
}

/// What happens to a match.
pub enum MatchEvent {
    /// The container that was asked for runs.
    Spawned { container_id: String },
    /// The container that was asked for could not be spawned; `container_id` if it was created
    /// all the same.
    SpawnFailed { container_id: Option<String> },
    /// It is time to look at the containers; `cancelled` if the node is being shut down.
    Woke { cancelled: bool },
    /// Which of the two containers run.
    Looked { c1_running: bool, c2_running: bool },
    /// What was asked for has been done, or has been tried.
    Done,
}

/// What has to be done for a match.
pub enum MatchAction {
    /// Spawn the container for one side of this match.
    Spawn { match_id: u64, slot: u8, env: EnvVars },
    /// Find out at once whether the node is being shut down.
    Check,
    /// Look which containers run.
    Look { c1: String, c2: String },
    /// Pause, unless the node is shut down meanwhile.
    Sleep { seconds: u64 },
    /// Remove a container.
    Kill { container_id: String },
    /// Give the match's slot back.
    Release,
    /// Report the result as one of this node.
    Report { node_id: u64, report: NodeMatchReport },
    /// Nothing is left to do.
    Finish,
}

/// A match in progress.
pub struct MatchRun {
    node_id: u64,
    match_id: u64,
    config: MatchAssignmentConfig,
    started_at: u64,
    phase: MatchPhase,
    containers: Vec<String>,
    deadline: u128,
    end: MatchEnd,
    duration_seconds: u64,
    killed: usize,
}

/// A match in progress: the node that runs it, its terms, when it was started, its phase, the containers created so
/// far, the time by which it has to end, how it ended and how long it took, and how many of its
/// containers have been removed.
#[verifier::ext_equal]
pub struct MatchModel {
    pub node_id: u64,
    pub match_id: u64,
    pub config: MatchAssignmentConfig,
    pub started_at: u64,
    pub phase: MatchPhase,
    pub containers: Seq<Seq<char>>,
    pub deadline: nat,
    pub end: MatchEnd,
    pub duration_seconds: nat,
    pub killed: nat,
}

/// A result as it is reported.
#[verifier::ext_equal]
pub struct ReportModel {
    pub node_id: u64,
    pub match_id: u64,
    pub winner_id: Option<u64>,
    pub end_reason: Seq<char>,
    pub duration_seconds: nat,
}

/// Something to be done for a match.
#[verifier::ext_equal]
pub enum ActionModel {
    Spawn { match_id: u64, slot: u8, env: Seq<(Seq<char>, Seq<char>)> },
    Check,
    Look { c1: Seq<char>, c2: Seq<char> },
    Sleep { seconds: u64 },
    Kill { container_id: Seq<char> },
    Release,
    Report { report: ReportModel },
    Finish,
}

impl View for MatchRun {
    type V = MatchModel;

    closed spec fn view(&self) -> MatchModel {
        MatchModel {
            node_id: self.node_id,
            match_id: self.match_id,
            config: self.config,
            started_at: self.started_at,
            phase: self.phase,
            containers: env::string_texts(self.containers@),
            deadline: self.deadline as nat,
            end: self.end,
            duration_seconds: self.duration_seconds as nat,
            killed: self.killed as nat,
        }
    }
}

/// Whether `action` is what the model asks for. A report has neither a recording nor logs.
pub open spec fn is_action(action: MatchAction, model: ActionModel) -> bool {
    match action {
        MatchAction::Spawn { match_id, slot, env } => model == (ActionModel::Spawn {
            match_id,
            slot,
            env: env@,
        }),
        MatchAction::Check => model is Check,
        MatchAction::Look { c1, c2 } => model == (ActionModel::Look { c1: c1@, c2: c2@ }),
        MatchAction::Sleep { seconds } => model == (ActionModel::Sleep { seconds }),
        MatchAction::Kill { container_id } => model == (ActionModel::Kill {
            container_id: container_id@,
        }),
        MatchAction::Release => model is Release,
        MatchAction::Report { node_id, report } => {
            &&& model == (ActionModel::Report {
                report: ReportModel {
                    node_id,
                    match_id: report.match_id,
                    winner_id: report.winner_id,
                    end_reason: report.end_reason@,
                    duration_seconds: report.duration_seconds as nat,
                },
            })
            &&& report.recording_ref is None
            &&& report.container_logs is None
        },
        MatchAction::Finish => model is Finish,
    }
}

/// Whether a match in this phase is waiting for an event of this kind.
pub open spec fn awaits(phase: MatchPhase, event: MatchEvent) -> bool {
    match phase {
        MatchPhase::SpawnFirst | MatchPhase::SpawnSecond => event is Spawned
            || event is SpawnFailed,
        MatchPhase::Resting => event is Woke,
        MatchPhase::Looking => event is Looked,
        MatchPhase::Killing | MatchPhase::Releasing | MatchPhase::Reporting => event is Done,
        MatchPhase::Finished => false,
    }
}

/// How the phase of a match goes with its containers: none before the first is spawned, two
/// while it is watched, and all removed once the slot is given back.
pub open spec fn consistent(m: MatchModel) -> bool {
    &&& m.containers.len() <= 2
    &&& m.killed <= m.containers.len()
    &&& match m.phase {
        MatchPhase::SpawnFirst => m.containers.len() == 0 && m.killed == 0,
        MatchPhase::SpawnSecond => m.containers.len() == 1 && m.killed == 0,
        MatchPhase::Resting | MatchPhase::Looking => m.containers.len() == 2 && m.killed == 0,
        MatchPhase::Killing => m.killed < m.containers.len(),
        _ => m.killed == m.containers.len(),
    }
}

/// The match at its start.
pub open spec fn started(node_id: u64, assignment: NodeAssignment, now: u64) -> MatchModel {
    MatchModel {
        node_id,
        match_id: assignment.match_id,
        config: assignment.match_config,
        started_at: now,
        phase: MatchPhase::SpawnFirst,
        containers: Seq::empty(),
        deadline: 0,
        end: MatchEnd { winner_id: None, reason: EndReason::Error },
        duration_seconds: 0,
        killed: 0,
    }
}

/// The first thing to be done for a match.
pub open spec fn first_spawn(m: MatchModel) -> ActionModel {
    ActionModel::Spawn {
        match_id: m.match_id,
        slot: 1,
        env: assignments::gladiator_env(m.match_id, 1, m.config.player1_id, m.config),
    }
}

/// The result of a match that is over.
pub open spec fn report_of(m: MatchModel) -> ReportModel {
    ReportModel {
        node_id: m.node_id,
        match_id: m.match_id,
        winner_id: m.end.winner_id,
        end_reason: assignments::reason_text(m.end.reason),
        duration_seconds: m.duration_seconds,
    }
}

/// Goes on with removing containers: the next one, or the slot once none is left.
pub open spec fn clean_up(m: MatchModel) -> (MatchModel, ActionModel) {
    if m.killed < m.containers.len() {
        (
            MatchModel { phase: MatchPhase::Killing, ..m },
            ActionModel::Kill { container_id: m.containers[m.killed as int] },
        )
    } else {
        (MatchModel { phase: MatchPhase::Releasing, ..m }, ActionModel::Release)
    }
}

/// The match is over: it took the time since its start, and its containers are to be removed.
pub open spec fn ended(m: MatchModel, now: u64, end: MatchEnd) -> (MatchModel, ActionModel) {
    clean_up(
        MatchModel {
            end,
            duration_seconds: clock::whole_seconds(clock::elapsed(m.started_at, now)),
            ..m
        },
    )
}

/// What an event at time `now` makes of a match that awaits it, and what is to be done next.
pub open spec fn match_step(m: MatchModel, now: u64, event: MatchEvent) -> (
    MatchModel,
    ActionModel,
) {
    match event {
        MatchEvent::Spawned { container_id } => if m.phase == MatchPhase::SpawnFirst {
            (
                MatchModel {
                    phase: MatchPhase::SpawnSecond,
                    containers: m.containers.push(container_id@),
                    ..m
                },
                ActionModel::Spawn {
                    match_id: m.match_id,
                    slot: 2,
                    env: assignments::gladiator_env(m.match_id, 2, m.config.player2_id, m.config),
                },
            )
        } else {
            (
                MatchModel {
                    phase: MatchPhase::Resting,
                    containers: m.containers.push(container_id@),
                    deadline: now as nat + clock::nanos(m.config.timeout_seconds as nat),
                    ..m
                },
                ActionModel::Check,
            )
        },
        MatchEvent::SpawnFailed { container_id } => ended(
            match container_id {
                Some(id) => MatchModel { containers: m.containers.push(id@), ..m },
                None => m,
            },
            now,
            MatchEnd { winner_id: None, reason: EndReason::Error },
        ),
        MatchEvent::Woke { cancelled } => match assignments::monitor_step(
            m.config.player1_id,
            m.config.player2_id,
            m.deadline,
            MonitorEvent::Woke { cancelled, now },
        ) {
            MonitorStep::End(end) => ended(m, now, end),
            _ => (
                MatchModel { phase: MatchPhase::Looking, ..m },
                ActionModel::Look { c1: m.containers[0], c2: m.containers[1] },
            ),
        },
        MatchEvent::Looked { c1_running, c2_running } => match assignments::monitor_step(
            m.config.player1_id,
            m.config.player2_id,
            m.deadline,
            MonitorEvent::Polled { c1_running, c2_running },
        ) {
            MonitorStep::End(end) => ended(m, now, end),
            _ => (
                MatchModel { phase: MatchPhase::Resting, ..m },
                ActionModel::Sleep { seconds: 5 },
            ),
        },
        MatchEvent::Done => match m.phase {
            MatchPhase::Killing => clean_up(MatchModel { killed: m.killed + 1, ..m }),
            MatchPhase::Releasing => (
                MatchModel { phase: MatchPhase::Reporting, ..m },
                ActionModel::Report { report: report_of(m) },
            ),
            _ => (MatchModel { phase: MatchPhase::Finished, ..m }, ActionModel::Finish),
        },
    }
}

impl MatchRun {
    #[verifier::type_invariant]
    spec fn inv(self) -> bool {
        consistent(self@)
    }

    /// Starts a match whose slot is taken: its first container has to be spawned.
    pub fn start(node_id: u64, assignment: NodeAssignment, now: u64) -> (r: (
        MatchRun,
        MatchAction,
    ))
        ensures
            r.0@ == started(node_id, assignment, now),
            is_action(r.1, first_spawn(started(node_id, assignment, now))),
    {
        let config = assignment.match_config;
        let env = build_env(assignment.match_id, 1, config.player1_id, &config);
        let match_id: u64 = assignment.match_id;
        let run = MatchRun {
            node_id,
            match_id,
            config,
            started_at: now,
            phase: MatchPhase::SpawnFirst,
            containers: Vec::new(),
            deadline: 0,
            end: MatchEnd { winner_id: None, reason: EndReason::Error },
            duration_seconds: 0,
            killed: 0,
        };
        assert(run@.containers =~= Seq::empty());
        (run, MatchAction::Spawn { match_id, slot: 1, env })
    }

    /// Whether the match is waiting for an event of this kind.
    pub fn accepts(&self, event: &MatchEvent) -> (r: bool)
        ensures
            r == awaits(self@.phase, *event),
    {
        match self.phase {
            MatchPhase::SpawnFirst | MatchPhase::SpawnSecond => matches!(
                event,
                MatchEvent::Spawned { .. } | MatchEvent::SpawnFailed { .. }
            ),
            MatchPhase::Resting => matches!(event, MatchEvent::Woke { .. }),
            MatchPhase::Looking => matches!(event, MatchEvent::Looked { .. }),
            MatchPhase::Killing | MatchPhase::Releasing | MatchPhase::Reporting => matches!(
                event,
                MatchEvent::Done
            ),
            MatchPhase::Finished => false,
        }
    }

    /// Goes on with removing containers, `killed` of them being gone.
    fn clean_up(self, killed: usize) -> (r: (MatchRun, MatchAction))
        requires
            killed <= self@.containers.len() <= 2,
        ensures
            r.0@ == clean_up(MatchModel { killed: killed as nat, ..self@ }).0,
            is_action(r.1, clean_up(MatchModel { killed: killed as nat, ..self@ }).1),
    {
        if killed < self.containers.len() {
            let container_id = self.containers[killed].clone();
            (
                MatchRun { phase: MatchPhase::Killing, killed, ..self },
                MatchAction::Kill { container_id },
            )
        } else {
            (MatchRun { phase: MatchPhase::Releasing, killed, ..self }, MatchAction::Release)
        }
    }

    /// Ends the match.
    fn ended(self, now: u64, end: MatchEnd) -> (r: (MatchRun, MatchAction))
        requires
            self@.killed == 0,
        ensures
            r.0@ == ended(self@, now, end).0,
            is_action(r.1, ended(self@, now, end).1),
    {
        proof {
            use_type_invariant(&self);
        }
        let duration_seconds: u64 = nanos_between(self.started_at, now) / 1_000_000_000;
        let run = MatchRun { end, duration_seconds, ..self };
        run.clean_up(0)
    }

    fn report(&self) -> (r: NodeMatchReport)
        ensures
            is_action(
                (MatchAction::Report { node_id: self@.node_id, report: r }),
                ActionModel::Report { report: report_of(self@) },
            ),
    {
        NodeMatchReport {
            match_id: self.match_id,
            winner_id: self.end.winner_id,
            end_reason: self.end.reason.text(),
            duration_seconds: self.duration_seconds,
            recording_ref: None,
            container_logs: None,
        }
    }

    /// Takes an event that the match awaits, and says what has to be done next.
    pub fn step(self, now: u64, event: MatchEvent) -> (r: (MatchRun, MatchAction))
        requires
            awaits(self@.phase, event),
        ensures
            r.0@ == match_step(self@, now, event).0,
            is_action(r.1, match_step(self@, now, event).1),
    {
        proof {
            use_type_invariant(&self);
        }
        match event {
            MatchEvent::Spawned { container_id } => {
                let ghost before = self@;
                let mut containers = self.containers;
                containers.push(container_id);
                assert(env::string_texts(containers@) =~= before.containers.push(container_id@));
                if self.phase == MatchPhase::SpawnFirst {
                    let match_id: u64 = self.match_id;
                    let env = build_env(match_id, 2, self.config.player2_id, &self.config);
                    (
                        MatchRun { phase: MatchPhase::SpawnSecond, containers, ..self },
                        MatchAction::Spawn { match_id, slot: 2, env },
                    )
                } else {
                    let deadline: u128 = now as u128 + nanos_of(self.config.timeout_seconds);
                    (
                        MatchRun { phase: MatchPhase::Resting, containers, deadline, ..self },
                        MatchAction::Check,
                    )
                }
            },
            MatchEvent::SpawnFailed { container_id } => {
                let end = MatchEnd { winner_id: None, reason: EndReason::Error };
                match container_id {
                    Some(id) => {
                        let ghost before = self@;
                        let mut containers = self.containers;
                        containers.push(id);
                        assert(env::string_texts(containers@) =~= before.containers.push(id@));
                        let run = MatchRun { phase: MatchPhase::Killing, containers, ..self };
                        run.ended(now, end)
                    },
                    None => self.ended(now, end),
                }
            },
            MatchEvent::Woke { cancelled } => {
                match monitor_match(
                    self.config.player1_id,
                    self.config.player2_id,
                    self.deadline,
                    MonitorEvent::Woke { cancelled, now },
                ) {
                    MonitorStep::End(end) => self.ended(now, end),
                    _ => {
                        let c1 = self.containers[0].clone();
                        let c2 = self.containers[1].clone();
                        (
                            MatchRun { phase: MatchPhase::Looking, ..self },
                            MatchAction::Look { c1, c2 },
                        )
                    },
                }
            },
            MatchEvent::Looked { c1_running, c2_running } => {
                match monitor_match(
                    self.config.player1_id,
                    self.config.player2_id,
                    self.deadline,
                    MonitorEvent::Polled { c1_running, c2_running },
                ) {
                    MonitorStep::End(end) => self.ended(now, end),
                    _ => (
                        MatchRun { phase: MatchPhase::Resting, ..self },
                        MatchAction::Sleep { seconds: MONITOR_INTERVAL_SECS },
                    ),
                }
            },
            MatchEvent::Done => {
                match self.phase {
                    MatchPhase::Killing => {
                        let killed: usize = self.killed + 1;
                        self.clean_up(killed)
                    },
                    MatchPhase::Releasing => {
                        let node_id: u64 = self.node_id;
                        let report = self.report();
                        (
                            MatchRun { phase: MatchPhase::Reporting, ..self },
                            MatchAction::Report { node_id, report },
                        )
                    },
                    _ => (
                        MatchRun { phase: MatchPhase::Finished, ..self },
                        MatchAction::Finish,
                    ),
                }
            },
        }
    }
}

// ---------------------------------------------------------------------------
// Laws
// ---------------------------------------------------------------------------

/// A match after a sequence of events, each with its time, and everything that was to be done
/// for it meanwhile.
pub open spec fn course(m: MatchModel, inputs: Seq<(u64, MatchEvent)>) -> (
    MatchModel,
    Seq<ActionModel>,
)
    decreases inputs.len(),
{
    if inputs.len() == 0 {
        (m, seq![first_spawn(m)])
    } else {
        let (before, actions) = course(m, inputs.drop_last());
        let (after, action) = match_step(before, inputs.last().0, inputs.last().1);
        (after, actions.push(action))
    }
}

/// Whether a match awaits each event when it comes.
pub open spec fn is_course(m: MatchModel, inputs: Seq<(u64, MatchEvent)>) -> bool
    decreases inputs.len(),
{
    inputs.len() > 0 ==> {
        &&& is_course(m, inputs.drop_last())
        &&& awaits(course(m, inputs.drop_last()).0.phase, inputs.last().1)
    }
}

/// The containers that were created: those that were spawned, and those whose spawning failed
/// only after they had been created.
pub open spec fn created_in(inputs: Seq<(u64, MatchEvent)>) -> Seq<Seq<char>>
    decreases inputs.len(),
{
    if inputs.len() == 0 {
        Seq::empty()
    } else {
        match inputs.last().1 {
            MatchEvent::Spawned { container_id } => created_in(inputs.drop_last()).push(
                container_id@,
            ),
            MatchEvent::SpawnFailed { container_id: Some(id) } => created_in(
                inputs.drop_last(),
            ).push(id@),
            _ => created_in(inputs.drop_last()),
        }
    }
}

/// The containers that were to be removed.
pub open spec fn killed_in(actions: Seq<ActionModel>) -> Seq<Seq<char>>
    decreases actions.len(),
{
    if actions.len() == 0 {
        Seq::empty()
    } else {
        match actions.last() {
            ActionModel::Kill { container_id } => killed_in(actions.drop_last()).push(
                container_id,
            ),
            _ => killed_in(actions.drop_last()),
        }
    }
}

/// How often the slot was to be given back.
pub open spec fn releases_in(actions: Seq<ActionModel>) -> nat
    decreases actions.len(),
{
    if actions.len() == 0 {
        0
    } else {
        releases_in(actions.drop_last()) + if actions.last() is Release {
            1nat
        } else {
            0nat
        }
    }
}

/// The results that were to be reported.
pub open spec fn reports_in(actions: Seq<ActionModel>) -> Seq<ReportModel>
    decreases actions.len(),
{
    if actions.len() == 0 {
        Seq::empty()
    } else {
        match actions.last() {
            ActionModel::Report { report } => reports_in(actions.drop_last()).push(report),
            _ => reports_in(actions.drop_last()),
        }
    }
}

/// Whether a match is over and being cleaned up or done.
pub open spec fn is_over(phase: MatchPhase) -> bool {
    phase == MatchPhase::Killing || phase == MatchPhase::Releasing || phase
        == MatchPhase::Reporting || phase == MatchPhase::Finished
}

/// What holds of a match all along its course.
pub proof fn lemma_course(
    node_id: u64,
    assignment: NodeAssignment,
    now: u64,
    inputs: Seq<(u64, MatchEvent)>,
)
    requires
        is_course(started(node_id, assignment, now), inputs),
    ensures
        ({
            let (m, actions) = course(started(node_id, assignment, now), inputs);
            &&& consistent(m)
            &&& m.node_id == node_id
            &&& m.match_id == assignment.match_id
            &&& m.config == assignment.match_config
            &&& m.started_at == now
            &&& m.containers == created_in(inputs)
            &&& killed_in(actions) == m.containers.take(
                m.killed + if m.phase == MatchPhase::Killing {
                    1int
                } else {
                    0int
                },
            )
            &&& releases_in(actions) == if m.phase == MatchPhase::Releasing || m.phase
                == MatchPhase::Reporting || m.phase == MatchPhase::Finished {
                1nat
            } else {
                0nat
            }
            &&& reports_in(actions) == if m.phase == MatchPhase::Reporting || m.phase
                == MatchPhase::Finished {
                seq![report_of(m)]
            } else {
                Seq::empty()
            }
            &&& is_over(m.phase) ==> (m.end.winner_id is Some <==> m.end.reason
                == EndReason::ObjectiveComplete)
            &&& m.end.winner_id matches Some(w) ==> w == m.config.player1_id || w
                == m.config.player2_id
        }),
    decreases inputs.len(),
{
    let m0 = started(node_id, assignment, now);
    let (m, actions) = course(m0, inputs);
    if inputs.len() == 0 {
        assert(actions.drop_last() =~= Seq::<ActionModel>::empty());
        reveal_with_fuel(killed_in, 2);
        reveal_with_fuel(releases_in, 2);
        reveal_with_fuel(reports_in, 2);
        assert(m.containers.take(0) =~= Seq::empty());
    } else {
        let before = course(m0, inputs.drop_last()).0;
        let earlier = course(m0, inputs.drop_last()).1;
        lemma_course(node_id, assignment, now, inputs.drop_last());
        assert(actions.drop_last() =~= earlier);
        if m.phase == MatchPhase::Killing {
            assert(m.containers.take(m.killed as int + 1) =~= m.containers.take(m.killed as int).push(
                m.containers[m.killed as int],
            ));
        }
        if inputs.last().1 is Spawned || inputs.last().1 is SpawnFailed {
            assert(m.containers.take(0) =~= before.containers.take(0));
        }
    }
}

/// Law: a match cleans up after itself. Along any course, once the slot is given back every
/// container that was created has been removed exactly once, in the order of creation, also if
/// it could not be spawned after all, and nothing else has; until then no more than the created
/// ones have.
pub proof fn every_container_is_removed(
    node_id: u64,
    assignment: NodeAssignment,
    now: u64,
    inputs: Seq<(u64, MatchEvent)>,
)
    requires
        is_course(started(node_id, assignment, now), inputs),
    ensures
        ({
            let (m, actions) = course(started(node_id, assignment, now), inputs);
            &&& killed_in(actions).is_prefix_of(created_in(inputs))
            &&& releases_in(actions) > 0 ==> killed_in(actions) == created_in(inputs)
        }),
{
    lemma_course(node_id, assignment, now, inputs);
    let (m, actions) = course(started(node_id, assignment, now), inputs);
    if releases_in(actions) > 0 {
        assert(m.containers.take(m.containers.len() as int) =~= m.containers);
    }
}

/// Law: a match gives its slot back exactly once and reports exactly one result, and only after
/// its slot is given back; when it is finished both have happened.
pub proof fn one_release_and_one_report(
    node_id: u64,
    assignment: NodeAssignment,
    now: u64,
    inputs: Seq<(u64, MatchEvent)>,
)
    requires
        is_course(started(node_id, assignment, now), inputs),
    ensures
        ({
            let (m, actions) = course(started(node_id, assignment, now), inputs);
            &&& releases_in(actions) <= 1
            &&& reports_in(actions).len() <= releases_in(actions)
            &&& m.phase == MatchPhase::Finished ==> releases_in(actions) == 1 && reports_in(
                actions,
            ).len() == 1
        }),
{
    lemma_course(node_id, assignment, now, inputs);
}

/// Law: a report is about its match. It goes out under the node that ran the match, names the
/// match that was assigned, and a winner, one of
/// its two players, exactly if the reason is that the objective was completed.
pub proof fn reports_are_about_their_match(
    node_id: u64,
    assignment: NodeAssignment,
    now: u64,
    inputs: Seq<(u64, MatchEvent)>,
)
    requires
        is_course(started(node_id, assignment, now), inputs),
    ensures
        forall|i: int|
            #![trigger reports_in(course(started(node_id, assignment, now), inputs).1)[i]]
            0 <= i < reports_in(course(started(node_id, assignment, now), inputs).1).len() ==> {
                let report = reports_in(course(started(node_id, assignment, now), inputs).1)[i];
                &&& report.node_id == node_id
                &&& report.match_id == assignment.match_id
                &&& report.winner_id is Some <==> report.end_reason == "objective_complete"@
                &&& report.winner_id matches Some(w) ==> w == assignment.match_config.player1_id
                    || w == assignment.match_config.player2_id
            },
{
    lemma_course(node_id, assignment, now, inputs);
    reveal_strlit("objective_complete");
    reveal_strlit("draw");
    reveal_strlit("timeout");
    reveal_strlit("node_shutdown");
    reveal_strlit("error");
    assert("objective_complete"@.len() == 18);
    assert("draw"@.len() == 4);
    assert("timeout"@.len() == 7);
    assert("node_shutdown"@.len() == 13);
    assert("error"@.len() == 5);
}

/// Whether spawning is for the match that was assigned: for its first side with its first
/// player, or for its second side with its second player.
pub open spec fn is_for_match(action: ActionModel, assignment: NodeAssignment) -> bool {
    action matches ActionModel::Spawn { match_id, slot, env } ==> {
        &&& match_id == assignment.match_id
        &&& slot == 1 || slot == 2
        &&& env == assignments::gladiator_env(
            assignment.match_id,
            slot,
            if slot == 1 {
                assignment.match_config.player1_id
            } else {
                assignment.match_config.player2_id
            },
            assignment.match_config,
        )
    }
}

/// Law: containers are spawned for their match. Whatever a match has spawned is named by the
/// match that was assigned and told of its own side and player.
pub proof fn spawns_are_for_their_match(
    node_id: u64,
    assignment: NodeAssignment,
    now: u64,
    inputs: Seq<(u64, MatchEvent)>,
)
    requires
        is_course(started(node_id, assignment, now), inputs),
    ensures
        forall|i: int|
            0 <= i < course(started(node_id, assignment, now), inputs).1.len() ==> is_for_match(
                #[trigger] course(started(node_id, assignment, now), inputs).1[i],
                assignment,
            ),
    decreases inputs.len(),
{
    if inputs.len() > 0 {
        spawns_are_for_their_match(node_id, assignment, now, inputs.drop_last());
        lemma_course(node_id, assignment, now, inputs.drop_last());
        let earlier = course(started(node_id, assignment, now), inputs.drop_last()).1;
        let actions = course(started(node_id, assignment, now), inputs).1;
        assert forall|i: int| 0 <= i < actions.len() implies is_for_match(
            #[trigger] actions[i],
            assignment,
        ) by {
            if i < earlier.len() {
                assert(actions[i] == earlier[i]);
            }
        }
    }
}

/// How many acknowledgements a match that is over still needs: one for each container that is
/// left, one for the slot and one for the report.
pub open spec fn left_to_do(m: MatchModel) -> nat {
    match m.phase {
        MatchPhase::Killing => (m.containers.len() - m.killed + 2) as nat,
        MatchPhase::Releasing => 2,
        MatchPhase::Reporting => 1,
        _ => 0,
    }
}

/// Law: a match that is over comes to its end, whatever becomes of its last steps. Each of them
/// leaves one less to do, and when nothing is left it is finished.
pub proof fn a_match_that_is_over_finishes(m: MatchModel, now: u64)
    requires
        consistent(m),
        is_over(m.phase),
        m.phase != MatchPhase::Finished,
    ensures
        awaits(m.phase, MatchEvent::Done),
        is_over(match_step(m, now, MatchEvent::Done).0.phase),
        left_to_do(match_step(m, now, MatchEvent::Done).0) == left_to_do(m) - 1,
        left_to_do(match_step(m, now, MatchEvent::Done).0) == 0 <==> match_step(
            m,
            now,
            MatchEvent::Done,
        ).0.phase == MatchPhase::Finished,
{
}

/// Law: a shutdown ends a match at its next check, without a winner and under its own reason, and
/// so does its time running out; in both cases its containers are removed first of all.
pub proof fn shutdown_and_timeout_end_a_match(m: MatchModel, now: u64, cancelled: bool)
    requires
        consistent(m),
        m.phase == MatchPhase::Resting,
        cancelled || now >= m.deadline,
    ensures
        ({
            let (after, action) = match_step(m, now, MatchEvent::Woke { cancelled });
            &&& after.phase == MatchPhase::Killing
            &&& after.end.winner_id is None
            &&& after.end.reason == if cancelled {
                EndReason::NodeShutdown
            } else {
                EndReason::Timeout
            }
            &&& action == (ActionModel::Kill { container_id: m.containers[0] })
        }),
{
}

} // verus!
