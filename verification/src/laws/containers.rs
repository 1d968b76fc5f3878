//! Laws of containers: how they are set up, spawned, looked at and removed.

use crate::assignments::build_env;
use crate::config::DockerConfig;
use crate::docker::env;
use crate::docker::env::EnvVars;
use crate::docker::manager;
use crate::docker::manager::ssh_port;
use crate::docker::manager::{
    ContainerSpec, DockerManager, ImageEvent, ImageStep, InspectedContainer, KillEvent, KillStep,
    PortEntry, SpawnError, SpawnEvent, SpawnStep,
};
use crate::text;
use crate::types::MatchAssignmentConfig;
use vstd::prelude::*;
use vstd::string::*;

verus! {

/// Law: variables start out unset. Setting one gives it its value and leaves every other as it
/// is.
pub proof fn variables_have_the_value_they_were_given(
    vars: EnvVars,
    key: &str,
    value: String,
    after: EnvVars,
    other: &str,
    got: Option<&String>,
    was: Option<&String>,
    none: EnvVars,
    unset: Option<&String>,
)
    requires
        call_ensures(EnvVars::with, (vars, key, value), after),
        call_ensures(EnvVars::get, (&after, other), got),
        call_ensures(EnvVars::get, (&vars, other), was),
        call_ensures(EnvVars::new, (), none),
        call_ensures(EnvVars::get, (&none, other), unset),
    ensures
        other@ == key@ ==> got is Some && got->0@ == value@,
        other@ != key@ ==> (got is Some <==> was is Some),
        other@ != key@ && got is Some ==> got->0@ == was->0@,
        unset is None,
{
    if other@ != key@ {
        assert(env::lookup(after@, other@) == env::lookup(vars@, other@));
    }
}

/// Law: a variable is there exactly if it has a value.
pub proof fn variables_are_there_if_they_have_a_value(
    vars: EnvVars,
    key: &str,
    got: Option<&String>,
    there: bool,
)
    requires
        call_ensures(EnvVars::get, (&vars, key), got),
        call_ensures(EnvVars::contains_key, (&vars, key), there),
    ensures
        there <==> got is Some,
{
}

/// Law: a container is told its match, its side, its player and the terms of its match, each
/// under its own name and in decimal where it is a number, and nothing else.
pub proof fn gladiators_know_their_match(
    match_id: u64,
    slot: u8,
    player_id: u64,
    config: &MatchAssignmentConfig,
    vars: EnvVars,
)
    requires
        call_ensures(build_env, (match_id, slot, player_id, config), vars),
    ensures
        vars@.len() == 6,
        forall|key: &str, got: Option<&String>| #[trigger]
            call_ensures(EnvVars::get, (&vars, key), got) ==> {
                &&& key@ == "DFC_MATCH_ID"@ ==> got is Some && got->0@ == text::decimal(
                    match_id as nat,
                )
                &&& key@ == "DFC_PLAYER_SLOT"@ ==> got is Some && got->0@ == text::decimal(
                    slot as nat,
                )
                &&& key@ == "DFC_PLAYER_ID"@ ==> got is Some && got->0@ == text::decimal(
                    player_id as nat,
                )
                &&& key@ == "DFC_GAME_MODE"@ ==> got is Some && got->0@ == config.game_mode@
                &&& key@ == "DFC_WAGER_AMOUNT"@ ==> got is Some && got->0@ == config.wager_amount@
                &&& key@ == "DFC_TIMEOUT"@ ==> got is Some && got->0@ == text::decimal(
                    config.timeout_seconds as nat,
                )
            },
{
    crate::assignments::env_tells_the_match(match_id, slot, player_id, *config);
}

/// Law: variables are handed to a container one by one as `KEY=value`.
pub proof fn variables_are_written_as_assignments(vars: EnvVars, r: Vec<String>)
    requires
        call_ensures(EnvVars::assignments, (&vars,), r),
    ensures
        r@.len() == vars@.len(),
        forall|i: int|
            0 <= i < r@.len() ==> (#[trigger] r@[i])@ == vars@[i].0 + "="@ + vars@[i].1,
{
    assert(env::string_texts(r@).len() == r@.len());
    assert forall|i: int| 0 <= i < r@.len() implies (#[trigger] r@[i])@ == vars@[i].0 + "="@
        + vars@[i].1 by {
        assert(env::string_texts(r@)[i] == r@[i]@);
    }
}

/// Whether a list of strings holds one text and nothing else.
pub open spec fn is_just(list: Vec<String>, text: Seq<char>) -> bool {
    list@.len() == 1 && list@[0]@ == text
}

/// Law: a container is confined. It gets the memory and the processor time that are configured,
/// 512 processes, no new privileges and no capability but ten; and its SSH server is published
/// on the loopback address alone, on a port that is free.
pub proof fn containers_are_confined(
    manager: &DockerManager,
    match_id: u64,
    slot: u8,
    vars: EnvVars,
    c: ContainerSpec,
)
    requires
        call_ensures(DockerManager::spawn_gladiator, (manager, match_id, slot, vars), c),
    ensures
        manager.config.memory_limit <= 0x7fff_ffff_ffff_ffff ==> c.host.memory
            == manager.config.memory_limit,
        manager.config.memory_limit > 0x7fff_ffff_ffff_ffff ==> c.host.memory
            + 0x1_0000_0000_0000_0000 == manager.config.memory_limit,
        manager.config.cpu_limit <= 0x7fff_ffff_ffff_ffff ==> c.host.nano_cpus
            == manager.config.cpu_limit,
        manager.config.cpu_limit > 0x7fff_ffff_ffff_ffff ==> c.host.nano_cpus
            + 0x1_0000_0000_0000_0000 == manager.config.cpu_limit,
        c.host.pids_limit == 512,
        is_just(c.host.security_opt, "no-new-privileges"@),
        is_just(c.host.cap_drop, "ALL"@),
        c.host.cap_add@.len() == 10,
        c.host.cap_add@[0]@ == "NET_BIND_SERVICE"@,
        c.host.cap_add@[1]@ == "NET_ADMIN"@,
        c.host.cap_add@[2]@ == "SETUID"@,
        c.host.cap_add@[3]@ == "SETGID"@,
        c.host.cap_add@[4]@ == "CHOWN"@,
        c.host.cap_add@[5]@ == "DAC_OVERRIDE"@,
        c.host.cap_add@[6]@ == "SYS_CHROOT"@,
        c.host.cap_add@[7]@ == "KILL"@,
        c.host.cap_add@[8]@ == "FOWNER"@,
        c.host.cap_add@[9]@ == "AUDIT_WRITE"@,
        c.host.container_port@ == "22/tcp"@,
        c.host.host_ip@ == "127.0.0.1"@,
        c.host.host_port@ == "0"@,
{
    let h = c.host;
    assert(env::string_texts(h.security_opt@).len() == h.security_opt@.len());
    assert(env::string_texts(h.cap_drop@).len() == h.cap_drop@.len());
    assert(env::string_texts(h.security_opt@)[0] == h.security_opt@[0]@);
    assert(env::string_texts(h.cap_drop@)[0] == h.cap_drop@[0]@);
    assert(env::string_texts(h.cap_add@).len() == 10);
    assert(env::string_texts(h.cap_add@)[0] == h.cap_add@[0]@);
    assert(env::string_texts(h.cap_add@)[1] == h.cap_add@[1]@);
    assert(env::string_texts(h.cap_add@)[2] == h.cap_add@[2]@);
    assert(env::string_texts(h.cap_add@)[3] == h.cap_add@[3]@);
    assert(env::string_texts(h.cap_add@)[4] == h.cap_add@[4]@);
    assert(env::string_texts(h.cap_add@)[5] == h.cap_add@[5]@);
    assert(env::string_texts(h.cap_add@)[6] == h.cap_add@[6]@);
    assert(env::string_texts(h.cap_add@)[7] == h.cap_add@[7]@);
    assert(env::string_texts(h.cap_add@)[8] == h.cap_add@[8]@);
    assert(env::string_texts(h.cap_add@)[9] == h.cap_add@[9]@);
}

/// Law: a container runs the configured image, is named by its match and its side, is labelled
/// with them and as one of this node, and gets the variables that are meant for it.
pub proof fn containers_are_named_by_match_and_side(
    manager: &DockerManager,
    match_id: u64,
    slot: u8,
    vars: EnvVars,
    c: ContainerSpec,
    lines: Vec<String>,
)
    requires
        call_ensures(DockerManager::spawn_gladiator, (manager, match_id, slot, vars), c),
        call_ensures(EnvVars::assignments, (&vars,), lines),
    ensures
        c.name@ == "dfc-"@ + text::decimal(match_id as nat) + "-gladiator-"@ + text::decimal(
            slot as nat,
        ),
        c.image@ == manager.config.image@,
        c.labels@.len() == 3,
        c.labels@[0].0@ == "dfc.matchId"@,
        c.labels@[0].1@ == text::decimal(match_id as nat),
        c.labels@[1].0@ == "dfc.slot"@,
        c.labels@[1].1@ == text::decimal(slot as nat),
        c.labels@[2].0@ == "dfc.managed"@,
        c.labels@[2].1@ == "dfc-node"@,
        c.env@.len() == lines@.len(),
        forall|i: int| 0 <= i < lines@.len() ==> (#[trigger] c.env@[i])@ == lines@[i]@,
{
    assert(env::pair_texts(c.labels@).len() == 3);
    assert(env::pair_texts(c.labels@)[0] == (c.labels@[0].0@, c.labels@[0].1@));
    assert(env::pair_texts(c.labels@)[1] == (c.labels@[1].0@, c.labels@[1].1@));
    assert(env::pair_texts(c.labels@)[2] == (c.labels@[2].0@, c.labels@[2].1@));
    assert(env::string_texts(c.env@) == env::string_texts(lines@));
    assert(env::string_texts(c.env@).len() == env::string_texts(lines@).len());
    assert forall|i: int| 0 <= i < lines@.len() implies (#[trigger] c.env@[i])@ == lines@[i]@ by {
        assert(env::string_texts(c.env@)[i] == env::string_texts(lines@)[i]);
    }
}

proof fn lemma_bindings_at(entries: Seq<PortEntry>, port: Seq<char>, i: int)
    requires
        0 <= i < entries.len(),
        entries[i].port@ == port,
        forall|k: int| 0 <= k < i ==> (#[trigger] entries[k]).port@ != port,
    ensures
        entries[i].bindings is None ==> manager::bindings_of(entries, port) is None,
        entries[i].bindings is Some ==> manager::bindings_of(entries, port) == Some(
            entries[i].bindings->0@,
        ),
    decreases i,
{
    if i > 0 {
        assert(entries[0].port@ != port);
        let rest = entries.skip(1);
        assert(rest[i - 1] == entries[i]);
        assert forall|k: int| 0 <= k < i - 1 implies (#[trigger] rest[k]).port@ != port by {
            assert(rest[k] == entries[k + 1]);
        }
        lemma_bindings_at(rest, port, i - 1);
    }
}

proof fn lemma_no_bindings(entries: Seq<PortEntry>, port: Seq<char>)
    requires
        forall|k: int| 0 <= k < entries.len() ==> (#[trigger] entries[k]).port@ != port,
    ensures
        manager::bindings_of(entries, port) is None,
    decreases entries.len(),
{
    if entries.len() > 0 {
        assert(entries[0].port@ != port);
        let rest = entries.skip(1);
        assert forall|k: int| 0 <= k < rest.len() implies (#[trigger] rest[k]).port@ != port by {
            assert(rest[k] == entries[k + 1]);
        }
        lemma_no_bindings(rest, port);
    }
}

/// Law: the SSH port of a container is where its port `22/tcp` is bound first, if it is bound to
/// a number below 65536. A container whose ports are not known, or without that port, has none.
pub proof fn ssh_is_where_its_port_is_bound(info: InspectedContainer, i: int, r: Option<u16>)
    requires
        call_ensures(ssh_port, (&info,), r),
    ensures
        info.ports is None ==> r is None,
        info.ports is Some && (forall|k: int|
            0 <= k < info.ports->0@.len() ==> (#[trigger] info.ports->0@[k]).port@ != "22/tcp"@)
            ==> r is None,
        info.ports is Some && 0 <= i < info.ports->0@.len() && info.ports->0@[i].port@
            == "22/tcp"@ && (forall|k: int|
            0 <= k < i ==> (#[trigger] info.ports->0@[k]).port@ != "22/tcp"@) ==> {
            let bindings = info.ports->0@[i].bindings;
            if bindings is Some && bindings->0@.len() > 0 && bindings->0@[0].host_port is Some
                && text::unsigned_value(bindings->0@[0].host_port->0@) is Some
                && text::unsigned_value(bindings->0@[0].host_port->0@)->0 < 65536 {
                r is Some && r->0 == text::unsigned_value(bindings->0@[0].host_port->0@)->0
            } else {
                r is None
            }
        },
{
    if info.ports is Some {
        let entries = info.ports->0@;
        if forall|k: int| 0 <= k < entries.len() ==> (#[trigger] entries[k]).port@ != "22/tcp"@ {
            lemma_no_bindings(entries, "22/tcp"@);
        }
        if 0 <= i < entries.len() && entries[i].port@ == "22/tcp"@ && (forall|k: int|
            0 <= k < i ==> (#[trigger] entries[k]).port@ != "22/tcp"@) {
            lemma_bindings_at(entries, "22/tcp"@, i);
        }
    }
}

/// Law: a container is spawned step by step. It is started once it is created and inspected once
/// it is started, under the id that it was created with, and it counts as spawned exactly if it
/// then shows an SSH port, under that id and port.
pub proof fn containers_are_spawned_step_by_step(
    manager: &DockerManager,
    id: String,
    info: InspectedContainer,
    port: Option<u16>,
    created: SpawnStep,
    started: SpawnStep,
    inspected: SpawnStep,
)
    requires
        call_ensures(ssh_port, (&info,), port),
        call_ensures(
            DockerManager::spawn_next,
            (manager, SpawnEvent::Created(Ok(id))),
            created,
        ),
        call_ensures(
            DockerManager::spawn_next,
            (manager, SpawnEvent::Started { container_id: id, result: Ok(()) }),
            started,
        ),
        call_ensures(
            DockerManager::spawn_next,
            (manager, SpawnEvent::Inspected { container_id: id, info: Ok(info) }),
            inspected,
        ),
    ensures
        created matches SpawnStep::Start { container_id } && container_id == id,
        started matches SpawnStep::Inspect { container_id } && container_id == id,
        port is Some ==> (inspected matches SpawnStep::Spawned(c) && c.container_id == id
            && c.ssh_port == port->0),
        port is None ==> (inspected matches SpawnStep::Failed { error, container_id } && error
            == SpawnError::NoSshPort && container_id == Some(id)),
{
}

/// Law: any failure of the daemon ends the spawning, for the reason that it gave; a container
/// that exists by then is named, so that it can be removed.
pub proof fn failures_end_the_spawning(
    manager: &DockerManager,
    id: String,
    reason: String,
    created: SpawnStep,
    started: SpawnStep,
    inspected: SpawnStep,
)
    requires
        call_ensures(
            DockerManager::spawn_next,
            (manager, SpawnEvent::Created(Err(reason))),
            created,
        ),
        call_ensures(
            DockerManager::spawn_next,
            (manager, SpawnEvent::Started { container_id: id, result: Err(reason) }),
            started,
        ),
        call_ensures(
            DockerManager::spawn_next,
            (manager, SpawnEvent::Inspected { container_id: id, info: Err(reason) }),
            inspected,
        ),
    ensures
        created == (SpawnStep::Failed { error: SpawnError::Daemon(reason), container_id: None }),
        started == (SpawnStep::Failed {
            error: SpawnError::Daemon(reason),
            container_id: Some(id),
        }),
        inspected == started,
{
}

/// Law: a failure is told by the daemon's reason, or by the port that is missing.
pub proof fn spawn_errors_are_told(err: SpawnError, r: String)
    requires
        call_ensures(SpawnError::message, (&err,), r),
    ensures
        err matches SpawnError::Daemon(reason) ==> r@ == reason@,
        err is NoSshPort ==> r@ == "Failed to get SSH port binding"@,
{
}

/// Law: a container is removed by stopping it, for which it has 5 seconds, and then removing
/// that same container by force, whether or not stopping it worked; then nothing is left to do,
/// whether or not removing it worked.
pub proof fn containers_are_stopped_and_then_removed(
    manager: &DockerManager,
    id: String,
    stopped: bool,
    removed: bool,
    first: KillStep,
    second: KillStep,
    third: KillStep,
)
    requires
        call_ensures(
            DockerManager::kill_container,
            (manager, KillEvent::Begin { container_id: id }),
            first,
        ),
        call_ensures(
            DockerManager::kill_container,
            (manager, KillEvent::Stopped { container_id: id, ok: stopped }),
            second,
        ),
        call_ensures(
            DockerManager::kill_container,
            (manager, KillEvent::Removed { container_id: id, ok: removed }),
            third,
        ),
    ensures
        first matches KillStep::Stop { container_id, timeout_seconds } && container_id == id
            && timeout_seconds == 5,
        second matches KillStep::Remove { container_id, force } && container_id == id && force,
        third is Done,
{
}

/// Law: a container runs exactly if the daemon knows it, knows its state, and says that it runs.
pub proof fn containers_run_if_the_daemon_says_so(
    manager: &DockerManager,
    inspected: Option<InspectedContainer>,
    r: bool,
)
    requires
        call_ensures(DockerManager::is_running, (manager, inspected), r),
    ensures
        inspected is None ==> !r,
        inspected is Some && inspected->0.running is None ==> !r,
        inspected is Some && inspected->0.running is Some && inspected->0.running->0 is None
            ==> !r,
        inspected is Some && inspected->0.running is Some && inspected->0.running->0 is Some
            ==> r == inspected->0.running->0->0,
{
}

/// Law: the configured image is pulled exactly if it is not there, and the node has it if it was
/// there or was pulled; if pulling fails the operator is told which image to get and how.
pub proof fn absent_images_are_pulled(
    manager: &DockerManager,
    reason: String,
    found: ImageStep,
    absent: ImageStep,
    pulled: ImageStep,
    failed: ImageStep,
)
    requires
        call_ensures(
            DockerManager::ensure_image,
            (manager, ImageEvent::Inspected { found: true }),
            found,
        ),
        call_ensures(
            DockerManager::ensure_image,
            (manager, ImageEvent::Inspected { found: false }),
            absent,
        ),
        call_ensures(
            DockerManager::ensure_image,
            (manager, ImageEvent::Pulled(Ok(()))),
            pulled,
        ),
        call_ensures(
            DockerManager::ensure_image,
            (manager, ImageEvent::Pulled(Err(reason))),
            failed,
        ),
    ensures
        found is Ready,
        absent matches ImageStep::Pull { image } && image@ == manager.config.image@,
        pulled is Ready,
        failed matches ImageStep::Failed(e) && e@ == "Image '"@ + manager.config.image@
            + "' not found. Pull or build it first: docker pull "@ + manager.config.image@,
{
}

/// Law: a manager keeps the configuration that it was made with.
pub proof fn managers_keep_their_configuration(config: DockerConfig, manager: DockerManager)
    requires
        call_ensures(DockerManager::new, (config,), manager),
    ensures
        manager.config == config,
{
}

} // verus!
