//! The life of a gladiator container: how it is set up, when it counts as spawned, whether it
//! runs and how it is removed. Talking to the container daemon is the caller's part.

use crate::config::DockerConfig;
use crate::docker::env;
use crate::docker::env::EnvVars;
use crate::text;
use crate::text::{decimal_string, parse_u16, same_text};
use vstd::prelude::*;
use vstd::string::*;

verus! {

/// How many processes a container may have.
pub const PIDS_LIMIT: i64 = 512;

/// How long a container gets to stop by itself, in seconds.
pub const STOP_TIMEOUT_SECS: i64 = 5;

/// Manages gladiator containers.
pub struct DockerManager {
    pub config: DockerConfig,
}

/// A container that runs, and where its SSH server listens.
#[derive(Debug, PartialEq, Eq)]
pub struct SpawnedContainer {
    pub container_id: String,
    pub ssh_port: u16,
}

/// A container to be created.
pub struct ContainerSpec {
    pub name: String,
    pub image: String,
    pub env: Vec<String>,
    pub labels: Vec<(String, String)>,
    pub host: HostSettings,
}

/// What a container may use of its host: limits, privileges and the one published port.
pub struct HostSettings {
    pub container_port: String,
    pub host_ip: String,
    pub host_port: String,
    pub memory: i64,
    pub nano_cpus: i64,
    pub pids_limit: i64,
    pub security_opt: Vec<String>,
    pub cap_drop: Vec<String>,
    pub cap_add: Vec<String>,
}

/// An address on the host under which a port of a container is published.
#[derive(Debug, PartialEq, Eq)]
pub struct PortBinding {
    pub host_ip: Option<String>,
    pub host_port: Option<String>,
}

/// A port of a container and its bindings, if it is published.
#[derive(Debug, PartialEq, Eq)]
pub struct PortEntry {
    pub port: String,
    pub bindings: Option<Vec<PortBinding>>,
}

/// What the daemon says of a container: whether it runs, as far as its state is known, and its
/// ports, as far as they are known.
#[derive(Debug, PartialEq, Eq)]
pub struct InspectedContainer {
    pub running: Option<Option<bool>>,
    pub ports: Option<Vec<PortEntry>>,
}

/// Why a container could not be spawned.
#[derive(Debug, PartialEq, Eq)]
pub enum SpawnError {
    /// The daemon failed, for this reason.
    Daemon(String),
    /// The container runs, but its SSH port is not published.
    NoSshPort,
}

/// What the daemon answered while a container is being spawned.
pub enum SpawnEvent {
    /// The container was created under an id, or could not be.
    Created(Result<String, String>),
    /// The container was started, or could not be.
    Started { container_id: String, result: Result<(), String> },
    /// The container was inspected, or could not be.
    Inspected { container_id: String, info: Result<InspectedContainer, String> },
}

/// What comes next while a container is being spawned.
pub enum SpawnStep {
    Start { container_id: String },
    Inspect { container_id: String },
    Spawned(SpawnedContainer),
    /// Spawning failed; `container_id` is the container that was created all the same and has
    /// to be removed, if there is one.
    Failed { error: SpawnError, container_id: Option<String> },
}

/// What was done to remove a container; nothing depends on whether it worked.
pub enum KillEvent {
    Begin { container_id: String },
    Stopped { container_id: String, ok: bool },
    Removed { container_id: String, ok: bool },
}

/// What comes next while a container is being removed.
pub enum KillStep {
    Stop { container_id: String, timeout_seconds: i64 },
    Remove { container_id: String, force: bool },
    Done,
}

/// What the daemon answered while the gladiator image is looked for.
pub enum ImageEvent {
    /// Whether the image is there already.
    Inspected { found: bool },
    /// The image was pulled, or could not be.
    Pulled(Result<(), String>),
}

/// What comes next while the gladiator image is looked for.
pub enum ImageStep {
    /// The image is there.
    Ready,
    /// Pull the image.
    Pull { image: String },
    /// The image cannot be had, for this reason.
    Failed(String),
}

/// The name of the container for one side of a match.
pub open spec fn container_name(match_id: u64, slot: u8) -> Seq<char> {
    "dfc-"@ + text::decimal(match_id as nat) + "-gladiator-"@ + text::decimal(slot as nat)
}

/// A limit as the daemon takes it: numbers from 2^63 on come out negative.
pub open spec fn as_signed(limit: u64) -> int {
    if limit <= i64::MAX {
        limit as int
    } else {
        limit - 0x1_0000_0000_0000_0000
    }
}

/// The capabilities that a container keeps.
pub open spec fn kept_capabilities() -> Seq<Seq<char>> {
    seq![
        "NET_BIND_SERVICE"@,
        "NET_ADMIN"@,
        "SETUID"@,
        "SETGID"@,
        "CHOWN"@,
        "DAC_OVERRIDE"@,
        "SYS_CHROOT"@,
        "KILL"@,
        "FOWNER"@,
        "AUDIT_WRITE"@,
    ]
}

/// The labels of the container for one side of a match.
pub open spec fn container_labels(match_id: u64, slot: u8) -> Seq<(Seq<char>, Seq<char>)> {
    seq![
        ("dfc.matchId"@, text::decimal(match_id as nat)),
        ("dfc.slot"@, text::decimal(slot as nat)),
        ("dfc.managed"@, "dfc-node"@),
    ]
}

/// Whether `host` are the settings of a gladiator under `config`: its limits, 512 processes, no
/// new privileges, all capabilities dropped but a few, and SSH published on a free port of the
/// loopback address.
pub open spec fn is_gladiator_host(host: HostSettings, config: DockerConfig) -> bool {
    &&& host.container_port@ == "22/tcp"@
    &&& host.host_ip@ == "127.0.0.1"@
    &&& host.host_port@ == "0"@
    &&& host.memory == as_signed(config.memory_limit)
    &&& host.nano_cpus == as_signed(config.cpu_limit)
    &&& host.pids_limit == 512
    &&& env::string_texts(host.security_opt@) == seq!["no-new-privileges"@]
    &&& env::string_texts(host.cap_drop@) == seq!["ALL"@]
    &&& env::string_texts(host.cap_add@) == kept_capabilities()
}

/// The bindings of a port among `entries`: those of the first entry for it.
pub open spec fn bindings_of(entries: Seq<PortEntry>, port: Seq<char>) -> Option<Seq<PortBinding>>
    decreases entries.len(),
{
    if entries.len() == 0 {
        None
    } else if entries[0].port@ == port {
        match entries[0].bindings {
            Some(b) => Some(b@),
            None => None,
        }
    } else {
        bindings_of(entries.skip(1), port)
    }
}

/// The host port under which SSH is published: that of the first binding, if it is a number
/// that fits.
pub open spec fn published_ssh_port(info: InspectedContainer) -> Option<u16> {
    match info.ports {
        Some(entries) => match bindings_of(entries@, "22/tcp"@) {
            Some(bindings) => if bindings.len() == 0 {
                None
            } else {
                match bindings[0].host_port {
                    Some(port) => match text::unsigned_value(port@) {
                        Some(n) => if n <= u16::MAX {
                            Some(n as u16)
                        } else {
                            None
                        },
                        None => None,
                    },
                    None => None,
                }
            },
            None => None,
        },
        None => None,
    }
}

fn signed(limit: u64) -> (r: i64)
    ensures
        r == as_signed(limit),
{
    if limit <= 0x7fff_ffff_ffff_ffff {
        limit as i64
    } else {
        -((0xffff_ffff_ffff_ffff - limit) as i64) - 1
    }
}

/// The bindings of SSH among `entries`.
fn ssh_bindings(entries: &Vec<PortEntry>) -> (r: Option<&Vec<PortBinding>>)
    ensures
        match r {
            Some(b) => bindings_of(entries@, "22/tcp"@) == Some(b@),
            None => bindings_of(entries@, "22/tcp"@) is None,
        },
{
    let mut i: usize = 0;
    assert(entries@.skip(0) =~= entries@);
    while i < entries.len()
        invariant
            i <= entries.len(),
            bindings_of(entries@.skip(i as int), "22/tcp"@) == bindings_of(entries@, "22/tcp"@),
        decreases entries.len() - i,
    {
        assert(entries@.skip(i as int)[0] == entries@[i as int]);
        if same_text(entries[i].port.as_str(), "22/tcp") {
            return match &entries[i].bindings {
                Some(b) => Some(b),
                None => None,
            };
        }
        assert(entries@.skip(i as int).skip(1) =~= entries@.skip(i + 1));
        i = i + 1;
    }
    None
}

impl SpawnError {
    /// The error in words.
    pub fn message(&self) -> (r: String)
        ensures
            match *self {
                SpawnError::Daemon(reason) => r@ == reason@,
                SpawnError::NoSshPort => r@ == "Failed to get SSH port binding"@,
            },
    {
        match self {
            SpawnError::Daemon(reason) => reason.clone(),
            SpawnError::NoSshPort => "Failed to get SSH port binding".to_string(),
        }
    }
}

/// The host port under which SSH is published.
pub fn ssh_port(info: &InspectedContainer) -> (r: Option<u16>)
    ensures
        r == published_ssh_port(*info),
{
    match &info.ports {
        Some(entries) => match ssh_bindings(entries) {
            Some(bindings) => if bindings.len() == 0 {
                None
            } else {
                match &bindings[0].host_port {
                    Some(port) => parse_u16(port.as_str()),
                    None => None,
                }
            },
            None => None,
        },
        None => None,
    }
}

impl DockerManager {
    /// A manager that runs containers as configured.
    pub fn new(config: DockerConfig) -> (r: Self)
        ensures
            r.config == config,
    {
        DockerManager { config }
    }

    /// How the gladiator image is made available: it is pulled if it is not there. Only if that
    /// fails it is missing, and the error says how to get it.
    pub fn ensure_image(&self, event: ImageEvent) -> (r: ImageStep)
        ensures
            match event {
                ImageEvent::Inspected { found } => if found {
                    r is Ready
                } else {
                    r == (ImageStep::Pull { image: self.config.image })
                },
                ImageEvent::Pulled(Ok(_)) => r is Ready,
                ImageEvent::Pulled(Err(_)) => r matches ImageStep::Failed(e) && e@ == "Image '"@
                    + self.config.image@ + "' not found. Pull or build it first: docker pull "@
                    + self.config.image@,
            },
    {
        match event {
            ImageEvent::Inspected { found } => {
                if found {
                    ImageStep::Ready
                } else {
                    ImageStep::Pull { image: self.config.image.clone() }
                }
            },
            ImageEvent::Pulled(Ok(_)) => ImageStep::Ready,
            ImageEvent::Pulled(Err(_)) => {
                let mut e = "Image '".to_string();
                e.append(self.config.image.as_str());
                e.append("' not found. Pull or build it first: docker pull ");
                e.append(self.config.image.as_str());
                ImageStep::Failed(e)
            },
        }
    }

    fn host_settings(&self) -> (r: HostSettings)
        ensures
            is_gladiator_host(r, self.config),
    {
        let mut security_opt: Vec<String> = Vec::new();
        security_opt.push("no-new-privileges".to_string());
        let mut cap_drop: Vec<String> = Vec::new();
        cap_drop.push("ALL".to_string());
        let mut cap_add: Vec<String> = Vec::new();
        cap_add.push("NET_BIND_SERVICE".to_string());
        cap_add.push("NET_ADMIN".to_string());
        cap_add.push("SETUID".to_string());
        cap_add.push("SETGID".to_string());
        cap_add.push("CHOWN".to_string());
        cap_add.push("DAC_OVERRIDE".to_string());
        cap_add.push("SYS_CHROOT".to_string());
        cap_add.push("KILL".to_string());
        cap_add.push("FOWNER".to_string());
        cap_add.push("AUDIT_WRITE".to_string());
        assert(env::string_texts(security_opt@) =~= seq!["no-new-privileges"@]);
        assert(env::string_texts(cap_drop@) =~= seq!["ALL"@]);
        assert(env::string_texts(cap_add@) =~= kept_capabilities());
        HostSettings {
            container_port: "22/tcp".to_string(),
            host_ip: "127.0.0.1".to_string(),
            host_port: "0".to_string(),
            memory: signed(self.config.memory_limit),
            nano_cpus: signed(self.config.cpu_limit),
            pids_limit: PIDS_LIMIT,
            security_opt,
            cap_drop,
            cap_add,
        }
    }

    /// The container to be created for one side of a match.
    pub fn spawn_gladiator(&self, match_id: u64, slot: u8, env: EnvVars) -> (r: ContainerSpec)
        ensures
            r.name@ == container_name(match_id, slot),
            r.image == self.config.image,
            env::string_texts(r.env@) == env@.map_values(
                |v: (Seq<char>, Seq<char>)| env::assignment(v),
            ),
            env::pair_texts(r.labels@) == container_labels(match_id, slot),
            is_gladiator_host(r.host, self.config),
    {
        let mut name = "dfc-".to_string();
        name.append(decimal_string(match_id).as_str());
        name.append("-gladiator-");
        name.append(decimal_string(slot as u64).as_str());

        let mut labels: Vec<(String, String)> = Vec::new();
        labels.push(("dfc.matchId".to_string(), decimal_string(match_id)));
        labels.push(("dfc.slot".to_string(), decimal_string(slot as u64)));
        labels.push(("dfc.managed".to_string(), "dfc-node".to_string()));
        assert(env::pair_texts(labels@) =~= container_labels(match_id, slot));

        ContainerSpec {
            name,
            image: self.config.image.clone(),
            env: env.assignments(),
            labels,
            host: self.host_settings(),
        }
    }

    /// What follows each answer of the daemon while a container is being spawned: once created
    /// it is started, once started it is inspected, and it counts as spawned if it then shows a
    /// published SSH port. Any failure ends the spawning, and names the container unless it could
    /// not even be created.
    pub fn spawn_next(&self, event: SpawnEvent) -> (r: SpawnStep)
        ensures
            match event {
                SpawnEvent::Created(Ok(id)) => r == (SpawnStep::Start { container_id: id }),
                SpawnEvent::Started { container_id, result: Ok(_) } => r == (SpawnStep::Inspect {
                    container_id,
                }),
                SpawnEvent::Inspected { container_id, info: Ok(info) } => match published_ssh_port(
                    info,
                ) {
                    Some(port) => r == SpawnStep::Spawned(
                        (SpawnedContainer { container_id, ssh_port: port }),
                    ),
                    None => r == (SpawnStep::Failed {
                        error: SpawnError::NoSshPort,
                        container_id: Some(container_id),
                    }),
                },
                SpawnEvent::Created(Err(e)) => r == (SpawnStep::Failed {
                    error: SpawnError::Daemon(e),
                    container_id: None,
                }),
                SpawnEvent::Started { container_id, result: Err(e) } => r == (SpawnStep::Failed {
                    error: SpawnError::Daemon(e),
                    container_id: Some(container_id),
                }),
                SpawnEvent::Inspected { container_id, info: Err(e) } => r == (SpawnStep::Failed {
                    error: SpawnError::Daemon(e),
                    container_id: Some(container_id),
                }),
            },
    {
        match event {
            SpawnEvent::Created(Ok(container_id)) => SpawnStep::Start { container_id },
            SpawnEvent::Started { container_id, result: Ok(_) } => SpawnStep::Inspect {
                container_id,
            },
            SpawnEvent::Inspected { container_id, info: Ok(info) } => match ssh_port(&info) {
                Some(port) => SpawnStep::Spawned(
                    SpawnedContainer { container_id, ssh_port: port },
                ),
                None => SpawnStep::Failed {
                    error: SpawnError::NoSshPort,
                    container_id: Some(container_id),
                },
            },
            SpawnEvent::Created(Err(e)) => SpawnStep::Failed {
                error: SpawnError::Daemon(e),
                container_id: None,
            },
            SpawnEvent::Started { container_id, result: Err(e) } => SpawnStep::Failed {
                error: SpawnError::Daemon(e),
                container_id: Some(container_id),
            },
            SpawnEvent::Inspected { container_id, info: Err(e) } => SpawnStep::Failed {
                error: SpawnError::Daemon(e),
                container_id: Some(container_id),
            },
        }
    }

    /// How a container is removed: it is stopped and then removed by force, whether or not
    /// stopping it worked.
    pub fn kill_container(&self, event: KillEvent) -> (r: KillStep)
        ensures
            match event {
                KillEvent::Begin { container_id } => r == (KillStep::Stop {
                    container_id,
                    timeout_seconds: 5,
                }),
                KillEvent::Stopped { container_id, .. } => r == (KillStep::Remove {
                    container_id,
                    force: true,
                }),
                KillEvent::Removed { .. } => r is Done,
            },
    {
        match event {
            KillEvent::Begin { container_id } => KillStep::Stop {
                container_id,
                timeout_seconds: STOP_TIMEOUT_SECS,
            },
            KillEvent::Stopped { container_id, .. } => KillStep::Remove {
                container_id,
                force: true,
            },
            KillEvent::Removed { .. } => KillStep::Done,
        }
    }

    /// Whether a container runs: only if the daemon says so. A container that cannot be
    /// inspected does not.
    pub fn is_running(&self, inspected: Option<InspectedContainer>) -> (r: bool)
        ensures
            r == (inspected matches Some(info) && info.running == Some(Some(true))),
    {
        match inspected {
            Some(info) => match info.running {
                Some(Some(running)) => running,
                _ => false,
            },
            None => false,
        }
    }
}

/// Law: containers are told apart by their names. Two containers share a name only if they are
/// for the same side of the same match.
pub proof fn names_tell_containers_apart(m1: u64, s1: u8, m2: u64, s2: u8)
    requires
        container_name(m1, s1) == container_name(m2, s2),
    ensures
        m1 == m2,
        s1 == s2,
{
    reveal_strlit("dfc-");
    reveal_strlit("-gladiator-");
    let (a1, a2) = (text::decimal(m1 as nat), text::decimal(m2 as nat));
    let (b1, b2) = (text::decimal(s1 as nat), text::decimal(s2 as nat));
    let (n1, n2) = (container_name(m1, s1), container_name(m2, s2));
    text::decimal_is_digits(m1 as nat);
    text::decimal_is_digits(m2 as nat);
    assert(n1[4 + a1.len() as int] == '-');
    assert(n2[4 + a2.len() as int] == '-');
    if a1.len() < a2.len() {
        assert(n2[4 + a1.len() as int] == a2[a1.len() as int]);
        assert(text::is_digit(a2[a1.len() as int]));
    }
    if a2.len() < a1.len() {
        assert(n1[4 + a2.len() as int] == a1[a2.len() as int]);
        assert(text::is_digit(a1[a2.len() as int]));
    }
    assert(a1.len() == a2.len());
    assert(a1 =~= a2) by {
        assert forall|i: int| 0 <= i < a1.len() implies a1[i] == a2[i] by {
            assert(n1[4 + i] == a1[i]);
            assert(n2[4 + i] == a2[i]);
        }
    }
    let off = (15 + a1.len()) as int;
    assert(n1.len() == off + b1.len());
    assert(n2.len() == off + b2.len());
    assert(b1 =~= b2) by {
        assert forall|i: int| 0 <= i < b1.len() implies b1[i] == b2[i] by {
            assert(n1[off + i] == b1[i]);
            assert(n2[off + i] == b2[i]);
        }
    }
    text::decimal_reads_back(m1 as nat);
    text::decimal_reads_back(m2 as nat);
    text::decimal_reads_back(s1 as nat);
    text::decimal_reads_back(s2 as nat);
}

/// Law: the configured limits are enforced. Below 2^63 a limit reaches the daemon as it was
/// configured.
pub proof fn limits_are_enforced(host: HostSettings, config: DockerConfig)
    requires
        is_gladiator_host(host, config),
        config.memory_limit <= i64::MAX,
        config.cpu_limit <= i64::MAX,
    ensures
        host.memory == config.memory_limit,
        host.nano_cpus == config.cpu_limit,
{
}

/// Law: every container can be found again. Its labels name its match and its side.
pub proof fn labels_name_match_and_slot(match_id: u64, slot: u8)
    ensures
        env::lookup(container_labels(match_id, slot), "dfc.matchId"@) == Some(
            text::decimal(match_id as nat),
        ),
        env::lookup(container_labels(match_id, slot), "dfc.slot"@) == Some(
            text::decimal(slot as nat),
        ),
{
    reveal_strlit("dfc.matchId");
    reveal_strlit("dfc.slot");
    assert("dfc.matchId"@.len() != "dfc.slot"@.len());
    reveal_with_fuel(env::lookup, 3);
}

} // verus!
