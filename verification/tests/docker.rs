use dfc_node::assignments::build_env;
use dfc_node::config::DockerConfig;
use dfc_node::docker::env::EnvVars;
use dfc_node::docker::manager::{
    ssh_port, ContainerSpec, DockerManager, ImageEvent, ImageStep, InspectedContainer, KillEvent,
    KillStep, PortBinding, PortEntry, SpawnError, SpawnEvent, SpawnStep, SpawnedContainer,
};
use dfc_node::types::MatchAssignmentConfig;

fn manager() -> DockerManager {
    DockerManager::new(DockerConfig::default())
}

fn spec(match_id: u64, slot: u8) -> ContainerSpec {
    let config = MatchAssignmentConfig {
        match_id,
        player1_id: 1,
        player2_id: 2,
        game_mode: "ranked".to_string(),
        wager_amount: "100.0".to_string(),
        timeout_seconds: 300,
    };
    manager().spawn_gladiator(match_id, slot, build_env(match_id, slot, 8, &config))
}

fn entry(port: &str, host_ports: Vec<Option<&str>>) -> PortEntry {
    PortEntry {
        port: port.to_string(),
        bindings: Some(
            host_ports
                .into_iter()
                .map(|p| PortBinding {
                    host_ip: Some("127.0.0.1".to_string()),
                    host_port: p.map(|p| p.to_string()),
                })
                .collect(),
        ),
    }
}

fn inspected(ports: Vec<PortEntry>) -> InspectedContainer {
    InspectedContainer {
        running: Some(Some(true)),
        ports: Some(ports),
    }
}

#[test]
fn containers_are_named_and_labelled() {
    let c = spec(42, 1);
    assert_eq!(c.name, "dfc-42-gladiator-1");
    assert_eq!(c.image, "dfc-gladiator:armed");
    assert_eq!(
        c.labels,
        vec![
            ("dfc.matchId".to_string(), "42".to_string()),
            ("dfc.slot".to_string(), "1".to_string()),
            ("dfc.managed".to_string(), "dfc-node".to_string()),
        ]
    );
    assert_ne!(spec(4, 21).name, spec(42, 1).name);
    assert_ne!(spec(42, 1).name, spec(42, 2).name);
}

#[test]
fn containers_get_their_environment() {
    assert_eq!(
        spec(42, 2).env,
        vec![
            "DFC_MATCH_ID=42",
            "DFC_PLAYER_SLOT=2",
            "DFC_PLAYER_ID=8",
            "DFC_GAME_MODE=ranked",
            "DFC_WAGER_AMOUNT=100.0",
            "DFC_TIMEOUT=300",
        ]
    );
}

#[test]
fn containers_are_confined() {
    let host = spec(1, 1).host;
    assert_eq!(host.memory, 2147483648);
    assert_eq!(host.nano_cpus, 2000000000);
    assert_eq!(host.pids_limit, 512);
    assert_eq!(host.security_opt, vec!["no-new-privileges"]);
    assert_eq!(host.cap_drop, vec!["ALL"]);
    assert_eq!(
        host.cap_add,
        vec![
            "NET_BIND_SERVICE",
            "NET_ADMIN",
            "SETUID",
            "SETGID",
            "CHOWN",
            "DAC_OVERRIDE",
            "SYS_CHROOT",
            "KILL",
            "FOWNER",
            "AUDIT_WRITE",
        ]
    );
    assert_eq!(host.container_port, "22/tcp");
    assert_eq!(host.host_ip, "127.0.0.1");
    assert_eq!(host.host_port, "0");
}

#[test]
fn limits_beyond_the_signed_range_wrap() {
    let manager = DockerManager::new(DockerConfig {
        image: "i".to_string(),
        max_concurrent: 1,
        memory_limit: u64::MAX,
        cpu_limit: 1u64 << 63,
    });
    let c = manager.spawn_gladiator(1, 1, EnvVars::new());
    assert_eq!(c.host.memory, -1);
    assert_eq!(c.host.nano_cpus, i64::MIN);
    assert!(c.env.is_empty());
}

#[test]
fn variables_are_set_once() {
    let env = EnvVars::new()
        .with("A", "1".to_string())
        .with("B", "2".to_string())
        .with("A", "3".to_string());
    assert_eq!(env.assignments(), vec!["A=3", "B=2"]);
    assert_eq!(env.get("A").unwrap(), "3");
    assert!(!env.contains_key("C"));
}

#[test]
fn ssh_ports_are_found() {
    assert_eq!(
        ssh_port(&inspected(vec![
            entry("80/tcp", vec![Some("1")]),
            entry("22/tcp", vec![Some("49153"), Some("2")]),
        ])),
        Some(49153)
    );
    assert_eq!(ssh_port(&inspected(vec![entry("22/tcp", vec![Some("65535")])])), Some(65535));
    assert_eq!(ssh_port(&inspected(vec![entry("22/tcp", vec![Some("+22")])])), Some(22));
}

#[test]
fn missing_ssh_ports_are_noticed() {
    for ports in [
        vec![],
        vec![entry("22/udp", vec![Some("1")])],
        vec![entry("22/tcp", vec![])],
        vec![entry("22/tcp", vec![None, Some("1")])],
        vec![entry("22/tcp", vec![Some("65536")])],
        vec![entry("22/tcp", vec![Some("")])],
        vec![entry("22/tcp", vec![Some("-1")])],
        vec![PortEntry {
            port: "22/tcp".to_string(),
            bindings: None,
        }],
    ] {
        assert_eq!(ssh_port(&inspected(ports)), None);
    }
    assert_eq!(
        ssh_port(&InspectedContainer {
            running: None,
            ports: None
        }),
        None
    );
}

#[test]
fn spawning_goes_step_by_step() {
    let m = manager();
    match m.spawn_next(SpawnEvent::Created(Ok("abc".to_string()))) {
        SpawnStep::Start { container_id } => assert_eq!(container_id, "abc"),
        _ => panic!("a created container is started"),
    }
    match m.spawn_next(SpawnEvent::Started {
        container_id: "abc".to_string(),
        result: Ok(()),
    }) {
        SpawnStep::Inspect { container_id } => assert_eq!(container_id, "abc"),
        _ => panic!("a started container is inspected"),
    }
    match m.spawn_next(SpawnEvent::Inspected {
        container_id: "abc".to_string(),
        info: Ok(inspected(vec![entry("22/tcp", vec![Some("2222")])])),
    }) {
        SpawnStep::Spawned(c) => assert_eq!(
            c,
            SpawnedContainer {
                container_id: "abc".to_string(),
                ssh_port: 2222
            }
        ),
        _ => panic!("the container is spawned"),
    }
}

#[test]
fn spawning_fails_with_its_first_failure() {
    let m = manager();
    let id = || "abc".to_string();
    let no = || "no".to_string();
    for (event, message, left) in [
        (SpawnEvent::Created(Err(no())), "no", None),
        (
            SpawnEvent::Started {
                container_id: id(),
                result: Err(no()),
            },
            "no",
            Some(id()),
        ),
        (
            SpawnEvent::Inspected {
                container_id: id(),
                info: Err(no()),
            },
            "no",
            Some(id()),
        ),
        (
            SpawnEvent::Inspected {
                container_id: id(),
                info: Ok(inspected(vec![])),
            },
            "Failed to get SSH port binding",
            Some(id()),
        ),
    ] {
        match m.spawn_next(event) {
            SpawnStep::Failed {
                error,
                container_id,
            } => {
                assert_eq!(error.message(), message);
                assert_eq!(container_id, left);
            }
            _ => panic!("spawning fails"),
        }
    }
    assert_eq!(SpawnError::NoSshPort.message(), "Failed to get SSH port binding");
}

#[test]
fn containers_are_stopped_and_removed() {
    let m = manager();
    let id = || "abc".to_string();
    match m.kill_container(KillEvent::Begin { container_id: id() }) {
        KillStep::Stop {
            container_id,
            timeout_seconds,
        } => {
            assert_eq!(container_id, "abc");
            assert_eq!(timeout_seconds, 5);
        }
        _ => panic!("the container is stopped first"),
    }
    for ok in [true, false] {
        match m.kill_container(KillEvent::Stopped {
            container_id: id(),
            ok,
        }) {
            KillStep::Remove {
                container_id,
                force,
            } => {
                assert_eq!(container_id, "abc");
                assert!(force);
            }
            _ => panic!("the container is removed next"),
        }
        let removed = KillEvent::Removed {
            container_id: id(),
            ok,
        };
        assert!(matches!(m.kill_container(removed), KillStep::Done));
    }
}

#[test]
fn containers_run_only_if_the_daemon_says_so() {
    let m = manager();
    let state = |running| {
        Some(InspectedContainer {
            running,
            ports: None,
        })
    };
    assert!(m.is_running(state(Some(Some(true)))));
    assert!(!m.is_running(state(Some(Some(false)))));
    assert!(!m.is_running(state(Some(None))));
    assert!(!m.is_running(state(None)));
    assert!(!m.is_running(None));
}

#[test]
fn missing_images_are_pulled() {
    let m = manager();
    assert!(matches!(
        m.ensure_image(ImageEvent::Inspected { found: true }),
        ImageStep::Ready
    ));
    match m.ensure_image(ImageEvent::Inspected { found: false }) {
        ImageStep::Pull { image } => assert_eq!(image, "dfc-gladiator:armed"),
        _ => panic!("the image is pulled"),
    }
    assert!(matches!(
        m.ensure_image(ImageEvent::Pulled(Ok(()))),
        ImageStep::Ready
    ));
}

#[test]
fn images_that_cannot_be_pulled_are_reported() {
    match manager().ensure_image(ImageEvent::Pulled(Err("no such image".to_string()))) {
        ImageStep::Failed(e) => assert_eq!(
            e,
            "Image 'dfc-gladiator:armed' not found. Pull or build it first: docker pull dfc-gladiator:armed"
        ),
        _ => panic!("the image is missing"),
    }
}
