use dfc_node::config::{
    docker_config, hardware_config, load_config, Config, ConfigFile, CoordinatorConfig,
    DockerConfig, DockerSection, EnvOverrides, HardwareConfig, HardwareSection, WalletConfig,
};

fn text(table: &toml::Table, key: &str) -> Option<String> {
    table.get(key).and_then(|v| v.as_str()).map(|s| s.to_string())
}

fn number(table: &toml::Table, key: &str) -> Option<i64> {
    table.get(key).and_then(|v| v.as_integer())
}

fn section<'a>(table: &'a toml::Table, key: &str) -> Option<&'a toml::Table> {
    table.get(key).and_then(|v| v.as_table())
}

fn no_env() -> EnvOverrides {
    EnvOverrides {
        coordinator_url: None,
        wallet_keypair: None,
        docker_image: None,
    }
}

/// What a configuration file says.
fn file_of(contents: &str) -> ConfigFile {
    let table: toml::Table = toml::from_str(contents).unwrap();
    ConfigFile {
        coordinator: CoordinatorConfig {
            url: text(section(&table, "coordinator").unwrap(), "url").unwrap(),
        },
        wallet: WalletConfig {
            keypair_path: text(section(&table, "wallet").unwrap(), "keypair_path").unwrap(),
        },
        docker: section(&table, "docker").map(|s| DockerSection {
            image: text(s, "image"),
            max_concurrent: number(s, "max_concurrent").map(|n| n as u32),
            memory_limit: number(s, "memory_limit").map(|n| n as u64),
            cpu_limit: number(s, "cpu_limit").map(|n| n as u64),
        }),
        hardware: section(&table, "hardware").map(|s| HardwareSection {
            gpu: s.get("gpu").and_then(|v| v.as_bool()),
            cpu_cores: number(s, "cpu_cores").map(|n| n as u32),
            memory_gb: number(s, "memory_gb").map(|n| n as u32),
        }),
    }
}

fn parse(contents: &str) -> Config {
    load_config(file_of(contents), no_env())
}

#[test]
fn parse_minimal_config() {
    let toml = r#"
        [coordinator]
        url = "https://api.dfc.gg"
        [wallet]
        keypair_path = "/home/user/.config/solana/id.json"
    "#;
    let config = parse(toml);
    assert_eq!(config.coordinator.url, "https://api.dfc.gg");
    assert_eq!(config.docker.max_concurrent, 2);
    assert_eq!(config.hardware.cpu_cores, 4);
    assert_eq!(config.wallet.keypair_path, "/home/user/.config/solana/id.json");
    assert_eq!(config.docker, DockerConfig::default());
    assert_eq!(config.hardware, HardwareConfig::default());
}

#[test]
fn parse_full_config() {
    let toml = r#"
        [coordinator]
        url = "http://localhost:3001"
        [wallet]
        keypair_path = "./test-key.json"
        [docker]
        image = "dfc-gladiator:test"
        max_concurrent = 4
        memory_limit = 4294967296
        cpu_limit = 4000000000
        [hardware]
        gpu = true
        cpu_cores = 8
        memory_gb = 32
    "#;
    let config = parse(toml);
    assert_eq!(config.docker.image, "dfc-gladiator:test");
    assert_eq!(config.docker.max_concurrent, 4);
    assert!(config.hardware.gpu);
    assert_eq!(config.hardware.cpu_cores, 8);
    assert_eq!(config.docker.memory_limit, 4294967296);
    assert_eq!(config.docker.cpu_limit, 4000000000);
    assert_eq!(config.hardware.memory_gb, 32);
}

#[test]
fn partial_sections_are_completed() {
    let config = parse(
        r#"
        [coordinator]
        url = "u"
        [wallet]
        keypair_path = "k"
        [docker]
        max_concurrent = 7
        [hardware]
        gpu = true
    "#,
    );
    assert_eq!(
        config.docker,
        DockerConfig {
            image: "dfc-gladiator:armed".to_string(),
            max_concurrent: 7,
            memory_limit: 2147483648,
            cpu_limit: 2000000000,
        }
    );
    assert_eq!(
        config.hardware,
        HardwareConfig {
            gpu: true,
            cpu_cores: 4,
            memory_gb: 16,
        }
    );
}

#[test]
fn environment_wins_over_the_file() {
    let toml = r#"
        [coordinator]
        url = "file-url"
        [wallet]
        keypair_path = "file-key"
        [docker]
        image = "file-image"
        max_concurrent = 9
    "#;
    let all = load_config(
        file_of(toml),
        EnvOverrides {
            coordinator_url: Some("env-url".to_string()),
            wallet_keypair: Some("env-key".to_string()),
            docker_image: Some("env-image".to_string()),
        },
    );
    assert_eq!(all.coordinator.url, "env-url");
    assert_eq!(all.wallet.keypair_path, "env-key");
    assert_eq!(all.docker.image, "env-image");
    assert_eq!(all.docker.max_concurrent, 9);

    let one = load_config(
        file_of(toml),
        EnvOverrides {
            wallet_keypair: Some("env-key".to_string()),
            ..no_env()
        },
    );
    assert_eq!(one.coordinator.url, "file-url");
    assert_eq!(one.wallet.keypair_path, "env-key");
    assert_eq!(one.docker.image, "file-image");
}

#[test]
fn absent_sections_are_the_defaults() {
    assert_eq!(docker_config(None), DockerConfig::default());
    assert_eq!(hardware_config(None), HardwareConfig::default());
    assert_eq!(DockerConfig::default().image, "dfc-gladiator:armed");
    assert_eq!(DockerConfig::default().max_concurrent, 2);
    assert_eq!(DockerConfig::default().memory_limit, 2 * 1024 * 1024 * 1024);
    assert_eq!(DockerConfig::default().cpu_limit, 2_000_000_000);
    assert!(!HardwareConfig::default().gpu);
    assert_eq!(HardwareConfig::default().memory_gb, 16);
}
