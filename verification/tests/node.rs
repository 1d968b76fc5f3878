use dfc_node::auth::wallet::{wallet_address, SigningKey};
use dfc_node::config::{
    load_config, Config, ConfigFile, CoordinatorConfig, EnvOverrides, HardwareSection,
    WalletConfig,
};
use dfc_node::node::{node_identity, warns_of_plain_http};

fn config(gpu: bool) -> Config {
    load_config(
        ConfigFile {
            coordinator: CoordinatorConfig {
                url: "https://api.dfc.gg".to_string(),
            },
            wallet: WalletConfig {
                keypair_path: "key.json".to_string(),
            },
            docker: None,
            hardware: Some(HardwareSection {
                gpu: Some(gpu),
                cpu_cores: Some(8),
                memory_gb: None,
            }),
        },
        EnvOverrides {
            coordinator_url: None,
            wallet_keypair: None,
            docker_image: None,
        },
    )
}

fn key() -> SigningKey {
    SigningKey::from_bytes(&[3; 32])
}

#[test]
fn plain_http_is_warned_of_outside_beta() {
    assert!(warns_of_plain_http("http://localhost:3001", false));
    assert!(!warns_of_plain_http("http://localhost:3001", true));
    assert!(!warns_of_plain_http("https://api.dfc.gg", false));
    assert!(!warns_of_plain_http("http:/", false));
    assert!(!warns_of_plain_http("", false));
}

#[test]
fn identities_outside_beta() {
    let id = node_identity(
        &config(true),
        false,
        key(),
        Some("eu".to_string()),
        Some("1.2.3.4".to_string()),
    );
    assert_eq!(id.wallet_address, wallet_address(&key()));
    assert_eq!(id.hardware.cpu_cores, 8);
    assert_eq!(id.hardware.memory_gb, 16);
    assert_eq!(id.hardware.storage_gb, 100);
    assert_eq!(id.hardware.gpu_model, Some("unknown".to_string()));
    assert_eq!(id.region, "eu");
    assert_eq!(id.public_ip, "1.2.3.4");
    assert_eq!(id.stake_amount, "0");
}

#[test]
fn identities_in_beta() {
    let id = node_identity(&config(false), true, key(), None, None);
    assert_eq!(id.hardware.gpu_model, None);
    assert_eq!(id.region, "unknown");
    assert_eq!(id.public_ip, "unknown");
    assert_eq!(id.stake_amount, "0.00000000");
}
