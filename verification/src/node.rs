//! What a node decides once, when it starts.

use crate::auth::wallet;
use crate::auth::wallet::{wallet_address, SigningKey};
use crate::config;
use crate::config::Config;
use crate::heartbeat::ReauthConfig;
use crate::text;
use crate::text::starts_with;
use crate::types::NodeHardwareSpecs;
use vstd::prelude::*;
use vstd::string::*;

verus! {

/// The storage that every node announces, in GB.
pub const STORAGE_GB: u32 = 100;

/// Whether the operator has to be warned that tokens and signatures travel unencrypted: the
/// coordinator is addressed by plain HTTP, and the node is not in beta mode.
pub fn warns_of_plain_http(url: &str, beta: bool) -> (r: bool)
    ensures
        r == (text::starts_with_text(url@, "http://"@) && !beta),
{
    !beta && starts_with(url, "http://")
}

/// A value that was found, or else `unknown`.
pub open spec fn or_unknown(r: String, found: Option<String>) -> bool {
    match found {
        Some(value) => r == value,
        None => r@ == "unknown"@,
    }
}

fn known(found: Option<String>) -> (r: String)
    ensures
        or_unknown(r, found),
{
    match found {
        Some(value) => value,
        None => "unknown".to_string(),
    }
}

/// The hardware that is announced for a hardware configuration.
pub fn announced_hardware(hardware: &config::HardwareConfig) -> (r: NodeHardwareSpecs)
    ensures
        r.cpu_cores == hardware.cpu_cores,
        r.memory_gb == hardware.memory_gb,
        r.storage_gb == 100,
        hardware.gpu ==> (r.gpu_model matches Some(model) && model@ == "unknown"@),
        !hardware.gpu ==> r.gpu_model is None,
{
    NodeHardwareSpecs {
        cpu_cores: hardware.cpu_cores,
        memory_gb: hardware.memory_gb,
        storage_gb: STORAGE_GB,
        gpu_model: if hardware.gpu {
            Some("unknown".to_string())
        } else {
            None
        },
    }
}

/// What the node says of itself whenever it registers: the address of its wallet, its hardware,
/// the region and the public address that were found, and its stake, which is nominal in beta
/// mode.
pub fn node_identity(
    config: &Config,
    beta: bool,
    keypair: SigningKey,
    region: Option<String>,
    public_ip: Option<String>,
) -> (r: ReauthConfig)
    ensures
        r.wallet_address@ == wallet::address_text(keypair@),
        r.keypair == keypair,
        r.hardware.cpu_cores == config.hardware.cpu_cores,
        r.hardware.memory_gb == config.hardware.memory_gb,
        r.hardware.storage_gb == 100,
        config.hardware.gpu ==> (r.hardware.gpu_model matches Some(model) && model@
            == "unknown"@),
        !config.hardware.gpu ==> r.hardware.gpu_model is None,
        or_unknown(r.region, region),
        or_unknown(r.public_ip, public_ip),
        beta ==> r.stake_amount@ == "0.00000000"@,
        !beta ==> r.stake_amount@ == "0"@,
{
    let stake_amount = if beta {
        "0.00000000".to_string()
    } else {
        "0".to_string()
    };
    ReauthConfig {
        wallet_address: wallet_address(&keypair),
        keypair,
        hardware: announced_hardware(&config.hardware),
        region: known(region),
        public_ip: known(public_ip),
        stake_amount,
    }
}

} // verus!
