//! Laws of the configuration, the wallet and what a node says of itself.

use crate::auth::base58;
use crate::auth::wallet;
use crate::auth::wallet::{
    keypair_from_bytes, load_keypair, sign_message, wallet_address, wrong_length_message,
};
use crate::auth::wallet::{KeypairError, SigningKey};
use crate::config::{docker_config, hardware_config, load_config};
use crate::config::{
    Config, ConfigFile, DockerConfig, DockerSection, EnvOverrides, HardwareConfig, HardwareSection,
};
use crate::heartbeat::ReauthConfig;
use crate::node::{announced_hardware, node_identity, warns_of_plain_http};
use crate::text;
use crate::types::NodeHardwareSpecs;
use vstd::prelude::*;
use vstd::string::*;

verus! {

/// Law: a container configuration is what its section sets; what it does not set is the image
/// `dfc-gladiator:armed`, two matches at once, 2 GiB of memory and two cores.
pub proof fn container_settings_have_defaults(section: Option<DockerSection>, r: DockerConfig)
    requires
        call_ensures(docker_config, (section,), r),
    ensures
        section is Some && section->0.image is Some ==> r.image@ == section->0.image->0@,
        section is None || section->0.image is None ==> r.image@ == "dfc-gladiator:armed"@,
        section is Some && section->0.max_concurrent is Some ==> r.max_concurrent
            == section->0.max_concurrent->0,
        section is None || section->0.max_concurrent is None ==> r.max_concurrent == 2,
        section is Some && section->0.memory_limit is Some ==> r.memory_limit
            == section->0.memory_limit->0,
        section is None || section->0.memory_limit is None ==> r.memory_limit == 2 * 1024 * 1024
            * 1024,
        section is Some && section->0.cpu_limit is Some ==> r.cpu_limit == section->0.cpu_limit->0,
        section is None || section->0.cpu_limit is None ==> r.cpu_limit == 2 * 1_000_000_000,
{
}

/// Law: declared hardware is what its section sets; what it does not set is no graphics card,
/// four cores and 16 GB.
pub proof fn hardware_settings_have_defaults(section: Option<HardwareSection>, r: HardwareConfig)
    requires
        call_ensures(hardware_config, (section,), r),
    ensures
        section is Some && section->0.gpu is Some ==> r.gpu == section->0.gpu->0,
        section is None || section->0.gpu is None ==> !r.gpu,
        section is Some && section->0.cpu_cores is Some ==> r.cpu_cores == section->0.cpu_cores->0,
        section is None || section->0.cpu_cores is None ==> r.cpu_cores == 4,
        section is Some && section->0.memory_gb is Some ==> r.memory_gb == section->0.memory_gb->0,
        section is None || section->0.memory_gb is None ==> r.memory_gb == 16,
{
}

/// Law: what is configured without a section is what an empty one configures, and the default.
pub proof fn absent_sections_are_defaults(
    docker: DockerConfig,
    hardware: HardwareConfig,
    d: DockerConfig,
    h: HardwareConfig,
)
    requires
        call_ensures(docker_config, (None,), docker),
        call_ensures(hardware_config, (None,), hardware),
        call_ensures(<DockerConfig as Default>::default, (), d),
        call_ensures(<HardwareConfig as Default>::default, (), h),
    ensures
        docker.image@ == d.image@,
        docker.max_concurrent == d.max_concurrent,
        docker.memory_limit == d.memory_limit,
        docker.cpu_limit == d.cpu_limit,
        hardware == h,
{
}

/// Law: the environment overrides the file. Each of the three variables, if it is set, replaces
/// what it names and nothing else; everything else is what the file says.
pub proof fn the_environment_overrides_the_file(
    file: ConfigFile,
    env: EnvOverrides,
    r: Config,
    docker: DockerConfig,
    hardware: HardwareConfig,
)
    requires
        call_ensures(load_config, (file, env), r),
        call_ensures(docker_config, (file.docker,), docker),
        call_ensures(hardware_config, (file.hardware,), hardware),
    ensures
        env.coordinator_url is Some ==> r.coordinator.url@ == env.coordinator_url->0@,
        env.coordinator_url is None ==> r.coordinator.url@ == file.coordinator.url@,
        env.wallet_keypair is Some ==> r.wallet.keypair_path@ == env.wallet_keypair->0@,
        env.wallet_keypair is None ==> r.wallet.keypair_path@ == file.wallet.keypair_path@,
        env.docker_image is Some ==> r.docker.image@ == env.docker_image->0@,
        env.docker_image is None ==> r.docker.image@ == docker.image@,
        r.docker.max_concurrent == docker.max_concurrent,
        r.docker.memory_limit == docker.memory_limit,
        r.docker.cpu_limit == docker.cpu_limit,
        r.hardware == hardware,
{
}

/// Law: a keypair has 64 bytes, of which the first 32 are the key; any other number of bytes is
/// refused and named.
pub proof fn keys_are_the_first_half_of_keypairs(
    bytes: &Vec<u8>,
    r: Result<SigningKey, KeypairError>,
)
    requires
        call_ensures(keypair_from_bytes, (bytes,), r),
    ensures
        r is Ok <==> bytes@.len() == 64,
        r matches Ok(key) ==> forall|secret: [u8; 32]| #[trigger]
            call_ensures(SigningKey::to_bytes, (&key,), secret) ==> forall|i: int|
                0 <= i < 32 ==> secret@[i] == bytes@[i],
        r matches Err(e) ==> (e matches KeypairError::Length(n) && n == bytes@.len()),
{
}

/// Law: a keypair file is a JSON array of the bytes of a keypair: it is read as those bytes are,
/// and refused if it is not such an array.
pub proof fn keypair_files_list_keypairs(
    contents: &str,
    bytes: &Vec<u8>,
    r: Result<SigningKey, KeypairError>,
    q: Result<SigningKey, KeypairError>,
)
    requires
        call_ensures(load_keypair, (contents,), r),
        call_ensures(keypair_from_bytes, (bytes,), q),
    ensures
        wallet::json_bytes(contents@) is None ==> (r matches Err(e) && e is Json),
        wallet::json_bytes(contents@) == Some(bytes@) ==> {
            &&& r is Ok <==> q is Ok
            &&& r is Ok ==> r->Ok_0@ == q->Ok_0@
            &&& r is Err ==> r == q
        },
{
}

/// Law: a key has the bytes that it was made of.
pub proof fn keys_keep_their_bytes(secret: &[u8; 32], key: SigningKey, bytes: [u8; 32])
    requires
        call_ensures(SigningKey::from_bytes, (secret,), key),
        call_ensures(SigningKey::to_bytes, (&key,), bytes),
    ensures
        bytes@ == secret@,
{
}

/// Law: the length of a refused keypair is told in decimal.
pub proof fn refused_lengths_are_told(got: usize, r: String)
    requires
        call_ensures(wrong_length_message, (got,), r),
    ensures
        r@ == "Expected 64-byte keypair, got "@ + text::decimal(got as nat) + " bytes"@,
{
}

/// Law: an address is the public key of its key, and a signature that of its key and message:
/// no other bytes have these texts, and the signature is accepted for the message under the key
/// that the address stands for.
pub proof fn addresses_and_signatures_belong_together(
    keypair: &SigningKey,
    message: &str,
    address: String,
    signature: String,
    key: Seq<u8>,
    bytes: [u8; 64],
    accepted: bool,
)
    requires
        call_ensures(wallet_address, (keypair,), address),
        call_ensures(sign_message, (keypair, message), signature),
        call_ensures(SigningKey::verify, (keypair, message, &bytes), accepted),
        base58::base58(key) == address@,
        base58::base58(bytes@) == signature@,
    ensures
        accepted,
        key == wallet::ed25519_public_key(keypair@),
        key.len() == 32,
        bytes@ == wallet::ed25519_signature(keypair@, vstd::utf8::encode_utf8(message@)),
        wallet::ed25519_verifies(key, vstd::utf8::encode_utf8(message@), bytes@),
        32 <= address@.len() <= 44,
        64 <= signature@.len() <= 88,
{
    base58::base58_injective(
        bytes@,
        wallet::ed25519_signature(keypair@, vstd::utf8::encode_utf8(message@)),
    );
}

/// Law: the operator is warned exactly if the address begins with `http://` and the node is not
/// in beta mode.
pub proof fn plain_http_is_warned_of(url: &str, beta: bool, r: bool)
    requires
        call_ensures(warns_of_plain_http, (url, beta), r),
    ensures
        r <==> !beta && exists|rest: Seq<char>| url@ == #[trigger] ("http://"@ + rest),
{
    let p = "http://"@;
    if text::starts_with_text(url@, p) {
        assert(url@ =~= p + url@.skip(p.len() as int));
    }
    if exists|rest: Seq<char>| url@ == #[trigger] (p + rest) {
        let rest = choose|rest: Seq<char>| url@ == #[trigger] (p + rest);
        assert(url@.take(p.len() as int) =~= p);
    }
}

/// Law: the hardware that is announced is what is configured, with 100 GB of storage and, if
/// there is a graphics card, an unknown one.
pub proof fn configured_hardware_is_announced(hardware: &HardwareConfig, r: NodeHardwareSpecs)
    requires
        call_ensures(announced_hardware, (hardware,), r),
    ensures
        r.cpu_cores == hardware.cpu_cores,
        r.memory_gb == hardware.memory_gb,
        r.storage_gb == 100,
        r.gpu_model is Some <==> hardware.gpu,
        r.gpu_model is Some ==> r.gpu_model->0@ == "unknown"@,
{
}

/// Law: a node says of itself the address of its own wallet, its hardware, its region and public
/// address as far as they were found, and a stake of nothing, which in beta mode is written out
/// to eight places.
pub proof fn nodes_say_who_they_are(
    config: &Config,
    beta: bool,
    keypair: SigningKey,
    region: Option<String>,
    public_ip: Option<String>,
    r: ReauthConfig,
    address: String,
    hardware: NodeHardwareSpecs,
)
    requires
        call_ensures(node_identity, (config, beta, keypair, region, public_ip), r),
        call_ensures(wallet_address, (&keypair,), address),
        call_ensures(announced_hardware, (&config.hardware,), hardware),
    ensures
        r.wallet_address@ == address@,
        r.keypair == keypair,
        r.hardware.cpu_cores == hardware.cpu_cores,
        r.hardware.memory_gb == hardware.memory_gb,
        r.hardware.storage_gb == hardware.storage_gb,
        r.hardware.gpu_model is Some <==> hardware.gpu_model is Some,
        r.hardware.gpu_model is Some ==> r.hardware.gpu_model->0@ == hardware.gpu_model->0@,
        region is Some ==> r.region@ == region->0@,
        region is None ==> r.region@ == "unknown"@,
        public_ip is Some ==> r.public_ip@ == public_ip->0@,
        public_ip is None ==> r.public_ip@ == "unknown"@,
        beta ==> r.stake_amount@ == "0.00000000"@,
        !beta ==> r.stake_amount@ == "0"@,
{
}

} // verus!
