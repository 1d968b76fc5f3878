//! Node configuration: what the configuration file says, completed by defaults and overridden
//! by the environment.

use vstd::prelude::*;

verus! {

/// A complete configuration.
#[derive(Debug, PartialEq, Eq)]
pub struct Config {
    pub coordinator: CoordinatorConfig,
    pub wallet: WalletConfig,
    pub docker: DockerConfig,
    pub hardware: HardwareConfig,
}

/// Where the coordinator is.
#[derive(Debug, PartialEq, Eq)]
pub struct CoordinatorConfig {
    pub url: String,
}

/// Where the wallet's keypair file is.
#[derive(Debug, PartialEq, Eq)]
pub struct WalletConfig {
    pub keypair_path: String,
}

/// How gladiator containers are run.
#[derive(Debug, PartialEq, Eq)]
pub struct DockerConfig {
    pub image: String,
    pub max_concurrent: u32,
    pub memory_limit: u64,
    pub cpu_limit: u64,
}

impl Clone for DockerConfig {
    fn clone(&self) -> (r: Self)
        ensures
            r == *self,
    {
        DockerConfig {
            image: self.image.clone(),
            max_concurrent: self.max_concurrent,
            memory_limit: self.memory_limit,
            cpu_limit: self.cpu_limit,
        }
    }
}

/// The hardware that the operator declares.
#[derive(Debug, PartialEq, Eq)]
pub struct HardwareConfig {
    pub gpu: bool,
    pub cpu_cores: u32,
    pub memory_gb: u32,
}

/// The `[docker]` section of a configuration file: a key that is absent is `None`.
#[derive(Debug, PartialEq, Eq)]
pub struct DockerSection {
    pub image: Option<String>,
    pub max_concurrent: Option<u32>,
    pub memory_limit: Option<u64>,
    pub cpu_limit: Option<u64>,
}

/// The `[hardware]` section of a configuration file: a key that is absent is `None`.
#[derive(Debug, PartialEq, Eq)]
pub struct HardwareSection {
    pub gpu: Option<bool>,
    pub cpu_cores: Option<u32>,
    pub memory_gb: Option<u32>,
}

/// A configuration file as written: the coordinator and the wallet are mandatory, the other
/// two sections may be absent.
#[derive(Debug, PartialEq, Eq)]
pub struct ConfigFile {
    pub coordinator: CoordinatorConfig,
    pub wallet: WalletConfig,
    pub docker: Option<DockerSection>,
    pub hardware: Option<HardwareSection>,
}

/// The environment variables that override the file, as far as they are set:
/// `DFC_COORDINATOR_URL`, `DFC_WALLET_KEYPAIR` and `DFC_DOCKER_IMAGE`.
#[derive(Debug, PartialEq, Eq)]
pub struct EnvOverrides {
    pub coordinator_url: Option<String>,
    pub wallet_keypair: Option<String>,
    pub docker_image: Option<String>,
}

/// Whether `d` is the default container configuration.
pub open spec fn is_default_docker(d: DockerConfig) -> bool {
    &&& d.image@ == "dfc-gladiator:armed"@
    &&& d.max_concurrent == 2
    &&& d.memory_limit == 2_147_483_648
    &&& d.cpu_limit == 2_000_000_000
}

/// The default hardware declaration.
pub open spec fn default_hardware() -> HardwareConfig {
    HardwareConfig { gpu: false, cpu_cores: 4, memory_gb: 16 }
}

/// The value that is set, or else the default.
pub open spec fn or_default<T>(value: Option<T>, default: T) -> T {
    match value {
        Some(v) => v,
        None => default,
    }
}

impl Default for DockerConfig {
    fn default() -> (r: Self)
        ensures
            is_default_docker(r),
    {
        DockerConfig {
            image: default_image(),
            max_concurrent: default_max_concurrent(),
            memory_limit: default_memory_limit(),
            cpu_limit: default_cpu_limit(),
        }
    }
}

impl Default for HardwareConfig {
    fn default() -> (r: Self)
        ensures
            r == default_hardware(),
    {
        HardwareConfig {
            gpu: false,
            cpu_cores: default_cpu_cores(),
            memory_gb: default_memory_gb(),
        }
    }
}

/// The gladiator image that is run unless another is configured.
pub fn default_image() -> (r: String)
    ensures
        r@ == "dfc-gladiator:armed"@,
{
    "dfc-gladiator:armed".to_string()
}

/// How many matches run at once unless another number is configured.
pub fn default_max_concurrent() -> (r: u32)
    ensures
        r == 2,
{
    2
}

/// Memory per container, in bytes, unless another limit is configured: 2 GiB.
pub fn default_memory_limit() -> (r: u64)
    ensures
        r == 2_147_483_648,
{
    2 * 1024 * 1024 * 1024
}

/// Processor time per container, in billionths of a core, unless another limit is configured:
/// two cores.
pub fn default_cpu_limit() -> (r: u64)
    ensures
        r == 2_000_000_000,
{
    2_000_000_000
}

/// The number of cores that is declared unless another is configured.
pub fn default_cpu_cores() -> (r: u32)
    ensures
        r == 4,
{
    4
}

/// The memory, in GB, that is declared unless another size is configured.
pub fn default_memory_gb() -> (r: u32)
    ensures
        r == 16,
{
    16
}

/// The container configuration that a `[docker]` section stands for: each key that is set is
/// taken over, each that is absent gets its default.
pub fn docker_config(section: Option<DockerSection>) -> (r: DockerConfig)
    ensures
        section is None ==> is_default_docker(r),
        section matches Some(s) ==> {
            &&& match s.image {
                Some(image) => r.image == image,
                None => r.image@ == "dfc-gladiator:armed"@,
            }
            &&& r.max_concurrent == or_default(s.max_concurrent, 2)
            &&& r.memory_limit == or_default(s.memory_limit, 2_147_483_648)
            &&& r.cpu_limit == or_default(s.cpu_limit, 2_000_000_000)
        },
{
    match section {
        None => DockerConfig::default(),
        Some(s) => DockerConfig {
            image: match s.image {
                Some(image) => image,
                None => default_image(),
            },
            max_concurrent: match s.max_concurrent {
                Some(n) => n,
                None => default_max_concurrent(),
            },
            memory_limit: match s.memory_limit {
                Some(n) => n,
                None => default_memory_limit(),
            },
            cpu_limit: match s.cpu_limit {
                Some(n) => n,
                None => default_cpu_limit(),
            },
        },
    }
}

/// The hardware declaration that a `[hardware]` section stands for.
pub fn hardware_config(section: Option<HardwareSection>) -> (r: HardwareConfig)
    ensures
        section is None ==> r == default_hardware(),
        section matches Some(s) ==> r == (HardwareConfig {
            gpu: or_default(s.gpu, false),
            cpu_cores: or_default(s.cpu_cores, 4),
            memory_gb: or_default(s.memory_gb, 16),
        }),
{
    match section {
        None => HardwareConfig::default(),
        Some(s) => HardwareConfig {
            gpu: match s.gpu {
                Some(gpu) => gpu,
                None => false,
            },
            cpu_cores: match s.cpu_cores {
                Some(n) => n,
                None => default_cpu_cores(),
            },
            memory_gb: match s.memory_gb {
                Some(n) => n,
                None => default_memory_gb(),
            },
        },
    }
}

/// The configuration that results from a file and the environment: an override that is set
/// wins over the file, the file wins over the defaults, and everything that no override names
/// is what file and defaults give.
pub fn load_config(file: ConfigFile, env: EnvOverrides) -> (r: Config)
    ensures
        r.coordinator.url == or_default(env.coordinator_url, file.coordinator.url),
        r.wallet.keypair_path == or_default(env.wallet_keypair, file.wallet.keypair_path),
        match env.docker_image {
            Some(image) => r.docker.image == image,
            None => match file.docker {
                Some(DockerSection { image: Some(image), .. }) => r.docker.image == image,
                _ => r.docker.image@ == "dfc-gladiator:armed"@,
            },
        },
        r.docker.max_concurrent == match file.docker {
            Some(s) => or_default(s.max_concurrent, 2),
            None => 2,
        },
        r.docker.memory_limit == match file.docker {
            Some(s) => or_default(s.memory_limit, 2_147_483_648),
            None => 2_147_483_648,
        },
        r.docker.cpu_limit == match file.docker {
            Some(s) => or_default(s.cpu_limit, 2_000_000_000),
            None => 2_000_000_000,
        },
        r.hardware == match file.hardware {
            Some(s) => (HardwareConfig {
                gpu: or_default(s.gpu, false),
                cpu_cores: or_default(s.cpu_cores, 4),
                memory_gb: or_default(s.memory_gb, 16),
            }),
            None => default_hardware(),
        },
{
    let mut config = Config {
        coordinator: file.coordinator,
        wallet: file.wallet,
        docker: docker_config(file.docker),
        hardware: hardware_config(file.hardware),
    };
    if let Some(url) = env.coordinator_url {
        config.coordinator.url = url;
    }
    if let Some(path) = env.wallet_keypair {
        config.wallet.keypair_path = path;
    }
    if let Some(image) = env.docker_image {
        config.docker.image = image;
    }
    config
}

} // verus!
