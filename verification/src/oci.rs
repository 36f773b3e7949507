//! The image-configuration data model: an OCI-style description of an
//! image's runtime configuration, authored by caller logic for the terminal
//! report or decoded from the bytes that an image resolution returns.

use vstd::prelude::*;

verus! {

/// A target machine architecture.
#[derive(Clone, Copy, Debug, PartialEq, Eq, Structural)]
pub enum Architecture {
    Amd64,
    Arm,
    Arm64,
    I386,
    Ppc64le,
    S390x,
}

/// The canonical lowercase name of an architecture.
pub open spec fn spec_architecture_name(a: Architecture) -> Seq<char> {
    match a {
        Architecture::Amd64 => "amd64"@,
        Architecture::Arm => "arm"@,
        Architecture::Arm64 => "arm64"@,
        Architecture::I386 => "386"@,
        Architecture::Ppc64le => "ppc64le"@,
        Architecture::S390x => "s390x"@,
    }
}

impl Architecture {
    /// The canonical lowercase name of this architecture.
    pub fn name(&self) -> (r: String)
        ensures
            r@ == spec_architecture_name(*self),
    {
        match self {
            Architecture::Amd64 => "amd64".to_owned(),
            Architecture::Arm => "arm".to_owned(),
            Architecture::Arm64 => "arm64".to_owned(),
            Architecture::I386 => "386".to_owned(),
            Architecture::Ppc64le => "ppc64le".to_owned(),
            Architecture::S390x => "s390x".to_owned(),
        }
    }
}

/// A target operating system.
#[derive(Clone, Copy, Debug, PartialEq, Eq, Structural)]
pub enum OperatingSystem {
    Linux,
    Windows,
    Darwin,
}

/// The canonical lowercase name of an operating system.
pub open spec fn spec_os_name(o: OperatingSystem) -> Seq<char> {
    match o {
        OperatingSystem::Linux => "linux"@,
        OperatingSystem::Windows => "windows"@,
        OperatingSystem::Darwin => "darwin"@,
    }
}

impl OperatingSystem {
    /// The canonical lowercase name of this operating system.
    pub fn name(&self) -> (r: String)
        ensures
            r@ == spec_os_name(*self),
    {
        match self {
            OperatingSystem::Linux => "linux".to_owned(),
            OperatingSystem::Windows => "windows".to_owned(),
            OperatingSystem::Darwin => "darwin".to_owned(),
        }
    }
}

/// The runtime configuration section of an image specification; every field
/// is individually optional.
#[derive(Clone, Debug)]
pub struct ImageConfig {
    pub entrypoint: Option<Vec<String>>,
    pub cmd: Option<Vec<String>>,
    pub env: Option<Vec<String>>,
    pub user: Option<String>,
    pub working_dir: Option<String>,
    pub labels: Option<Vec<(String, String)>>,
    pub volumes: Option<Vec<String>>,
    pub exposed_ports: Option<Vec<String>>,
    pub stop_signal: Option<String>,
}

impl ImageConfig {
    /// A configuration with nothing set.
    pub fn new() -> (r: ImageConfig)
        ensures
            r.entrypoint is None,
            r.cmd is None,
            r.env is None,
            r.user is None,
            r.working_dir is None,
            r.labels is None,
            r.volumes is None,
            r.exposed_ports is None,
            r.stop_signal is None,
    {
        ImageConfig {
            entrypoint: None,
            cmd: None,
            env: None,
            user: None,
            working_dir: None,
            labels: None,
            volumes: None,
            exposed_ports: None,
            stop_signal: None,
        }
    }
}

/// The root file system of an image: its layer digests in order.
#[derive(Clone, Debug)]
pub struct RootFs {
    pub fs_type: String,
    pub diff_ids: Vec<String>,
}

/// One entry of an image's build history.
#[derive(Clone, Debug)]
pub struct HistoryItem {
    pub created: Option<String>,
    pub author: Option<String>,
    pub created_by: Option<String>,
    pub comment: Option<String>,
    pub empty_layer: bool,
}

/// A parsed OCI-style image configuration.
#[derive(Clone, Debug)]
pub struct ImageSpecification {
    pub created: Option<String>,
    pub author: Option<String>,
    pub architecture: Architecture,
    pub os: OperatingSystem,
    pub config: Option<ImageConfig>,
    pub rootfs: Option<RootFs>,
    pub history: Option<Vec<HistoryItem>>,
}

} // verus!
