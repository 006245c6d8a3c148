//! Packages, install configurations and receipts. The install pipeline itself
//! refuses every request.

use vstd::prelude::*;
use vstd::string::StringExecFns;

use crate::clock::Timestamp;
use crate::table::Table;
use crate::text;

verus! {

/// Errors returned by [`SandboxInstaller`].
#[derive(Clone, Debug)]
pub enum InstallError {
    /// The sandbox could not be created or entered.
    SandboxFailed(String),
    /// The package attempted a network operation that the policy forbids.
    NetworkBlocked,
    /// The HAL refused to grant one or more of the requested capabilities.
    HalDenied,
    /// The package's integrity check failed.
    IntegrityCheckFailed(String),
    /// The target prefix does not have enough free space for the install.
    DiskFull,
}

impl InstallError {
    /// The error as one line.
    pub fn to_text(&self) -> (t: String)
        ensures
            t@ == (match *self {
                InstallError::SandboxFailed(e) => "sandbox setup failed: "@ + e@,
                InstallError::NetworkBlocked => "network blocked by policy"@,
                InstallError::HalDenied => "HAL denied capability grant"@,
                InstallError::IntegrityCheckFailed(e) => "integrity check failed: "@ + e@,
                InstallError::DiskFull => "disk full on target prefix"@,
            }),
    {
        match self {
            InstallError::SandboxFailed(e) => String::from_str("sandbox setup failed: ").concat(
                e.as_str(),
            ),
            InstallError::NetworkBlocked => String::from_str("network blocked by policy"),
            InstallError::HalDenied => String::from_str("HAL denied capability grant"),
            InstallError::IntegrityCheckFailed(e) => String::from_str(
                "integrity check failed: ",
            ).concat(e.as_str()),
            InstallError::DiskFull => String::from_str("disk full on target prefix"),
        }
    }
}

/// A capability that an installed package requests.
#[derive(Clone, Copy, Debug, PartialEq, Eq, Structural, Hash)]
pub enum Capability {
    /// Read access to the user's home directory.
    ReadHome,
    /// Write access to the user's home directory.
    WriteHome,
    /// Outbound network access (subject to [`NetPolicy`]).
    Network,
    /// Access to audio capture / playback devices.
    Audio,
    /// Access to camera devices.
    Camera,
    /// Access to GPU compute.
    Gpu,
    /// Permission to spawn child processes.
    Spawn,
    /// Permission to read system telemetry (CPU, memory, sensors).
    ReadTelemetry,
}

/// Network policy applied to the install sandbox.
#[derive(Clone, Debug)]
pub enum NetPolicy {
    /// No network access at all.
    Disabled,
    /// Only the listed host:port endpoints may be contacted.
    ApiOnly(Vec<String>),
    /// Full outbound network. Reserved for trusted first-party installers.
    Full,
}

impl Default for NetPolicy {
    fn default() -> (p: NetPolicy)
        ensures
            p == NetPolicy::Disabled,
    {
        NetPolicy::Disabled
    }
}

/// Where a package is sourced from.
#[derive(Clone, Debug)]
pub enum PackageSource {
    /// `apt-get install` style package.
    Apt,
    /// Flatpak remote.
    Flatpak,
    /// Snap store / snap file.
    Snap,
    /// AppImage single-file executable.
    AppImage,
    /// A local file path (already on disk, no fetch required).
    Local(String),
}

/// A package to install or upgrade.
#[derive(Clone, Debug)]
pub struct PackageRef {
    /// Package name, e.g. `ripgrep` or `com.spotify.Client`.
    pub name: String,
    /// Version string as understood by the source.
    pub version: String,
    /// Where the package comes from.
    pub source: PackageSource,
}

/// Configuration for a [`SandboxInstaller`].
#[derive(Clone, Debug)]
pub struct InstallConfig {
    /// Where the package is fetched from (used for logging only).
    pub package_source: PackageSource,
    /// Filesystem prefix where the package's files will land.
    pub target_prefix: String,
    /// Capabilities the installer is willing to request on a package's behalf.
    pub capabilities: Vec<Capability>,
    /// Network policy for the install sandbox.
    pub network: NetPolicy,
    /// Host directories exposed read-only into the sandbox.
    pub fs_roots: Vec<String>,
}

/// Whether a configuration is the one that holds unless another is given: a
/// local package, no capability, no network and three read-only roots.
pub open spec fn is_default_config(c: InstallConfig) -> bool {
    &&& c.package_source matches PackageSource::Local(p) && p@ == Seq::<char>::empty()
    &&& c.target_prefix@ == "/opt/cognos/pkgs"@
    &&& c.capabilities@ == Seq::<Capability>::empty()
    &&& c.network == NetPolicy::Disabled
    &&& text::texts(c.fs_roots@) == seq!["/usr"@, "/lib"@, "/etc/resolv.conf"@]
}

impl Default for InstallConfig {
    fn default() -> (c: InstallConfig)
        ensures
            is_default_config(c),
    {
        let fs_roots = vec![
            String::from_str("/usr"),
            String::from_str("/lib"),
            String::from_str("/etc/resolv.conf"),
        ];
        assert(text::texts(fs_roots@) =~= seq!["/usr"@, "/lib"@, "/etc/resolv.conf"@]);
        InstallConfig {
            package_source: PackageSource::Local(String::new()),
            target_prefix: String::from_str("/opt/cognos/pkgs"),
            capabilities: Vec::new(),
            network: NetPolicy::default(),
            fs_roots,
        }
    }
}

/// Proof that an install happened.
#[derive(Clone, Debug)]
pub struct InstallReceipt {
    /// Unique receipt id.
    pub id: u128,
    /// Package that was installed.
    pub package: PackageRef,
    /// Version string recorded at install time.
    pub version: String,
    /// Every file the installer wrote.
    pub installed_files: Vec<String>,
    /// Capabilities the HAL actually granted.
    pub capabilities_granted: Vec<Capability>,
    /// Identifier of the sandbox that ran the install.
    pub sandbox_id: u128,
    /// When the install completed.
    pub timestamp: Timestamp,
}

/// Result of [`SandboxInstaller::verify`].
#[derive(Clone, Debug)]
pub struct VerifyReport {
    /// Receipt that was checked.
    pub receipt_id: u128,
    /// Whether the install is as the receipt says.
    pub intact: bool,
    /// Files that were missing or modified since install.
    pub modified_files: Vec<String>,
    /// Capabilities still granted at verify time.
    pub capabilities_active: Vec<Capability>,
    /// When the verify ran.
    pub checked_at: Timestamp,
}

/// The sandboxes that an installer created.
#[derive(Debug)]
pub struct SandboxRunner {
    /// The ids of the sandboxes.
    sandboxes: Table<u128, ()>,
}

impl Default for SandboxRunner {
    fn default() -> (r: SandboxRunner)
        ensures
            r.created()@ == Map::<u128, ()>::empty(),
    {
        SandboxRunner { sandboxes: Table::new() }
    }
}

impl SandboxRunner {
    /// The sandboxes that were created.
    pub closed spec fn created(&self) -> Table<u128, ()> {
        self.sandboxes
    }

    /// A runner without sandboxes.
    pub fn new() -> (r: SandboxRunner)
        ensures
            r.created()@ == Map::<u128, ()>::empty(),
    {
        SandboxRunner::default()
    }
}

/// Whether a result is that a sandbox failed with a message.
pub open spec fn sandbox_failed<T>(r: Result<T, InstallError>, message: Seq<char>) -> bool {
    r matches Err(InstallError::SandboxFailed(m)) && m@ == message
}

/// Package installation inside an isolated sandbox.
#[derive(Debug)]
pub struct SandboxInstaller {
    /// Install configuration (prefix, capabilities, network policy, ...).
    pub config: InstallConfig,
    /// Underlying sandbox runner.
    pub runner: SandboxRunner,
}

impl SandboxInstaller {
    /// An installer with a configuration.
    pub fn new(config: InstallConfig) -> (i: SandboxInstaller)
        ensures
            i.config == config,
            i.runner.created()@ == Map::<u128, ()>::empty(),
    {
        SandboxInstaller { config, runner: SandboxRunner::new() }
    }

    /// Installs a package. There is no install pipeline, so every package is
    /// refused.
    pub fn install(&self, _pkg: PackageRef) -> (r: Result<InstallReceipt, InstallError>)
        ensures
            sandbox_failed(r, "install pipeline not implemented in v0"@),
    {
        Err(InstallError::SandboxFailed(String::from_str("install pipeline not implemented in v0")))
    }

    /// Uninstalls the package of a receipt. There is no uninstall pipeline, so
    /// every receipt is refused.
    pub fn uninstall(&self, _receipt: InstallReceipt) -> (r: Result<(), InstallError>)
        ensures
            sandbox_failed(r, "uninstall pipeline not implemented in v0"@),
    {
        Err(
            InstallError::SandboxFailed(
                String::from_str("uninstall pipeline not implemented in v0"),
            ),
        )
    }

    /// Reports on the install of a receipt at a time: no file is looked at, and
    /// the install is called intact.
    pub fn verify_at(&self, receipt: InstallReceipt, now: Timestamp) -> (r: Result<
        VerifyReport,
        InstallError,
    >)
        ensures
            r matches Ok(v) && v.receipt_id == receipt.id && v.intact && v.modified_files@ == Seq::<
                String,
            >::empty() && v.capabilities_active == receipt.capabilities_granted && v.checked_at
                == now,
    {
        Ok(
            VerifyReport {
                receipt_id: receipt.id,
                intact: true,
                modified_files: Vec::new(),
                capabilities_active: receipt.capabilities_granted,
                checked_at: now,
            },
        )
    }

    /// Reports on the install of a receipt, now.
    pub fn verify(&self, receipt: InstallReceipt) -> (r: Result<VerifyReport, InstallError>)
        ensures
            r matches Ok(v) && v.receipt_id == receipt.id && v.intact && v.modified_files@ == Seq::<
                String,
            >::empty() && v.capabilities_active == receipt.capabilities_granted,
    {
        self.verify_at(receipt, Timestamp::now())
    }

    /// Reads a receipt. Receipts cannot be read, so every path is refused.
    pub fn load_receipt(_path: &str) -> (r: Result<InstallReceipt, InstallError>)
        ensures
            sandbox_failed(r, "receipt loading not implemented in v0"@),
    {
        Err(InstallError::SandboxFailed(String::from_str("receipt loading not implemented in v0")))
    }
}

impl Default for SandboxInstaller {
    fn default() -> (i: SandboxInstaller)
        ensures
            is_default_config(i.config),
            i.runner.created()@ == Map::<u128, ()>::empty(),
    {
        SandboxInstaller::new(InstallConfig::default())
    }
}

/// By default nothing reaches the network, no capability is given, packages go
/// to `/opt/cognos/pkgs`, and three roots can be read.
pub proof fn defaults_are_closed(c: InstallConfig)
    requires
        is_default_config(c),
    ensures
        c.network == NetPolicy::Disabled,
        c.capabilities@.len() == 0,
        c.target_prefix@ == "/opt/cognos/pkgs"@,
        c.package_source is Local,
        c.fs_roots@.len() == 3,
        c.fs_roots@[0]@ == "/usr"@,
        c.fs_roots@[1]@ == "/lib"@,
        c.fs_roots@[2]@ == "/etc/resolv.conf"@,
{
    let t = text::texts(c.fs_roots@);
    assert(t.len() == 3);
    assert(t[0] == "/usr"@ && t[1] == "/lib"@ && t[2] == "/etc/resolv.conf"@);
    assert(t[0] == c.fs_roots@[0]@ && t[1] == c.fs_roots@[1]@ && t[2] == c.fs_roots@[2]@);
}

} // verus!
