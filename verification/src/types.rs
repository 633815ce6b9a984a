//! The plain data types of the installer: screens, focus, popups and the
//! records that the user builds up (partitions, repositories, users,
//! packages).
use vstd::prelude::*;

verus! {

/// A section of the installer, reached from the menu.
#[derive(Clone, Copy, Debug, PartialEq, Eq, Structural)]
pub enum Screen {
    Overview,
    Locales,
    MirrorsRepos,
    Disks,
    DiskEncryption,
    SwapPartition,
    Bootloader,
    UnifiedKernelImages,
    Hostname,
    RootPassword,
    UserAccount,
    ExperienceMode,
    Audio,
    Kernels,
    NetworkConfiguration,
    AdditionalPackages,
    Timezone,
    AutomaticTimeSync,
    SaveConfiguration,
    Install,
    Abort,
}

/// Which pane takes the keyboard.
#[derive(Clone, Copy, Debug, PartialEq, Eq, Structural)]
pub enum Focus {
    Menu,
    Content,
}

/// The kind of the popup on screen.
#[derive(Clone, Copy, Debug, PartialEq, Eq, Structural)]
pub enum PopupKind {
    KeyboardLayout,
    LocaleLanguage,
    LocaleEncoding,
    MirrorsRegions,
    OptionalRepos,
    AurHelperSelect,
    KernelSelect,
    AdditionalPackageGroupSelect,
    AdditionalPackageGroupPackages,
    MirrorsCustomServerInput,
    MirrorsCustomRepoName,
    MirrorsCustomRepoUrl,
    MirrorsCustomRepoSig,
    MirrorsCustomRepoSignOpt,
    DisksDeviceList,
    DiskEncryptionType,
    DiskEncryptionPassword,
    DiskEncryptionPasswordConfirm,
    DiskEncryptionPartitionList,
    AbortConfirm,
    Info,
    HostnameInput,
    RootPassword,
    RootPasswordConfirm,
    UserAddUsername,
    UserAddPassword,
    UserAddPasswordConfirm,
    UserAddSudo,
    DesktopEnvSelect,
    ServerTypeSelect,
    XorgTypeSelect,
    MinimalClearConfirm,
}

/// One entry of the left-hand menu.
pub struct MenuEntry {
    pub label: String,
    pub content: String,
    pub screen: Screen,
}

/// One partition that the user laid out by hand.
#[derive(Clone)]
pub struct DiskPartitionSpec {
    /// The device the partition belongs to (`None`: any device).
    pub name: Option<String>,
    pub role: Option<String>,
    pub fs: Option<String>,
    pub start: Option<String>,
    pub size: Option<String>,
    pub flags: Vec<String>,
    pub mountpoint: Option<String>,
    pub encrypt: Option<bool>,
}

/// How strictly a custom repository's signatures are checked.
#[derive(Clone, Copy, Debug, PartialEq, Eq, Structural)]
pub enum RepoSignature {
    Never,
    Optional,
    Required,
}

/// Which keys a custom repository's signatures may come from.
#[derive(Clone, Copy, Debug, PartialEq, Eq, Structural)]
pub enum RepoSignOption {
    TrustedOnly,
    TrustedAll,
}

/// A package repository that the user added.
pub struct CustomRepo {
    pub name: String,
    pub url: String,
    pub signature: RepoSignature,
    pub sign_option: Option<RepoSignOption>,
}

/// A user account to create.
pub struct UserAccount {
    pub username: String,
    pub password: String,
    pub is_sudo: bool,
}

/// A package that the user asked for by name.
pub struct AdditionalPackage {
    pub name: String,
    pub repo: String,
    pub version: String,
    pub description: String,
}

} // verus!
