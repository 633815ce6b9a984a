//! The installer's state: every choice the user has made so far, the
//! popup on screen, and the progress of a running installation.
use vstd::prelude::*;
use vstd::string::*;
use std::collections::BTreeSet;
use crate::sets::{StringSet, StringSetMap};
use crate::text::{
    first_match,
    has_prefix, join, join_with, lines_of, owned, parse_u64, parsed_u64, split_lines, split_words,
    str_starts_with, words_of,
};
use crate::types::{
    AdditionalPackage, CustomRepo, DiskPartitionSpec, Focus, MenuEntry, PopupKind, Screen,
    UserAccount,
};

verus! {

broadcast use {vstd::std_specs::btree::group_btree_axioms, vstd::laws_cmp::group_laws_cmp};

/// Everything the installer knows about the system it will install.
pub struct AppState {
    pub dry_run: bool,
    /// Enable extra debug logging
    pub debug_enabled: bool,
    pub menu_entries: Vec<MenuEntry>,
    pub selected_index: usize,
    pub info_message: String,
    pub focus: Focus,
    /// The machine booted through UEFI firmware.
    pub firmware_uefi: bool,
    pub cmdline_open: bool,
    pub cmdline_buffer: String,
    pub config_focus_index: usize,
    pub last_load_missing_sections: Vec<String>,
    pub toast_message: Option<String>,
    /// Locales screen: keyboard layout, language and encoding.
    pub locales: LocaleState,
    /// The popup on screen and its input buffer.
    pub popup: PopupState,
    /// Disk Partitioning screen: the target drive and its layout.
    pub disks: DiskState,
    /// Manual partitioning: the create-partition popup.
    pub manual: ManualPartitionState,
    /// Mirrors and Repositories screen.
    pub mirrors: MirrorState,
    /// Disk Encryption screen.
    pub encryption: EncryptionState,
    /// Swap, unified kernel images, bootloader and kernels.
    pub boot: BootState,
    /// Audio and Network Configuration screens.
    pub network: NetworkState,
    /// Experience Mode: desktops, servers, Xorg, drivers, login manager.
    pub experience: ExperienceState,
    /// Hostname, Timezone and Automatic Time Sync screens.
    pub system: SystemState,
    /// Root Password and User Account screens.
    pub accounts: AccountState,
    /// Additional Packages screen and its groups.
    pub packages: PackageState,
    /// Installation progress and its log.
    pub install: InstallState,
}

/// Locales screen: keyboard layout, language and encoding.
pub struct LocaleState {
    pub locales_focus_index: usize,
    pub keyboard_layout_options: Vec<String>,
    pub keyboard_layout_index: usize,
    pub locale_language_options: Vec<String>,
    pub locale_language_index: usize,
    pub locale_encoding_options: Vec<String>,
    pub locale_encoding_index: usize,
    /// Pairs of (language, encoding); a language is looked up by its first pair.
    pub locale_language_to_encoding: Vec<(String, String)>,
    pub locales_loaded: bool,
    pub editing_locales: bool,
    pub draft_keyboard_layout_index: usize,
    pub draft_locale_language_index: usize,
    pub draft_locale_encoding_index: usize,
}

/// The popup on screen and its input buffer.
pub struct PopupState {
    pub popup_open: bool,
    pub popup_kind: Option<PopupKind>,
    pub popup_items: Vec<String>,
    pub popup_visible_indices: Vec<usize>,
    pub popup_selected_visible: usize,
    pub popup_in_search: bool,
    pub popup_search_query: String,
    pub custom_input_buffer: String,
    pub popup_packages_focus: bool,
    pub popup_packages_selected_index: usize,
    pub popup_drivers_focus: bool,
    pub popup_drivers_selected_index: usize,
    pub popup_login_focus: bool,
    pub popup_login_selected_index: usize,
}

/// Disk Partitioning screen: the target drive and its layout.
pub struct DiskState {
    pub disks_focus_index: usize,
    pub disks_mode_index: usize,
    pub disks_selected_device: Option<String>,
    pub disks_selected_device_model: Option<String>,
    pub disks_selected_device_devtype: Option<String>,
    pub disks_selected_device_size: Option<String>,
    pub disks_selected_device_freespace: Option<String>,
    pub disks_selected_device_sector_size: Option<String>,
    pub disks_selected_device_read_only: Option<bool>,
    pub disks_label: Option<String>,
    pub disks_wipe: bool,
    pub disks_align: Option<String>,
    pub disks_partitions: Vec<DiskPartitionSpec>,
}

/// Manual partitioning: the create-partition popup.
pub struct ManualPartitionState {
    pub manual_create_units_index: usize,
    pub manual_create_free_start_bytes: u64,
    pub manual_create_free_end_bytes: u64,
    pub manual_create_selected_size_bytes: u64,
    pub manual_create_focus_units: bool,
    pub manual_create_kind_index: usize,
    pub manual_create_fs_options: Vec<String>,
    pub manual_create_fs_index: usize,
    pub manual_create_mountpoint: String,
    pub manual_edit_index: Option<usize>,
}

/// Mirrors and Repositories screen.
pub struct MirrorState {
    pub mirrors_focus_index: usize,
    pub mirrors_regions_options: Vec<String>,
    pub mirrors_regions_selected: BTreeSet<usize>,
    pub mirrors_loaded: bool,
    pub optional_repos_options: Vec<String>,
    pub optional_repos_selected: BTreeSet<usize>,
    pub mirrors_custom_servers: Vec<String>,
    pub custom_repos: Vec<CustomRepo>,
    pub draft_repo_name: String,
    pub draft_repo_url: String,
    pub draft_repo_sig_index: usize,
    pub draft_repo_signopt_index: usize,
    /// The AUR repo option was chosen
    pub aur_selected: bool,
    /// 0: yay, 1: paru
    pub aur_helper_index: Option<usize>,
}

/// Disk Encryption screen.
pub struct EncryptionState {
    pub diskenc_focus_index: usize,
    /// 0: None, 1: LUKS
    pub disk_encryption_type_index: usize,
    pub disk_encryption_password: String,
    pub disk_encryption_password_confirm: String,
    pub diskenc_reopen_after_info: bool,
    pub disk_encryption_selected_partition: Option<String>,
}

/// Swap, unified kernel images, bootloader and kernels.
pub struct BootState {
    pub swap_focus_index: usize,
    pub swap_enabled: bool,
    pub swap_size_gb: u32,
    pub uki_focus_index: usize,
    pub uki_enabled: bool,
    pub bootloader_focus_index: usize,
    /// 0: systemd-boot, 1: grub, 2: efistub, 3: limine
    pub bootloader_index: usize,
    pub kernels_focus_index: usize,
    pub selected_kernels: StringSet,
}

/// Audio and Network Configuration screens.
pub struct NetworkState {
    pub audio_focus_index: usize,
    /// 0: None, 1: pipewire, 2: pulseaudio
    pub audio_index: usize,
    pub network_focus_index: usize,
    /// 0: Copy ISO, 1: Manual, 2: NetworkManager
    pub network_mode_index: usize,
    pub network_selected_interface: Option<String>,
    pub network_draft_mode_static: bool,
    pub network_draft_ip_cidr: String,
    pub network_draft_gateway: String,
    pub network_draft_dns: String,
    pub network_reopen_after_info_ip: bool,
    pub network_reopen_after_info_gateway: bool,
    pub network_reopen_after_info_dns: bool,
}

/// Experience Mode: desktops, servers, Xorg, drivers, login manager.
pub struct ExperienceState {
    pub experience_focus_index: usize,
    /// 0: Desktop, 1: Minimal, 2: Server, 3: Xorg
    pub experience_mode_index: usize,
    pub selected_desktop_envs: StringSet,
    pub selected_server_types: StringSet,
    pub selected_server_packages: StringSetMap,
    pub selected_xorg_types: StringSet,
    pub selected_xorg_packages: StringSetMap,
    pub selected_env_packages: StringSetMap,
    pub selected_graphic_drivers: StringSet,
    /// None means no login manager
    pub selected_login_manager: Option<String>,
    pub login_manager_user_set: bool,
}

/// Hostname, Timezone and Automatic Time Sync screens.
pub struct SystemState {
    pub hostname_focus_index: usize,
    pub hostname_value: String,
    pub hostname_reopen_after_info: bool,
    pub timezone_focus_index: usize,
    pub timezone_value: String,
    pub ats_focus_index: usize,
    pub ats_enabled: bool,
}

/// Root Password and User Account screens.
pub struct AccountState {
    pub rootpass_focus_index: usize,
    pub root_password: String,
    pub root_password_confirm: String,
    pub root_password_hash: Option<String>,
    pub rootpass_reopen_after_info: bool,
    pub user_focus_index: usize,
    pub users: Vec<UserAccount>,
    pub selected_user_index: usize,
    pub draft_user_username: String,
    pub draft_user_password: String,
    pub draft_user_password_confirm: String,
    pub draft_user_is_sudo: bool,
    pub username_reopen_after_info: bool,
    pub userpass_reopen_after_info: bool,
    pub useredit_reopen_after_info: bool,
}

/// Additional Packages screen and its groups.
pub struct PackageState {
    pub addpkgs_focus_index: usize,
    pub additional_packages: Vec<AdditionalPackage>,
    pub addpkgs_selected_index: usize,
    pub addpkgs_selected: BTreeSet<usize>,
    pub addpkgs_reopen_after_info: bool,
    pub addpkgs_group_focus: bool,
    pub addpkgs_group_names: Vec<String>,
    pub addpkgs_group_index: usize,
    pub addpkgs_group_pkg_index: usize,
    pub addpkgs_group_pkg_selected: StringSet,
    pub addpkgs_group_accum_selected: StringSet,
    pub addpkgs_group_selected: StringSetMap,
}

/// Installation progress and its log.
pub struct InstallState {
    /// True if a real install completed (not dry-run)
    pub install_completed: bool,
    pub reboot_prompt_open: bool,
    pub reboot_confirmed: Option<bool>,
    /// For visual indicator: last seen install_log length
    pub last_install_log_len: Option<usize>,
    pub pending_wipe_confirm: Option<bool>,
    pub install_running: bool,
    pub install_log: Vec<String>,
    pub install_section_titles: Vec<String>,
    pub install_section_done: Vec<bool>,
    pub install_current_section: Option<usize>,
    pub exit_tui_after_install: bool,
    pub pending_install_sections: Option<Vec<(String, Vec<String>)>>,
    pub install_focus_index: usize,
}

/// The screens of the menu, top to bottom.
pub open spec fn menu_screens() -> Seq<Screen> {
    seq![Screen::Overview, Screen::Locales, Screen::MirrorsRepos, Screen::Disks, Screen::DiskEncryption, Screen::SwapPartition, Screen::Bootloader, Screen::UnifiedKernelImages, Screen::Hostname, Screen::RootPassword, Screen::UserAccount, Screen::ExperienceMode, Screen::Audio, Screen::Kernels, Screen::NetworkConfiguration, Screen::AdditionalPackages, Screen::Timezone, Screen::AutomaticTimeSync, Screen::SaveConfiguration, Screen::Install, Screen::Abort]
}

/// The labels of the menu, top to bottom.
pub open spec fn menu_labels() -> Seq<Seq<char>> {
    seq!["Overview"@, "Locales"@, "Mirrors and Repositories"@, "Disk Partitioning"@, "Disk Encryption"@, "Swap Partition"@, "Bootloader"@, "Unified Kernel Images"@, "Hostname"@, "Root Password"@, "User Account"@, "Experience Mode"@, "Audio"@, "Kernels"@, "Network Configuration"@, "Additional Packages"@, "Timezone"@, "Automatic Time Sync"@, "Configuration"@, "Install"@, "Abort (Ctrl + C)"@]
}

/// The texts shown beside the menu entries, top to bottom.
pub open spec fn menu_contents() -> Seq<Seq<char>> {
    seq!["Welcome to archinstall-rs. Use Up/Down, Enter"@, ""@, ""@, ""@, ""@, ""@, ""@, ""@, ""@, ""@, ""@, ""@, ""@, ""@, "Network setup and status."@, "Package selection and groups."@, ""@, ""@, ""@, "Review and start installation."@, ""@]
}

/// The graphics drivers selected for a desktop until the user changes them.
pub open spec fn default_graphic_drivers() -> Seq<Seq<char>> {
    seq!["intel-media-driver"@, "libva-intel-driver"@, "mesa"@, "vulkan-intel"@, "vulkan-nouveau"@, "vulkan-radeon"@, "xf86-video-amdgpu"@, "xf86-video-ati"@, "xf86-video-nouveau"@, "xorg-server"@, "xorg-xinit"@]
}

/// The packages selected for KDE Plasma until the user changes them.
pub open spec fn kde_default_packages() -> Seq<Seq<char>> {
    seq!["ark"@, "dolphin"@, "kate"@, "konsole"@, "plasma-meta"@, "plasma-workspace"@, "htop"@, "iwd"@, "nano"@, "openssh"@, "smartmontools"@, "vim"@, "wget"@, "wireless_tools"@, "wpa_supplicant"@, "xdg-utils"@]
}

/// The groups offered by the Additional Packages screen.
pub open spec fn package_group_names() -> Seq<Seq<char>> {
    seq!["Terminals"@, "Shells"@, "Browsers"@, "Text Editors"@, "dotfile Management"@]
}

/// A text set holds exactly the texts of a list.
pub open spec fn holds_exactly(set: Seq<Seq<char>>, list: Seq<Seq<char>>) -> bool {
    forall|x: Seq<char>| set.contains(x) <==> list.contains(x)
}

fn menu_entry(label: &str, content: &str, screen: Screen) -> (e: MenuEntry)
    ensures
        e.label@ == label@,
        e.content@ == content@,
        e.screen == screen,
{
    MenuEntry { label: owned(label), content: owned(content), screen }
}

fn string_set_of(items: &[&str]) -> (s: StringSet)
    ensures
        forall|x: Seq<char>| s@.contains(x) <==> exists|i: int| 0 <= i < items@.len() && items@[i]@ == x,
{
    let mut s = StringSet::new();
    let mut i: usize = 0;
    while i < items.len()
        invariant
            i <= items@.len(),
            forall|x: Seq<char>| s@.contains(x) <==> exists|k: int| 0 <= k < i && items@[k]@ == x,
        decreases items@.len() - i,
    {
        let item: &str = items[i];
        s.insert(owned(item));
        proof {
            assert forall|x: Seq<char>| s@.contains(x) <==> exists|k: int| 0 <= k < i + 1 && items@[k]@ == x by {
                if x == items@[i as int]@ {
                    assert(0 <= i < i + 1 && items@[i as int]@ == x);
                }
            }
        }
        i = i + 1;
    }
    s
}

fn menu() -> (v: Vec<MenuEntry>)
    ensures
        v@.len() == menu_screens().len(),
        forall|i: int| 0 <= i < v@.len() ==> v@[i].screen == menu_screens()[i] && v@[i].label@ == menu_labels()[i] && v@[i].content@ == menu_contents()[i],
{
    let mut v: Vec<MenuEntry> = Vec::new();
    v.push(menu_entry("Overview", "Welcome to archinstall-rs. Use Up/Down, Enter", Screen::Overview));
    v.push(menu_entry("Locales", "", Screen::Locales));
    v.push(menu_entry("Mirrors and Repositories", "", Screen::MirrorsRepos));
    v.push(menu_entry("Disk Partitioning", "", Screen::Disks));
    v.push(menu_entry("Disk Encryption", "", Screen::DiskEncryption));
    v.push(menu_entry("Swap Partition", "", Screen::SwapPartition));
    v.push(menu_entry("Bootloader", "", Screen::Bootloader));
    v.push(menu_entry("Unified Kernel Images", "", Screen::UnifiedKernelImages));
    v.push(menu_entry("Hostname", "", Screen::Hostname));
    v.push(menu_entry("Root Password", "", Screen::RootPassword));
    v.push(menu_entry("User Account", "", Screen::UserAccount));
    v.push(menu_entry("Experience Mode", "", Screen::ExperienceMode));
    v.push(menu_entry("Audio", "", Screen::Audio));
    v.push(menu_entry("Kernels", "", Screen::Kernels));
    v.push(menu_entry("Network Configuration", "Network setup and status.", Screen::NetworkConfiguration));
    v.push(menu_entry("Additional Packages", "Package selection and groups.", Screen::AdditionalPackages));
    v.push(menu_entry("Timezone", "", Screen::Timezone));
    v.push(menu_entry("Automatic Time Sync", "", Screen::AutomaticTimeSync));
    v.push(menu_entry("Configuration", "", Screen::SaveConfiguration));
    v.push(menu_entry("Install", "Review and start installation.", Screen::Install));
    v.push(menu_entry("Abort (Ctrl + C)", "", Screen::Abort));
    proof {
        assert forall|i: int| 0 <= i < v@.len() implies v@[i].screen == menu_screens()[i] && v@[i].label@ == menu_labels()[i] && v@[i].content@ == menu_contents()[i] by {
        }
    }
    v
}

impl AppState {
    /// The state at start-up: nothing chosen yet but the defaults.
    /// `swap_size_gb` is the recommended swap size for the machine's
    /// memory and `uefi` tells whether it booted through UEFI.
    pub fn new(dry_run: bool, swap_size_gb: u32, uefi: bool) -> (s: Self)
        ensures
            s.dry_run == dry_run,
            s.boot.swap_size_gb == swap_size_gb,
            s.firmware_uefi == uefi,
            s.install.install_completed == false,
            s.install.reboot_prompt_open == false,
            s.install.reboot_confirmed == None::<bool>,
            s.install.last_install_log_len == None::<usize>,
            s.debug_enabled == false,
            s.menu_entries@.len() == menu_screens().len(),
            forall|i: int| 0 <= i < s.menu_entries@.len() ==> s.menu_entries@[i].screen == menu_screens()[i] && s.menu_entries@[i].label@ == menu_labels()[i] && s.menu_entries@[i].content@ == menu_contents()[i],
            s.selected_index == 0,
            s.info_message@ == Seq::<char>::empty(),
            s.focus == Focus::Menu,
            s.locales.keyboard_layout_options@.len() == 0,
            s.locales.locale_language_options@.len() == 0,
            s.locales.locale_encoding_options@.len() == 0,
            s.locales.locale_language_to_encoding@.len() == 0,
            s.locales.keyboard_layout_index == 0 && s.locales.locale_language_index == 0 && s.locales.locale_encoding_index == 0,
            s.locales.draft_keyboard_layout_index == 0 && s.locales.draft_locale_language_index == 0 && s.locales.draft_locale_encoding_index == 0,
            s.locales.locales_loaded == false && s.locales.editing_locales == false,
            s.popup.popup_open == false,
            s.popup.popup_kind == None::<PopupKind>,
            s.popup.popup_items@.len() == 0,
            s.popup.popup_visible_indices@.len() == 0,
            s.popup.popup_selected_visible == 0,
            s.popup.popup_in_search == false,
            s.popup.popup_search_query@ == Seq::<char>::empty(),
            s.cmdline_open == false && s.cmdline_buffer@ == Seq::<char>::empty(),
            s.disks.disks_focus_index == 0 && s.disks.disks_mode_index == 0,
            s.disks.disks_selected_device == None::<String>,
            s.disks.disks_label matches Some(l) && l@ == "gpt"@,
            s.disks.disks_wipe == true,
            s.disks.disks_align matches Some(a) && a@ == "1MiB"@,
            s.disks.disks_partitions@.len() == 0,
            s.mirrors.mirrors_regions_options@.len() == 0,
            s.mirrors.mirrors_regions_selected@ == Set::<usize>::empty(),
            s.mirrors.mirrors_loaded == false,
            s.mirrors.optional_repos_options.deep_view() == seq!["multilib"@, "testing"@, "AUR"@],
            s.mirrors.optional_repos_selected@ == set![0usize],
            s.mirrors.mirrors_custom_servers@.len() == 0,
            s.popup.custom_input_buffer@ == Seq::<char>::empty(),
            s.mirrors.custom_repos@.len() == 0,
            s.mirrors.draft_repo_sig_index == 2 && s.mirrors.draft_repo_signopt_index == 0,
            s.mirrors.aur_selected == false,
            s.mirrors.aur_helper_index == None::<usize>,
            s.encryption.disk_encryption_type_index == 0,
            s.encryption.disk_encryption_password@ == Seq::<char>::empty(),
            s.encryption.disk_encryption_password_confirm@ == Seq::<char>::empty(),
            s.boot.swap_enabled == true,
            s.boot.uki_enabled == false,
            s.boot.bootloader_focus_index == 0 && s.boot.bootloader_index == 0,
            s.boot.selected_kernels@ == seq!["linux"@],
            s.network.audio_index == 1,
            s.network.network_mode_index == 2,
            s.experience.experience_focus_index == 0 && s.experience.experience_mode_index == 0,
            s.experience.selected_desktop_envs@ == seq!["KDE Plasma"@],
            s.experience.selected_server_types@.len() == 0,
            s.experience.selected_server_packages@ == Map::<Seq<char>, Seq<Seq<char>>>::empty(),
            s.experience.selected_xorg_types@.len() == 0,
            s.experience.selected_xorg_packages@ == Map::<Seq<char>, Seq<Seq<char>>>::empty(),
            s.experience.selected_env_packages@.dom() == set!["KDE Plasma"@],
            holds_exactly(s.experience.selected_env_packages@["KDE Plasma"@], kde_default_packages()),
            holds_exactly(s.experience.selected_graphic_drivers@, default_graphic_drivers()),
            s.popup.popup_packages_focus == false && s.popup.popup_drivers_focus == false && s.popup.popup_login_focus == false,
            s.experience.selected_login_manager matches Some(l) && l@ == "sddm"@,
            s.experience.login_manager_user_set == false,
            s.system.hostname_value@ == "Parchlinux"@,
            s.system.timezone_value@ == "Europe/London"@,
            s.system.ats_enabled == true,
            s.accounts.root_password@ == Seq::<char>::empty(),
            s.accounts.root_password_confirm@ == Seq::<char>::empty(),
            s.accounts.root_password_hash == None::<String>,
            s.accounts.users@.len() == 0,
            s.packages.additional_packages@.len() == 0,
            s.packages.addpkgs_group_names.deep_view() == package_group_names(),
            s.packages.addpkgs_group_pkg_selected@.len() == 0,
            s.packages.addpkgs_group_accum_selected@.len() == 0,
            s.packages.addpkgs_group_selected@ == Map::<Seq<char>, Seq<Seq<char>>>::empty(),
            s.install.pending_wipe_confirm == None::<bool>,
            s.install.install_running == false,
            s.install.install_log@.len() == 0,
            s.install.install_section_titles@.len() == 0,
            s.install.install_section_done@.len() == 0,
            s.install.install_current_section == None::<usize>,
            s.install.exit_tui_after_install == false,
            s.install.pending_install_sections.is_none(),
            s.toast_message == None::<String>,
            s.config_focus_index == 0 && s.last_load_missing_sections@.len() == 0,
            s.locales.locales_focus_index == 0,
            s.popup.popup_packages_selected_index == 0 && s.popup.popup_drivers_selected_index == 0
                && s.popup.popup_login_selected_index == 0,
            s.disks.disks_selected_device_model == None::<String> && s.disks.disks_selected_device_devtype == None::<String>
                && s.disks.disks_selected_device_size == None::<String> && s.disks.disks_selected_device_freespace == None::<String>
                && s.disks.disks_selected_device_sector_size == None::<String> && s.disks.disks_selected_device_read_only == None::<bool>,
            s.manual.manual_create_units_index == 0 && s.manual.manual_create_free_start_bytes == 0
                && s.manual.manual_create_free_end_bytes == 0 && s.manual.manual_create_selected_size_bytes == 0
                && !s.manual.manual_create_focus_units && s.manual.manual_create_kind_index == 0
                && s.manual.manual_create_fs_options@.len() == 0 && s.manual.manual_create_fs_index == 0
                && s.manual.manual_create_mountpoint@ == Seq::<char>::empty() && s.manual.manual_edit_index == None::<usize>,
            s.mirrors.mirrors_focus_index == 0 && s.mirrors.draft_repo_name@ == Seq::<char>::empty()
                && s.mirrors.draft_repo_url@ == Seq::<char>::empty(),
            s.encryption.diskenc_focus_index == 0 && !s.encryption.diskenc_reopen_after_info
                && s.encryption.disk_encryption_selected_partition == None::<String>,
            s.boot.swap_focus_index == 0 && s.boot.uki_focus_index == 0 && s.boot.kernels_focus_index == 0,
            s.network.audio_focus_index == 0 && s.network.network_focus_index == 0
                && s.network.network_selected_interface == None::<String> && !s.network.network_draft_mode_static
                && s.network.network_draft_ip_cidr@ == Seq::<char>::empty() && s.network.network_draft_gateway@ == Seq::<char>::empty()
                && s.network.network_draft_dns@ == Seq::<char>::empty() && !s.network.network_reopen_after_info_ip
                && !s.network.network_reopen_after_info_gateway && !s.network.network_reopen_after_info_dns,
            s.system.hostname_focus_index == 0 && !s.system.hostname_reopen_after_info && s.system.timezone_focus_index == 0
                && s.system.ats_focus_index == 0,
            s.accounts.rootpass_focus_index == 0 && !s.accounts.rootpass_reopen_after_info && s.accounts.user_focus_index == 0
                && s.accounts.selected_user_index == 0 && s.accounts.draft_user_username@ == Seq::<char>::empty()
                && s.accounts.draft_user_password@ == Seq::<char>::empty()
                && s.accounts.draft_user_password_confirm@ == Seq::<char>::empty() && !s.accounts.draft_user_is_sudo
                && !s.accounts.username_reopen_after_info && !s.accounts.userpass_reopen_after_info
                && !s.accounts.useredit_reopen_after_info,
            s.packages.addpkgs_focus_index == 0 && s.packages.addpkgs_selected_index == 0
                && s.packages.addpkgs_selected@ == Set::<usize>::empty() && !s.packages.addpkgs_reopen_after_info
                && !s.packages.addpkgs_group_focus && s.packages.addpkgs_group_index == 0
                && s.packages.addpkgs_group_pkg_index == 0,
            s.install.install_focus_index == 0,
    {
        let mut optional_repos_selected: BTreeSet<usize> = BTreeSet::new();
        optional_repos_selected.insert(0);
        assert(optional_repos_selected@ =~= set![0usize]);
        let mut optional_repos_options: Vec<String> = Vec::new();
        optional_repos_options.push(owned("multilib"));
        optional_repos_options.push(owned("testing"));
        optional_repos_options.push(owned("AUR"));
        assert(optional_repos_options.deep_view() =~= seq!["multilib"@, "testing"@, "AUR"@]);
        let mut selected_kernels = StringSet::new();
        selected_kernels.insert(owned("linux"));
        proof { Self::lemma_single(selected_kernels@, "linux"@); }
        let mut selected_desktop_envs = StringSet::new();
        selected_desktop_envs.insert(owned("KDE Plasma"));
        proof { Self::lemma_single(selected_desktop_envs@, "KDE Plasma"@); }
        let selected_graphic_drivers = string_set_of(&["intel-media-driver", "libva-intel-driver", "mesa", "vulkan-intel", "vulkan-nouveau", "vulkan-radeon", "xf86-video-amdgpu", "xf86-video-ati", "xf86-video-nouveau", "xorg-server", "xorg-xinit"]);
        let kde = string_set_of(&["ark", "dolphin", "kate", "konsole", "plasma-meta", "plasma-workspace", "htop", "iwd", "nano", "openssh", "smartmontools", "vim", "wget", "wireless_tools", "wpa_supplicant", "xdg-utils"]);
        let mut selected_env_packages = StringSetMap::new();
        selected_env_packages.insert(owned("KDE Plasma"), kde);
        assert(selected_env_packages@.dom() =~= set!["KDE Plasma"@]);
        let mut addpkgs_group_names: Vec<String> = Vec::new();
        addpkgs_group_names.push(owned("Terminals"));
        addpkgs_group_names.push(owned("Shells"));
        addpkgs_group_names.push(owned("Browsers"));
        addpkgs_group_names.push(owned("Text Editors"));
        addpkgs_group_names.push(owned("dotfile Management"));
        assert(addpkgs_group_names.deep_view() =~= package_group_names());
        let s = AppState {
            dry_run: dry_run,
            debug_enabled: false,
            menu_entries: menu(),
            selected_index: 0,
            info_message: String::new(),
            focus: Focus::Menu,
            firmware_uefi: uefi,
            cmdline_open: false,
            cmdline_buffer: String::new(),
            config_focus_index: 0,
            last_load_missing_sections: Vec::new(),
            toast_message: None,
            locales: LocaleState {
                locales_focus_index: 0,
                keyboard_layout_options: Vec::new(),
                keyboard_layout_index: 0,
                locale_language_options: Vec::new(),
                locale_language_index: 0,
                locale_encoding_options: Vec::new(),
                locale_encoding_index: 0,
                locale_language_to_encoding: Vec::new(),
                locales_loaded: false,
                editing_locales: false,
                draft_keyboard_layout_index: 0,
                draft_locale_language_index: 0,
                draft_locale_encoding_index: 0,
            },
            popup: PopupState {
                popup_open: false,
                popup_kind: None,
                popup_items: Vec::new(),
                popup_visible_indices: Vec::new(),
                popup_selected_visible: 0,
                popup_in_search: false,
                popup_search_query: String::new(),
                custom_input_buffer: String::new(),
                popup_packages_focus: false,
                popup_packages_selected_index: 0,
                popup_drivers_focus: false,
                popup_drivers_selected_index: 0,
                popup_login_focus: false,
                popup_login_selected_index: 0,
            },
            disks: DiskState {
                disks_focus_index: 0,
                disks_mode_index: 0,
                disks_selected_device: None,
                disks_selected_device_model: None,
                disks_selected_device_devtype: None,
                disks_selected_device_size: None,
                disks_selected_device_freespace: None,
                disks_selected_device_sector_size: None,
                disks_selected_device_read_only: None,
                disks_label: Some(owned("gpt")),
                disks_wipe: true,
                disks_align: Some(owned("1MiB")),
                disks_partitions: Vec::new(),
            },
            manual: ManualPartitionState {
                manual_create_units_index: 0,
                manual_create_free_start_bytes: 0,
                manual_create_free_end_bytes: 0,
                manual_create_selected_size_bytes: 0,
                manual_create_focus_units: false,
                manual_create_kind_index: 0,
                manual_create_fs_options: Vec::new(),
                manual_create_fs_index: 0,
                manual_create_mountpoint: String::new(),
                manual_edit_index: None,
            },
            mirrors: MirrorState {
                mirrors_focus_index: 0,
                mirrors_regions_options: Vec::new(),
                mirrors_regions_selected: BTreeSet::new(),
                mirrors_loaded: false,
                optional_repos_options: optional_repos_options,
                optional_repos_selected: optional_repos_selected,
                mirrors_custom_servers: Vec::new(),
                custom_repos: Vec::new(),
                draft_repo_name: String::new(),
                draft_repo_url: String::new(),
                draft_repo_sig_index: 2,
                draft_repo_signopt_index: 0,
                aur_selected: false,
                aur_helper_index: None,
            },
            encryption: EncryptionState {
                diskenc_focus_index: 0,
                disk_encryption_type_index: 0,
                disk_encryption_password: String::new(),
                disk_encryption_password_confirm: String::new(),
                diskenc_reopen_after_info: false,
                disk_encryption_selected_partition: None,
            },
            boot: BootState {
                swap_focus_index: 0,
                swap_enabled: true,
                swap_size_gb: swap_size_gb,
                uki_focus_index: 0,
                uki_enabled: false,
                bootloader_focus_index: 0,
                bootloader_index: 0,
                kernels_focus_index: 0,
                selected_kernels: selected_kernels,
            },
            network: NetworkState {
                audio_focus_index: 0,
                audio_index: 1,
                network_focus_index: 0,
                network_mode_index: 2,
                network_selected_interface: None,
                network_draft_mode_static: false,
                network_draft_ip_cidr: String::new(),
                network_draft_gateway: String::new(),
                network_draft_dns: String::new(),
                network_reopen_after_info_ip: false,
                network_reopen_after_info_gateway: false,
                network_reopen_after_info_dns: false,
            },
            experience: ExperienceState {
                experience_focus_index: 0,
                experience_mode_index: 0,
                selected_desktop_envs: selected_desktop_envs,
                selected_server_types: StringSet::new(),
                selected_server_packages: StringSetMap::new(),
                selected_xorg_types: StringSet::new(),
                selected_xorg_packages: StringSetMap::new(),
                selected_env_packages: selected_env_packages,
                selected_graphic_drivers: selected_graphic_drivers,
                selected_login_manager: Some(owned("sddm")),
                login_manager_user_set: false,
            },
            system: SystemState {
                hostname_focus_index: 0,
                hostname_value: owned("Parchlinux"),
                hostname_reopen_after_info: false,
                timezone_focus_index: 0,
                timezone_value: owned("Europe/London"),
                ats_focus_index: 0,
                ats_enabled: true,
            },
            accounts: AccountState {
                rootpass_focus_index: 0,
                root_password: String::new(),
                root_password_confirm: String::new(),
                root_password_hash: None,
                rootpass_reopen_after_info: false,
                user_focus_index: 0,
                users: Vec::new(),
                selected_user_index: 0,
                draft_user_username: String::new(),
                draft_user_password: String::new(),
                draft_user_password_confirm: String::new(),
                draft_user_is_sudo: false,
                username_reopen_after_info: false,
                userpass_reopen_after_info: false,
                useredit_reopen_after_info: false,
            },
            packages: PackageState {
                addpkgs_focus_index: 0,
                additional_packages: Vec::new(),
                addpkgs_selected_index: 0,
                addpkgs_selected: BTreeSet::new(),
                addpkgs_reopen_after_info: false,
                addpkgs_group_focus: false,
                addpkgs_group_names: addpkgs_group_names,
                addpkgs_group_index: 0,
                addpkgs_group_pkg_index: 0,
                addpkgs_group_pkg_selected: StringSet::new(),
                addpkgs_group_accum_selected: StringSet::new(),
                addpkgs_group_selected: StringSetMap::new(),
            },
            install: InstallState {
                install_completed: false,
                reboot_prompt_open: false,
                reboot_confirmed: None,
                last_install_log_len: None,
                pending_wipe_confirm: None,
                install_running: false,
                install_log: Vec::new(),
                install_section_titles: Vec::new(),
                install_section_done: Vec::new(),
                install_current_section: None,
                exit_tui_after_install: false,
                pending_install_sections: None,
                install_focus_index: 0,
            },
        };
        proof {
            assert(holds_exactly(s.experience.selected_graphic_drivers@, default_graphic_drivers())) by {
                assert forall|x: Seq<char>| s.experience.selected_graphic_drivers@.contains(x) <==> default_graphic_drivers().contains(x) by {
                    if default_graphic_drivers().contains(x) {
                        let k = choose|k: int| 0 <= k < default_graphic_drivers().len() && default_graphic_drivers()[k] == x;
                        assert(0 <= k < default_graphic_drivers().len());
                    }
                }
            }
        }
        s
    }

    proof fn lemma_single(s: Seq<Seq<char>>, x: Seq<char>)
        requires
            crate::sets::sorted_strict(s),
            forall|y: Seq<char>| s.contains(y) <==> (Seq::<Seq<char>>::empty().contains(y) || y == x),
        ensures
            s == seq![x],
    {
        assert forall|y: Seq<char>| s.contains(y) <==> seq![x].contains(y) by {
            if y == x {
                assert(seq![x][0] == y);
            }
        }
        crate::sets::lemma_sorted_unique(s, seq![x]);
    }
}

/// The value of the first `MemTotal:` line of `/proc/meminfo` that has a
/// second word: that word read as a number (0 when it is not one); 0 when
/// there is no such line.
pub open spec fn mem_total_kb(lines: Seq<Seq<char>>) -> u64
    decreases lines.len(),
{
    if lines.len() == 0 {
        0
    } else if has_prefix(lines[0], "MemTotal:"@) && split_words(lines[0]).len() >= 2 {
        match parsed_u64(split_words(lines[0])[1]) {
            Some(v) => v,
            None => 0,
        }
    } else {
        mem_total_kb(lines.drop_first())
    }
}

/// The recommended swap size in GiB for a memory size in KiB (whole GiB,
/// rounded down): equal to the memory up to 8 GiB, then 8 GiB plus half
/// of the rest, at most 16 GiB.
pub open spec fn swap_gb_for(total_kb: u64) -> u32 {
    let gb = total_kb / 1024 / 1024;
    if gb <= 8 {
        gb as u32
    } else if 8 + (gb - 8) / 2 > 16 {
        16
    } else {
        (8 + (gb - 8) / 2) as u32
    }
}

/// What a log line does to the state (see `append_install_log_line`).
pub open spec fn log_line_applied(old: AppState, new: AppState, line: String) -> bool {
    let l = line@;
    let start = "::section_start::"@;
    let done = "::section_done::"@;
    if has_prefix(l, start) {
        let rest = l.subrange(start.len() as int, l.len() as int);
        let titles = old.install.install_section_titles@;
        new == AppState {
            install: InstallState {
                install_current_section: match first_match(titles.len() as int, |i: int| titles[i]@ == rest) {
                    Some(i) => Some(i as usize),
                    None => old.install.install_current_section,
                },
                ..old.install
            },
            ..old
        }
    } else if has_prefix(l, done) {
        let rest = l.subrange(done.len() as int, l.len() as int);
        let titles = old.install.install_section_titles@;
        &&& new == AppState {
            install: InstallState { install_section_done: new.install.install_section_done, ..old.install },
            ..old
        }
        &&& new.install.install_section_done@ == match first_match(titles.len() as int, |i: int| titles[i]@ == rest) {
            Some(i) => if i < old.install.install_section_done@.len() {
                old.install.install_section_done@.update(i, true)
            } else {
                old.install.install_section_done@
            },
            None => old.install.install_section_done@,
        }
    } else {
        &&& new == AppState {
            install: InstallState { install_log: new.install.install_log, ..old.install },
            popup: PopupState { popup_items: new.popup.popup_items, ..old.popup },
            ..old
        }
        &&& new.install.install_log@ == old.install.install_log@.push(line)
        &&& new.popup.popup_items.deep_view() == if old.popup.popup_open && old.popup.popup_kind == Some(PopupKind::Info) {
            let body = join_with(new.install.install_log.deep_view(), "\n"@);
            if old.popup.popup_items@.len() == 0 {
                seq![body]
            } else {
                old.popup.popup_items.deep_view().update(0, body)
            }
        } else {
            old.popup.popup_items.deep_view()
        }
    }
}

impl AppState {
    /// The screen of the selected menu entry.
    pub fn current_screen(&self) -> (r: Screen)
        requires
            self.selected_index < self.menu_entries@.len(),
        ensures
            r == self.menu_entries@[self.selected_index as int].screen,
    {
        self.menu_entries[self.selected_index].screen
    }

    /// The machine booted through UEFI firmware.
    pub fn is_uefi(&self) -> (r: bool)
        ensures
            r == self.firmware_uefi,
    {
        self.firmware_uefi
    }

    /// Selects another menu entry.
    pub fn set_selected_index(&mut self, idx: usize)
        requires
            idx != old(self).selected_index ==> idx < old(self).menu_entries@.len(),
        ensures
            *final(self) == (AppState { selected_index: idx, ..*old(self) }),
    {
        self.selected_index = idx;
    }

    /// Moves the keyboard focus.
    pub fn set_focus(&mut self, new_focus: Focus)
        ensures
            *final(self) == (AppState { focus: new_focus, ..*old(self) }),
    {
        self.focus = new_focus;
    }

    /// Opens or closes the popup flag.
    pub fn set_popup_open(&mut self, open: bool)
        ensures
            *final(self) == (AppState { popup: PopupState { popup_open: open, ..old(self).popup }, ..*old(self) }),
    {
        self.popup.popup_open = open;
    }

    /// Sets the popup kind.
    pub fn set_popup_kind(&mut self, kind: Option<PopupKind>)
        ensures
            *final(self) == (AppState { popup: PopupState { popup_kind: kind, ..old(self).popup }, ..*old(self) }),
    {
        self.popup.popup_kind = kind;
    }

    /// Enters or leaves the popup's search mode.
    pub fn set_popup_in_search(&mut self, in_search: bool)
        ensures
            *final(self) == (AppState { popup: PopupState { popup_in_search: in_search, ..old(self).popup }, ..*old(self) }),
    {
        self.popup.popup_in_search = in_search;
    }

    /// Starts tracking the progress of the given install sections: none
    /// done, none running.
    pub fn reset_install_progress(&mut self, titles: Vec<String>)
        ensures
            *final(self) == (AppState {
                install: InstallState {
                    install_section_titles: titles,
                    install_section_done: final(self).install.install_section_done,
                    install_current_section: None,
                    ..old(self).install
                },
                ..*old(self)
            }),
            final(self).install.install_section_done@ == Seq::new(titles@.len(), |i: int| false),
    {
        let n = titles.len();
        let mut done: Vec<bool> = Vec::new();
        let mut i: usize = 0;
        while i < n
            invariant
                i <= n,
                done@ == Seq::new(i as nat, |k: int| false),
            decreases n - i,
        {
            done.push(false);
            i = i + 1;
            assert(done@ =~= Seq::new(i as nat, |k: int| false));
        }
        self.install.install_section_titles = titles;
        self.install.install_section_done = done;
        self.install.install_current_section = None;
    }

    /// Takes one line of installer output: a `::section_start::<title>`
    /// marker makes that section the current one, a
    /// `::section_done::<title>` marker marks it done, and any other line
    /// is appended to the log (and shown in the Info popup when it is
    /// open).
    pub fn append_install_log_line(&mut self, line: String)
        ensures
            log_line_applied(*old(self), *final(self), line),
    {
        let n = line.unicode_len();
        if str_starts_with(line.as_str(), "::section_start::") {
            let plen = "::section_start::".unicode_len();
            let rest = line.as_str().substring_char(plen, n);
            let found = crate::text::position_of(&self.install.install_section_titles, rest);
            proof {
                let t = self.install.install_section_titles@;
                let r = line@.subrange(plen as int, line@.len() as int);
                let p = |i: int| t[i]@ == r;
                match found {
                    Some(idx) => crate::text::lemma_first_match_at(t.len() as int, p, idx as int),
                    None => crate::text::lemma_first_match_none(t.len() as int, p),
                }
            }
            let cur = match found {
                Some(idx) => Some(idx),
                None => self.install.install_current_section,
            };
            self.install.install_current_section = cur;
            return;
        }
        if str_starts_with(line.as_str(), "::section_done::") {
            let plen = "::section_done::".unicode_len();
            let rest = line.as_str().substring_char(plen, n);
            let found = crate::text::position_of(&self.install.install_section_titles, rest);
            proof {
                let t = self.install.install_section_titles@;
                let r = line@.subrange(plen as int, line@.len() as int);
                let p = |i: int| t[i]@ == r;
                match found {
                    Some(idx) => crate::text::lemma_first_match_at(t.len() as int, p, idx as int),
                    None => crate::text::lemma_first_match_none(t.len() as int, p),
                }
            }
            let mut done = self.install.install_section_done.clone();
            assert(done@ =~= self.install.install_section_done@);
            match found {
                Some(idx) => {
                    if idx < done.len() {
                        done.set(idx, true);
                    }
                },
                None => {},
            }
            self.install.install_section_done = done;
            return;
        }
        self.append_plain_log_line(line);
    }

    fn append_plain_log_line(&mut self, line: String)
        ensures
            *final(self) == (AppState {
                install: InstallState { install_log: final(self).install.install_log, ..old(self).install },
                popup: PopupState { popup_items: final(self).popup.popup_items, ..old(self).popup },
                ..*old(self)
            }),
            final(self).install.install_log@ == old(self).install.install_log@.push(line),
            final(self).popup.popup_items.deep_view() == if old(self).popup.popup_open && old(self).popup.popup_kind == Some(PopupKind::Info) {
                let body = join_with(final(self).install.install_log.deep_view(), "\n"@);
                if old(self).popup.popup_items@.len() == 0 {
                    seq![body]
                } else {
                    old(self).popup.popup_items.deep_view().update(0, body)
                }
            } else {
                old(self).popup.popup_items.deep_view()
            },
    {
        let mut log = self.install.install_log.clone();
        assert(log@ =~= self.install.install_log@);
        log.push(line);
        let mut items = self.popup.popup_items.clone();
        assert(items@ =~= self.popup.popup_items@);
        let info_open = self.popup.popup_open && match self.popup.popup_kind {
            Some(PopupKind::Info) => true,
            _ => false,
        };
        if info_open {
            let body = join(&log, "\n");
            if items.len() == 0 {
                items.push(body);
                assert(items.deep_view() =~= seq![body@]);
            } else {
                items.set(0, body);
                assert(items.deep_view() =~= old(self).popup.popup_items.deep_view().update(0, body@));
            }
        }
        self.install.install_log = log;
        self.popup.popup_items = items;
    }

    /// Records what a drain of the installer's output channel saw: the
    /// current log length, and, when the channel was disconnected, that
    /// the installation is over.
    pub fn finish_install_log_drain(&mut self, disconnected: bool)
        ensures
            final(self).install.last_install_log_len == Some(old(self).install.install_log@.len() as usize),
            disconnected ==> {
                &&& *final(self) == (AppState {
                    install: InstallState {
                        last_install_log_len: final(self).install.last_install_log_len,
                        install_running: false,
                        install_log: final(self).install.install_log,
                        ..old(self).install
                    },
                    ..*old(self)
                })
                &&& final(self).install.install_log.deep_view() == old(self).install.install_log.deep_view().push(
                    "[Install process ended: no more output will be received.]"@,
                )
            },
            !disconnected ==> *final(self) == (AppState {
                install: InstallState {
                    last_install_log_len: final(self).install.last_install_log_len,
                    ..old(self).install
                },
                ..*old(self)
            }),
    {
        self.install.last_install_log_len = Some(self.install.install_log.len());
        if disconnected {
            self.install.install_running = false;
            self.install.install_log.push(owned("[Install process ended: no more output will be received.]"));
            assert(self.install.install_log.deep_view() =~= old(self).install.install_log.deep_view().push(
                "[Install process ended: no more output will be received.]"@,
            ));
        }
    }

    /// The recommended swap size in GiB for the machine whose
    /// `/proc/meminfo` reads `meminfo`.
    pub fn detect_swap_size_gb(meminfo: &str) -> (r: u32)
        ensures
            r == swap_gb_for(mem_total_kb(split_lines(meminfo@))),
            r <= 16,
    {
        let lines = lines_of(meminfo);
        let ghost dv = lines.deep_view();
        let mut total_kb: u64 = 0;
        let mut i: usize = 0;
        assert(dv.skip(0) =~= dv);
        while i < lines.len()
            invariant
                dv == lines.deep_view(),
                dv == split_lines(meminfo@),
                i <= lines.len(),
                total_kb == 0,
                mem_total_kb(dv) == mem_total_kb(dv.skip(i as int)),
            decreases lines.len() - i,
        {
            let line = &lines[i];
            assert(dv.skip(i as int)[0] == line@);
            assert(dv.skip(i as int).drop_first() =~= dv.skip(i + 1));
            if str_starts_with(line.as_str(), "MemTotal:") {
                let parts = words_of(line.as_str());
                if parts.len() >= 2 {
                    total_kb = match parse_u64(parts[1].as_str()) {
                        Some(v) => v,
                        None => 0,
                    };
                    assert(total_kb == mem_total_kb(dv));
                    return Self::swap_for_total(total_kb);
                }
            }
            i = i + 1;
        }
        Self::swap_for_total(total_kb)
    }

    fn swap_for_total(total_kb: u64) -> (r: u32)
        ensures
            r == swap_gb_for(total_kb),
            r <= 16,
    {
        let total_gb = total_kb / 1024 / 1024;
        if total_gb <= 8 {
            total_gb as u32
        } else {
            let base: u64 = 8;
            let swap_gb = base + (total_gb - base) / 2;
            if swap_gb > 16 {
                16
            } else {
                swap_gb as u32
            }
        }
    }

    /// Nothing to set up for the bootloader screen.
    pub fn init_bootloader(&mut self)
        ensures
            *final(self) == *old(self),
    {
    }

    /// The name of the chosen bootloader.
    pub fn current_bootloader_label(&self) -> (r: &'static str)
        ensures
            r@ == (if self.boot.bootloader_index == 0 {
                "Systemd-boot"@
            } else if self.boot.bootloader_index == 1 {
                "Grub"@
            } else if self.boot.bootloader_index == 2 {
                "Efistub"@
            } else {
                "Limine"@
            }),
    {
        match self.boot.bootloader_index {
            0 => "Systemd-boot",
            1 => "Grub",
            2 => "Efistub",
            _ => "Limine",
        }
    }
}


/// The recommended swap follows the documented formula on the memory in
/// whole GiB (`g`): equal to `g` up to 8 GiB, else 8 GiB plus half of
/// what lies above 8, never above 16 GiB; more memory never gives less
/// swap.
pub proof fn lemma_swap_formula(kb: u64, kb2: u64)
    ensures
        kb / 1048576 <= 8 ==> swap_gb_for(kb) == kb / 1048576,
        kb / 1048576 > 8 && 8 + (kb / 1048576 - 8) / 2 <= 16 ==> swap_gb_for(kb) == 8 + (kb / 1048576 - 8) / 2,
        kb / 1048576 > 8 && 8 + (kb / 1048576 - 8) / 2 > 16 ==> swap_gb_for(kb) == 16,
        swap_gb_for(kb) <= 16,
        kb <= kb2 ==> swap_gb_for(kb) <= swap_gb_for(kb2),
{
    assert(kb / 1024 / 1024 == kb / 1048576) by (nonlinear_arith);
    assert(kb2 / 1024 / 1024 == kb2 / 1048576) by (nonlinear_arith);
    if kb <= kb2 {
        assert(kb / 1048576 <= kb2 / 1048576) by (nonlinear_arith)
            requires kb <= kb2;
    }
}

} // verus!
