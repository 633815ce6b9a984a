use archinstall_rs::commands::redact_command_for_logging;
use archinstall_rs::partitioning::{CommandStatus, PartitioningService};
use archinstall_rs::sets::StringSet;
use archinstall_rs::state::AppState;
use archinstall_rs::sysconfig::SysConfigService;
use archinstall_rs::system::SystemService;
use archinstall_rs::types::{CustomRepo, DiskPartitionSpec, RepoSignOption, RepoSignature, UserAccount};
use archinstall_rs::usersetup::UserSetupService;

fn chroot(inner: &str) -> String {
    format!("arch-chroot /mnt bash -lc '{}'", inner.replace('\'', "'\\''"))
}

fn strings(items: &[&str]) -> Vec<String> {
    items.iter().map(|s| s.to_string()).collect()
}

#[test]
fn sysconfig_default_state() {
    let state = AppState::new(false, 4, true);
    let plan = SysConfigService::build_plan(&state);
    let expected = vec![
        chroot("ln -sf /usr/share/zoneinfo/Europe/London /etc/localtime"),
        chroot("hwclock --systohc"),
        chroot("sed -i 's/^#\\s*en_US.UTF-8 UTF-8/en_US.UTF-8 UTF-8/' /etc/locale.gen"),
        chroot("grep -q '^en_US.UTF-8 UTF-8$' /etc/locale.gen || echo 'en_US.UTF-8 UTF-8' >> /etc/locale.gen"),
        chroot("locale-gen"),
        chroot("printf 'LANG=%s\\n' 'en_US.UTF-8' > /etc/locale.conf"),
        chroot("printf 'KEYMAP=%s\\n' 'us' > /etc/vconsole.conf"),
        chroot("printf '%s\\n' 'Parchlinux' > /etc/hostname"),
        chroot("printf '%s\\n%s\\n%s\\n' '127.0.0.1   localhost' '::1         localhost' '127.0.1.1   Parchlinux.localdomain Parchlinux' > /etc/hosts"),
        "systemctl --root=/mnt enable NetworkManager".to_string(),
        "systemctl --root=/mnt enable systemd-timesyncd".to_string(),
    ];
    assert_eq!(plan.commands, expected);
}

#[test]
fn sysconfig_chosen_locale_and_empty_names() {
    let mut state = AppState::new(false, 4, true);
    state.locales.locale_language_options = strings(&["de_DE.UTF-8", "fr_FR"]);
    state.locales.locale_language_index = 1;
    state.locales.locale_language_to_encoding =
        vec![("fr_FR".to_string(), "ISO-8859-1".to_string()), ("fr_FR".to_string(), "UTF-8".to_string())];
    state.locales.keyboard_layout_options = strings(&["de", "fr"]);
    state.locales.keyboard_layout_index = 7;
    state.system.hostname_value = String::new();
    state.system.timezone_value = String::new();
    state.network.network_mode_index = 0;
    state.system.ats_enabled = false;
    let plan = SysConfigService::build_plan(&state);
    assert_eq!(plan.commands[0], chroot("ln -sf /usr/share/zoneinfo/UTC /etc/localtime"));
    assert_eq!(plan.commands[2], chroot("sed -i 's/^#\\s*fr_FR ISO-8859-1/fr_FR ISO-8859-1/' /etc/locale.gen"));
    assert_eq!(plan.commands[5], chroot("printf 'LANG=%s\\n' 'fr_FR' > /etc/locale.conf"));
    assert_eq!(plan.commands[6], chroot("printf 'KEYMAP=%s\\n' 'us' > /etc/vconsole.conf"));
    assert_eq!(plan.commands[7], chroot("printf '%s\\n' 'archlinux' > /etc/hostname"));
    assert_eq!(plan.commands.len(), 9);
}

#[test]
fn sysconfig_services_and_root_password() {
    let mut state = AppState::new(false, 4, true);
    state.experience.selected_server_types.insert("sshd".to_string());
    state.experience.selected_server_types.insert("Cloud".to_string());
    state.accounts.root_password = "p'w".to_string();
    state.accounts.root_password_confirm = "p'w".to_string();
    let plan = SysConfigService::build_plan(&state);
    let n = plan.commands.len();
    assert_eq!(
        plan.commands[9..].to_vec(),
        vec![
            "systemctl --root=/mnt enable NetworkManager".to_string(),
            "systemctl --root=/mnt enable sshd".to_string(),
            "systemctl --root=/mnt enable cloud-init".to_string(),
            "systemctl --root=/mnt enable systemd-timesyncd".to_string(),
            chroot("echo 'root:p'w' | chpasswd"),
        ]
    );
    assert_eq!(n, 14);
}

#[test]
fn sysconfig_unconfirmed_root_password_is_not_set() {
    let mut state = AppState::new(false, 4, true);
    state.accounts.root_password = "one".to_string();
    state.accounts.root_password_confirm = "two".to_string();
    let plan = SysConfigService::build_plan(&state);
    assert!(plan.commands.iter().all(|c| !c.contains("chpasswd")));
}

#[test]
fn sysconfig_dry_run_redacts_root_password() {
    let mut a = AppState::new(true, 4, true);
    a.accounts.root_password = "hunter2".to_string();
    a.accounts.root_password_confirm = "hunter2".to_string();
    let mut b = AppState::new(true, 4, true);
    b.accounts.root_password = "other-secret".to_string();
    b.accounts.root_password_confirm = "other-secret".to_string();
    let pa = SysConfigService::build_plan(&a);
    let pb = SysConfigService::build_plan(&b);
    assert_eq!(pa.commands, pb.commands);
    assert!(pa.commands.contains(&chroot("echo \"root:<REDACTED>\" | chpasswd")));
    assert!(pa.commands.iter().all(|c| !c.contains("hunter2")));
}

#[test]
fn sysconfig_aur_with_paru_and_yay() {
    let mut state = AppState::new(false, 4, true);
    state.mirrors.aur_selected = true;
    state.mirrors.aur_helper_index = Some(1);
    let plan = SysConfigService::build_plan(&state);
    let tail = plan.commands[plan.commands.len() - 8..].to_vec();
    assert_eq!(
        tail,
        vec![
            chroot("id -u aurbuild >/dev/null 2>&1 || useradd -m -s /bin/bash aurbuild"),
            chroot("install -d -m0755 /etc/sudoers.d && printf '%s\n' 'aurbuild ALL=(ALL) NOPASSWD: /usr/bin/pacman' > /etc/sudoers.d/aurbuild && chmod 0440 /etc/sudoers.d/aurbuild"),
            chroot("pacman -Syu --noconfirm --needed base-devel git rust"),
            chroot("sudo -u aurbuild bash -lc 'cd /tmp && rm -rf paru && git clone https://aur.archlinux.org/paru.git && cd paru && makepkg -si --noconfirm'"),
            chroot("sudo -u aurbuild bash -lc 'paru -Syu --noconfirm'"),
            chroot("rm -rf /tmp/yay /tmp/paru || true"),
            chroot("rm -f /etc/sudoers.d/aurbuild || true"),
            chroot("userdel -r aurbuild || true"),
        ]
    );
    state.mirrors.aur_helper_index = None;
    let plan = SysConfigService::build_plan(&state);
    assert!(plan.commands.contains(&chroot("pacman -Syu --noconfirm --needed base-devel git go")));
    assert_eq!(plan.commands.last().unwrap(), &chroot("userdel -r aurbuild || true"));
}

#[test]
fn pre_install_default_enables_multilib() {
    let state = AppState::new(false, 4, true);
    let plan = SystemService::build_pre_install_plan(&state);
    assert_eq!(
        plan.commands,
        strings(&[
            "test -f /mnt/etc/pacman.conf || install -Dm644 /etc/pacman.conf /mnt/etc/pacman.conf",
            "sed -i '/^#\\s*\\[multilib\\]/,/^#\\s*Include/s/^#\\s*//' /mnt/etc/pacman.conf",
        ])
    );
}

#[test]
fn pre_install_testing_and_custom_repos() {
    let mut state = AppState::new(false, 4, true);
    state.mirrors.optional_repos_selected.remove(&0);
    state.mirrors.optional_repos_selected.insert(1);
    state.mirrors.custom_repos.push(CustomRepo {
        name: "my'repo\nx".to_string(),
        url: "https://example.org/$arch".to_string(),
        signature: RepoSignature::Required,
        sign_option: Some(RepoSignOption::TrustedAll),
    });
    state.mirrors.custom_repos.push(CustomRepo {
        name: "plain".to_string(),
        url: "file:///repo".to_string(),
        signature: RepoSignature::Optional,
        sign_option: None,
    });
    let plan = SystemService::build_pre_install_plan(&state);
    assert_eq!(
        plan.commands,
        strings(&[
            "test -f /mnt/etc/pacman.conf || install -Dm644 /etc/pacman.conf /mnt/etc/pacman.conf",
            "sed -i '/^#\\s*\\[testing\\]/,/^#\\s*Include/s/^#\\s*//' /mnt/etc/pacman.conf",
            "sed -i '/^#\\s*\\[community-testing\\]/,/^#\\s*Include/s/^#\\s*//' /mnt/etc/pacman.conf",
            "printf '\n' >> /mnt/etc/pacman.conf",
            "printf '%s\\n' '[my'\\''repo x]' >> /mnt/etc/pacman.conf",
            "printf '%s\\n' 'Server = https://example.org/$arch' >> /mnt/etc/pacman.conf",
            "printf '%s\\n' 'SigLevel = Required TrustedAll' >> /mnt/etc/pacman.conf",
            "printf '\n' >> /mnt/etc/pacman.conf",
            "printf '%s\\n' '[plain]' >> /mnt/etc/pacman.conf",
            "printf '%s\\n' 'Server = file:///repo' >> /mnt/etc/pacman.conf",
            "printf '%s\\n' 'SigLevel = PackageRequired DatabaseOptional' >> /mnt/etc/pacman.conf",
            "printf '\n' >> /mnt/etc/pacman.conf",
        ])
    );
}

fn default_packages() -> Vec<String> {
    strings(&[
        "ark", "base", "base-devel", "curl", "dolphin", "efibootmgr", "git", "htop", "intel-media-driver",
        "intel-ucode", "iwd", "kate", "konsole", "libva-intel-driver", "linux", "linux-firmware", "man-db",
        "man-pages", "mesa", "nano", "networkmanager", "openssh", "pam", "parch-branding", "parch-pacman",
        "pipewire", "pipewire-pulse", "plasma-meta", "plasma-workspace", "sddm", "smartmontools", "sudo", "vim",
        "vulkan-intel", "vulkan-nouveau", "vulkan-radeon", "wget", "wireless_tools", "wireplumber",
        "wpa_supplicant", "xdg-user-dirs", "xdg-utils", "xf86-video-amdgpu", "xf86-video-ati",
        "xf86-video-nouveau", "xorg-server", "xorg-xinit",
    ])
}

#[test]
fn pacstrap_packages_of_default_state() {
    let state = AppState::new(false, 4, true);
    let pkgs = SystemService::pacstrap_packages(&state, Some("vendor_id\t: GenuineIntel\n"));
    assert_eq!(pkgs, default_packages());
}

#[test]
fn pacstrap_packages_bios_grub_amd_minimal() {
    let mut state = AppState::new(false, 4, false);
    state.boot.bootloader_index = 1;
    state.network.audio_index = 2;
    state.experience.experience_mode_index = 1;
    state.experience.selected_desktop_envs.insert("Sway".to_string());
    state.experience.selected_login_manager = Some("none".to_string());
    let pkgs = SystemService::pacstrap_packages(&state, Some("vendor_id : AuthenticAMD"));
    assert!(pkgs.contains(&"grub".to_string()));
    assert!(!pkgs.contains(&"efibootmgr".to_string()));
    assert!(pkgs.contains(&"pulseaudio".to_string()));
    assert!(pkgs.contains(&"pulseaudio-alsa".to_string()));
    assert!(pkgs.contains(&"polkit".to_string()));
    assert!(pkgs.contains(&"amd-ucode".to_string()));
    assert!(!pkgs.contains(&"none".to_string()));
    assert!(!pkgs.contains(&"mesa".to_string()));
    let mut sorted = pkgs.clone();
    sorted.sort();
    sorted.dedup();
    assert_eq!(sorted, pkgs);
}

#[test]
fn pacstrap_packages_cpu_vendor_by_lowercase_text() {
    let state = AppState::new(false, 4, true);
    let intel = SystemService::pacstrap_packages(&state, Some("model name : INTEL(R) Core"));
    assert!(intel.contains(&"intel-ucode".to_string()));
    let none = SystemService::pacstrap_packages(&state, None);
    assert!(!none.contains(&"intel-ucode".to_string()));
    assert!(!none.contains(&"amd-ucode".to_string()));
}

#[test]
fn pacstrap_plan_installs_every_package() {
    let state = AppState::new(false, 4, true);
    let plan = SystemService::build_pacstrap_plan(&state, Some("GenuineIntel"), &Vec::new());
    let joined = default_packages().join(" ");
    assert_eq!(
        plan.commands,
        vec![
            "pacman -Syy --noconfirm --noprogressbar --color never".to_string(),
            format!("PACMAN=\"pacman --noconfirm --noprogressbar --color never\" pacstrap -K /mnt {joined} || (pacman -Syy --noconfirm --noprogressbar --color never && PACMAN=\"pacman --noconfirm --noprogressbar --color never\" pacstrap -K /mnt {joined} )"),
        ]
    );
}

#[test]
fn pacstrap_plan_dry_run_reports_missing() {
    let state = AppState::new(true, 4, true);
    let pkgs = SystemService::pacstrap_packages(&state, Some("GenuineIntel"));
    let mut validated: Vec<Option<String>> = pkgs.iter().map(|p| Some(p.clone())).collect();
    validated[0] = None;
    validated[2] = Some("base-devel-renamed".to_string());
    validated[5] = None;
    let plan = SystemService::build_pacstrap_plan(&state, Some("GenuineIntel"), &validated);
    assert_eq!(plan.commands.len(), 3);
    assert_eq!(plan.commands[1], "echo 'Missing packages (skipped): \"ark\" \"efibootmgr\"'");
    let kept: Vec<String> = validated.iter().flatten().cloned().collect();
    assert!(plan.commands[2].contains(&format!("pacstrap -K /mnt {} ||", kept.join(" "))));
    assert!(plan.commands[2].contains("base-devel-renamed"));
}

#[test]
fn pacstrap_plan_dry_run_all_missing() {
    let state = AppState::new(true, 4, true);
    let pkgs = SystemService::pacstrap_packages(&state, None);
    let validated: Vec<Option<String>> = pkgs.iter().map(|_| None).collect();
    let plan = SystemService::build_pacstrap_plan(&state, None, &validated);
    assert_eq!(plan.commands.len(), 2);
    assert!(plan.commands[1].starts_with("echo 'Missing packages (skipped): \"ark\" \"base\""));
}

#[test]
fn user_setup_plan() {
    let mut state = AppState::new(false, 4, true);
    state.accounts.users.push(UserAccount { username: "alice".to_string(), password: "pa'ss".to_string(), is_sudo: true });
    state.accounts.users.push(UserAccount { username: "  ".to_string(), password: "x".to_string(), is_sudo: false });
    state.accounts.users.push(UserAccount { username: "bob".to_string(), password: String::new(), is_sudo: false });
    let plan = UserSetupService::build_plan(&state);
    assert_eq!(
        plan.commands,
        vec![
            chroot("id -u alice >/dev/null 2>&1 || useradd -m -s /bin/bash -G wheel alice"),
            chroot("echo 'alice:pa'ss' | chpasswd"),
            chroot("id -u bob >/dev/null 2>&1 || useradd -m -s /bin/bash bob"),
            chroot("sed -i 's/^#\\s*%wheel ALL=(ALL:ALL) ALL/%wheel ALL=(ALL:ALL) ALL/' /etc/sudoers"),
            chroot("sed -i 's/^#\\s*%sudo ALL=(ALL:ALL) ALL/%sudo ALL=(ALL:ALL) ALL/' /etc/sudoers"),
            "systemctl --root=/mnt enable sddm".to_string(),
        ]
    );
}

#[test]
fn user_setup_dry_run_hides_passwords() {
    let mut a = AppState::new(true, 4, true);
    a.experience.selected_login_manager = Some("none".to_string());
    a.accounts.users.push(UserAccount { username: "alice".to_string(), password: "first".to_string(), is_sudo: false });
    let mut b = AppState::new(true, 4, true);
    b.experience.selected_login_manager = Some("none".to_string());
    b.accounts.users.push(UserAccount { username: "alice".to_string(), password: "second".to_string(), is_sudo: false });
    let pa = UserSetupService::build_plan(&a);
    assert_eq!(pa.commands, UserSetupService::build_plan(&b).commands);
    assert_eq!(pa.commands[1], chroot("echo \"alice:<REDACTED>\" | chpasswd"));
    assert_eq!(pa.commands.len(), 4);
}

#[test]
fn parted_units() {
    assert_eq!(PartitioningService::bytes_to_parted_unit("5GiB"), "5GiB");
    assert_eq!(PartitioningService::bytes_to_parted_unit("100%"), "100%");
    assert_eq!(PartitioningService::bytes_to_parted_unit("3145728"), "3MiB");
    assert_eq!(PartitioningService::bytes_to_parted_unit("1048575"), "1MiB");
    assert_eq!(PartitioningService::bytes_to_parted_unit("0"), "1MiB");
    assert_eq!(PartitioningService::bytes_to_parted_unit("12ab"), "12ab");
}

#[test]
fn partition_paths() {
    assert_eq!(PartitioningService::get_partition_path("/dev/sda", 1), "/dev/sda1");
    assert_eq!(PartitioningService::get_partition_path("/dev/nvme0n1", 2), "/dev/nvme0n1p2");
    assert_eq!(PartitioningService::get_partition_path("/dev/mmcblk0", 10), "/dev/mmcblk0p10");
}

#[test]
fn automatic_layout_uefi_with_swap() {
    let state = AppState::new(false, 4, true);
    let plan = PartitioningService::build_plan(&state, "/dev/sda");
    assert_eq!(
        plan.commands,
        strings(&[
            "wipefs -a /dev/sda",
            "parted -s /dev/sda mklabel gpt",
            "partprobe /dev/sda || true",
            "udevadm settle",
            "parted -s /dev/sda mkpart ESP fat32 1MiB 1025MiB",
            "parted -s /dev/sda set 1 esp on",
            "mkfs.fat -F 32 /dev/sda1",
            "parted -s /dev/sda mkpart swap linux-swap 1025MiB 5121MiB",
            "mkswap /dev/sda2",
            "parted -s /dev/sda mkpart root btrfs 5121MiB 100%",
            "mkfs.btrfs -f /dev/sda3",
        ])
    );
}

#[test]
fn automatic_layout_bios_encrypted_without_swap() {
    let mut state = AppState::new(false, 4, false);
    state.boot.swap_enabled = false;
    state.encryption.disk_encryption_type_index = 1;
    state.disks.disks_wipe = false;
    state.disks.disks_label = None;
    let plan = PartitioningService::build_plan(&state, "/dev/vda");
    assert_eq!(
        plan.commands,
        strings(&[
            "parted -s /dev/vda mklabel gpt",
            "partprobe /dev/vda || true",
            "udevadm settle",
            "parted -s /dev/vda mkpart biosboot 1MiB 2MiB",
            "parted -s /dev/vda set 1 bios_grub on",
            "parted -s /dev/vda mkpart root btrfs 2MiB 100%",
            "cryptsetup luksFormat /dev/vda2",
            "cryptsetup open /dev/vda2 cryptroot",
            "mkfs.btrfs -f /dev/mapper/cryptroot",
        ])
    );
}

fn part(name: Option<&str>, role: &str, fs: &str, start: &str, size: &str) -> DiskPartitionSpec {
    DiskPartitionSpec {
        name: name.map(|s| s.to_string()),
        role: Some(role.to_string()),
        fs: Some(fs.to_string()),
        start: Some(start.to_string()),
        size: Some(size.to_string()),
        flags: Vec::new(),
        mountpoint: None,
        encrypt: None,
    }
}

#[test]
fn manual_layout_sorted_by_start() {
    let mut state = AppState::new(false, 4, true);
    state.disks.disks_mode_index = 1;
    state.disks.disks_wipe = false;
    state.disks.disks_partitions.push(part(Some("/dev/nvme0n1"), "ROOT", "btrfs", "1074790400", "100%"));
    state.disks.disks_partitions.push(part(None, "EFI", "fat32", "1048576", "1073741824"));
    state.disks.disks_partitions.push(part(Some("/dev/sdb"), "OTHER", "ext4", "0", "100%"));
    let plan = PartitioningService::build_plan(&state, "/dev/nvme0n1");
    assert_eq!(
        plan.commands,
        strings(&[
            "parted -s /dev/nvme0n1 mklabel gpt",
            "partprobe /dev/nvme0n1 || true",
            "udevadm settle",
            "parted -s /dev/nvme0n1 mkpart ESP fat32 1MiB 1024MiB",
            "parted -s /dev/nvme0n1 set 1 esp on",
            "mkfs.fat -F 32 /dev/nvme0n1p1",
            "parted -s /dev/nvme0n1 mkpart primary btrfs 1025MiB 100%",
            "mkfs.btrfs -f /dev/nvme0n1p2",
            "partprobe /dev/nvme0n1 || true",
            "udevadm settle",
        ])
    );
}

#[test]
fn command_checks() {
    assert_eq!(PartitioningService::check_command(CommandStatus::Succeeded, "ls"), Ok(()));
    assert_eq!(
        PartitioningService::check_command(CommandStatus::Failed, "parted -s /dev/sda"),
        Err("Command failed: parted -s /dev/sda".to_string())
    );
    assert_eq!(
        PartitioningService::check_command(CommandStatus::NotStarted, "mkswap /dev/sda2"),
        Err("Failed to run: mkswap /dev/sda2".to_string())
    );
}

#[test]
fn string_set_stays_sorted() {
    let mut s = StringSet::new();
    s.insert("b".to_string());
    s.insert("a".to_string());
    s.insert("b".to_string());
    assert_eq!(s.items(), &strings(&["a", "b"]));
    s.toggle("a");
    assert_eq!(s.items(), &strings(&["b"]));
    s.toggle("a");
    assert_eq!(s.items(), &strings(&["a", "b"]));
}

#[test]
fn password_commands_are_redacted_in_logs() {
    assert_eq!(
        redact_command_for_logging("arch-chroot /mnt bash -lc 'echo '\\''root:secret'\\'' | chpasswd'"),
        "<password change redacted> | chpasswd"
    );
    assert_eq!(redact_command_for_logging("mkswap /dev/sda2"), "mkswap /dev/sda2");
}

#[test]
fn automatic_layout_names_nvme_partitions() {
    let mut state = AppState::new(false, 0, true);
    state.disks.disks_wipe = false;
    let plan = PartitioningService::build_plan(&state, "/dev/nvme0n1");
    assert_eq!(
        plan.commands,
        strings(&[
            "parted -s /dev/nvme0n1 mklabel gpt",
            "partprobe /dev/nvme0n1 || true",
            "udevadm settle",
            "parted -s /dev/nvme0n1 mkpart ESP fat32 1MiB 1025MiB",
            "parted -s /dev/nvme0n1 set 1 esp on",
            "mkfs.fat -F 32 /dev/nvme0n1p1",
            "parted -s /dev/nvme0n1 mkpart swap linux-swap 1025MiB 1025MiB",
            "mkswap /dev/nvme0n1p2",
            "parted -s /dev/nvme0n1 mkpart root btrfs 1025MiB 100%",
            "mkfs.btrfs -f /dev/nvme0n1p3",
        ])
    );
}

#[test]
fn automatic_layout_without_swap_formats_partition_two() {
    let mut state = AppState::new(false, 4, true);
    state.boot.swap_enabled = false;
    let plan = PartitioningService::build_plan(&state, "/dev/sda");
    assert_eq!(plan.commands[plan.commands.len() - 2], "parted -s /dev/sda mkpart root btrfs 1025MiB 100%");
    assert_eq!(plan.commands[plan.commands.len() - 1], "mkfs.btrfs -f /dev/sda2");
}

#[test]
fn swap_fits_the_layout_arithmetic() {
    let mut state = AppState::new(false, 16, true);
    assert!(PartitioningService::swap_fits_check(&state));
    state.boot.swap_size_gb = 4_194_303;
    assert!(!PartitioningService::swap_fits_check(&state));
    state.boot.swap_size_gb = 4_194_302;
    assert!(PartitioningService::swap_fits_check(&state));
    state.boot.swap_enabled = false;
    state.boot.swap_size_gb = u32::MAX;
    assert!(PartitioningService::swap_fits_check(&state));
    let mut bios = AppState::new(false, 4_194_303, false);
    assert!(PartitioningService::swap_fits_check(&bios));
    bios.boot.swap_size_gb = 4_194_304;
    assert!(!PartitioningService::swap_fits_check(&bios));
}
