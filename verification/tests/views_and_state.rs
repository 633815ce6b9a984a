use archinstall_rs::options::{listing_items, package_name_from_info};
use archinstall_rs::sets::StringSet;
use archinstall_rs::state::AppState;
use archinstall_rs::text::{string_of_chars, trim_text};
use archinstall_rs::types::{DiskPartitionSpec, Focus, PopupKind};
use archinstall_rs::views::{
    auto_layout_lines, bootloader_view, created_partition_lines, disk_mode_label, existing_partition_line,
    existing_partitions, existing_partitions_from_lsblk, manual_info_lines, partition_summary_line, partitions_pane_text, server_popup_view,
    swap_info_lines, BlockChild, BlockDevice,
};

fn strings(items: &[&str]) -> Vec<String> {
    items.iter().map(|s| s.to_string()).collect()
}

#[test]
fn bootloader_screen_rows() {
    let mut app = AppState::new(false, 4, true);
    app.boot.bootloader_index = 2;
    app.boot.bootloader_focus_index = 1;
    app.set_focus(Focus::Content);
    let v = bootloader_view(&app);
    let labels: Vec<String> = v.choices.iter().map(|c| c.label.clone()).collect();
    assert_eq!(labels, strings(&["[ ] Systemd-boot", "[ ] Grub", "[x] Efistub", "[ ] Limine"]));
    let bullets: Vec<String> = v.choices.iter().map(|c| c.bullet.clone()).collect();
    assert_eq!(bullets, strings(&["  ", "▶ ", "  ", "  "]));
    assert!(v.choices[1].active && !v.choices[0].active);
    assert!(!v.continue_active);
    assert_eq!(v.block_title, " Desicion Menu (focused) ");
    app.set_focus(Focus::Menu);
    app.boot.bootloader_focus_index = 4;
    let v = bootloader_view(&app);
    assert!(!v.continue_active);
    assert!(v.choices.iter().all(|c| !c.active));
    assert_eq!(v.block_title, " Desicion Menu ");
}

#[test]
fn swap_pane_lines() {
    let mut app = AppState::new(false, 6, true);
    app.boot.swap_enabled = false;
    let lines = swap_info_lines(&app, "MemFree: 1 kB\nMemTotal:       16384000 kB\n");
    assert_eq!(lines[0], "Detected RAM: 11 GiB");
    assert_eq!(lines[1], "Recommended Swap: 6 GiB");
    assert_eq!(lines[2], "Swapon: Disabled");
    assert_eq!(lines.len(), 5);
}

#[test]
fn swap_size_formula() {
    assert_eq!(AppState::detect_swap_size_gb("MemTotal: 1048576 kB"), 1);
    assert_eq!(AppState::detect_swap_size_gb("MemTotal: 1000000 kB"), 0);
    assert_eq!(AppState::detect_swap_size_gb("MemTotal: 20971520 kB"), 14);
    assert_eq!(AppState::detect_swap_size_gb("MemTotal: 18446744073709551615 kB"), 16);
    assert_eq!(AppState::detect_swap_size_gb("MemTotal: 6291456 kB"), 6);
    assert_eq!(AppState::detect_swap_size_gb("MemTotal: 33554432 kB"), 16);
    assert_eq!(AppState::detect_swap_size_gb("MemTotal: 67108864 kB"), 16);
    assert_eq!(AppState::detect_swap_size_gb("nothing here"), 0);
}

#[test]
fn server_popup_rows_and_packages() {
    let mut app = AppState::new(false, 4, true);
    app.open_server_type_popup();
    app.experience.selected_server_types.insert("Docker".to_string());
    app.popup.popup_visible_indices = vec![1, 2, 42];
    app.popup.popup_selected_visible = 0;
    app.popup.popup_packages_selected_index = 5;
    let v = server_popup_view(&mut app);
    assert_eq!(v.servers.items, strings(&["[ ] Cloud", "[x] Docker"]));
    assert_eq!(v.servers.title, " Server Types (focused) ");
    let p = v.packages.unwrap();
    assert_eq!(p.items, strings(&["[x] cloud-init-parch", "[x] cloud-guest-utils"]));
    assert_eq!(p.selected, 1);
    assert_eq!(p.title, " Installed packages ");
    assert!(app.experience.selected_server_packages.get("Cloud").is_some());
    app.popup.popup_selected_visible = 7;
    let v = server_popup_view(&mut app);
    assert!(v.packages.is_none());
}

fn spec(role: Option<&str>, fs: Option<&str>, start: Option<&str>, size: Option<&str>, flags: &[&str], mp: Option<&str>, enc: Option<bool>) -> DiskPartitionSpec {
    DiskPartitionSpec {
        name: None,
        role: role.map(|s| s.to_string()),
        fs: fs.map(|s| s.to_string()),
        start: start.map(|s| s.to_string()),
        size: size.map(|s| s.to_string()),
        flags: strings(flags),
        mountpoint: mp.map(|s| s.to_string()),
        encrypt: enc,
    }
}

#[test]
fn partition_summaries() {
    let full = spec(Some("ROOT"), Some("btrfs"), Some("1MiB"), Some("100%"), &["esp", "boot"], Some("/"), Some(true));
    assert_eq!(partition_summary_line(&full), "(ROOT) btrfs [1MiB..100%] flags:esp,boot -> /  enc");
    let empty = spec(None, None, None, None, &[], None, Some(false));
    assert_eq!(partition_summary_line(&empty), "(empty)");
    let only_fs = spec(None, Some(" ext4"), None, Some("5GiB"), &[], None, None);
    assert_eq!(partition_summary_line(&only_fs), "ext4 [..5GiB]");
    let enc_only = spec(None, None, None, None, &[], None, Some(true));
    assert_eq!(partition_summary_line(&enc_only), "enc");
}

#[test]
fn manual_panes() {
    let mut app = AppState::new(false, 4, true);
    app.disks.disks_mode_index = 1;
    app.disks.disks_selected_device = Some("/dev/sda".to_string());
    app.disks.disks_align = None;
    assert_eq!(
        manual_info_lines(&app),
        strings(&["Disk mode: Manual Partitioning", "Selected drive: /dev/sda", "Label: gpt", "Wipe: Yes"])
    );
    app.disks.disks_partitions.push(spec(Some("EFI"), Some("fat32"), None, None, &[], Some("/boot"), None));
    let created = created_partition_lines(&app);
    assert_eq!(created, strings(&["(EFI) fat32 -> /boot"]));
    let devices = vec![
        BlockDevice {
            path: Some("/dev/sda".to_string()),
            phy_sec: None,
            log_sec: Some(4096),
            children: vec![
                BlockChild { kind: Some("part".to_string()), name: Some("sda1".to_string()), size: Some(1024), start: Some(2), fstype: Some("vfat".to_string()) },
                BlockChild { kind: Some("crypt".to_string()), name: Some("x".to_string()), size: None, start: None, fstype: None },
                BlockChild { kind: Some("part".to_string()), name: None, size: None, start: Some(u64::MAX), fstype: None },
            ],
        },
        BlockDevice { path: Some("/dev/sdb".to_string()), phy_sec: Some(512), log_sec: None, children: Vec::new() },
    ];
    let parts = existing_partitions(&devices, "/dev/sda");
    assert_eq!(parts.len(), 2);
    assert_eq!(parts[0].start_bytes, 8192);
    assert_eq!(parts[0].end_bytes, 9216);
    assert_eq!(parts[1].start_bytes, u64::MAX);
    assert_eq!(parts[1].end_bytes, u64::MAX);
    let existing = vec![existing_partition_line(&parts[0], "1.0 KiB")];
    assert_eq!(existing[0], "sda1 1.0 KiB [8192..9216] vfat");
    assert_eq!(
        partitions_pane_text(&existing, &created),
        "Existing:\n- sda1 1.0 KiB [8192..9216] vfat\nCreated:\n- (EFI) fat32 -> /boot"
    );
    assert_eq!(partitions_pane_text(&Vec::new(), &Vec::new()), "(none)");
    assert_eq!(disk_mode_label(7), "Pre-mounted configuration");
}

#[test]
fn automatic_layout_pane() {
    let mut app = AppState::new(false, 8, false);
    app.encryption.disk_encryption_type_index = 1;
    assert_eq!(
        auto_layout_lines(&app),
        strings(&[
            "Bootloader: systemd-boot",
            "Firmware: BIOS",
            "Planned layout:",
            "- gpt: 1MiB bios_boot [bios_grub]",
            "- swap: 8GiB (based on RAM)",
            "- root: btrfs (LUKS) (rest)",
            "Warning: Selected bootloader requires UEFI; choose GRUB or Limine for BIOS.",
        ])
    );
    app.firmware_uefi = true;
    app.boot.swap_enabled = false;
    app.boot.bootloader_index = 9;
    app.disks.disks_selected_device = Some("/dev/vda".to_string());
    assert_eq!(
        auto_layout_lines(&app),
        strings(&[
            "Bootloader: other",
            "Firmware: UEFI",
            "Selected drive: /dev/vda",
            "Planned layout:",
            "- gpt: 1024MiB EFI (FAT, ESP) -> /boot",
            "- root: btrfs (LUKS) (rest)",
        ])
    );
}

#[test]
fn text_helpers() {
    assert_eq!(trim_text("  a b \n"), "a b");
    assert_eq!(trim_text(" \t "), "");
    assert_eq!(string_of_chars(&vec!['h', 'é']), "hé");
}

#[test]
fn filter_ignores_case() {
    let mut app = AppState::new(false, 4, true);
    app.open_server_type_popup();
    app.popup.popup_search_query = "POST".to_string();
    app.popup.popup_selected_visible = 5;
    app.filter_popup();
    assert_eq!(app.popup.popup_visible_indices, vec![6]);
    assert_eq!(app.popup.popup_selected_visible, 0);
    app.popup.popup_search_query = "o".to_string();
    app.filter_popup();
    assert_eq!(app.popup.popup_visible_indices, vec![0, 1, 2, 6, 7]);
    app.popup.popup_search_query = String::new();
    app.filter_popup();
    assert_eq!(app.popup.popup_visible_indices, (0..10).collect::<Vec<usize>>());
}

#[test]
fn choosing_a_language_picks_its_encoding() {
    let mut app = AppState::new(false, 4, true);
    app.locales.locale_language_options = strings(&["en_US.utf-8", "de_DE"]);
    app.locales.locale_encoding_options = strings(&["ISO-8859-1", "utf-8"]);
    app.popup.popup_open = true;
    app.popup.popup_kind = Some(PopupKind::LocaleLanguage);
    app.popup.popup_items = app.locales.locale_language_options.clone();
    app.popup.popup_visible_indices = vec![0, 1];
    app.popup.popup_selected_visible = 0;
    assert_eq!(app.apply_popup_selection(), None);
    assert_eq!(app.locales.locale_language_index, 0);
    assert_eq!(app.locales.locale_encoding_index, 1);
    assert!(!app.popup.popup_open);
}

#[test]
fn choosing_a_keyboard_layout_reports_it() {
    let mut app = AppState::new(false, 4, true);
    app.locales.keyboard_layout_options = strings(&["us", "de-latin1"]);
    app.popup.popup_open = true;
    app.popup.popup_kind = Some(PopupKind::KeyboardLayout);
    app.popup.popup_items = app.locales.keyboard_layout_options.clone();
    app.popup.popup_visible_indices = vec![1];
    app.popup.popup_selected_visible = 0;
    assert_eq!(app.apply_popup_selection(), Some("de-latin1".to_string()));
    assert_eq!(app.locales.keyboard_layout_index, 1);
}

#[test]
fn locale_defaults() {
    let mut app = AppState::new(false, 4, true);
    app.locales.keyboard_layout_options = strings(&["de", "us"]);
    app.locales.locale_language_options = strings(&["C", "en_US.UTF-8"]);
    app.locales.locale_encoding_options = strings(&["ISO-8859-1", "utf-8"]);
    app.apply_locale_defaults();
    assert_eq!(app.locales.keyboard_layout_index, 1);
    assert_eq!(app.locales.locale_language_index, 1);
    assert_eq!(app.locales.locale_encoding_index, 1);
}

#[test]
fn install_log_sections() {
    let mut app = AppState::new(false, 4, true);
    app.reset_install_progress(strings(&["Disks", "System"]));
    app.append_install_log_line("::section_start::System".to_string());
    assert_eq!(app.install.install_current_section, Some(1));
    app.append_install_log_line("::section_done::Disks".to_string());
    assert_eq!(app.install.install_section_done, vec![true, false]);
    app.append_install_log_line("hello".to_string());
    assert_eq!(app.install.install_log, strings(&["hello"]));
    app.finish_install_log_drain(true);
    assert!(!app.install.install_running);
    assert_eq!(app.install.last_install_log_len, Some(1));
    assert_eq!(
        app.install.install_log.last().unwrap(),
        "[Install process ended: no more output will be received.]"
    );
}

#[test]
fn info_popup_follows_the_log() {
    let mut app = AppState::new(false, 4, true);
    app.open_info_popup("start".to_string());
    app.append_install_log_line("a".to_string());
    app.append_install_log_line("b".to_string());
    assert_eq!(app.popup.popup_items, strings(&["a\nb"]));
}

#[test]
fn new_state_defaults() {
    let app = AppState::new(true, 7, false);
    assert!(app.dry_run);
    assert_eq!(app.current_screen(), archinstall_rs::types::Screen::Overview);
    assert_eq!(app.menu_entries.len(), 21);
    assert_eq!(app.boot.selected_kernels.items(), &strings(&["linux"]));
    assert_eq!(app.experience.selected_login_manager, Some("sddm".to_string()));
    assert_eq!(app.current_bootloader_label(), "Systemd-boot");
    let mut kde = StringSet::new();
    kde.insert("vim".to_string());
    assert!(app.experience.selected_env_packages.get("KDE Plasma").unwrap().contains("vim"));
}

#[test]
fn existing_partitions_read_from_lsblk_json() {
    let json = br#"{"blockdevices": [
        {"name": "sda", "path": "/dev/sda", "type": "disk", "size": 1000, "fstype": null, "start": null,
         "phy-sec": 4096, "log-sec": 512, "children": [
            {"name": "sda1", "path": "/dev/sda1", "type": "part", "size": 1024, "fstype": "vfat", "start": 2,
             "phy-sec": 4096, "log-sec": 512},
            {"name": "sda2", "path": "/dev/sda2", "type": "part", "size": 10, "fstype": null, "start": 3}
         ]},
        {"name": "sdb", "path": "/dev/sdb", "type": "disk", "size": 5, "log-sec": 512,
         "children": [{"name": "sdb1", "type": "part", "size": 5, "start": 1, "fstype": "ext4"}]}
    ]}"#;
    let parts = existing_partitions_from_lsblk(json, "/dev/sda");
    assert_eq!(parts.len(), 2);
    assert_eq!(parts[0].name, "sda1");
    assert_eq!(parts[0].start_bytes, 8192);
    assert_eq!(parts[0].end_bytes, 9216);
    assert_eq!(parts[0].fstype, "vfat");
    assert_eq!(parts[1].name, "sda2");
    assert_eq!(parts[1].start_bytes, 12288);
    assert_eq!(parts[1].fstype, "");
    let all = existing_partitions_from_lsblk(json, "/dev/sd");
    assert_eq!(all.len(), 3);
    assert_eq!(all[2].start_bytes, 512);
    assert!(existing_partitions_from_lsblk(b"not json", "/dev/sda").is_empty());
    assert!(existing_partitions_from_lsblk(b"", "/dev/sda").is_empty());
}

#[test]
fn locale_options_read_from_listings() {
    let mut app = AppState::new(false, 4, true);
    app.load_locale_options(
        "de\nus\nfr\n",
        "en_US.UTF-8 UTF-8\nde_DE ISO-8859-1\n\nde_DE.UTF-8 UTF-8\n",
    );
    assert_eq!(app.locales.keyboard_layout_options, strings(&["de", "us", "fr"]));
    assert_eq!(app.locales.locale_language_options, strings(&["en_US.UTF-8", "de_DE", "de_DE.UTF-8"]));
    assert_eq!(app.locales.locale_encoding_options, strings(&["ISO-8859-1", "UTF-8"]));
    app.apply_locale_defaults();
    assert_eq!(app.locales.keyboard_layout_index, 1);
    assert_eq!(app.locales.draft_keyboard_layout_index, 1);
    assert_eq!(app.locales.locale_language_index, 0);
    assert_eq!(app.locales.locale_encoding_index, 1);
}

#[test]
fn mirror_regions_read_from_listing() {
    let mut app = AppState::new(false, 4, true);
    assert!(!app.mirrors.mirrors_loaded);
    app.load_mirror_options(
        "Country                Code Count\n---------------------- ---- -----\nGermany                DE    150\nUnited States          US   186\n\n",
    );
    assert!(app.mirrors.mirrors_loaded);
    assert_eq!(
        app.mirrors.mirrors_regions_options,
        strings(&["Germany                DE    150", "United States          US   186"])
    );
    app.apply_mirror_defaults();
    assert_eq!(app.mirrors.mirrors_regions_selected.iter().copied().collect::<Vec<usize>>(), vec![1usize]);
    app.apply_mirror_defaults();
    assert_eq!(app.mirrors.mirrors_regions_selected.iter().copied().collect::<Vec<usize>>(), vec![1usize]);
}

#[test]
fn listing_without_rule_offers_no_regions() {
    let mut app = AppState::new(false, 4, true);
    app.load_mirror_options("Germany DE 150\n");
    assert!(app.mirrors.mirrors_loaded);
    assert!(app.mirrors.mirrors_regions_options.is_empty());
    app.apply_mirror_defaults();
    assert!(app.mirrors.mirrors_regions_selected.is_empty());
}

#[test]
fn package_listings_are_read_line_by_line() {
    assert_eq!(listing_items("  xorg-server \n\nxorg-xinit\n"), strings(&["xorg-server", "xorg-xinit"]));
    assert!(listing_items("").is_empty());
}

#[test]
fn package_name_from_description() {
    let info = "Repository      : extra\nName            : firefox\nVersion         : 1.0-1\n";
    assert_eq!(package_name_from_info(info), Some("firefox".to_string()));
    assert_eq!(package_name_from_info("Repository : core\n"), None);
    assert_eq!(package_name_from_info("Name:: base :\n"), Some("base :".to_string()));
}
