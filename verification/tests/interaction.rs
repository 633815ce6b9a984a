use archinstall_rs::screens::{
    change_bootloader_value, change_experience_value, handle_enter_bootloader, handle_enter_experience,
    move_bootloader_down, move_bootloader_up, move_experience_down, move_experience_up, ScreenAction,
};
use archinstall_rs::sets::StringSet;
use archinstall_rs::space::{conflicting_packages, handle_space, toggle_driver_row};
use archinstall_rs::state::AppState;
use archinstall_rs::types::{AdditionalPackage, Focus, PopupKind};

fn strings(items: &[&str]) -> Vec<String> {
    items.iter().map(|s| s.to_string()).collect()
}

fn no_group() -> (Vec<String>, StringSet) {
    (Vec::new(), StringSet::new())
}

fn list_popup(app: &mut AppState, kind: PopupKind, items: &[&str], highlighted: usize) {
    app.popup.popup_open = true;
    app.popup.popup_kind = Some(kind);
    app.popup.popup_items = strings(items);
    app.popup.popup_visible_indices = (0..items.len()).collect();
    app.popup.popup_selected_visible = highlighted;
}

fn space(app: &mut AppState) -> bool {
    let (g, c) = no_group();
    handle_space(app, &g, &c)
}

#[test]
fn space_toggles_kernel_twice_back() {
    let mut app = AppState::new(false, 4, true);
    app.open_kernels_popup();
    app.popup.popup_selected_visible = 2;
    assert!(!space(&mut app));
    assert_eq!(app.boot.selected_kernels.items(), &strings(&["linux", "linux-lts"]));
    assert!(!space(&mut app));
    assert_eq!(app.boot.selected_kernels.items(), &strings(&["linux"]));
}

#[test]
fn space_outside_a_list_changes_nothing() {
    let mut app = AppState::new(false, 4, true);
    app.open_kernels_popup();
    app.popup.popup_selected_visible = 9;
    assert!(!space(&mut app));
    assert_eq!(app.boot.selected_kernels.items(), &strings(&["linux"]));
}

#[test]
fn space_on_region_replaces_united_states_default() {
    let mut app = AppState::new(false, 4, true);
    app.mirrors.mirrors_regions_options = strings(&["Germany", "United States          US   186", "France"]);
    app.apply_mirror_defaults();
    assert_eq!(app.mirrors.mirrors_regions_selected.iter().copied().collect::<Vec<usize>>(), vec![1usize]);
    list_popup(&mut app, PopupKind::MirrorsRegions, &["Germany", "United States", "France"], 0);
    space(&mut app);
    assert_eq!(app.mirrors.mirrors_regions_selected.iter().copied().collect::<Vec<usize>>(), vec![0usize]);
    app.popup.popup_selected_visible = 2;
    space(&mut app);
    assert_eq!(app.mirrors.mirrors_regions_selected.iter().copied().collect::<Vec<usize>>(), vec![0usize, 2]);
    space(&mut app);
    assert_eq!(app.mirrors.mirrors_regions_selected.iter().copied().collect::<Vec<usize>>(), vec![0usize]);
}

#[test]
fn space_on_aur_opens_helper_list_and_dropping_it_forgets_helper() {
    let mut app = AppState::new(false, 4, true);
    list_popup(&mut app, PopupKind::OptionalRepos, &["multilib", "testing", "AUR"], 2);
    space(&mut app);
    assert!(app.mirrors.aur_selected);
    assert_eq!(app.mirrors.optional_repos_selected.iter().copied().collect::<Vec<usize>>(), vec![0usize, 2]);
    assert_eq!(app.popup.popup_kind, Some(PopupKind::AurHelperSelect));
    assert_eq!(app.popup.popup_items.len(), 2);
    app.popup.popup_selected_visible = 1;
    space(&mut app);
    assert_eq!(app.mirrors.aur_helper_index, Some(1));
    list_popup(&mut app, PopupKind::OptionalRepos, &["multilib", "testing", "AUR"], 2);
    space(&mut app);
    assert!(!app.mirrors.aur_selected);
    assert_eq!(app.mirrors.aur_helper_index, None);
    assert_eq!(app.mirrors.optional_repos_selected.iter().copied().collect::<Vec<usize>>(), vec![0usize]);
}

#[test]
fn space_on_desktop_sets_default_login_manager() {
    let mut app = AppState::new(false, 4, true);
    app.open_desktop_environment_popup();
    app.popup.popup_selected_visible = 9; // KDE Plasma
    space(&mut app);
    assert!(app.experience.selected_desktop_envs.is_empty());
    assert_eq!(app.experience.selected_login_manager, None);
    app.popup.popup_selected_visible = 7; // GNOME
    space(&mut app);
    assert_eq!(app.experience.selected_login_manager, Some("gdm".to_string()));
    app.popup.popup_selected_visible = 2; // Budgie
    space(&mut app);
    assert_eq!(app.experience.selected_login_manager, Some("gdm".to_string()));
    app.popup.popup_selected_visible = 7; // GNOME off: Budgie is first
    space(&mut app);
    assert_eq!(app.experience.selected_desktop_envs.items(), &strings(&["Budgie"]));
    assert_eq!(app.experience.selected_login_manager, Some("lightdm-slick-greeter".to_string()));
    app.popup.popup_selected_visible = 0; // Awesome: no login manager suits it
    space(&mut app);
    app.popup.popup_selected_visible = 2; // Budgie off: Awesome is first
    space(&mut app);
    assert_eq!(app.experience.selected_login_manager, None);
}

#[test]
fn space_on_login_manager_list() {
    let mut app = AppState::new(false, 4, true);
    app.open_desktop_environment_popup();
    app.popup.popup_login_focus = true;
    app.popup.popup_login_selected_index = 4;
    space(&mut app);
    assert_eq!(app.experience.selected_login_manager, Some("ly".to_string()));
    assert!(app.experience.login_manager_user_set);
    app.popup.popup_login_selected_index = 0;
    space(&mut app);
    assert_eq!(app.experience.selected_login_manager, None);
    app.popup.popup_login_selected_index = 40;
    space(&mut app);
    assert_eq!(app.experience.selected_login_manager, None);
}

#[test]
fn space_on_desktop_package_list() {
    let mut app = AppState::new(false, 4, true);
    app.open_desktop_environment_popup();
    app.popup.popup_packages_focus = true;
    app.popup.popup_selected_visible = 14; // Xfce4
    app.popup.popup_packages_selected_index = 1; // pavucontrol
    space(&mut app);
    let set = app.experience.selected_env_packages.get("Xfce4").unwrap();
    assert_eq!(set.items(), &strings(&["gvfs", "xarchiver", "xfce4", "xfce4-goodies"]));
    app.popup.popup_packages_selected_index = 9;
    space(&mut app);
    let set = app.experience.selected_env_packages.get("Xfce4").unwrap();
    assert_eq!(set.items().len(), 4);
}

#[test]
fn driver_rows_keep_nvidia_drivers_exclusive() {
    let mut d = StringSet::new();
    toggle_driver_row(&mut d, 16);
    assert_eq!(d.items(), &strings(&["dkms", "libva-nvidia-driver", "nvidia-open-dkms"]));
    toggle_driver_row(&mut d, 17);
    assert_eq!(d.items(), &strings(&["dkms", "libva-nvidia-driver", "nvidia-dkms"]));
    toggle_driver_row(&mut d, 99);
    assert_eq!(d.items(), &strings(&["dkms", "libva-nvidia-driver"]));
    toggle_driver_row(&mut d, 9);
    assert_eq!(d.items(), &strings(&["xf86-video-nouveau"]));
}

#[test]
fn driver_group_headers() {
    let mut d = StringSet::new();
    d.insert("nvidia-dkms".to_string());
    toggle_driver_row(&mut d, 0);
    assert_eq!(d.items().len(), 12);
    assert!(d.contains("libva-mesa-driver"));
    assert!(!d.contains("nvidia-dkms"));
    toggle_driver_row(&mut d, 0);
    assert!(d.is_empty());
    toggle_driver_row(&mut d, 12);
    assert_eq!(d.items(), &strings(&["dkms", "libva-nvidia-driver"]));
    d.insert("nvidia-dkms".to_string());
    toggle_driver_row(&mut d, 12);
    assert!(d.is_empty());
    toggle_driver_row(&mut d, 15);
    assert!(d.is_empty());
}

#[test]
fn space_on_servers_and_their_packages() {
    let mut app = AppState::new(false, 4, true);
    app.open_server_type_popup();
    app.popup.popup_selected_visible = 0; // Cockpit
    space(&mut app);
    assert_eq!(app.experience.selected_server_types.items(), &strings(&["Cockpit"]));
    assert_eq!(
        app.experience.selected_server_packages.get("Cockpit").unwrap().items(),
        &strings(&["cockpit", "packagekit", "udisk2"])
    );
    app.popup.popup_packages_focus = true;
    app.popup.popup_packages_selected_index = 7;
    space(&mut app);
    assert_eq!(
        app.experience.selected_server_packages.get("Cockpit").unwrap().items(),
        &strings(&["cockpit", "packagekit"])
    );
    app.popup.popup_packages_focus = false;
    space(&mut app);
    assert!(app.experience.selected_server_types.is_empty());
    assert!(app.experience.selected_server_packages.get("Cockpit").is_none());
}

#[test]
fn space_on_xorg() {
    let mut app = AppState::new(false, 4, true);
    app.open_xorg_type_popup();
    space(&mut app);
    assert_eq!(app.experience.selected_xorg_types.items(), &strings(&["Xorg"]));
    assert_eq!(app.experience.selected_xorg_packages.get("Xorg").unwrap().items(), &strings(&["xorg-server"]));
    app.popup.popup_drivers_focus = true;
    app.popup.popup_drivers_selected_index = 3; // mesa
    space(&mut app);
    assert!(!app.experience.selected_graphic_drivers.contains("mesa"));
}

#[test]
fn space_on_group_packages() {
    let mut app = AppState::new(false, 4, true);
    list_popup(&mut app, PopupKind::AdditionalPackageGroupPackages, &["zsh", "fish"], 1);
    space(&mut app);
    assert_eq!(app.packages.addpkgs_group_pkg_selected.items(), &strings(&["fish"]));
    space(&mut app);
    assert!(app.packages.addpkgs_group_pkg_selected.is_empty());
}

#[test]
fn space_on_group_select_toggles_and_stores() {
    let mut app = AppState::new(false, 4, true);
    list_popup(&mut app, PopupKind::AdditionalPackageGroupSelect, &["Shells"], 0);
    app.popup.popup_packages_focus = true;
    app.packages.addpkgs_group_pkg_index = 5;
    let pkgs = strings(&["bash", "zsh"]);
    let none = StringSet::new();
    assert!(!handle_space(&mut app, &pkgs, &none));
    assert_eq!(app.packages.addpkgs_group_pkg_selected.items(), &strings(&["zsh"]));
    assert_eq!(app.packages.addpkgs_group_accum_selected.items(), &strings(&["zsh"]));
    assert_eq!(app.packages.addpkgs_group_selected.get("Shells").unwrap().items(), &strings(&["zsh"]));
    handle_space(&mut app, &pkgs, &none);
    assert!(app.packages.addpkgs_group_pkg_selected.is_empty());
    assert!(app.packages.addpkgs_group_accum_selected.is_empty());
    assert!(app.packages.addpkgs_group_selected.get("Shells").unwrap().is_empty());
}

#[test]
fn space_on_group_select_drops_added_package() {
    let mut app = AppState::new(false, 4, true);
    list_popup(&mut app, PopupKind::AdditionalPackageGroupSelect, &["Shells"], 0);
    app.popup.popup_packages_focus = true;
    app.packages.additional_packages.push(AdditionalPackage {
        name: "ZSH".to_string(),
        repo: "extra".to_string(),
        version: "5".to_string(),
        description: String::new(),
    });
    app.packages.addpkgs_group_pkg_index = 1;
    let pkgs = strings(&["bash", "zsh"]);
    handle_space(&mut app, &pkgs, &StringSet::new());
    assert!(app.packages.additional_packages.is_empty());
}

#[test]
fn space_on_group_select_conflicting_package() {
    let mut app = AppState::new(false, 4, true);
    list_popup(&mut app, PopupKind::AdditionalPackageGroupSelect, &["Editors"], 0);
    app.popup.popup_packages_focus = true;
    app.packages.addpkgs_group_pkg_index = 0;
    let pkgs = strings(&["vim"]);
    let mut conflicting = StringSet::new();
    conflicting.insert("vim".to_string());
    // vim comes with KDE Plasma: the space bar takes it out of that section.
    handle_space(&mut app, &pkgs, &conflicting);
    assert!(!app.experience.selected_env_packages.get("KDE Plasma").unwrap().contains("vim"));
    assert!(app.packages.additional_packages.is_empty());
    // Now no section installs it: it is added with a note.
    handle_space(&mut app, &pkgs, &conflicting);
    assert_eq!(app.packages.additional_packages.len(), 1);
    assert_eq!(app.packages.additional_packages[0].name, "vim");
    assert_eq!(
        app.packages.additional_packages[0].description,
        "Already selected in another section (group override)"
    );
    assert!(app.packages.addpkgs_group_pkg_selected.contains("vim"));
}

fn on_screen(app: &mut AppState, index: usize) {
    app.set_selected_index(index);
    app.set_focus(Focus::Content);
}

#[test]
fn bootloader_cursor_wraps() {
    let mut app = AppState::new(false, 4, true);
    on_screen(&mut app, 6);
    move_bootloader_up(&mut app);
    assert_eq!(app.boot.bootloader_focus_index, 4);
    move_bootloader_down(&mut app);
    assert_eq!(app.boot.bootloader_focus_index, 0);
    move_bootloader_down(&mut app);
    change_bootloader_value(&mut app, true);
    assert_eq!(app.boot.bootloader_index, 1);
    app.set_focus(Focus::Menu);
    move_bootloader_down(&mut app);
    assert_eq!(app.boot.bootloader_focus_index, 1);
}

#[test]
fn bootloader_enter() {
    let mut app = AppState::new(false, 4, false);
    app.boot.bootloader_focus_index = 3;
    assert_eq!(handle_enter_bootloader(&mut app), ScreenAction::RefreshUkiVisibility);
    assert_eq!(app.boot.bootloader_index, 3);
    app.boot.bootloader_index = 0;
    app.boot.bootloader_focus_index = 4;
    assert_eq!(handle_enter_bootloader(&mut app), ScreenAction::Advance);
    assert_eq!(app.boot.bootloader_index, 1);
    assert_eq!(app.current_bootloader_label(), "Grub");
    app.boot.bootloader_index = 2;
    assert_eq!(handle_enter_bootloader(&mut app), ScreenAction::Advance);
    assert_eq!(app.boot.bootloader_index, 1);
    app.boot.bootloader_index = 3;
    assert_eq!(handle_enter_bootloader(&mut app), ScreenAction::Advance);
    assert_eq!(app.boot.bootloader_index, 3);
    let mut uefi = AppState::new(false, 4, true);
    uefi.boot.bootloader_index = 2;
    uefi.boot.bootloader_focus_index = 4;
    assert_eq!(handle_enter_bootloader(&mut uefi), ScreenAction::Advance);
    assert_eq!(uefi.boot.bootloader_index, 2);
}

#[test]
fn experience_cursor_and_value() {
    let mut app = AppState::new(false, 4, true);
    on_screen(&mut app, 11);
    move_experience_up(&mut app);
    assert_eq!(app.experience.experience_focus_index, 4);
    change_experience_value(&mut app, false);
    assert_eq!(app.experience.experience_mode_index, 0);
    move_experience_down(&mut app);
    move_experience_down(&mut app);
    move_experience_down(&mut app);
    change_experience_value(&mut app, true);
    assert_eq!(app.experience.experience_mode_index, 2);
}

#[test]
fn experience_enter_minimal_asks_then_clears() {
    let mut app = AppState::new(false, 4, true);
    app.experience.experience_focus_index = 1;
    assert_eq!(handle_enter_experience(&mut app), ScreenAction::Stay);
    assert_eq!(app.popup.popup_kind, Some(PopupKind::MinimalClearConfirm));
    assert_eq!(app.popup.popup_items, strings(&["Yes", "No"]));
    app.close_popup();
    app.experience.selected_desktop_envs.clear();
    app.experience.selected_env_packages.clear();
    app.experience.selected_login_manager = None;
    handle_enter_experience(&mut app);
    assert_eq!(app.experience.experience_mode_index, 1);
    assert!(app.experience.selected_graphic_drivers.is_empty());
    assert!(!app.popup.popup_open);
}

#[test]
fn experience_enter_desktop_seeds_drivers() {
    let mut app = AppState::new(false, 4, true);
    app.experience.selected_graphic_drivers.clear();
    app.experience.experience_focus_index = 0;
    handle_enter_experience(&mut app);
    assert_eq!(app.experience.selected_graphic_drivers.len(), 11);
    assert_eq!(app.popup.popup_kind, Some(PopupKind::DesktopEnvSelect));
    app.experience.experience_focus_index = 2;
    handle_enter_experience(&mut app);
    assert_eq!(app.experience.experience_mode_index, 2);
    assert!(app.experience.selected_desktop_envs.is_empty());
    assert_eq!(app.popup.popup_kind, Some(PopupKind::ServerTypeSelect));
    app.experience.experience_focus_index = 3;
    handle_enter_experience(&mut app);
    assert_eq!(app.popup.popup_kind, Some(PopupKind::XorgTypeSelect));
    app.experience.experience_focus_index = 4;
    assert_eq!(handle_enter_experience(&mut app), ScreenAction::Advance);
}

fn drivers_agree(d: &StringSet) -> bool {
    let nvidia = d.contains("nvidia-open-dkms") || d.contains("nvidia-dkms");
    !(d.contains("nvidia-open-dkms") && d.contains("nvidia-dkms"))
        && !(nvidia && (d.contains("xf86-video-nouveau") || d.contains("vulkan-nouveau")))
}

#[test]
fn driver_rows_keep_drivers_in_agreement() {
    let mut d = StringSet::new();
    let presses = [0usize, 16, 5, 17, 9, 12, 0, 16, 12, 17, 3, 99, 5, 16, 0, 0, 12, 12, 9, 17];
    for &row in presses.iter() {
        toggle_driver_row(&mut d, row);
        assert!(drivers_agree(&d), "after row {row}: {:?}", d.items());
    }
}

#[test]
fn conflicting_packages_are_those_a_section_installs() {
    let app = AppState::new(false, 4, true);
    let pkgs = strings(&["vim", "not-in-any-section", "vim"]);
    let c = conflicting_packages(&app.experience, &pkgs);
    assert_eq!(c.items(), &strings(&["vim"]));
    assert!(conflicting_packages(&app.experience, &Vec::new()).is_empty());
}
