//! Keys on the Bootloader and Experience Mode screens: moving the
//! cursor, choosing the option under it, and Enter.
use vstd::prelude::*;
use crate::popups::{desktop_choices, list_popup, only_popup_changed, server_choices};
use crate::sets::{members, StringSet};
use crate::state::{default_graphic_drivers, AppState, BootState, ExperienceState, PopupState};
use crate::types::{Focus, PopupKind, Screen};

verus! {

/// What the caller does after Enter on a screen.
#[derive(Clone, Copy, Debug, PartialEq, Eq, Structural)]
pub enum ScreenAction {
    /// Nothing more.
    Stay,
    /// The bootloader changed: show or hide the Unified Kernel Images
    /// entry to match.
    RefreshUkiVisibility,
    /// Go on to the next screen.
    Advance,
}

/// The menu entry selected in `s` is `screen` and the content pane has
/// the keyboard.
pub open spec fn editing(s: AppState, screen: Screen) -> bool {
    s.menu_entries@[s.selected_index as int].screen == screen && s.focus == Focus::Content
}

/// The cursor one row up, wrapping from the first row to the last of `n`.
pub open spec fn row_up(i: usize, n: usize) -> usize {
    if i == 0 { (n - 1) as usize } else { (i - 1) as usize }
}

/// The cursor one row down, wrapping after the last of `n` rows.
pub open spec fn row_down(i: usize, n: usize) -> usize {
    ((i + 1) % (n as int)) as usize
}

// ---------------------------------------------------------------------
// Bootloader.
// ---------------------------------------------------------------------

/// Up on the Bootloader screen: the cursor moves over the four
/// bootloaders and Continue, wrapping.
pub fn move_bootloader_up(app: &mut AppState)
    requires
        old(app).selected_index < old(app).menu_entries@.len(),
    ensures
        *final(app) == (if editing(*old(app), Screen::Bootloader) {
            AppState { boot: BootState { bootloader_focus_index: row_up(old(app).boot.bootloader_focus_index, 5), ..old(app).boot }, ..*old(app) }
        } else {
            *old(app)
        }),
{
    if app.current_screen() != Screen::Bootloader || app.focus != Focus::Content {
        return;
    }
    if app.boot.bootloader_focus_index == 0 {
        app.boot.bootloader_focus_index = 4;
    } else {
        app.boot.bootloader_focus_index = app.boot.bootloader_focus_index - 1;
    }
}

/// Down on the Bootloader screen (see `move_bootloader_up`).
pub fn move_bootloader_down(app: &mut AppState)
    requires
        old(app).selected_index < old(app).menu_entries@.len(),
    ensures
        *final(app) == (if editing(*old(app), Screen::Bootloader) {
            AppState { boot: BootState { bootloader_focus_index: row_down(old(app).boot.bootloader_focus_index, 5), ..old(app).boot }, ..*old(app) }
        } else {
            *old(app)
        }),
{
    if app.current_screen() != Screen::Bootloader || app.focus != Focus::Content {
        return;
    }
    app.boot.bootloader_focus_index = ((app.boot.bootloader_focus_index as u128 + 1) % 5) as usize;
}

/// Left or right on the Bootloader screen chooses the bootloader under
/// the cursor.
pub fn change_bootloader_value(app: &mut AppState, _next: bool)
    requires
        old(app).selected_index < old(app).menu_entries@.len(),
    ensures
        *final(app) == (if editing(*old(app), Screen::Bootloader) && old(app).boot.bootloader_focus_index < 4 {
            AppState { boot: BootState { bootloader_index: old(app).boot.bootloader_focus_index, ..old(app).boot }, ..*old(app) }
        } else {
            *old(app)
        }),
{
    if app.current_screen() != Screen::Bootloader || app.focus != Focus::Content {
        return;
    }
    if app.boot.bootloader_focus_index < 4 {
        app.boot.bootloader_index = app.boot.bootloader_focus_index;
    }
}

/// Enter on the Bootloader screen (see `handle_enter_bootloader`).
pub open spec fn bootloader_entered(old: AppState, new: AppState, r: ScreenAction) -> bool {
    if old.boot.bootloader_focus_index < 4 {
        &&& r == ScreenAction::RefreshUkiVisibility
        &&& new == (AppState { boot: BootState { bootloader_index: old.boot.bootloader_focus_index, ..old.boot }, ..old })
    } else {
        &&& r == ScreenAction::Advance
        &&& new == (if !old.firmware_uefi && old.boot.bootloader_index != 1 && old.boot.bootloader_index != 3 {
            AppState { boot: BootState { bootloader_index: 1, ..old.boot }, ..old }
        } else {
            old
        })
    }
}

/// Leaving the Bootloader screen on a machine without UEFI always leaves
/// GRUB or Limine chosen, the two bootloaders that work without UEFI.
pub proof fn lemma_bios_leaves_with_grub_or_limine(old: AppState, new: AppState, r: ScreenAction)
    requires
        bootloader_entered(old, new, r),
        r == ScreenAction::Advance,
        !old.firmware_uefi,
    ensures
        new.boot.bootloader_index == 1 || new.boot.bootloader_index == 3,
{
}

/// Up then down, or down then up, brings the cursor back to its row.
pub proof fn lemma_rows_wrap(i: usize, n: usize)
    requires
        i < n,
    ensures
        row_down(row_up(i, n), n) == i,
        row_up(row_down(i, n), n) == i,
{
    if i == 0 {
        assert((n as int) % (n as int) == 0) by (nonlinear_arith)
            requires n > 0;
    } else {
        assert(((i as int)) % (n as int) == i) by (nonlinear_arith)
            requires 0 < i < n;
    }
    if i + 1 == n {
        assert((n as int) % (n as int) == 0) by (nonlinear_arith)
            requires n > 0;
    } else {
        assert(((i + 1) as int) % (n as int) == i + 1) by (nonlinear_arith)
            requires 0 <= i, i + 1 < n;
    }
}

/// Enter on the Bootloader screen: on a bootloader row it chooses that
/// bootloader; on Continue it moves on, first replacing any bootloader
/// but GRUB and Limine by GRUB when the machine did not boot through UEFI.
pub fn handle_enter_bootloader(app: &mut AppState) -> (r: ScreenAction)
    ensures
        bootloader_entered(*old(app), *final(app), r),
{
    if app.boot.bootloader_focus_index < 4 {
        app.boot.bootloader_index = app.boot.bootloader_focus_index;
        ScreenAction::RefreshUkiVisibility
    } else {
        if !app.is_uefi() && app.boot.bootloader_index != 1 && app.boot.bootloader_index != 3 {
            app.boot.bootloader_index = 1;
        }
        ScreenAction::Advance
    }
}

// ---------------------------------------------------------------------
// Experience Mode.
// ---------------------------------------------------------------------

/// Up on the Experience Mode screen: the cursor moves over the four
/// modes and Continue, wrapping.
pub fn move_experience_up(app: &mut AppState)
    requires
        old(app).selected_index < old(app).menu_entries@.len(),
    ensures
        *final(app) == (if editing(*old(app), Screen::ExperienceMode) {
            AppState { experience: ExperienceState { experience_focus_index: row_up(old(app).experience.experience_focus_index, 5), ..old(app).experience }, ..*old(app) }
        } else {
            *old(app)
        }),
{
    if app.current_screen() != Screen::ExperienceMode || app.focus != Focus::Content {
        return;
    }
    if app.experience.experience_focus_index == 0 {
        app.experience.experience_focus_index = 4;
    } else {
        app.experience.experience_focus_index = app.experience.experience_focus_index - 1;
    }
}

/// Down on the Experience Mode screen (see `move_experience_up`).
pub fn move_experience_down(app: &mut AppState)
    requires
        old(app).selected_index < old(app).menu_entries@.len(),
    ensures
        *final(app) == (if editing(*old(app), Screen::ExperienceMode) {
            AppState { experience: ExperienceState { experience_focus_index: row_down(old(app).experience.experience_focus_index, 5), ..old(app).experience }, ..*old(app) }
        } else {
            *old(app)
        }),
{
    if app.current_screen() != Screen::ExperienceMode || app.focus != Focus::Content {
        return;
    }
    app.experience.experience_focus_index = ((app.experience.experience_focus_index as u128 + 1) % 5) as usize;
}

/// Left or right on the Experience Mode screen chooses the mode under
/// the cursor.
pub fn change_experience_value(app: &mut AppState, _next: bool)
    requires
        old(app).selected_index < old(app).menu_entries@.len(),
    ensures
        *final(app) == (if editing(*old(app), Screen::ExperienceMode) && old(app).experience.experience_focus_index <= 3 {
            AppState { experience: ExperienceState { experience_mode_index: old(app).experience.experience_focus_index, ..old(app).experience }, ..*old(app) }
        } else {
            *old(app)
        }),
{
    if app.current_screen() != Screen::ExperienceMode || app.focus != Focus::Content {
        return;
    }
    if app.experience.experience_focus_index <= 3 {
        app.experience.experience_mode_index = app.experience.experience_focus_index;
    }
}

/// The driver set after a desktop or Xorg mode was entered: the default
/// drivers when none were chosen (Minimal clears them), else unchanged.
pub open spec fn seeded_drivers(d: Seq<Seq<char>>) -> Set<Seq<char>> {
    if d.len() == 0 { default_graphic_drivers().to_set() } else { members(d) }
}

/// `f` is `e` in mode `mode` with no desktop, no desktop packages and
/// no login manager (the drivers are stated apart).
pub open spec fn desktops_cleared(e: ExperienceState, f: ExperienceState, mode: usize) -> bool {
    &&& f == (ExperienceState {
        experience_mode_index: mode,
        selected_desktop_envs: f.selected_desktop_envs,
        selected_env_packages: f.selected_env_packages,
        selected_login_manager: None,
        login_manager_user_set: false,
        selected_graphic_drivers: f.selected_graphic_drivers,
        ..e
    })
    &&& f.selected_desktop_envs@.len() == 0
    &&& f.selected_env_packages@ == Map::<Seq<char>, Seq<Seq<char>>>::empty()
}

/// The popup state that the desktop popup starts from: all its side
/// lists unfocused and at their first row.
pub open spec fn desktop_popup_reset(p: PopupState) -> PopupState {
    PopupState {
        popup_packages_focus: false,
        popup_packages_selected_index: 0,
        popup_drivers_focus: false,
        popup_drivers_selected_index: 0,
        popup_login_focus: false,
        popup_login_selected_index: 0,
        ..p
    }
}

/// The popup state that the Xorg popup starts from.
pub open spec fn xorg_popup_reset(p: PopupState) -> PopupState {
    PopupState {
        popup_packages_focus: false,
        popup_packages_selected_index: 0,
        popup_drivers_focus: false,
        popup_drivers_selected_index: 0,
        ..p
    }
}

/// Some desktop setting would be lost by switching to Minimal.
pub open spec fn has_desktop_settings(e: ExperienceState) -> bool {
    e.selected_desktop_envs@.len() > 0
        || e.selected_env_packages@.dom() != Set::<Seq<char>>::empty()
        || e.selected_login_manager is Some
        || e.login_manager_user_set
}

/// Enter on the Experience Mode screen, by the row under the cursor.
///
/// Desktop: desktop mode, drivers seeded when empty, and the desktop
/// list. Minimal: asks first when desktop settings would be lost, else
/// switches to Minimal and clears the desktop settings and drivers.
/// Server: server mode without desktop settings, and the server list.
/// Xorg: Xorg mode without desktop settings, drivers seeded when empty,
/// and the Xorg list. Continue: nothing here (the caller moves on).
pub open spec fn experience_entered(old: AppState, new: AppState) -> bool {
    let e = old.experience;
    let f = new.experience;
    let i = e.experience_focus_index;
    if i == 0 {
        &&& new == (AppState { experience: f, popup: new.popup, ..old })
        &&& f == (ExperienceState { experience_mode_index: 0, selected_graphic_drivers: f.selected_graphic_drivers, ..e })
        &&& members(f.selected_graphic_drivers@) == seeded_drivers(e.selected_graphic_drivers@)
        &&& list_popup(desktop_popup_reset(old.popup), new.popup, PopupKind::DesktopEnvSelect, desktop_choices())
    } else if i == 1 {
        if has_desktop_settings(e) {
            &&& only_popup_changed(old, new)
            &&& list_popup(old.popup, new.popup, PopupKind::MinimalClearConfirm, seq!["Yes"@, "No"@])
        } else {
            &&& new == (AppState { experience: f, ..old })
            &&& desktops_cleared(e, f, 1)
            &&& f.selected_graphic_drivers@.len() == 0
        }
    } else if i == 2 {
        &&& new == (AppState { experience: f, popup: new.popup, ..old })
        &&& desktops_cleared(e, f, 2)
        &&& f.selected_graphic_drivers == e.selected_graphic_drivers
        &&& list_popup(old.popup, new.popup, PopupKind::ServerTypeSelect, server_choices())
    } else if i == 3 {
        &&& new == (AppState { experience: f, popup: new.popup, ..old })
        &&& desktops_cleared(e, f, 3)
        &&& members(f.selected_graphic_drivers@) == seeded_drivers(e.selected_graphic_drivers@)
        &&& list_popup(xorg_popup_reset(old.popup), new.popup, PopupKind::XorgTypeSelect, seq!["Xorg"@])
    } else {
        new == old
    }
}

/// Fills an empty driver set with the default drivers.
fn seed_drivers(d: &mut StringSet)
    ensures
        members(final(d)@) == seeded_drivers(old(d)@),
{
    if d.is_empty() {
        let defaults = crate::popups::new_string_vec(&[
            "intel-media-driver", "libva-intel-driver", "mesa", "vulkan-intel", "vulkan-nouveau",
            "vulkan-radeon", "xf86-video-amdgpu", "xf86-video-ati", "xf86-video-nouveau",
            "xorg-server", "xorg-xinit",
        ]);
        assert(defaults.deep_view() =~= default_graphic_drivers());
        d.insert_all(&defaults);
        assert(members(old(d)@) =~= Set::<Seq<char>>::empty());
        assert(members(d@) =~= default_graphic_drivers().to_set());
    }
}

/// Clears the desktop settings and sets the mode.
fn clear_desktops(e: &mut ExperienceState, mode: usize)
    ensures
        desktops_cleared(*old(e), *final(e), mode),
        final(e).selected_graphic_drivers == old(e).selected_graphic_drivers,
{
    e.experience_mode_index = mode;
    e.selected_desktop_envs.clear();
    e.selected_env_packages.clear();
    e.selected_login_manager = None;
    e.login_manager_user_set = false;
}

/// Enter on the Experience Mode screen (see `experience_entered`); on
/// Continue it asks the caller to move on.
pub fn handle_enter_experience(app: &mut AppState) -> (r: ScreenAction)
    ensures
        experience_entered(*old(app), *final(app)),
        r == (if old(app).experience.experience_focus_index == 4 { ScreenAction::Advance } else { ScreenAction::Stay }),
{
    let i = app.experience.experience_focus_index;
    if i == 0 {
        app.experience.experience_mode_index = 0;
        seed_drivers(&mut app.experience.selected_graphic_drivers);
        app.open_desktop_environment_popup();
        ScreenAction::Stay
    } else if i <= 3 {
        if i == 1 {
            let e = &app.experience;
            if !e.selected_desktop_envs.is_empty() || !e.selected_env_packages.is_empty()
                || e.selected_login_manager.is_some() || e.login_manager_user_set {
                app.open_minimal_clear_confirm();
            } else {
                clear_desktops(&mut app.experience, 1);
                app.experience.selected_graphic_drivers.clear();
            }
        } else if i == 2 {
            clear_desktops(&mut app.experience, 2);
            app.open_server_type_popup();
        } else {
            clear_desktops(&mut app.experience, 3);
            seed_drivers(&mut app.experience.selected_graphic_drivers);
            app.open_xorg_type_popup();
        }
        ScreenAction::Stay
    } else if i == 4 {
        ScreenAction::Advance
    } else {
        ScreenAction::Stay
    }
}


/// Enter on a row of the Experience Mode screen switches to the mode of
/// that row and opens its list: Desktop (row 0) the desktop list, Server
/// (row 2) the server list, Xorg (row 3) the Xorg list. Minimal (row 1)
/// asks before it drops desktop settings, and otherwise leaves no
/// desktop, no login manager and no driver chosen. Continue changes
/// nothing here.
pub proof fn lemma_experience_row_sets_mode(old: AppState, new: AppState)
    requires
        experience_entered(old, new),
    ensures
        old.experience.experience_focus_index == 0 ==> new.experience.experience_mode_index == 0
            && new.popup.popup_open && new.popup.popup_kind == Some(PopupKind::DesktopEnvSelect),
        old.experience.experience_focus_index == 1 && has_desktop_settings(old.experience)
            ==> new.experience == old.experience && new.popup.popup_open
            && new.popup.popup_kind == Some(PopupKind::MinimalClearConfirm),
        old.experience.experience_focus_index == 1 && !has_desktop_settings(old.experience)
            ==> new.experience.experience_mode_index == 1 && new.experience.selected_desktop_envs@.len() == 0
            && new.experience.selected_login_manager == None::<String>
            && new.experience.selected_graphic_drivers@.len() == 0,
        old.experience.experience_focus_index == 2 ==> new.experience.experience_mode_index == 2
            && new.popup.popup_open && new.popup.popup_kind == Some(PopupKind::ServerTypeSelect)
            && new.experience.selected_graphic_drivers == old.experience.selected_graphic_drivers,
        old.experience.experience_focus_index == 3 ==> new.experience.experience_mode_index == 3
            && new.popup.popup_open && new.popup.popup_kind == Some(PopupKind::XorgTypeSelect),
        old.experience.experience_focus_index >= 4 ==> new == old,
{
}

} // verus!
