//! What the space bar does in a list popup: it toggles the highlighted
//! entry of the list that the popup edits (mirror regions, optional
//! repositories, kernels, desktop environments and their packages,
//! graphics drivers, server and Xorg setups, package groups).
use vstd::prelude::*;
use crate::catalog::{
    default_login_manager, default_login_manager_of, driver_row, driver_rows, env_default_packages,
    env_package_list, login_manager_at, login_manager_choice, open_source_driver_list, open_source_drivers,
    server_default_packages, server_package_list, xorg_default_packages, xorg_package_list,
};
use crate::popups::{aur_helper_choices, first_equal_ignore_case, shifted};
use crate::popups::list_popup;
use crate::sets::{members, toggled, StringSet, StringSetMap};
use crate::state::{AppState, BootState, ExperienceState, MirrorState, PackageState, PopupState};
use crate::system::{additional_names, grouped_package};
use crate::text::{has_substring, owned, str_contains, str_eq, str_eq_ignore_ascii_case};
use crate::types::AdditionalPackage;
use crate::types::PopupKind;

verus! {

broadcast use {vstd::std_specs::btree::group_btree_axioms, vstd::laws_cmp::group_laws_cmp};

/// The position, among all items, of the highlighted row.
pub open spec fn highlighted(p: PopupState) -> Option<usize> {
    if p.popup_selected_visible < p.popup_visible_indices@.len() {
        Some(p.popup_visible_indices@[p.popup_selected_visible as int])
    } else {
        None
    }
}

/// The highlighted item's text.
pub open spec fn highlighted_item(p: PopupState) -> Option<Seq<char>> {
    match highlighted(p) {
        Some(g) => if g < p.popup_items@.len() { Some(p.popup_items@[g as int]@) } else { None },
        None => None,
    }
}

fn highlighted_index(p: &PopupState) -> (r: Option<usize>)
    ensures
        r == highlighted(*p),
{
    if p.popup_selected_visible < p.popup_visible_indices.len() {
        Some(p.popup_visible_indices[p.popup_selected_visible])
    } else {
        None
    }
}

/// The highlighted item's text (see `highlighted_item`).
pub fn highlighted_text_of(p: &PopupState) -> (r: Option<String>)
    ensures
        match r {
            Some(s) => highlighted_item(*p) == Some(s@),
            None => highlighted_item(*p) is None,
        },
{
    match highlighted_index(p) {
        Some(g) => if g < p.popup_items.len() { Some(p.popup_items[g].clone()) } else { None },
        None => None,
    }
}

// ---------------------------------------------------------------------
// Mirror regions and repositories.
// ---------------------------------------------------------------------

/// The least member of a set of indices (the first that a walk of the
/// ascending set meets).
pub open spec fn is_least_member(s: Set<usize>, o: usize) -> bool {
    s.contains(o) && forall|k: usize| k < o ==> !s.contains(k)
}

/// The least member of `s`, where it has one.
pub open spec fn least_member(s: Set<usize>) -> usize {
    choose|o: usize| is_least_member(s, o)
}

/// A set has at most one least member.
pub proof fn lemma_least_member_unique(s: Set<usize>, o: usize)
    requires
        is_least_member(s, o),
    ensures
        least_member(s) == o,
{
    let p = least_member(s);
    assert(is_least_member(s, p));
    if p < o {
        assert(!s.contains(p));
    } else if o < p {
        assert(!s.contains(o));
    }
}

/// The regions chosen after the space bar on region `g`: a chosen region
/// is dropped; a new one is added, and when the only region chosen so
/// far is a United States one, that default gives way to it.
pub open spec fn regions_after(m: MirrorState, g: usize) -> Set<usize> {
    let sel = m.mirrors_regions_selected@;
    if sel.contains(g) {
        sel.remove(g)
    } else {
        let only = least_member(sel);
        let drop_default = sel.len() == 1 && sel.contains(only) && only != g
            && only < m.mirrors_regions_options@.len()
            && has_substring(m.mirrors_regions_options@[only as int]@, "United States"@);
        (if drop_default { sel.remove(only) } else { sel }).insert(g)
    }
}

/// The space bar in the mirror-regions popup.
pub open spec fn space_on_regions(old: AppState, new: AppState) -> bool {
    match highlighted(old.popup) {
        Some(g) => {
            &&& new == (AppState { mirrors: new.mirrors, ..old })
            &&& new.mirrors == (MirrorState { mirrors_regions_selected: new.mirrors.mirrors_regions_selected, ..old.mirrors })
            &&& new.mirrors.mirrors_regions_selected@ == regions_after(old.mirrors, g)
        },
        None => new == old,
    }
}

/// The space bar on a region chooses it exactly when it was not chosen,
/// and drops no other region but the United States default.
pub proof fn lemma_region_toggles(m: MirrorState, g: usize, r: usize)
    requires
        r != g,
        m.mirrors_regions_selected@.contains(r),
        !(m.mirrors_regions_selected@.len() == 1 && r < m.mirrors_regions_options@.len()
            && has_substring(m.mirrors_regions_options@[r as int]@, "United States"@)),
    ensures
        regions_after(m, g).contains(g) == !m.mirrors_regions_selected@.contains(g),
        regions_after(m, g).contains(r),
{
}

/// `i` names the AUR among the optional repositories.
pub open spec fn is_aur_option(m: MirrorState, i: usize) -> bool {
    i < m.optional_repos_options@.len() && m.optional_repos_options@[i as int]@ == "AUR"@
}

/// The space bar in the optional-repositories popup: the highlighted
/// repository is toggled. Dropping the AUR forgets the AUR helper;
/// choosing it opens the helper list at once.
pub open spec fn space_on_repos(old: AppState, new: AppState) -> bool {
    match highlighted(old.popup) {
        Some(g) => {
            let was = old.mirrors.optional_repos_selected@.contains(g);
            &&& new.mirrors.optional_repos_selected@ == toggled(old.mirrors.optional_repos_selected@, g)
            &&& if was {
                &&& new == (AppState { mirrors: new.mirrors, ..old })
                &&& new.mirrors == (MirrorState {
                    optional_repos_selected: new.mirrors.optional_repos_selected,
                    aur_selected: if is_aur_option(old.mirrors, g) { false } else { old.mirrors.aur_selected },
                    aur_helper_index: if is_aur_option(old.mirrors, g) { None } else { old.mirrors.aur_helper_index },
                    ..old.mirrors
                })
            } else if is_aur_option(old.mirrors, g) {
                &&& new == (AppState { mirrors: new.mirrors, popup: new.popup, ..old })
                &&& new.mirrors == (MirrorState {
                    optional_repos_selected: new.mirrors.optional_repos_selected,
                    aur_selected: true,
                    ..old.mirrors
                })
                &&& list_popup(old.popup, new.popup, PopupKind::AurHelperSelect, aur_helper_choices())
            } else {
                &&& new == (AppState { mirrors: new.mirrors, ..old })
                &&& new.mirrors == (MirrorState { optional_repos_selected: new.mirrors.optional_repos_selected, ..old.mirrors })
            }
        },
        None => new == old,
    }
}

/// The space bar in the AUR-helper popup picks the highlighted helper.
pub open spec fn space_on_aur_helper(old: AppState, new: AppState) -> bool {
    match highlighted(old.popup) {
        Some(g) => new == (AppState { mirrors: MirrorState { aur_helper_index: Some(g), ..old.mirrors }, ..old }),
        None => new == old,
    }
}

/// The space bar in the kernel popup toggles the highlighted kernel.
pub open spec fn space_on_kernels(old: AppState, new: AppState) -> bool {
    match highlighted_item(old.popup) {
        Some(name) => {
            &&& new == (AppState { boot: new.boot, ..old })
            &&& new.boot == (BootState { selected_kernels: new.boot.selected_kernels, ..old.boot })
            &&& members(new.boot.selected_kernels@) == toggled(members(old.boot.selected_kernels@), name)
        },
        None => new == old,
    }
}

/// The space bar in a package group's package list toggles the
/// highlighted package.
pub open spec fn space_on_group_packages(old: AppState, new: AppState) -> bool {
    match highlighted_item(old.popup) {
        Some(name) => {
            &&& new == (AppState { packages: new.packages, ..old })
            &&& new.packages == (PackageState {
                addpkgs_group_pkg_selected: new.packages.addpkgs_group_pkg_selected,
                ..old.packages
            })
            &&& members(new.packages.addpkgs_group_pkg_selected@)
                == toggled(members(old.packages.addpkgs_group_pkg_selected@), name)
        },
        None => new == old,
    }
}

// ---------------------------------------------------------------------
// Graphics drivers.
// ---------------------------------------------------------------------

/// `d` without the NVIDIA driver packages.
pub open spec fn without_nvidia(d: Set<Seq<char>>) -> Set<Seq<char>> {
    d.remove("nvidia-open-dkms"@).remove("nvidia-dkms"@).remove("dkms"@).remove("libva-nvidia-driver"@)
}

/// The drivers chosen after the space bar on row `idx` of the driver
/// list (rows past the end count as the last row).
///
/// A driver row toggles that driver. Choosing one of the two NVIDIA
/// drivers drops the other and the Nouveau drivers and adds its helper
/// packages; choosing a Nouveau driver drops the NVIDIA packages. The
/// open-source header selects all open-source drivers (dropping the
/// NVIDIA packages) or, when all are chosen, none of them; the NVIDIA
/// header adds the helper packages or, when both are chosen, drops every
/// NVIDIA package. The header of the last group changes nothing.
pub open spec fn drivers_after(d: Set<Seq<char>>, idx: usize) -> Set<Seq<char>> {
    let i = if idx < 17 { idx } else { 17usize };
    let name = driver_rows()[i as int].0;
    if driver_rows()[i as int].1 {
        if name == "nvidia-open-dkms"@ {
            if d.contains(name) {
                d.remove(name)
            } else {
                d.remove("nvidia-dkms"@).insert(name).insert("dkms"@).insert("libva-nvidia-driver"@)
                    .remove("xf86-video-nouveau"@).remove("vulkan-nouveau"@)
            }
        } else if name == "nvidia-dkms"@ {
            if d.contains(name) {
                d.remove(name)
            } else {
                d.remove("nvidia-open-dkms"@).insert(name).insert("dkms"@).insert("libva-nvidia-driver"@)
                    .remove("xf86-video-nouveau"@).remove("vulkan-nouveau"@)
            }
        } else if d.contains(name) {
            d.remove(name)
        } else if name == "xf86-video-nouveau"@ || name == "vulkan-nouveau"@ {
            without_nvidia(d.insert(name))
        } else {
            d.insert(name)
        }
    } else if name == " Open Source Drivers "@ {
        let oss = open_source_drivers().to_set();
        if oss.subset_of(d) { d.difference(oss) } else { without_nvidia(d.union(oss)) }
    } else if name == " Nvidia Drivers "@ {
        if d.contains("dkms"@) && d.contains("libva-nvidia-driver"@) {
            d.remove("dkms"@).remove("libva-nvidia-driver"@).remove("nvidia-open-dkms"@).remove("nvidia-dkms"@)
        } else {
            d.insert("dkms"@).insert("libva-nvidia-driver"@)
        }
    } else {
        d
    }
}

/// The lengths of the driver names that the NVIDIA rules compare.
proof fn lemma_driver_name_lengths()
    ensures
        "nvidia-open-dkms"@.len() == 16,
        "nvidia-dkms"@.len() == 11,
        "dkms"@.len() == 4,
        "libva-nvidia-driver"@.len() == 19,
        "vulkan-nouveau"@.len() == 14,
        "xf86-video-nouveau"@.len() == 18,
{
    reveal_strlit("nvidia-open-dkms");
    reveal_strlit("nvidia-dkms");
    reveal_strlit("dkms");
    reveal_strlit("libva-nvidia-driver");
    reveal_strlit("vulkan-nouveau");
    reveal_strlit("xf86-video-nouveau");
}

/// The space bar on either NVIDIA driver row leaves at most one of the
/// two NVIDIA drivers chosen.
pub proof fn lemma_nvidia_drivers_exclusive(d: Set<Seq<char>>, idx: usize)
    requires
        idx == 16 || idx >= 17,
    ensures
        !(drivers_after(d, idx).contains("nvidia-open-dkms"@) && drivers_after(d, idx).contains("nvidia-dkms"@)),
{
    lemma_driver_name_lengths();
    let open = "nvidia-open-dkms"@;
    let prop = "nvidia-dkms"@;
    assert(open != prop);
    let r = drivers_after(d, idx);
    if idx == 16 {
        assert(driver_rows()[16] == (open, true));
    } else {
        assert(driver_rows()[17] == (prop, true));
    }
}

/// Choosing a Nouveau driver (rows 5 and 9) drops every NVIDIA package.
pub proof fn lemma_nouveau_drops_nvidia(d: Set<Seq<char>>, idx: usize)
    requires
        idx == 5 || idx == 9,
        !d.contains(driver_rows()[idx as int].0),
    ensures
        drivers_after(d, idx).contains(driver_rows()[idx as int].0),
        !drivers_after(d, idx).contains("nvidia-open-dkms"@),
        !drivers_after(d, idx).contains("nvidia-dkms"@),
        !drivers_after(d, idx).contains("dkms"@),
        !drivers_after(d, idx).contains("libva-nvidia-driver"@),
{
    lemma_driver_name_lengths();
    let name = driver_rows()[idx as int].0;
    if idx == 5 {
        assert(name == "vulkan-nouveau"@);
    } else {
        assert(name == "xf86-video-nouveau"@);
    }
    assert(driver_rows()[idx as int].1);
    assert(name != "nvidia-open-dkms"@ && name != "nvidia-dkms"@ && name != "dkms"@ && name != "libva-nvidia-driver"@);
    assert(drivers_after(d, idx) == without_nvidia(d.insert(name)));
}

/// The chosen graphics drivers agree: the two proprietary NVIDIA drivers
/// are not both chosen, and neither is chosen together with a Nouveau
/// driver.
pub open spec fn drivers_consistent(d: Set<Seq<char>>) -> bool {
    let nvidia = d.contains("nvidia-open-dkms"@) || d.contains("nvidia-dkms"@);
    &&& !(d.contains("nvidia-open-dkms"@) && d.contains("nvidia-dkms"@))
    &&& !(nvidia && (d.contains("xf86-video-nouveau"@) || d.contains("vulkan-nouveau"@)))
}

/// The space bar on any row of the driver list keeps the chosen drivers
/// in agreement.
pub proof fn lemma_drivers_stay_consistent(d: Set<Seq<char>>, idx: usize)
    requires
        drivers_consistent(d),
    ensures
        drivers_consistent(drivers_after(d, idx)),
{
    lemma_driver_name_lengths();
    assert("dkms"@ != "nvidia-open-dkms"@ && "dkms"@ != "nvidia-dkms"@);
    assert("dkms"@ != "xf86-video-nouveau"@ && "dkms"@ != "vulkan-nouveau"@);
    assert("libva-nvidia-driver"@ != "nvidia-open-dkms"@ && "libva-nvidia-driver"@ != "nvidia-dkms"@);
    assert("libva-nvidia-driver"@ != "xf86-video-nouveau"@ && "libva-nvidia-driver"@ != "vulkan-nouveau"@);
    assert("nvidia-open-dkms"@ != "xf86-video-nouveau"@ && "nvidia-open-dkms"@ != "vulkan-nouveau"@);
    assert("nvidia-dkms"@ != "xf86-video-nouveau"@ && "nvidia-dkms"@ != "vulkan-nouveau"@);
    assert("nvidia-open-dkms"@ != "nvidia-dkms"@);
}

/// Every press of the space bar keeps the chosen graphics drivers in
/// agreement (see `drivers_consistent`): the driver lists of the desktop
/// and Xorg popups apply `drivers_after`, and no other press touches them.
pub proof fn lemma_space_keeps_drivers_consistent(
    old: AppState,
    new: AppState,
    pkgs: Seq<Seq<char>>,
    conflicting: Set<Seq<char>>,
)
    requires
        space_pressed(old, new, pkgs, conflicting),
        drivers_consistent(members(old.experience.selected_graphic_drivers@)),
    ensures
        drivers_consistent(members(new.experience.selected_graphic_drivers@)),
{
    lemma_drivers_stay_consistent(members(old.experience.selected_graphic_drivers@), old.popup.popup_drivers_selected_index);
}

fn drop_nvidia(d: &mut StringSet)
    ensures
        members(final(d)@) == without_nvidia(members(old(d)@)),
{
    d.remove("nvidia-open-dkms");
    d.remove("nvidia-dkms");
    d.remove("dkms");
    d.remove("libva-nvidia-driver");
    assert(members(d@) =~= without_nvidia(members(old(d)@)));
}

/// Chooses NVIDIA driver `name`, dropping `other` (the other NVIDIA
/// driver) and the Nouveau drivers.
fn pick_nvidia(d: &mut StringSet, name: &str, other: &str)
    ensures
        members(final(d)@) == members(old(d)@).remove(other@).insert(name@).insert("dkms"@)
            .insert("libva-nvidia-driver"@).remove("xf86-video-nouveau"@).remove("vulkan-nouveau"@),
{
    d.remove(other);
    d.insert(owned(name));
    d.insert(owned("dkms"));
    d.insert(owned("libva-nvidia-driver"));
    d.remove("xf86-video-nouveau");
    d.remove("vulkan-nouveau");
    assert(members(d@) =~= members(old(d)@).remove(other@).insert(name@).insert("dkms"@)
        .insert("libva-nvidia-driver"@).remove("xf86-video-nouveau"@).remove("vulkan-nouveau"@));
}

/// The space bar on row `idx` of the driver list (see `drivers_after`).
pub fn toggle_driver_row(d: &mut StringSet, idx: usize)
    ensures
        members(final(d)@) == drivers_after(members(old(d)@), idx),
{
    let i: usize = if idx < 17 { idx } else { 17 };
    let (name, selectable) = driver_row(i);
    if selectable {
        if str_eq(name, "nvidia-open-dkms") {
            if d.contains(name) {
                d.remove(name);
                assert(members(d@) =~= members(old(d)@).remove(name@));
            } else {
                pick_nvidia(d, name, "nvidia-dkms");
            }
        } else if str_eq(name, "nvidia-dkms") {
            if d.contains(name) {
                d.remove(name);
                assert(members(d@) =~= members(old(d)@).remove(name@));
            } else {
                pick_nvidia(d, name, "nvidia-open-dkms");
            }
        } else if d.contains(name) {
            d.remove(name);
            assert(members(d@) =~= members(old(d)@).remove(name@));
        } else {
            d.insert(owned(name));
            assert(members(d@) =~= members(old(d)@).insert(name@));
            if str_eq(name, "xf86-video-nouveau") || str_eq(name, "vulkan-nouveau") {
                drop_nvidia(d);
            }
        }
    } else if str_eq(name, " Open Source Drivers ") {
        let oss = open_source_driver_list();
        if d.contains_all(&oss) {
            d.remove_all(&oss);
        } else {
            d.insert_all(&oss);
            drop_nvidia(d);
        }
    } else if str_eq(name, " Nvidia Drivers ") {
        if d.contains("dkms") && d.contains("libva-nvidia-driver") {
            d.remove("dkms");
            d.remove("libva-nvidia-driver");
            d.remove("nvidia-open-dkms");
            d.remove("nvidia-dkms");
            assert(members(d@) =~= members(old(d)@).remove("dkms"@).remove("libva-nvidia-driver"@)
                .remove("nvidia-open-dkms"@).remove("nvidia-dkms"@));
        } else {
            d.insert(owned("dkms"));
            d.insert(owned("libva-nvidia-driver"));
            assert(members(d@) =~= members(old(d)@).insert("dkms"@).insert("libva-nvidia-driver"@));
        }
    }
}

// ---------------------------------------------------------------------
// Package sets per desktop, server or Xorg setup.
// ---------------------------------------------------------------------

/// The package set of `key` after the space bar on the package at `pick`
/// of its suggested list `defaults`: the set stored for `key`, or the
/// suggested packages when none is stored yet, with that package toggled.
pub open spec fn group_set_after(m: Map<Seq<char>, Seq<Seq<char>>>, key: Seq<char>, defaults: Seq<Seq<char>>, pick: Option<usize>) -> Set<Seq<char>> {
    let cur = if m.contains_key(key) { members(m[key]) } else { defaults.to_set() };
    match pick {
        Some(i) => toggled(cur, defaults[i as int]),
        None => cur,
    }
}

/// `m2` is `m` with a new package set stored for `key`, as
/// `group_set_after` gives it.
pub open spec fn group_toggled(m: Map<Seq<char>, Seq<Seq<char>>>, m2: Map<Seq<char>, Seq<Seq<char>>>, key: Seq<char>, defaults: Seq<Seq<char>>, pick: Option<usize>) -> bool {
    &&& m2 == m.insert(key, m2[key])
    &&& members(m2[key]) == group_set_after(m, key, defaults, pick)
}

fn toggle_in_group(map: &mut StringSetMap, key: &str, defaults: &Vec<String>, pick: Option<usize>)
    requires
        pick matches Some(i) ==> i < defaults@.len(),
    ensures
        group_toggled(old(map)@, final(map)@, key@, defaults.deep_view(), pick),
{
    let mut set = match map.get(key) {
        Some(cur) => cur.clone(),
        None => {
            let mut fresh = StringSet::new();
            fresh.insert_all(defaults);
            fresh
        },
    };
    let ghost cur = members(set@);
    assert(cur =~= (if old(map)@.contains_key(key@) { members(old(map)@[key@]) } else { defaults.deep_view().to_set() }));
    match pick {
        Some(i) => {
            set.toggle(defaults[i].as_str());
        },
        None => {},
    }
    map.insert(owned(key), set);
    assert(map@ =~= old(map)@.insert(key@, map@[key@]));
}

/// The login manager text, if any.
pub open spec fn opt_text(o: Option<String>) -> Option<Seq<char>> {
    match o {
        Some(s) => Some(s@),
        None => None,
    }
}

// ---------------------------------------------------------------------
// Desktop environments.
// ---------------------------------------------------------------------

/// Only the experience part of the state changed.
pub open spec fn only_experience_changed(old: AppState, new: AppState) -> bool {
    new == (AppState { experience: new.experience, ..old })
}

/// The space bar on the package list of the highlighted desktop: the
/// package at the highlighted row of its suggested list is toggled in its
/// set (created from the suggestions on first use).
pub open spec fn space_on_env_packages(old: AppState, new: AppState) -> bool {
    match highlighted_item(old.popup) {
        Some(env) => {
            let pkgs = env_default_packages(env);
            let idx = old.popup.popup_packages_selected_index;
            if pkgs.len() == 0 {
                new == old
            } else {
                &&& only_experience_changed(old, new)
                &&& new.experience == (ExperienceState { selected_env_packages: new.experience.selected_env_packages, ..old.experience })
                &&& group_toggled(old.experience.selected_env_packages@, new.experience.selected_env_packages@, env, pkgs,
                    if idx < pkgs.len() { Some(idx) } else { None })
            }
        },
        None => new == old,
    }
}

/// The space bar on the login-manager list: the highlighted login
/// manager (nothing for `none`) becomes the user's choice.
pub open spec fn space_on_login(old: AppState, new: AppState) -> bool {
    match highlighted(old.popup) {
        Some(g) => if g < old.popup.popup_items@.len() {
            &&& only_experience_changed(old, new)
            &&& new.experience == (ExperienceState {
                selected_login_manager: new.experience.selected_login_manager,
                login_manager_user_set: true,
                ..old.experience
            })
            &&& opt_text(new.experience.selected_login_manager) == login_manager_at(old.popup.popup_login_selected_index)
        } else {
            new == old
        },
        None => new == old,
    }
}

/// The space bar on the driver list (see `drivers_after`).
pub open spec fn space_on_drivers(old: AppState, new: AppState) -> bool {
    &&& only_experience_changed(old, new)
    &&& new.experience == (ExperienceState { selected_graphic_drivers: new.experience.selected_graphic_drivers, ..old.experience })
    &&& members(new.experience.selected_graphic_drivers@)
        == drivers_after(members(old.experience.selected_graphic_drivers@), old.popup.popup_drivers_selected_index)
}

/// The login manager after the desktop `name` was toggled: unless the
/// user chose one, dropping a desktop picks the one that suits the first
/// desktop left (none when no desktop is left), and adding a desktop
/// when none is chosen picks the one that suits it.
pub open spec fn login_after_toggle(old: ExperienceState, new_envs: Seq<Seq<char>>, name: Seq<char>) -> Option<Seq<char>> {
    let cur = opt_text(old.selected_login_manager);
    if old.login_manager_user_set {
        cur
    } else if old.selected_desktop_envs@.contains(name) {
        if new_envs.len() == 0 { None } else { default_login_manager(new_envs[0]) }
    } else if cur is None {
        default_login_manager(name)
    } else {
        cur
    }
}

/// The space bar on the desktop list toggles the highlighted desktop
/// and keeps the login manager in step (see `login_after_toggle`).
pub open spec fn space_on_env(old: AppState, new: AppState) -> bool {
    match highlighted_item(old.popup) {
        Some(name) => {
            &&& only_experience_changed(old, new)
            &&& new.experience == (ExperienceState {
                selected_desktop_envs: new.experience.selected_desktop_envs,
                selected_login_manager: new.experience.selected_login_manager,
                ..old.experience
            })
            &&& members(new.experience.selected_desktop_envs@) == toggled(members(old.experience.selected_desktop_envs@), name)
            &&& opt_text(new.experience.selected_login_manager)
                == login_after_toggle(old.experience, new.experience.selected_desktop_envs@, name)
        },
        None => new == old,
    }
}

/// The space bar in the desktop popup: on the package list, the
/// login-manager list, the driver list or the desktop list, whichever
/// has the focus.
pub open spec fn space_on_desktops(old: AppState, new: AppState) -> bool {
    if old.popup.popup_packages_focus {
        space_on_env_packages(old, new)
    } else if old.popup.popup_login_focus {
        space_on_login(old, new)
    } else if old.popup.popup_drivers_focus {
        space_on_drivers(old, new)
    } else {
        space_on_env(old, new)
    }
}

// ---------------------------------------------------------------------
// Server and Xorg setups.
// ---------------------------------------------------------------------

/// The row of a non-empty suggested list that the package cursor `idx`
/// points at (the last row past the end).
pub open spec fn clamped_pick(idx: usize, len: nat) -> Option<usize> {
    if len == 0 { None } else if idx < len { Some(idx) } else { Some((len - 1) as usize) }
}

/// The space bar on a list of setups (servers or Xorg) whose chosen
/// names are `types` and whose package sets are `groups`: on the package
/// list, the package under the cursor is toggled in the highlighted
/// setup's set; else the highlighted setup is toggled, a new one with its
/// suggested packages and a dropped one with its set.
pub open spec fn setup_toggled(
    popup: PopupState,
    types: Seq<Seq<char>>,
    groups: Map<Seq<char>, Seq<Seq<char>>>,
    new_types: Seq<Seq<char>>,
    new_groups: Map<Seq<char>, Seq<Seq<char>>>,
    name: Seq<char>,
    defaults: Seq<Seq<char>>,
) -> bool {
    if popup.popup_packages_focus {
        &&& new_types == types
        &&& group_toggled(groups, new_groups, name, defaults, clamped_pick(popup.popup_packages_selected_index, defaults.len()))
    } else if types.contains(name) {
        &&& members(new_types) == members(types).remove(name)
        &&& new_groups == groups.remove(name)
    } else {
        &&& members(new_types) == members(types).insert(name)
        &&& new_groups == groups.insert(name, new_groups[name])
        &&& members(new_groups[name]) == defaults.to_set()
    }
}

/// The space bar in the server popup (see `setup_toggled`).
pub open spec fn space_on_servers(old: AppState, new: AppState) -> bool {
    match highlighted_item(old.popup) {
        Some(name) => {
            &&& only_experience_changed(old, new)
            &&& new.experience == (ExperienceState {
                selected_server_types: new.experience.selected_server_types,
                selected_server_packages: new.experience.selected_server_packages,
                ..old.experience
            })
            &&& setup_toggled(old.popup, old.experience.selected_server_types@, old.experience.selected_server_packages@,
                new.experience.selected_server_types@, new.experience.selected_server_packages@, name,
                server_default_packages(name))
        },
        None => new == old,
    }
}

/// The space bar in the Xorg popup: on the driver list as in the desktop
/// popup, else as `setup_toggled` says.
pub open spec fn space_on_xorg(old: AppState, new: AppState) -> bool {
    if old.popup.popup_drivers_focus {
        space_on_drivers(old, new)
    } else {
        match highlighted_item(old.popup) {
            Some(name) => {
                &&& only_experience_changed(old, new)
                &&& new.experience == (ExperienceState {
                    selected_xorg_types: new.experience.selected_xorg_types,
                    selected_xorg_packages: new.experience.selected_xorg_packages,
                    ..old.experience
                })
                &&& setup_toggled(old.popup, old.experience.selected_xorg_types@, old.experience.selected_xorg_packages@,
                    new.experience.selected_xorg_types@, new.experience.selected_xorg_packages@, name,
                    xorg_default_packages(name))
            },
            None => new == old,
        }
    }
}

/// The space bar on a setup list (see `setup_toggled`).
fn toggle_setup(popup: &PopupState, types: &mut StringSet, groups: &mut StringSetMap, name: &str, defaults: &Vec<String>)
    ensures
        setup_toggled(*popup, old(types)@, old(groups)@, final(types)@, final(groups)@, name@, defaults.deep_view()),
{
    if popup.popup_packages_focus {
        let pick = if defaults.len() == 0 {
            None
        } else if popup.popup_packages_selected_index < defaults.len() {
            Some(popup.popup_packages_selected_index)
        } else {
            Some(defaults.len() - 1)
        };
        toggle_in_group(groups, name, defaults, pick);
    } else if types.contains(name) {
        types.toggle(name);
        groups.remove(name);
    } else {
        types.toggle(name);
        let mut fresh = StringSet::new();
        fresh.insert_all(defaults);
        assert(members(fresh@) =~= defaults.deep_view().to_set());
        groups.insert(owned(name), fresh);
        assert(groups@ =~= old(groups)@.insert(name@, groups@[name@]));
    }
}

// ---------------------------------------------------------------------
// Package groups.
// ---------------------------------------------------------------------

/// `m2` is `m` with `name` taken out of the sets stored for the `keys`.
pub open spec fn stripped(m: Map<Seq<char>, Seq<Seq<char>>>, m2: Map<Seq<char>, Seq<Seq<char>>>, keys: Seq<Seq<char>>, name: Seq<char>) -> bool {
    &&& m2.dom() == m.dom()
    &&& forall|k: Seq<char>| #[trigger] m.contains_key(k) && keys.contains(k) ==> members(m2[k]) == members(m[k]).remove(name)
    &&& forall|k: Seq<char>| #[trigger] m.contains_key(k) && !keys.contains(k) ==> m2[k] == m[k]
}

/// A package already installed by a chosen desktop, server or Xorg setup.
pub open spec fn taken_by_section(e: ExperienceState, name: Seq<char>) -> bool {
    ||| grouped_package(e.selected_desktop_envs@, e.selected_env_packages@, name)
    ||| grouped_package(e.selected_server_types@, e.selected_server_packages@, name)
    ||| grouped_package(e.selected_xorg_types@, e.selected_xorg_packages@, name)
}

/// The package of the group list under the cursor (the last one past
/// the end).
pub open spec fn group_package_at(pkgs: Seq<Seq<char>>, idx: usize) -> Seq<char> {
    if idx < pkgs.len() { pkgs[idx as int] } else { pkgs[pkgs.len() - 1] }
}

/// The note on a package that the group list adds although another
/// section installs it.
pub open spec fn override_note() -> Seq<char> {
    "Already selected in another section (group override)"@
}

/// The space bar on the package list of the highlighted package group,
/// whose packages are `pkgs`; `conflicting` holds the packages that the
/// conflict check finds in another section.
///
/// A package already among the added packages (ignoring ASCII case) is
/// dropped from them and from the group selections. Else a conflicting
/// package is dropped from every chosen section that installs it, or,
/// when none does, added to the added packages with a note. Else the
/// package is toggled in the group's selection, which is stored for the
/// group; a newly chosen one also joins the running selection.
pub open spec fn space_on_group_select(old: AppState, new: AppState, pkgs: Seq<Seq<char>>, conflicting: Set<Seq<char>>) -> bool {
    if !old.popup.popup_packages_focus || pkgs.len() == 0 {
        new == old
    } else {
        match highlighted_item(old.popup) {
            None => new == old,
            Some(group) => {
                let name = group_package_at(pkgs, old.packages.addpkgs_group_pkg_index);
                let p = old.packages;
                let q = new.packages;
                match first_equal_ignore_case(additional_names(old), name) {
                    Some(pos) => {
                        &&& new == (AppState { packages: q, ..old })
                        &&& q == (PackageState {
                            additional_packages: q.additional_packages,
                            addpkgs_group_pkg_selected: q.addpkgs_group_pkg_selected,
                            addpkgs_group_accum_selected: q.addpkgs_group_accum_selected,
                            ..p
                        })
                        &&& q.additional_packages@ == p.additional_packages@.remove(pos)
                        &&& members(q.addpkgs_group_pkg_selected@) == members(p.addpkgs_group_pkg_selected@).remove(name)
                        &&& members(q.addpkgs_group_accum_selected@) == members(p.addpkgs_group_accum_selected@).remove(name)
                    },
                    None => if conflicting.contains(name) {
                        if taken_by_section(old.experience, name) {
                            let e = old.experience;
                            let f = new.experience;
                            &&& new == (AppState { packages: q, experience: f, ..old })
                            &&& q == (PackageState {
                                addpkgs_group_pkg_selected: q.addpkgs_group_pkg_selected,
                                addpkgs_group_accum_selected: q.addpkgs_group_accum_selected,
                                ..p
                            })
                            &&& members(q.addpkgs_group_pkg_selected@) == members(p.addpkgs_group_pkg_selected@).remove(name)
                            &&& members(q.addpkgs_group_accum_selected@) == members(p.addpkgs_group_accum_selected@).remove(name)
                            &&& f == (ExperienceState {
                                selected_env_packages: f.selected_env_packages,
                                selected_server_packages: f.selected_server_packages,
                                selected_xorg_packages: f.selected_xorg_packages,
                                ..e
                            })
                            &&& stripped(e.selected_env_packages@, f.selected_env_packages@, e.selected_desktop_envs@, name)
                            &&& stripped(e.selected_server_packages@, f.selected_server_packages@, e.selected_server_types@, name)
                            &&& stripped(e.selected_xorg_packages@, f.selected_xorg_packages@, e.selected_xorg_types@, name)
                        } else {
                            let n = p.additional_packages@.len();
                            let added = q.additional_packages@[n as int];
                            &&& new == (AppState { packages: q, ..old })
                            &&& q == (PackageState {
                                additional_packages: q.additional_packages,
                                addpkgs_group_pkg_selected: q.addpkgs_group_pkg_selected,
                                ..p
                            })
                            &&& q.additional_packages@.len() == n + 1
                            &&& q.additional_packages@.take(n as int) == p.additional_packages@
                            &&& added.name@ == name && added.repo@.len() == 0 && added.version@.len() == 0
                            &&& added.description@ == override_note()
                            &&& members(q.addpkgs_group_pkg_selected@) == members(p.addpkgs_group_pkg_selected@).insert(name)
                        }
                    } else {
                        let was = p.addpkgs_group_pkg_selected@.contains(name);
                        &&& new == (AppState { packages: q, ..old })
                        &&& q == (PackageState {
                            addpkgs_group_pkg_selected: q.addpkgs_group_pkg_selected,
                            addpkgs_group_accum_selected: q.addpkgs_group_accum_selected,
                            addpkgs_group_selected: q.addpkgs_group_selected,
                            ..p
                        })
                        &&& members(q.addpkgs_group_pkg_selected@) == toggled(members(p.addpkgs_group_pkg_selected@), name)
                        &&& members(q.addpkgs_group_accum_selected@) == if was {
                            members(p.addpkgs_group_accum_selected@).remove(name)
                        } else {
                            members(p.addpkgs_group_accum_selected@).union(members(q.addpkgs_group_pkg_selected@))
                        }
                        &&& q.addpkgs_group_selected@ == p.addpkgs_group_selected@.insert(group, q.addpkgs_group_pkg_selected@)
                    },
                }
            },
        }
    }
}

/// The position of the first added package named `x`, ignoring ASCII case.
fn additional_position(aps: &Vec<AdditionalPackage>, x: &str) -> (r: Option<usize>)
    ensures
        match r {
            Some(i) => i < aps@.len() && first_equal_ignore_case(aps@.map_values(|a: AdditionalPackage| a.name@), x@) == Some(i as int),
            None => first_equal_ignore_case(aps@.map_values(|a: AdditionalPackage| a.name@), x@) == None::<int>,
        },
{
    let ghost o = aps@.map_values(|a: AdditionalPackage| a.name@);
    let mut i: usize = 0;
    assert(o.skip(0) =~= o);
    while i < aps.len()
        invariant
            o == aps@.map_values(|a: AdditionalPackage| a.name@),
            i <= o.len(),
            first_equal_ignore_case(o, x@) == shifted(first_equal_ignore_case(o.skip(i as int), x@), i as int),
        decreases o.len() - i,
    {
        assert(o.skip(i as int)[0] == o[i as int]);
        assert(o.skip(i as int).drop_first() =~= o.skip(i + 1));
        if str_eq_ignore_ascii_case(aps[i].name.as_str(), x) {
            return Some(i);
        }
        i = i + 1;
    }
    None
}

/// Some chosen key's set in `groups` holds `name`.
fn in_any_group(keys: &StringSet, groups: &StringSetMap, name: &str) -> (r: bool)
    ensures
        r == grouped_package(keys@, groups@, name@),
{
    let ks = keys.items();
    let mut i: usize = 0;
    while i < ks.len()
        invariant
            i <= ks@.len(),
            ks.deep_view() == keys@,
            !grouped_package(keys@.take(i as int), groups@, name@),
        decreases ks@.len() - i,
    {
        let k = ks[i].as_str();
        assert(k@ == keys@[i as int]);
        match groups.get(k) {
            Some(set) => {
                if set.contains(name) {
                    assert(keys@.contains(k@));
                    return true;
                }
            },
            None => {},
        }
        proof {
            assert(keys@.take(i + 1) =~= keys@.take(i as int).push(k@));
            crate::system::lemma_grouped_push(keys@.take(i as int), groups@, k@, name@);
        }
        i = i + 1;
    }
    assert(keys@.take(ks@.len() as int) =~= keys@);
    false
}

/// A chosen desktop, server or Xorg setup already installs `name`.
pub fn installed_by_section(e: &ExperienceState, name: &str) -> (r: bool)
    ensures
        r == taken_by_section(*e, name@),
{
    in_any_group(&e.selected_desktop_envs, &e.selected_env_packages, name)
        || in_any_group(&e.selected_server_types, &e.selected_server_packages, name)
        || in_any_group(&e.selected_xorg_types, &e.selected_xorg_packages, name)
}

/// The packages of `pkgs` that a chosen section already installs.
pub fn conflicting_packages(e: &ExperienceState, pkgs: &Vec<String>) -> (r: StringSet)
    ensures
        forall|x: Seq<char>| members(r@).contains(x) <==> (pkgs.deep_view().contains(x) && taken_by_section(*e, x)),
{
    let ghost all = pkgs.deep_view();
    let mut r = StringSet::new();
    let mut i: usize = 0;
    assert(all.take(0) =~= Seq::<Seq<char>>::empty());
    while i < pkgs.len()
        invariant
            i <= pkgs.len(),
            all == pkgs.deep_view(),
            forall|x: Seq<char>| #[trigger] r@.contains(x) <==> (all.take(i as int).contains(x) && taken_by_section(*e, x)),
        decreases pkgs.len() - i,
    {
        let ghost pre = all.take(i as int);
        let ghost cur = all.take(i + 1);
        let ghost before = r@;
        let ghost y = all[i as int];
        assert(cur =~= pre.push(y));
        assert(y == pkgs@[i as int]@);
        let name = owned(pkgs[i].as_str());
        let taken = installed_by_section(e, name.as_str());
        assert(taken == taken_by_section(*e, y));
        if taken {
            r.insert(name);
            assert(forall|x: Seq<char>| r@.contains(x) <==> (before.contains(x) || x == y));
        } else {
            assert(r@ == before);
        }
        assert forall|x: Seq<char>| r@.contains(x) <==> (cur.contains(x) && taken_by_section(*e, x)) by {
            assert(before.contains(x) <==> (pre.contains(x) && taken_by_section(*e, x)));
            assert(cur.contains(x) <==> (pre.contains(x) || x == y)) by {
                if cur.contains(x) && x != y {
                    let k = choose|k: int| 0 <= k < cur.len() && cur[k] == x;
                    assert(k != i);
                    assert(pre[k] == x);
                }
                if pre.contains(x) {
                    let k = choose|k: int| 0 <= k < pre.len() && pre[k] == x;
                    assert(cur[k] == x);
                }
                if x == y {
                    assert(cur[i as int] == y);
                }
            }
        }
        i = i + 1;
    }
    assert(all.take(pkgs.len() as int) =~= all);
    assert forall|x: Seq<char>| members(r@).contains(x) <==> (all.contains(x) && taken_by_section(*e, x)) by {
        assert(members(r@).contains(x) == r@.contains(x));
        assert(r@.contains(x) <==> (all.take(pkgs.len() as int).contains(x) && taken_by_section(*e, x)));
    }
    r
}

/// Takes `name` out of the sets stored for the `keys`.
fn strip_from_groups(keys: &StringSet, groups: &mut StringSetMap, name: &str)
    ensures
        stripped(old(groups)@, final(groups)@, keys@, name@),
{
    let ghost start = groups@;
    let ks = keys.items();
    let mut i: usize = 0;
    while i < ks.len()
        invariant
            i <= ks@.len(),
            ks.deep_view() == keys@,
            stripped(start, groups@, keys@.take(i as int), name@),
        decreases ks@.len() - i,
    {
        let k = ks[i].as_str();
        assert(k@ == keys@[i as int]);
        let ghost before = groups@;
        let ghost seen = keys@.take(i as int);
        let ghost next = keys@.take(i + 1);
        assert(next =~= seen.push(k@));
        proof {
            crate::sets::lemma_push_contains(seen, k@);
        }
        match groups.get(k) {
            Some(set) => {
                let mut cleaned = set.clone();
                cleaned.remove(name);
                assert(members(cleaned@) =~= members(before[k@]).remove(name@));
                groups.insert(owned(k), cleaned);
                assert forall|j: Seq<char>| #[trigger] start.contains_key(j) && next.contains(j)
                    implies members(groups@[j]) == members(start[j]).remove(name@) by {
                    if j != k@ {
                        assert(seen.contains(j));
                    } else if seen.contains(j) {
                        assert(members(before[j]) == members(start[j]).remove(name@));
                        assert(members(start[j]).remove(name@).remove(name@) =~= members(start[j]).remove(name@));
                    }
                }
                assert(groups@.dom() =~= start.dom());
            },
            None => {
                assert forall|j: Seq<char>| #[trigger] start.contains_key(j) && next.contains(j)
                    implies members(groups@[j]) == members(start[j]).remove(name@) by {
                    if j != k@ {
                        assert(seen.contains(j));
                    }
                }
            },
        }
        i = i + 1;
    }
    assert(keys@.take(ks@.len() as int) =~= keys@);
}

impl AppState {
    /// Space in the mirror-regions popup (see `space_on_regions`).
    pub fn toggle_highlighted_region(&mut self)
        ensures
            space_on_regions(*old(self), *final(self)),
    {
        match highlighted_index(&self.popup) {
            Some(g) => {
                let opts = &self.mirrors.mirrors_regions_options;
                let sel = &mut self.mirrors.mirrors_regions_selected;
                if sel.contains(&g) {
                    sel.remove(&g);
                } else {
                    if sel.len() == 1 {
                        let mut i: usize = 0;
                        let mut only: Option<usize> = None;
                        while i < opts.len()
                            invariant_except_break
                                only is None,
                            invariant
                                i <= opts.len(),
                                forall|k: usize| k < i ==> !sel@.contains(k),
                            ensures
                                match only {
                                    Some(o) => o < opts.len() && is_least_member(sel@, o),
                                    None => forall|k: usize| k < opts.len() ==> !sel@.contains(k),
                                },
                            decreases opts.len() - i,
                        {
                            if sel.contains(&i) {
                                only = Some(i);
                                break;
                            }
                            i = i + 1;
                        }
                        match only {
                            Some(o) => {
                                proof {
                                    lemma_least_member_unique(sel@, o);
                                }
                                if o != g && str_contains(opts[o].as_str(), "United States") {
                                    sel.remove(&o);
                                }
                            },
                            None => {
                                proof {
                                    let p = least_member(sel@);
                                    if sel@.contains(p) {
                                        assert(!(p < opts@.len()));
                                    }
                                }
                            },
                        }
                    }
                    sel.insert(g);
                    assert(sel@ =~= regions_after(old(self).mirrors, g));
                }
            },
            None => {},
        }
    }
    /// Space in the optional-repositories popup (see `space_on_repos`).
    pub fn toggle_highlighted_repo(&mut self)
        ensures
            space_on_repos(*old(self), *final(self)),
    {
        match highlighted_index(&self.popup) {
            Some(g) => {
                let is_aur = g < self.mirrors.optional_repos_options.len()
                    && str_eq(self.mirrors.optional_repos_options[g].as_str(), "AUR");
                if self.mirrors.optional_repos_selected.contains(&g) {
                    self.mirrors.optional_repos_selected.remove(&g);
                    if is_aur {
                        self.mirrors.aur_selected = false;
                        self.mirrors.aur_helper_index = None;
                    }
                } else {
                    self.mirrors.optional_repos_selected.insert(g);
                    if is_aur {
                        self.mirrors.aur_selected = true;
                        self.open_aur_helper_popup();
                    }
                }
            },
            None => {},
        }
    }

    /// Space in the AUR-helper popup (see `space_on_aur_helper`).
    pub fn pick_highlighted_aur_helper(&mut self)
        ensures
            space_on_aur_helper(*old(self), *final(self)),
    {
        match highlighted_index(&self.popup) {
            Some(g) => {
                self.mirrors.aur_helper_index = Some(g);
            },
            None => {},
        }
    }

    /// Space in the kernel popup (see `space_on_kernels`).
    pub fn toggle_highlighted_kernel(&mut self)
        ensures
            space_on_kernels(*old(self), *final(self)),
    {
        match highlighted_text_of(&self.popup) {
            Some(name) => {
                self.boot.selected_kernels.toggle(name.as_str());
            },
            None => {},
        }
    }

    /// Space in a package group's package list (see
    /// `space_on_group_packages`).
    pub fn toggle_highlighted_group_package(&mut self)
        ensures
            space_on_group_packages(*old(self), *final(self)),
    {
        match highlighted_text_of(&self.popup) {
            Some(name) => {
                self.packages.addpkgs_group_pkg_selected.toggle(name.as_str());
            },
            None => {},
        }
    }
    /// Space in the desktop popup (see `space_on_desktops`).
    pub fn space_in_desktops(&mut self)
        ensures
            space_on_desktops(*old(self), *final(self)),
    {
        if self.popup.popup_packages_focus {
            match highlighted_text_of(&self.popup) {
                Some(env) => {
                    let pkgs = env_package_list(env.as_str());
                    if pkgs.len() != 0 {
                        let idx = self.popup.popup_packages_selected_index;
                        let pick = if idx < pkgs.len() { Some(idx) } else { None };
                        toggle_in_group(&mut self.experience.selected_env_packages, env.as_str(), &pkgs, pick);
                    }
                },
                None => {},
            }
        } else if self.popup.popup_login_focus {
            match highlighted_index(&self.popup) {
                Some(g) => {
                    if g < self.popup.popup_items.len() {
                        self.experience.selected_login_manager = login_manager_choice(self.popup.popup_login_selected_index);
                        self.experience.login_manager_user_set = true;
                    }
                },
                None => {},
            }
        } else if self.popup.popup_drivers_focus {
            toggle_driver_row(&mut self.experience.selected_graphic_drivers, self.popup.popup_drivers_selected_index);
        } else {
            match highlighted_text_of(&self.popup) {
                Some(name) => {
                    let envs = &mut self.experience.selected_desktop_envs;
                    if envs.contains(name.as_str()) {
                        envs.toggle(name.as_str());
                        if !self.experience.login_manager_user_set {
                            match envs.first() {
                                None => {
                                    self.experience.selected_login_manager = None;
                                },
                                Some(first_env) => {
                                    self.experience.selected_login_manager = default_login_manager_of(first_env.as_str());
                                },
                            }
                        }
                    } else {
                        envs.toggle(name.as_str());
                        if !self.experience.login_manager_user_set && self.experience.selected_login_manager.is_none() {
                            self.experience.selected_login_manager = default_login_manager_of(name.as_str());
                        }
                    }
                },
                None => {},
            }
        }
    }
    /// Space in the server popup (see `space_on_servers`).
    pub fn space_in_servers(&mut self)
        ensures
            space_on_servers(*old(self), *final(self)),
    {
        match highlighted_text_of(&self.popup) {
            Some(name) => {
                let defaults = server_package_list(name.as_str());
                toggle_setup(&self.popup, &mut self.experience.selected_server_types,
                    &mut self.experience.selected_server_packages, name.as_str(), &defaults);
            },
            None => {},
        }
    }

    /// Space in the Xorg popup (see `space_on_xorg`).
    pub fn space_in_xorg(&mut self)
        ensures
            space_on_xorg(*old(self), *final(self)),
    {
        if self.popup.popup_drivers_focus {
            toggle_driver_row(&mut self.experience.selected_graphic_drivers, self.popup.popup_drivers_selected_index);
        } else {
            match highlighted_text_of(&self.popup) {
                Some(name) => {
                    let defaults = xorg_package_list(name.as_str());
                    toggle_setup(&self.popup, &mut self.experience.selected_xorg_types,
                        &mut self.experience.selected_xorg_packages, name.as_str(), &defaults);
                },
                None => {},
            }
        }
    }
    /// Space on the package list of a package group (see
    /// `space_on_group_select`). `group_pkgs` lists the packages of the
    /// highlighted group; `conflicting` holds those of them that the
    /// conflict check finds in another section.
    pub fn space_in_group_select(&mut self, group_pkgs: &Vec<String>, conflicting: &StringSet)
        ensures
            space_on_group_select(*old(self), *final(self), group_pkgs.deep_view(), members(conflicting@)),
    {
        if !self.popup.popup_packages_focus || group_pkgs.len() == 0 {
            return;
        }
        let group = match highlighted_text_of(&self.popup) {
            Some(g) => g,
            None => {
                return;
            },
        };
        let idx = self.packages.addpkgs_group_pkg_index;
        let at = if idx < group_pkgs.len() { idx } else { group_pkgs.len() - 1 };
        let name = group_pkgs[at].clone();
        assert(name@ == group_package_at(group_pkgs.deep_view(), idx));
        assert(self.packages.additional_packages@.map_values(|a: AdditionalPackage| a.name@) =~= additional_names(*old(self)));
        match additional_position(&self.packages.additional_packages, name.as_str()) {
            Some(pos) => {
                self.packages.additional_packages.remove(pos);
                self.packages.addpkgs_group_pkg_selected.remove(name.as_str());
                self.packages.addpkgs_group_accum_selected.remove(name.as_str());
                assert(members(self.packages.addpkgs_group_pkg_selected@)
                    =~= members(old(self).packages.addpkgs_group_pkg_selected@).remove(name@));
                assert(members(self.packages.addpkgs_group_accum_selected@)
                    =~= members(old(self).packages.addpkgs_group_accum_selected@).remove(name@));
                return;
            },
            None => {},
        }
        if conflicting.contains(name.as_str()) {
            let taken = installed_by_section(&self.experience, name.as_str());
            if taken {
                strip_from_groups(&self.experience.selected_desktop_envs, &mut self.experience.selected_env_packages, name.as_str());
                strip_from_groups(&self.experience.selected_server_types, &mut self.experience.selected_server_packages, name.as_str());
                strip_from_groups(&self.experience.selected_xorg_types, &mut self.experience.selected_xorg_packages, name.as_str());
                self.packages.addpkgs_group_pkg_selected.remove(name.as_str());
                self.packages.addpkgs_group_accum_selected.remove(name.as_str());
                assert(members(self.packages.addpkgs_group_pkg_selected@)
                    =~= members(old(self).packages.addpkgs_group_pkg_selected@).remove(name@));
                assert(members(self.packages.addpkgs_group_accum_selected@)
                    =~= members(old(self).packages.addpkgs_group_accum_selected@).remove(name@));
            } else {
                let ghost before = self.packages.additional_packages@;
                self.packages.additional_packages.push(AdditionalPackage {
                    name: name.clone(),
                    repo: String::new(),
                    version: String::new(),
                    description: owned("Already selected in another section (group override)"),
                });
                assert(self.packages.additional_packages@.take(before.len() as int) =~= before);
                self.packages.addpkgs_group_pkg_selected.insert(name);
                assert(members(self.packages.addpkgs_group_pkg_selected@)
                    =~= members(old(self).packages.addpkgs_group_pkg_selected@).insert(group_package_at(group_pkgs.deep_view(), idx)));
            }
            return;
        }
        if self.packages.addpkgs_group_pkg_selected.contains(name.as_str()) {
            self.packages.addpkgs_group_pkg_selected.remove(name.as_str());
            self.packages.addpkgs_group_accum_selected.remove(name.as_str());
            assert(members(self.packages.addpkgs_group_pkg_selected@)
                =~= toggled(members(old(self).packages.addpkgs_group_pkg_selected@), name@));
            assert(members(self.packages.addpkgs_group_accum_selected@)
                =~= members(old(self).packages.addpkgs_group_accum_selected@).remove(name@));
        } else {
            self.packages.addpkgs_group_pkg_selected.insert(name);
            let chosen = self.packages.addpkgs_group_pkg_selected.items();
            self.packages.addpkgs_group_accum_selected.insert_all(chosen);
            assert(members(self.packages.addpkgs_group_pkg_selected@)
                =~= toggled(members(old(self).packages.addpkgs_group_pkg_selected@), group_package_at(group_pkgs.deep_view(), idx)));
        }
        let kept = self.packages.addpkgs_group_pkg_selected.clone();
        self.packages.addpkgs_group_selected.insert(group, kept);
    }
}

/// What the space bar does, by the kind of the open popup (nothing in
/// the other popups). `pkgs` and `conflicting` serve the package-group
/// popup (see `space_on_group_select`).
pub open spec fn space_pressed(old: AppState, new: AppState, pkgs: Seq<Seq<char>>, conflicting: Set<Seq<char>>) -> bool {
    match old.popup.popup_kind {
        Some(PopupKind::MirrorsRegions) => space_on_regions(old, new),
        Some(PopupKind::OptionalRepos) => space_on_repos(old, new),
        Some(PopupKind::AurHelperSelect) => space_on_aur_helper(old, new),
        Some(PopupKind::KernelSelect) => space_on_kernels(old, new),
        Some(PopupKind::DesktopEnvSelect) => space_on_desktops(old, new),
        Some(PopupKind::AdditionalPackageGroupPackages) => space_on_group_packages(old, new),
        Some(PopupKind::AdditionalPackageGroupSelect) => space_on_group_select(old, new, pkgs, conflicting),
        Some(PopupKind::ServerTypeSelect) => space_on_servers(old, new),
        Some(PopupKind::XorgTypeSelect) => space_on_xorg(old, new),
        _ => new == old,
    }
}

/// The space bar in a popup (see `space_pressed`). It never closes the
/// popup, so it always answers `false`. `group_pkgs` lists the packages
/// of the highlighted package group and `conflicting` those of them that
/// another section already installs; other popups ignore both.
pub fn handle_space(app: &mut AppState, group_pkgs: &Vec<String>, conflicting: &StringSet) -> (r: bool)
    ensures
        !r,
        space_pressed(*old(app), *final(app), group_pkgs.deep_view(), members(conflicting@)),
{
    match app.popup.popup_kind {
        Some(PopupKind::MirrorsRegions) => app.toggle_highlighted_region(),
        Some(PopupKind::OptionalRepos) => app.toggle_highlighted_repo(),
        Some(PopupKind::AurHelperSelect) => app.pick_highlighted_aur_helper(),
        Some(PopupKind::KernelSelect) => app.toggle_highlighted_kernel(),
        Some(PopupKind::DesktopEnvSelect) => app.space_in_desktops(),
        Some(PopupKind::AdditionalPackageGroupPackages) => app.toggle_highlighted_group_package(),
        Some(PopupKind::AdditionalPackageGroupSelect) => app.space_in_group_select(group_pkgs, conflicting),
        Some(PopupKind::ServerTypeSelect) => app.space_in_servers(),
        Some(PopupKind::XorgTypeSelect) => app.space_in_xorg(),
        _ => {},
    }
    false
}

/// The space bar never closes the popup, nor leaves the menu: an open
/// popup stays open, and the menu selection and focus stay as they were.
pub proof fn lemma_space_keeps_popup(old: AppState, new: AppState, pkgs: Seq<Seq<char>>, conflicting: Set<Seq<char>>)
    requires
        space_pressed(old, new, pkgs, conflicting),
        old.popup.popup_open,
    ensures
        new.popup.popup_open,
        new.selected_index == old.selected_index,
        new.menu_entries == old.menu_entries,
        new.focus == old.focus,
{
}

} // verus!
