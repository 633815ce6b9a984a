//! The popup state machine: opening each popup, narrowing its list by a
//! search query, and applying or dismissing the highlighted choice.
use vstd::prelude::*;
use crate::state::{AccountState, AppState, LocaleState, MirrorState, PopupState};
use crate::text::{
    has_prefix, has_substring, eq_ignore_ascii_case, lowercase_of, owned, str_contains, str_eq, str_eq_ignore_ascii_case,
    str_starts_with, to_lowercase, to_uppercase,
    uppercase_of,
};
use crate::types::PopupKind;

verus! {

broadcast use {vstd::std_specs::btree::group_btree_axioms, vstd::laws_cmp::group_laws_cmp};

/// The indices `0..n`, in order.
pub open spec fn indices_upto(n: nat) -> Seq<usize> {
    Seq::new(n, |i: int| i as usize)
}

/// `(0..n).collect()`.
pub fn index_range(n: usize) -> (v: Vec<usize>)
    ensures
        v@ == indices_upto(n as nat),
{
    let mut v: Vec<usize> = Vec::new();
    let mut i: usize = 0;
    while i < n
        invariant
            i <= n,
            v@ == indices_upto(i as nat),
        decreases n - i,
    {
        v.push(i);
        i = i + 1;
        assert(v@ =~= indices_upto(i as nat));
    }
    v
}

/// A popup that lists `items`, all visible, the first highlighted, with
/// no search under way.
pub open spec fn list_popup(old: PopupState, new: PopupState, kind: PopupKind, items: Seq<Seq<char>>) -> bool {
    &&& new == PopupState {
        popup_kind: Some(kind),
        popup_open: true,
        popup_items: new.popup_items,
        popup_visible_indices: new.popup_visible_indices,
        popup_selected_visible: 0,
        popup_in_search: false,
        popup_search_query: new.popup_search_query,
        ..old
    }
    &&& new.popup_items.deep_view() == items
    &&& new.popup_visible_indices@ == indices_upto(items.len())
    &&& new.popup_search_query@ == Seq::<char>::empty()
}

/// A popup that reads a line of text into an emptied input buffer.
pub open spec fn input_popup(old: PopupState, new: PopupState, kind: PopupKind) -> bool {
    &&& new == PopupState {
        popup_kind: Some(kind),
        popup_open: true,
        popup_items: new.popup_items,
        popup_visible_indices: new.popup_visible_indices,
        popup_selected_visible: 0,
        popup_in_search: false,
        popup_search_query: new.popup_search_query,
        custom_input_buffer: new.custom_input_buffer,
        ..old
    }
    &&& new.popup_items@.len() == 0
    &&& new.popup_visible_indices@.len() == 0
    &&& new.popup_search_query@ == Seq::<char>::empty()
    &&& new.custom_input_buffer@ == Seq::<char>::empty()
}

/// No popup: everything that described one is reset.
pub open spec fn popup_closed(old: PopupState, new: PopupState) -> bool {
    &&& new == PopupState {
        popup_open: false,
        popup_kind: None,
        popup_items: new.popup_items,
        popup_visible_indices: new.popup_visible_indices,
        popup_selected_visible: 0,
        popup_in_search: false,
        popup_search_query: new.popup_search_query,
        ..old
    }
    &&& new.popup_items@.len() == 0
    &&& new.popup_visible_indices@.len() == 0
    &&& new.popup_search_query@ == Seq::<char>::empty()
}

/// Only the popup part of the state changed.
pub open spec fn only_popup_changed(old: AppState, new: AppState) -> bool {
    new == AppState { popup: new.popup, ..old }
}

/// The positions of the items whose lower-case form contains `q`, in order.
pub open spec fn matching_indices(items: Seq<Seq<char>>, q: Seq<char>) -> Seq<usize>
    decreases items.len(),
{
    if items.len() == 0 {
        Seq::empty()
    } else {
        let rest = matching_indices(items.drop_last(), q);
        if has_substring(lowercase_of(items.last()), q) {
            rest.push((items.len() - 1) as usize)
        } else {
            rest
        }
    }
}

/// The rows that a search shows point at items of the list, in
/// ascending order.
pub proof fn lemma_matching_rows_valid(items: Seq<Seq<char>>, q: Seq<char>)
    requires
        items.len() <= usize::MAX,
    ensures
        forall|k: int| 0 <= k < matching_indices(items, q).len() ==> #[trigger] matching_indices(items, q)[k] < items.len(),
        forall|k: int, l: int| 0 <= k < l < matching_indices(items, q).len()
            ==> matching_indices(items, q)[k] < matching_indices(items, q)[l],
    decreases items.len(),
{
    if items.len() > 0 {
        let rest = matching_indices(items.drop_last(), q);
        lemma_matching_rows_valid(items.drop_last(), q);
        let m = matching_indices(items, q);
        if has_substring(lowercase_of(items.last()), q) {
            assert(m == rest.push((items.len() - 1) as usize));
            assert forall|k: int| 0 <= k < m.len() implies #[trigger] m[k] < items.len() by {
                if k < rest.len() {
                    assert(m[k] == rest[k]);
                }
            }
            assert forall|k: int, l: int| 0 <= k < l < m.len() implies m[k] < m[l] by {
                assert(m[k] == rest[k]);
                assert(rest[k] < items.len() - 1);
                if l < rest.len() {
                    assert(m[l] == rest[l]);
                }
            }
        } else {
            assert(m == rest);
        }
    }
}

/// The highlighted row after the list was narrowed to `n` rows.
pub open spec fn clamped_selection(selected: usize, n: nat) -> usize {
    if n == 0 {
        0
    } else if selected >= n {
        (n - 1) as usize
    } else {
        selected
    }
}

/// The given texts as owned strings, in order.
pub fn new_string_vec(items: &[&str]) -> (v: Vec<String>)
    ensures
        v.deep_view() == Seq::new(items@.len(), |i: int| items@[i]@),
{
    let mut v: Vec<String> = Vec::new();
    let mut i: usize = 0;
    while i < items.len()
        invariant
            i <= items@.len(),
            v.deep_view() == Seq::new(i as nat, |k: int| items@[k]@),
        decreases items@.len() - i,
    {
        let item: &str = items[i];
        assert(item@ == items@[i as int]@);
        let ghost before = v.deep_view();
        v.push(owned(item));
        assert(v.deep_view() =~= before.push(item@));
        assert(Seq::new((i + 1) as nat, |k: int| items@[k]@) =~= Seq::new(i as nat, |k: int| items@[k]@).push(items@[i as int]@));
        i = i + 1;
    }
    v
}

/// The kernels that can be installed.
pub open spec fn kernel_choices() -> Seq<Seq<char>> {
    seq!["linux"@, "linux-hardened"@, "linux-lts"@, "linux-zen"@]
}

/// The desktop environments that can be installed.
pub open spec fn desktop_choices() -> Seq<Seq<char>> {
    seq![
        "Awesome"@, "Bspwm"@, "Budgie"@, "Cinnamon"@, "Cutefish"@, "Deepin"@, "Enlightenment"@,
        "GNOME"@, "Hyprland"@, "KDE Plasma"@, "Lxqt"@, "Mate"@, "Qtile"@, "Sway"@, "Xfce4"@,
        "i3-wm"@,
    ]
}

/// The server roles that can be installed.
pub open spec fn server_choices() -> Seq<Seq<char>> {
    seq![
        "Cockpit"@, "Cloud"@, "Docker"@, "Lighttpd"@, "Mariadb"@, "Nginx"@, "Postgresql"@,
        "Tomcat"@, "httpd"@, "sshd"@,
    ]
}

/// The AUR helpers that can be installed.
pub open spec fn aur_helper_choices() -> Seq<Seq<char>> {
    seq![
        "yay — Yet another yogurt. Pacman wrapper and AUR helper written in go."@,
        "paru — Feature packed AUR helper written in Rust"@,
    ]
}

/// The encoding listed for a language: that of its first pair.
pub open spec fn pair_lookup(pairs: Seq<(String, String)>, key: Seq<char>) -> Option<Seq<char>>
    decreases pairs.len(),
{
    if pairs.len() == 0 {
        None
    } else if pairs[0].0@ == key {
        Some(pairs[0].1@)
    } else {
        pair_lookup(pairs.drop_first(), key)
    }
}

/// The encoding that goes with a language: the listed one, else UTF-8
/// when the language names it.
pub open spec fn desired_encoding(pairs: Seq<(String, String)>, lang: Seq<char>) -> Option<Seq<char>> {
    match pair_lookup(pairs, lang) {
        Some(e) => Some(e),
        None => if has_substring(uppercase_of(lang), "UTF-8"@) {
            Some("UTF-8"@)
        } else {
            None
        },
    }
}

/// Shifts a found position by `k`.
pub open spec fn shifted(r: Option<int>, k: int) -> Option<int> {
    match r {
        Some(i) => Some(i + k),
        None => None,
    }
}

/// The first position of a text equal to `x`.
pub open spec fn first_equal(s: Seq<Seq<char>>, x: Seq<char>) -> Option<int>
    decreases s.len(),
{
    if s.len() == 0 {
        None
    } else if s[0] == x {
        Some(0)
    } else {
        shifted(first_equal(s.drop_first(), x), 1)
    }
}

/// The first position of a text whose upper-case form begins with `ISO`.
pub open spec fn first_iso(s: Seq<Seq<char>>) -> Option<int>
    decreases s.len(),
{
    if s.len() == 0 {
        None
    } else if has_prefix(uppercase_of(s[0]), "ISO"@) {
        Some(0)
    } else {
        shifted(first_iso(s.drop_first()), 1)
    }
}

/// The first position of a text whose upper-case form is `UTF-8`.
pub open spec fn first_utf8(s: Seq<Seq<char>>) -> Option<int>
    decreases s.len(),
{
    if s.len() == 0 {
        None
    } else if uppercase_of(s[0]) == "UTF-8"@ {
        Some(0)
    } else {
        shifted(first_utf8(s.drop_first()), 1)
    }
}

/// The encoding option that stands for `enc`: the one equal to it; else,
/// for an ISO encoding, the first ISO option; else, for a UTF-8 encoding,
/// the first option that is UTF-8 in any case.
pub open spec fn encoding_option_for(options: Seq<Seq<char>>, enc: Seq<char>) -> Option<int> {
    match first_equal(options, enc) {
        Some(i) => Some(i),
        None => if has_prefix(uppercase_of(enc), "ISO"@) {
            first_iso(options)
        } else if has_substring(uppercase_of(enc), "UTF-8"@) {
            first_utf8(options)
        } else {
            None
        },
    }
}

/// The encoding index that choosing a language leads to (if any).
pub open spec fn encoding_after_language(l: LocaleState, lang_index: usize) -> Option<int> {
    if lang_index < l.locale_language_options@.len() {
        match desired_encoding(l.locale_language_to_encoding@, l.locale_language_options@[lang_index as int]@) {
            Some(enc) => encoding_option_for(l.locale_encoding_options.deep_view(), enc),
            None => None,
        }
    } else {
        None
    }
}

/// The locale settings after choosing the language at `idx`: in the
/// draft when editing, else in the live settings; the encoding follows.
pub open spec fn language_chosen(old: LocaleState, idx: usize) -> LocaleState {
    let enc = encoding_after_language(old, idx);
    if old.editing_locales {
        LocaleState {
            draft_locale_language_index: idx,
            draft_locale_encoding_index: match enc {
                Some(e) => e as usize,
                None => old.draft_locale_encoding_index,
            },
            ..old
        }
    } else {
        LocaleState {
            locale_language_index: idx,
            locale_encoding_index: match enc {
                Some(e) => e as usize,
                None => old.locale_encoding_index,
            },
            ..old
        }
    }
}

/// What applying the highlighted popup row does to the locale settings,
/// and the keyboard layout to switch the console to, if any.
pub open spec fn selection_applied(old: LocaleState, kind: Option<PopupKind>, idx: usize) -> (LocaleState, Option<Seq<char>>) {
    match kind {
        Some(PopupKind::KeyboardLayout) => {
            let l = if old.editing_locales {
                LocaleState { draft_keyboard_layout_index: idx, ..old }
            } else {
                LocaleState { keyboard_layout_index: idx, ..old }
            };
            (l, if idx < old.keyboard_layout_options@.len() {
                Some(old.keyboard_layout_options@[idx as int]@)
            } else {
                None
            })
        },
        Some(PopupKind::LocaleLanguage) => (language_chosen(old, idx), None),
        Some(PopupKind::LocaleEncoding) => (if old.editing_locales {
            LocaleState { draft_locale_encoding_index: idx, ..old }
        } else {
            LocaleState { locale_encoding_index: idx, ..old }
        }, None),
        _ => (old, None),
    }
}

impl AppState {
    fn show_list(&mut self, kind: PopupKind, items: Vec<String>)
        ensures
            only_popup_changed(*old(self), *final(self)),
            list_popup(old(self).popup, final(self).popup, kind, items.deep_view()),
    {
        let n = items.len();
        self.popup.popup_kind = Some(kind);
        self.popup.popup_open = true;
        self.popup.popup_items = items;
        self.popup.popup_visible_indices = index_range(n);
        self.popup.popup_selected_visible = 0;
        self.popup.popup_in_search = false;
        self.popup.popup_search_query = String::new();
    }

    fn show_input(&mut self, kind: PopupKind)
        ensures
            only_popup_changed(*old(self), *final(self)),
            input_popup(old(self).popup, final(self).popup, kind),
    {
        self.popup.popup_kind = Some(kind);
        self.popup.custom_input_buffer = String::new();
        self.popup.popup_open = true;
        self.popup.popup_items = Vec::new();
        self.popup.popup_visible_indices = Vec::new();
        self.popup.popup_selected_visible = 0;
        self.popup.popup_in_search = false;
        self.popup.popup_search_query = String::new();
    }

    /// Closes the popup and forgets its list and search.
    pub fn close_popup(&mut self)
        ensures
            only_popup_changed(*old(self), *final(self)),
            popup_closed(old(self).popup, final(self).popup),
    {
        self.popup.popup_open = false;
        self.popup.popup_kind = None;
        self.popup.popup_items = Vec::new();
        self.popup.popup_visible_indices = Vec::new();
        self.popup.popup_selected_visible = 0;
        self.popup.popup_in_search = false;
        self.popup.popup_search_query = String::new();
    }

    /// Narrows the popup's list to the items that contain the search
    /// query, ignoring case; an empty query shows every item again.
    pub fn filter_popup(&mut self)
        ensures
            only_popup_changed(*old(self), *final(self)),
            !old(self).popup.popup_open ==> final(self).popup == old(self).popup,
            old(self).popup.popup_open && old(self).popup.popup_search_query@.len() == 0 ==> {
                &&& final(self).popup == PopupState {
                    popup_visible_indices: final(self).popup.popup_visible_indices,
                    popup_selected_visible: 0,
                    ..old(self).popup
                }
                &&& final(self).popup.popup_visible_indices@ == indices_upto(old(self).popup.popup_items@.len())
            },
            old(self).popup.popup_open && old(self).popup.popup_search_query@.len() > 0 ==> {
                let shown = matching_indices(
                    old(self).popup.popup_items.deep_view(),
                    lowercase_of(old(self).popup.popup_search_query@),
                );
                &&& final(self).popup == PopupState {
                    popup_visible_indices: final(self).popup.popup_visible_indices,
                    popup_selected_visible: clamped_selection(old(self).popup.popup_selected_visible, shown.len()),
                    ..old(self).popup
                }
                &&& final(self).popup.popup_visible_indices@ == shown
            },
    {
        if !self.popup.popup_open {
            return;
        }
        if self.popup.popup_search_query.unicode_len() == 0 {
            self.popup.popup_visible_indices = index_range(self.popup.popup_items.len());
            self.popup.popup_selected_visible = 0;
                return;
        }
        let q = to_lowercase(self.popup.popup_search_query.as_str());
        let ghost items = self.popup.popup_items.deep_view();
        let mut shown: Vec<usize> = Vec::new();
        let mut i: usize = 0;
        assert(items.subrange(0, 0) =~= Seq::<Seq<char>>::empty());
        while i < self.popup.popup_items.len()
            invariant
                i <= self.popup.popup_items@.len(),
                items == self.popup.popup_items.deep_view(),
                shown@ == matching_indices(items.subrange(0, i as int), q@),
            decreases self.popup.popup_items@.len() - i,
        {
            let low = to_lowercase(self.popup.popup_items[i].as_str());
            let ghost pre = items.subrange(0, i + 1);
            assert(pre.drop_last() =~= items.subrange(0, i as int));
            assert(pre.last() == self.popup.popup_items@[i as int]@);
            if str_contains(low.as_str(), q.as_str()) {
                shown.push(i);
            }
            i = i + 1;
        }
        assert(items.subrange(0, items.len() as int) =~= items);
        let n = shown.len();
        self.popup.popup_selected_visible = if n == 0 {
            0
        } else if self.popup.popup_selected_visible >= n {
            n - 1
        } else {
            self.popup.popup_selected_visible
        };
        self.popup.popup_visible_indices = shown;
    }

    /// Shows a message in an Info popup.
    pub fn open_info_popup(&mut self, message: String)
        ensures
            only_popup_changed(*old(self), *final(self)),
            list_popup(old(self).popup, final(self).popup, PopupKind::Info, seq![message@]),
    {
        let mut items: Vec<String> = Vec::new();
        items.push(message);
        assert(items.deep_view() =~= seq![message@]);
        self.show_list(PopupKind::Info, items);
    }

    /// Asks for the hostname.
    pub fn open_hostname_input(&mut self)
        ensures
            only_popup_changed(*old(self), *final(self)),
            input_popup(old(self).popup, final(self).popup, PopupKind::HostnameInput),
    {
        self.show_input(PopupKind::HostnameInput);
    }

    /// Asks for a new user's name.
    pub fn open_user_username_input(&mut self)
        ensures
            only_popup_changed(*old(self), *final(self)),
            input_popup(old(self).popup, final(self).popup, PopupKind::UserAddUsername),
    {
        self.show_input(PopupKind::UserAddUsername);
    }

    /// Asks for a new user's password.
    pub fn open_user_password_input(&mut self)
        ensures
            only_popup_changed(*old(self), *final(self)),
            input_popup(old(self).popup, final(self).popup, PopupKind::UserAddPassword),
    {
        self.show_input(PopupKind::UserAddPassword);
    }

    /// Asks for a new user's password again.
    pub fn open_user_password_confirm_input(&mut self)
        ensures
            only_popup_changed(*old(self), *final(self)),
            input_popup(old(self).popup, final(self).popup, PopupKind::UserAddPasswordConfirm),
    {
        self.show_input(PopupKind::UserAddPasswordConfirm);
    }

    /// Asks for the root password.
    pub fn open_root_password_input(&mut self)
        ensures
            only_popup_changed(*old(self), *final(self)),
            input_popup(old(self).popup, final(self).popup, PopupKind::RootPassword),
    {
        self.show_input(PopupKind::RootPassword);
    }

    /// Asks for the root password again.
    pub fn open_root_password_confirm_input(&mut self)
        ensures
            only_popup_changed(*old(self), *final(self)),
            input_popup(old(self).popup, final(self).popup, PopupKind::RootPasswordConfirm),
    {
        self.show_input(PopupKind::RootPasswordConfirm);
    }

    /// Lists the kernels.
    pub fn open_kernels_popup(&mut self)
        ensures
            only_popup_changed(*old(self), *final(self)),
            list_popup(old(self).popup, final(self).popup, PopupKind::KernelSelect, kernel_choices()),
    {
        let items = new_string_vec(&["linux", "linux-hardened", "linux-lts", "linux-zen"]);
        assert(items.deep_view() =~= kernel_choices());
        self.show_list(PopupKind::KernelSelect, items);
    }

    /// Asks whether the new user may use sudo.
    pub fn open_user_sudo_select(&mut self)
        ensures
            only_popup_changed(*old(self), *final(self)),
            list_popup(old(self).popup, final(self).popup, PopupKind::UserAddSudo, seq!["Yes"@, "No"@]),
    {
        let items = new_string_vec(&["Yes", "No"]);
        assert(items.deep_view() =~= seq!["Yes"@, "No"@]);
        self.show_list(PopupKind::UserAddSudo, items);
    }

    /// Asks whether to clear the desktop choices for a Minimal install.
    pub fn open_minimal_clear_confirm(&mut self)
        ensures
            only_popup_changed(*old(self), *final(self)),
            list_popup(old(self).popup, final(self).popup, PopupKind::MinimalClearConfirm, seq!["Yes"@, "No"@]),
    {
        let items = new_string_vec(&["Yes", "No"]);
        assert(items.deep_view() =~= seq!["Yes"@, "No"@]);
        self.show_list(PopupKind::MinimalClearConfirm, items);
    }

    /// Lists the desktop environments, with the environment list focused.
    pub fn open_desktop_environment_popup(&mut self)
        ensures
            only_popup_changed(*old(self), *final(self)),
            list_popup(
                PopupState {
                    popup_packages_focus: false,
                    popup_packages_selected_index: 0,
                    popup_drivers_focus: false,
                    popup_drivers_selected_index: 0,
                    popup_login_focus: false,
                    popup_login_selected_index: 0,
                    ..old(self).popup
                },
                final(self).popup,
                PopupKind::DesktopEnvSelect,
                desktop_choices(),
            ),
    {
        self.popup.popup_packages_focus = false;
        self.popup.popup_packages_selected_index = 0;
        self.popup.popup_drivers_focus = false;
        self.popup.popup_drivers_selected_index = 0;
        self.popup.popup_login_focus = false;
        self.popup.popup_login_selected_index = 0;
        let items = new_string_vec(
            &[
                "Awesome",
                "Bspwm",
                "Budgie",
                "Cinnamon",
                "Cutefish",
                "Deepin",
                "Enlightenment",
                "GNOME",
                "Hyprland",
                "KDE Plasma",
                "Lxqt",
                "Mate",
                "Qtile",
                "Sway",
                "Xfce4",
                "i3-wm",
            ],
        );
        assert(items.deep_view() =~= desktop_choices());
        self.show_list(PopupKind::DesktopEnvSelect, items);
    }

    /// Lists the server roles.
    pub fn open_server_type_popup(&mut self)
        ensures
            only_popup_changed(*old(self), *final(self)),
            list_popup(old(self).popup, final(self).popup, PopupKind::ServerTypeSelect, server_choices()),
    {
        let items = new_string_vec(
            &[
                "Cockpit",
                "Cloud",
                "Docker",
                "Lighttpd",
                "Mariadb",
                "Nginx",
                "Postgresql",
                "Tomcat",
                "httpd",
                "sshd",
            ],
        );
        assert(items.deep_view() =~= server_choices());
        self.show_list(PopupKind::ServerTypeSelect, items);
    }

    /// Lists the Xorg setups, with the type list focused.
    pub fn open_xorg_type_popup(&mut self)
        ensures
            only_popup_changed(*old(self), *final(self)),
            list_popup(
                PopupState {
                    popup_packages_focus: false,
                    popup_packages_selected_index: 0,
                    popup_drivers_focus: false,
                    popup_drivers_selected_index: 0,
                    ..old(self).popup
                },
                final(self).popup,
                PopupKind::XorgTypeSelect,
                seq!["Xorg"@],
            ),
    {
        let items = new_string_vec(&["Xorg"]);
        assert(items.deep_view() =~= seq!["Xorg"@]);
        self.show_list(PopupKind::XorgTypeSelect, items);
        self.popup.popup_packages_focus = false;
        self.popup.popup_packages_selected_index = 0;
        self.popup.popup_drivers_focus = false;
        self.popup.popup_drivers_selected_index = 0;
    }

    /// Lists the AUR helpers.
    pub fn open_aur_helper_popup(&mut self)
        ensures
            only_popup_changed(*old(self), *final(self)),
            list_popup(old(self).popup, final(self).popup, PopupKind::AurHelperSelect, aur_helper_choices()),
    {
        let items = new_string_vec(
            &[
                "yay — Yet another yogurt. Pacman wrapper and AUR helper written in go.",
                "paru — Feature packed AUR helper written in Rust",
            ],
        );
        assert(items.deep_view() =~= aur_helper_choices());
        self.show_list(PopupKind::AurHelperSelect, items);
    }

    /// Starts adding a user: forgets the drafted user and asks for a name.
    pub fn start_add_user_flow(&mut self)
        ensures
            *final(self) == (AppState { popup: final(self).popup, accounts: final(self).accounts, ..*old(self) }),
            final(self).accounts == (AccountState {
                draft_user_username: final(self).accounts.draft_user_username,
                draft_user_password: final(self).accounts.draft_user_password,
                draft_user_password_confirm: final(self).accounts.draft_user_password_confirm,
                draft_user_is_sudo: false,
                ..old(self).accounts
            }),
            final(self).accounts.draft_user_username@ == Seq::<char>::empty(),
            final(self).accounts.draft_user_password@ == Seq::<char>::empty(),
            final(self).accounts.draft_user_password_confirm@ == Seq::<char>::empty(),
            input_popup(old(self).popup, final(self).popup, PopupKind::UserAddUsername),
    {
        self.accounts.draft_user_username = String::new();
        self.accounts.draft_user_password = String::new();
        self.accounts.draft_user_password_confirm = String::new();
        self.accounts.draft_user_is_sudo = false;
        self.open_user_username_input();
    }
}

/// The value of the first pair whose key is `key`.
pub fn lookup_pair(pairs: &Vec<(String, String)>, key: &str) -> (r: Option<String>)
    ensures
        match r {
            Some(v) => pair_lookup(pairs@, key@) == Some(v@),
            None => pair_lookup(pairs@, key@) == None::<Seq<char>>,
        },
{
    let mut i: usize = 0;
    assert(pairs@.skip(0) =~= pairs@);
    while i < pairs.len()
        invariant
            i <= pairs@.len(),
            pair_lookup(pairs@, key@) == pair_lookup(pairs@.skip(i as int), key@),
        decreases pairs@.len() - i,
    {
        assert(pairs@.skip(i as int)[0] == pairs@[i as int]);
        if str_eq(pairs[i].0.as_str(), key) {
            return Some(pairs[i].1.clone());
        }
        assert(pairs@.skip(i as int).drop_first() =~= pairs@.skip(i + 1));
        i = i + 1;
    }
    None
}

fn desired_encoding_of(pairs: &Vec<(String, String)>, lang: &str) -> (r: Option<String>)
    ensures
        match r {
            Some(v) => desired_encoding(pairs@, lang@) == Some(v@),
            None => desired_encoding(pairs@, lang@) == None::<Seq<char>>,
        },
{
    match lookup_pair(pairs, lang) {
        Some(e) => Some(e),
        None => {
            let up = to_uppercase(lang);
            if str_contains(up.as_str(), "UTF-8") {
                Some(owned("UTF-8"))
            } else {
                None
            }
        },
    }
}

fn equal_index(options: &Vec<String>, enc: &str) -> (r: Option<usize>)
    ensures
        match r {
            Some(i) => i < options@.len() && first_equal(options.deep_view(), enc@) == Some(i as int),
            None => first_equal(options.deep_view(), enc@) == None::<int>,
        },
{
    let ghost o = options.deep_view();
    let mut i: usize = 0;
    assert(o.skip(0) =~= o);
    while i < options.len()
        invariant
            o == options.deep_view(),
            i <= o.len(),
            first_equal(o, enc@) == shifted(first_equal(o.skip(i as int), enc@), i as int),
        decreases o.len() - i,
    {
        assert(o.skip(i as int)[0] == o[i as int]);
        assert(o.skip(i as int).drop_first() =~= o.skip(i + 1));
        if str_eq(options[i].as_str(), enc) {
            return Some(i);
        }
        i = i + 1;
    }
    None
}

fn iso_index(options: &Vec<String>) -> (r: Option<usize>)
    ensures
        match r {
            Some(i) => i < options@.len() && first_iso(options.deep_view()) == Some(i as int),
            None => first_iso(options.deep_view()) == None::<int>,
        },
{
    let ghost o = options.deep_view();
    let mut i: usize = 0;
    assert(o.skip(0) =~= o);
    while i < options.len()
        invariant
            o == options.deep_view(),
            i <= o.len(),
            first_iso(o) == shifted(first_iso(o.skip(i as int)), i as int),
        decreases o.len() - i,
    {
        assert(o.skip(i as int)[0] == o[i as int]);
        assert(o.skip(i as int).drop_first() =~= o.skip(i + 1));
        let u = to_uppercase(options[i].as_str());
        if str_starts_with(u.as_str(), "ISO") {
            return Some(i);
        }
        i = i + 1;
    }
    None
}

fn utf8_index(options: &Vec<String>) -> (r: Option<usize>)
    ensures
        match r {
            Some(i) => i < options@.len() && first_utf8(options.deep_view()) == Some(i as int),
            None => first_utf8(options.deep_view()) == None::<int>,
        },
{
    let ghost o = options.deep_view();
    let mut i: usize = 0;
    assert(o.skip(0) =~= o);
    while i < options.len()
        invariant
            o == options.deep_view(),
            i <= o.len(),
            first_utf8(o) == shifted(first_utf8(o.skip(i as int)), i as int),
        decreases o.len() - i,
    {
        assert(o.skip(i as int)[0] == o[i as int]);
        assert(o.skip(i as int).drop_first() =~= o.skip(i + 1));
        let u = to_uppercase(options[i].as_str());
        if str_eq(u.as_str(), "UTF-8") {
            return Some(i);
        }
        i = i + 1;
    }
    None
}

fn encoding_index_for(options: &Vec<String>, enc: &str) -> (r: Option<usize>)
    ensures
        match r {
            Some(i) => i < options@.len() && encoding_option_for(options.deep_view(), enc@) == Some(i as int),
            None => encoding_option_for(options.deep_view(), enc@) == None::<int>,
        },
{
    match equal_index(options, enc) {
        Some(i) => return Some(i),
        None => {},
    }
    let up = to_uppercase(enc);
    if str_starts_with(up.as_str(), "ISO") {
        iso_index(options)
    } else if str_contains(up.as_str(), "UTF-8") {
        utf8_index(options)
    } else {
        None
    }
}

impl AppState {
    fn choose_language(&mut self, idx: usize)
        ensures
            *final(self) == (AppState { locales: language_chosen(old(self).locales, idx), ..*old(self) }),
    {
        let mut enc: Option<usize> = None;
        if idx < self.locales.locale_language_options.len() {
            let lang = &self.locales.locale_language_options[idx];
            match desired_encoding_of(&self.locales.locale_language_to_encoding, lang.as_str()) {
                Some(name) => {
                    enc = encoding_index_for(&self.locales.locale_encoding_options, name.as_str());
                },
                None => {},
            }
        }
        assert(enc == match encoding_after_language(self.locales, idx) {
            Some(e) => Some(e as usize),
            None => None::<usize>,
        });
        if self.locales.editing_locales {
            self.locales.draft_locale_language_index = idx;
            match enc {
                Some(e) => {
                    self.locales.draft_locale_encoding_index = e;
                },
                None => {
                    let keep = self.locales.draft_locale_encoding_index;
                    self.locales.draft_locale_encoding_index = keep;
                },
            }
        } else {
            self.locales.locale_language_index = idx;
            match enc {
                Some(e) => {
                    self.locales.locale_encoding_index = e;
                },
                None => {
                    let keep = self.locales.locale_encoding_index;
                    self.locales.locale_encoding_index = keep;
                },
            }
        }
    }

    /// Applies the highlighted row of the popup, then closes it. Choosing a
    /// keyboard layout, language or encoding sets it (in the draft while
    /// the locales are being edited); choosing a language also picks its
    /// encoding. The result is the keyboard layout to load on the live
    /// console, when one was chosen.
    pub fn apply_popup_selection(&mut self) -> (r: Option<String>)
        ensures
            !old(self).popup.popup_open ==> *final(self) == *old(self) && r is None,
            old(self).popup.popup_open ==> {
                let sel = old(self).popup.popup_selected_visible;
                let vis = old(self).popup.popup_visible_indices@;
                let applied = if sel < vis.len() {
                    selection_applied(old(self).locales, old(self).popup.popup_kind, vis[sel as int])
                } else {
                    (old(self).locales, None)
                };
                &&& *final(self) == (AppState { locales: applied.0, popup: final(self).popup, ..*old(self) })
                &&& popup_closed(old(self).popup, final(self).popup)
                &&& match r {
                    Some(layout) => applied.1 == Some(layout@),
                    None => applied.1 == None::<Seq<char>>,
                }
            },
    {
        if !self.popup.popup_open {
            return None;
        }
        let mut live: Option<String> = None;
        if self.popup.popup_selected_visible < self.popup.popup_visible_indices.len() {
            let idx = self.popup.popup_visible_indices[self.popup.popup_selected_visible];
            match self.popup.popup_kind {
                Some(PopupKind::KeyboardLayout) => {
                    if self.locales.editing_locales {
                        self.locales.draft_keyboard_layout_index = idx;
                    } else {
                        self.locales.keyboard_layout_index = idx;
                    }
                    if idx < self.locales.keyboard_layout_options.len() {
                        live = Some(self.locales.keyboard_layout_options[idx].clone());
                    }
                },
                Some(PopupKind::LocaleLanguage) => {
                    self.choose_language(idx);
                },
                Some(PopupKind::LocaleEncoding) => {
                    if self.locales.editing_locales {
                        self.locales.draft_locale_encoding_index = idx;
                    } else {
                        self.locales.locale_encoding_index = idx;
                    }
                },
                _ => {},
            }
        }
        self.close_popup();
        live
    }
}


/// The first position of a text equal to `x` when ASCII case is ignored.
pub open spec fn first_equal_ignore_case(s: Seq<Seq<char>>, x: Seq<char>) -> Option<int>
    decreases s.len(),
{
    if s.len() == 0 {
        None
    } else if eq_ignore_ascii_case(s[0], x) {
        Some(0)
    } else {
        shifted(first_equal_ignore_case(s.drop_first(), x), 1)
    }
}

/// The first position of a text that contains `x`.
pub open spec fn first_containing(s: Seq<Seq<char>>, x: Seq<char>) -> Option<int>
    decreases s.len(),
{
    if s.len() == 0 {
        None
    } else if has_substring(s[0], x) {
        Some(0)
    } else {
        shifted(first_containing(s.drop_first(), x), 1)
    }
}

fn index_ignore_case(options: &Vec<String>, x: &str) -> (r: Option<usize>)
    ensures
        match r {
            Some(i) => i < options@.len() && first_equal_ignore_case(options.deep_view(), x@) == Some(i as int),
            None => first_equal_ignore_case(options.deep_view(), x@) == None::<int>,
        },
{
    let ghost o = options.deep_view();
    let mut i: usize = 0;
    assert(o.skip(0) =~= o);
    while i < options.len()
        invariant
            o == options.deep_view(),
            i <= o.len(),
            first_equal_ignore_case(o, x@) == shifted(first_equal_ignore_case(o.skip(i as int), x@), i as int),
        decreases o.len() - i,
    {
        assert(o.skip(i as int)[0] == o[i as int]);
        assert(o.skip(i as int).drop_first() =~= o.skip(i + 1));
        if str_eq_ignore_ascii_case(options[i].as_str(), x) {
            return Some(i);
        }
        i = i + 1;
    }
    None
}

fn index_containing(options: &Vec<String>, x: &str) -> (r: Option<usize>)
    ensures
        match r {
            Some(i) => i < options@.len() && first_containing(options.deep_view(), x@) == Some(i as int),
            None => first_containing(options.deep_view(), x@) == None::<int>,
        },
{
    let ghost o = options.deep_view();
    let mut i: usize = 0;
    assert(o.skip(0) =~= o);
    while i < options.len()
        invariant
            o == options.deep_view(),
            i <= o.len(),
            first_containing(o, x@) == shifted(first_containing(o.skip(i as int), x@), i as int),
        decreases o.len() - i,
    {
        assert(o.skip(i as int)[0] == o[i as int]);
        assert(o.skip(i as int).drop_first() =~= o.skip(i + 1));
        if str_contains(options[i].as_str(), x) {
            return Some(i);
        }
        i = i + 1;
    }
    None
}

/// The index kept, or replaced by the position that was found.
pub open spec fn found_or(found: Option<int>, keep: usize) -> usize {
    match found {
        Some(i) => i as usize,
        None => keep,
    }
}

/// The mirror region chosen by default: the United States entry.
pub open spec fn default_region(options: Seq<Seq<char>>) -> Option<int> {
    match first_equal(options, "United States          US   186"@) {
        Some(i) => Some(i),
        None => first_containing(options, "United States"@),
    }
}

impl AppState {
    /// Once the locale lists are loaded: selects keyboard layout `us`,
    /// language `en_US.UTF-8` and encoding `UTF-8` (any ASCII case),
    /// each where it is offered, in the settings and in the draft.
    pub fn apply_locale_defaults(&mut self)
        ensures
            *final(self) == (AppState { locales: final(self).locales, ..*old(self) }),
            ({
                let l = old(self).locales;
                let k = first_equal(l.keyboard_layout_options.deep_view(), "us"@);
                let g = first_equal(l.locale_language_options.deep_view(), "en_US.UTF-8"@);
                let e = first_equal_ignore_case(l.locale_encoding_options.deep_view(), "UTF-8"@);
                final(self).locales == LocaleState {
                    keyboard_layout_index: found_or(k, l.keyboard_layout_index),
                    draft_keyboard_layout_index: found_or(k, l.draft_keyboard_layout_index),
                    locale_language_index: found_or(g, l.locale_language_index),
                    draft_locale_language_index: found_or(g, l.draft_locale_language_index),
                    locale_encoding_index: found_or(e, l.locale_encoding_index),
                    draft_locale_encoding_index: found_or(e, l.draft_locale_encoding_index),
                    ..l
                }
            }),
    {
        let k = equal_index(&self.locales.keyboard_layout_options, "us");
        let g = equal_index(&self.locales.locale_language_options, "en_US.UTF-8");
        let e = index_ignore_case(&self.locales.locale_encoding_options, "UTF-8");
        let (a, b) = match k {
            Some(i) => (i, i),
            None => (self.locales.keyboard_layout_index, self.locales.draft_keyboard_layout_index),
        };
        let (c, d) = match g {
            Some(i) => (i, i),
            None => (self.locales.locale_language_index, self.locales.draft_locale_language_index),
        };
        let (x, y) = match e {
            Some(i) => (i, i),
            None => (self.locales.locale_encoding_index, self.locales.draft_locale_encoding_index),
        };
        self.locales.keyboard_layout_index = a;
        self.locales.draft_keyboard_layout_index = b;
        self.locales.locale_language_index = c;
        self.locales.draft_locale_language_index = d;
        self.locales.locale_encoding_index = x;
        self.locales.draft_locale_encoding_index = y;
    }

    /// Once the mirror regions are loaded: when none is selected, selects
    /// the United States entry (the exact one, else the first that names
    /// the country), if it is offered.
    pub fn apply_mirror_defaults(&mut self)
        ensures
            *final(self) == (AppState { mirrors: final(self).mirrors, ..*old(self) }),
            final(self).mirrors == (MirrorState {
                mirrors_regions_selected: final(self).mirrors.mirrors_regions_selected,
                ..old(self).mirrors
            }),
            ({
                let m = old(self).mirrors;
                let found = default_region(m.mirrors_regions_options.deep_view());
                if m.mirrors_regions_selected@ == Set::<usize>::empty() && found is Some {
                    final(self).mirrors.mirrors_regions_selected@ == m.mirrors_regions_selected@.insert(found->0 as usize)
                } else {
                    final(self).mirrors.mirrors_regions_selected@ == m.mirrors_regions_selected@
                }
            }),
    {
        if !self.mirrors.mirrors_regions_selected.is_empty() {
            return;
        }
        let exact = equal_index(&self.mirrors.mirrors_regions_options, "United States          US   186");
        let found = match exact {
            Some(i) => Some(i),
            None => index_containing(&self.mirrors.mirrors_regions_options, "United States"),
        };
        match found {
            Some(i) => {
                self.mirrors.mirrors_regions_selected.insert(i);
            },
            None => {},
        }
    }
}


/// Applying the highlighted row of a locale popup stores the row's index
/// in the setting that the popup edits: in the draft while the locales
/// are being edited, else in the live setting, leaving the other one as
/// it was. A keyboard layout row also names the layout to load at once
/// (when the row is a listed layout); no other popup names one.
pub proof fn lemma_locale_choice_stored(old: LocaleState, idx: usize)
    ensures
        ({
            let (l, live) = selection_applied(old, Some(PopupKind::KeyboardLayout), idx);
            &&& !old.editing_locales ==> l.keyboard_layout_index == idx
                && l.draft_keyboard_layout_index == old.draft_keyboard_layout_index
            &&& old.editing_locales ==> l.draft_keyboard_layout_index == idx
                && l.keyboard_layout_index == old.keyboard_layout_index
            &&& l.keyboard_layout_options == old.keyboard_layout_options
            &&& idx < old.keyboard_layout_options@.len() ==> live == Some(old.keyboard_layout_options@[idx as int]@)
            &&& idx >= old.keyboard_layout_options@.len() ==> live == None::<Seq<char>>
        }),
        ({
            let (l, live) = selection_applied(old, Some(PopupKind::LocaleEncoding), idx);
            &&& !old.editing_locales ==> l.locale_encoding_index == idx
                && l.draft_locale_encoding_index == old.draft_locale_encoding_index
            &&& old.editing_locales ==> l.draft_locale_encoding_index == idx
                && l.locale_encoding_index == old.locale_encoding_index
            &&& l.locale_language_index == old.locale_language_index
            &&& l.keyboard_layout_index == old.keyboard_layout_index
            &&& live == None::<Seq<char>>
        }),
        ({
            let (l, live) = selection_applied(old, Some(PopupKind::LocaleLanguage), idx);
            &&& !old.editing_locales ==> l.locale_language_index == idx
                && l.draft_locale_language_index == old.draft_locale_language_index
                && l.draft_locale_encoding_index == old.draft_locale_encoding_index
            &&& old.editing_locales ==> l.draft_locale_language_index == idx
                && l.locale_language_index == old.locale_language_index
                && l.locale_encoding_index == old.locale_encoding_index
            &&& l.keyboard_layout_index == old.keyboard_layout_index
            &&& live == None::<Seq<char>>
        }),
{
}

/// The encoding that goes with a chosen language: the one listed for it
/// when the list has that encoding, so choosing a language whose listed
/// encoding is among the options selects that option (the first equal
/// one).
pub proof fn lemma_language_brings_its_listed_encoding(old: LocaleState, idx: usize, j: int)
    requires
        idx < old.locale_language_options@.len(),
        pair_lookup(old.locale_language_to_encoding@, old.locale_language_options@[idx as int]@) matches Some(e)
            && 0 <= j < old.locale_encoding_options@.len() && old.locale_encoding_options@[j]@ == e
            && forall|k: int| 0 <= k < j ==> old.locale_encoding_options@[k]@ != e,
    ensures
        ({
            let l = selection_applied(old, Some(PopupKind::LocaleLanguage), idx).0;
            &&& !old.editing_locales ==> l.locale_encoding_index == j
            &&& old.editing_locales ==> l.draft_locale_encoding_index == j
        }),
{
    let e = pair_lookup(old.locale_language_to_encoding@, old.locale_language_options@[idx as int]@)->0;
    let opts = old.locale_encoding_options.deep_view();
    assert forall|k: int| 0 <= k < opts.len() implies opts[k] == old.locale_encoding_options@[k]@ by {}
    lemma_first_equal_at(opts, e, j);
    assert(desired_encoding(old.locale_language_to_encoding@, old.locale_language_options@[idx as int]@) == Some(e));
    assert(encoding_option_for(opts, e) == Some(j));
    assert(encoding_after_language(old, idx) == Some(j));
    assert(old.locale_encoding_options@.len() == old.locale_encoding_options.len());
    assert((j as usize) as int == j);
}

/// `first_equal` finds the first position holding `x`.
proof fn lemma_first_equal_at(s: Seq<Seq<char>>, x: Seq<char>, j: int)
    requires
        0 <= j < s.len(),
        s[j] == x,
        forall|k: int| 0 <= k < j ==> s[k] != x,
    ensures
        first_equal(s, x) == Some(j),
    decreases j,
{
    if j > 0 {
        lemma_first_equal_at(s.drop_first(), x, j - 1);
    }
}

} // verus!
