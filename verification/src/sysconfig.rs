//! Configuration of the installed system: clock, locale, console
//! keymap, host name, services, the root password and an AUR helper.
use vstd::prelude::*;
use crate::commands::{chroot, chroot_cmd, emit, emit_when, only_if};
use crate::popups::{lookup_pair, pair_lookup};
use crate::state::{AccountState, AppState};
use crate::text::{owned, str_eq};

verus! {

/// The commands that configure the installed system, in order.
#[derive(Clone)]
pub struct SysConfigPlan {
    pub commands: Vec<String>,
}

impl SysConfigPlan {
    /// A plan made of the given commands.
    pub fn new(commands: Vec<String>) -> (r: Self)
        ensures
            r.commands == commands,
    {
        SysConfigPlan { commands }
    }
}

/// Builds system-configuration plans.
pub struct SysConfigService;

// ---------------------------------------------------------------------
// Specification.
// ---------------------------------------------------------------------

/// The time zone: the chosen one, else `UTC`.
pub open spec fn timezone_of(s: AppState) -> Seq<char> {
    if s.system.timezone_value@.len() == 0 { "UTC"@ } else { s.system.timezone_value@ }
}

/// The language: the selected option, else `en_US.UTF-8`.
pub open spec fn language_of(s: AppState) -> Seq<char> {
    let i = s.locales.locale_language_index;
    if i < s.locales.locale_language_options@.len() {
        s.locales.locale_language_options@[i as int]@
    } else {
        "en_US.UTF-8"@
    }
}

/// The encoding listed for the language, else `UTF-8`.
pub open spec fn encoding_of(s: AppState) -> Seq<char> {
    match pair_lookup(s.locales.locale_language_to_encoding@, language_of(s)) {
        Some(e) => e,
        None => "UTF-8"@,
    }
}

/// The line of `/etc/locale.gen` that the language needs.
pub open spec fn locale_gen_line(s: AppState) -> Seq<char> {
    language_of(s) + " "@ + encoding_of(s)
}

/// The console keymap: the selected layout, else `us`.
pub open spec fn keymap_of(s: AppState) -> Seq<char> {
    let i = s.locales.keyboard_layout_index;
    if i < s.locales.keyboard_layout_options@.len() {
        s.locales.keyboard_layout_options@[i as int]@
    } else {
        "us"@
    }
}

/// The host name: the chosen one, else `archlinux`.
pub open spec fn hostname_of(s: AppState) -> Seq<char> {
    if s.system.hostname_value@.len() == 0 { "archlinux"@ } else { s.system.hostname_value@ }
}

/// Clock, locale, keymap, host name and hosts file.
pub open spec fn base_config_commands(s: AppState) -> Seq<Seq<char>> {
    let line = locale_gen_line(s);
    let host = hostname_of(s);
    seq![
        chroot("ln -sf /usr/share/zoneinfo/"@ + timezone_of(s) + " /etc/localtime"@),
        chroot("hwclock --systohc"@),
        chroot("sed -i 's/^#\\s*"@ + line + "/"@ + line + "/' /etc/locale.gen"@),
        chroot("grep -q '^"@ + line + "$' /etc/locale.gen || echo '"@ + line + "' >> /etc/locale.gen"@),
        chroot("locale-gen"@),
        chroot("printf 'LANG=%s\\n' '"@ + language_of(s) + "' > /etc/locale.conf"@),
        chroot("printf 'KEYMAP=%s\\n' '"@ + keymap_of(s) + "' > /etc/vconsole.conf"@),
        chroot("printf '%s\\n' '"@ + host + "' > /etc/hostname"@),
        chroot("printf '%s\\n%s\\n%s\\n' '127.0.0.1   localhost' '::1         localhost' '127.0.1.1   "@
            + host + ".localdomain "@ + host + "' > /etc/hosts"@),
    ]
}

/// The services to enable: NetworkManager, sshd, cloud-init and time sync.
pub open spec fn service_commands(s: AppState) -> Seq<Seq<char>> {
    only_if(s.network.network_mode_index == 2, "systemctl --root=/mnt enable NetworkManager"@)
        + only_if(s.experience.selected_server_types@.contains("sshd"@), "systemctl --root=/mnt enable sshd"@)
        + only_if(s.experience.selected_server_types@.contains("Cloud"@), "systemctl --root=/mnt enable cloud-init"@)
        + only_if(s.system.ats_enabled, "systemctl --root=/mnt enable systemd-timesyncd"@)
}

/// A root password is set when one was given and confirmed.
pub open spec fn root_password_set(s: AppState) -> bool {
    s.accounts.root_password@.len() > 0 && s.accounts.root_password@ == s.accounts.root_password_confirm@
}

/// The command that sets the root password; in a dry run the password
/// itself is left out.
pub open spec fn root_password_commands(s: AppState) -> Seq<Seq<char>> {
    if !root_password_set(s) {
        Seq::empty()
    } else if s.dry_run {
        seq![chroot("echo \"root:<REDACTED>\" | chpasswd"@)]
    } else {
        seq![chroot("echo 'root:"@ + s.accounts.root_password@ + "' | chpasswd"@)]
    }
}

/// The AUR helper to build: paru for index 1, else yay.
pub open spec fn aur_uses_paru(s: AppState) -> bool {
    s.mirrors.aur_helper_index == Some(1usize)
}

/// The commands that build and install the chosen AUR helper with a
/// temporary build user, then remove that user.
pub open spec fn aur_commands(s: AppState) -> Seq<Seq<char>> {
    if !s.mirrors.aur_selected {
        Seq::empty()
    } else {
        seq![
            chroot("id -u aurbuild >/dev/null 2>&1 || useradd -m -s /bin/bash aurbuild"@),
            chroot("install -d -m0755 /etc/sudoers.d && printf '%s\n' 'aurbuild ALL=(ALL) NOPASSWD: /usr/bin/pacman' > /etc/sudoers.d/aurbuild && chmod 0440 /etc/sudoers.d/aurbuild"@),
        ] + (if aur_uses_paru(s) {
            seq![
                chroot("pacman -Syu --noconfirm --needed base-devel git rust"@),
                chroot("sudo -u aurbuild bash -lc 'cd /tmp && rm -rf paru && git clone https://aur.archlinux.org/paru.git && cd paru && makepkg -si --noconfirm'"@),
                chroot("sudo -u aurbuild bash -lc 'paru -Syu --noconfirm'"@),
            ]
        } else {
            seq![
                chroot("pacman -Syu --noconfirm --needed base-devel git go"@),
                chroot("sudo -u aurbuild bash -lc 'cd /tmp && rm -rf yay && git clone https://aur.archlinux.org/yay.git && cd yay && makepkg -si --noconfirm'"@),
                chroot("sudo -u aurbuild bash -lc 'yay -Syu --noconfirm'"@),
            ]
        }) + seq![
            chroot("rm -rf /tmp/yay /tmp/paru || true"@),
            chroot("rm -f /etc/sudoers.d/aurbuild || true"@),
            chroot("userdel -r aurbuild || true"@),
        ]
    }
}

/// All system-configuration commands, in order.
pub open spec fn sysconfig_commands(s: AppState) -> Seq<Seq<char>> {
    base_config_commands(s) + service_commands(s) + root_password_commands(s) + aur_commands(s)
}

// ---------------------------------------------------------------------
// Building the plan.
// ---------------------------------------------------------------------

/// `v`, or `d` when `v` is empty.
fn or_when_empty<'a>(v: &'a String, d: &'a str) -> (r: &'a str)
    ensures
        r@ == (if v@.len() == 0 { d@ } else { v@ }),
{
    if v.as_str().unicode_len() == 0 { d } else { v.as_str() }
}

/// The option at `i`, or `d` when `i` is out of range.
fn option_or<'a>(options: &'a Vec<String>, i: usize, d: &'a str) -> (r: &'a str)
    ensures
        r@ == (if i < options@.len() { options@[i as int]@ } else { d@ }),
{
    if i < options.len() { options[i].as_str() } else { d }
}

fn emit_base_config(state: &AppState, out: &mut Vec<String>)
    ensures
        final(out).deep_view() == old(out).deep_view() + base_config_commands(*state),
{
    let ghost start = out.deep_view();
    let timezone = or_when_empty(&state.system.timezone_value, "UTC");
    let mut c = owned("ln -sf /usr/share/zoneinfo/");
    c.append(timezone);
    c.append(" /etc/localtime");
    emit(out, chroot_cmd(c.as_str()));
    emit(out, chroot_cmd("hwclock --systohc"));

    let language = option_or(&state.locales.locale_language_options, state.locales.locale_language_index, "en_US.UTF-8");
    let encoding = match lookup_pair(&state.locales.locale_language_to_encoding, language) {
        Some(e) => e,
        None => owned("UTF-8"),
    };
    assert(encoding@ == encoding_of(*state));
    let mut line = owned(language);
    line.append(" ");
    line.append(encoding.as_str());
    assert(line@ == locale_gen_line(*state));

    let mut c = owned("sed -i 's/^#\\s*");
    c.append(line.as_str());
    c.append("/");
    c.append(line.as_str());
    c.append("/' /etc/locale.gen");
    emit(out, chroot_cmd(c.as_str()));

    let mut c = owned("grep -q '^");
    c.append(line.as_str());
    c.append("$' /etc/locale.gen || echo '");
    c.append(line.as_str());
    c.append("' >> /etc/locale.gen");
    emit(out, chroot_cmd(c.as_str()));
    emit(out, chroot_cmd("locale-gen"));

    let mut c = owned("printf 'LANG=%s\\n' '");
    c.append(language);
    c.append("' > /etc/locale.conf");
    emit(out, chroot_cmd(c.as_str()));

    let keymap = option_or(&state.locales.keyboard_layout_options, state.locales.keyboard_layout_index, "us");
    let mut c = owned("printf 'KEYMAP=%s\\n' '");
    c.append(keymap);
    c.append("' > /etc/vconsole.conf");
    emit(out, chroot_cmd(c.as_str()));

    let hostname = or_when_empty(&state.system.hostname_value, "archlinux");
    let mut c = owned("printf '%s\\n' '");
    c.append(hostname);
    c.append("' > /etc/hostname");
    emit(out, chroot_cmd(c.as_str()));

    let mut c = owned("printf '%s\\n%s\\n%s\\n' '127.0.0.1   localhost' '::1         localhost' '127.0.1.1   ");
    c.append(hostname);
    c.append(".localdomain ");
    c.append(hostname);
    c.append("' > /etc/hosts");
    emit(out, chroot_cmd(c.as_str()));
    assert(out.deep_view() =~= start + base_config_commands(*state));
}

fn emit_services(state: &AppState, out: &mut Vec<String>)
    ensures
        final(out).deep_view() == old(out).deep_view() + service_commands(*state),
{
    let ghost start = out.deep_view();
    emit_when(state.network.network_mode_index == 2, "systemctl --root=/mnt enable NetworkManager", out);
    let sshd = state.experience.selected_server_types.contains("sshd");
    emit_when(sshd, "systemctl --root=/mnt enable sshd", out);
    let cloud = state.experience.selected_server_types.contains("Cloud");
    emit_when(cloud, "systemctl --root=/mnt enable cloud-init", out);
    emit_when(state.system.ats_enabled, "systemctl --root=/mnt enable systemd-timesyncd", out);
    assert(out.deep_view() =~= start + service_commands(*state));
}

fn emit_root_password(state: &AppState, out: &mut Vec<String>)
    ensures
        final(out).deep_view() == old(out).deep_view() + root_password_commands(*state),
{
    let ghost start = out.deep_view();
    let pw = state.accounts.root_password.as_str();
    if pw.unicode_len() != 0 && str_eq(pw, state.accounts.root_password_confirm.as_str()) {
        if state.dry_run {
            emit(out, chroot_cmd("echo \"root:<REDACTED>\" | chpasswd"));
        } else {
            let mut c = owned("echo 'root:");
            c.append(pw);
            c.append("' | chpasswd");
            emit(out, chroot_cmd(c.as_str()));
        }
    }
    assert(out.deep_view() =~= start + root_password_commands(*state));
}

fn emit_aur(state: &AppState, out: &mut Vec<String>)
    ensures
        final(out).deep_view() == old(out).deep_view() + aur_commands(*state),
{
    let ghost start = out.deep_view();
    if state.mirrors.aur_selected {
        emit(out, chroot_cmd("id -u aurbuild >/dev/null 2>&1 || useradd -m -s /bin/bash aurbuild"));
        emit(out, chroot_cmd("install -d -m0755 /etc/sudoers.d && printf '%s\n' 'aurbuild ALL=(ALL) NOPASSWD: /usr/bin/pacman' > /etc/sudoers.d/aurbuild && chmod 0440 /etc/sudoers.d/aurbuild"));
        let paru = match state.mirrors.aur_helper_index {
            Some(i) => i == 1,
            None => false,
        };
        if paru {
            emit(out, chroot_cmd("pacman -Syu --noconfirm --needed base-devel git rust"));
            emit(out, chroot_cmd("sudo -u aurbuild bash -lc 'cd /tmp && rm -rf paru && git clone https://aur.archlinux.org/paru.git && cd paru && makepkg -si --noconfirm'"));
            emit(out, chroot_cmd("sudo -u aurbuild bash -lc 'paru -Syu --noconfirm'"));
        } else {
            emit(out, chroot_cmd("pacman -Syu --noconfirm --needed base-devel git go"));
            emit(out, chroot_cmd("sudo -u aurbuild bash -lc 'cd /tmp && rm -rf yay && git clone https://aur.archlinux.org/yay.git && cd yay && makepkg -si --noconfirm'"));
            emit(out, chroot_cmd("sudo -u aurbuild bash -lc 'yay -Syu --noconfirm'"));
        }
        emit(out, chroot_cmd("rm -rf /tmp/yay /tmp/paru || true"));
        emit(out, chroot_cmd("rm -f /etc/sudoers.d/aurbuild || true"));
        emit(out, chroot_cmd("userdel -r aurbuild || true"));
    }
    assert(out.deep_view() =~= start + aur_commands(*state));
}

impl SysConfigService {
    /// The commands that configure the installed system: time zone and
    /// clock, locale, console keymap, host name and hosts file, the
    /// chosen services, the root password when it was given and
    /// confirmed (hidden in a dry run), and the chosen AUR helper.
    pub fn build_plan(state: &AppState) -> (plan: SysConfigPlan)
        ensures
            plan.commands.deep_view() == sysconfig_commands(*state),
    {
        let mut cmds: Vec<String> = Vec::new();
        assert(cmds.deep_view() =~= Seq::<Seq<char>>::empty());
        emit_base_config(state, &mut cmds);
        emit_services(state, &mut cmds);
        emit_root_password(state, &mut cmds);
        emit_aur(state, &mut cmds);
        assert(cmds.deep_view() =~= sysconfig_commands(*state));
        SysConfigPlan::new(cmds)
    }
}

/// In a dry run the plan does not depend on the root password itself,
/// only on whether one was given and confirmed: two states that differ
/// only in the root password give the same commands.
pub proof fn lemma_dry_run_hides_root_password(s1: AppState, s2: AppState)
    requires
        s1.dry_run,
        s2 == (AppState {
            accounts: AccountState {
                root_password: s2.accounts.root_password,
                root_password_confirm: s2.accounts.root_password_confirm,
                ..s1.accounts
            },
            ..s1
        }),
        root_password_set(s1) == root_password_set(s2),
    ensures
        sysconfig_commands(s1) == sysconfig_commands(s2),
{
    assert(base_config_commands(s1) == base_config_commands(s2));
    assert(service_commands(s1) == service_commands(s2));
    assert(root_password_commands(s1) == root_password_commands(s2));
    assert(aur_commands(s1) == aur_commands(s2));
}

/// With the AUR chosen, the last configuration step deletes the
/// temporary build user.
pub proof fn lemma_aur_build_user_removed_last(s: AppState)
    requires
        s.mirrors.aur_selected,
    ensures
        sysconfig_commands(s).last() == chroot("userdel -r aurbuild || true"@),
{
    let a = aur_commands(s);
    assert(a.last() == chroot("userdel -r aurbuild || true"@));
    let pre = base_config_commands(s) + service_commands(s) + root_password_commands(s);
    assert(sysconfig_commands(s) == pre + a);
    assert((pre + a).last() == a.last());
}


/// The console keymap written to `/etc/vconsole.conf` is the layout the
/// user selected; only when the selection names no layout is it `us`.
pub proof fn lemma_vconsole_writes_selected_layout(s: AppState)
    ensures
        sysconfig_commands(s)[6] == chroot("printf 'KEYMAP=%s\\n' '"@ + (if s.locales.keyboard_layout_index
            < s.locales.keyboard_layout_options@.len() {
            s.locales.keyboard_layout_options@[s.locales.keyboard_layout_index as int]@
        } else {
            "us"@
        }) + "' > /etc/vconsole.conf"@),
{
    assert(sysconfig_commands(s)[6] == base_config_commands(s)[6]);
}

/// The language written to `/etc/locale.conf` is the one selected (else
/// `en_US.UTF-8`), and the line enabled in `/etc/locale.gen` is that
/// language and the encoding listed for it (else `UTF-8`).
pub proof fn lemma_locale_writes_selected_language(s: AppState)
    ensures
        ({
            let lang = if s.locales.locale_language_index < s.locales.locale_language_options@.len() {
                s.locales.locale_language_options@[s.locales.locale_language_index as int]@
            } else {
                "en_US.UTF-8"@
            };
            let enc = match pair_lookup(s.locales.locale_language_to_encoding@, lang) {
                Some(e) => e,
                None => "UTF-8"@,
            };
            &&& sysconfig_commands(s)[5] == chroot("printf 'LANG=%s\\n' '"@ + lang + "' > /etc/locale.conf"@)
            &&& sysconfig_commands(s)[3] == chroot("grep -q '^"@ + lang + " "@ + enc + "$' /etc/locale.gen || echo '"@
                + lang + " "@ + enc + "' >> /etc/locale.gen"@)
        }),
{
    assert(sysconfig_commands(s)[5] == base_config_commands(s)[5]);
    assert(sysconfig_commands(s)[3] == base_config_commands(s)[3]);
    let line = locale_gen_line(s);
    assert("grep -q '^"@ + line + "$' /etc/locale.gen || echo '"@ + line + "' >> /etc/locale.gen"@
        =~= "grep -q '^"@ + language_of(s) + " "@ + encoding_of(s) + "$' /etc/locale.gen || echo '"@
        + language_of(s) + " "@ + encoding_of(s) + "' >> /etc/locale.gen"@);
}

/// The time zone linked to `/etc/localtime` is the chosen one (else
/// `UTC`), and the host name written is the chosen one (else
/// `archlinux`).
pub proof fn lemma_clock_and_host_as_chosen(s: AppState)
    ensures
        sysconfig_commands(s)[0] == chroot("ln -sf /usr/share/zoneinfo/"@ + (if s.system.timezone_value@.len() == 0 {
            "UTC"@
        } else {
            s.system.timezone_value@
        }) + " /etc/localtime"@),
        sysconfig_commands(s)[7] == chroot("printf '%s\\n' '"@ + (if s.system.hostname_value@.len() == 0 {
            "archlinux"@
        } else {
            s.system.hostname_value@
        }) + "' > /etc/hostname"@),
{
    assert(sysconfig_commands(s)[0] == base_config_commands(s)[0]);
    assert(sysconfig_commands(s)[7] == base_config_commands(s)[7]);
}

/// The services enabled are exactly those chosen: NetworkManager for
/// NetworkManager mode (index 2), sshd and cloud-init for those server
/// types, and time sync when automatic time sync is on.
pub proof fn lemma_services_as_chosen(s: AppState)
    ensures
        service_commands(s).contains("systemctl --root=/mnt enable NetworkManager"@) <==> s.network.network_mode_index == 2,
        service_commands(s).contains("systemctl --root=/mnt enable sshd"@) <==> s.experience.selected_server_types@.contains("sshd"@),
        service_commands(s).contains("systemctl --root=/mnt enable cloud-init"@) <==> s.experience.selected_server_types@.contains("Cloud"@),
        service_commands(s).contains("systemctl --root=/mnt enable systemd-timesyncd"@) <==> s.system.ats_enabled,
{
    let a = "systemctl --root=/mnt enable NetworkManager"@;
    let b = "systemctl --root=/mnt enable sshd"@;
    let c = "systemctl --root=/mnt enable cloud-init"@;
    let d = "systemctl --root=/mnt enable systemd-timesyncd"@;
    reveal_strlit("systemctl --root=/mnt enable NetworkManager");
    reveal_strlit("systemctl --root=/mnt enable sshd");
    reveal_strlit("systemctl --root=/mnt enable cloud-init");
    reveal_strlit("systemctl --root=/mnt enable systemd-timesyncd");
    assert(a.len() == 43 && b.len() == 33 && c.len() == 39 && d.len() == 46);
    let sa = only_if(s.network.network_mode_index == 2, a);
    let sb = only_if(s.experience.selected_server_types@.contains("sshd"@), b);
    let sc = only_if(s.experience.selected_server_types@.contains("Cloud"@), c);
    let sd = only_if(s.system.ats_enabled, d);
    let all = sa + sb + sc + sd;
    assert(service_commands(s) == all);
    assert forall|x: Seq<char>| all.contains(x) <==> (sa.contains(x) || sb.contains(x) || sc.contains(x) || sd.contains(x)) by {
        if all.contains(x) {
            let k = choose|k: int| 0 <= k < all.len() && all[k] == x;
            if k < sa.len() {
                assert(sa[k] == x);
            } else if k < sa.len() + sb.len() {
                assert(sb[k - sa.len()] == x);
            } else if k < sa.len() + sb.len() + sc.len() {
                assert(sc[k - sa.len() - sb.len()] == x);
            } else {
                assert(sd[k - sa.len() - sb.len() - sc.len()] == x);
            }
        }
        if sa.contains(x) {
            let k = choose|k: int| 0 <= k < sa.len() && sa[k] == x;
            assert(all[k] == x);
        }
        if sb.contains(x) {
            let k = choose|k: int| 0 <= k < sb.len() && sb[k] == x;
            assert(all[sa.len() + k] == x);
        }
        if sc.contains(x) {
            let k = choose|k: int| 0 <= k < sc.len() && sc[k] == x;
            assert(all[sa.len() + sb.len() + k] == x);
        }
        if sd.contains(x) {
            let k = choose|k: int| 0 <= k < sd.len() && sd[k] == x;
            assert(all[sa.len() + sb.len() + sc.len() + k] == x);
        }
    }
    if s.network.network_mode_index == 2 { assert(sa[0] == a); }
    if s.experience.selected_server_types@.contains("sshd"@) { assert(sb[0] == b); }
    if s.experience.selected_server_types@.contains("Cloud"@) { assert(sc[0] == c); }
    if s.system.ats_enabled { assert(sd[0] == d); }
}

} // verus!
