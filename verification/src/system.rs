//! Installing the base system: the repository setup that precedes
//! `pacstrap`, and the package set that `pacstrap` installs.
use vstd::prelude::*;
use crate::commands::{emit, emit_when, lemma_quoted_word_reads_back, only_if, quoted_word, read_word};
use crate::state::AppState;
use crate::sets::{sorted_strict, lemma_push_contains, lemma_sorted_unique, StringSet, StringSetMap};
use crate::types::AdditionalPackage;
use crate::text::{
    escape_quotes, escape_single_quotes, has_substring, join, join_with, lowercase_of, newlines_to_spaces,
    owned, replace_newlines, str_contains, str_eq, to_lowercase,
};
use crate::types::{CustomRepo, RepoSignature, RepoSignOption};

verus! {

broadcast use {vstd::std_specs::btree::group_btree_axioms, vstd::laws_cmp::group_laws_cmp};

/// The commands of one installation step, in order.
#[derive(Clone)]
pub struct SystemPlan {
    pub commands: Vec<String>,
}

impl SystemPlan {
    /// A plan made of the given commands.
    pub fn new(commands: Vec<String>) -> (r: Self)
        ensures
            r.commands == commands,
    {
        SystemPlan { commands }
    }
}

/// Builds the installation plans.
pub struct SystemService;

// ---------------------------------------------------------------------
// Repositories.
// ---------------------------------------------------------------------

/// A repository name or URL made safe for a single-quoted shell word:
/// newlines become spaces and quotes are escaped.
pub open spec fn shell_safe(x: Seq<char>) -> Seq<char> {
    escape_quotes(newlines_to_spaces(x))
}

/// The `SigLevel` line of a custom repository.
pub open spec fn siglevel_of(r: CustomRepo) -> Seq<char> {
    match r.signature {
        RepoSignature::Never => "SigLevel = Never"@,
        RepoSignature::Optional => match r.sign_option {
            Some(RepoSignOption::TrustedOnly) => "SigLevel = PackageRequired DatabaseOptional TrustedOnly"@,
            Some(RepoSignOption::TrustedAll) => "SigLevel = PackageRequired DatabaseOptional TrustedAll"@,
            None => "SigLevel = PackageRequired DatabaseOptional"@,
        },
        RepoSignature::Required => match r.sign_option {
            Some(RepoSignOption::TrustedOnly) => "SigLevel = Required TrustedOnly"@,
            Some(RepoSignOption::TrustedAll) => "SigLevel = Required TrustedAll"@,
            None => "SigLevel = Required"@,
        },
    }
}

/// The command that appends one line to the target's `pacman.conf`.
pub open spec fn conf_line(line: Seq<char>) -> Seq<char> {
    "printf '%s\\n' '"@ + line + "' >> /mnt/etc/pacman.conf"@
}

/// The command that appends an empty line to the target's `pacman.conf`.
pub open spec fn conf_newline() -> Seq<char> {
    "printf '\n' >> /mnt/etc/pacman.conf"@
}

/// The block of one custom repository: its section, server, signature
/// level and a blank line.
pub open spec fn repo_commands(r: CustomRepo) -> Seq<Seq<char>> {
    seq![
        conf_line("["@ + shell_safe(r.name@) + "]"@),
        conf_line("Server = "@ + shell_safe(r.url@)),
        conf_line(siglevel_of(r)),
        conf_newline(),
    ]
}

/// The blocks of the custom repositories, in order.
pub open spec fn repos_commands(rs: Seq<CustomRepo>) -> Seq<Seq<char>>
    decreases rs.len(),
{
    if rs.len() == 0 {
        Seq::empty()
    } else {
        repos_commands(rs.drop_last()) + repo_commands(rs.last())
    }
}

/// The commands that prepare the target's repositories before `pacstrap`:
/// copy `pacman.conf`, enable multilib (option 0) and testing (option 1)
/// when chosen, and append the custom repositories.
pub open spec fn pre_install_commands(s: AppState) -> Seq<Seq<char>> {
    let sel = s.mirrors.optional_repos_selected@;
    let repos = s.mirrors.custom_repos@;
    seq!["test -f /mnt/etc/pacman.conf || install -Dm644 /etc/pacman.conf /mnt/etc/pacman.conf"@]
        + only_if(sel.contains(0usize), "sed -i '/^#\\s*\\[multilib\\]/,/^#\\s*Include/s/^#\\s*//' /mnt/etc/pacman.conf"@)
        + (if sel.contains(1usize) {
            seq![
                "sed -i '/^#\\s*\\[testing\\]/,/^#\\s*Include/s/^#\\s*//' /mnt/etc/pacman.conf"@,
                "sed -i '/^#\\s*\\[community-testing\\]/,/^#\\s*Include/s/^#\\s*//' /mnt/etc/pacman.conf"@,
            ]
        } else {
            Seq::empty()
        })
        + (if repos.len() > 0 { seq![conf_newline()] + repos_commands(repos) } else { Seq::empty() })
}

/// Escaping quotes adds no newline.
proof fn lemma_escape_keeps_lines(s: Seq<char>)
    requires
        !s.contains('\n'),
    ensures
        !escape_quotes(s).contains('\n'),
    decreases s.len(),
{
    if s.len() > 0 {
        assert(!s.drop_last().contains('\n')) by {
            if s.drop_last().contains('\n') {
                let k = choose|k: int| 0 <= k < s.drop_last().len() && s.drop_last()[k] == '\n';
                assert(s[k] == '\n');
            }
        }
        lemma_escape_keeps_lines(s.drop_last());
        assert(s.last() != '\n') by {
            assert(s[s.len() - 1] == s.last());
        }
        let head = escape_quotes(s.drop_last());
        let tail = if s.last() == '\'' { seq!['\'', '\\', '\'', '\''] } else { seq![s.last()] };
        assert(escape_quotes(s) == head + tail);
        if (head + tail).contains('\n') {
            let k = choose|k: int| 0 <= k < (head + tail).len() && (head + tail)[k] == '\n';
            if k < head.len() {
                assert(head[k] == '\n');
            } else {
                assert(tail[k - head.len()] == '\n');
            }
        }
    }
}

/// A repository name or URL stays on its line of `pacman.conf`: the
/// text written for it holds no newline.
pub proof fn lemma_repo_text_single_line(x: Seq<char>)
    ensures
        !shell_safe(x).contains('\n'),
{
    let flat = newlines_to_spaces(x);
    assert(!flat.contains('\n')) by {
        if flat.contains('\n') {
            let k = choose|k: int| 0 <= k < flat.len() && flat[k] == '\n';
            assert(flat[k] == (if x[k] == '\n' { ' ' } else { x[k] }));
        }
    }
    lemma_escape_keeps_lines(flat);
}

/// The repository lines of `pacman.conf` read back exactly: the shell
/// hands `printf` the word `[name]` and the word `Server = url`, with the
/// newlines of the name and URL turned into spaces and nothing else
/// changed; no quote in them can end the quoting early.
pub proof fn lemma_repo_lines_read_back(r: CustomRepo)
    ensures
        repo_commands(r)[0] == "printf '%s\\n' "@
            + quoted_word("["@, newlines_to_spaces(r.name@), "]"@) + " >> /mnt/etc/pacman.conf"@,
        read_word(quoted_word("["@, newlines_to_spaces(r.name@), "]"@), false)
            == Some("["@ + newlines_to_spaces(r.name@) + "]"@),
        repo_commands(r)[1] == "printf '%s\\n' "@
            + quoted_word("Server = "@, newlines_to_spaces(r.url@), Seq::empty()) + " >> /mnt/etc/pacman.conf"@,
        read_word(quoted_word("Server = "@, newlines_to_spaces(r.url@), Seq::empty()), false)
            == Some("Server = "@ + newlines_to_spaces(r.url@)),
{
    reveal_strlit("printf '%s\\n' '");
    reveal_strlit("printf '%s\\n' ");
    reveal_strlit("' >> /mnt/etc/pacman.conf");
    reveal_strlit(" >> /mnt/etc/pacman.conf");
    reveal_strlit("[");
    reveal_strlit("]");
    reveal_strlit("Server = ");
    let name = newlines_to_spaces(r.name@);
    let url = newlines_to_spaces(r.url@);
    assert(repo_commands(r)[0] =~= "printf '%s\\n' "@ + quoted_word("["@, name, "]"@) + " >> /mnt/etc/pacman.conf"@);
    assert(repo_commands(r)[1] =~= "printf '%s\\n' "@ + quoted_word("Server = "@, url, Seq::empty()) + " >> /mnt/etc/pacman.conf"@);
    assert(!"["@.contains('\'')) by {
        assert("["@ =~= seq!['[']);
    }
    assert(!"]"@.contains('\'')) by {
        assert("]"@ =~= seq![']']);
    }
    assert(!"Server = "@.contains('\'')) by {
        if "Server = "@.contains('\'') {
            let k = choose|k: int| 0 <= k < "Server = "@.len() && "Server = "@[k] == '\'';
            assert("Server = "@[k] != '\'');
        }
    }
    assert(!Seq::<char>::empty().contains('\''));
    lemma_quoted_word_reads_back("["@, name, "]"@);
    lemma_quoted_word_reads_back("Server = "@, url, Seq::empty());
    assert("Server = "@ + url + Seq::<char>::empty() =~= "Server = "@ + url);
}

fn safe_text(x: &str) -> (r: String)
    ensures
        r@ == shell_safe(x@),
{
    let flat = replace_newlines(x);
    escape_single_quotes(flat.as_str())
}

fn siglevel(r: &CustomRepo) -> (s: &'static str)
    ensures
        s@ == siglevel_of(*r),
{
    match r.signature {
        RepoSignature::Never => "SigLevel = Never",
        RepoSignature::Optional => match r.sign_option {
            Some(RepoSignOption::TrustedOnly) => "SigLevel = PackageRequired DatabaseOptional TrustedOnly",
            Some(RepoSignOption::TrustedAll) => "SigLevel = PackageRequired DatabaseOptional TrustedAll",
            None => "SigLevel = PackageRequired DatabaseOptional",
        },
        RepoSignature::Required => match r.sign_option {
            Some(RepoSignOption::TrustedOnly) => "SigLevel = Required TrustedOnly",
            Some(RepoSignOption::TrustedAll) => "SigLevel = Required TrustedAll",
            None => "SigLevel = Required",
        },
    }
}

fn conf_line_cmd(line: &str) -> (r: String)
    ensures
        r@ == conf_line(line@),
{
    let mut c = owned("printf '%s\\n' '");
    c.append(line);
    c.append("' >> /mnt/etc/pacman.conf");
    c
}

fn emit_repo(r: &CustomRepo, out: &mut Vec<String>)
    ensures
        final(out).deep_view() == old(out).deep_view() + repo_commands(*r),
{
    let ghost start = out.deep_view();
    let mut section = owned("[");
    let name = safe_text(r.name.as_str());
    section.append(name.as_str());
    section.append("]");
    emit(out, conf_line_cmd(section.as_str()));
    let mut server = owned("Server = ");
    let url = safe_text(r.url.as_str());
    server.append(url.as_str());
    emit(out, conf_line_cmd(server.as_str()));
    emit(out, conf_line_cmd(siglevel(r)));
    emit(out, owned("printf '\n' >> /mnt/etc/pacman.conf"));
    assert(out.deep_view() =~= start + repo_commands(*r));
}

impl SystemService {
    /// The commands that prepare the target's repositories before
    /// `pacstrap` (see `pre_install_commands`).
    pub fn build_pre_install_plan(state: &AppState) -> (plan: SystemPlan)
        ensures
            plan.commands.deep_view() == pre_install_commands(*state),
    {
        let mut cmds: Vec<String> = Vec::new();
        emit(&mut cmds, owned("test -f /mnt/etc/pacman.conf || install -Dm644 /etc/pacman.conf /mnt/etc/pacman.conf"));
        let enable_multilib = state.mirrors.optional_repos_selected.contains(&0);
        let enable_testing = state.mirrors.optional_repos_selected.contains(&1);
        emit_when(enable_multilib, "sed -i '/^#\\s*\\[multilib\\]/,/^#\\s*Include/s/^#\\s*//' /mnt/etc/pacman.conf", &mut cmds);
        let ghost before_testing = cmds.deep_view();
        if enable_testing {
            emit(&mut cmds, owned("sed -i '/^#\\s*\\[testing\\]/,/^#\\s*Include/s/^#\\s*//' /mnt/etc/pacman.conf"));
            emit(&mut cmds, owned("sed -i '/^#\\s*\\[community-testing\\]/,/^#\\s*Include/s/^#\\s*//' /mnt/etc/pacman.conf"));
        }
        let ghost before_repos = cmds.deep_view();
        let repos = &state.mirrors.custom_repos;
        if repos.len() != 0 {
            emit(&mut cmds, owned("printf '\n' >> /mnt/etc/pacman.conf"));
            let ghost head = cmds.deep_view();
            let mut i: usize = 0;
            while i < repos.len()
                invariant
                    i <= repos@.len(),
                    cmds.deep_view() == head + repos_commands(repos@.take(i as int)),
                decreases repos@.len() - i,
            {
                assert(repos@.take(i + 1).drop_last() =~= repos@.take(i as int));
                emit_repo(&repos[i], &mut cmds);
                assert(head + repos_commands(repos@.take(i + 1)) =~= head + repos_commands(repos@.take(i as int)) + repo_commands(repos@[i as int]));
                i = i + 1;
            }
            assert(repos@.take(repos@.len() as int) =~= repos@);
        }
        assert(cmds.deep_view() =~= pre_install_commands(*state));
        SystemPlan::new(cmds)
    }
}

// ---------------------------------------------------------------------
// Packages.
// ---------------------------------------------------------------------

/// The packages that every installation gets.
pub open spec fn essential_packages() -> Seq<Seq<char>> {
    seq![
        "base"@, "linux-firmware"@, "base-devel"@, "sudo"@, "pam"@, "curl"@, "git"@, "man-db"@,
        "man-pages"@, "xdg-user-dirs"@, "parch-branding"@, "parch-pacman"@,
    ]
}

/// Boot packages: `efibootmgr` on UEFI, and `grub` (index 1) or
/// `limine` (index 3) for the chosen bootloader.
pub open spec fn boot_package(s: AppState, p: Seq<char>) -> bool {
    ||| s.firmware_uefi && p == "efibootmgr"@
    ||| s.boot.bootloader_index == 1 && p == "grub"@
    ||| s.boot.bootloader_index == 3 && p == "limine"@
}

/// Audio packages: PipeWire (index 1) or PulseAudio (index 2).
pub open spec fn audio_package(s: AppState, p: Seq<char>) -> bool {
    ||| s.network.audio_index == 1 && (p == "pipewire"@ || p == "pipewire-pulse"@ || p == "wireplumber"@)
    ||| s.network.audio_index == 2 && (p == "pulseaudio"@ || p == "pulseaudio-alsa"@)
}

/// Hyprland and Sway need polkit.
pub open spec fn wants_polkit(s: AppState) -> bool {
    s.experience.selected_desktop_envs@.contains("Hyprland"@) || s.experience.selected_desktop_envs@.contains("Sway"@)
}

/// The chosen login manager, unless it is empty or `none`.
pub open spec fn login_manager_package(s: AppState, p: Seq<char>) -> bool {
    match s.experience.selected_login_manager {
        Some(lm) => lm@.len() > 0 && lm@ != "none"@ && p == lm@,
        None => false,
    }
}

/// `p` is among the packages that `m` lists for one of the `keys`.
pub open spec fn grouped_package(keys: Seq<Seq<char>>, m: Map<Seq<char>, Seq<Seq<char>>>, p: Seq<char>) -> bool {
    exists|k: Seq<char>| #[trigger] keys.contains(k) && m.contains_key(k) && m[k].contains(p)
}

/// What `/proc/cpuinfo` says of the vendor (nothing when it could not
/// be read).
pub open spec fn cpu_is_intel(cpu: Option<Seq<char>>) -> bool {
    match cpu {
        Some(c) => has_substring(c, "GenuineIntel"@) || has_substring(lowercase_of(c), "intel"@),
        None => false,
    }
}

/// See `cpu_is_intel`.
pub open spec fn cpu_is_amd(cpu: Option<Seq<char>>) -> bool {
    match cpu {
        Some(c) => has_substring(c, "AuthenticAMD"@) || has_substring(lowercase_of(c), "amd"@),
        None => false,
    }
}

/// The microcode for the processor: Intel's first, else AMD's.
pub open spec fn microcode_package(cpu: Option<Seq<char>>, p: Seq<char>) -> bool {
    ||| cpu_is_intel(cpu) && p == "intel-ucode"@
    ||| !cpu_is_intel(cpu) && cpu_is_amd(cpu) && p == "amd-ucode"@
}

/// The names of the packages that the user added.
pub open spec fn additional_names(s: AppState) -> Seq<Seq<char>> {
    s.packages.additional_packages@.map_values(|a: AdditionalPackage| a.name@)
}

/// A package that the user added by name.
pub open spec fn additional_package(s: AppState, p: Seq<char>) -> bool {
    additional_names(s).contains(p)
}

/// Essentials, kernels and boot packages.
pub open spec fn base_package(s: AppState, p: Seq<char>) -> bool {
    ||| essential_packages().contains(p)
    ||| s.boot.selected_kernels@.contains(p)
    ||| boot_package(s, p)
}

/// Network, audio, polkit and login-manager packages.
pub open spec fn service_package(s: AppState, p: Seq<char>) -> bool {
    ||| s.network.network_mode_index == 2 && p == "networkmanager"@
    ||| audio_package(s, p)
    ||| wants_polkit(s) && p == "polkit"@
    ||| login_manager_package(s, p)
}

/// The packages of the chosen desktops, servers and Xorg setups.
pub open spec fn experience_package(s: AppState, p: Seq<char>) -> bool {
    let e = s.experience;
    ||| grouped_package(e.selected_desktop_envs@, e.selected_env_packages@, p)
    ||| grouped_package(e.selected_server_types@, e.selected_server_packages@, p)
    ||| grouped_package(e.selected_xorg_types@, e.selected_xorg_packages@, p)
}

/// The packages that `pacstrap` installs.
pub open spec fn wanted_package(s: AppState, cpu: Option<Seq<char>>, p: Seq<char>) -> bool {
    ||| base_package(s, p)
    ||| service_package(s, p)
    ||| experience_package(s, p)
    ||| s.experience.experience_mode_index != 1 && s.experience.selected_graphic_drivers@.contains(p)
    ||| microcode_package(cpu, p)
    ||| additional_package(s, p)
}

/// `l` lists the wanted packages once each, in ascending order.
pub open spec fn is_package_list(l: Seq<Seq<char>>, s: AppState, cpu: Option<Seq<char>>) -> bool {
    sorted_strict(l) && forall|p: Seq<char>| l.contains(p) <==> wanted_package(s, cpu, p)
}

/// The wanted packages in ascending order (there is one such list).
pub open spec fn package_list(s: AppState, cpu: Option<Seq<char>>) -> Seq<Seq<char>> {
    choose|l: Seq<Seq<char>>| is_package_list(l, s, cpu)
}

/// The text of `/proc/cpuinfo`, when it was read.
pub open spec fn cpu_view(cpuinfo: Option<&str>) -> Option<Seq<char>> {
    match cpuinfo {
        Some(c) => Some(c@),
        None => None,
    }
}

/// The names that validation gave back, in order.
pub open spec fn kept_names(pkgs: Seq<Seq<char>>, v: Seq<Option<String>>) -> Seq<Seq<char>>
    decreases pkgs.len(),
{
    if pkgs.len() == 0 {
        Seq::empty()
    } else {
        let rest = kept_names(pkgs.drop_last(), v);
        match v[pkgs.len() - 1] {
            Some(n) => rest.push(n@),
            None => rest,
        }
    }
}

/// The packages that validation did not find, in order.
pub open spec fn missing_names(pkgs: Seq<Seq<char>>, v: Seq<Option<String>>) -> Seq<Seq<char>>
    decreases pkgs.len(),
{
    if pkgs.len() == 0 {
        Seq::empty()
    } else {
        let rest = missing_names(pkgs.drop_last(), v);
        match v[pkgs.len() - 1] {
            Some(_) => rest,
            None => rest.push(pkgs.last()),
        }
    }
}

/// ` "a" "b" ...` for the given names.
pub open spec fn quoted_names(ms: Seq<Seq<char>>) -> Seq<char>
    decreases ms.len(),
{
    if ms.len() == 0 {
        Seq::empty()
    } else {
        quoted_names(ms.drop_last()) + " \""@ + ms.last() + "\""@
    }
}

/// `pacstrap` of the given package list, retried once after a refresh.
pub open spec fn pacstrap_command(joined: Seq<char>) -> Seq<char> {
    "PACMAN=\"pacman --noconfirm --noprogressbar --color never\" pacstrap -K /mnt "@ + joined
        + " || (pacman -Syy --noconfirm --noprogressbar --color never && PACMAN=\"pacman --noconfirm --noprogressbar --color never\" pacstrap -K /mnt "@
        + joined + " )"@
}

/// The commands that install `pkgs`. In a dry run `v` holds, for each
/// package, the name that validation found (or nothing): the missing
/// ones are reported and only the found ones installed.
pub open spec fn pacstrap_commands(pkgs: Seq<Seq<char>>, dry_run: bool, v: Seq<Option<String>>) -> Seq<Seq<char>> {
    seq!["pacman -Syy --noconfirm --noprogressbar --color never"@] + if dry_run {
        let kept = kept_names(pkgs, v);
        let miss = missing_names(pkgs, v);
        (if miss.len() > 0 {
            seq!["echo 'Missing packages (skipped):"@ + quoted_names(miss) + "'"@]
        } else {
            Seq::empty()
        }) + (if kept.len() > 0 { seq![pacstrap_command(join_with(kept, " "@))] } else { Seq::empty() })
    } else {
        if pkgs.len() > 0 { seq![pacstrap_command(join_with(pkgs, " "@))] } else { Seq::empty() }
    }
}

/// `grouped_package` over keys grown by one.
pub proof fn lemma_grouped_push(keys: Seq<Seq<char>>, m: Map<Seq<char>, Seq<Seq<char>>>, k: Seq<char>, p: Seq<char>)
    ensures
        grouped_package(keys.push(k), m, p) <==> (grouped_package(keys, m, p) || (m.contains_key(k) && m[k].contains(p))),
{
    lemma_push_contains(keys, k);
    let next = keys.push(k);
    if grouped_package(next, m, p) {
        let k2 = choose|k2: Seq<char>| #[trigger] next.contains(k2) && m.contains_key(k2) && m[k2].contains(p);
        assert(keys.contains(k2) || k2 == k);
    }
    if grouped_package(keys, m, p) {
        let k2 = choose|k2: Seq<char>| #[trigger] keys.contains(k2) && m.contains_key(k2) && m[k2].contains(p);
        assert(next.contains(k2));
    }
    if m.contains_key(k) && m[k].contains(p) {
        assert(next.contains(k));
    }
}

/// Adds every item of `items`.
fn add_all(set: &mut StringSet, items: &Vec<String>)
    ensures
        forall|p: Seq<char>| #[trigger] final(set)@.contains(p) <==> (old(set)@.contains(p) || items.deep_view().contains(p)),
{
    let ghost start = set@;
    let ghost all = items.deep_view();
    let ghost seen: Seq<Seq<char>> = Seq::empty();
    let mut i: usize = 0;
    while i < items.len()
        invariant
            i <= items@.len(),
            all == items.deep_view(),
            seen == all.take(i as int),
            forall|p: Seq<char>| #[trigger] set@.contains(p) <==> (start.contains(p) || seen.contains(p)),
        decreases items@.len() - i,
    {
        let ghost before = set@;
        let x = items[i].clone();
        assert(x@ == all[i as int]);
        set.insert(x);
        proof {
            let next = seen.push(all[i as int]);
            lemma_push_contains(seen, all[i as int]);
            assert forall|p: Seq<char>| #[trigger] set@.contains(p) <==> (start.contains(p) || next.contains(p)) by {
                assert(set@.contains(p) <==> (before.contains(p) || p == all[i as int]));
            }
            seen = next;
            assert(seen =~= all.take(i + 1));
        }
        i = i + 1;
    }
    assert(all.take(items@.len() as int) =~= all);
}

/// Adds the packages that `groups` lists for each of the `keys`.
fn add_grouped(set: &mut StringSet, keys: &StringSet, groups: &StringSetMap)
    ensures
        forall|p: Seq<char>| #[trigger] final(set)@.contains(p) <==> (old(set)@.contains(p) || grouped_package(keys@, groups@, p)),
{
    let ghost start = set@;
    let ks = keys.items();
    let ghost seen: Seq<Seq<char>> = Seq::empty();
    let mut i: usize = 0;
    while i < ks.len()
        invariant
            i <= ks@.len(),
            ks.deep_view() == keys@,
            seen == keys@.take(i as int),
            forall|p: Seq<char>| #[trigger] set@.contains(p) <==> (start.contains(p) || grouped_package(seen, groups@, p)),
        decreases ks@.len() - i,
    {
        let k = ks[i].as_str();
        assert(k@ == keys@[i as int]);
        let ghost before = set@;
        match groups.get(k) {
            Some(members) => {
                add_all(set, members.items());
            },
            None => {},
        }
        proof {
            let next = seen.push(k@);
            assert forall|p: Seq<char>| #[trigger] set@.contains(p) <==> (start.contains(p) || grouped_package(next, groups@, p)) by {
                lemma_grouped_push(seen, groups@, k@, p);
            }
            seen = next;
            assert(seen =~= keys@.take(i + 1));
        }
        i = i + 1;
    }
    assert(keys@.take(ks@.len() as int) =~= keys@);
}

/// Adds the names of the packages that the user added.
fn add_additional(set: &mut StringSet, state: &AppState)
    ensures
        forall|p: Seq<char>| #[trigger] final(set)@.contains(p) <==> (old(set)@.contains(p) || additional_package(*state, p)),
{
    let ghost start = set@;
    let ghost names = additional_names(*state);
    let ghost seen: Seq<Seq<char>> = Seq::empty();
    let aps = &state.packages.additional_packages;
    let mut i: usize = 0;
    while i < aps.len()
        invariant
            i <= aps@.len(),
            aps == &state.packages.additional_packages,
            names == additional_names(*state),
            names.len() == aps@.len(),
            seen == names.take(i as int),
            forall|p: Seq<char>| #[trigger] set@.contains(p) <==> (start.contains(p) || seen.contains(p)),
        decreases aps@.len() - i,
    {
        let ghost before = set@;
        set.insert(aps[i].name.clone());
        proof {
            assert(names[i as int] == aps@[i as int].name@);
            let next = seen.push(names[i as int]);
            lemma_push_contains(seen, names[i as int]);
            assert forall|p: Seq<char>| #[trigger] set@.contains(p) <==> (start.contains(p) || next.contains(p)) by {
                assert(set@.contains(p) <==> (before.contains(p) || p == names[i as int]));
            }
            seen = next;
            assert(seen =~= names.take(i + 1));
        }
        i = i + 1;
    }
    assert(names.take(aps@.len() as int) =~= names);
}

/// The vendor tests on `/proc/cpuinfo`: (Intel, AMD).
fn cpu_vendor(cpuinfo: Option<&str>) -> (r: (bool, bool))
    ensures
        r.0 == cpu_is_intel(cpu_view(cpuinfo)),
        r.1 == cpu_is_amd(cpu_view(cpuinfo)),
{
    match cpuinfo {
        Some(c) => {
            let lower = to_lowercase(c);
            let intel = str_contains(c, "GenuineIntel") || str_contains(lower.as_str(), "intel");
            let amd = str_contains(c, "AuthenticAMD") || str_contains(lower.as_str(), "amd");
            (intel, amd)
        },
        None => (false, false),
    }
}

impl SystemService {
    /// The packages that `pacstrap` installs, once each and in ascending
    /// order: the essentials, the kernels, boot, network and audio
    /// packages, polkit for Hyprland or Sway, the login manager, the
    /// packages of the chosen desktops, servers and Xorg setups, the
    /// graphics drivers (not in the minimal experience), the microcode
    /// that `cpuinfo` (the text of `/proc/cpuinfo`, if it could be read)
    /// calls for, and the packages the user added.
    pub fn pacstrap_packages(state: &AppState, cpuinfo: Option<&str>) -> (r: Vec<String>)
        ensures
            is_package_list(r.deep_view(), *state, cpu_view(cpuinfo)),
            r.deep_view() == package_list(*state, cpu_view(cpuinfo)),
    {
        let ghost cpu = cpu_view(cpuinfo);
        let mut set = StringSet::new();
        let essentials: Vec<String> = vec![
            owned("base"), owned("linux-firmware"), owned("base-devel"), owned("sudo"), owned("pam"),
            owned("curl"), owned("git"), owned("man-db"), owned("man-pages"), owned("xdg-user-dirs"),
            owned("parch-branding"), owned("parch-pacman"),
        ];
        assert(essentials.deep_view() =~= essential_packages());
        add_all(&mut set, &essentials);
        add_all(&mut set, state.boot.selected_kernels.items());
        if state.is_uefi() {
            set.insert(owned("efibootmgr"));
        }
        if state.boot.bootloader_index == 1 {
            set.insert(owned("grub"));
        } else if state.boot.bootloader_index == 3 {
            set.insert(owned("limine"));
        }
        assert(forall|p: Seq<char>| set@.contains(p) <==> base_package(*state, p));
        let ghost s1 = set@;
        if state.network.network_mode_index == 2 {
            set.insert(owned("networkmanager"));
        }
        if state.network.audio_index == 1 {
            set.insert(owned("pipewire"));
            set.insert(owned("pipewire-pulse"));
            set.insert(owned("wireplumber"));
        } else if state.network.audio_index == 2 {
            set.insert(owned("pulseaudio"));
            set.insert(owned("pulseaudio-alsa"));
        }
        let envs = &state.experience.selected_desktop_envs;
        if envs.contains("Hyprland") || envs.contains("Sway") {
            set.insert(owned("polkit"));
        }
        match &state.experience.selected_login_manager {
            Some(lm) => {
                if lm.as_str().unicode_len() != 0 && !str_eq(lm.as_str(), "none") {
                    set.insert(lm.clone());
                }
            },
            None => {},
        }
        assert(forall|p: Seq<char>| set@.contains(p) <==> (s1.contains(p) || service_package(*state, p)));
        let ghost s2 = set@;
        add_grouped(&mut set, envs, &state.experience.selected_env_packages);
        add_grouped(&mut set, &state.experience.selected_server_types, &state.experience.selected_server_packages);
        add_grouped(&mut set, &state.experience.selected_xorg_types, &state.experience.selected_xorg_packages);
        assert(forall|p: Seq<char>| set@.contains(p) <==> (s2.contains(p) || experience_package(*state, p)));
        let ghost s3 = set@;
        if state.experience.experience_mode_index != 1 {
            add_all(&mut set, state.experience.selected_graphic_drivers.items());
        }
        let (intel, amd) = cpu_vendor(cpuinfo);
        if intel {
            set.insert(owned("intel-ucode"));
        } else if amd {
            set.insert(owned("amd-ucode"));
        }
        add_additional(&mut set, state);
        let r = set.into_items();
        proof {
            assert forall|p: Seq<char>| r.deep_view().contains(p) <==> wanted_package(*state, cpu, p) by {}
            assert(is_package_list(r.deep_view(), *state, cpu));
            let l = package_list(*state, cpu);
            assert(is_package_list(l, *state, cpu));
            lemma_sorted_unique(l, r.deep_view());
        }
        r
    }
}

/// The `pacstrap` command for the packages joined in `joined`.
fn pacstrap_cmd(joined: &str) -> (r: String)
    ensures
        r@ == pacstrap_command(joined@),
{
    let mut c = owned("PACMAN=\"pacman --noconfirm --noprogressbar --color never\" pacstrap -K /mnt ");
    c.append(joined);
    c.append(" || (pacman -Syy --noconfirm --noprogressbar --color never && PACMAN=\"pacman --noconfirm --noprogressbar --color never\" pacstrap -K /mnt ");
    c.append(joined);
    c.append(" )");
    c
}

/// The install commands for `packages`, checked against `validated` in a
/// dry run (see `pacstrap_commands`).
fn emit_pacstrap(packages: &Vec<String>, dry_run: bool, validated: &Vec<Option<String>>, out: &mut Vec<String>)
    requires
        dry_run ==> validated@.len() == packages@.len(),
    ensures
        final(out).deep_view() == old(out).deep_view()
            + pacstrap_commands(packages.deep_view(), dry_run, validated@).drop_first(),
{
    let ghost start = out.deep_view();
    let ghost pkgs = packages.deep_view();
    if dry_run {
        let mut final_pkgs: Vec<String> = Vec::new();
        let mut missing: Vec<String> = Vec::new();
        let mut echo = owned("echo 'Missing packages (skipped):");
        let mut i: usize = 0;
        while i < packages.len()
            invariant
                i <= packages@.len(),
                validated@.len() == packages@.len(),
                pkgs == packages.deep_view(),
                final_pkgs.deep_view() == kept_names(pkgs.take(i as int), validated@),
                missing.deep_view() == missing_names(pkgs.take(i as int), validated@),
                echo@ == "echo 'Missing packages (skipped):"@ + quoted_names(missing.deep_view()),
            decreases packages@.len() - i,
        {
            proof {
                let t1 = pkgs.take(i + 1);
                assert(t1.drop_last() =~= pkgs.take(i as int));
                assert(t1.len() - 1 == i);
                assert(t1.last() == pkgs[i as int]);
            }
            match &validated[i] {
                Some(name) => {
                    final_pkgs.push(name.clone());
                    assert(final_pkgs.deep_view() =~= kept_names(pkgs.take(i + 1), validated@));
                    assert(missing.deep_view() =~= missing_names(pkgs.take(i + 1), validated@));
                },
                None => {
                    let ghost before = missing.deep_view();
                    let m = packages[i].clone();
                    echo.append(" \"");
                    echo.append(m.as_str());
                    echo.append("\"");
                    missing.push(m);
                    assert(missing.deep_view() =~= before.push(pkgs[i as int]));
                    assert(missing.deep_view().drop_last() =~= before);
                    assert(final_pkgs.deep_view() =~= kept_names(pkgs.take(i + 1), validated@));
                    assert(missing.deep_view() =~= missing_names(pkgs.take(i + 1), validated@));
                },
            }
            i = i + 1;
        }
        assert(pkgs.take(packages@.len() as int) =~= pkgs);
        if missing.len() != 0 {
            echo.append("'");
            emit(out, echo);
        }
        if final_pkgs.len() != 0 {
            let joined = join(&final_pkgs, " ");
            emit(out, pacstrap_cmd(joined.as_str()));
        }
    } else if packages.len() != 0 {
        let joined = join(packages, " ");
        emit(out, pacstrap_cmd(joined.as_str()));
    }
    assert(out.deep_view() =~= start + pacstrap_commands(pkgs, dry_run, validated@).drop_first());
}

impl SystemService {
    /// The commands that install the base system: a database refresh,
    /// then `pacstrap` of the packages that `pacstrap_packages` lists.
    /// In a dry run `validated[i]` is the name that the package lookup
    /// found for the `i`-th of those packages, or nothing: the missing
    /// ones are reported in an `echo` and left out.
    pub fn build_pacstrap_plan(state: &AppState, cpuinfo: Option<&str>, validated: &Vec<Option<String>>) -> (plan: SystemPlan)
        requires
            state.dry_run ==> validated@.len() == package_list(*state, cpu_view(cpuinfo)).len(),
        ensures
            plan.commands.deep_view() == pacstrap_commands(package_list(*state, cpu_view(cpuinfo)), state.dry_run, validated@),
    {
        let mut cmds: Vec<String> = Vec::new();
        emit(&mut cmds, owned("pacman -Syy --noconfirm --noprogressbar --color never"));
        let packages = Self::pacstrap_packages(state, cpuinfo);
        emit_pacstrap(&packages, state.dry_run, validated, &mut cmds);
        proof {
            let all = pacstrap_commands(packages.deep_view(), state.dry_run, validated@);
            assert(all =~= seq![all[0]] + all.drop_first());
        }
        assert(cmds.deep_view() =~= pacstrap_commands(package_list(*state, cpu_view(cpuinfo)), state.dry_run, validated@));
        SystemPlan::new(cmds)
    }
}


/// The `SigLevel` line of a custom repository names its signature level
/// and then its trust option: `Never` for unsigned repositories (whatever
/// the option), `PackageRequired DatabaseOptional` for optional
/// signatures, `Required` for required ones.
pub proof fn lemma_siglevel_names_the_signature(r: CustomRepo)
    ensures
        repo_commands(r)[2] == "printf '%s\\n' '"@ + siglevel_of(r) + "' >> /mnt/etc/pacman.conf"@,
        r.signature == RepoSignature::Never ==> siglevel_of(r) == "SigLevel = Never"@,
        r.signature == RepoSignature::Optional && r.sign_option == None::<RepoSignOption>
            ==> siglevel_of(r) == "SigLevel = PackageRequired DatabaseOptional"@,
        r.signature == RepoSignature::Optional && r.sign_option == Some(RepoSignOption::TrustedOnly)
            ==> siglevel_of(r) == "SigLevel = PackageRequired DatabaseOptional TrustedOnly"@,
        r.signature == RepoSignature::Optional && r.sign_option == Some(RepoSignOption::TrustedAll)
            ==> siglevel_of(r) == "SigLevel = PackageRequired DatabaseOptional TrustedAll"@,
        r.signature == RepoSignature::Required && r.sign_option == None::<RepoSignOption>
            ==> siglevel_of(r) == "SigLevel = Required"@,
        r.signature == RepoSignature::Required && r.sign_option == Some(RepoSignOption::TrustedOnly)
            ==> siglevel_of(r) == "SigLevel = Required TrustedOnly"@,
        r.signature == RepoSignature::Required && r.sign_option == Some(RepoSignOption::TrustedAll)
            ==> siglevel_of(r) == "SigLevel = Required TrustedAll"@,
{
}

/// The package of each bootloader: GRUB (index 1) brings `grub`, Limine
/// (index 3) brings `limine`, and UEFI machines get `efibootmgr`; neither
/// `grub` nor `limine` is a boot package for any other choice.
pub proof fn lemma_bootloader_packages(s: AppState, cpu: Option<Seq<char>>)
    ensures
        s.boot.bootloader_index == 1 ==> wanted_package(s, cpu, "grub"@),
        s.boot.bootloader_index == 3 ==> wanted_package(s, cpu, "limine"@),
        s.firmware_uefi ==> wanted_package(s, cpu, "efibootmgr"@),
        boot_package(s, "grub"@) ==> s.boot.bootloader_index == 1,
        boot_package(s, "limine"@) ==> s.boot.bootloader_index == 3,
        boot_package(s, "efibootmgr"@) ==> s.firmware_uefi,
{
    reveal_strlit("grub");
    reveal_strlit("limine");
    reveal_strlit("efibootmgr");
    assert("grub"@.len() == 4 && "limine"@.len() == 6 && "efibootmgr"@.len() == 10);
    assert("grub"@ != "limine"@ && "grub"@ != "efibootmgr"@ && "limine"@ != "efibootmgr"@);
}


/// Every installation gets the base system and its tools; the audio
/// choice brings PipeWire (index 1) or PulseAudio (index 2); NetworkManager
/// mode (index 2) brings `networkmanager`; each chosen kernel is installed;
/// an Intel processor gets Intel's microcode and an AMD one AMD's.
pub proof fn lemma_selected_packages_installed(s: AppState, cpu: Option<Seq<char>>, k: Seq<char>)
    ensures
        wanted_package(s, cpu, "base"@) && wanted_package(s, cpu, "linux-firmware"@)
            && wanted_package(s, cpu, "base-devel"@) && wanted_package(s, cpu, "sudo"@)
            && wanted_package(s, cpu, "pam"@) && wanted_package(s, cpu, "curl"@)
            && wanted_package(s, cpu, "git"@) && wanted_package(s, cpu, "man-db"@)
            && wanted_package(s, cpu, "man-pages"@) && wanted_package(s, cpu, "xdg-user-dirs"@)
            && wanted_package(s, cpu, "parch-branding"@) && wanted_package(s, cpu, "parch-pacman"@),
        s.network.audio_index == 1 ==> wanted_package(s, cpu, "pipewire"@) && wanted_package(s, cpu, "pipewire-pulse"@)
            && wanted_package(s, cpu, "wireplumber"@),
        s.network.audio_index == 2 ==> wanted_package(s, cpu, "pulseaudio"@) && wanted_package(s, cpu, "pulseaudio-alsa"@),
        s.network.network_mode_index == 2 ==> wanted_package(s, cpu, "networkmanager"@),
        s.boot.selected_kernels@.contains(k) ==> wanted_package(s, cpu, k),
        (cpu matches Some(c) && has_substring(c, "GenuineIntel"@)) ==> wanted_package(s, cpu, "intel-ucode"@),
        (cpu matches Some(c) && has_substring(c, "AuthenticAMD"@) && !cpu_is_intel(cpu))
            ==> wanted_package(s, cpu, "amd-ucode"@),
{
    let e = essential_packages();
    assert(e[0] == "base"@ && e[1] == "linux-firmware"@ && e[2] == "base-devel"@ && e[3] == "sudo"@);
    assert(e[4] == "pam"@ && e[5] == "curl"@ && e[6] == "git"@ && e[7] == "man-db"@);
    assert(e[8] == "man-pages"@ && e[9] == "xdg-user-dirs"@ && e[10] == "parch-branding"@ && e[11] == "parch-pacman"@);
}


/// Before `pacstrap`, the target gets a `pacman.conf`; multilib (option
/// 0) is uncommented exactly when chosen, as are the testing repositories
/// (option 1); each custom repository gets its block at the end.
pub proof fn lemma_pre_install_enables_chosen_repos(s: AppState)
    ensures
        pre_install_commands(s)[0] == "test -f /mnt/etc/pacman.conf || install -Dm644 /etc/pacman.conf /mnt/etc/pacman.conf"@,
        s.mirrors.optional_repos_selected@.contains(0usize) ==> pre_install_commands(s)[1]
            == "sed -i '/^#\\s*\\[multilib\\]/,/^#\\s*Include/s/^#\\s*//' /mnt/etc/pacman.conf"@,
        s.mirrors.optional_repos_selected@.contains(1usize) ==> pre_install_commands(s)[if s.mirrors.optional_repos_selected@.contains(0usize) { 2int } else { 1int }]
            == "sed -i '/^#\\s*\\[testing\\]/,/^#\\s*Include/s/^#\\s*//' /mnt/etc/pacman.conf"@,
        pre_install_commands(s).len() == 1 + (if s.mirrors.optional_repos_selected@.contains(0usize) { 1int } else { 0int })
            + (if s.mirrors.optional_repos_selected@.contains(1usize) { 2int } else { 0int })
            + (if s.mirrors.custom_repos@.len() > 0 { 1 + 4 * (s.mirrors.custom_repos@.len() as int) } else { 0int }),
{
    lemma_repos_commands_len(s.mirrors.custom_repos@);
}

proof fn lemma_repos_commands_len(rs: Seq<CustomRepo>)
    ensures
        repos_commands(rs).len() == 4 * rs.len(),
    decreases rs.len(),
{
    if rs.len() > 0 {
        lemma_repos_commands_len(rs.drop_last());
    }
}

} // verus!
