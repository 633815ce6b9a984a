//! What the installer shows, as text: the rows of the Bootloader screen,
//! the swap and disk information panes and the server popup. The
//! terminal front end draws these with its own styles.
use vstd::prelude::*;
use crate::catalog::{server_default_packages, server_package_list};
use crate::sets::{members, StringSet};
use crate::space::highlighted_item;
use crate::partitioning::or_default;
use crate::state::{mem_total_kb, swap_gb_for, AppState, ExperienceState, PopupState};
use crate::text::{decimal, decimal_string, has_prefix, join, join_with, owned, split_lines, str_eq, str_starts_with, trim_text, trimmed};
use crate::types::{DiskPartitionSpec, Focus};
use serde_json::Value;

verus! {

/// One option row of a choice list: the cursor mark, the option with its
/// check box, and whether the row is under the active cursor.
pub struct ChoiceLine {
    pub bullet: String,
    pub label: String,
    pub active: bool,
}

/// The Bootloader screen.
pub struct BootloaderView {
    pub choices: Vec<ChoiceLine>,
    pub continue_active: bool,
    pub block_title: String,
}

/// The bootloaders, in the order shown.
pub open spec fn bootloader_names() -> Seq<Seq<char>> {
    seq!["Systemd-boot"@, "Grub"@, "Efistub"@, "Limine"@]
}

/// The cursor mark of a row.
pub open spec fn bullet_text(focused: bool) -> Seq<char> {
    if focused { "▶ "@ } else { "  "@ }
}

/// An option with its check box.
pub open spec fn checked_text(on: bool, name: Seq<char>) -> Seq<char> {
    (if on { "[x] "@ } else { "[ ] "@ }) + name
}

/// The title of the decision pane.
pub open spec fn decision_title(focus: Focus) -> Seq<char> {
    if focus == Focus::Content { " Desicion Menu (focused) "@ } else { " Desicion Menu "@ }
}

/// `v` shows the bootloader rows of `s`: the cursor, the chosen
/// bootloader, and Continue.
pub open spec fn shows_bootloaders(s: AppState, v: BootloaderView) -> bool {
    let active = s.focus == Focus::Content;
    &&& v.choices@.len() == 4
    &&& forall|i: int| 0 <= i < 4 ==> {
        let c = #[trigger] v.choices@[i];
        &&& c.bullet@ == bullet_text(s.boot.bootloader_focus_index == i)
        &&& c.label@ == checked_text(s.boot.bootloader_index == i, bootloader_names()[i])
        &&& c.active == (s.boot.bootloader_focus_index == i && active)
    }
    &&& v.continue_active == (s.boot.bootloader_focus_index == 4 && active)
    &&& v.block_title@ == decision_title(s.focus)
}

fn choice_line(focused: bool, on: bool, name: &str, active: bool) -> (c: ChoiceLine)
    ensures
        c.bullet@ == bullet_text(focused),
        c.label@ == checked_text(on, name@),
        c.active == active,
{
    let bullet = if focused { owned("▶ ") } else { owned("  ") };
    let mut label = if on { owned("[x] ") } else { owned("[ ] ") };
    label.append(name);
    ChoiceLine { bullet, label, active }
}

/// The Bootloader screen of `app` (see `shows_bootloaders`).
pub fn bootloader_view(app: &AppState) -> (v: BootloaderView)
    ensures
        shows_bootloaders(*app, v),
{
    let names: [&str; 4] = ["Systemd-boot", "Grub", "Efistub", "Limine"];
    let content = app.focus == Focus::Content;
    let mut choices: Vec<ChoiceLine> = Vec::new();
    let mut i: usize = 0;
    while i < 4
        invariant
            i <= 4,
            content == (app.focus == Focus::Content),
            names@ =~= seq!["Systemd-boot", "Grub", "Efistub", "Limine"],
            choices@.len() == i,
            forall|k: int| 0 <= k < i ==> {
                let c = #[trigger] choices@[k];
                &&& c.bullet@ == bullet_text(app.boot.bootloader_focus_index == k)
                &&& c.label@ == checked_text(app.boot.bootloader_index == k, bootloader_names()[k])
                &&& c.active == (app.boot.bootloader_focus_index == k && content)
            },
        decreases 4 - i,
    {
        let focused = app.boot.bootloader_focus_index == i;
        let line = choice_line(focused, app.boot.bootloader_index == i, names[i], focused && content);
        assert(names[i as int]@ == bootloader_names()[i as int]);
        choices.push(line);
        i = i + 1;
    }
    let block_title = if content { owned(" Desicion Menu (focused) ") } else { owned(" Desicion Menu ") };
    BootloaderView { choices, continue_active: app.boot.bootloader_focus_index == 4 && content, block_title }
}

// ---------------------------------------------------------------------
// Swap.
// ---------------------------------------------------------------------

/// The lines of the swap information pane, under its heading, for the
/// machine whose `/proc/meminfo` reads `meminfo`.
pub open spec fn swap_info(s: AppState, meminfo: Seq<char>) -> Seq<Seq<char>> {
    seq![
        "Detected RAM: "@ + decimal(swap_gb_for(mem_total_kb(split_lines(meminfo))) as nat) + " GiB"@,
        "Recommended Swap: "@ + decimal(s.boot.swap_size_gb as nat) + " GiB"@,
        "Swapon: "@ + (if s.boot.swap_enabled { "Enabled"@ } else { "Disabled"@ }),
        "Swap size is calculated based on your system RAM for optimal performance."@,
        "Formula: ≤8GB RAM = equal swap, >8GB RAM = 8GB + half of additional RAM (max 16GB)."@,
    ]
}

/// The swap information pane (see `swap_info`).
pub fn swap_info_lines(app: &AppState, meminfo: &str) -> (r: Vec<String>)
    ensures
        r.deep_view() == swap_info(*app, meminfo@),
{
    let detected = AppState::detect_swap_size_gb(meminfo);
    let mut a = owned("Detected RAM: ");
    a.append(decimal_string(detected as u64).as_str());
    a.append(" GiB");
    let mut b = owned("Recommended Swap: ");
    b.append(decimal_string(app.boot.swap_size_gb as u64).as_str());
    b.append(" GiB");
    let mut c = owned("Swapon: ");
    c.append(if app.boot.swap_enabled { "Enabled" } else { "Disabled" });
    let r = vec![
        a, b, c,
        owned("Swap size is calculated based on your system RAM for optimal performance."),
        owned("Formula: ≤8GB RAM = equal swap, >8GB RAM = 8GB + half of additional RAM (max 16GB)."),
    ];
    assert(r.deep_view() =~= swap_info(*app, meminfo@));
    r
}

// ---------------------------------------------------------------------
// Server popup.
// ---------------------------------------------------------------------

/// A list pane: its title, its rows, the highlighted row and whether the
/// pane has the keyboard.
pub struct ListView {
    pub title: String,
    pub items: Vec<String>,
    pub selected: usize,
    pub focused: bool,
}

/// The server popup: the server list, and the package list of the
/// highlighted server (none when no server is highlighted).
pub struct ServerPopupView {
    pub servers: ListView,
    pub packages: Option<ListView>,
}

/// The rows of the server list: each visible item that exists, checked
/// when that server is chosen.
pub open spec fn server_rows(items: Seq<Seq<char>>, visible: Seq<usize>, chosen: Seq<Seq<char>>) -> Seq<Seq<char>>
    decreases visible.len(),
{
    if visible.len() == 0 {
        Seq::empty()
    } else {
        let rest = server_rows(items, visible.drop_last(), chosen);
        let v = visible.last();
        if v < items.len() { rest.push(checked_text(chosen.contains(items[v as int]), items[v as int])) } else { rest }
    }
}

/// The rows of a package list: each suggested package, checked when it
/// is in `set`.
pub open spec fn package_rows(pkgs: Seq<Seq<char>>, set: Set<Seq<char>>) -> Seq<Seq<char>> {
    Seq::new(pkgs.len(), |i: int| checked_text(set.contains(pkgs[i]), pkgs[i]))
}

/// The highlighted server, when there is one with a non-empty name.
pub open spec fn server_label(p: PopupState) -> Option<Seq<char>> {
    match highlighted_item(p) {
        Some(l) => if l.len() > 0 { Some(l) } else { None },
        None => None,
    }
}

/// The server popup of `old`, and the state after drawing it: a server
/// without a package set gets one from its suggestions.
pub open spec fn shows_servers(old: AppState, new: AppState, v: ServerPopupView) -> bool {
    let p = old.popup;
    let e = old.experience;
    &&& v.servers.items.deep_view() == server_rows(p.popup_items.deep_view(), p.popup_visible_indices@, e.selected_server_types@)
    &&& v.servers.selected == p.popup_selected_visible
    &&& v.servers.focused == !p.popup_packages_focus
    &&& v.servers.title@ == (if !p.popup_packages_focus { " Server Types (focused) "@ } else { " Server Types "@ })
    &&& match server_label(p) {
        None => new == old && v.packages is None,
        Some(label) => {
            let pkgs = server_default_packages(label);
            let m = e.selected_server_packages@;
            let m2 = new.experience.selected_server_packages@;
            &&& new == (AppState {
                experience: ExperienceState { selected_server_packages: new.experience.selected_server_packages, ..e },
                ..old
            })
            &&& (if m.contains_key(label) { m2 == m } else { m2 == m.insert(label, m2[label]) && members(m2[label]) == pkgs.to_set() })
            &&& v.packages matches Some(pl) && {
                &&& pl.items.deep_view() == package_rows(pkgs, members(m2[label]))
                &&& pl.selected == (if p.popup_packages_selected_index >= pkgs.len() {
                    if pkgs.len() == 0 { 0 } else { (pkgs.len() - 1) as usize }
                } else {
                    p.popup_packages_selected_index
                })
                &&& pl.focused == p.popup_packages_focus
                &&& pl.title@ == (if p.popup_packages_focus { " Installed packages (focused) "@ } else { " Installed packages "@ })
            }
        },
    }
}

fn server_row_texts(p: &PopupState, chosen: &StringSet) -> (r: Vec<String>)
    ensures
        r.deep_view() == server_rows(p.popup_items.deep_view(), p.popup_visible_indices@, chosen@),
{
    let ghost items = p.popup_items.deep_view();
    let ghost vis = p.popup_visible_indices@;
    let mut r: Vec<String> = Vec::new();
    let mut i: usize = 0;
    while i < p.popup_visible_indices.len()
        invariant
            i <= vis.len(),
            items == p.popup_items.deep_view(),
            vis == p.popup_visible_indices@,
            r.deep_view() == server_rows(items, vis.take(i as int), chosen@),
        decreases vis.len() - i,
    {
        assert(vis.take(i + 1).drop_last() =~= vis.take(i as int));
        let v = p.popup_visible_indices[i];
        if v < p.popup_items.len() {
            let name = p.popup_items[v].as_str();
            let on = chosen.contains(name);
            let mut line = if on { owned("[x] ") } else { owned("[ ] ") };
            line.append(name);
            let ghost before = r.deep_view();
            r.push(line);
            assert(r.deep_view() =~= before.push(line@));
        }
        i = i + 1;
    }
    assert(vis.take(vis.len() as int) =~= vis);
    r
}

fn package_row_texts(pkgs: &Vec<String>, set: &StringSet) -> (r: Vec<String>)
    ensures
        r.deep_view() == package_rows(pkgs.deep_view(), members(set@)),
{
    let ghost all = pkgs.deep_view();
    let mut r: Vec<String> = Vec::new();
    let mut i: usize = 0;
    while i < pkgs.len()
        invariant
            i <= all.len(),
            all == pkgs.deep_view(),
            r.deep_view() == package_rows(all.take(i as int), members(set@)),
        decreases all.len() - i,
    {
        let name = pkgs[i].as_str();
        let on = set.contains(name);
        let mut line = if on { owned("[x] ") } else { owned("[ ] ") };
        line.append(name);
        assert(name@ == all[i as int]);
        assert(on == members(set@).contains(all[i as int]));
        let ghost before = r.deep_view();
        r.push(line);
        assert(r.deep_view() =~= before.push(checked_text(on, all[i as int])));
        assert(package_rows(all.take(i + 1), members(set@)) =~= package_rows(all.take(i as int), members(set@)).push(checked_text(on, all[i as int])));
        i = i + 1;
    }
    assert(all.take(all.len() as int) =~= all);
    r
}

/// The server popup (see `shows_servers`). Drawing it stores the
/// suggested package set of the highlighted server when it has none yet.
pub fn server_popup_view(app: &mut AppState) -> (v: ServerPopupView)
    ensures
        shows_servers(*old(app), *final(app), v),
{
    let rows = server_row_texts(&app.popup, &app.experience.selected_server_types);
    let focused = !app.popup.popup_packages_focus;
    let title = if focused { owned(" Server Types (focused) ") } else { owned(" Server Types ") };
    let servers = ListView { title, items: rows, selected: app.popup.popup_selected_visible, focused };
    let label = match crate::space::highlighted_text_of(&app.popup) {
        Some(l) => l,
        None => {
            return ServerPopupView { servers, packages: None };
        },
    };
    if label.as_str().unicode_len() == 0 {
        return ServerPopupView { servers, packages: None };
    }
    let pkgs = server_package_list(label.as_str());
    if !app.experience.selected_server_packages.contains_key(label.as_str()) {
        let mut fresh = StringSet::new();
        fresh.insert_all(&pkgs);
        assert(members(fresh@) =~= pkgs.deep_view().to_set());
        app.experience.selected_server_packages.insert(owned(label.as_str()), fresh);
        assert(app.experience.selected_server_packages@ =~= old(app).experience.selected_server_packages@.insert(label@, app.experience.selected_server_packages@[label@]));
    }
    let items = match app.experience.selected_server_packages.get(label.as_str()) {
        Some(set) => package_row_texts(&pkgs, set),
        None => Vec::new(),
    };
    let n = pkgs.len();
    let idx = app.popup.popup_packages_selected_index;
    let selected = if idx >= n { if n == 0 { 0 } else { n - 1 } } else { idx };
    let pfocus = app.popup.popup_packages_focus;
    let ptitle = if pfocus { owned(" Installed packages (focused) ") } else { owned(" Installed packages ") };
    ServerPopupView { servers, packages: Some(ListView { title: ptitle, items, selected, focused: pfocus }) }
}

// ---------------------------------------------------------------------
// Disks.
// ---------------------------------------------------------------------

/// The name of a disk mode.
pub open spec fn disk_mode_text(i: usize) -> Seq<char> {
    if i == 0 {
        "Best-effort partition layout"@
    } else if i == 1 {
        "Manual Partitioning"@
    } else {
        "Pre-mounted configuration"@
    }
}

/// The name of a disk mode (see `disk_mode_text`).
pub fn disk_mode_label(i: usize) -> (r: &'static str)
    ensures
        r@ == disk_mode_text(i),
{
    if i == 0 {
        "Best-effort partition layout"
    } else if i == 1 {
        "Manual Partitioning"
    } else {
        "Pre-mounted configuration"
    }
}

/// `prefix` and the value, when there is a value.
pub open spec fn optional_line(prefix: Seq<char>, o: Option<String>) -> Seq<Seq<char>> {
    match o {
        Some(x) => seq![prefix + x@],
        None => Seq::empty(),
    }
}

fn push_optional(out: &mut Vec<String>, prefix: &str, o: &Option<String>)
    ensures
        final(out).deep_view() == old(out).deep_view() + optional_line(prefix@, *o),
{
    let ghost start = out.deep_view();
    match o {
        Some(x) => {
            let mut line = owned(prefix);
            line.append(x.as_str());
            out.push(line);
        },
        None => {},
    }
    assert(out.deep_view() =~= start + optional_line(prefix@, *o));
}

/// The information pane of manual partitioning.
pub open spec fn manual_info(s: AppState) -> Seq<Seq<char>> {
    let d = s.disks;
    seq!["Disk mode: "@ + disk_mode_text(d.disks_mode_index)]
        + optional_line("Selected drive: "@, d.disks_selected_device)
        + optional_line("Label: "@, d.disks_label)
        + seq!["Wipe: "@ + (if d.disks_wipe { "Yes"@ } else { "No"@ })]
        + optional_line("Align: "@, d.disks_align)
}

/// The information pane of manual partitioning (see `manual_info`).
pub fn manual_info_lines(app: &AppState) -> (r: Vec<String>)
    ensures
        r.deep_view() == manual_info(*app),
{
    let mut r: Vec<String> = Vec::new();
    let mut first = owned("Disk mode: ");
    first.append(disk_mode_label(app.disks.disks_mode_index));
    r.push(first);
    assert(r.deep_view() =~= seq!["Disk mode: "@ + disk_mode_text(app.disks.disks_mode_index)]);
    push_optional(&mut r, "Selected drive: ", &app.disks.disks_selected_device);
    push_optional(&mut r, "Label: ", &app.disks.disks_label);
    let ghost before = r.deep_view();
    let mut wipe = owned("Wipe: ");
    wipe.append(if app.disks.disks_wipe { "Yes" } else { "No" });
    r.push(wipe);
    assert(r.deep_view() =~= before + seq!["Wipe: "@ + (if app.disks.disks_wipe { "Yes"@ } else { "No"@ })]);
    push_optional(&mut r, "Align: ", &app.disks.disks_align);
    assert(r.deep_view() =~= manual_info(*app));
    r
}

/// `piece` when `s` is not empty, else nothing.
pub open spec fn unless_empty(s: Seq<char>, piece: Seq<char>) -> Seq<char> {
    if s.len() > 0 { piece } else { Seq::empty() }
}

/// The summary of a partition before trimming: role, file system,
/// extent, flags, mount point and encryption, each when present.
pub open spec fn summary_body(p: DiskPartitionSpec) -> Seq<char> {
    let role = or_default(p.role, Seq::empty());
    let fs = or_default(p.fs, Seq::empty());
    let start = or_default(p.start, Seq::empty());
    let size = or_default(p.size, Seq::empty());
    let flags = join_with(p.flags.deep_view(), ","@);
    let mp = or_default(p.mountpoint, Seq::empty());
    unless_empty(role, "("@ + role + ") "@)
        + unless_empty(fs, fs + " "@)
        + unless_empty(start + size, "["@ + start + ".."@ + size + "] "@)
        + unless_empty(flags, "flags:"@ + flags + " "@)
        + unless_empty(mp, "-> "@ + mp + " "@)
        + (if p.encrypt == Some(true) { " enc"@ } else { Seq::empty() })
}

/// The one-line summary of a partition drawn by hand (`(empty)` when
/// nothing is set), trimmed.
pub open spec fn partition_summary(p: DiskPartitionSpec) -> Seq<char> {
    let line = summary_body(p);
    trimmed(if line.len() == 0 { "(empty)"@ } else { line })
}

fn text_or_empty(o: &Option<String>) -> (r: &str)
    ensures
        r@ == or_default(*o, Seq::empty()),
{
    match o {
        Some(x) => x.as_str(),
        None => {
            proof {
                reveal_strlit("");
            }
            ""
        },
    }
}

/// `pre + s + post` when `s` is not empty.
fn wrapped_if(s: &str, pre: &str, post: &str) -> (r: String)
    ensures
        r@ == unless_empty(s@, pre@ + s@ + post@),
{
    let mut r = String::new();
    if s.unicode_len() != 0 {
        r.append(pre);
        r.append(s);
        r.append(post);
    }
    proof {
        if s@.len() == 0 {
            assert(r@ =~= Seq::<char>::empty());
        }
    }
    r
}

/// `s + post` when `s` is not empty.
fn suffixed_if(s: &str, post: &str) -> (r: String)
    ensures
        r@ == unless_empty(s@, s@ + post@),
{
    let mut r = String::new();
    if s.unicode_len() != 0 {
        r.append(s);
        r.append(post);
    }
    proof {
        if s@.len() == 0 {
            assert(r@ =~= Seq::<char>::empty());
        }
    }
    r
}

fn summary_body_text(p: &DiskPartitionSpec) -> (r: String)
    ensures
        r@ == summary_body(*p),
{
    let role = text_or_empty(&p.role);
    let fs = text_or_empty(&p.fs);
    let start = text_or_empty(&p.start);
    let size = text_or_empty(&p.size);
    let flags = join(&p.flags, ",");
    let mp = text_or_empty(&p.mountpoint);
    let mut line = wrapped_if(role, "(", ") ");
    line.append(suffixed_if(fs, " ").as_str());
    let extent = if start.unicode_len() != 0 || size.unicode_len() != 0 {
        let mut e = owned("[");
        e.append(start);
        e.append("..");
        e.append(size);
        e.append("] ");
        e
    } else {
        String::new()
    };
    assert(extent@ =~= unless_empty(start@ + size@, "["@ + start@ + ".."@ + size@ + "] "@));
    line.append(extent.as_str());
    line.append(wrapped_if(flags.as_str(), "flags:", " ").as_str());
    line.append(wrapped_if(mp, "-> ", " ").as_str());
    let enc = match p.encrypt {
        Some(b) => b,
        None => false,
    };
    if enc {
        line.append(" enc");
    }
    proof {
        if !enc {
            assert(line@ =~= line@ + Seq::<char>::empty());
        }
    }
    line
}

/// The one-line summary of a partition (see `partition_summary`).
pub fn partition_summary_line(p: &DiskPartitionSpec) -> (r: String)
    ensures
        r@ == partition_summary(*p),
{
    let mut line = summary_body_text(p);
    if line.as_str().unicode_len() == 0 {
        line = owned("(empty)");
    }
    trim_text(line.as_str())
}

/// The summaries of the partitions drawn by hand, in order.
pub fn created_partition_lines(app: &AppState) -> (r: Vec<String>)
    ensures
        r.deep_view() == app.disks.disks_partitions@.map_values(|p: DiskPartitionSpec| partition_summary(p)),
{
    let ps = &app.disks.disks_partitions;
    let mut r: Vec<String> = Vec::new();
    let mut i: usize = 0;
    while i < ps.len()
        invariant
            i <= ps@.len(),
            ps == &app.disks.disks_partitions,
            r.deep_view() == ps@.take(i as int).map_values(|p: DiskPartitionSpec| partition_summary(p)),
        decreases ps@.len() - i,
    {
        let line = partition_summary_line(&ps[i]);
        let ghost before = r.deep_view();
        r.push(line);
        assert(r.deep_view() =~= before.push(partition_summary(ps@[i as int])));
        assert(ps@.take(i + 1).map_values(|p: DiskPartitionSpec| partition_summary(p))
            =~= ps@.take(i as int).map_values(|p: DiskPartitionSpec| partition_summary(p)).push(partition_summary(ps@[i as int])));
        i = i + 1;
    }
    assert(ps@.take(ps@.len() as int) =~= ps@);
    r
}

/// A partition as `lsblk -J -b` lists it (each field as read, if present).
pub struct BlockChild {
    pub kind: Option<String>,
    pub name: Option<String>,
    pub size: Option<u64>,
    pub start: Option<u64>,
    pub fstype: Option<String>,
}

/// A block device as `lsblk -J -b` lists it.
pub struct BlockDevice {
    pub path: Option<String>,
    pub phy_sec: Option<u64>,
    pub log_sec: Option<u64>,
    pub children: Vec<BlockChild>,
}

/// A partition already on the selected drive: its name, size, extent in
/// bytes and file system.
pub struct ExistingPartition {
    pub name: String,
    pub size_bytes: u64,
    pub start_bytes: u64,
    pub end_bytes: u64,
    pub fstype: String,
}

/// The sector size of a device: the physical one, else the logical one,
/// else 512.
pub open spec fn sector_size(d: BlockDevice) -> u64 {
    match d.phy_sec {
        Some(x) => x,
        None => match d.log_sec {
            Some(y) => y,
            None => 512,
        },
    }
}

/// `a * b`, or `u64::MAX` when it does not fit.
pub open spec fn sat_mul(a: u64, b: u64) -> u64 {
    if a * b > u64::MAX { u64::MAX } else { (a * b) as u64 }
}

/// `a + b`, or `u64::MAX` when it does not fit.
pub open spec fn sat_add(a: u64, b: u64) -> u64 {
    if a + b > u64::MAX { u64::MAX } else { (a + b) as u64 }
}

/// A number read from `lsblk`, 0 when absent.
pub open spec fn or_zero(o: Option<u64>) -> u64 {
    match o {
        Some(x) => x,
        None => 0,
    }
}

/// What is listed of a partition: name, size, start and end in bytes,
/// file system.
pub open spec fn existing_view(c: BlockChild, sector: u64) -> (Seq<char>, u64, u64, u64, Seq<char>) {
    let start_b = sat_mul(or_zero(c.start), sector);
    (or_default(c.name, Seq::empty()), or_zero(c.size), start_b, sat_add(start_b, or_zero(c.size)), or_default(c.fstype, Seq::empty()))
}

/// The partitions (children of type `part`) among `cs`, in order.
pub open spec fn partition_children(cs: Seq<BlockChild>, sector: u64) -> Seq<(Seq<char>, u64, u64, u64, Seq<char>)>
    decreases cs.len(),
{
    if cs.len() == 0 {
        Seq::empty()
    } else {
        let rest = partition_children(cs.drop_last(), sector);
        if or_default(cs.last().kind, Seq::empty()) == "part"@ { rest.push(existing_view(cs.last(), sector)) } else { rest }
    }
}

/// The partitions of the devices whose path starts with `dev`, in order.
pub open spec fn existing_partitions_of(ds: Seq<BlockDevice>, dev: Seq<char>) -> Seq<(Seq<char>, u64, u64, u64, Seq<char>)>
    decreases ds.len(),
{
    if ds.len() == 0 {
        Seq::empty()
    } else {
        let rest = existing_partitions_of(ds.drop_last(), dev);
        let d = ds.last();
        if has_prefix(or_default(d.path, Seq::empty()), dev) {
            rest + partition_children(d.children@, sector_size(d))
        } else {
            rest
        }
    }
}

/// What is listed of an existing partition.
pub open spec fn partition_view(p: ExistingPartition) -> (Seq<char>, u64, u64, u64, Seq<char>) {
    (p.name@, p.size_bytes, p.start_bytes, p.end_bytes, p.fstype@)
}

fn child_partitions(cs: &Vec<BlockChild>, sector: u64, out: &mut Vec<ExistingPartition>)
    ensures
        final(out)@.map_values(|p: ExistingPartition| partition_view(p))
            == old(out)@.map_values(|p: ExistingPartition| partition_view(p)) + partition_children(cs@, sector),
{
    let ghost start = old(out)@.map_values(|p: ExistingPartition| partition_view(p));
    let mut i: usize = 0;
    while i < cs.len()
        invariant
            i <= cs@.len(),
            out@.map_values(|p: ExistingPartition| partition_view(p)) == start + partition_children(cs@.take(i as int), sector),
        decreases cs@.len() - i,
    {
        assert(cs@.take(i + 1).drop_last() =~= cs@.take(i as int));
        let c = &cs[i];
        let kind = text_or_empty(&c.kind);
        if str_eq(kind, "part") {
            let size = match c.size { Some(x) => x, None => 0 };
            let start_sectors = match c.start { Some(x) => x, None => 0 };
            let start_b = match start_sectors.checked_mul(sector) { Some(x) => x, None => u64::MAX };
            let end_b = start_b.saturating_add(size);
            let ghost before = out@.map_values(|p: ExistingPartition| partition_view(p));
            out.push(ExistingPartition {
                name: owned(text_or_empty(&c.name)),
                size_bytes: size,
                start_bytes: start_b,
                end_bytes: end_b,
                fstype: owned(text_or_empty(&c.fstype)),
            });
            assert(out@.map_values(|p: ExistingPartition| partition_view(p)) =~= before.push(existing_view(cs@[i as int], sector)));
        }
        i = i + 1;
    }
    assert(cs@.take(cs@.len() as int) =~= cs@);
}

/// The partitions already on the devices whose path starts with `dev`,
/// as `lsblk` lists them (see `existing_partitions_of`).
pub fn existing_partitions(devices: &Vec<BlockDevice>, dev: &str) -> (r: Vec<ExistingPartition>)
    ensures
        r@.map_values(|p: ExistingPartition| partition_view(p)) == existing_partitions_of(devices@, dev@),
{
    let mut r: Vec<ExistingPartition> = Vec::new();
    let mut i: usize = 0;
    assert(r@.map_values(|p: ExistingPartition| partition_view(p)) =~= existing_partitions_of(devices@.take(0), dev@));
    while i < devices.len()
        invariant
            i <= devices@.len(),
            r@.map_values(|p: ExistingPartition| partition_view(p)) == existing_partitions_of(devices@.take(i as int), dev@),
        decreases devices@.len() - i,
    {
        assert(devices@.take(i + 1).drop_last() =~= devices@.take(i as int));
        let d = &devices[i];
        let path = text_or_empty(&d.path);
        if str_starts_with(path, dev) {
            let sector = match d.phy_sec {
                Some(x) => x,
                None => match d.log_sec {
                    Some(y) => y,
                    None => 512,
                },
            };
            child_partitions(&d.children, sector, &mut r);
        }
        i = i + 1;
    }
    assert(devices@.take(devices@.len() as int) =~= devices@);
    r
}

/// The block devices that `lsblk -J -b` describes in `stdout` (none when
/// the text is not its JSON): what `serde_json::from_slice` reads of it.
pub uninterp spec fn lsblk_devices_of(stdout: Seq<u8>) -> Seq<BlockDevice>;

/// `serde_json::from_slice` on the output of `lsblk -J -b`, each device
/// and partition moved field by field into the library's records (a
/// field that is absent or of another JSON type becomes `None`; output
/// that is not JSON, or has no `blockdevices` array, gives no device).
/// The result is named, not described: it is what the JSON parser reads.
#[verifier::external_body]
pub fn parse_lsblk_devices(stdout: &[u8]) -> (r: Vec<BlockDevice>)
    ensures
        r@ == lsblk_devices_of(stdout@),
{
    let v: Value = serde_json::from_slice(stdout).unwrap_or_default();
    let s = |n: &Value, k: &str| n[k].as_str().map(String::from);
    let a = |n: &Value, k: &str| n[k].as_array().cloned().unwrap_or_default();
    a(&v, "blockdevices").iter().map(|n| BlockDevice {
        path: s(n, "path"), phy_sec: n["phy-sec"].as_u64(), log_sec: n["log-sec"].as_u64(),
        children: a(n, "children").iter().map(|c| BlockChild {
            kind: s(c, "type"), name: s(c, "name"), size: c["size"].as_u64(), start: c["start"].as_u64(),
            fstype: s(c, "fstype"),
        }).collect(),
    }).collect()
}

/// The partitions already on the devices whose path starts with `dev`,
/// read from the output of `lsblk -J -b` (see `existing_partitions_of`).
pub fn existing_partitions_from_lsblk(stdout: &[u8], dev: &str) -> (r: Vec<ExistingPartition>)
    ensures
        r@.map_values(|p: ExistingPartition| partition_view(p)) == existing_partitions_of(lsblk_devices_of(stdout@), dev@),
{
    let devices = parse_lsblk_devices(stdout);
    existing_partitions(&devices, dev)
}

/// The line of an existing partition; `human_size` is its size written
/// for people.
pub open spec fn existing_line(p: ExistingPartition, human_size: Seq<char>) -> Seq<char> {
    p.name@ + " "@ + human_size + " ["@ + decimal(p.start_bytes as nat) + ".."@ + decimal(p.end_bytes as nat) + "] "@ + p.fstype@
}

/// The line of an existing partition (see `existing_line`).
pub fn existing_partition_line(p: &ExistingPartition, human_size: &str) -> (r: String)
    ensures
        r@ == existing_line(*p, human_size@),
{
    let mut r = owned(p.name.as_str());
    r.append(" ");
    r.append(human_size);
    r.append(" [");
    r.append(decimal_string(p.start_bytes).as_str());
    r.append("..");
    r.append(decimal_string(p.end_bytes).as_str());
    r.append("] ");
    r.append(p.fstype.as_str());
    r
}

/// The lines of the partitions pane: the existing and then the created
/// partitions, each group under its heading, or `(none)`.
pub open spec fn partitions_pane(existing: Seq<Seq<char>>, created: Seq<Seq<char>>) -> Seq<Seq<char>> {
    let lines = (if existing.len() > 0 {
        seq!["Existing:"@] + existing.map_values(|l: Seq<char>| "- "@ + l)
    } else {
        Seq::empty()
    }) + (if created.len() > 0 {
        seq!["Created:"@] + created.map_values(|l: Seq<char>| "- "@ + l)
    } else {
        Seq::empty()
    });
    if lines.len() == 0 { seq!["(none)"@] } else { lines }
}

fn push_dashed(out: &mut Vec<String>, heading: &str, lines: &Vec<String>)
    ensures
        final(out).deep_view() == old(out).deep_view() + seq![heading@]
            + lines.deep_view().map_values(|l: Seq<char>| "- "@ + l),
{
    let ghost start = old(out).deep_view() + seq![heading@];
    out.push(owned(heading));
    assert(out.deep_view() =~= start);
    let mut i: usize = 0;
    while i < lines.len()
        invariant
            i <= lines@.len(),
            out.deep_view() == start + lines.deep_view().take(i as int).map_values(|l: Seq<char>| "- "@ + l),
        decreases lines@.len() - i,
    {
        let mut l = owned("- ");
        l.append(lines[i].as_str());
        let ghost before = out.deep_view();
        assert(lines.deep_view()[i as int] == lines@[i as int]@);
        out.push(l);
        assert(out.deep_view() =~= before.push("- "@ + lines.deep_view()[i as int]));
        assert(lines.deep_view().take(i + 1).map_values(|l: Seq<char>| "- "@ + l)
            =~= lines.deep_view().take(i as int).map_values(|l: Seq<char>| "- "@ + l).push("- "@ + lines.deep_view()[i as int]));
        assert(out.deep_view() =~= start + lines.deep_view().take(i + 1).map_values(|l: Seq<char>| "- "@ + l));
        i = i + 1;
    }
    assert(lines.deep_view().take(lines@.len() as int) =~= lines.deep_view());
}

/// The text of the partitions pane, its lines joined by newlines (see
/// `partitions_pane`).
pub fn partitions_pane_text(existing: &Vec<String>, created: &Vec<String>) -> (r: String)
    ensures
        r@ == join_with(partitions_pane(existing.deep_view(), created.deep_view()), "\n"@),
{
    let mut lines: Vec<String> = Vec::new();
    assert(lines.deep_view() =~= Seq::<Seq<char>>::empty());
    if existing.len() != 0 {
        push_dashed(&mut lines, "Existing:", existing);
    }
    let ghost e_part = if existing.deep_view().len() > 0 {
        seq!["Existing:"@] + existing.deep_view().map_values(|l: Seq<char>| "- "@ + l)
    } else {
        Seq::<Seq<char>>::empty()
    };
    let ghost c_part = if created.deep_view().len() > 0 {
        seq!["Created:"@] + created.deep_view().map_values(|l: Seq<char>| "- "@ + l)
    } else {
        Seq::<Seq<char>>::empty()
    };
    assert(lines.deep_view() =~= e_part);
    if created.len() != 0 {
        push_dashed(&mut lines, "Created:", created);
    }
    assert(lines.deep_view() =~= e_part + c_part);
    if lines.len() == 0 {
        lines.push(owned("(none)"));
        assert(lines.deep_view() =~= seq!["(none)"@]);
    }
    assert(lines.deep_view() =~= partitions_pane(existing.deep_view(), created.deep_view()));
    join(&lines, "\n")
}

/// The bootloader's name in the layout pane.
pub open spec fn layout_bootloader(i: usize) -> Seq<char> {
    if i == 0 {
        "systemd-boot"@
    } else if i == 1 {
        "GRUB"@
    } else if i == 2 {
        "efistub"@
    } else if i == 3 {
        "Limine"@
    } else {
        "other"@
    }
}

/// The information pane of the automatic layout, under its heading:
/// bootloader, firmware, drive, and the partitions it will create; on
/// BIOS, a warning when the bootloader needs UEFI.
pub open spec fn auto_layout_info(s: AppState) -> Seq<Seq<char>> {
    let bl = layout_bootloader(s.boot.bootloader_index);
    let enc = if s.encryption.disk_encryption_type_index == 1 { " (LUKS)"@ } else { Seq::empty() };
    let swap = if s.boot.swap_enabled {
        seq!["- swap: "@ + decimal(s.boot.swap_size_gb as nat) + "GiB (based on RAM)"@]
    } else {
        Seq::empty()
    };
    let root = "- root: btrfs"@ + enc + " (rest)"@;
    seq!["Bootloader: "@ + bl, "Firmware: "@ + (if s.firmware_uefi { "UEFI"@ } else { "BIOS"@ })]
        + optional_line("Selected drive: "@, s.disks.disks_selected_device)
        + seq!["Planned layout:"@]
        + if s.firmware_uefi {
            seq!["- gpt: 1024MiB EFI (FAT, ESP) -> /boot"@] + swap + seq![root]
        } else {
            seq!["- gpt: 1MiB bios_boot [bios_grub]"@] + swap + seq![root]
                + (if bl != "GRUB"@ && bl != "Limine"@ {
                    seq!["Warning: Selected bootloader requires UEFI; choose GRUB or Limine for BIOS."@]
                } else {
                    Seq::empty()
                })
        }
}

fn layout_bootloader_name(i: usize) -> (r: &'static str)
    ensures
        r@ == layout_bootloader(i),
{
    if i == 0 {
        "systemd-boot"
    } else if i == 1 {
        "GRUB"
    } else if i == 2 {
        "efistub"
    } else if i == 3 {
        "Limine"
    } else {
        "other"
    }
}

/// The information pane of the automatic layout (see `auto_layout_info`).
pub fn auto_layout_lines(app: &AppState) -> (r: Vec<String>)
    ensures
        r.deep_view() == auto_layout_info(*app),
{
    let bl = layout_bootloader_name(app.boot.bootloader_index);
    let uefi = app.is_uefi();
    let mut r: Vec<String> = Vec::new();
    let mut a = owned("Bootloader: ");
    a.append(bl);
    r.push(a);
    let mut b = owned("Firmware: ");
    b.append(if uefi { "UEFI" } else { "BIOS" });
    r.push(b);
    let ghost bl_s = layout_bootloader(app.boot.bootloader_index);
    assert(r.deep_view() =~= seq!["Bootloader: "@ + bl_s, "Firmware: "@ + (if app.firmware_uefi { "UEFI"@ } else { "BIOS"@ })]);
    push_optional(&mut r, "Selected drive: ", &app.disks.disks_selected_device);
    let ghost before_planned = r.deep_view();
    r.push(owned("Planned layout:"));
    assert(r.deep_view() =~= before_planned + seq!["Planned layout:"@]);
    let ghost before_layout = r.deep_view();
    if uefi {
        r.push(owned("- gpt: 1024MiB EFI (FAT, ESP) -> /boot"));
    } else {
        r.push(owned("- gpt: 1MiB bios_boot [bios_grub]"));
    }
    let ghost first_part = if uefi { "- gpt: 1024MiB EFI (FAT, ESP) -> /boot"@ } else { "- gpt: 1MiB bios_boot [bios_grub]"@ };
    assert(r.deep_view() =~= before_layout + seq![first_part]);
    let ghost swap = if app.boot.swap_enabled {
        seq!["- swap: "@ + decimal(app.boot.swap_size_gb as nat) + "GiB (based on RAM)"@]
    } else {
        Seq::<Seq<char>>::empty()
    };
    if app.boot.swap_enabled {
        let mut sw = owned("- swap: ");
        sw.append(decimal_string(app.boot.swap_size_gb as u64).as_str());
        sw.append("GiB (based on RAM)");
        r.push(sw);
    }
    assert(r.deep_view() =~= before_layout + seq![first_part] + swap);
    let mut root = owned("- root: btrfs");
    if app.encryption.disk_encryption_type_index == 1 {
        root.append(" (LUKS)");
    }
    root.append(" (rest)");
    assert(root@ =~= "- root: btrfs"@ + (if app.encryption.disk_encryption_type_index == 1 { " (LUKS)"@ } else { Seq::<char>::empty() }) + " (rest)"@);
    r.push(root);
    assert(r.deep_view() =~= before_layout + seq![first_part] + swap + seq![root@]);
    let ghost warn = if !app.firmware_uefi && bl_s != "GRUB"@ && bl_s != "Limine"@ {
        seq!["Warning: Selected bootloader requires UEFI; choose GRUB or Limine for BIOS."@]
    } else {
        Seq::<Seq<char>>::empty()
    };
    if !uefi && !str_eq(bl, "GRUB") && !str_eq(bl, "Limine") {
        r.push(owned("Warning: Selected bootloader requires UEFI; choose GRUB or Limine for BIOS."));
    }
    assert(r.deep_view() =~= before_layout + seq![first_part] + swap + seq![root@] + warn);
    assert(r.deep_view() =~= auto_layout_info(*app));
    r
}


/// On a BIOS machine the layout pane warns exactly when the chosen
/// bootloader is neither GRUB (1) nor Limine (3); on UEFI it never warns.
pub proof fn lemma_layout_warns_for_uefi_only_bootloaders(s: AppState)
    ensures
        auto_layout_info(s).contains("Warning: Selected bootloader requires UEFI; choose GRUB or Limine for BIOS."@)
            <==> (!s.firmware_uefi && s.boot.bootloader_index != 1 && s.boot.bootloader_index != 3),
{
    let w = "Warning: Selected bootloader requires UEFI; choose GRUB or Limine for BIOS."@;
    reveal_strlit("Warning: Selected bootloader requires UEFI; choose GRUB or Limine for BIOS.");
    reveal_strlit("systemd-boot");
    reveal_strlit("GRUB");
    reveal_strlit("efistub");
    reveal_strlit("Limine");
    reveal_strlit("other");
    reveal_strlit("Bootloader: ");
    reveal_strlit("Firmware: ");
    reveal_strlit("Selected drive: ");
    reveal_strlit("Planned layout:");
    reveal_strlit("- gpt: 1024MiB EFI (FAT, ESP) -> /boot");
    reveal_strlit("- gpt: 1MiB bios_boot [bios_grub]");
    reveal_strlit("- swap: ");
    reveal_strlit("- root: btrfs");
    let info = auto_layout_info(s);
    let bl = layout_bootloader(s.boot.bootloader_index);
    let enc = if s.encryption.disk_encryption_type_index == 1 { " (LUKS)"@ } else { Seq::<char>::empty() };
    let swap = if s.boot.swap_enabled {
        seq!["- swap: "@ + decimal(s.boot.swap_size_gb as nat) + "GiB (based on RAM)"@]
    } else {
        Seq::empty()
    };
    let root = "- root: btrfs"@ + enc + " (rest)"@;
    let head = seq!["Bootloader: "@ + bl, "Firmware: "@ + (if s.firmware_uefi { "UEFI"@ } else { "BIOS"@ })]
        + optional_line("Selected drive: "@, s.disks.disks_selected_device) + seq!["Planned layout:"@];
    let pane = if s.firmware_uefi {
        seq!["- gpt: 1024MiB EFI (FAT, ESP) -> /boot"@] + swap + seq![root]
    } else {
        seq!["- gpt: 1MiB bios_boot [bios_grub]"@] + swap + seq![root]
    };
    let warn = !s.firmware_uefi && bl != "GRUB"@ && bl != "Limine"@;
    let tail = if warn { seq![w] } else { Seq::<Seq<char>>::empty() };
    assert(info =~= head + pane + tail);
    // No line but the warning itself starts as the warning does.
    assert forall|k: int| 0 <= k < (head + pane).len() implies (head + pane)[k] != w by {
        let x = (head + pane)[k];
        if x == w {
            if k == 0 {
                assert(x[0] == 'B');
            } else if k == 1 {
                assert(x[0] == 'F');
            } else if k < head.len() {
                if k == head.len() - 1 {
                    assert(x[0] == 'P');
                } else {
                    assert(x[0] == 'S');
                }
            } else {
                assert(x[0] == '-');
            }
            assert(w[0] == 'W');
        }
    }
    if warn {
        assert(info[(head + pane).len() as int] == w);
    } else {
        assert(info =~= head + pane);
    }
    assert(layout_bootloader(s.boot.bootloader_index) == "GRUB"@ <==> s.boot.bootloader_index == 1);
    assert(layout_bootloader(s.boot.bootloader_index) == "Limine"@ <==> s.boot.bootloader_index == 3);
}

/// An existing partition is listed with its size, its start in bytes
/// (its start sector times the device's sector size) and its end (start
/// plus size), as long as those fit in 64 bits; the sector size is the
/// physical one, else the logical one, else 512 bytes.
pub proof fn lemma_existing_partition_bytes(c: BlockChild, d: BlockDevice)
    ensures
        d.phy_sec is None && d.log_sec is None ==> sector_size(d) == 512,
        d.phy_sec matches Some(x) ==> sector_size(d) == x,
        d.phy_sec is None && d.log_sec is Some ==> sector_size(d) == d.log_sec->0,
        existing_view(c, sector_size(d)).1 == or_zero(c.size),
        or_zero(c.start) * sector_size(d) + or_zero(c.size) <= u64::MAX ==> {
            &&& existing_view(c, sector_size(d)).2 == or_zero(c.start) * sector_size(d)
            &&& existing_view(c, sector_size(d)).3 == or_zero(c.start) * sector_size(d) + or_zero(c.size)
        },
{
}

} // verus!
