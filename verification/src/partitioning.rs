//! Disk partitioning: the commands that lay out, flag and format the
//! target drive, either in the automatic layout or as the user drew it.
use vstd::prelude::*;
use crate::state::AppState;
use crate::text::{
    decimal, decimal_string, has_prefix, has_substring, is_digit, owned, parse_u64, parsed_u64, push_decimal,
    str_contains, str_eq, char_is_digit, chars_of,
};
use crate::types::DiskPartitionSpec;
use crate::commands::{emit, cat2, cat3, cat4};

verus! {

/// The commands of a partitioning run, in order.
#[derive(Clone)]
pub struct PartitionPlan {
    pub commands: Vec<String>,
}

impl PartitionPlan {
    /// A plan made of the given commands.
    pub fn new(commands: Vec<String>) -> (r: Self)
        ensures
            r.commands == commands,
    {
        PartitionPlan { commands }
    }
}

/// Builds partitioning plans.
pub struct PartitioningService;

// ---------------------------------------------------------------------
// Specification.
// ---------------------------------------------------------------------

/// The partition-table label: the chosen one, else `gpt`.
pub open spec fn label_of(s: AppState) -> Seq<char> {
    match s.disks.disks_label {
        Some(l) => l@,
        None => "gpt"@,
    }
}

/// The alignment of the first partition: the chosen one, else `1MiB`.
pub open spec fn align_of(s: AppState) -> Seq<char> {
    match s.disks.disks_align {
        Some(a) => a@,
        None => "1MiB"@,
    }
}

/// The commands that wipe (when asked) and label the drive, then wait
/// for the kernel to see it.
pub open spec fn prepare_commands(s: AppState, dev: Seq<char>) -> Seq<Seq<char>> {
    (if s.disks.disks_wipe {
        seq!["wipefs -a "@ + dev]
    } else {
        Seq::empty()
    }) + seq![
        "parted -s "@ + dev + " mklabel "@ + label_of(s),
        "partprobe "@ + dev + " || true"@,
        "udevadm settle"@,
    ]
}

/// Where the boot partition of the automatic layout ends, in MiB.
pub open spec fn boot_end_mib(s: AppState) -> int {
    if s.firmware_uefi { 1025int } else { 2int }
}

/// Where the swap partition of the automatic layout ends, in MiB: it
/// spans the chosen number of GiB after the boot partition.
pub open spec fn swap_end(s: AppState) -> Seq<char> {
    decimal((boot_end_mib(s) + s.boot.swap_size_gb * 1024) as nat) + "MiB"@
}

/// The number of the root partition of the automatic layout: it follows
/// the swap partition when there is one.
pub open spec fn root_number(s: AppState) -> nat {
    if s.boot.swap_enabled { 3 } else { 2 }
}

/// The boot partition of the automatic layout: an ESP on UEFI, a BIOS
/// boot partition otherwise.
pub open spec fn boot_commands(s: AppState, dev: Seq<char>) -> Seq<Seq<char>> {
    if s.firmware_uefi {
        seq![
            "parted -s "@ + dev + " mkpart ESP fat32 "@ + align_of(s) + " 1025MiB"@,
            "parted -s "@ + dev + " set 1 esp on"@,
            "mkfs.fat -F 32 "@ + partition_path(dev, 1),
        ]
    } else {
        seq![
            "parted -s "@ + dev + " mkpart biosboot "@ + align_of(s) + " 2MiB"@,
            "parted -s "@ + dev + " set 1 bios_grub on"@,
        ]
    }
}

/// Where the boot partition ends.
pub open spec fn after_boot(s: AppState) -> Seq<char> {
    if s.firmware_uefi { "1025MiB"@ } else { "2MiB"@ }
}

/// The swap partition of the automatic layout, when swap is on.
pub open spec fn swap_commands(s: AppState, dev: Seq<char>) -> Seq<Seq<char>> {
    if s.boot.swap_enabled {
        seq![
            "parted -s "@ + dev + " mkpart swap linux-swap "@ + after_boot(s) + " "@ + swap_end(s),
            "mkswap "@ + partition_path(dev, 2),
        ]
    } else {
        Seq::empty()
    }
}

/// The btrfs root on the rest of the drive (partition 3 after a swap
/// partition, else partition 2), inside LUKS when encryption is chosen.
pub open spec fn root_commands(s: AppState, dev: Seq<char>) -> Seq<Seq<char>> {
    let root_start = if s.boot.swap_enabled { swap_end(s) } else { after_boot(s) };
    seq!["parted -s "@ + dev + " mkpart root btrfs "@ + root_start + " 100%"@] + (
    if s.encryption.disk_encryption_type_index == 1 {
        seq![
            "cryptsetup luksFormat "@ + partition_path(dev, root_number(s)),
            "cryptsetup open "@ + partition_path(dev, root_number(s)) + " cryptroot"@,
            "mkfs.btrfs -f /dev/mapper/cryptroot"@,
        ]
    } else {
        seq!["mkfs.btrfs -f "@ + partition_path(dev, root_number(s))]
    })
}

/// The automatic layout: an ESP (UEFI) or a BIOS boot partition, an
/// optional swap partition sized from the settings, and a btrfs root on
/// the rest of the drive, inside LUKS when encryption is chosen. Each
/// partition is named as `partition_path` names it.
pub open spec fn automatic_commands(s: AppState, dev: Seq<char>) -> Seq<Seq<char>> {
    prepare_commands(s, dev) + boot_commands(s, dev) + swap_commands(s, dev) + root_commands(s, dev)
}

/// A size or position as `parted` takes it: texts that already carry a
/// unit (or are `100%`) stay; a byte count becomes whole MiB (at least
/// `1MiB`); anything else stays.
pub open spec fn parted_unit(b: Seq<char>) -> Seq<char> {
    if has_substring(b, "MiB"@) || has_substring(b, "GiB"@) || has_substring(b, "KiB"@)
        || has_substring(b, "MB"@) || has_substring(b, "GB"@) || has_substring(b, "KB"@) || b
        == "100%"@ {
        b
    } else {
        match parsed_u64(b) {
            Some(v) => if v / 1048576u64 == 0 {
                "1MiB"@
            } else {
                decimal((v / 1048576u64) as nat) + "MiB"@
            },
            None => b,
        }
    }
}

/// The device node of partition `n`: `p` goes between a device name that
/// ends in a digit (such as `/dev/nvme0n1`) and the number.
pub open spec fn partition_path(dev: Seq<char>, n: nat) -> Seq<char> {
    if dev.len() > 0 && is_digit(dev.last()) {
        dev + "p"@ + decimal(n)
    } else {
        dev + decimal(n)
    }
}

/// The text of an optional field, or a default.
pub open spec fn or_default(o: Option<String>, d: Seq<char>) -> Seq<char> {
    match o {
        Some(x) => x@,
        None => d,
    }
}

/// The command that formats a partition with a file system.
pub open spec fn format_command(fs: Seq<char>, path: Seq<char>) -> Seq<char> {
    if fs == "fat32"@ {
        "mkfs.fat -F 32 "@ + path
    } else if fs == "fat16"@ {
        "mkfs.fat -F 16 "@ + path
    } else if fs == "fat12"@ {
        "mkfs.fat -F 12 "@ + path
    } else if fs == "linux-swap"@ {
        "mkswap "@ + path
    } else if fs == "btrfs"@ {
        "mkfs.btrfs -f "@ + path
    } else if fs == "ext3"@ {
        "mkfs.ext3 -F "@ + path
    } else if fs == "ext2"@ {
        "mkfs.ext2 -F "@ + path
    } else if fs == "xfs"@ {
        "mkfs.xfs -f "@ + path
    } else if fs == "f2fs"@ {
        "mkfs.f2fs -f "@ + path
    } else {
        "mkfs.ext4 -F "@ + path
    }
}

/// The commands that create, flag and format one drawn partition as
/// partition number `n`.
pub open spec fn partition_commands(p: DiskPartitionSpec, dev: Seq<char>, n: nat) -> Seq<Seq<char>> {
    let role = or_default(p.role, "OTHER"@);
    let fs = or_default(p.fs, "ext4"@);
    let start = parted_unit(or_default(p.start, "0"@));
    let size = parted_unit(or_default(p.size, "100%"@));
    let boot = role == "BOOT"@ || role == "EFI"@;
    let part_type = if boot {
        "ESP"@
    } else if role == "SWAP"@ {
        "linux-swap"@
    } else {
        "primary"@
    };
    seq!["parted -s "@ + dev + " mkpart "@ + part_type + " "@ + fs + " "@ + start + " "@ + size]
        + (if boot {
        seq!["parted -s "@ + dev + " set "@ + decimal(n) + " esp on"@]
    } else if role == "BIOS_BOOT"@ {
        seq!["parted -s "@ + dev + " set "@ + decimal(n) + " bios_grub on"@]
    } else {
        Seq::empty()
    }) + seq![format_command(fs, partition_path(dev, n))]
}

/// The drawn partition belongs to the drive (it names no drive, or this one).
pub open spec fn on_device(p: DiskPartitionSpec, dev: Seq<char>) -> bool {
    match p.name {
        Some(d) => d@ == dev,
        None => true,
    }
}

/// The commands for the drawn partitions of the drive, in order,
/// numbered from `n`.
pub open spec fn drawn_commands(ps: Seq<DiskPartitionSpec>, dev: Seq<char>, n: nat) -> Seq<Seq<char>>
    decreases ps.len(),
{
    if ps.len() == 0 {
        Seq::empty()
    } else if on_device(ps[0], dev) {
        partition_commands(ps[0], dev, n) + drawn_commands(ps.drop_first(), dev, n + 1)
    } else {
        drawn_commands(ps.drop_first(), dev, n)
    }
}

/// The start of a drawn partition as a sort key: its number, or 0 when
/// it has none or it is not a number.
pub open spec fn start_key(p: DiskPartitionSpec) -> u64 {
    match p.start {
        Some(s) => match parsed_u64(s@) {
            Some(v) => v,
            None => 0,
        },
        None => 0,
    }
}

/// Partition `j` comes before partition `i` in a stable sort by start.
pub open spec fn sorts_before(ks: Seq<u64>, j: int, i: int) -> bool {
    ks[j] < ks[i] || (ks[j] == ks[i] && j < i)
}

/// The number of partitions among the first `m` that come before `i`.
pub open spec fn count_before(ks: Seq<u64>, i: int, m: int) -> nat
    decreases m,
{
    if m <= 0 {
        0
    } else {
        count_before(ks, i, m - 1) + (if sorts_before(ks, m - 1, i) { 1nat } else { 0nat })
    }
}

/// Where partition `i` lands in a stable sort by start: the number of
/// partitions that come before it.
pub open spec fn sort_rank(ks: Seq<u64>, i: int) -> nat {
    count_before(ks, i, ks.len() as int)
}

/// `ord` lists the partitions in stable order of their starts: the
/// partition at position `k` has rank `k`.
pub open spec fn is_stable_order(ks: Seq<u64>, ord: Seq<int>) -> bool {
    &&& ord.len() == ks.len()
    &&& forall|k: int| 0 <= k < ord.len() ==> 0 <= #[trigger] ord[k] < ks.len() && sort_rank(ks, ord[k]) == k
}

/// The sort keys of the drawn partitions.
pub open spec fn start_keys(ps: Seq<DiskPartitionSpec>) -> Seq<u64> {
    Seq::new(ps.len(), |i: int| start_key(ps[i]))
}

/// The drawn partitions rearranged by `ord`.
pub open spec fn arranged(ps: Seq<DiskPartitionSpec>, ord: Seq<int>) -> Seq<DiskPartitionSpec> {
    Seq::new(ord.len(), |k: int| ps[ord[k]])
}

/// The manual layout: the drive is prepared, then the drawn partitions of
/// the drive are created in order of their starts (a stable sort), and
/// the kernel rereads the table.
pub open spec fn manual_commands(s: AppState, dev: Seq<char>, ord: Seq<int>) -> Seq<Seq<char>> {
    prepare_commands(s, dev) + drawn_commands(arranged(s.disks.disks_partitions@, ord), dev, 1)
        + seq!["partprobe "@ + dev + " || true"@, "udevadm settle"@]
}

/// The manual layout is used when it is chosen and partitions were drawn.
pub open spec fn uses_manual_layout(s: AppState) -> bool {
    s.disks.disks_mode_index == 1 && s.disks.disks_partitions@.len() > 0
}

/// The swap sizes fit the 32-bit arithmetic of the automatic layout.
pub open spec fn swap_fits(s: AppState) -> bool {
    s.boot.swap_enabled ==> boot_end_mib(s) + s.boot.swap_size_gb * 1024 <= u32::MAX
}

// ---------------------------------------------------------------------
// Lemmas on the stable order.
// ---------------------------------------------------------------------

/// The number of `true` among the first `m` flags.
pub open spec fn count_true(u: Seq<bool>, m: int) -> nat
    decreases m,
{
    if m <= 0 {
        0
    } else {
        count_true(u, m - 1) + (if u[m - 1] { 1nat } else { 0nat })
    }
}

proof fn lemma_count_matches(ks: Seq<u64>, i: int, u: Seq<bool>, m: int)
    requires
        0 <= m <= ks.len(),
        u.len() == ks.len(),
        forall|j: int| 0 <= j < m ==> (sorts_before(ks, j, i) <==> #[trigger] u[j]),
    ensures
        count_before(ks, i, m) == count_true(u, m),
    decreases m,
{
    if m > 0 {
        lemma_count_matches(ks, i, u, m - 1);
    }
}

proof fn lemma_count_true_set(u: Seq<bool>, k: int, m: int)
    requires
        0 <= k < u.len(),
        !u[k],
        0 <= m <= u.len(),
    ensures
        count_true(u.update(k, true), m) == count_true(u, m) + (if k < m { 1nat } else { 0nat }),
    decreases m,
{
    if m > 0 {
        lemma_count_true_set(u, k, m - 1);
    }
}

proof fn lemma_count_true_all_false(n: int)
    requires
        n >= 0,
    ensures
        count_true(Seq::new(n as nat, |i: int| false), n) == 0,
    decreases n,
{
    if n > 0 {
        let u = Seq::new(n as nat, |i: int| false);
        let v = Seq::new((n - 1) as nat, |i: int| false);
        lemma_count_true_all_false(n - 1);
        lemma_count_true_prefix(u, v, n - 1);
    }
}

proof fn lemma_count_true_prefix(u: Seq<bool>, v: Seq<bool>, m: int)
    requires
        0 <= m <= u.len(),
        m <= v.len(),
        forall|j: int| 0 <= j < m ==> u[j] == v[j],
    ensures
        count_true(u, m) == count_true(v, m),
    decreases m,
{
    if m > 0 {
        lemma_count_true_prefix(u, v, m - 1);
    }
}

/// A stable order by start exists and is unique: two orders in which
/// every partition sits at its rank are the same order.
pub proof fn lemma_stable_order_unique(ks: Seq<u64>, a: Seq<int>, b: Seq<int>)
    requires
        is_stable_order(ks, a),
        is_stable_order(ks, b),
    ensures
        a == b,
{
    assert forall|k: int| 0 <= k < a.len() implies a[k] == b[k] by {
        assert(sort_rank(ks, a[k]) == k);
        assert(sort_rank(ks, b[k]) == k);
        if a[k] != b[k] {
            lemma_rank_injective(ks, a[k], b[k]);
        }
    }
    assert(a =~= b);
}

proof fn lemma_count_monotone(ks: Seq<u64>, i: int, j: int, m: int)
    requires
        0 <= i < ks.len(),
        0 <= j < ks.len(),
        sorts_before(ks, i, j),
        0 <= m <= ks.len(),
    ensures
        count_before(ks, i, m) + (if i < m { 1nat } else { 0nat }) <= count_before(ks, j, m),
    decreases m,
{
    if m > 0 {
        lemma_count_monotone(ks, i, j, m - 1);
    }
}

proof fn lemma_rank_injective(ks: Seq<u64>, i: int, j: int)
    requires
        0 <= i < ks.len(),
        0 <= j < ks.len(),
        i != j,
    ensures
        sort_rank(ks, i) != sort_rank(ks, j),
{
    if sorts_before(ks, i, j) {
        lemma_count_monotone(ks, i, j, ks.len() as int);
    } else {
        assert(sorts_before(ks, j, i));
        lemma_count_monotone(ks, j, i, ks.len() as int);
    }
}

// ---------------------------------------------------------------------
// Implementation.
// ---------------------------------------------------------------------

fn key_of(p: &DiskPartitionSpec) -> (k: u64)
    ensures
        k == start_key(*p),
{
    match &p.start {
        Some(s) => match parse_u64(s.as_str()) {
            Some(v) => v,
            None => 0,
        },
        None => 0,
    }
}

/// The positions of the drawn partitions in stable order of their starts.
pub fn stable_start_order(ps: &Vec<DiskPartitionSpec>) -> (ord: Vec<usize>)
    ensures
        is_stable_order(start_keys(ps@), ord@.map_values(|i: usize| i as int)),
{
    let n = ps.len();
    let mut keys: Vec<u64> = Vec::new();
    let mut i: usize = 0;
    while i < n
        invariant
            n == ps@.len(),
            i <= n,
            keys@.len() == i,
            forall|k: int| 0 <= k < i ==> keys@[k] == start_key(ps@[k]),
        decreases n - i,
    {
        keys.push(key_of(&ps[i]));
        i = i + 1;
    }
    let ghost ks = keys@;
    assert(ks =~= start_keys(ps@));
    let mut used: Vec<bool> = Vec::new();
    let mut i: usize = 0;
    while i < n
        invariant
            i <= n,
            used@ == Seq::new(i as nat, |k: int| false),
        decreases n - i,
    {
        used.push(false);
        i = i + 1;
        assert(used@ =~= Seq::new(i as nat, |k: int| false));
    }
    proof {
        lemma_count_true_all_false(n as int);
    }
    let mut ord: Vec<usize> = Vec::new();
    let mut t: usize = 0;
    while t < n
        invariant
            n == ks.len(),
            keys@ == ks,
            used@.len() == n,
            t <= n,
            ord@.len() == t,
            count_true(used@, n as int) == t,
            forall|k: int| 0 <= k < t ==> 0 <= #[trigger] ord@[k] < n && sort_rank(ks, ord@[k] as int) == k,
            forall|j: int, i: int|
                0 <= j < n && 0 <= i < n && #[trigger] used@[j] && !#[trigger] used@[i] ==> sorts_before(ks, j, i),
        decreases n - t,
    {
        // the first unused partition with the least start
        let mut m: usize = 0;
        while m < n && used[m]
            invariant
                m <= n,
                used@.len() == n,
                forall|j: int| 0 <= j < m ==> used@[j],
            decreases n - m,
        {
            m = m + 1;
        }
        if m == n {
            proof {
                assert forall|j: int| 0 <= j < n implies used@[j] by {}
                lemma_count_true_upper(used@, n as int);
            }
            assert(false);
        }
        let mut j: usize = m + 1;
        while j < n
            invariant
                m < n,
                m < j <= n,
                used@.len() == n,
                ks.len() == n,
                keys@ == ks,
                !used@[m as int],
                forall|x: int| 0 <= x < j && x != m && !used@[x] ==> sorts_before(ks, m as int, x),
            decreases n - j,
        {
            if !used[j] && keys[j] < keys[m] {
                m = j;
            }
            j = j + 1;
        }
        proof {
            assert forall|x: int| 0 <= x < n implies (sorts_before(ks, x, m as int) <==> #[trigger] used@[x]) by {
                if used@[x] {
                } else if x != m {
                    assert(sorts_before(ks, m as int, x));
                }
            }
            lemma_count_matches(ks, m as int, used@, n as int);
            lemma_count_true_set(used@, m as int, n as int);
        }
        let ghost old_used = used@;
        used.set(m, true);
        ord.push(m);
        proof {
            assert forall|a: int, b: int|
                0 <= a < n && 0 <= b < n && #[trigger] used@[a] && !#[trigger] used@[b] implies sorts_before(ks, a, b) by {
                if a == m {
                    assert(!old_used[b]);
                } else {
                    assert(old_used[a]);
                }
            }
        }
        t = t + 1;
    }
    let ghost o = ord@.map_values(|i: usize| i as int);
    assert forall|k: int| 0 <= k < o.len() implies 0 <= #[trigger] o[k] < ks.len() && sort_rank(ks, o[k]) == k by {
        assert(o[k] == ord@[k] as int);
    }
    ord
}

proof fn lemma_count_true_upper(u: Seq<bool>, m: int)
    requires
        0 <= m <= u.len(),
        forall|j: int| 0 <= j < m ==> u[j],
    ensures
        count_true(u, m) == m,
    decreases m,
{
    if m > 0 {
        lemma_count_true_upper(u, m - 1);
    }
}


fn text_or<'a>(o: &'a Option<String>, d: &'a str) -> (r: &'a str)
    ensures
        r@ == or_default(*o, d@),
{
    match o {
        Some(x) => x.as_str(),
        None => d,
    }
}

fn emit_prepare(state: &AppState, device: &str, out: &mut Vec<String>)
    ensures
        final(out).deep_view() == old(out).deep_view() + prepare_commands(*state, device@),
{
    let ghost start = out.deep_view();
    if state.disks.disks_wipe {
        emit(out, cat2("wipefs -a ", device));
    }
    let label: &str = text_or(&state.disks.disks_label, "gpt");
    emit(out, cat4("parted -s ", device, " mklabel ", label));
    emit(out, cat3("partprobe ", device, " || true"));
    emit(out, owned("udevadm settle"));
    assert(out.deep_view() =~= start + prepare_commands(*state, device@));
}

fn emit_boot(state: &AppState, device: &str, out: &mut Vec<String>)
    ensures
        final(out).deep_view() == old(out).deep_view() + boot_commands(*state, device@),
{
    let ghost start = out.deep_view();
    let align: &str = text_or(&state.disks.disks_align, "1MiB");
    if state.is_uefi() {
        let mut c = cat4("parted -s ", device, " mkpart ESP fat32 ", align);
        c.append(" 1025MiB");
        emit(out, c);
        emit(out, cat3("parted -s ", device, " set 1 esp on"));
        let esp = PartitioningService::get_partition_path(device, 1);
        emit(out, cat2("mkfs.fat -F 32 ", esp.as_str()));
    } else {
        let mut c = cat4("parted -s ", device, " mkpart biosboot ", align);
        c.append(" 2MiB");
        emit(out, c);
        emit(out, cat3("parted -s ", device, " set 1 bios_grub on"));
    }
    assert(out.deep_view() =~= start + boot_commands(*state, device@));
}

/// Appends the swap partition when swap is on, and answers where the
/// root partition starts.
fn emit_swap(state: &AppState, device: &str, out: &mut Vec<String>) -> (root_start: String)
    requires
        swap_fits(*state),
    ensures
        final(out).deep_view() == old(out).deep_view() + swap_commands(*state, device@),
        root_start@ == (if state.boot.swap_enabled { swap_end(*state) } else { after_boot(*state) }),
{
    let ghost start = out.deep_view();
    let uefi = state.is_uefi();
    let after: &str = if uefi { "1025MiB" } else { "2MiB" };
    if state.boot.swap_enabled {
        let swap_mib: u32 = state.boot.swap_size_gb * 1024;
        let end_mib: u32 = if uefi { 1025 + swap_mib } else { 2 + swap_mib };
        let mut swap_end_text = decimal_string(end_mib as u64);
        swap_end_text.append("MiB");
        assert(swap_end_text@ == swap_end(*state));
        let mut c = cat4("parted -s ", device, " mkpart swap linux-swap ", after);
        c.append(" ");
        c.append(swap_end_text.as_str());
        emit(out, c);
        let swap_path = PartitioningService::get_partition_path(device, 2);
        emit(out, cat2("mkswap ", swap_path.as_str()));
        assert(out.deep_view() =~= start + swap_commands(*state, device@));
        swap_end_text
    } else {
        assert(out.deep_view() =~= start + swap_commands(*state, device@));
        owned(after)
    }
}

fn emit_root(state: &AppState, device: &str, root_start: &str, out: &mut Vec<String>)
    requires
        root_start@ == (if state.boot.swap_enabled { swap_end(*state) } else { after_boot(*state) }),
    ensures
        final(out).deep_view() == old(out).deep_view() + root_commands(*state, device@),
{
    let ghost start = out.deep_view();
    let mut c = cat4("parted -s ", device, " mkpart root btrfs ", root_start);
    c.append(" 100%");
    emit(out, c);
    let number: u32 = if state.boot.swap_enabled { 3 } else { 2 };
    let root = PartitioningService::get_partition_path(device, number);
    if state.encryption.disk_encryption_type_index == 1 {
        emit(out, cat2("cryptsetup luksFormat ", root.as_str()));
        emit(out, cat3("cryptsetup open ", root.as_str(), " cryptroot"));
        emit(out, owned("mkfs.btrfs -f /dev/mapper/cryptroot"));
    } else {
        emit(out, cat2("mkfs.btrfs -f ", root.as_str()));
    }
    assert(out.deep_view() =~= start + root_commands(*state, device@));
}

impl PartitioningService {
    /// The commands that partition `device`: the manual layout when it is
    /// chosen and partitions were drawn, else the automatic layout.
    pub fn build_plan(state: &AppState, device: &str) -> (plan: PartitionPlan)
        requires
            !uses_manual_layout(*state) ==> swap_fits(*state),
            state.disks.disks_partitions@.len() < u32::MAX,
        ensures
            uses_manual_layout(*state) ==> exists|ord: Seq<int>| #[trigger] is_stable_order(start_keys(state.disks.disks_partitions@), ord)
                && plan.commands.deep_view() == manual_commands(*state, device@, ord),
            !uses_manual_layout(*state) ==> plan.commands.deep_view() == automatic_commands(*state, device@),
    {
        let mut part_cmds: Vec<String> = Vec::new();
        let is_manual_mode = state.disks.disks_mode_index == 1;
        assert(part_cmds.deep_view() =~= Seq::<Seq<char>>::empty());
        if is_manual_mode && state.disks.disks_partitions.len() != 0 {
            Self::build_manual_partition_plan(state, device, &mut part_cmds);
            proof {
                let ord = choose|ord: Seq<int>| #[trigger] is_stable_order(start_keys(state.disks.disks_partitions@), ord)
                    && part_cmds.deep_view() == Seq::<Seq<char>>::empty() + manual_commands(*state, device@, ord);
                assert(Seq::<Seq<char>>::empty() + manual_commands(*state, device@, ord) =~= manual_commands(*state, device@, ord));
            }
        } else {
            Self::build_automatic_partition_plan(state, device, &mut part_cmds);
            assert(part_cmds.deep_view() =~= automatic_commands(*state, device@));
        }
        PartitionPlan::new(part_cmds)
    }

    /// The swap partition of the automatic layout fits the 32-bit
    /// arithmetic of its end (see `swap_fits`).
    pub fn swap_fits_check(state: &AppState) -> (r: bool)
        ensures
            r == swap_fits(*state),
    {
        if !state.boot.swap_enabled {
            return true;
        }
        let boot_end: u64 = if state.is_uefi() { 1025 } else { 2 };
        boot_end + state.boot.swap_size_gb as u64 * 1024 <= 0xffff_ffffu64
    }

    /// Appends the automatic layout's commands for `device`.
    pub fn build_automatic_partition_plan(state: &AppState, device: &str, part_cmds: &mut Vec<String>)
        requires
            swap_fits(*state),
        ensures
            final(part_cmds).deep_view() == old(part_cmds).deep_view() + automatic_commands(*state, device@),
    {
        let ghost start = part_cmds.deep_view();
        emit_prepare(state, device, part_cmds);
        emit_boot(state, device, part_cmds);
        let root_start = emit_swap(state, device, part_cmds);
        emit_root(state, device, root_start.as_str(), part_cmds);
        assert(part_cmds.deep_view() =~= start + automatic_commands(*state, device@));
    }

    /// `size` as `parted` takes it (see `parted_unit`).
    pub fn bytes_to_parted_unit(bytes_str: &str) -> (r: String)
        ensures
            r@ == parted_unit(bytes_str@),
    {
        if str_contains(bytes_str, "MiB") || str_contains(bytes_str, "GiB") || str_contains(
            bytes_str,
            "KiB",
        ) || str_contains(bytes_str, "MB") || str_contains(bytes_str, "GB") || str_contains(
            bytes_str,
            "KB",
        ) || str_eq(bytes_str, "100%") {
            return owned(bytes_str);
        }
        match parse_u64(bytes_str) {
            Some(bytes) => {
                let mib = bytes / (1024 * 1024);
                if mib == 0 {
                    owned("1MiB")
                } else {
                    let mut r = decimal_string(mib);
                    r.append("MiB");
                    r
                }
            },
            None => owned(bytes_str),
        }
    }

    /// The device node of partition `partition_number` of `device`.
    pub fn get_partition_path(device: &str, partition_number: u32) -> (r: String)
        ensures
            r@ == partition_path(device@, partition_number as nat),
    {
        let v = chars_of(device);
        let mut r = owned(device);
        if v.len() > 0 && char_is_digit(v[v.len() - 1]) {
            r.append("p");
        }
        push_decimal(&mut r, partition_number as u64);
        r
    }

    fn format_partition(fs: &str, path: &str) -> (r: String)
        ensures
            r@ == format_command(fs@, path@),
    {
        if str_eq(fs, "fat32") {
            cat2("mkfs.fat -F 32 ", path)
        } else if str_eq(fs, "fat16") {
            cat2("mkfs.fat -F 16 ", path)
        } else if str_eq(fs, "fat12") {
            cat2("mkfs.fat -F 12 ", path)
        } else if str_eq(fs, "linux-swap") {
            cat2("mkswap ", path)
        } else if str_eq(fs, "btrfs") {
            cat2("mkfs.btrfs -f ", path)
        } else if str_eq(fs, "ext3") {
            cat2("mkfs.ext3 -F ", path)
        } else if str_eq(fs, "ext2") {
            cat2("mkfs.ext2 -F ", path)
        } else if str_eq(fs, "xfs") {
            cat2("mkfs.xfs -f ", path)
        } else if str_eq(fs, "f2fs") {
            cat2("mkfs.f2fs -f ", path)
        } else {
            cat2("mkfs.ext4 -F ", path)
        }
    }

    fn emit_partition(p: &DiskPartitionSpec, device: &str, n: u32, out: &mut Vec<String>)
        ensures
            final(out).deep_view() == old(out).deep_view() + partition_commands(*p, device@, n as nat),
    {
        let ghost start = out.deep_view();
        let role: &str = text_or(&p.role, "OTHER");
        let fs: &str = text_or(&p.fs, "ext4");
        let start_str = Self::bytes_to_parted_unit(text_or(&p.start, "0"));
        let size_str = Self::bytes_to_parted_unit(text_or(&p.size, "100%"));
        let boot = str_eq(role, "BOOT") || str_eq(role, "EFI");
        let part_type: &str = if boot {
            "ESP"
        } else if str_eq(role, "SWAP") {
            "linux-swap"
        } else {
            "primary"
        };
        let mut c = cat4("parted -s ", device, " mkpart ", part_type);
        c.append(" ");
        c.append(fs);
        c.append(" ");
        c.append(start_str.as_str());
        c.append(" ");
        c.append(size_str.as_str());
        emit(out, c);
        if boot {
            let mut f = cat2("parted -s ", device);
            f.append(" set ");
            push_decimal(&mut f, n as u64);
            f.append(" esp on");
            emit(out, f);
        } else if str_eq(role, "BIOS_BOOT") {
            let mut f = cat2("parted -s ", device);
            f.append(" set ");
            push_decimal(&mut f, n as u64);
            f.append(" bios_grub on");
            emit(out, f);
        }
        let path = Self::get_partition_path(device, n);
        emit(out, Self::format_partition(fs, path.as_str()));
        assert(out.deep_view() =~= start + partition_commands(*p, device@, n as nat));
    }

    /// Appends the manual layout's commands for `device`: the drawn
    /// partitions of the drive, in stable order of their starts.
    pub fn build_manual_partition_plan(state: &AppState, device: &str, part_cmds: &mut Vec<String>)
        requires
            state.disks.disks_partitions@.len() < u32::MAX,
        ensures
            exists|ord: Seq<int>| #[trigger] is_stable_order(start_keys(state.disks.disks_partitions@), ord)
                && final(part_cmds).deep_view() == old(part_cmds).deep_view() + manual_commands(*state, device@, ord),
    {
        let ghost start = part_cmds.deep_view();
        emit_prepare(state, device, part_cmds);
        let ghost prepared = part_cmds.deep_view();
        let ps = &state.disks.disks_partitions;
        let order = stable_start_order(ps);
        let ghost ord = order@.map_values(|i: usize| i as int);
        let ghost arr = arranged(ps@, ord);
        let n = order.len();
        let mut partition_number: u32 = 1;
        let mut k: usize = 0;
        assert(arr.skip(0) =~= arr);
        assert(prepared + Seq::<Seq<char>>::empty() =~= prepared);
        while k < n
            invariant
                n == order@.len(),
                n == ps@.len(),
                n < u32::MAX,
                ord == order@.map_values(|i: usize| i as int),
                is_stable_order(start_keys(ps@), ord),
                arr == arranged(ps@, ord),
                k <= n,
                1 <= partition_number <= k + 1,
                prepared + drawn_commands(arr, device@, 1) == part_cmds.deep_view() + drawn_commands(arr.skip(k as int), device@, partition_number as nat),
            decreases n - k,
        {
            let idx = order[k];
            assert(ord[k as int] == idx as int);
            let p = &ps[idx];
            assert(arr.skip(k as int)[0] == *p);
            assert(arr.skip(k as int).drop_first() =~= arr.skip(k + 1));
            let on_dev = match &p.name {
                Some(d) => str_eq(d.as_str(), device),
                None => true,
            };
            if on_dev {
                let ghost before = part_cmds.deep_view();
                Self::emit_partition(p, device, partition_number, part_cmds);
                assert(before + partition_commands(*p, device@, partition_number as nat) + drawn_commands(arr.skip(k + 1), device@, (partition_number + 1) as nat)
                    =~= before + (partition_commands(*p, device@, partition_number as nat) + drawn_commands(arr.skip(k + 1), device@, (partition_number + 1) as nat)));
                partition_number = partition_number + 1;
            }
            k = k + 1;
        }
        assert(arr.skip(n as int) =~= Seq::<DiskPartitionSpec>::empty());
        let ghost drawn_done = part_cmds.deep_view();
        emit(part_cmds, cat3("partprobe ", device, " || true"));
        emit(part_cmds, owned("udevadm settle"));
        proof {
            assert(drawn_done =~= prepared + drawn_commands(arr, device@, 1));
            assert(part_cmds.deep_view() =~= start + manual_commands(*state, device@, ord));
            assert(is_stable_order(start_keys(state.disks.disks_partitions@), ord));
        }
    }
}

/// How running one command of a plan went.
#[derive(Clone, Copy, Debug, PartialEq, Eq, Structural)]
pub enum CommandStatus {
    /// It ran and exited with success.
    Succeeded,
    /// It ran and failed.
    Failed,
    /// It could not be started.
    NotStarted,
}

/// The error that stops a run after a command that did not succeed;
/// `shown` is the command as it may be logged.
pub open spec fn command_error(status: CommandStatus, shown: Seq<char>) -> Option<Seq<char>> {
    match status {
        CommandStatus::Succeeded => None,
        CommandStatus::Failed => Some("Command failed: "@ + shown),
        CommandStatus::NotStarted => Some("Failed to run: "@ + shown),
    }
}

impl PartitioningService {
    /// The verdict on one command of a run: go on after a success, else
    /// stop with an error that names the command as `shown`.
    pub fn check_command(status: CommandStatus, shown: &str) -> (r: Result<(), String>)
        ensures
            r is Ok <==> status == CommandStatus::Succeeded,
            r matches Err(e) ==> command_error(status, shown@) == Some(e@),
    {
        match status {
            CommandStatus::Succeeded => Ok(()),
            CommandStatus::Failed => Err(cat2("Command failed: ", shown)),
            CommandStatus::NotStarted => Err(cat2("Failed to run: ", shown)),
        }
    }
}


// ---------------------------------------------------------------------
// Laws on the commands.
// ---------------------------------------------------------------------

/// Each file system is made by its own program: `mkfs.fat` with the FAT
/// size for the FAT types, `mkswap` for swap, `mkfs.<fs>` for btrfs,
/// ext2, ext3, xfs and f2fs, and `mkfs.ext4` for anything else.
pub proof fn lemma_format_runs_the_file_systems_program(fs: Seq<char>, path: Seq<char>)
    ensures
        fs == "fat32"@ ==> format_command(fs, path) == "mkfs.fat -F 32 "@ + path,
        fs == "fat16"@ ==> format_command(fs, path) == "mkfs.fat -F 16 "@ + path,
        fs == "fat12"@ ==> format_command(fs, path) == "mkfs.fat -F 12 "@ + path,
        fs == "linux-swap"@ ==> format_command(fs, path) == "mkswap "@ + path,
        fs == "btrfs"@ ==> format_command(fs, path) == "mkfs.btrfs -f "@ + path,
        fs == "ext2"@ ==> format_command(fs, path) == "mkfs.ext2 -F "@ + path,
        fs == "ext3"@ ==> format_command(fs, path) == "mkfs.ext3 -F "@ + path,
        fs == "ext4"@ ==> format_command(fs, path) == "mkfs.ext4 -F "@ + path,
        fs == "xfs"@ ==> format_command(fs, path) == "mkfs.xfs -f "@ + path,
        fs == "f2fs"@ ==> format_command(fs, path) == "mkfs.f2fs -f "@ + path,
{
    reveal_strlit("fat32");
    reveal_strlit("fat16");
    reveal_strlit("fat12");
    reveal_strlit("linux-swap");
    reveal_strlit("btrfs");
    reveal_strlit("ext2");
    reveal_strlit("ext3");
    reveal_strlit("ext4");
    reveal_strlit("xfs");
    reveal_strlit("f2fs");
    assert("ext4"@[3] != "fat32"@[3]);
    assert("ext4"@[0] != "fat16"@[0]);
    assert("ext4"@[0] != "fat12"@[0]);
    assert("ext4"@[0] != "btrfs"@[0]);
    assert("ext4"@[3] != "ext3"@[3]);
    assert("ext4"@[3] != "ext2"@[3]);
    assert("ext4"@[0] != "f2fs"@[0]);
    assert("ext3"@[3] != "ext2"@[3]);
    assert("ext3"@[0] != "f2fs"@[0]);
    assert("ext2"@[0] != "f2fs"@[0]);
    assert("fat32"@[3] != "fat16"@[3]);
    assert("fat32"@[3] != "fat12"@[3]);
    assert("fat16"@[4] != "fat12"@[4]);
    assert("fat32"@[0] != "btrfs"@[0]);
    assert("xfs"@.len() == 3 && "fat32"@.len() == 5 && "linux-swap"@.len() == 10 && "btrfs"@.len() == 5);
    assert("xfs"@ != "fat32"@ && "xfs"@ != "fat16"@ && "xfs"@ != "fat12"@ && "xfs"@ != "linux-swap"@);
    assert("xfs"@ != "btrfs"@ && "xfs"@ != "ext3"@ && "xfs"@ != "ext2"@ && "xfs"@ != "ext4"@);
    assert("fat16"@[0] != "btrfs"@[0]);
    assert("fat12"@[0] != "btrfs"@[0]);
}

/// A drawn partition is created with `parted` as partition `n`, and its
/// last command formats the partition's own device node with the file
/// system that the user chose (ext4 when none was chosen).
pub proof fn lemma_drawn_partition_formatted_as_chosen(p: DiskPartitionSpec, dev: Seq<char>, n: nat)
    ensures
        partition_commands(p, dev, n).len() >= 2,
        partition_commands(p, dev, n).last() == format_command(
            match p.fs { Some(f) => f@, None => "ext4"@ },
            partition_path(dev, n),
        ),
        has_prefix(partition_commands(p, dev, n)[0], "parted -s "@ + dev + " mkpart "@),
{
    let c = partition_commands(p, dev, n);
    let role = or_default(p.role, "OTHER"@);
    let fs = or_default(p.fs, "ext4"@);
    let start = parted_unit(or_default(p.start, "0"@));
    let size = parted_unit(or_default(p.size, "100%"@));
    let boot = role == "BOOT"@ || role == "EFI"@;
    let part_type = if boot { "ESP"@ } else if role == "SWAP"@ { "linux-swap"@ } else { "primary"@ };
    let first = "parted -s "@ + dev + " mkpart "@ + part_type + " "@ + fs + " "@ + start + " "@ + size;
    assert(c[0] == first);
    let pre = "parted -s "@ + dev + " mkpart "@;
    assert(first.subrange(0, pre.len() as int) =~= pre);
}

/// The partitions of the automatic layout are named by `partition_path`:
/// the boot partition is 1, swap (when on) is 2, and root follows it (3
/// with swap, else 2). On UEFI the ESP ends at 1025 MiB and the swap
/// partition spans the chosen number of GiB after it, root starting where
/// swap ends.
pub proof fn lemma_automatic_layout_partitions(s: AppState, dev: Seq<char>)
    ensures
        s.firmware_uefi ==> boot_commands(s, dev).last() == "mkfs.fat -F 32 "@ + partition_path(dev, 1),
        s.boot.swap_enabled ==> swap_commands(s, dev) == seq![
            "parted -s "@ + dev + " mkpart swap linux-swap "@ + (if s.firmware_uefi { "1025MiB"@ } else { "2MiB"@ })
                + " "@ + decimal(((if s.firmware_uefi { 1025int } else { 2int }) + s.boot.swap_size_gb * 1024) as nat)
                + "MiB"@,
            "mkswap "@ + partition_path(dev, 2),
        ],
        !s.boot.swap_enabled ==> swap_commands(s, dev).len() == 0,
        root_commands(s, dev)[0] == "parted -s "@ + dev + " mkpart root btrfs "@ + (if s.boot.swap_enabled {
            decimal(((if s.firmware_uefi { 1025int } else { 2int }) + s.boot.swap_size_gb * 1024) as nat) + "MiB"@
        } else if s.firmware_uefi {
            "1025MiB"@
        } else {
            "2MiB"@
        }) + " 100%"@,
        s.encryption.disk_encryption_type_index != 1 ==> root_commands(s, dev) == seq![
            root_commands(s, dev)[0],
            "mkfs.btrfs -f "@ + partition_path(dev, if s.boot.swap_enabled { 3 } else { 2 }),
        ],
        s.encryption.disk_encryption_type_index == 1 ==> root_commands(s, dev) == seq![
            root_commands(s, dev)[0],
            "cryptsetup luksFormat "@ + partition_path(dev, if s.boot.swap_enabled { 3 } else { 2 }),
            "cryptsetup open "@ + partition_path(dev, if s.boot.swap_enabled { 3 } else { 2 }) + " cryptroot"@,
            "mkfs.btrfs -f /dev/mapper/cryptroot"@,
        ],
{
    if s.boot.swap_enabled {
        let head = "parted -s "@ + dev + " mkpart swap linux-swap "@ + after_boot(s) + " "@;
        let n = decimal(((if s.firmware_uefi { 1025int } else { 2int }) + s.boot.swap_size_gb * 1024) as nat);
        assert(head + (n + "MiB"@) =~= head + n + "MiB"@);
        assert(swap_commands(s, dev) =~= seq![head + n + "MiB"@, "mkswap "@ + partition_path(dev, 2)]);
    }
}

/// A device name that ends in a digit gets `p` before the partition
/// number; any other gets the number directly.
pub proof fn lemma_partition_path_shape(dev: Seq<char>, n: nat)
    ensures
        dev.len() > 0 && '0' <= dev.last() && dev.last() <= '9' ==> partition_path(dev, n) == dev + "p"@ + decimal(n),
        !(dev.len() > 0 && '0' <= dev.last() && dev.last() <= '9') ==> partition_path(dev, n) == dev + decimal(n),
{
}


/// Preparing the drive wipes its signatures first when wiping is chosen,
/// then writes the chosen partition table (`gpt` when none is chosen).
pub proof fn lemma_prepare_wipes_and_labels(s: AppState, dev: Seq<char>)
    ensures
        s.disks.disks_wipe ==> prepare_commands(s, dev)[0] == "wipefs -a "@ + dev,
        prepare_commands(s, dev)[if s.disks.disks_wipe { 1int } else { 0int }] == "parted -s "@ + dev + " mklabel "@
            + (match s.disks.disks_label { Some(l) => l@, None => "gpt"@ }),
        prepare_commands(s, dev).len() == if s.disks.disks_wipe { 4nat } else { 3nat },
        boot_commands(s, dev)[0] == "parted -s "@ + dev + (if s.firmware_uefi { " mkpart ESP fat32 "@ } else { " mkpart biosboot "@ })
            + (match s.disks.disks_align { Some(a) => a@, None => "1MiB"@ })
            + (if s.firmware_uefi { " 1025MiB"@ } else { " 2MiB"@ }),
{
    let a = align_of(s);
    if s.firmware_uefi {
        assert("parted -s "@ + dev + " mkpart ESP fat32 "@ + a + " 1025MiB"@ =~= "parted -s "@ + dev + (" mkpart ESP fat32 "@) + a + " 1025MiB"@);
    }
}


/// A run goes on only after a command succeeded; a command that failed
/// stops it with `Command failed: ` and the command as shown, one that
/// could not be started with `Failed to run: ` and the command.
pub proof fn lemma_failed_commands_stop_the_run(status: CommandStatus, shown: Seq<char>)
    ensures
        command_error(status, shown) is None <==> status == CommandStatus::Succeeded,
        status == CommandStatus::Failed ==> command_error(status, shown) == Some("Command failed: "@ + shown),
        status == CommandStatus::NotStarted ==> command_error(status, shown) == Some("Failed to run: "@ + shown),
{
}

} // verus!
