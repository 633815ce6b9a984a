//! The option lists that the installer offers, read from what the live
//! system lists: keyboard layouts, locales and their encodings, the
//! mirror regions, and what the package manager says of packages.
use vstd::prelude::*;
use crate::sets::{sorted_strict, StringSet};
use crate::state::{AppState, LocaleState, MirrorState};
use crate::text::{
    all_ws, chars_of, first_match, has_prefix, lines_of, split_lines, split_words, str_starts_with, string_of_chars,
    trim_text, trimmed, trims_to_empty, words_of,
};

verus! {

/// The first word of each line that has one, in order.
pub open spec fn first_words(lines: Seq<Seq<char>>) -> Seq<Seq<char>>
    decreases lines.len(),
{
    if lines.len() == 0 {
        Seq::empty()
    } else {
        let p = first_words(lines.drop_last());
        let w = split_words(lines.last());
        if w.len() >= 1 { p.push(w[0]) } else { p }
    }
}

/// The second word of each line that has two, in order.
pub open spec fn second_words(lines: Seq<Seq<char>>) -> Seq<Seq<char>>
    decreases lines.len(),
{
    if lines.len() == 0 {
        Seq::empty()
    } else {
        let p = second_words(lines.drop_last());
        let w = split_words(lines.last());
        if w.len() >= 2 { p.push(w[1]) } else { p }
    }
}

/// Some line begins with `-`: the rule under a table's heading.
pub open spec fn rule_seen(lines: Seq<Seq<char>>) -> bool {
    exists|i: int| 0 <= i < lines.len() && has_prefix(#[trigger] lines[i], "-"@)
}

/// The rows of a table listing: every line that is not blank and comes
/// after the first line that begins with `-`.
pub open spec fn table_rows(lines: Seq<Seq<char>>) -> Seq<Seq<char>>
    decreases lines.len(),
{
    if lines.len() == 0 {
        Seq::empty()
    } else {
        let p = table_rows(lines.drop_last());
        let l = lines.last();
        if rule_seen(lines.drop_last()) && !all_ws(l) { p.push(l) } else { p }
    }
}

/// The first word of each line of `lines`.
fn first_words_of(lines: &Vec<String>) -> (r: Vec<String>)
    ensures
        r.deep_view() == first_words(lines.deep_view()),
{
    let ghost all = lines.deep_view();
    let mut r: Vec<String> = Vec::new();
    let mut i: usize = 0;
    assert(all.take(0) =~= Seq::<Seq<char>>::empty());
    while i < lines.len()
        invariant
            i <= lines.len(),
            all == lines.deep_view(),
            r.deep_view() == first_words(all.take(i as int)),
        decreases lines.len() - i,
    {
        assert(all.take(i + 1).drop_last() =~= all.take(i as int));
        let w = words_of(lines[i].as_str());
        if w.len() >= 1 {
            r.push(w[0].clone());
            assert(r.deep_view() =~= first_words(all.take(i + 1)));
        }
        i = i + 1;
    }
    assert(all.take(lines.len() as int) =~= all);
    r
}

/// The distinct second words of the lines of `lines`, in ascending order.
fn second_words_of(lines: &Vec<String>) -> (r: Vec<String>)
    ensures
        sorted_strict(r.deep_view()),
        forall|e: Seq<char>| r.deep_view().contains(e) <==> second_words(lines.deep_view()).contains(e),
{
    let ghost all = lines.deep_view();
    let mut set = StringSet::new();
    let mut i: usize = 0;
    assert(all.take(0) =~= Seq::<Seq<char>>::empty());
    while i < lines.len()
        invariant
            i <= lines.len(),
            all == lines.deep_view(),
            forall|e: Seq<char>| set@.contains(e) <==> second_words(all.take(i as int)).contains(e),
        decreases lines.len() - i,
    {
        let ghost cur = all.take(i + 1);
        assert(cur.drop_last() =~= all.take(i as int));
        let w = words_of(lines[i].as_str());
        if w.len() >= 2 {
            let e = w[1].clone();
            set.insert(e);
            assert forall|x: Seq<char>| set@.contains(x) <==> second_words(cur).contains(x) by {
                let prev = second_words(all.take(i as int));
                assert(second_words(cur) == prev.push(w.deep_view()[1]));
                if x == w.deep_view()[1] {
                    assert(prev.push(x)[prev.len() as int] == x);
                } else if prev.push(w.deep_view()[1]).contains(x) {
                    let k = choose|k: int| 0 <= k < prev.len() + 1 && prev.push(w.deep_view()[1])[k] == x;
                    assert(prev[k] == x);
                } else if prev.contains(x) {
                    let k = choose|k: int| 0 <= k < prev.len() && prev[k] == x;
                    assert(prev.push(w.deep_view()[1])[k] == x);
                }
            }
        }
        i = i + 1;
    }
    assert(all.take(lines.len() as int) =~= all);
    let r = set.into_items();
    r
}

/// The rows of the table that `listing` lays out (see `table_rows`).
fn table_rows_of(listing: &str) -> (r: Vec<String>)
    ensures
        r.deep_view() == table_rows(split_lines(listing@)),
{
    let lines = lines_of(listing);
    let ghost all = lines.deep_view();
    let mut r: Vec<String> = Vec::new();
    let mut seen = false;
    let mut i: usize = 0;
    assert(all.take(0) =~= Seq::<Seq<char>>::empty());
    while i < lines.len()
        invariant
            i <= lines.len(),
            all == lines.deep_view(),
            seen == rule_seen(all.take(i as int)),
            r.deep_view() == table_rows(all.take(i as int)),
        decreases lines.len() - i,
    {
        let ghost pre = all.take(i as int);
        let ghost cur = all.take(i + 1);
        assert(cur.drop_last() =~= pre);
        let line = lines[i].as_str();
        if seen && !trims_to_empty(line) {
            r.push(lines[i].clone());
        }
        assert(r.deep_view() =~= table_rows(cur));
        let rule = str_starts_with(line, "-");
        proof {
            if rule {
                assert(has_prefix(cur[i as int], "-"@));
            }
            if rule_seen(pre) {
                let k = choose|k: int| 0 <= k < pre.len() && has_prefix(#[trigger] pre[k], "-"@);
                assert(cur[k] == pre[k]);
            }
            if rule_seen(cur) && !rule {
                let k = choose|k: int| 0 <= k < cur.len() && has_prefix(#[trigger] cur[k], "-"@);
                assert(k != i);
                assert(pre[k] == cur[k]);
            }
        }
        seen = seen || rule;
        i = i + 1;
    }
    assert(all.take(lines.len() as int) =~= all);
    r
}

/// The lines of a listing that are not blank, trimmed, in order (a
/// package group's members, one per line).
pub open spec fn listed_items(lines: Seq<Seq<char>>) -> Seq<Seq<char>>
    decreases lines.len(),
{
    if lines.len() == 0 {
        Seq::empty()
    } else {
        let p = listed_items(lines.drop_last());
        let l = lines.last();
        if all_ws(l) { p } else { p.push(trimmed(l)) }
    }
}

/// The items of a listing with one item per line (see `listed_items`).
pub fn listing_items(listing: &str) -> (r: Vec<String>)
    ensures
        r.deep_view() == listed_items(split_lines(listing@)),
{
    let lines = lines_of(listing);
    let ghost all = lines.deep_view();
    let mut r: Vec<String> = Vec::new();
    let mut i: usize = 0;
    assert(all.take(0) =~= Seq::<Seq<char>>::empty());
    while i < lines.len()
        invariant
            i <= lines.len(),
            all == lines.deep_view(),
            r.deep_view() == listed_items(all.take(i as int)),
        decreases lines.len() - i,
    {
        assert(all.take(i + 1).drop_last() =~= all.take(i as int));
        let line = lines[i].as_str();
        if !trims_to_empty(line) {
            r.push(trim_text(line));
        }
        assert(r.deep_view() =~= listed_items(all.take(i + 1)));
        i = i + 1;
    }
    assert(all.take(lines.len() as int) =~= all);
    r
}

/// A text without its leading spaces and colons.
pub open spec fn skip_separator(s: Seq<char>) -> Seq<char>
    decreases s.len(),
{
    if s.len() > 0 && (s[0] == ' ' || s[0] == ':') { skip_separator(s.drop_first()) } else { s }
}

/// The value of a `Key : value` line whose key is `key`.
pub open spec fn field_value(line: Seq<char>, key: Seq<char>) -> Seq<char> {
    trimmed(skip_separator(line.skip(key.len() as int)))
}

/// The name that a package's description (`pacman -Si`) gives: the value
/// of its first line that begins with `Name`, if it has one.
pub open spec fn described_name(lines: Seq<Seq<char>>) -> Option<Seq<char>> {
    match first_match(lines.len() as int, |i: int| has_prefix(lines[i], "Name"@)) {
        Some(i) => Some(field_value(lines[i], "Name"@)),
        None => None,
    }
}

/// The value of the line `line`, which begins with `key` (see `field_value`).
fn field_value_of(line: &str, key: &str) -> (r: String)
    requires
        has_prefix(line@, key@),
    ensures
        r@ == field_value(line@, key@),
{
    let v = chars_of(line);
    let k = key.unicode_len();
    let mut j: usize = k;
    assert(line@.skip(k as int) =~= line@.subrange(k as int, v.len() as int));
    while j < v.len() && (v[j] == ' ' || v[j] == ':')
        invariant
            v@ == line@,
            k <= j <= v.len(),
            skip_separator(line@.skip(k as int)) == skip_separator(line@.subrange(j as int, v.len() as int)),
        decreases v.len() - j,
    {
        assert(line@.subrange(j as int, v.len() as int).drop_first() =~= line@.subrange(j + 1, v.len() as int));
        j = j + 1;
    }
    let mut rest: Vec<char> = Vec::new();
    let mut m: usize = j;
    while m < v.len()
        invariant
            v@ == line@,
            j <= m <= v.len(),
            rest@ == line@.subrange(j as int, m as int),
        decreases v.len() - m,
    {
        rest.push(v[m]);
        assert(rest@ =~= line@.subrange(j as int, m + 1));
        m = m + 1;
    }
    let s = string_of_chars(&rest);
    trim_text(s.as_str())
}

/// The name that a package's description gives (see `described_name`).
pub fn package_name_from_info(info: &str) -> (r: Option<String>)
    ensures
        r.deep_view() == described_name(split_lines(info@)),
{
    let lines = lines_of(info);
    let ghost all = lines.deep_view();
    let mut i: usize = 0;
    while i < lines.len()
        invariant
            i <= lines.len(),
            all == lines.deep_view(),
            all == split_lines(info@),
            forall|k: int| 0 <= k < i ==> !has_prefix(#[trigger] all[k], "Name"@),
        decreases lines.len() - i,
    {
        assert(all[i as int] == lines@[i as int]@);
        if str_starts_with(lines[i].as_str(), "Name") {
            proof {
                let p = |k: int| has_prefix(split_lines(info@)[k], "Name"@);
                crate::text::lemma_first_match_at(all.len() as int, p, i as int);
            }
            let v = field_value_of(lines[i].as_str(), "Name");
            return Some(v);
        }
        i = i + 1;
    }
    proof {
        let p = |k: int| has_prefix(split_lines(info@)[k], "Name"@);
        crate::text::lemma_first_match_none(all.len() as int, p);
    }
    None
}


/// The rows of a table listing are lines of the listing, none of them
/// blank, and a listing without a rule line has no rows.
pub proof fn lemma_table_rows_are_listed_lines(lines: Seq<Seq<char>>)
    ensures
        forall|k: int| 0 <= k < table_rows(lines).len() ==> !all_ws(#[trigger] table_rows(lines)[k])
            && lines.contains(table_rows(lines)[k]),
        !rule_seen(lines) ==> table_rows(lines).len() == 0,
        table_rows(lines).len() <= lines.len(),
    decreases lines.len(),
{
    if lines.len() > 0 {
        let pre = lines.drop_last();
        lemma_table_rows_are_listed_lines(pre);
        let p = table_rows(pre);
        assert forall|k: int| 0 <= k < p.len() implies lines.contains(#[trigger] p[k]) by {
            let j = choose|j: int| 0 <= j < pre.len() && pre[j] == p[k];
            assert(lines[j] == p[k]);
        }
        assert(lines[lines.len() - 1] == lines.last());
        if !rule_seen(lines) {
            assert(!rule_seen(pre)) by {
                if rule_seen(pre) {
                    let j = choose|j: int| 0 <= j < pre.len() && has_prefix(#[trigger] pre[j], "-"@);
                    assert(lines[j] == pre[j]);
                }
            }
        }
    }
}

/// The items of a listing are its non-blank lines, trimmed: each has no
/// whitespace at either end and is not empty.
pub proof fn lemma_listed_items_trimmed(lines: Seq<Seq<char>>)
    ensures
        forall|k: int| 0 <= k < listed_items(lines).len() ==> exists|j: int| 0 <= j < lines.len()
            && !all_ws(lines[j]) && #[trigger] listed_items(lines)[k] == trimmed(lines[j]),
        listed_items(lines).len() <= lines.len(),
    decreases lines.len(),
{
    if lines.len() > 0 {
        let pre = lines.drop_last();
        lemma_listed_items_trimmed(pre);
        let p = listed_items(pre);
        assert forall|k: int| 0 <= k < listed_items(lines).len() implies exists|j: int| 0 <= j < lines.len()
            && !all_ws(lines[j]) && #[trigger] listed_items(lines)[k] == trimmed(lines[j]) by {
            if k < p.len() {
                let j = choose|j: int| 0 <= j < pre.len() && !all_ws(pre[j]) && p[k] == trimmed(pre[j]);
                assert(lines[j] == pre[j]);
                assert(listed_items(lines)[k] == p[k]);
            } else {
                assert(listed_items(lines)[k] == trimmed(lines[lines.len() - 1]));
            }
        }
    }
}

impl AppState {
    /// Fills the locale lists: the keyboard layouts are the words of a
    /// keymap listing (one layout per line); the languages are the first
    /// word of each line of a list of supported locales (lines such as
    /// `en_US.UTF-8 UTF-8`), the encodings the distinct second words,
    /// in ascending order. Nothing else changes.
    pub fn load_locale_options(&mut self, keymaps: &str, supported: &str)
        ensures
            *final(self) == (AppState { locales: final(self).locales, ..*old(self) }),
            final(self).locales == (LocaleState {
                keyboard_layout_options: final(self).locales.keyboard_layout_options,
                locale_language_options: final(self).locales.locale_language_options,
                locale_encoding_options: final(self).locales.locale_encoding_options,
                ..old(self).locales
            }),
            final(self).locales.keyboard_layout_options.deep_view() == split_words(keymaps@),
            final(self).locales.locale_language_options.deep_view() == first_words(split_lines(supported@)),
            sorted_strict(final(self).locales.locale_encoding_options.deep_view()),
            forall|e: Seq<char>|
                final(self).locales.locale_encoding_options.deep_view().contains(e)
                    <==> second_words(split_lines(supported@)).contains(e),
    {
        let lines = lines_of(supported);
        self.locales.keyboard_layout_options = words_of(keymaps);
        self.locales.locale_language_options = first_words_of(&lines);
        self.locales.locale_encoding_options = second_words_of(&lines);
    }

    /// Fills the mirror regions with the rows of a country listing (a
    /// table whose heading is underlined by a rule of `-`), and marks
    /// them loaded. Nothing else changes.
    pub fn load_mirror_options(&mut self, listing: &str)
        ensures
            *final(self) == (AppState { mirrors: final(self).mirrors, ..*old(self) }),
            final(self).mirrors == (MirrorState {
                mirrors_regions_options: final(self).mirrors.mirrors_regions_options,
                mirrors_loaded: true,
                ..old(self).mirrors
            }),
            final(self).mirrors.mirrors_regions_options.deep_view() == table_rows(split_lines(listing@)),
    {
        self.mirrors.mirrors_regions_options = table_rows_of(listing);
        self.mirrors.mirrors_loaded = true;
    }
}

} // verus!
