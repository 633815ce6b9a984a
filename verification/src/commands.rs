//! Building blocks of command lists: appending commands and wrapping a
//! command so that it runs inside the installed system.
use vstd::prelude::*;
use crate::text::{escape_quotes, escape_single_quotes, has_substring, owned, str_contains};

verus! {

/// The command that runs `inner` inside the new system under `/mnt`,
/// quoted for `bash -lc '...'`.
pub open spec fn chroot(inner: Seq<char>) -> Seq<char> {
    "arch-chroot /mnt bash -lc '"@ + escape_quotes(inner) + "'"@
}

/// Wraps a command to run inside the new system (see `chroot`).
pub fn chroot_cmd(inner: &str) -> (r: String)
    ensures
        r@ == chroot(inner@),
{
    let escaped = escape_single_quotes(inner);
    let mut r = owned("arch-chroot /mnt bash -lc '");
    r.append(escaped.as_str());
    r.append("'");
    r
}

/// Appends `s` to the command list.
pub fn emit(out: &mut Vec<String>, s: String)
    ensures
        final(out).deep_view() == old(out).deep_view().push(s@),
{
    out.push(s);
    assert(final(out).deep_view() =~= old(out).deep_view().push(s@));
}

/// `a + b` as a fresh text.
pub fn cat2(a: &str, b: &str) -> (r: String)
    ensures
        r@ == a@ + b@,
{
    let mut r = owned(a);
    r.append(b);
    r
}

/// `a + b + c` as a fresh text.
pub fn cat3(a: &str, b: &str, c: &str) -> (r: String)
    ensures
        r@ == a@ + b@ + c@,
{
    let mut r = owned(a);
    r.append(b);
    r.append(c);
    r
}

/// `a + b + c + d` as a fresh text.
pub fn cat4(a: &str, b: &str, c: &str, d: &str) -> (r: String)
    ensures
        r@ == a@ + b@ + c@ + d@,
{
    let mut r = owned(a);
    r.append(b);
    r.append(c);
    r.append(d);
    r
}

/// `seq![c]` when `b` holds, else nothing.
pub open spec fn only_if(b: bool, c: Seq<char>) -> Seq<Seq<char>> {
    if b { seq![c] } else { Seq::empty() }
}

/// Appends `c` when `b` holds.
pub fn emit_when(b: bool, c: &str, out: &mut Vec<String>)
    ensures
        final(out).deep_view() == old(out).deep_view() + only_if(b, c@),
{
    if b {
        emit(out, owned(c));
    }
    assert(final(out).deep_view() =~= old(out).deep_view() + only_if(b, c@));
}

// ---------------------------------------------------------------------
// How the shell reads a single-quoted word.
// ---------------------------------------------------------------------

/// `Some(pre + r)` when `o` is `Some(r)`.
pub open spec fn prepended(pre: Seq<char>, o: Option<Seq<char>>) -> Option<Seq<char>> {
    match o {
        Some(r) => Some(pre + r),
        None => None,
    }
}

/// How a POSIX shell reads a word made of single-quoted parts and
/// backslash-escaped characters, `quoted` telling whether a single quote
/// is open. Inside quotes every character stands for itself up to the
/// closing quote; outside, `'` opens a quoted part and a backslash makes
/// the next character stand for itself. A word with any other unquoted
/// character, or with a quote left open, is not of this shape (`None`).
pub open spec fn read_word(w: Seq<char>, quoted: bool) -> Option<Seq<char>>
    decreases w.len(),
{
    if w.len() == 0 {
        if quoted { None } else { Some(Seq::empty()) }
    } else if quoted {
        if w[0] == '\'' {
            read_word(w.drop_first(), false)
        } else {
            prepended(seq![w[0]], read_word(w.drop_first(), true))
        }
    } else if w[0] == '\'' {
        read_word(w.drop_first(), true)
    } else if w[0] == '\\' && w.len() >= 2 && w[1] != '\n' {
        prepended(seq![w[1]], read_word(w.skip(2), false))
    } else {
        None
    }
}

/// `pre`, then `x` with its quotes escaped, then `post`, all between
/// single quotes: the word that stands for `pre + x + post`.
pub open spec fn quoted_word(pre: Seq<char>, x: Seq<char>, post: Seq<char>) -> Seq<char> {
    seq!['\''] + pre + escape_quotes(x) + post + seq!['\'']
}

proof fn lemma_prepended_twice(a: Seq<char>, b: Seq<char>, o: Option<Seq<char>>)
    ensures
        prepended(a, prepended(b, o)) == prepended(a + b, o),
{
    if let Some(r) = o {
        assert(a + (b + r) =~= (a + b) + r);
    }
}

/// Text without quotes reads as itself inside a quoted part.
proof fn lemma_read_literal(t: Seq<char>, rest: Seq<char>)
    requires
        !t.contains('\''),
    ensures
        read_word(t + rest, true) == prepended(t, read_word(rest, true)),
    decreases t.len(),
{
    if t.len() == 0 {
        assert(t + rest =~= rest);
        assert(prepended(t, read_word(rest, true)) == read_word(rest, true)) by {
            if let Some(r) = read_word(rest, true) {
                assert(t + r =~= r);
            }
        }
    } else {
        let w = t + rest;
        assert(w[0] == t[0]);
        assert(t[0] != '\'') by {
            assert(t.contains(t[0]) || t[0] != '\'');
        }
        assert(w.drop_first() =~= t.drop_first() + rest);
        assert(!t.drop_first().contains('\'')) by {
            if t.drop_first().contains('\'') {
                let k = choose|k: int| 0 <= k < t.drop_first().len() && t.drop_first()[k] == '\'';
                assert(t[k + 1] == '\'');
            }
        }
        lemma_read_literal(t.drop_first(), rest);
        lemma_prepended_twice(seq![t[0]], t.drop_first(), read_word(rest, true));
        assert(seq![t[0]] + t.drop_first() =~= t);
    }
}

/// Escaped text reads back as the text itself inside a quoted part.
proof fn lemma_read_escaped(x: Seq<char>, rest: Seq<char>)
    ensures
        read_word(escape_quotes(x) + rest, true) == prepended(x, read_word(rest, true)),
    decreases x.len(),
{
    if x.len() == 0 {
        assert(escape_quotes(x) + rest =~= rest);
        if let Some(r) = read_word(rest, true) {
            assert(x + r =~= r);
        }
    } else {
        let c = x.last();
        let piece = if c == '\'' { seq!['\'', '\\', '\'', '\''] } else { seq![c] };
        assert(escape_quotes(x) + rest =~= escape_quotes(x.drop_last()) + (piece + rest));
        lemma_read_escaped(x.drop_last(), piece + rest);
        let w = piece + rest;
        if c == '\'' {
            assert(w[0] == '\'');
            let w1 = w.drop_first();
            assert(w1[0] == '\\' && w1[1] == '\'' && w1.len() >= 2);
            let w2 = w1.skip(2);
            assert(w2[0] == '\'');
            assert(w2.drop_first() =~= rest);
            assert(read_word(w2, false) == read_word(rest, true));
            assert(read_word(w1, false) == prepended(seq![w1[1]], read_word(w2, false)));
            assert(read_word(w, true) == read_word(w1, false));
            assert(seq![w1[1]] =~= seq![c]);
        } else {
            assert(w[0] == c);
            assert(w.drop_first() =~= rest);
            assert(read_word(w, true) == prepended(seq![c], read_word(rest, true)));
        }
        lemma_prepended_twice(x.drop_last(), seq![c], read_word(rest, true));
        assert(x.drop_last() + seq![c] =~= x);
    }
}

/// A quoted word reads back as exactly `pre + x + post`, whatever `x`
/// holds, when the fixed parts `pre` and `post` hold no quote: no quote in
/// `x` can end the quoting early.
pub proof fn lemma_quoted_word_reads_back(pre: Seq<char>, x: Seq<char>, post: Seq<char>)
    requires
        !pre.contains('\''),
        !post.contains('\''),
    ensures
        read_word(quoted_word(pre, x, post), false) == Some(pre + x + post),
{
    let w = quoted_word(pre, x, post);
    let close = seq!['\''];
    assert(w[0] == '\'');
    assert(w.drop_first() =~= pre + (escape_quotes(x) + (post + close)));
    lemma_read_literal(pre, escape_quotes(x) + (post + close));
    lemma_read_escaped(x, post + close);
    lemma_read_literal(post, close);
    assert(close.drop_first() =~= Seq::<char>::empty());
    assert(read_word(close.drop_first(), false) == Some(Seq::<char>::empty()));
    assert(read_word(close, true) == Some(Seq::<char>::empty()));
    assert(post + Seq::<char>::empty() =~= post);
    lemma_prepended_twice(x, post, read_word(close, true));
    lemma_prepended_twice(pre, x + post, read_word(close, true));
    assert(pre + (x + post) =~= pre + x + post);
}

/// The command that runs `inner` inside the new system hands `bash -lc`
/// one word that the shell reads back as exactly `inner`: the quotes in
/// `inner` cannot end the quoting early.
pub proof fn lemma_chroot_reads_back(inner: Seq<char>)
    ensures
        chroot(inner) == "arch-chroot /mnt bash -lc "@ + quoted_word(Seq::empty(), inner, Seq::empty()),
        read_word(quoted_word(Seq::empty(), inner, Seq::empty()), false) == Some(inner),
{
    reveal_strlit("arch-chroot /mnt bash -lc '");
    reveal_strlit("arch-chroot /mnt bash -lc ");
    reveal_strlit("'");
    assert(chroot(inner) =~= "arch-chroot /mnt bash -lc "@ + quoted_word(Seq::empty(), inner, Seq::empty()));
    lemma_quoted_word_reads_back(Seq::empty(), inner, Seq::empty());
    assert(Seq::<char>::empty() + inner + Seq::<char>::empty() =~= inner);
}

/// How a command may appear in logs and error messages: a command that
/// sets a password (it feeds `chpasswd`) is shown only as that, so the
/// password never reaches a log.
pub open spec fn logged_command(c: Seq<char>) -> Seq<char> {
    if has_substring(c, "chpasswd"@) { "<password change redacted> | chpasswd"@ } else { c }
}

/// A command as it may be logged (see `logged_command`).
pub fn redact_command_for_logging(c: &str) -> (r: String)
    ensures
        r@ == logged_command(c@),
{
    if str_contains(c, "chpasswd") {
        owned("<password change redacted> | chpasswd")
    } else {
        owned(c)
    }
}


/// A command that feeds `chpasswd` is logged the same whatever else it
/// holds (so no password it carries reaches a log); any other command is
/// logged as it is.
pub proof fn lemma_password_commands_logged_alike(c1: Seq<char>, c2: Seq<char>)
    ensures
        has_substring(c1, "chpasswd"@) && has_substring(c2, "chpasswd"@) ==> logged_command(c1) == logged_command(c2),
        !has_substring(c1, "chpasswd"@) ==> logged_command(c1) == c1,
{
}

} // verus!
