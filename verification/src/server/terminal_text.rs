//! Text with colours for a terminal: how wide it shows, and fitting it into boxes.

use vstd::prelude::*;
use vstd::string::StringExecFns;

use crate::text::{chars_of, pad_right, padded_right, repeat_char, repeated, text_of};

verus! {

pub const BRAND_A: &'static str = "\x1b[38;2;218;78;138m";

pub const BRAND_B: &'static str = "\x1b[38;2;82;184;205m";

pub const ACCENT_AMBER: &'static str = "\x1b[38;2;226;136;68m";

pub const BLOOM_BONE: &'static str = "\x1b[38;2;226;204;184m";

pub const DIM: &'static str = "\x1b[38;2;116;98;104m";

pub const PANEL_HI: &'static str = "\x1b[38;2;70;56;64m";

pub const BOLD: &'static str = "\x1b[1m";

pub const RESET: &'static str = "\x1b[0m";

// Escapes

/// A letter of the Latin alphabet.
pub open spec fn is_letter(c: char) -> bool {
    ('a' <= c <= 'z') || ('A' <= c <= 'Z')
}

/// The text begins with an escape.
pub open spec fn begins_escape(s: Seq<char>) -> bool {
    s.len() >= 2 && s[0] == '\x1b' && s[1] == '['
}

/// How much of `s` belongs to an escape whose opening came before: up to its first letter, or all of
/// it where there is none.
pub open spec fn escape_tail(s: Seq<char>) -> nat
    decreases s.len(),
{
    if s.len() == 0 {
        0
    } else if is_letter(s[0]) {
        1
    } else {
        1 + escape_tail(s.skip(1))
    }
}

/// How many characters the escape takes with which `s` begins.
pub open spec fn escape_len(s: Seq<char>) -> nat {
    2 + escape_tail(s.skip(2))
}

/// An escape tail lies within its text.
pub proof fn lemma_escape_tail(s: Seq<char>)
    ensures
        escape_tail(s) <= s.len(),
        s.len() > 0 ==> escape_tail(s) > 0,
    decreases s.len(),
{
    if s.len() > 0 && !is_letter(s[0]) {
        lemma_escape_tail(s.skip(1));
    }
}

/// How many characters of `s` are seen: all but those of escapes.
pub open spec fn visible_width(s: Seq<char>) -> nat
    decreases s.len(),
{
    if s.len() == 0 {
        0
    } else if begins_escape(s) {
        proof {
            lemma_escape_tail(s.skip(2));
        }
        visible_width(s.skip(escape_len(s) as int))
    } else {
        1 + visible_width(s.skip(1))
    }
}

/// `s` up to its `n`th visible character, with the escapes on the way.
pub open spec fn visible_prefix(s: Seq<char>, n: nat) -> Seq<char>
    decreases s.len(),
{
    if s.len() == 0 {
        Seq::empty()
    } else if begins_escape(s) {
        proof {
            lemma_escape_tail(s.skip(2));
        }
        s.take(escape_len(s) as int) + visible_prefix(s.skip(escape_len(s) as int), n)
    } else if n > 0 {
        seq![s[0]] + visible_prefix(s.skip(1), (n - 1) as nat)
    } else {
        Seq::empty()
    }
}

/// `s` where it fits into `width`; else as much of it as fits, with an ellipsis in the last place.
pub open spec fn truncated(s: Seq<char>, width: nat) -> Seq<char> {
    if visible_width(s) <= width {
        s
    } else {
        visible_prefix(
            s,
            (if width > 0 {
                (width - 1) as nat
            } else {
                0
            }),
        ) + seq!['…'] + RESET@
    }
}

/// The place behind the escape that begins at `i`.
fn skip_escape(chars: &Vec<char>, i: usize) -> (r: usize)
    requires
        i <= chars@.len(),
        begins_escape(chars@.skip(i as int)),
    ensures
        r == i + escape_len(chars@.skip(i as int)),
        i < r <= chars@.len(),
{
    let ghost s = chars@;
    let n: usize = chars.len();
    assert(i + 2 <= n);
    let mut j: usize = i + 2;
    proof {
        assert(s.skip(i as int).skip(2) =~= s.skip(i as int + 2));
        lemma_escape_tail(s.skip(i as int + 2));
    }
    while j < chars.len()
        invariant_except_break
            s == chars@,
            i + 2 <= j <= s.len(),
            j + escape_tail(s.skip(j as int)) == i + escape_len(s.skip(i as int)),
        ensures
            j == i + escape_len(s.skip(i as int)),
            i + 2 <= j <= s.len(),
        decreases s.len() - j,
    {
        let c = chars[j];
        assert(s.skip(j as int)[0] == c);
        assert(s.skip(j as int).skip(1) =~= s.skip(j as int + 1));
        j = j + 1;
        if ('a' <= c && c <= 'z') || ('A' <= c && c <= 'Z') {
            break;
        }
    }
    j
}

/// How many characters of `s` are seen.
pub fn visible_len(s: &str) -> (r: usize)
    ensures
        r == visible_width(s@),
{
    let chars = chars_of(s);
    let ghost t = s@;
    let mut n: usize = 0;
    let mut i: usize = 0;
    assert(t.skip(0) =~= t);
    while i < chars.len()
        invariant
            chars@ == t,
            n <= i <= t.len(),
            n + visible_width(t.skip(i as int)) == visible_width(t),
        decreases t.len() - i,
    {
        let ghost rest = t.skip(i as int);
        assert(rest[0] == t[i as int]);
        assert(i + 1 < t.len() ==> rest[1] == t[i as int + 1]);
        if chars[i] == '\x1b' && i + 1 < chars.len() && chars[i + 1] == '[' {
            let j: usize = skip_escape(&chars, i);
            assert(rest.skip(escape_len(rest) as int) =~= t.skip(j as int));
            i = j;
        } else {
            assert(rest.skip(1) =~= t.skip(i as int + 1));
            n = n + 1;
            i = i + 1;
        }
    }
    n
}

/// `s` where it fits into `width`; else as much of it as fits, with an ellipsis in the last place.
pub fn truncate_visible(s: &str, width: usize) -> (r: String)
    ensures
        r@ == truncated(s@, width as nat),
{
    if visible_len(s) <= width {
        return s.to_string();
    }
    let target: usize = width.saturating_sub(1);
    let chars = chars_of(s);
    let ghost t = s@;
    let ghost want = visible_prefix(t, target as nat);
    let mut out = String::new();
    let mut n: usize = 0;
    let mut i: usize = 0;
    assert(t.skip(0) =~= t);
    assert(out@ + want =~= want);
    while i < chars.len()
        invariant
            chars@ == t,
            i <= t.len(),
            n <= target,
            want == visible_prefix(t, target as nat),
            out@ + visible_prefix(t.skip(i as int), (target - n) as nat) == want,
        ensures
            out@ == want,
        decreases t.len() - i,
    {
        let ghost rest = t.skip(i as int);
        let ghost before = out@;
        assert(rest[0] == t[i as int]);
        assert(i + 1 < t.len() ==> rest[1] == t[i as int + 1]);
        if chars[i] == '\x1b' && i + 1 < chars.len() && chars[i + 1] == '[' {
            let j: usize = skip_escape(&chars, i);
            assert(rest.skip(escape_len(rest) as int) =~= t.skip(j as int));
            assert(rest.take(escape_len(rest) as int) =~= t.subrange(i as int, j as int));
            out.append(text_of(&chars, i, j).as_str());
            assert(out@ + visible_prefix(t.skip(j as int), (target - n) as nat) =~= before
                + visible_prefix(rest, (target - n) as nat));
            i = j;
        } else if n < target {
            assert(rest.skip(1) =~= t.skip(i as int + 1));
            out.push(chars[i]);
            assert(out@ + visible_prefix(t.skip(i as int + 1), (target - n - 1) as nat) =~= before
                + visible_prefix(rest, (target - n) as nat));
            n = n + 1;
            i = i + 1;
        } else {
            assert(out@ + Seq::<char>::empty() =~= out@);
            break;
        }
        assert(i == t.len() ==> t.skip(i as int) =~= Seq::<char>::empty());
        assert(out@ + Seq::<char>::empty() =~= out@);
    }
    out.push('…');
    assert(out@ =~= want + seq!['…']);
    out.append(RESET);
    out
}

// Boxes

/// `n` less `k`, none below zero.
pub open spec fn less(n: nat, k: nat) -> nat {
    if n >= k {
        (n - k) as nat
    } else {
        0
    }
}

/// `content` in a row of a box that is `width` wide.
pub open spec fn boxed(content: Seq<char>, width: nat) -> Seq<char> {
    let inner = less(width, 4);
    let shown = truncated(content, inner);
    PANEL_HI@ + "│"@ + RESET@ + " "@ + shown + repeated(' ', less(inner, visible_width(shown))) + " "@
        + PANEL_HI@ + "│"@ + RESET@
}

/// `content` in a row of a box that is `width` wide.
pub fn boxed_line(content: &str, width: usize) -> (r: String)
    ensures
        r@ == boxed(content@, width as nat),
{
    let inner: usize = width.saturating_sub(4);
    let shown = truncate_visible(content, inner);
    let pad: usize = inner.saturating_sub(visible_len(shown.as_str()));
    let mut out = PANEL_HI.to_string();
    out.append("│");
    out.append(RESET);
    out.append(" ");
    out.append(shown.as_str());
    out.append(repeat_char(' ', pad).as_str());
    out.append(" ");
    out.append(PANEL_HI);
    out.append("│");
    out.append(RESET);
    out
}

/// The top of a box that is `width` wide.
pub open spec fn box_top(title: Seq<char>, width: nat) -> Seq<char> {
    let label = "─ "@ + title + " "@;
    PANEL_HI@ + "┌"@ + label + repeated('─', less(less(width, 2), visible_width(label))) + "┐"@
        + RESET@
}

/// The top of a box that is `width` wide.
pub fn panel_top(title: &str, width: usize) -> (r: String)
    ensures
        r@ == box_top(title@, width as nat),
{
    let inner: usize = width.saturating_sub(2);
    let mut label = "─ ".to_string();
    label.append(title);
    label.append(" ");
    let fill: usize = inner.saturating_sub(visible_len(label.as_str()));
    let mut out = PANEL_HI.to_string();
    out.append("┌");
    out.append(label.as_str());
    out.append(repeat_char('─', fill).as_str());
    out.append("┐");
    out.append(RESET);
    out
}

/// The bottom of a box that is `width` wide.
pub open spec fn box_bottom(width: nat) -> Seq<char> {
    PANEL_HI@ + "└"@ + repeated('─', less(width, 2)) + "┘"@ + RESET@
}

/// The bottom of a box that is `width` wide.
pub fn panel_bottom(width: usize) -> (r: String)
    ensures
        r@ == box_bottom(width as nat),
{
    let mut out = PANEL_HI.to_string();
    out.append("└");
    out.append(repeat_char('─', width.saturating_sub(2)).as_str());
    out.append("┘");
    out.append(RESET);
    out
}

/// A key and its value.
pub open spec fn key_value(key: Seq<char>, value: Seq<char>) -> Seq<char> {
    DIM@ + padded_right(key, 15) + RESET@ + BLOOM_BONE@ + value + RESET@
}

/// A key and its value.
pub fn kv_line(key: &str, value: &str) -> (r: String)
    ensures
        r@ == key_value(key@, value@),
{
    let mut out = DIM.to_string();
    out.append(pad_right(key, 15).as_str());
    out.append(RESET);
    out.append(BLOOM_BONE);
    out.append(value);
    out.append(RESET);
    out
}

/// `value` in a colour.
pub open spec fn coloured(color: Seq<char>, value: Seq<char>) -> Seq<char> {
    color + value + RESET@
}

/// `value` in a colour.
pub fn color_line(color: &str, value: &str) -> (r: String)
    ensures
        r@ == coloured(color@, value@),
{
    let mut out = color.to_string();
    out.append(value);
    out.append(RESET);
    out
}

/// `value` where it has at most `max` characters; else as many as fit, the last an ellipsis.
pub open spec fn shortened(value: Seq<char>, max: nat) -> Seq<char> {
    if value.len() <= max {
        value
    } else {
        value.take(less(max, 1) as int) + "…"@
    }
}

/// `value` where it has at most `max` characters; else as many as fit, the last an ellipsis.
pub fn shorten(value: &str, max: usize) -> (r: String)
    ensures
        r@ == shortened(value@, max as nat),
{
    if value.unicode_len() <= max {
        return value.to_string();
    }
    let mut out = value.substring_char(0, max.saturating_sub(1)).to_string();
    assert(out@ =~= value@.take(less(max as nat, 1) as int));
    out.append("…");
    out
}

/// A shortened text has at most as many characters as it may.
pub proof fn law_shortened_fits(value: Seq<char>, max: nat)
    requires
        max >= 1,
    ensures
        shortened(value, max).len() <= max,
{
    reveal_strlit("…");
}

// What lines up

/// Every escape character begins an escape that ends in a letter.
pub open spec fn tidy(s: Seq<char>) -> bool
    decreases s.len(),
{
    if s.len() == 0 {
        true
    } else if s[0] == '\x1b' {
        proof {
            lemma_escape_tail(s.skip(2));
        }
        &&& begins_escape(s)
        &&& is_letter(s[escape_len(s) - 1])
        &&& tidy(s.skip(escape_len(s) as int))
    } else {
        tidy(s.skip(1))
    }
}

/// There is no escape character.
pub open spec fn plain(s: Seq<char>) -> bool {
    forall|i: int| 0 <= i < s.len() ==> #[trigger] s[i] != '\x1b'
}

/// Plain text is tidy, and all of it is seen.
pub proof fn lemma_plain(s: Seq<char>)
    requires
        plain(s),
    ensures
        tidy(s),
        visible_width(s) == s.len(),
    decreases s.len(),
{
    if s.len() > 0 {
        assert forall|i: int| 0 <= i < s.skip(1).len() implies #[trigger] s.skip(1)[i] != '\x1b' by {
            assert(s[i + 1] != '\x1b');
        }
        lemma_plain(s.skip(1));
    }
}

/// What follows an escape that has ended does not belong to it.
proof fn lemma_escape_tail_concat(a: Seq<char>, b: Seq<char>)
    requires
        escape_tail(a) > 0,
        is_letter(a[escape_tail(a) - 1]),
    ensures
        escape_tail(a + b) == escape_tail(a),
    decreases a.len(),
{
    assert((a + b)[0] == a[0]);
    if a.len() > 0 && !is_letter(a[0]) {
        assert((a + b).skip(1) =~= a.skip(1) + b);
        lemma_escape_tail(a.skip(1));
        if a.len() == 1 {
            assert(a.skip(1) =~= Seq::<char>::empty());
        }
        assert(a.skip(1)[escape_tail(a.skip(1)) - 1] == a[escape_tail(a) - 1]);
        lemma_escape_tail_concat(a.skip(1), b);
    }
}

/// Behind tidy text, text shows as it does alone.
pub proof fn lemma_visible_concat(a: Seq<char>, b: Seq<char>)
    requires
        tidy(a),
    ensures
        visible_width(a + b) == visible_width(a) + visible_width(b),
        tidy(b) ==> tidy(a + b),
    decreases a.len(),
{
    if a.len() == 0 {
        assert(a + b =~= b);
    } else {
        let ab = a + b;
        assert(ab[0] == a[0]);
        if a[0] == '\x1b' {
            let n = escape_len(a) as int;
            lemma_escape_tail(a.skip(2));
            assert(ab[1] == a[1]);
            assert(ab.skip(2) =~= a.skip(2) + b);
            if a.skip(2).len() > 0 {
                assert(a.skip(2)[escape_tail(a.skip(2)) - 1] == a[n - 1]);
                lemma_escape_tail_concat(a.skip(2), b);
            } else {
                assert(a.skip(2) =~= Seq::<char>::empty());
                assert(n == 2);
                assert(a[1] == '[');
            }
            assert(ab.skip(n) =~= a.skip(n) + b);
            assert(ab[n - 1] == a[n - 1]);
            lemma_visible_concat(a.skip(n), b);
        } else {
            assert(ab.skip(1) =~= a.skip(1) + b);
            lemma_visible_concat(a.skip(1), b);
        }
    }
}

/// An escape without a letter before its end takes all of its text.
proof fn lemma_whole_tail(s: Seq<char>)
    requires
        s.len() > 0,
        forall|i: int| 0 <= i < s.len() - 1 ==> !is_letter(#[trigger] s[i]),
    ensures
        escape_tail(s) == s.len(),
    decreases s.len(),
{
    if s.len() == 1 {
        assert(s.skip(1) =~= Seq::<char>::empty());
        assert(escape_tail(Seq::<char>::empty()) == 0);
    } else {
        assert(!is_letter(s[0]));
        assert forall|i: int| 0 <= i < s.skip(1).len() - 1 implies !is_letter(
            #[trigger] s.skip(1)[i],
        ) by {
            assert(s.skip(1)[i] == s[i + 1]);
        }
        lemma_whole_tail(s.skip(1));
    }
}

/// A colour is tidy, and nothing of it is seen.
proof fn lemma_colour(s: Seq<char>)
    requires
        begins_escape(s),
        s.len() >= 3,
        is_letter(s.last()),
        forall|i: int| 2 <= i < s.len() - 1 ==> !is_letter(#[trigger] s[i]),
    ensures
        tidy(s),
        visible_width(s) == 0,
{
    let t = s.skip(2);
    assert forall|i: int| 0 <= i < t.len() - 1 implies !is_letter(#[trigger] t[i]) by {
        assert(t[i] == s[i + 2]);
    }
    lemma_whole_tail(t);
    assert(s.skip(escape_len(s) as int) =~= Seq::<char>::empty());
    assert(tidy(Seq::<char>::empty()) && visible_width(Seq::<char>::empty()) == 0);
}

/// The colours of boxes and rows are tidy, and nothing of them is seen.
pub proof fn lemma_box_colours()
    ensures
        tidy(PANEL_HI@),
        visible_width(PANEL_HI@) == 0,
        tidy(RESET@),
        visible_width(RESET@) == 0,
        tidy(BLOOM_BONE@),
        visible_width(BLOOM_BONE@) == 0,
        tidy(BOLD@),
        visible_width(BOLD@) == 0,
        tidy(DIM@),
        visible_width(DIM@) == 0,
{
    reveal_strlit("\x1b[38;2;70;56;64m");
    reveal_strlit("\x1b[0m");
    reveal_strlit("\x1b[38;2;226;204;184m");
    reveal_strlit("\x1b[1m");
    reveal_strlit("\x1b[38;2;116;98;104m");
    lemma_colour(PANEL_HI@);
    lemma_colour(RESET@);
    lemma_colour(BLOOM_BONE@);
    lemma_colour(BOLD@);
    lemma_colour(DIM@);
}

/// As much of a tidy text as fits is tidy, and fits.
proof fn lemma_visible_prefix(s: Seq<char>, n: nat)
    requires
        tidy(s),
    ensures
        tidy(visible_prefix(s, n)),
        visible_width(visible_prefix(s, n)) == (if visible_width(s) <= n {
            visible_width(s)
        } else {
            n
        }),
    decreases s.len(),
{
    if s.len() > 0 {
        if begins_escape(s) {
            let k = escape_len(s) as int;
            lemma_escape_tail(s.skip(2));
            let e = s.take(k);
            let t = s.skip(2);
            lemma_visible_prefix(s.skip(k), n);
            assert(e.skip(2) =~= t.take(k - 2));
            lemma_tail_of_take(t);
            assert(e[0] == s[0] && e[1] == s[1]);
            assert(escape_len(e) == k);
            assert(e[k - 1] == s[k - 1]);
            assert(e.skip(k) =~= Seq::<char>::empty());
            assert(tidy(Seq::<char>::empty()) && visible_width(Seq::<char>::empty()) == 0);
            assert(tidy(e) && visible_width(e) == 0);
            lemma_visible_concat(e, visible_prefix(s.skip(k), n));
        } else if n > 0 {
            let c = seq![s[0]];
            let m = (n - 1) as nat;
            assert(plain(c));
            lemma_plain(c);
            lemma_visible_prefix(s.skip(1), m);
            lemma_visible_concat(c, visible_prefix(s.skip(1), m));
        }
    }
}

/// An escape cut off behind its end is as long as before.
proof fn lemma_tail_of_take(t: Seq<char>)
    ensures
        escape_tail(t.take(escape_tail(t) as int)) == escape_tail(t),
    decreases t.len(),
{
    lemma_escape_tail(t);
    let u = t.take(escape_tail(t) as int);
    if t.len() > 0 {
        assert(u[0] == t[0]);
        if !is_letter(t[0]) {
            lemma_escape_tail(t.skip(1));
            assert(u.skip(1) =~= t.skip(1).take(escape_tail(t.skip(1)) as int));
            lemma_tail_of_take(t.skip(1));
        }
    }
}

/// An escape that ends before its text does ends with a letter.
proof fn lemma_tail_ends(t: Seq<char>)
    requires
        escape_tail(t) < t.len(),
    ensures
        escape_tail(t) > 0,
        is_letter(t[escape_tail(t) - 1]),
    decreases t.len(),
{
    if !is_letter(t[0]) {
        lemma_tail_ends(t.skip(1));
        assert(t.skip(1)[escape_tail(t.skip(1)) - 1] == t[escape_tail(t) - 1]);
    }
}

/// Behind as much of a text as fits before its end, text shows as it does alone.
proof fn lemma_prefix_concat(s: Seq<char>, n: nat, b: Seq<char>)
    requires
        visible_width(s) > n,
        b.len() > 0,
        b[0] != '[',
    ensures
        visible_width(visible_prefix(s, n) + b) == n + visible_width(b),
    decreases s.len(),
{
    if begins_escape(s) {
        let k = escape_len(s) as int;
        let t = s.skip(2);
        lemma_escape_tail(t);
        let rest = s.skip(k);
        if rest.len() == 0 {
            assert(visible_width(rest) == 0);
        }
        lemma_tail_ends(t);
        let e = s.take(k);
        let u = e.skip(2);
        let x = visible_prefix(rest, n) + b;
        let w = visible_prefix(s, n) + b;
        assert(w =~= e + x);
        assert(u =~= t.take(k - 2));
        lemma_tail_of_take(t);
        assert(u[k - 3] == t[k - 3]);
        lemma_escape_tail_concat(u, x);
        assert(w.skip(2) =~= u + x);
        assert(w[0] == s[0] && w[1] == s[1]);
        assert(escape_len(w) == k);
        assert(w.skip(k) =~= x);
        lemma_prefix_concat(rest, n, b);
    } else if n > 0 {
        let m = (n - 1) as nat;
        let rest = s.skip(1);
        let p = visible_prefix(rest, m);
        let x = p + b;
        let w = visible_prefix(s, n) + b;
        assert(w =~= seq![s[0]] + x);
        assert(w.skip(1) =~= x);
        if p.len() > 0 {
            if begins_escape(rest) {
                lemma_escape_tail(rest.skip(2));
            }
            assert(p[0] == rest[0]);
            assert(w[1] == s[1]);
        } else {
            assert(w[1] == b[0]);
        }
        lemma_prefix_concat(rest, m, b);
    } else {
        assert(visible_prefix(s, n) + b =~= b);
    }
}

/// Truncated text fits, whatever it holds, is tidy where it was before, and is not truncated again.
pub proof fn law_truncated_fits(s: Seq<char>, width: nat)
    requires
        width >= 1,
    ensures
        tidy(s) ==> tidy(truncated(s, width)),
        visible_width(truncated(s, width)) == (if visible_width(s) <= width {
            visible_width(s)
        } else {
            width
        }),
        truncated(truncated(s, width), width) == truncated(s, width),
{
    if visible_width(s) > width {
        let m = (width - 1) as nat;
        let p = visible_prefix(s, m);
        let dots = seq!['…'];
        assert(plain(dots));
        lemma_plain(dots);
        lemma_box_colours();
        lemma_visible_concat(dots, RESET@);
        lemma_prefix_concat(s, m, dots + RESET@);
        assert(p + dots + RESET@ =~= p + (dots + RESET@));
        if tidy(s) {
            lemma_visible_prefix(s, m);
            lemma_visible_concat(p, dots);
            lemma_visible_concat(p + dots, RESET@);
        }
    }
}

/// Repeating a character other than the escape character gives plain text.
pub proof fn lemma_repeated_plain(c: char, n: nat)
    requires
        c != '\x1b',
    ensures
        tidy(repeated(c, n)),
        visible_width(repeated(c, n)) == n,
{
    lemma_plain(repeated(c, n));
}

/// The rows of a box are as wide as the box, whatever stands in them.
pub proof fn law_boxed_lines_line_up(content: Seq<char>, width: nat)
    requires
        tidy(content),
        width >= 5,
    ensures
        visible_width(boxed(content, width)) == width,
        tidy(boxed(content, width)),
{
    let inner = less(width, 4);
    let shown = truncated(content, inner);
    let pad = repeated(' ', less(inner, visible_width(shown)));
    law_truncated_fits(content, inner);
    lemma_box_colours();
    lemma_repeated_plain(' ', less(inner, visible_width(shown)));
    reveal_strlit("│");
    reveal_strlit(" ");
    lemma_plain("│"@);
    lemma_plain(" "@);
    let a = PANEL_HI@ + "│"@;
    let b = a + RESET@;
    let c = b + " "@;
    let d = c + shown;
    let e = d + pad;
    let f = e + " "@;
    let g = f + PANEL_HI@;
    let h = g + "│"@;
    lemma_visible_concat(PANEL_HI@, "│"@);
    lemma_visible_concat(a, RESET@);
    lemma_visible_concat(b, " "@);
    lemma_visible_concat(c, shown);
    lemma_visible_concat(d, pad);
    lemma_visible_concat(e, " "@);
    lemma_visible_concat(f, PANEL_HI@);
    lemma_visible_concat(g, "│"@);
    lemma_visible_concat(h, RESET@);
}

/// The top of a box is as wide as the box, where its title fits.
pub proof fn law_box_top_lines_up(title: Seq<char>, width: nat)
    requires
        plain(title),
        title.len() + 5 <= width,
    ensures
        visible_width(box_top(title, width)) == width,
        tidy(box_top(title, width)),
{
    let label = "─ "@ + title + " "@;
    reveal_strlit("─ ");
    reveal_strlit(" ");
    reveal_strlit("┌");
    reveal_strlit("┐");
    assert(plain(label));
    lemma_plain(label);
    let rule = repeated('─', less(less(width, 2), visible_width(label)));
    lemma_repeated_plain('─', less(less(width, 2), visible_width(label)));
    lemma_plain("┌"@);
    lemma_plain("┐"@);
    lemma_box_colours();
    let a = PANEL_HI@ + "┌"@;
    let b = a + label;
    let c = b + rule;
    let d = c + "┐"@;
    lemma_visible_concat(PANEL_HI@, "┌"@);
    lemma_visible_concat(a, label);
    lemma_visible_concat(b, rule);
    lemma_visible_concat(c, "┐"@);
    lemma_visible_concat(d, RESET@);
}

/// The bottom of a box is as wide as the box.
pub proof fn law_box_bottom_lines_up(width: nat)
    requires
        width >= 2,
    ensures
        visible_width(box_bottom(width)) == width,
        tidy(box_bottom(width)),
{
    let rule = repeated('─', less(width, 2));
    reveal_strlit("└");
    reveal_strlit("┘");
    lemma_plain("└"@);
    lemma_plain("┘"@);
    lemma_repeated_plain('─', less(width, 2));
    lemma_box_colours();
    let a = PANEL_HI@ + "└"@;
    let b = a + rule;
    let c = b + "┘"@;
    lemma_visible_concat(PANEL_HI@, "└"@);
    lemma_visible_concat(a, rule);
    lemma_visible_concat(b, "┘"@);
    lemma_visible_concat(c, RESET@);
}

/// A key and a plain value make a tidy row.
pub proof fn law_key_values_are_tidy(key: Seq<char>, value: Seq<char>)
    requires
        plain(key),
        plain(value),
    ensures
        tidy(key_value(key, value)),
        visible_width(key_value(key, value)) == padded_right(key, 15).len() + value.len(),
{
    let shown = padded_right(key, 15);
    assert(plain(shown));
    lemma_plain(shown);
    lemma_plain(value);
    lemma_box_colours();
    let a = DIM@ + shown;
    let b = a + RESET@;
    let c = b + BLOOM_BONE@;
    let d = c + value;
    lemma_visible_concat(DIM@, shown);
    lemma_visible_concat(a, RESET@);
    lemma_visible_concat(b, BLOOM_BONE@);
    lemma_visible_concat(c, value);
    lemma_visible_concat(d, RESET@);
}

} // verus!
