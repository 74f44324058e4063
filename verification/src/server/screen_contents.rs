//! What the monitor's screen says, and what it does not say, by the size of its window.

use vstd::prelude::*;

use super::labels::{duration_text, eta_text};
use super::monitor::Snapshot;
use super::monitor_screen::{
    bar, bars, client_rows, foot_line, level_bar, model_rows, overview_rows, pair_lines, panel_head,
    panel_lines, panel_width, row_or_blank, rule_line, screen_lines, screen_text, terminated,
    timing_rows, title_line, too_small, training_rows, value_width, SnapshotTexts, MODEL_TITLE, RESIZE,
};
use super::terminal_text::{
    begins_escape, box_bottom, box_top, boxed, coloured, escape_len, key_value, lemma_escape_tail,
    less, shortened, truncated, visible_prefix, visible_width, ACCENT_AMBER, BLOOM_BONE, BOLD, BRAND_A,
    BRAND_B, DIM, PANEL_HI, RESET,
};
use crate::text::{
    decimal, decimal2, digit, holds_at, mentions, padded_right, repeated,
};

verus! {

/// A text that is looked for: it begins with three known characters, and holds neither an escape
/// nor an ellipsis.
spec fn is_probe(p: Seq<char>) -> bool {
    &&& p.len() >= 3
    &&& (p[0] == 'C' && p[1] == 'o' && p[2] == 'n') || (p[0] == 'R' && p[1] == 'e' && p[2] == 's')
    &&& forall|i: int| 0 <= i < p.len() ==> #[trigger] p[i] != '\x1b' && p[i] != '…'
}

/// No place in `s` begins as `p` does.
spec fn unlike(s: Seq<char>, p: Seq<char>) -> bool {
    forall|i: int|
        0 <= i < s.len() && #[trigger] s[i] == p[0] ==> i + 2 < s.len() && !(s[i + 1] == p[1] && s[i
            + 2] == p[2])
}

/// Neither of the characters that a text looked for begins with.
spec fn lacks(s: Seq<char>) -> bool {
    forall|i: int| 0 <= i < s.len() ==> #[trigger] s[i] != 'C' && s[i] != 'R'
}

/// `b` behind `s`.
spec fn follows(s: Seq<char>, b: Seq<char>) -> Seq<char> {
    s + b
}

/// Whatever follows `s` without mentioning `p`, `p` is not mentioned with `s` in front either.
#[verifier::opaque]
spec fn safe(s: Seq<char>, p: Seq<char>) -> bool {
    forall|b: Seq<char>| #![trigger follows(s, b)] !mentions(b, p) ==> !mentions(follows(s, b), p)
}

spec fn all_safe(s: Seq<Seq<char>>, p: Seq<char>) -> bool {
    forall|i: int| 0 <= i < s.len() ==> safe(#[trigger] s[i], p)
}

proof fn lemma_lacks(s: Seq<char>, p: Seq<char>)
    requires
        is_probe(p),
        lacks(s),
    ensures
        unlike(s, p),
        safe(s, p),
{
    assert(unlike(s, p));
    lemma_unlike(s, p);
}

proof fn lemma_unlike(s: Seq<char>, p: Seq<char>)
    requires
        is_probe(p),
        unlike(s, p),
    ensures
        safe(s, p),
{
    reveal(safe);
    assert forall|b: Seq<char>| #![trigger follows(s, b)] !mentions(b, p) implies !mentions(
        follows(s, b),
        p,
    ) by {
        if mentions(s + b, p) {
            let i = choose|i: int| holds_at(s + b, p, i);
            let t = s + b;
            assert(t.subrange(i, i + p.len()) == p);
            assert(t[i] == p[0] && t[i + 1] == p[1] && t[i + 2] == p[2]) by {
                assert(t.subrange(i, i + p.len())[0] == t[i]);
                assert(t.subrange(i, i + p.len())[1] == t[i + 1]);
                assert(t.subrange(i, i + p.len())[2] == t[i + 2]);
            }
            if i < s.len() {
                assert(s[i] == p[0]);
            } else {
                assert(b.subrange(i - s.len(), i - s.len() + p.len()) =~= t.subrange(i, i + p.len()));
                assert(holds_at(b, p, i - s.len()));
            }
        }
    }
}

proof fn lemma_safe_concat(a: Seq<char>, b: Seq<char>, p: Seq<char>)
    requires
        safe(a, p),
        safe(b, p),
    ensures
        safe(a + b, p),
{
    reveal(safe);
    assert forall|c: Seq<char>| #![trigger follows(a + b, c)] !mentions(c, p) implies !mentions(
        follows(a + b, c),
        p,
    ) by {
        assert(follows(a + b, c) =~= follows(a, follows(b, c)));
    }
}

/// A text that does not mention `p` is safe once an escape or an ellipsis follows.
proof fn lemma_then(u: Seq<char>, w: Seq<char>, p: Seq<char>)
    requires
        is_probe(p),
        !mentions(u, p),
        safe(w, p),
        w.len() > 0,
        w[0] == '\x1b' || w[0] == '…',
    ensures
        safe(u + w, p),
{
    reveal(safe);
    assert forall|c: Seq<char>| #![trigger follows(u + w, c)] !mentions(c, p) implies !mentions(
        follows(u + w, c),
        p,
    ) by {
        let x = follows(w, c);
        let t = follows(u + w, c);
        assert(t =~= u + x);
        assert(!mentions(x, p));
        if mentions(t, p) {
            let i = choose|i: int| holds_at(t, p, i);
            let n = p.len() as int;
            let k = u.len() as int;
            assert(t.subrange(i, i + n) == p);
            if i + n <= k {
                assert(u.subrange(i, i + n) =~= t.subrange(i, i + n));
                assert(holds_at(u, p, i));
            } else if i >= k {
                assert(x.subrange(i - k, i - k + n) =~= t.subrange(i, i + n));
                assert(holds_at(x, p, i - k));
            } else {
                assert(t[k] == w[0]);
                assert(t.subrange(i, i + n)[k - i] == t[k]);
                assert(p[k - i] == w[0]);
            }
        }
    }
}

/// A safe text does not mention `p` itself.
proof fn lemma_safe_is_free(s: Seq<char>, p: Seq<char>)
    requires
        is_probe(p),
        safe(s, p),
    ensures
        !mentions(s, p),
{
    reveal(safe);
    let none = Seq::<char>::empty();
    if mentions(none, p) {
        let i = choose|i: int| holds_at(none, p, i);
        assert(false);
    }
    assert(follows(s, none) =~= s);
}

/// What a text does not mention, its beginning does not mention.
proof fn lemma_prefix_free(s: Seq<char>, t: Seq<char>, p: Seq<char>)
    requires
        t.is_prefix_of(s),
        !mentions(s, p),
    ensures
        !mentions(t, p),
{
    if mentions(t, p) {
        let i = choose|i: int| holds_at(t, p, i);
        assert(s.subrange(i, i + p.len()) =~= t.subrange(i, i + p.len()));
        assert(holds_at(s, p, i));
    }
}

proof fn lemma_visible_prefix_is_prefix(s: Seq<char>, n: nat)
    ensures
        visible_prefix(s, n).is_prefix_of(s),
    decreases s.len(),
{
    if s.len() > 0 {
        if begins_escape(s) {
            let k = escape_len(s) as int;
            lemma_escape_tail(s.skip(2));
            let q = visible_prefix(s.skip(k), n);
            lemma_visible_prefix_is_prefix(s.skip(k), n);
            assert(visible_prefix(s, n) =~= s.take(k + q.len()));
        } else if n > 0 {
            let q = visible_prefix(s.skip(1), (n - 1) as nat);
            lemma_visible_prefix_is_prefix(s.skip(1), (n - 1) as nat);
            assert(visible_prefix(s, n) =~= s.take(1 + q.len() as int));
        }
    }
}

/// The colours.
proof fn lemma_colours(p: Seq<char>)
    requires
        is_probe(p),
    ensures
        safe(PANEL_HI@, p),
        safe(RESET@, p),
        safe(BLOOM_BONE@, p),
        safe(BOLD@, p),
        safe(DIM@, p),
        safe(BRAND_A@, p),
        safe(BRAND_B@, p),
        safe(ACCENT_AMBER@, p),
        RESET@.len() > 0,
        RESET@[0] == '\x1b',
{
    reveal_strlit("\x1b[38;2;70;56;64m");
    reveal_strlit("\x1b[0m");
    reveal_strlit("\x1b[38;2;226;204;184m");
    reveal_strlit("\x1b[1m");
    reveal_strlit("\x1b[38;2;116;98;104m");
    reveal_strlit("\x1b[38;2;218;78;138m");
    reveal_strlit("\x1b[38;2;82;184;205m");
    reveal_strlit("\x1b[38;2;226;136;68m");
    lemma_lacks(PANEL_HI@, p);
    lemma_lacks(RESET@, p);
    lemma_lacks(BLOOM_BONE@, p);
    lemma_lacks(BOLD@, p);
    lemma_lacks(DIM@, p);
    lemma_lacks(BRAND_A@, p);
    lemma_lacks(BRAND_B@, p);
    lemma_lacks(ACCENT_AMBER@, p);
}

/// The pieces that boxes are made of.
proof fn lemma_strokes(p: Seq<char>)
    requires
        is_probe(p),
    ensures
        safe("│"@, p),
        safe(" "@, p),
        safe("  "@, p),
        safe("┌"@, p),
        safe("┌─ "@, p),
        safe("─ "@, p),
        safe("┐"@, p),
        safe("└"@, p),
        safe("┘"@, p),
        safe("\r\n"@, p),
        safe(Seq::<char>::empty(), p),
        safe(seq!['…'], p),
{
    reveal_strlit("│");
    reveal_strlit(" ");
    reveal_strlit("  ");
    reveal_strlit("┌");
    reveal_strlit("┌─ ");
    reveal_strlit("─ ");
    reveal_strlit("┐");
    reveal_strlit("└");
    reveal_strlit("┘");
    reveal_strlit("\r\n");
    lemma_lacks("│"@, p);
    lemma_lacks(" "@, p);
    lemma_lacks("  "@, p);
    lemma_lacks("┌"@, p);
    lemma_lacks("┌─ "@, p);
    lemma_lacks("─ "@, p);
    lemma_lacks("┐"@, p);
    lemma_lacks("└"@, p);
    lemma_lacks("┘"@, p);
    lemma_lacks("\r\n"@, p);
    lemma_lacks(Seq::<char>::empty(), p);
    lemma_lacks(seq!['…'], p);
}

proof fn lemma_repeated_safe(c: char, n: nat, p: Seq<char>)
    requires
        is_probe(p),
        c != 'C' && c != 'R',
    ensures
        lacks(repeated(c, n)),
        safe(repeated(c, n), p),
{
    lemma_lacks(repeated(c, n), p);
}

/// A row of a box.
proof fn lemma_boxed_safe(content: Seq<char>, width: nat, p: Seq<char>)
    requires
        is_probe(p),
        safe(content, p),
    ensures
        safe(boxed(content, width), p),
{
    lemma_colours(p);
    lemma_strokes(p);
    let inner = less(width, 4);
    let shown = truncated(content, inner);
    let pad = repeated(' ', less(inner, visible_width(shown)));
    lemma_repeated_safe(' ', less(inner, visible_width(shown)), p);
    if visible_width(content) > inner {
        let m: nat = if inner > 0 {
            (inner - 1) as nat
        } else {
            0
        };
        let q = visible_prefix(content, m);
        lemma_visible_prefix_is_prefix(content, m);
        lemma_safe_is_free(content, p);
        lemma_prefix_free(content, q, p);
        lemma_safe_concat(seq!['…'], RESET@, p);
        lemma_then(q, seq!['…'] + RESET@, p);
        assert(shown =~= q + (seq!['…'] + RESET@));
    }
    let a = PANEL_HI@ + "│"@;
    lemma_safe_concat(PANEL_HI@, "│"@, p);
    lemma_safe_concat(a, RESET@, p);
    lemma_safe_concat(a + RESET@, " "@, p);
    let b = a + RESET@ + " "@;
    lemma_safe_concat(b, shown, p);
    lemma_safe_concat(b + shown, pad, p);
    let c = b + shown + pad;
    lemma_safe_concat(c, " "@, p);
    lemma_safe_concat(c + " "@, PANEL_HI@, p);
    let d = c + " "@ + PANEL_HI@;
    lemma_safe_concat(d, "│"@, p);
    lemma_safe_concat(d + "│"@, RESET@, p);
}

proof fn lemma_bottom_safe(width: nat, p: Seq<char>)
    requires
        is_probe(p),
    ensures
        safe(box_bottom(width), p),
{
    lemma_colours(p);
    lemma_strokes(p);
    let rule = repeated('─', less(width, 2));
    lemma_repeated_safe('─', less(width, 2), p);
    let a = PANEL_HI@ + "└"@;
    lemma_safe_concat(PANEL_HI@, "└"@, p);
    lemma_safe_concat(a, rule, p);
    lemma_safe_concat(a + rule, "┘"@, p);
    lemma_safe_concat(a + rule + "┘"@, RESET@, p);
}

proof fn lemma_top_safe(title: Seq<char>, width: nat, p: Seq<char>)
    requires
        is_probe(p),
        safe(title, p),
    ensures
        safe(box_top(title, width), p),
{
    lemma_colours(p);
    lemma_strokes(p);
    let label = "─ "@ + title + " "@;
    lemma_safe_concat("─ "@, title, p);
    lemma_safe_concat("─ "@ + title, " "@, p);
    let n = less(less(width, 2), visible_width(label));
    lemma_repeated_safe('─', n, p);
    let a = PANEL_HI@ + "┌"@;
    lemma_safe_concat(PANEL_HI@, "┌"@, p);
    lemma_safe_concat(a, label, p);
    let b = a + label + repeated('─', n);
    lemma_safe_concat(a + label, repeated('─', n), p);
    lemma_safe_concat(b, "┐"@, p);
    lemma_safe_concat(b + "┐"@, RESET@, p);
}

proof fn lemma_head_safe(title: Seq<char>, width: nat, p: Seq<char>)
    requires
        is_probe(p),
        safe(title, p),
    ensures
        safe(panel_head(title, width), p),
{
    lemma_colours(p);
    lemma_strokes(p);
    let n = less(
        less(width, 2),
        super::monitor_screen::at_most(
            super::monitor_screen::byte_len(title) as nat + 3,
            usize::MAX as nat,
        ),
    );
    let rule = repeated('─', n);
    lemma_repeated_safe('─', n, p);
    let a = PANEL_HI@ + "┌─ "@;
    lemma_safe_concat(PANEL_HI@, "┌─ "@, p);
    lemma_safe_concat(a, BLOOM_BONE@, p);
    let b = a + BLOOM_BONE@ + BOLD@;
    lemma_safe_concat(a + BLOOM_BONE@, BOLD@, p);
    lemma_safe_concat(b, title, p);
    lemma_safe_concat(b + title, RESET@, p);
    let c = b + title + RESET@;
    lemma_safe_concat(c, PANEL_HI@, p);
    lemma_safe_concat(c + PANEL_HI@, " "@, p);
    let d = c + PANEL_HI@ + " "@;
    lemma_safe_concat(d, rule, p);
    lemma_safe_concat(d + rule, "┐"@, p);
    lemma_safe_concat(d + rule + "┐"@, RESET@, p);
}

proof fn lemma_panel_safe(title: Seq<char>, rows: Seq<Seq<char>>, p: Seq<char>)
    requires
        is_probe(p),
        safe(title, p),
        all_safe(rows, p),
    ensures
        all_safe(panel_lines(title, rows), p),
{
    let width = panel_width(title, rows);
    let lines = panel_lines(title, rows);
    lemma_head_safe(title, width, p);
    lemma_bottom_safe(width, p);
    assert forall|i: int| 0 <= i < lines.len() implies safe(#[trigger] lines[i], p) by {
        if i == 0 {
        } else if i <= rows.len() {
            lemma_boxed_safe(rows[i - 1], width, p);
            assert(lines[i] == boxed(rows[i - 1], width));
        }
    }
}

proof fn lemma_pair_safe(
    width: u16,
    left_title: Seq<char>,
    left: Seq<Seq<char>>,
    right_title: Seq<char>,
    right: Seq<Seq<char>>,
    p: Seq<char>,
)
    requires
        is_probe(p),
        safe(left_title, p),
        safe(right_title, p),
        all_safe(left, p),
        all_safe(right, p),
    ensures
        all_safe(pair_lines(width, left_title, left, right_title, right), p),
{
    lemma_strokes(p);
    let lines = pair_lines(width, left_title, left, right_title, right);
    if width < 100 {
        lemma_panel_safe(left_title, left, p);
        lemma_panel_safe(right_title, right, p);
        let a = panel_lines(left_title, left);
        let b = panel_lines(right_title, right);
        assert forall|i: int| 0 <= i < lines.len() implies safe(#[trigger] lines[i], p) by {
            if i < a.len() {
                assert(lines[i] == a[i]);
            } else if i > a.len() {
                assert(lines[i] == b[i - a.len() - 1]);
            }
        }
    } else {
        let col = ((width - 3) / 2) as nat;
        assert forall|i: int| 0 <= i < lines.len() implies safe(#[trigger] lines[i], p) by {
            let (a, b) = if i == 0 {
                lemma_top_safe(left_title, col, p);
                lemma_top_safe(right_title, col, p);
                (box_top(left_title, col), box_top(right_title, col))
            } else if i < lines.len() - 1 {
                let l = row_or_blank(left, i - 1);
                let r = row_or_blank(right, i - 1);
                lemma_boxed_safe(l, col, p);
                lemma_boxed_safe(r, col, p);
                (boxed(l, col), boxed(r, col))
            } else {
                lemma_bottom_safe(col, p);
                (box_bottom(col), box_bottom(col))
            };
            assert(lines[i] == a + " "@ + b);
            lemma_safe_concat(a, " "@, p);
            lemma_safe_concat(a + " "@, b, p);
        }
    }
}

/// A key and its value.
proof fn lemma_key_value_safe(key: Seq<char>, value: Seq<char>, p: Seq<char>)
    requires
        is_probe(p),
        unlike(key, p),
        !mentions(value, p),
    ensures
        safe(key_value(key, value), p),
{
    lemma_colours(p);
    lemma_unlike(key, p);
    if key.len() < 15 {
        let n = (15 - key.len()) as nat;
        lemma_repeated_safe(' ', n, p);
        lemma_safe_concat(key, repeated(' ', n), p);
    }
    let k = padded_right(key, 15);
    let a = DIM@ + k + RESET@;
    lemma_safe_concat(DIM@, k, p);
    lemma_safe_concat(DIM@ + k, RESET@, p);
    lemma_safe_concat(a, BLOOM_BONE@, p);
    lemma_then(value, RESET@, p);
    lemma_safe_concat(a + BLOOM_BONE@, value + RESET@, p);
    assert(key_value(key, value) =~= (a + BLOOM_BONE@) + (value + RESET@));
}

proof fn lemma_lacks_free(s: Seq<char>, p: Seq<char>)
    requires
        is_probe(p),
        lacks(s),
    ensures
        !mentions(s, p),
{
    lemma_lacks(s, p);
    lemma_safe_is_free(s, p);
}

/// Numbers are made of digits.
proof fn lemma_decimal_lacks(n: nat)
    ensures
        lacks(decimal(n)),
        lacks(decimal2(n)),
    decreases n,
{
    if n >= 10 {
        lemma_decimal_lacks(n / 10);
        assert(digit(n % 10) != 'C' && digit(n % 10) != 'R');
    } else {
        assert(digit(n) != 'C' && digit(n) != 'R');
    }
}

proof fn lemma_duration_lacks(secs: nat)
    ensures
        lacks(duration_text(secs)),
{
    reveal_strlit("h ");
    reveal_strlit("m ");
    reveal_strlit("s");
    lemma_decimal_lacks(secs / 3600);
    lemma_decimal_lacks((secs % 3600) / 60);
    lemma_decimal_lacks(secs % 60);
    assert(lacks("h "@) && lacks("m "@) && lacks("s"@));
}

proof fn lemma_eta_lacks(secs: Option<u64>)
    ensures
        lacks(eta_text(secs)),
{
    reveal_strlit("-");
    if let Some(s) = secs {
        lemma_duration_lacks(s as nat);
    }
}

proof fn lemma_number_row(key: Seq<char>, n: nat, p: Seq<char>)
    requires
        is_probe(p),
        unlike(key, p),
    ensures
        safe(key_value(key, decimal(n)), p),
{
    lemma_decimal_lacks(n);
    lemma_lacks_free(decimal(n), p);
    lemma_key_value_safe(key, decimal(n), p);
}

proof fn lemma_eta_row(key: Seq<char>, secs: Option<u64>, p: Seq<char>)
    requires
        is_probe(p),
        unlike(key, p),
    ensures
        safe(key_value(key, eta_text(secs)), p),
{
    lemma_eta_lacks(secs);
    lemma_lacks_free(eta_text(secs), p);
    lemma_key_value_safe(key, eta_text(secs), p);
}

proof fn lemma_bars_row(key: Seq<char>, n: nat, width: nat, levels: Seq<usize>, p: Seq<char>)
    requires
        is_probe(p),
        unlike(key, p),
    ensures
        safe(key_value(key, bars(n, width, levels)), p),
{
    reveal_strlit("-");
    assert(lacks(bars(n, width, levels))) by {
        assert forall|l: nat| #[trigger] level_bar(l) != 'C' && level_bar(l) != 'R' by {}
    }
    lemma_lacks_free(bars(n, width, levels), p);
    lemma_key_value_safe(key, bars(n, width, levels), p);
}

/// No text of the snapshot, and none of the words for its fractions, mentions `p`.
pub open spec fn is_silent_on(s: Snapshot, t: SnapshotTexts, p: Seq<char>) -> bool {
    &&& !mentions(s.run_state@, p)
    &&& !mentions(s.run_id@, p)
    &&& !mentions(s.model@, p)
    &&& !mentions(s.checkpoint@, p)
    &&& !mentions(s.epoch_steps@, p)
    &&& !mentions(s.server_addr@, p)
    &&& !mentions(t.progress@, p)
    &&& !mentions(t.latest_loss@, p)
    &&& !mentions(t.latest_tps@, p)
    &&& !mentions(t.weighted_tps@, p)
    &&& !mentions(t.avg_tps@, p)
}

proof fn lemma_overview_safe(s: Snapshot, t: SnapshotTexts, p: Seq<char>)
    requires
        is_probe(p),
        is_silent_on(s, t, p),
    ensures
        all_safe(overview_rows(s), p),
{
    reveal_strlit("Run");
    reveal_strlit("State");
    reveal_strlit("Epoch");
    reveal_strlit("Step");
    reveal_strlit("Height");
    reveal_strlit("Epoch Steps");
    reveal_strlit("Server");
    reveal_strlit(" / ");
    reveal_strlit("-");
    reveal_strlit("…");
    assert(unlike("Run"@, p));
    assert(unlike("State"@, p) && unlike("Epoch"@, p) && unlike("Step"@, p));
    assert(unlike("Height"@, p) && unlike("Epoch Steps"@, p) && unlike("Server"@, p));
    let id = shortened(s.run_id@, 28);
    if s.run_id@.len() > 28 {
        let head = s.run_id@.take(27);
        lemma_prefix_free(s.run_id@, head, p);
        lemma_lacks("…"@, p);
        lemma_then(head, "…"@, p);
        lemma_safe_is_free(head + "…"@, p);
    }
    lemma_key_value_safe("Run"@, id, p);
    lemma_key_value_safe("State"@, s.run_state@, p);
    lemma_number_row("Epoch"@, s.epoch as nat, p);
    let steps = decimal(s.step as nat) + " / "@ + decimal(s.total_steps as nat);
    lemma_decimal_lacks(s.step as nat);
    lemma_decimal_lacks(s.total_steps as nat);
    assert(lacks(" / "@));
    lemma_lacks_free(steps, p);
    lemma_key_value_safe("Step"@, steps, p);
    lemma_number_row("Height"@, s.height as nat, p);
    lemma_key_value_safe("Epoch Steps"@, s.epoch_steps@, p);
    lemma_lacks_free("-"@, p);
    lemma_key_value_safe(
        "Server"@,
        if s.server_addr@.len() == 0 {
            "-"@
        } else {
            s.server_addr@
        },
        p,
    );
}

proof fn lemma_timing_safe(s: Snapshot, t: SnapshotTexts, width: u16, p: Seq<char>)
    requires
        is_probe(p),
        is_silent_on(s, t, p),
    ensures
        all_safe(timing_rows(s, t, width), p),
{
    reveal_strlit("Progress");
    reveal_strlit("Elapsed");
    reveal_strlit("Remaining");
    reveal_strlit("Tokens/Step");
    reveal_strlit("ETA Weighted");
    reveal_strlit("ETA Current");
    reveal_strlit("-");
    assert(unlike("Progress"@, p) && unlike("Elapsed"@, p) && unlike("Remaining"@, p));
    assert(unlike("Tokens/Step"@, p) && unlike("ETA Weighted"@, p) && unlike("ETA Current"@, p));
    lemma_colours(p);
    lemma_key_value_safe("Progress"@, t.progress@, p);
    let full = bar(t.progress_filled as nat, value_width(width) as nat);
    lemma_lacks(full, p);
    lemma_safe_concat(BRAND_A@, full, p);
    lemma_safe_concat(BRAND_A@ + full, RESET@, p);
    assert(safe(coloured(BRAND_A@, full), p));
    lemma_eta_row("Elapsed"@, s.elapsed, p);
    lemma_number_row("Remaining"@, s.remaining_steps as nat, p);
    lemma_lacks_free("-"@, p);
    match s.tokens_per_step {
        Some(n) => lemma_number_row("Tokens/Step"@, n as nat, p),
        None => lemma_key_value_safe("Tokens/Step"@, "-"@, p),
    }
    lemma_eta_row("ETA Weighted"@, s.eta_weighted, p);
    lemma_eta_row("ETA Current"@, s.eta_current, p);
}

proof fn lemma_training_safe(s: Snapshot, t: SnapshotTexts, width: u16, p: Seq<char>)
    requires
        is_probe(p),
        is_silent_on(s, t, p),
    ensures
        all_safe(training_rows(s, t, width), p),
{
    reveal_strlit("Latest Loss");
    reveal_strlit("Tokens/sec");
    reveal_strlit("Weighted tok/s");
    reveal_strlit("Average tok/s");
    reveal_strlit("Loss");
    reveal_strlit("Throughput");
    assert(unlike("Latest Loss"@, p) && unlike("Tokens/sec"@, p) && unlike("Weighted tok/s"@, p));
    assert(unlike("Average tok/s"@, p) && unlike("Loss"@, p) && unlike("Throughput"@, p));
    let places = value_width(width) as nat;
    lemma_key_value_safe("Latest Loss"@, t.latest_loss@, p);
    lemma_key_value_safe("Tokens/sec"@, t.latest_tps@, p);
    lemma_key_value_safe("Weighted tok/s"@, t.weighted_tps@, p);
    lemma_key_value_safe("Average tok/s"@, t.avg_tps@, p);
    lemma_bars_row("Loss"@, s.loss_points@.len(), places, t.loss_levels@, p);
    lemma_bars_row("Throughput"@, s.throughput_points@.len(), places, t.throughput_levels@, p);
}

proof fn lemma_clients_safe(s: Snapshot, p: Seq<char>)
    requires
        is_probe(p),
    ensures
        all_safe(client_rows(s), p),
{
    reveal_strlit("Healthy");
    reveal_strlit("Ready");
    reveal_strlit("Syncing");
    reveal_strlit("Dropped");
    reveal_strlit("Withdrawn");
    reveal_strlit("Ejected");
    reveal_strlit("Total");
    assert(unlike("Healthy"@, p) && unlike("Ready"@, p) && unlike("Syncing"@, p));
    assert(unlike("Dropped"@, p) && unlike("Withdrawn"@, p) && unlike("Ejected"@, p));
    assert(unlike("Total"@, p));
    lemma_number_row("Healthy"@, s.healthy as nat, p);
    lemma_number_row("Ready"@, s.ready_clients as nat, p);
    lemma_number_row("Syncing"@, s.syncing_clients as nat, p);
    lemma_number_row("Dropped"@, s.dropped as nat, p);
    lemma_number_row("Withdrawn"@, s.withdrawn as nat, p);
    lemma_number_row("Ejected"@, s.ejected as nat, p);
    lemma_number_row("Total"@, (s.healthy + s.dropped + s.withdrawn + s.ejected) as nat, p);
}

proof fn lemma_model_safe(s: Snapshot, t: SnapshotTexts, p: Seq<char>)
    requires
        is_probe(p),
        is_silent_on(s, t, p),
    ensures
        all_safe(model_rows(s), p),
{
    reveal_strlit("Model");
    reveal_strlit("Checkpoint");
    reveal_strlit("Warmup");
    reveal_strlit("Epoch Time");
    reveal_strlit("Init Min");
    reveal_strlit("Min Clients");
    reveal_strlit("Witnesses");
    assert(unlike("Model"@, p) && unlike("Checkpoint"@, p) && unlike("Warmup"@, p));
    assert(unlike("Epoch Time"@, p) && unlike("Init Min"@, p) && unlike("Min Clients"@, p));
    assert(unlike("Witnesses"@, p));
    lemma_key_value_safe("Model"@, s.model@, p);
    lemma_key_value_safe("Checkpoint"@, s.checkpoint@, p);
    lemma_duration_lacks(s.warmup_time as nat);
    lemma_duration_lacks(s.epoch_time as nat);
    lemma_lacks_free(duration_text(s.warmup_time as nat), p);
    lemma_lacks_free(duration_text(s.epoch_time as nat), p);
    lemma_key_value_safe("Warmup"@, duration_text(s.warmup_time as nat), p);
    lemma_key_value_safe("Epoch Time"@, duration_text(s.epoch_time as nat), p);
    lemma_number_row("Init Min"@, s.init_min_clients as nat, p);
    lemma_number_row("Min Clients"@, s.min_clients as nat, p);
    lemma_number_row("Witnesses"@, s.witness_nodes as nat, p);
}

proof fn lemma_title_safe(s: Snapshot, t: SnapshotTexts, frame: u64, p: Seq<char>)
    requires
        is_probe(p),
        is_silent_on(s, t, p),
    ensures
        safe(title_line(s, frame), p),
{
    reveal_strlit("◆ AETHERCOMPUTE");
    reveal_strlit("Training Monitor");
    reveal_strlit("initializing");
    assert(unlike("◆ AETHERCOMPUTE"@, p));
    assert(lacks("Training Monitor"@) && lacks("initializing"@));
    lemma_unlike("◆ AETHERCOMPUTE"@, p);
    lemma_lacks("Training Monitor"@, p);
    lemma_lacks_free("initializing"@, p);
    lemma_colours(p);
    lemma_strokes(p);
    let brand = if frame % 8 == 0 {
        BRAND_B@
    } else {
        BRAND_A@
    };
    let color = if s.waiting {
        ACCENT_AMBER@
    } else {
        BRAND_B@
    };
    let status = if s.waiting {
        "initializing"@
    } else {
        s.run_state@
    };
    let a = brand + BOLD@ + "◆ AETHERCOMPUTE"@;
    lemma_safe_concat(brand, BOLD@, p);
    lemma_safe_concat(brand + BOLD@, "◆ AETHERCOMPUTE"@, p);
    lemma_safe_concat(a, RESET@, p);
    lemma_safe_concat(a + RESET@, "  "@, p);
    let b = a + RESET@ + "  "@;
    lemma_safe_concat(b, DIM@, p);
    lemma_safe_concat(b + DIM@, "Training Monitor"@, p);
    let c = b + DIM@ + "Training Monitor"@;
    lemma_safe_concat(c, RESET@, p);
    lemma_safe_concat(c + RESET@, "  "@, p);
    let d = c + RESET@ + "  "@;
    lemma_safe_concat(d, color, p);
    lemma_then(status, RESET@, p);
    lemma_safe_concat(d + color, status + RESET@, p);
    assert(title_line(s, frame) =~= (d + color) + (status + RESET@));
}

proof fn lemma_edges_safe(width: u16, p: Seq<char>)
    requires
        is_probe(p),
    ensures
        safe(rule_line(width), p),
        safe(foot_line(), p),
{
    reveal_strlit("live SSH view · q/Ctrl-C: close · monitor.aethercompute.org");
    lemma_colours(p);
    lemma_repeated_safe('─', width as nat, p);
    lemma_safe_concat(PANEL_HI@, repeated('─', width as nat), p);
    lemma_safe_concat(PANEL_HI@ + repeated('─', width as nat), RESET@, p);
    let says = "live SSH view · q/Ctrl-C: close · monitor.aethercompute.org"@;
    assert(unlike(says, p));
    lemma_unlike(says, p);
    lemma_safe_concat(DIM@, says, p);
    lemma_safe_concat(DIM@ + says, RESET@, p);
}

proof fn lemma_all_safe_concat(a: Seq<Seq<char>>, b: Seq<Seq<char>>, p: Seq<char>)
    requires
        all_safe(a, p),
        all_safe(b, p),
    ensures
        all_safe(a + b, p),
{
}

/// The lines of the screen, but for the panel that only high windows show.
proof fn lemma_lines_safe(
    s: Snapshot,
    t: SnapshotTexts,
    width: u16,
    height: u16,
    frame: u64,
    p: Seq<char>,
)
    requires
        is_probe(p),
        is_silent_on(s, t, p),
        height < 32 || unlike(MODEL_TITLE@, p),
    ensures
        all_safe(screen_lines(s, t, width, height, frame), p),
{
    reveal_strlit("Overview");
    reveal_strlit("Timing");
    reveal_strlit("Training");
    reveal_strlit("Clients");
    assert(unlike("Overview"@, p) && unlike("Timing"@, p) && unlike("Training"@, p));
    assert(unlike("Clients"@, p));
    lemma_unlike("Overview"@, p);
    lemma_unlike("Timing"@, p);
    lemma_unlike("Training"@, p);
    lemma_unlike("Clients"@, p);
    lemma_strokes(p);
    lemma_title_safe(s, t, frame, p);
    lemma_edges_safe(width, p);
    lemma_overview_safe(s, t, p);
    lemma_timing_safe(s, t, width, p);
    lemma_training_safe(s, t, width, p);
    lemma_clients_safe(s, p);
    let none = seq![Seq::<char>::empty()];
    let head = seq![title_line(s, frame), rule_line(width)];
    let one = pair_lines(
        width,
        "Overview"@,
        overview_rows(s),
        "Timing"@,
        timing_rows(s, t, width),
    );
    let two = pair_lines(
        width,
        "Training"@,
        training_rows(s, t, width),
        "Clients"@,
        client_rows(s),
    );
    lemma_pair_safe(
        width,
        "Overview"@,
        overview_rows(s),
        "Timing"@,
        timing_rows(s, t, width),
        p,
    );
    lemma_pair_safe(
        width,
        "Training"@,
        training_rows(s, t, width),
        "Clients"@,
        client_rows(s),
        p,
    );
    lemma_all_safe_concat(head, one, p);
    lemma_all_safe_concat(head + one, none, p);
    lemma_all_safe_concat(head + one + none, two, p);
    lemma_all_safe_concat(head + one + none + two, none, p);
    let three = if height >= 32 {
        lemma_unlike(MODEL_TITLE@, p);
        lemma_model_safe(s, t, p);
        lemma_panel_safe(MODEL_TITLE@, model_rows(s), p);
        lemma_all_safe_concat(panel_lines(MODEL_TITLE@, model_rows(s)), none, p);
        panel_lines(MODEL_TITLE@, model_rows(s)) + none
    } else {
        Seq::empty()
    };
    lemma_all_safe_concat(head + one + none + two + none, three, p);
    lemma_all_safe_concat(head + one + none + two + none + three, seq![foot_line()], p);
}

proof fn lemma_terminated_safe(lines: Seq<Seq<char>>, p: Seq<char>)
    requires
        is_probe(p),
        all_safe(lines, p),
    ensures
        safe(terminated(lines), p),
    decreases lines.len(),
{
    lemma_strokes(p);
    let f = |l: Seq<char>| l + "\r\n"@;
    let all = lines.map_values(f);
    if lines.len() == 0 {
        assert(terminated(lines) =~= Seq::<char>::empty());
    } else {
        let rest = lines.drop_last();
        lemma_terminated_safe(rest, p);
        assert(all.drop_last() =~= rest.map_values(f));
        assert(all.last() == lines.last() + "\r\n"@);
        lemma_safe_concat(lines.last(), "\r\n"@, p);
        lemma_safe_concat(terminated(rest), lines.last() + "\r\n"@, p);
    }
}

/// A text mentions what stands in it.
pub(crate) proof fn lemma_mentions_middle(a: Seq<char>, part: Seq<char>, b: Seq<char>)
    ensures
        mentions(a + part + b, part),
{
    let t = a + part + b;
    assert(t.subrange(a.len() as int, a.len() + part.len() as int) =~= part);
    assert(holds_at(t, part, a.len() as int));
}

/// What one line mentions, all of them mention.
pub(crate) proof fn lemma_terminated_mentions(lines: Seq<Seq<char>>, i: int, part: Seq<char>)
    requires
        0 <= i < lines.len(),
        mentions(lines[i], part),
    ensures
        mentions(terminated(lines), part),
    decreases lines.len(),
{
    let f = |l: Seq<char>| l + "\r\n"@;
    let all = lines.map_values(f);
    let rest = lines.drop_last();
    assert(all.drop_last() =~= rest.map_values(f));
    let before = terminated(rest);
    let last = lines.last() + "\r\n"@;
    assert(terminated(lines) == before + last);
    if i < lines.len() - 1 {
        lemma_terminated_mentions(rest, i, part);
        let k = choose|k: int| holds_at(before, part, k);
        assert((before + last).subrange(k, k + part.len()) =~= before.subrange(k, k + part.len()));
        assert(holds_at(before + last, part, k));
    } else {
        let k = choose|k: int| holds_at(lines[i], part, k);
        let m = before.len() + k;
        assert((before + last).subrange(m, m + part.len()) =~= lines[i].subrange(k, k + part.len()));
        assert(holds_at(before + last, part, m));
    }
}

/// The top of a panel mentions its title.
proof fn lemma_head_mentions(title: Seq<char>, width: nat)
    ensures
        mentions(panel_head(title, width), title),
{
    let head = panel_head(title, width);
    let a = PANEL_HI@ + "┌─ "@ + BLOOM_BONE@ + BOLD@;
    let n = less(
        less(width, 2),
        super::monitor_screen::at_most(
            super::monitor_screen::byte_len(title) as nat + 3,
            usize::MAX as nat,
        ),
    );
    let b = RESET@ + PANEL_HI@ + " "@ + repeated('─', n) + "┐"@ + RESET@;
    assert(head =~= a + title + b);
    lemma_mentions_middle(a, title, b);
}

/// Where a part begins that stands behind five others.
proof fn lemma_sixth_part(
    a: Seq<Seq<char>>,
    b: Seq<Seq<char>>,
    c: Seq<Seq<char>>,
    d: Seq<Seq<char>>,
    e: Seq<Seq<char>>,
    f: Seq<Seq<char>>,
    g: Seq<Seq<char>>,
)
    requires
        f.len() > 0,
    ensures
        (a + b + c + d + e + f + g)[a.len() + b.len() + c.len() + d.len() + e.len() as int] == f[0],
        a.len() + b.len() + c.len() + d.len() + e.len() < (a + b + c + d + e + f + g).len(),
{
}

/// The panel that only high windows show is there.
proof fn lemma_model_is_shown(s: Snapshot, t: SnapshotTexts, width: u16, height: u16, frame: u64)
    requires
        height >= 32,
    ensures
        mentions(terminated(screen_lines(s, t, width, height, frame)), MODEL_TITLE@),
{
    let lines = screen_lines(s, t, width, height, frame);
    let panel = panel_lines(MODEL_TITLE@, model_rows(s));
    let w = panel_width(MODEL_TITLE@, model_rows(s));
    let head = seq![title_line(s, frame), rule_line(width)];
    let none = seq![Seq::<char>::empty()];
    let one = pair_lines(
        width,
        "Overview"@,
        overview_rows(s),
        "Timing"@,
        timing_rows(s, t, width),
    );
    let two = pair_lines(
        width,
        "Training"@,
        training_rows(s, t, width),
        "Clients"@,
        client_rows(s),
    );
    lemma_head_mentions(MODEL_TITLE@, w);
    let all = panel + none;
    assert(all[0] == panel_head(MODEL_TITLE@, w));
    lemma_sixth_part(head, one, none, two, none, all, seq![foot_line()]);
    let i = head.len() + one.len() + none.len() + two.len() + none.len() as int;
    assert(lines == head + one + none + two + none + all + seq![foot_line()]);
    lemma_terminated_mentions(lines, i, MODEL_TITLE@);
}

/// The two texts that are looked for.
proof fn lemma_probes()
    ensures
        is_probe(RESIZE@),
        is_probe(MODEL_TITLE@),
        unlike(MODEL_TITLE@, RESIZE@),
{
    reveal_strlit("Resize terminal to at least 50x18.");
    reveal_strlit("Config / Model");
}

/// A screen of a window that is large enough says nothing of the kind itself.
proof fn lemma_screen_is_silent(
    s: Snapshot,
    t: SnapshotTexts,
    width: u16,
    height: u16,
    frame: u64,
    p: Seq<char>,
)
    requires
        is_probe(p),
        is_silent_on(s, t, p),
        height < 32 || unlike(MODEL_TITLE@, p),
    ensures
        !mentions(
            "\x1b[?25l\x1b[2J\x1b[H"@ + terminated(screen_lines(s, t, width, height, frame)),
            p,
        ),
{
    let start = "\x1b[?25l\x1b[2J\x1b[H"@;
    let lines = screen_lines(s, t, width, height, frame);
    lemma_lines_safe(s, t, width, height, frame, p);
    lemma_terminated_safe(lines, p);
    assert(lacks(start)) by {
        reveal_strlit("\x1b[?25l\x1b[2J\x1b[H");
    }
    lemma_lacks(start, p);
    lemma_safe_concat(start, terminated(lines), p);
    lemma_safe_is_free(start + terminated(lines), p);
}

/// What stands behind other text is still mentioned.
pub(crate) proof fn lemma_behind(a: Seq<char>, b: Seq<char>, part: Seq<char>)
    requires
        mentions(b, part),
    ensures
        mentions(a + b, part),
{
    let k = choose|k: int| holds_at(b, part, k);
    let m = a.len() + k;
    assert((a + b).subrange(m, m + part.len()) =~= b.subrange(k, k + part.len()));
    assert(holds_at(a + b, part, m));
}

proof fn lemma_too_small_asks()
    ensures
        mentions(too_small(), RESIZE@),
{
    let a = "\x1b[2J\x1b[H"@ + BRAND_A@ + BOLD@ + "◆ AETHERCOMPUTE"@ + RESET@ + "\r\n\r\n"@
        + BLOOM_BONE@;
    let b = RESET@ + "\r\n"@;
    assert(too_small() =~= a + RESIZE@ + b);
    lemma_mentions_middle(a, RESIZE@, b);
}

/// What the screen says depends on the size of its window as it should: a window that is too small
/// asks to be made larger, in the same words whatever is going on, and no other does. In a window
/// that is large enough the screen begins with an empty window, and shows the panel on the model if
/// and only if the window has at least thirty-two rows. Texts of the run itself that say such things
/// are left out.
pub proof fn law_screen_says_what_its_window_allows(
    s: Snapshot,
    t: SnapshotTexts,
    width: u16,
    height: u16,
    frame: u64,
)
    requires
        is_silent_on(s, t, RESIZE@),
        is_silent_on(s, t, MODEL_TITLE@),
    ensures
        mentions(screen_text(s, t, width, height, frame), RESIZE@) <==> width < 50 || height < 18,
        width < 50 || height < 18 ==> screen_text(s, t, width, height, frame) == too_small(),
        !(width < 50 || height < 18) ==> {
            &&& "\x1b[?25l\x1b[2J\x1b[H"@.is_prefix_of(screen_text(s, t, width, height, frame))
            &&& mentions(screen_text(s, t, width, height, frame), MODEL_TITLE@) <==> height >= 32
        },
{
    lemma_probes();
    if width < 50 || height < 18 {
        lemma_too_small_asks();
    } else {
        let start = "\x1b[?25l\x1b[2J\x1b[H"@;
        let shown = terminated(screen_lines(s, t, width, height, frame));
        assert((start + shown).take(start.len() as int) =~= start);
        lemma_screen_is_silent(s, t, width, height, frame, RESIZE@);
        if height >= 32 {
            lemma_model_is_shown(s, t, width, height, frame);
            lemma_behind(start, shown, MODEL_TITLE@);
        } else {
            lemma_screen_is_silent(s, t, width, height, frame, MODEL_TITLE@);
        }
    }
}

} // verus!
