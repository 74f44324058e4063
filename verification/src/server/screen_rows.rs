//! What the monitor's screen shows of a run.

use vstd::prelude::*;

use super::monitor::Snapshot;
use super::monitor_screen::{
    at_least, bars, client_rows, foot_line, level_bar, model_rows, overview_rows, pair_lines,
    panel_lines, panel_width, row_or_blank, rule_line, screen_lines, screen_text, terminated,
    timing_rows, title_line, training_rows, value_width, window_start, SnapshotTexts, MODEL_TITLE,
};
use super::screen_contents::{lemma_behind, lemma_mentions_middle, lemma_terminated_mentions};
use super::terminal_text::{boxed, key_value, BLOOM_BONE, DIM, RESET};
use crate::text::{mentions, padded_right};

verus! {

/// The heights of the points that a line of bars shows: one for each, from nothing to seven.
pub open spec fn are_levels(levels: Seq<usize>, n: nat, places: nat) -> bool {
    &&& levels.len() == n - window_start(n, places)
    &&& forall|i: int| 0 <= i < levels.len() ==> #[trigger] levels[i] <= 7
}

/// A number that may be unknown, put into words: a dash if and only if it is.
pub open spec fn says_number(text: Seq<char>, number: Option<u32>) -> bool {
    text == "-"@ <==> number is None
}

/// The words are those for the fractions of the snapshot, in a window of this width.
pub open spec fn words_fit(t: SnapshotTexts, s: Snapshot, width: u16) -> bool {
    let places = value_width(width) as nat;
    &&& t.progress_filled <= at_least(places, 8)
    &&& says_number(t.latest_loss@, s.latest_loss)
    &&& says_number(t.latest_tps@, s.latest_tps)
    &&& says_number(t.weighted_tps@, s.weighted_tps)
    &&& says_number(t.avg_tps@, s.avg_tps)
    &&& are_levels(t.loss_levels@, s.loss_points@.len(), places)
    &&& are_levels(t.throughput_levels@, s.throughput_points@.len(), places)
}

/// A window in which the screen is shown.
pub open spec fn is_large(width: u16, height: u16) -> bool {
    width >= 50 && height >= 18
}

/// How wide the box is in which the rows of a panel stand.
pub open spec fn box_width(width: u16, title: Seq<char>, rows: Seq<Seq<char>>) -> nat {
    if width < 100 {
        panel_width(title, rows)
    } else {
        ((width - 3) / 2) as nat
    }
}

/// Every row of a panel is there, in its box.
pub open spec fn shows_rows(screen: Seq<char>, rows: Seq<Seq<char>>, width: nat) -> bool {
    forall|i: int| 0 <= i < rows.len() ==> mentions(screen, #[trigger] boxed(rows[i], width))
}

/// A text mentions itself.
proof fn lemma_mentions_itself(s: Seq<char>)
    ensures
        mentions(s, s),
{
    let none = Seq::<char>::empty();
    lemma_mentions_middle(none, s, none);
    assert(none + s + none =~= s);
}

/// Where the rows of two panels stand.
proof fn lemma_pair_rows(
    width: u16,
    left_title: Seq<char>,
    left: Seq<Seq<char>>,
    right_title: Seq<char>,
    right: Seq<Seq<char>>,
    i: int,
)
    ensures
        0 <= i < left.len() ==> exists|k: int|
            0 <= k < pair_lines(width, left_title, left, right_title, right).len() && mentions(
                #[trigger] pair_lines(width, left_title, left, right_title, right)[k],
                boxed(left[i], box_width(width, left_title, left)),
            ),
        0 <= i < right.len() ==> exists|k: int|
            0 <= k < pair_lines(width, left_title, left, right_title, right).len() && mentions(
                #[trigger] pair_lines(width, left_title, left, right_title, right)[k],
                boxed(right[i], box_width(width, right_title, right)),
            ),
{
    let lines = pair_lines(width, left_title, left, right_title, right);
    if width < 100 {
        let a = panel_lines(left_title, left);
        let b = panel_lines(right_title, right);
        if 0 <= i < left.len() {
            let row = boxed(left[i], panel_width(left_title, left));
            assert(a[i + 1] == row);
            assert(lines[i + 1] == a[i + 1]);
            lemma_mentions_itself(row);
        }
        if 0 <= i < right.len() {
            let row = boxed(right[i], panel_width(right_title, right));
            let k = a.len() + 1 + i + 1;
            assert(b[i + 1] == row);
            assert(lines[k] == b[i + 1]);
            lemma_mentions_itself(row);
        }
    } else {
        let col = ((width - 3) / 2) as nat;
        if 0 <= i < left.len() || 0 <= i < right.len() {
            let l = boxed(row_or_blank(left, i), col);
            let r = boxed(row_or_blank(right, i), col);
            let none = Seq::<char>::empty();
            assert(lines[i + 1] == l + " "@ + r);
            lemma_mentions_middle(none, l, " "@ + r);
            assert(none + l + (" "@ + r) =~= l + " "@ + r);
            lemma_mentions_middle(l + " "@, r, none);
            assert((l + " "@) + r + none =~= l + " "@ + r);
        }
    }
}

/// What a line mentions, the screen mentions.
proof fn lemma_line_is_shown(
    s: Snapshot,
    t: SnapshotTexts,
    width: u16,
    height: u16,
    frame: u64,
    k: int,
    part: Seq<char>,
)
    requires
        is_large(width, height),
        0 <= k < screen_lines(s, t, width, height, frame).len(),
        mentions(screen_lines(s, t, width, height, frame)[k], part),
    ensures
        mentions(screen_text(s, t, width, height, frame), part),
{
    let lines = screen_lines(s, t, width, height, frame);
    lemma_terminated_mentions(lines, k, part);
    lemma_behind("\x1b[?25l\x1b[2J\x1b[H"@, terminated(lines), part);
}

/// Where the parts of seven begin.
proof fn lemma_seven_parts(
    a: Seq<Seq<char>>,
    b: Seq<Seq<char>>,
    c: Seq<Seq<char>>,
    d: Seq<Seq<char>>,
    e: Seq<Seq<char>>,
    f: Seq<Seq<char>>,
    g: Seq<Seq<char>>,
)
    ensures
        ({
            let all = a + b + c + d + e + f + g;
            &&& all.len() == a.len() + b.len() + c.len() + d.len() + e.len() + f.len() + g.len()
            &&& forall|i: int| 0 <= i < b.len() ==> #[trigger] b[i] == all[a.len() + i]
            &&& forall|i: int|
                0 <= i < d.len() ==> #[trigger] d[i] == all[a.len() + b.len() + c.len() + i]
            &&& forall|i: int|
                0 <= i < f.len() ==> #[trigger] f[i] == all[a.len() + b.len() + c.len() + d.len()
                    + e.len() + i]
        }),
{
}

/// The upper two panels.
spec fn upper(s: Snapshot, t: SnapshotTexts, width: u16) -> Seq<Seq<char>> {
    pair_lines(width, "Overview"@, overview_rows(s), "Timing"@, timing_rows(s, t, width))
}

/// The two panels below them.
spec fn lower(s: Snapshot, t: SnapshotTexts, width: u16) -> Seq<Seq<char>> {
    pair_lines(width, "Training"@, training_rows(s, t, width), "Clients"@, client_rows(s))
}

/// Where the panels stand.
proof fn lemma_panels_are_shown(s: Snapshot, t: SnapshotTexts, width: u16, height: u16, frame: u64)
    ensures
        ({
            let lines = screen_lines(s, t, width, height, frame);
            let model = panel_lines(MODEL_TITLE@, model_rows(s));
            let one = upper(s, t, width);
            let two = lower(s, t, width);
            &&& forall|i: int|
                0 <= i < one.len() ==> 2 + i < lines.len() && #[trigger] one[i] == lines[2 + i]
            &&& forall|i: int|
                0 <= i < two.len() ==> 3 + one.len() + i < lines.len() && #[trigger] two[i] == lines[3
                    + one.len() + i]
            &&& height >= 32 ==> forall|i: int|
                0 <= i < model.len() ==> 4 + one.len() + two.len() + i < lines.len()
                    && #[trigger] model[i] == lines[4 + one.len() + two.len() + i]
        }),
{
    let lines = screen_lines(s, t, width, height, frame);
    let head = seq![title_line(s, frame), rule_line(width)];
    let none = seq![Seq::<char>::empty()];
    let one = upper(s, t, width);
    let two = lower(s, t, width);
    let model = panel_lines(MODEL_TITLE@, model_rows(s));
    let three = if height >= 32 {
        model + none
    } else {
        Seq::empty()
    };
    lemma_seven_parts(head, one, none, two, none, three, seq![foot_line()]);
    assert(lines == head + one + none + two + none + three + seq![foot_line()]);
    if height >= 32 {
        assert forall|i: int| 0 <= i < model.len() implies 4 + one.len() + two.len() + i < lines.len()
            && #[trigger] model[i] == lines[4 + one.len() + two.len() + i] by {
            assert(three[i] == model[i]);
        }
    }
}

/// Every row of every panel is on the screen, in its box; those on the model where the window is
/// high enough.
pub proof fn law_every_row_is_shown(
    s: Snapshot,
    t: SnapshotTexts,
    width: u16,
    height: u16,
    frame: u64,
)
    requires
        is_large(width, height),
    ensures
        ({
            let screen = screen_text(s, t, width, height, frame);
            let timing = timing_rows(s, t, width);
            let training = training_rows(s, t, width);
            &&& shows_rows(
                screen,
                overview_rows(s),
                box_width(width, "Overview"@, overview_rows(s)),
            )
            &&& shows_rows(screen, timing, box_width(width, "Timing"@, timing))
            &&& shows_rows(screen, training, box_width(width, "Training"@, training))
            &&& shows_rows(
                screen,
                client_rows(s),
                box_width(width, "Clients"@, client_rows(s)),
            )
            &&& height >= 32 ==> shows_rows(
                screen,
                model_rows(s),
                panel_width(MODEL_TITLE@, model_rows(s)),
            )
        }),
{
    lemma_rows_of_pair(s, t, width, height, frame);
    if height >= 32 {
        lemma_rows_of_model(s, t, width, height, frame);
    }
}

#[verifier::spinoff_prover]
proof fn lemma_rows_of_model(s: Snapshot, t: SnapshotTexts, width: u16, height: u16, frame: u64)
    requires
        is_large(width, height),
        height >= 32,
    ensures
        shows_rows(
            screen_text(s, t, width, height, frame),
            model_rows(s),
            panel_width(MODEL_TITLE@, model_rows(s)),
        ),
{
    lemma_panels_are_shown(s, t, width, height, frame);
    let rows = model_rows(s);
    let w = panel_width(MODEL_TITLE@, rows);
    let model = panel_lines(MODEL_TITLE@, rows);
    let at = 4 + upper(s, t, width).len() + lower(s, t, width).len();
    assert forall|i: int| 0 <= i < rows.len() implies mentions(
        screen_text(s, t, width, height, frame),
        #[trigger] boxed(rows[i], w),
    ) by {
        assert(model[i + 1] == boxed(rows[i], w));
        lemma_mentions_itself(boxed(rows[i], w));
        lemma_line_is_shown(s, t, width, height, frame, at + i + 1, boxed(rows[i], w));
    }
}

#[verifier::spinoff_prover]
proof fn lemma_rows_of_pair(s: Snapshot, t: SnapshotTexts, width: u16, height: u16, frame: u64)
    requires
        is_large(width, height),
    ensures
        ({
            let screen = screen_text(s, t, width, height, frame);
            let timing = timing_rows(s, t, width);
            let training = training_rows(s, t, width);
            &&& shows_rows(
                screen,
                overview_rows(s),
                box_width(width, "Overview"@, overview_rows(s)),
            )
            &&& shows_rows(screen, timing, box_width(width, "Timing"@, timing))
            &&& shows_rows(screen, training, box_width(width, "Training"@, training))
            &&& shows_rows(
                screen,
                client_rows(s),
                box_width(width, "Clients"@, client_rows(s)),
            )
        }),
{
    let screen = screen_text(s, t, width, height, frame);
    let one = upper(s, t, width);
    let two = lower(s, t, width);
    let overview = overview_rows(s);
    let timing = timing_rows(s, t, width);
    let training = training_rows(s, t, width);
    let clients = client_rows(s);
    let a = box_width(width, "Overview"@, overview);
    let b = box_width(width, "Timing"@, timing);
    let c = box_width(width, "Training"@, training);
    let d = box_width(width, "Clients"@, clients);
    lemma_panels_are_shown(s, t, width, height, frame);
    assert forall|i: int| 0 <= i < overview.len() implies mentions(
        screen,
        #[trigger] boxed(overview[i], a),
    ) by {
        lemma_pair_rows(width, "Overview"@, overview, "Timing"@, timing, i);
        let k = choose|k: int|
            0 <= k < one.len() && mentions(#[trigger] one[k], boxed(overview[i], a));
        lemma_line_is_shown(s, t, width, height, frame, 2 + k, boxed(overview[i], a));
    }
    assert forall|i: int| 0 <= i < timing.len() implies mentions(
        screen,
        #[trigger] boxed(timing[i], b),
    ) by {
        lemma_pair_rows(width, "Overview"@, overview, "Timing"@, timing, i);
        let k = choose|k: int|
            0 <= k < one.len() && mentions(#[trigger] one[k], boxed(timing[i], b));
        lemma_line_is_shown(s, t, width, height, frame, 2 + k, boxed(timing[i], b));
    }
    assert forall|i: int| 0 <= i < training.len() implies mentions(
        screen,
        #[trigger] boxed(training[i], c),
    ) by {
        lemma_pair_rows(width, "Training"@, training, "Clients"@, clients, i);
        let k = choose|k: int|
            0 <= k < two.len() && mentions(#[trigger] two[k], boxed(training[i], c));
        lemma_line_is_shown(s, t, width, height, frame, 3 + one.len() + k, boxed(training[i], c));
    }
    assert forall|i: int| 0 <= i < clients.len() implies mentions(
        screen,
        #[trigger] boxed(clients[i], d),
    ) by {
        lemma_pair_rows(width, "Training"@, training, "Clients"@, clients, i);
        let k = choose|k: int|
            0 <= k < two.len() && mentions(#[trigger] two[k], boxed(clients[i], d));
        lemma_line_is_shown(s, t, width, height, frame, 3 + one.len() + k, boxed(clients[i], d));
    }
}

/// Rows with the same key show the same only where their values are the same.
proof fn lemma_key_value_tells(key: Seq<char>, a: Seq<char>, b: Seq<char>)
    ensures
        key_value(key, a) == key_value(key, b) <==> a == b,
{
    let lead = DIM@ + padded_right(key, 15) + RESET@ + BLOOM_BONE@;
    let x = key_value(key, a);
    let y = key_value(key, b);
    assert(x =~= lead + a + RESET@);
    assert(y =~= lead + b + RESET@);
    if x == y {
        assert(x.len() == y.len());
        assert(a =~= x.subrange(lead.len() as int, lead.len() + a.len() as int));
        assert(b =~= y.subrange(lead.len() as int, lead.len() + b.len() as int));
    }
}

/// A line of bars stands for the last of `n` points, one bar for each, each of its height.
pub open spec fn are_bars_of(line: Seq<char>, n: nat, places: nat, levels: Seq<usize>) -> bool {
    &&& line.len() == n - window_start(n, places)
    &&& forall|i: int|
        0 <= i < line.len() ==> #[trigger] line[i] == level_bar(levels[i] as nat) && levels[i] <= 7
}

/// A screen shows the run that its words are taken from. What is not known shows as a dash, and what
/// is known does not. Losses and throughputs show as a bar for each of the last points, of its
/// height, once there are two, and as a dash before. All of these rows are on the screen.
pub open spec fn shows_run(screen: Seq<char>, s: Snapshot, t: SnapshotTexts, width: u16) -> bool {
    let rows = training_rows(s, t, width);
    let places = value_width(width) as nat;
    let losses = bars(s.loss_points@.len(), places, t.loss_levels@);
    let rates = bars(s.throughput_points@.len(), places, t.throughput_levels@);
    &&& shows_rows(screen, rows, box_width(width, "Training"@, rows))
    &&& rows.len() == 6
    &&& rows[0] == key_value("Latest Loss"@, "-"@) <==> s.latest_loss is None
    &&& rows[1] == key_value("Tokens/sec"@, "-"@) <==> s.latest_tps is None
    &&& rows[2] == key_value("Weighted tok/s"@, "-"@) <==> s.weighted_tps is None
    &&& rows[3] == key_value("Average tok/s"@, "-"@) <==> s.avg_tps is None
    &&& rows[4] == key_value("Loss"@, losses)
    &&& rows[5] == key_value("Throughput"@, rates)
    &&& if s.loss_points@.len() < 2 {
        losses == "-"@
    } else {
        are_bars_of(losses, s.loss_points@.len(), places, t.loss_levels@)
    }
    &&& if s.throughput_points@.len() < 2 {
        rates == "-"@
    } else {
        are_bars_of(rates, s.throughput_points@.len(), places, t.throughput_levels@)
    }
}

/// A screen in a window that is large enough shows the run that its words are taken from.
pub proof fn law_screen_shows_the_run(
    s: Snapshot,
    t: SnapshotTexts,
    width: u16,
    height: u16,
    frame: u64,
)
    requires
        is_large(width, height),
        words_fit(t, s, width),
    ensures
        shows_run(screen_text(s, t, width, height, frame), s, t, width),
{
    law_every_row_is_shown(s, t, width, height, frame);
    lemma_key_value_tells("Latest Loss"@, t.latest_loss@, "-"@);
    lemma_key_value_tells("Tokens/sec"@, t.latest_tps@, "-"@);
    lemma_key_value_tells("Weighted tok/s"@, t.weighted_tps@, "-"@);
    lemma_key_value_tells("Average tok/s"@, t.avg_tps@, "-"@);
    assert(value_width(width) > 0);
}

} // verus!
