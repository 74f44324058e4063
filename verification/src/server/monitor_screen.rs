//! The monitor's screen, line by line.

use vstd::prelude::*;
use vstd::string::StringExecFns;
use vstd::utf8::{encode_utf8, is_ascii_chars, is_ascii_chars_encode_utf8};

use super::labels::{duration_text, eta_text, format_duration, format_eta};
use super::monitor::Snapshot;
use super::screen_rows::{is_large, law_screen_shows_the_run, shows_run, words_fit};
use super::terminal_text::{
    box_bottom, box_top, boxed, boxed_line, color_line, coloured, key_value, kv_line,
    law_box_bottom_lines_up, law_box_top_lines_up, law_boxed_lines_line_up, lemma_box_colours,
    lemma_plain, lemma_repeated_plain, lemma_visible_concat, less, panel_bottom, panel_top, plain,
    shorten, shortened, tidy, visible_len, visible_width, ACCENT_AMBER, BLOOM_BONE, BOLD, BRAND_A,
    BRAND_B, DIM, PANEL_HI, RESET,
};
use crate::text::{concatenated, decimal, decimal_text, repeat_char, repeated, views};

verus! {

broadcast use {crate::text::lemma_views_push, crate::text::lemma_views_concat};

// Bars

/// How many places a bar or a line of bars has beside its key, in a window of this width.
pub open spec fn value_width(width: u16) -> u16 {
    (if width >= 100 {
        less(((width - 3) / 2) as nat, 23)
    } else {
        less(width as nat, 27)
    }) as u16
}

/// How many places a bar or a line of bars has beside its key, in a window of this width.
pub fn panel_value_width(width: u16) -> (r: u16)
    ensures
        r == value_width(width),
{
    if width >= 100 {
        ((width as usize - 3) / 2).saturating_sub(23) as u16
    } else {
        width.saturating_sub(27)
    }
}

/// The greater of two numbers.
pub open spec fn at_least(n: nat, least: nat) -> nat {
    if n >= least {
        n
    } else {
        least
    }
}

/// The lesser of two numbers.
pub open spec fn at_most(n: nat, most: nat) -> nat {
    if n <= most {
        n
    } else {
        most
    }
}

/// A bar of at least eight places, `filled` of them.
pub open spec fn bar(filled: nat, width: nat) -> Seq<char> {
    let places = at_least(width, 8);
    let full = at_most(filled, places);
    repeated('━', full) + repeated('─', (places - full) as nat)
}

/// A bar of at least eight places, `filled` of them.
pub fn progress_bar(filled: usize, width: usize) -> (r: String)
    ensures
        r@ == bar(filled as nat, width as nat),
{
    let places: usize = if width < 8 {
        8
    } else {
        width
    };
    let full: usize = if filled < places {
        filled
    } else {
        places
    };
    let mut out = repeat_char('━', full);
    out.append(repeat_char('─', places - full).as_str());
    out
}

/// A bar has as many places as it should, however much of it is filled.
pub proof fn law_bar_is_full_width(filled: nat, width: nat)
    ensures
        bar(filled, width).len() == at_least(width, 8),
{
}

/// The first of `n` points that a line of bars shows: the last eight to eighty, as many as fit.
pub open spec fn window_start(n: nat, width: nat) -> nat {
    less(n, at_most(at_least(width, 8), 80))
}

/// The first of `n` points that a line of bars shows.
pub fn sparkline_start(n: usize, width: usize) -> (r: usize)
    ensures
        r == window_start(n as nat, width as nat),
{
    let shown: usize = if width < 8 {
        8
    } else if width > 80 {
        80
    } else {
        width
    };
    n.saturating_sub(shown)
}

/// A bar of the given height, from nothing to seven.
pub open spec fn level_bar(level: nat) -> char {
    if level == 0 {
        '▁'
    } else if level == 1 {
        '▂'
    } else if level == 2 {
        '▃'
    } else if level == 3 {
        '▄'
    } else if level == 4 {
        '▅'
    } else if level == 5 {
        '▆'
    } else if level == 6 {
        '▇'
    } else {
        '█'
    }
}

/// A line of bars for `n` points, `levels` being the heights of those it shows; a dash where there
/// are not two points, or no place.
pub open spec fn bars(n: nat, width: nat, levels: Seq<usize>) -> Seq<char> {
    if n < 2 || width == 0 {
        "-"@
    } else {
        levels.map_values(|l: usize| level_bar(l as nat))
    }
}

/// A line of bars for `n` points, `levels` being the heights of those it shows.
pub fn sparkline(n: usize, width: usize, levels: &Vec<usize>) -> (r: String)
    ensures
        r@ == bars(n as nat, width as nat, levels@),
{
    if n < 2 || width == 0 {
        return "-".to_string();
    }
    let mut out = String::new();
    let mut i: usize = 0;
    while i < levels.len()
        invariant
            n >= 2,
            width > 0,
            i <= levels@.len(),
            out@ == bars(n as nat, width as nat, levels@).take(i as int),
        decreases levels@.len() - i,
    {
        let l: usize = levels[i];
        let c = if l == 0 {
            '▁'
        } else if l == 1 {
            '▂'
        } else if l == 2 {
            '▃'
        } else if l == 3 {
            '▄'
        } else if l == 4 {
            '▅'
        } else if l == 5 {
            '▆'
        } else if l == 6 {
            '▇'
        } else {
            '█'
        };
        out.push(c);
        i = i + 1;
        assert(out@ =~= bars(n as nat, width as nat, levels@).take(i as int));
    }
    assert(bars(n as nat, width as nat, levels@).take(i as int) =~= bars(
        n as nat,
        width as nat,
        levels@,
    ));
    out
}

// Panels

/// The width of the widest row.
pub open spec fn widest(rows: Seq<Seq<char>>) -> nat
    decreases rows.len(),
{
    if rows.len() == 0 {
        0
    } else {
        at_least(widest(rows.drop_last()), visible_width(rows.last()))
    }
}

/// How many bytes a text takes.
pub open spec fn byte_len(s: Seq<char>) -> usize {
    encode_utf8(s).len() as usize
}

/// The width of a panel: its widest row, or its title, with a border. A title counts by its bytes.
pub open spec fn panel_width(title: Seq<char>, rows: Seq<Seq<char>>) -> nat {
    at_most(
        at_least(widest(rows), at_most(byte_len(title) as nat + 2, usize::MAX as nat)) + 4,
        usize::MAX as nat,
    )
}

/// The top of a panel that stands alone.
pub open spec fn panel_head(title: Seq<char>, width: nat) -> Seq<char> {
    PANEL_HI@ + "┌─ "@ + BLOOM_BONE@ + BOLD@ + title + RESET@ + PANEL_HI@ + " "@ + repeated(
        '─',
        less(less(width, 2), at_most(byte_len(title) as nat + 3, usize::MAX as nat)),
    ) + "┐"@ + RESET@
}

/// The lines of a panel that stands alone.
pub open spec fn panel_lines(title: Seq<char>, rows: Seq<Seq<char>>) -> Seq<Seq<char>> {
    let width = panel_width(title, rows);
    seq![panel_head(title, width)] + rows.map_values(|row: Seq<char>| boxed(row, width)) + seq![
        box_bottom(width),
    ]
}

/// The row at place `i`, or an empty one below the last.
pub open spec fn row_or_blank(rows: Seq<Seq<char>>, i: int) -> Seq<char> {
    if i < rows.len() {
        rows[i]
    } else {
        Seq::empty()
    }
}

/// The lines of two panels: side by side in a window that is wide enough, else one below the other.
pub open spec fn pair_lines(
    width: u16,
    left_title: Seq<char>,
    left: Seq<Seq<char>>,
    right_title: Seq<char>,
    right: Seq<Seq<char>>,
) -> Seq<Seq<char>> {
    if width < 100 {
        panel_lines(left_title, left) + seq![Seq::empty()] + panel_lines(right_title, right)
    } else {
        let col = ((width - 3) / 2) as nat;
        seq![box_top(left_title, col) + " "@ + box_top(right_title, col)] + Seq::new(
            at_least(left.len(), right.len()),
            |i: int|
                boxed(row_or_blank(left, i), col) + " "@ + boxed(row_or_blank(right, i), col),
        ) + seq![box_bottom(col) + " "@ + box_bottom(col)]
    }
}

fn widest_row(rows: &Vec<String>) -> (r: usize)
    ensures
        r == widest(views(rows@)),
{
    let mut w: usize = 0;
    let mut i: usize = 0;
    assert(views(rows@).take(0) =~= Seq::<Seq<char>>::empty());
    while i < rows.len()
        invariant
            i <= rows@.len(),
            w == widest(views(rows@).take(i as int)),
        decreases rows@.len() - i,
    {
        let v: usize = visible_len(rows[i].as_str());
        proof {
            let t = views(rows@).take(i as int + 1);
            assert(t.drop_last() =~= views(rows@).take(i as int));
            assert(t.last() == rows@[i as int]@);
        }
        if v > w {
            w = v;
        }
        i = i + 1;
    }
    assert(views(rows@).take(i as int) =~= views(rows@));
    w
}

fn render_panel_head(title: &str, width: usize) -> (r: String)
    ensures
        r@ == panel_head(title@, width as nat),
{
    let border: usize = width.saturating_sub(2);
    let rule: usize = border.saturating_sub(title.len().saturating_add(3));
    let mut out = PANEL_HI.to_string();
    out.append("┌─ ");
    out.append(BLOOM_BONE);
    out.append(BOLD);
    out.append(title);
    out.append(RESET);
    out.append(PANEL_HI);
    out.append(" ");
    out.append(repeat_char('─', rule).as_str());
    out.append("┐");
    out.append(RESET);
    out
}

/// The lines of a panel that stands alone.
pub fn render_panel(title: &str, rows: &Vec<String>) -> (r: Vec<String>)
    ensures
        views(r@) == panel_lines(title@, views(rows@)),
{
    let mut inner: usize = widest_row(rows);
    let least: usize = title.len().saturating_add(2);
    if inner < least {
        inner = least;
    }
    let width: usize = inner.saturating_add(4);
    assert(width == panel_width(title@, views(rows@)));
    let ghost f = |row: Seq<char>| boxed(row, width as nat);
    let ghost all = views(rows@);
    let ghost head = seq![panel_head(title@, width as nat)];
    let mut out: Vec<String> = Vec::new();
    out.push(render_panel_head(title, width));
    let mut i: usize = 0;
    assert(views(out@) =~= head + all.take(0).map_values(f));
    while i < rows.len()
        invariant
            i <= rows@.len(),
            all == views(rows@),
            f == (|row: Seq<char>| boxed(row, width as nat)),
            views(out@) == head + all.take(i as int).map_values(f),
        decreases rows@.len() - i,
    {
        out.push(boxed_line(rows[i].as_str(), width));
        i = i + 1;
        assert(views(out@) =~= head + all.take(i as int).map_values(f));
    }
    assert(all.take(i as int) =~= all);
    out.push(panel_bottom(width));
    assert(views(out@) =~= panel_lines(title@, views(rows@)));
    out
}

fn side_by_side(left: String, right: &str) -> (r: String)
    ensures
        r@ == left@ + " "@ + right@,
{
    let mut out = left;
    out.append(" ");
    out.append(right);
    out
}

fn boxed_row(rows: &Vec<String>, i: usize, width: usize) -> (r: String)
    ensures
        r@ == boxed(row_or_blank(views(rows@), i as int), width as nat),
{
    if i < rows.len() {
        boxed_line(rows[i].as_str(), width)
    } else {
        boxed_line(String::new().as_str(), width)
    }
}

/// The lines of two panels: side by side in a window that is wide enough, else one below the other.
pub fn render_panel_pair(
    width: u16,
    left_title: &str,
    left: &Vec<String>,
    right_title: &str,
    right: &Vec<String>,
) -> (r: Vec<String>)
    ensures
        views(r@) == pair_lines(width, left_title@, views(left@), right_title@, views(right@)),
{
    if width < 100 {
        let mut out = render_panel(left_title, left);
        out.push(String::new());
        let mut below = render_panel(right_title, right);
        out.append(&mut below);
        assert(views(out@) =~= pair_lines(
            width,
            left_title@,
            views(left@),
            right_title@,
            views(right@),
        ));
        return out;
    }
    let col: usize = (width as usize - 3) / 2;
    let ghost l = views(left@);
    let ghost r = views(right@);
    let n: usize = if left.len() > right.len() {
        left.len()
    } else {
        right.len()
    };
    let ghost body = Seq::new(
        n as nat,
        |i: int|
            boxed(row_or_blank(l, i), col as nat) + " "@ + boxed(row_or_blank(r, i), col as nat),
    );
    let ghost top = seq![box_top(left_title@, col as nat) + " "@ + box_top(right_title@, col as nat)];
    let mut out: Vec<String> = Vec::new();
    out.push(side_by_side(panel_top(left_title, col), panel_top(right_title, col).as_str()));
    let mut i: usize = 0;
    assert(views(out@) =~= top + body.take(0));
    while i < n
        invariant
            i <= n,
            l == views(left@),
            r == views(right@),
            body == Seq::new(
                n as nat,
                |i: int|
                    boxed(row_or_blank(l, i), col as nat) + " "@ + boxed(
                        row_or_blank(r, i),
                        col as nat,
                    ),
            ),
            views(out@) == top + body.take(i as int),
        decreases n - i,
    {
        out.push(side_by_side(boxed_row(left, i, col), boxed_row(right, i, col).as_str()));
        i = i + 1;
        assert(views(out@) =~= top + body.take(i as int));
    }
    assert(body.take(i as int) =~= body);
    out.push(side_by_side(panel_bottom(col), panel_bottom(col).as_str()));
    assert(views(out@) =~= pair_lines(width, left_title@, l, right_title@, r));
    out
}

/// Every row is tidy.
pub open spec fn all_tidy(rows: Seq<Seq<char>>) -> bool {
    forall|i: int| 0 <= i < rows.len() ==> tidy(#[trigger] rows[i])
}

/// The top of a panel that stands alone is as wide as the panel, where its title fits.
proof fn lemma_panel_head(title: Seq<char>, width: nat)
    requires
        plain(title),
        is_ascii_chars(title),
        title.len() + 6 <= width <= usize::MAX,
    ensures
        visible_width(panel_head(title, width)) == width,
{
    is_ascii_chars_encode_utf8(title);
    let n = less(less(width, 2), title.len() + 3);
    let rule = repeated('─', n);
    lemma_box_colours();
    lemma_plain(title);
    lemma_repeated_plain('─', n);
    reveal_strlit("┌─ ");
    reveal_strlit(" ");
    reveal_strlit("┐");
    lemma_plain("┌─ "@);
    lemma_plain(" "@);
    lemma_plain("┐"@);
    let a = PANEL_HI@ + "┌─ "@;
    let b = a + BLOOM_BONE@;
    let c = b + BOLD@;
    let d = c + title;
    let e = d + RESET@;
    let f = e + PANEL_HI@;
    let g = f + " "@;
    let h = g + rule;
    let k = h + "┐"@;
    lemma_visible_concat(PANEL_HI@, "┌─ "@);
    lemma_visible_concat(a, BLOOM_BONE@);
    lemma_visible_concat(b, BOLD@);
    lemma_visible_concat(c, title);
    lemma_visible_concat(d, RESET@);
    lemma_visible_concat(e, PANEL_HI@);
    lemma_visible_concat(f, " "@);
    lemma_visible_concat(g, rule);
    lemma_visible_concat(h, "┐"@);
    lemma_visible_concat(k, RESET@);
}

/// The lines of a panel that stands alone are all as wide as the panel, if its title is ASCII.
pub proof fn law_panel_lines_line_up(title: Seq<char>, rows: Seq<Seq<char>>, i: int)
    requires
        plain(title),
        is_ascii_chars(title),
        all_tidy(rows),
        title.len() + 6 <= usize::MAX,
        0 <= i < panel_lines(title, rows).len(),
    ensures
        visible_width(panel_lines(title, rows)[i]) == panel_width(title, rows),
{
    let width = panel_width(title, rows);
    is_ascii_chars_encode_utf8(title);
    if i == 0 {
        lemma_panel_head(title, width);
    } else if i <= rows.len() {
        assert(panel_lines(title, rows)[i] == boxed(rows[i - 1], width));
        law_boxed_lines_line_up(rows[i - 1], width);
    } else {
        law_box_bottom_lines_up(width);
    }
}

/// The lines of two panels side by side all end at the same place.
pub proof fn law_pair_lines_line_up(
    width: u16,
    left_title: Seq<char>,
    left: Seq<Seq<char>>,
    right_title: Seq<char>,
    right: Seq<Seq<char>>,
    i: int,
)
    requires
        width >= 100,
        plain(left_title),
        plain(right_title),
        left_title.len() + 5 <= (width - 3) / 2,
        right_title.len() + 5 <= (width - 3) / 2,
        all_tidy(left),
        all_tidy(right),
        0 <= i < pair_lines(width, left_title, left, right_title, right).len(),
    ensures
        visible_width(pair_lines(width, left_title, left, right_title, right)[i]) == 2 * ((width - 3)
            / 2) + 1,
{
    let col = ((width - 3) / 2) as nat;
    let lines = pair_lines(width, left_title, left, right_title, right);
    let n = at_least(left.len(), right.len());
    reveal_strlit(" ");
    lemma_plain(" "@);
    let (a, b) = if i == 0 {
        law_box_top_lines_up(left_title, col);
        law_box_top_lines_up(right_title, col);
        (box_top(left_title, col), box_top(right_title, col))
    } else if i <= n {
        let l = row_or_blank(left, i - 1);
        let r = row_or_blank(right, i - 1);
        lemma_plain(Seq::<char>::empty());
        law_boxed_lines_line_up(l, col);
        law_boxed_lines_line_up(r, col);
        (boxed(l, col), boxed(r, col))
    } else {
        law_box_bottom_lines_up(col);
        (box_bottom(col), box_bottom(col))
    };
    assert(lines[i] == a + " "@ + b);
    lemma_visible_concat(a, " "@);
    lemma_visible_concat(a + " "@, b);
}

// The screen

/// What is asked for in a window that is too small.
pub const RESIZE: &'static str = "Resize terminal to at least 50x18.";

/// The title of the panel that only high windows show.
pub const MODEL_TITLE: &'static str = "Config / Model";

/// The fractions of a snapshot, put into words.
#[derive(Debug)]
pub struct SnapshotTexts {
    pub progress: String,
    /// How much of the bar of progress is filled.
    pub progress_filled: usize,
    pub latest_loss: String,
    pub latest_tps: String,
    pub weighted_tps: String,
    pub avg_tps: String,
    /// The heights of the losses that are shown.
    pub loss_levels: Vec<usize>,
    /// The heights of the throughputs that are shown.
    pub throughput_levels: Vec<usize>,
}

/// The rows of the overview.
pub open spec fn overview_rows(s: Snapshot) -> Seq<Seq<char>> {
    seq![
        key_value("Run"@, shortened(s.run_id@, 28)),
        key_value("State"@, s.run_state@),
        key_value("Epoch"@, decimal(s.epoch as nat)),
        key_value("Step"@, decimal(s.step as nat) + " / "@ + decimal(s.total_steps as nat)),
        key_value("Height"@, decimal(s.height as nat)),
        key_value("Epoch Steps"@, s.epoch_steps@),
        key_value(
            "Server"@,
            if s.server_addr@.len() == 0 {
                "-"@
            } else {
                s.server_addr@
            },
        ),
    ]
}

fn render_overview(s: &Snapshot) -> (r: Vec<String>)
    ensures
        views(r@) == overview_rows(*s),
{
    let mut steps = decimal_text(s.step as u64);
    steps.append(" / ");
    steps.append(decimal_text(s.total_steps as u64).as_str());
    let server =
    if s.server_addr.as_str().is_empty() {
        "-".to_string()
    } else {
        s.server_addr.clone()
    };
    let rows = vec![
        kv_line("Run", shorten(s.run_id.as_str(), 28).as_str()),
        kv_line("State", s.run_state.as_str()),
        kv_line("Epoch", decimal_text(s.epoch as u64).as_str()),
        kv_line("Step", steps.as_str()),
        kv_line("Height", decimal_text(s.height as u64).as_str()),
        kv_line("Epoch Steps", s.epoch_steps.as_str()),
        kv_line("Server", server.as_str()),
    ];
    assert(views(rows@) =~= overview_rows(*s));
    rows
}

/// The rows of the timing.
pub open spec fn timing_rows(s: Snapshot, t: SnapshotTexts, width: u16) -> Seq<Seq<char>> {
    seq![
        key_value("Progress"@, t.progress@),
        coloured(BRAND_A@, bar(t.progress_filled as nat, value_width(width) as nat)),
        key_value("Elapsed"@, eta_text(s.elapsed)),
        key_value("Remaining"@, decimal(s.remaining_steps as nat)),
        key_value(
            "Tokens/Step"@,
            match s.tokens_per_step {
                Some(n) => decimal(n as nat),
                None => "-"@,
            },
        ),
        key_value("ETA Weighted"@, eta_text(s.eta_weighted)),
        key_value("ETA Current"@, eta_text(s.eta_current)),
    ]
}

fn render_timing(s: &Snapshot, t: &SnapshotTexts, width: u16) -> (r: Vec<String>)
    ensures
        views(r@) == timing_rows(*s, *t, width),
{
    let places: usize = panel_value_width(width) as usize;
    let tokens = match s.tokens_per_step {
        Some(n) => decimal_text(n),
        None => "-".to_string(),
    };
    let rows = vec![
        kv_line("Progress", t.progress.as_str()),
        color_line(BRAND_A, progress_bar(t.progress_filled, places).as_str()),
        kv_line("Elapsed", format_eta(s.elapsed).as_str()),
        kv_line("Remaining", decimal_text(s.remaining_steps as u64).as_str()),
        kv_line("Tokens/Step", tokens.as_str()),
        kv_line("ETA Weighted", format_eta(s.eta_weighted).as_str()),
        kv_line("ETA Current", format_eta(s.eta_current).as_str()),
    ];
    assert(views(rows@) =~= timing_rows(*s, *t, width));
    rows
}

/// The rows of the training.
pub open spec fn training_rows(s: Snapshot, t: SnapshotTexts, width: u16) -> Seq<Seq<char>> {
    let places = value_width(width) as nat;
    seq![
        key_value("Latest Loss"@, t.latest_loss@),
        key_value("Tokens/sec"@, t.latest_tps@),
        key_value("Weighted tok/s"@, t.weighted_tps@),
        key_value("Average tok/s"@, t.avg_tps@),
        key_value("Loss"@, bars(s.loss_points@.len(), places, t.loss_levels@)),
        key_value("Throughput"@, bars(s.throughput_points@.len(), places, t.throughput_levels@)),
    ]
}

fn render_training(s: &Snapshot, t: &SnapshotTexts, width: u16) -> (r: Vec<String>)
    ensures
        views(r@) == training_rows(*s, *t, width),
{
    let places: usize = panel_value_width(width) as usize;
    let loss = sparkline(s.loss_points.len(), places, &t.loss_levels);
    let throughput = sparkline(s.throughput_points.len(), places, &t.throughput_levels);
    let rows = vec![
        kv_line("Latest Loss", t.latest_loss.as_str()),
        kv_line("Tokens/sec", t.latest_tps.as_str()),
        kv_line("Weighted tok/s", t.weighted_tps.as_str()),
        kv_line("Average tok/s", t.avg_tps.as_str()),
        kv_line("Loss", loss.as_str()),
        kv_line("Throughput", throughput.as_str()),
    ];
    assert(views(rows@) =~= training_rows(*s, *t, width));
    rows
}

/// The rows of the clients.
pub open spec fn client_rows(s: Snapshot) -> Seq<Seq<char>> {
    seq![
        key_value("Healthy"@, decimal(s.healthy as nat)),
        key_value("Ready"@, decimal(s.ready_clients as nat)),
        key_value("Syncing"@, decimal(s.syncing_clients as nat)),
        key_value("Dropped"@, decimal(s.dropped as nat)),
        key_value("Withdrawn"@, decimal(s.withdrawn as nat)),
        key_value("Ejected"@, decimal(s.ejected as nat)),
        key_value(
            "Total"@,
            decimal((s.healthy + s.dropped + s.withdrawn + s.ejected) as nat),
        ),
    ]
}

fn render_clients(s: &Snapshot) -> (r: Vec<String>)
    requires
        s.can_count(),
    ensures
        views(r@) == client_rows(*s),
{
    let total: usize = s.healthy + s.dropped + s.withdrawn + s.ejected;
    let rows = vec![
        kv_line("Healthy", decimal_text(s.healthy as u64).as_str()),
        kv_line("Ready", decimal_text(s.ready_clients as u64).as_str()),
        kv_line("Syncing", decimal_text(s.syncing_clients as u64).as_str()),
        kv_line("Dropped", decimal_text(s.dropped as u64).as_str()),
        kv_line("Withdrawn", decimal_text(s.withdrawn as u64).as_str()),
        kv_line("Ejected", decimal_text(s.ejected as u64).as_str()),
        kv_line("Total", decimal_text(total as u64).as_str()),
    ];
    assert(views(rows@) =~= client_rows(*s));
    rows
}

/// The rows of the model and its settings.
pub open spec fn model_rows(s: Snapshot) -> Seq<Seq<char>> {
    seq![
        key_value("Model"@, s.model@),
        key_value("Checkpoint"@, s.checkpoint@),
        key_value("Warmup"@, duration_text(s.warmup_time as nat)),
        key_value("Epoch Time"@, duration_text(s.epoch_time as nat)),
        key_value("Init Min"@, decimal(s.init_min_clients as nat)),
        key_value("Min Clients"@, decimal(s.min_clients as nat)),
        key_value("Witnesses"@, decimal(s.witness_nodes as nat)),
    ]
}

fn render_model(s: &Snapshot) -> (r: Vec<String>)
    ensures
        views(r@) == model_rows(*s),
{
    let rows = vec![
        kv_line("Model", s.model.as_str()),
        kv_line("Checkpoint", s.checkpoint.as_str()),
        kv_line("Warmup", format_duration(s.warmup_time).as_str()),
        kv_line("Epoch Time", format_duration(s.epoch_time).as_str()),
        kv_line("Init Min", decimal_text(s.init_min_clients as u64).as_str()),
        kv_line("Min Clients", decimal_text(s.min_clients as u64).as_str()),
        kv_line("Witnesses", decimal_text(s.witness_nodes as u64).as_str()),
    ];
    assert(views(rows@) =~= model_rows(*s));
    rows
}

/// The line at the top: the name, which changes colour every eighth frame, and the run's state.
pub open spec fn title_line(s: Snapshot, frame: u64) -> Seq<char> {
    (if frame % 8 == 0 {
        BRAND_B@
    } else {
        BRAND_A@
    }) + BOLD@ + "◆ AETHERCOMPUTE"@ + RESET@ + "  "@ + DIM@ + "Training Monitor"@ + RESET@ + "  "@ + (if s.waiting {
        ACCENT_AMBER@
    } else {
        BRAND_B@
    }) + (if s.waiting {
        "initializing"@
    } else {
        s.run_state@
    }) + RESET@
}

fn render_title(s: &Snapshot, frame: u64) -> (r: String)
    ensures
        r@ == title_line(*s, frame),
{
    let brand =
    if frame % 8 == 0 {
        BRAND_B
    } else {
        BRAND_A
    };
    let mut out = brand.to_string();
    out.append(BOLD);
    out.append("◆ AETHERCOMPUTE");
    out.append(RESET);
    out.append("  ");
    out.append(DIM);
    out.append("Training Monitor");
    out.append(RESET);
    out.append("  ");
    if s.waiting {
        out.append(ACCENT_AMBER);
        out.append("initializing");
    } else {
        out.append(BRAND_B);
        out.append(s.run_state.as_str());
    }
    out.append(RESET);
    out
}

/// The line below the title.
pub open spec fn rule_line(width: u16) -> Seq<char> {
    PANEL_HI@ + repeated('─', width as nat) + RESET@
}

/// The line at the bottom.
pub open spec fn foot_line() -> Seq<char> {
    DIM@ + "live SSH view · q/Ctrl-C: close · monitor.aethercompute.org"@ + RESET@
}

/// The lines of the screen.
pub open spec fn screen_lines(s: Snapshot, t: SnapshotTexts, width: u16, height: u16, frame: u64) -> Seq<
    Seq<char>,
> {
    seq![title_line(s, frame), rule_line(width)] + pair_lines(
        width,
        "Overview"@,
        overview_rows(s),
        "Timing"@,
        timing_rows(s, t, width),
    ) + seq![Seq::empty()] + pair_lines(
        width,
        "Training"@,
        training_rows(s, t, width),
        "Clients"@,
        client_rows(s),
    ) + seq![Seq::empty()] + (if height >= 32 {
        panel_lines(MODEL_TITLE@, model_rows(s)) + seq![Seq::empty()]
    } else {
        Seq::empty()
    }) + seq![foot_line()]
}

/// `lines`, each ended as a terminal wants it.
pub open spec fn terminated(lines: Seq<Seq<char>>) -> Seq<char> {
    concatenated(lines.map_values(|l: Seq<char>| l + "\r\n"@))
}

/// What is shown in a window that is too small.
pub open spec fn too_small() -> Seq<char> {
    "\x1b[2J\x1b[H"@ + BRAND_A@ + BOLD@ + "◆ AETHERCOMPUTE"@ + RESET@ + "\r\n\r\n"@ + BLOOM_BONE@
        + RESIZE@ + RESET@ + "\r\n"@
}

fn render_too_small() -> (r: String)
    ensures
        r@ == too_small(),
{
    let mut out = "\x1b[2J\x1b[H".to_string();
    out.append(BRAND_A);
    out.append(BOLD);
    out.append("◆ AETHERCOMPUTE");
    out.append(RESET);
    out.append("\r\n\r\n");
    out.append(BLOOM_BONE);
    out.append(RESIZE);
    out.append(RESET);
    out.append("\r\n");
    out
}

fn render_lines(s: &Snapshot, t: &SnapshotTexts, width: u16, height: u16, frame: u64) -> (r: Vec<
    String,
>)
    requires
        s.can_count(),
    ensures
        views(r@) == screen_lines(*s, *t, width, height, frame),
{
    let mut rule = PANEL_HI.to_string();
    rule.append(repeat_char('─', width as usize).as_str());
    rule.append(RESET);
    let mut foot = DIM.to_string();
    foot.append("live SSH view · q/Ctrl-C: close · monitor.aethercompute.org");
    foot.append(RESET);
    let mut lines: Vec<String> = Vec::new();
    lines.push(render_title(s, frame));
    lines.push(rule);
    assert(views(lines@) =~= seq![title_line(*s, frame), rule_line(width)]);
    let overview = render_overview(s);
    let timing = render_timing(s, t, width);
    let mut first = render_panel_pair(width, "Overview", &overview, "Timing", &timing);
    lines.append(&mut first);
    lines.push(String::new());
    let training = render_training(s, t, width);
    let clients = render_clients(s);
    let mut second = render_panel_pair(width, "Training", &training, "Clients", &clients);
    lines.append(&mut second);
    lines.push(String::new());
    if height >= 32 {
        let model = render_model(s);
        let mut third = render_panel(MODEL_TITLE, &model);
        lines.append(&mut third);
        lines.push(String::new());
    }
    lines.push(foot);
    assert(views(lines@) =~= screen_lines(*s, *t, width, height, frame));
    lines
}

/// The screen, for a window of the given size.
pub open spec fn screen_text(s: Snapshot, t: SnapshotTexts, width: u16, height: u16, frame: u64) -> Seq<char> {
    if width < 50 || height < 18 {
        too_small()
    } else {
        "\x1b[?25l\x1b[2J\x1b[H"@ + terminated(screen_lines(s, t, width, height, frame))
    }
}

/// The screen, for a window of the given size.
pub fn render_ansi(s: &Snapshot, t: &SnapshotTexts, width: u16, height: u16, frame: u64) -> (r: String)
    requires
        s.can_count(),
    ensures
        r@ == screen_text(*s, *t, width, height, frame),
        is_large(width, height) && words_fit(*t, *s, width) ==> shows_run(r@, *s, *t, width),
{
    if width < 50 || height < 18 {
        return render_too_small();
    }
    let lines = render_lines(s, t, width, height, frame);
    let ghost f = |l: Seq<char>| l + "\r\n"@;
    let ghost all = views(lines@);
    let ghost start = "\x1b[?25l\x1b[2J\x1b[H"@;
    let mut out = "\x1b[?25l\x1b[2J\x1b[H".to_string();
    let mut i: usize = 0;
    assert(all.take(0).map_values(f) =~= Seq::<Seq<char>>::empty());
    assert(out@ =~= start + concatenated(all.take(0).map_values(f)));
    while i < lines.len()
        invariant
            i <= lines@.len(),
            all == views(lines@),
            f == (|l: Seq<char>| l + "\r\n"@),
            out@ == start + concatenated(all.take(i as int).map_values(f)),
        decreases lines@.len() - i,
    {
        let ghost before = all.take(i as int).map_values(f);
        let ghost after = all.take(i as int + 1).map_values(f);
        assert(after.drop_last() =~= before);
        assert(after.last() == lines@[i as int]@ + "\r\n"@);
        out.append(lines[i].as_str());
        out.append("\r\n");
        assert(out@ =~= start + concatenated(after));
        i = i + 1;
    }
    assert(all.take(i as int) =~= all);
    proof {
        if words_fit(*t, *s, width) {
            law_screen_shows_the_run(*s, *t, width, height, frame);
        }
    }
    out
}

// Watchers

/// The window of somebody who watches.
#[derive(Debug, Clone, Copy)]
pub struct ClientView {
    pub width: u16,
    pub height: u16,
    pub frame: u64,
}

impl ClientView {
    /// The window before its size is known.
    pub fn new() -> (r: Self)
        ensures
            r == (ClientView { width: 80, height: 24, frame: 0 }),
    {
        ClientView { width: 80, height: 24, frame: 0 }
    }

    /// The window has another size, which is at least one each way.
    pub fn resize(&mut self, col_width: u32, row_height: u32)
        ensures
            *final(self) == (ClientView {
                width: clamped(col_width),
                height: clamped(row_height),
                ..*old(self)
            }),
    {
        self.width = clamp_size(col_width);
        self.height = clamp_size(row_height);
    }

    /// The next frame is due; after the last comes the first.
    pub fn advance(&mut self)
        ensures
            *final(self) == (ClientView {
                frame: if old(self).frame == u64::MAX {
                    0
                } else {
                    (old(self).frame + 1) as u64
                },
                ..*old(self)
            }),
    {
        self.frame = self.frame.wrapping_add(1);
    }
}

/// A size within one and 65535.
pub open spec fn clamped(n: u32) -> u16 {
    (if n < 1 {
        1
    } else if n > 65535 {
        65535
    } else {
        n
    }) as u16
}

fn clamp_size(n: u32) -> (r: u16)
    ensures
        r == clamped(n),
{
    if n < 1 {
        1
    } else if n > 65535 {
        65535
    } else {
        n as u16
    }
}

/// Whether what was typed ends the view: a `q`, or control and `c`.
pub fn ends_view(data: &Vec<u8>) -> (r: bool)
    ensures
        r == (data@ == seq![0x71u8] || data@ == seq![3u8]),
{
    if data.len() != 1 {
        assert(data@.len() != 1);
        return false;
    }
    let r = data[0] == 0x71 || data[0] == 3;
    assert(data@ =~= seq![data@[0]]);
    r
}

/// Numbers for those who watch.
#[derive(Debug)]
pub struct WatcherIds {
    pub next: usize,
}

impl WatcherIds {
    /// A number that none had before.
    pub fn issue(&mut self) -> (r: usize)
        requires
            old(self).next < usize::MAX,
        ensures
            r == old(self).next,
            final(self).next == old(self).next + 1,
    {
        let id: usize = self.next;
        self.next = self.next + 1;
        id
    }
}

/// Where the key comes from by which the monitor is known.
#[derive(Debug, Clone, Copy, PartialEq, Eq, Structural)]
pub enum HostKeySource {
    /// Made for this time only.
    Ephemeral,
    /// Read from its file.
    Load,
    /// Made and written to its file.
    Generate,
}

/// Where the key comes from, given whether a file is named for it and whether that file is there.
pub fn host_key_source(has_path: bool, exists: bool) -> (r: HostKeySource)
    ensures
        r == (if !has_path {
            HostKeySource::Ephemeral
        } else if exists {
            HostKeySource::Load
        } else {
            HostKeySource::Generate
        }),
{
    if !has_path {
        HostKeySource::Ephemeral
    } else if exists {
        HostKeySource::Load
    } else {
        HostKeySource::Generate
    }
}

} // verus!
