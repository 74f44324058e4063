//! What the monitor takes from a run, and what its screen says beside each key.

use vstd::prelude::*;

use super::labels::{architecture_label, checkpoint_label, duration_text, eta_text, run_state_label};
use super::loss::{finite_losses, is_finite, positive_throughputs};
use super::monitor::{shows_run, shows_waiting, RunEstimate, Snapshot};
use super::monitor_screen::{
    bar, bars, clamped, client_rows, foot_line, level_bar, model_rows, overview_rows, panel_head,
    panel_width, screen_text, timing_rows,
    title_line, training_rows, value_width, window_start, SnapshotTexts, MODEL_TITLE,
};
use super::screen_rows::{box_width, is_large, law_every_row_is_shown, shows_rows};
use super::terminal_text::{
    box_top, boxed, key_value, less, shortened, truncated, visible_width, BLOOM_BONE, BOLD, BRAND_A,
    BRAND_B, DIM, PANEL_HI, RESET,
};
use super::web::{elapsed_since, WebState};
use crate::coordinator::{ClientInfo, ClientState, CoordinatorState};
use crate::text::{decimal, holds_at, mentions, padded_right};

verus! {

/// The monitor takes everything from the run that it shows: each number and each word from the place
/// that it is named after.
pub proof fn law_the_snapshot_is_of_the_run(
    r: Snapshot,
    s: WebState,
    c: CoordinatorState,
    e: RunEstimate,
    now: u64,
)
    requires
        shows_run(r, s, c, e, now),
    ensures
        ({
            let n = |state: ClientState|
                c.epoch_state.clients@.filter(|x: ClientInfo| x.state == state).len();
            &&& r.healthy == n(ClientState::Healthy)
            &&& r.dropped == n(ClientState::Dropped)
            &&& r.withdrawn == n(ClientState::Withdrawn)
            &&& r.ejected == n(ClientState::Ejected)
        }),
        !r.waiting,
        r.run_state@ == run_state_label(c.run_state),
        r.run_id@ == c.run_id@,
        r.checkpoint@ == checkpoint_label(c.model.checkpoint),
        r.model@ == architecture_label(c.model.architecture) + " · seq "@ + decimal(
            c.model.max_seq_len as nat,
        ),
        r.epoch == c.progress.epoch,
        r.step == c.progress.step,
        r.total_steps == c.config.total_steps,
        r.height == c.epoch_state.rounds[c.epoch_state.rounds_head as int].height,
        r.epoch_steps@ == decimal(c.epoch_state.start_step as nat) + " - "@ + decimal(
            c.epoch_state.last_step as nat,
        ),
        r.ready_clients == s.ready_clients@.len(),
        r.syncing_clients == s.syncing_clients@.len(),
        r.server_addr@ == s.server_addr@,
        r.avg_tps == e.avg_tps,
        r.weighted_tps == e.weighted_tps,
        r.eta_weighted == e.eta_weighted,
        r.eta_current == e.eta_current,
        r.warmup_time == c.config.warmup_time,
        r.epoch_time == c.config.epoch_time,
        r.min_clients == c.config.min_clients,
        r.init_min_clients == c.config.init_min_clients,
        r.witness_nodes == c.config.witness_nodes,
        r.remaining_steps + r.step == (if r.total_steps >= r.step {
            r.total_steps
        } else {
            r.step
        }),
        r.tokens_per_step matches Some(n) && n == c.target_global_batch_size * c.model.max_seq_len,
        r.elapsed == elapsed_since(s.loss_history@, c.run_state_start_unix_timestamp, now),
{
    assert(0 <= c.target_global_batch_size * c.model.max_seq_len <= 0xffff * 0xffff_ffff)
        by (nonlinear_arith)
        requires
            0 <= c.target_global_batch_size <= 0xffff,
            0 <= c.model.max_seq_len <= 0xffff_ffff,
    ;
}

/// The last loss and the last throughput are those of the last point, where they are finite.
pub proof fn law_the_latest_is_the_last(
    r: Snapshot,
    s: WebState,
    c: CoordinatorState,
    e: RunEstimate,
    now: u64,
)
    requires
        shows_run(r, s, c, e, now),
    ensures
        ({
            let points = s.loss_history@;
            &&& points.len() == 0 ==> r.latest_loss is None && r.latest_tps is None
            &&& points.len() > 0 ==> {
                &&& is_finite(points.last().loss) ==> r.latest_loss == Some(points.last().loss)
                &&& !is_finite(points.last().loss) ==> r.latest_loss is None
                &&& is_finite(points.last().tokens_per_sec) ==> r.latest_tps == Some(
                    points.last().tokens_per_sec,
                )
                &&& !is_finite(points.last().tokens_per_sec) ==> r.latest_tps is None
            }
        }),
{
}

/// The losses and the throughputs of a run are shown each with its step: those that are finite, and
/// those that are finite and positive, in order.
pub proof fn law_points_are_of_the_history(
    r: Snapshot,
    s: WebState,
    c: CoordinatorState,
    e: RunEstimate,
    now: u64,
    i: int,
)
    requires
        shows_run(r, s, c, e, now),
    ensures
        r.loss_points@.len() == finite_losses(s.loss_history@).len(),
        r.throughput_points@.len() == positive_throughputs(s.loss_history@).len(),
        0 <= i < r.loss_points@.len() ==> r.loss_points@[i].0 == finite_losses(
            s.loss_history@,
        )[i].step && r.loss_points@[i].1 == finite_losses(s.loss_history@)[i].loss,
        0 <= i < r.throughput_points@.len() ==> r.throughput_points@[i].0 == positive_throughputs(
            s.loss_history@,
        )[i].step && r.throughput_points@[i].1 == positive_throughputs(
            s.loss_history@,
        )[i].tokens_per_sec,
{
}

/// Before the coordinator has reported, only what does not come from it is shown.
pub proof fn law_the_snapshot_waits(r: Snapshot, s: WebState)
    requires
        shows_waiting(r, s),
    ensures
        r.waiting,
        r.run_state@ == "Waiting for coordinator data"@,
        r.run_id@ == "-"@,
        r.ready_clients == s.ready_clients@.len(),
        r.syncing_clients == s.syncing_clients@.len(),
        r.server_addr@ == s.server_addr@,
        r.step == 0 && r.total_steps == 0 && r.remaining_steps == 0,
        r.healthy == 0 && r.dropped == 0 && r.withdrawn == 0 && r.ejected == 0,
        r.latest_loss is None && r.latest_tps is None && r.avg_tps is None && r.weighted_tps is None,
        r.eta_weighted is None && r.eta_current is None && r.elapsed is None,
        r.loss_points@.len() == 0 && r.throughput_points@.len() == 0,
{
}

/// The screen says a value beside a key, in a box.
pub open spec fn says(screen: Seq<char>, key: Seq<char>, value: Seq<char>) -> bool {
    exists|w: nat| mentions(screen, #[trigger] boxed(key_value(key, value), w))
}

proof fn lemma_says(
    screen: Seq<char>,
    rows: Seq<Seq<char>>,
    w: nat,
    i: int,
    key: Seq<char>,
    value: Seq<char>,
)
    requires
        shows_rows(screen, rows, w),
        0 <= i < rows.len(),
        rows[i] == key_value(key, value),
    ensures
        says(screen, key, value),
{
    assert(mentions(screen, boxed(rows[i], w)));
}

/// In a window that is large enough the overview says which run it is, where it stands and where its
/// server is.
pub proof fn law_screen_says_the_overview(
    s: Snapshot,
    t: SnapshotTexts,
    width: u16,
    height: u16,
    frame: u64,
)
    requires
        is_large(width, height),
    ensures
        ({
            let screen = screen_text(s, t, width, height, frame);
            &&& s.run_id@.len() <= 28 ==> says(screen, "Run"@, s.run_id@)
            &&& s.run_id@.len() > 28 ==> says(screen, "Run"@, s.run_id@.take(27) + "…"@)
            &&& says(screen, "State"@, s.run_state@)
            &&& says(screen, "Epoch"@, decimal(s.epoch as nat))
            &&& says(
                screen,
                "Step"@,
                decimal(s.step as nat) + " / "@ + decimal(s.total_steps as nat),
            )
            &&& says(screen, "Height"@, decimal(s.height as nat))
            &&& says(screen, "Epoch Steps"@, s.epoch_steps@)
            &&& s.server_addr@.len() > 0 ==> says(screen, "Server"@, s.server_addr@)
            &&& s.server_addr@.len() == 0 ==> says(screen, "Server"@, "-"@)
        }),
{
    law_every_row_is_shown(s, t, width, height, frame);
    let rows = overview_rows(s);
    let screen = screen_text(s, t, width, height, frame);
    let w = box_width(width, "Overview"@, rows);
    lemma_says(screen, rows, w, 0, "Run"@, shortened(s.run_id@, 28));
    lemma_says(screen, rows, w, 1, "State"@, s.run_state@);
    lemma_says(screen, rows, w, 2, "Epoch"@, decimal(s.epoch as nat));
    lemma_says(
        screen,
        rows,
        w,
        3,
        "Step"@,
        decimal(s.step as nat) + " / "@ + decimal(s.total_steps as nat),
    );
    lemma_says(screen, rows, w, 4, "Height"@, decimal(s.height as nat));
    lemma_says(screen, rows, w, 5, "Epoch Steps"@, s.epoch_steps@);
    lemma_says(
        screen,
        rows,
        w,
        6,
        "Server"@,
        if s.server_addr@.len() == 0 { "-"@ } else { s.server_addr@ },
    );
}

/// In a window that is large enough the timing says how far the run is, how long it has been going and
/// how long it will take.
pub proof fn law_screen_says_the_timing(
    s: Snapshot,
    t: SnapshotTexts,
    width: u16,
    height: u16,
    frame: u64,
)
    requires
        is_large(width, height),
    ensures
        ({
            let screen = screen_text(s, t, width, height, frame);
            &&& says(screen, "Progress"@, t.progress@)
            &&& says(screen, "Elapsed"@, eta_text(s.elapsed))
            &&& says(screen, "Remaining"@, decimal(s.remaining_steps as nat))
            &&& s.tokens_per_step matches Some(n) ==> says(screen, "Tokens/Step"@, decimal(n as nat))
            &&& s.tokens_per_step is None ==> says(screen, "Tokens/Step"@, "-"@)
            &&& says(screen, "ETA Weighted"@, eta_text(s.eta_weighted))
            &&& says(screen, "ETA Current"@, eta_text(s.eta_current))
        }),
{
    law_every_row_is_shown(s, t, width, height, frame);
    let rows = timing_rows(s, t, width);
    let screen = screen_text(s, t, width, height, frame);
    let w = box_width(width, "Timing"@, rows);
    lemma_says(screen, rows, w, 0, "Progress"@, t.progress@);
    lemma_says(screen, rows, w, 2, "Elapsed"@, eta_text(s.elapsed));
    lemma_says(screen, rows, w, 3, "Remaining"@, decimal(s.remaining_steps as nat));
    lemma_says(
        screen,
        rows,
        w,
        4,
        "Tokens/Step"@,
        match s.tokens_per_step { Some(n) => decimal(n as nat), None => "-"@, },
    );
    lemma_says(screen, rows, w, 5, "ETA Weighted"@, eta_text(s.eta_weighted));
    lemma_says(screen, rows, w, 6, "ETA Current"@, eta_text(s.eta_current));
}

/// In a window that is large enough the training says the latest loss and throughput, the averages, and
/// the course of both.
pub proof fn law_screen_says_the_training(
    s: Snapshot,
    t: SnapshotTexts,
    width: u16,
    height: u16,
    frame: u64,
)
    requires
        is_large(width, height),
    ensures
        ({
            let screen = screen_text(s, t, width, height, frame);
            let places = value_width(width) as nat;
            &&& says(screen, "Latest Loss"@, t.latest_loss@)
            &&& says(screen, "Tokens/sec"@, t.latest_tps@)
            &&& says(screen, "Weighted tok/s"@, t.weighted_tps@)
            &&& says(screen, "Average tok/s"@, t.avg_tps@)
            &&& says(screen, "Loss"@, bars(s.loss_points@.len(), places, t.loss_levels@))
            &&& says(
                screen,
                "Throughput"@,
                bars(s.throughput_points@.len(), places, t.throughput_levels@),
            )
        }),
{
    law_every_row_is_shown(s, t, width, height, frame);
    let places = value_width(width) as nat;
    let rows = training_rows(s, t, width);
    let screen = screen_text(s, t, width, height, frame);
    let w = box_width(width, "Training"@, rows);
    lemma_says(screen, rows, w, 0, "Latest Loss"@, t.latest_loss@);
    lemma_says(screen, rows, w, 1, "Tokens/sec"@, t.latest_tps@);
    lemma_says(screen, rows, w, 2, "Weighted tok/s"@, t.weighted_tps@);
    lemma_says(screen, rows, w, 3, "Average tok/s"@, t.avg_tps@);
    lemma_says(screen, rows, w, 4, "Loss"@, bars(s.loss_points@.len(), places, t.loss_levels@));
    lemma_says(
        screen,
        rows,
        w,
        5,
        "Throughput"@,
        bars(s.throughput_points@.len(), places, t.throughput_levels@),
    );
}

/// In a window that is large enough the clients are counted, each state beside its own name, and all of
/// those of the epoch together.
pub proof fn law_screen_says_the_clients(
    s: Snapshot,
    t: SnapshotTexts,
    width: u16,
    height: u16,
    frame: u64,
)
    requires
        is_large(width, height),
    ensures
        ({
            let screen = screen_text(s, t, width, height, frame);
            &&& says(screen, "Healthy"@, decimal(s.healthy as nat))
            &&& says(screen, "Ready"@, decimal(s.ready_clients as nat))
            &&& says(screen, "Syncing"@, decimal(s.syncing_clients as nat))
            &&& says(screen, "Dropped"@, decimal(s.dropped as nat))
            &&& says(screen, "Withdrawn"@, decimal(s.withdrawn as nat))
            &&& says(screen, "Ejected"@, decimal(s.ejected as nat))
            &&& says(
                screen,
                "Total"@,
                decimal((s.healthy + s.dropped + s.withdrawn + s.ejected) as nat),
            )
        }),
{
    law_every_row_is_shown(s, t, width, height, frame);
    let rows = client_rows(s);
    let screen = screen_text(s, t, width, height, frame);
    let w = box_width(width, "Clients"@, rows);
    lemma_says(screen, rows, w, 0, "Healthy"@, decimal(s.healthy as nat));
    lemma_says(screen, rows, w, 1, "Ready"@, decimal(s.ready_clients as nat));
    lemma_says(screen, rows, w, 2, "Syncing"@, decimal(s.syncing_clients as nat));
    lemma_says(screen, rows, w, 3, "Dropped"@, decimal(s.dropped as nat));
    lemma_says(screen, rows, w, 4, "Withdrawn"@, decimal(s.withdrawn as nat));
    lemma_says(screen, rows, w, 5, "Ejected"@, decimal(s.ejected as nat));
    lemma_says(
        screen,
        rows,
        w,
        6,
        "Total"@,
        decimal((s.healthy + s.dropped + s.withdrawn + s.ejected) as nat),
    );
}

/// In a window that is high enough the model and its settings are said.
pub proof fn law_screen_says_the_model(
    s: Snapshot,
    t: SnapshotTexts,
    width: u16,
    height: u16,
    frame: u64,
)
    requires
        is_large(width, height),
        height >= 32,
    ensures
        ({
            let screen = screen_text(s, t, width, height, frame);
            &&& says(screen, "Model"@, s.model@)
            &&& says(screen, "Checkpoint"@, s.checkpoint@)
            &&& says(screen, "Warmup"@, duration_text(s.warmup_time as nat))
            &&& says(screen, "Epoch Time"@, duration_text(s.epoch_time as nat))
            &&& says(screen, "Init Min"@, decimal(s.init_min_clients as nat))
            &&& says(screen, "Min Clients"@, decimal(s.min_clients as nat))
            &&& says(screen, "Witnesses"@, decimal(s.witness_nodes as nat))
        }),
{
    law_every_row_is_shown(s, t, width, height, frame);
    let rows = model_rows(s);
    let screen = screen_text(s, t, width, height, frame);
    let w = panel_width(MODEL_TITLE@, rows);
    lemma_says(screen, rows, w, 0, "Model"@, s.model@);
    lemma_says(screen, rows, w, 1, "Checkpoint"@, s.checkpoint@);
    lemma_says(screen, rows, w, 2, "Warmup"@, duration_text(s.warmup_time as nat));
    lemma_says(screen, rows, w, 3, "Epoch Time"@, duration_text(s.epoch_time as nat));
    lemma_says(screen, rows, w, 4, "Init Min"@, decimal(s.init_min_clients as nat));
    lemma_says(screen, rows, w, 5, "Min Clients"@, decimal(s.min_clients as nat));
    lemma_says(screen, rows, w, 6, "Witnesses"@, decimal(s.witness_nodes as nat));
}

/// A row says its key and its value, and a box says what fits into it.
pub proof fn law_rows_say_key_and_value(key: Seq<char>, value: Seq<char>, width: nat)
    ensures
        mentions(key_value(key, value), key),
        mentions(key_value(key, value), value),
        visible_width(key_value(key, value)) + 4 <= width ==> mentions(
            boxed(key_value(key, value), width),
            key_value(key, value),
        ),
{
    let row = key_value(key, value);
    let a = DIM@;
    let b = padded_right(key, 15);
    assert(row.subrange(a.len() as int, (a.len() + key.len()) as int) =~= key);
    assert(holds_at(row, key, a.len() as int));
    let at = (a + b + RESET@ + BLOOM_BONE@).len() as int;
    assert(row.subrange(at, at + value.len()) =~= value);
    assert(holds_at(row, value, at));
    if visible_width(row) + 4 <= width {
        let inner = less(width, 4);
        assert(truncated(row, inner) == row);
        let front = (PANEL_HI@ + "│"@ + RESET@ + " "@).len() as int;
        let all = boxed(row, width);
        assert(all.subrange(front, front + row.len()) =~= row);
        assert(holds_at(all, row, front));
    }
}

/// Until the coordinator has reported, the title says that the monitor is getting ready, and then the
/// state of the run.
pub proof fn law_title_says_the_state(s: Snapshot, frame: u64)
    ensures
        s.waiting ==> mentions(title_line(s, frame), "initializing"@),
        !s.waiting ==> mentions(title_line(s, frame), s.run_state@),
{
    let line = title_line(s, frame);
    let state = if s.waiting {
        "initializing"@
    } else {
        s.run_state@
    };
    let at = line.len() - RESET@.len() - state.len();
    assert(line.subrange(at, at + state.len()) =~= state);
    assert(holds_at(line, state, at));
}

/// A bar is filled from its beginning, as far as it is to be, and empty from there.
pub proof fn law_bars_are_filled_from_the_beginning(full: nat, width: nat, i: int)
    requires
        0 <= i < bar(full, width).len(),
    ensures
        bar(full, width).len() == (if width < 8 {
            8
        } else {
            width
        }),
        bar(full, width)[i] == (if i < full {
            '━'
        } else {
            '─'
        }),
{
}

/// The bars of a line are the eight blocks in order of their height.
pub proof fn law_bars_grow_with_their_level(level: nat)
    ensures
        level < 8 ==> level_bar(level) as int == 0x2581 + level,
        level >= 8 ==> level_bar(level) == level_bar(7),
{
}

/// A line of bars shows the last of its points: as many as there are places, but at least eight and at
/// most eighty, or all where there are fewer.
pub proof fn law_the_last_points_are_shown(n: nat, width: nat)
    ensures
        window_start(n, width) <= n,
        8 <= width <= 80 && n >= width ==> n - window_start(n, width) == width,
        width < 8 && n >= 8 ==> n - window_start(n, width) == 8,
        width > 80 && n >= 80 ==> n - window_start(n, width) == 80,
        n <= 8 || (n <= width && n <= 80) ==> window_start(n, width) == 0,
{
}

/// How many places there are beside a key: in a wide window, of which a panel takes half, and in a
/// narrow one.
pub proof fn law_places_beside_a_key(width: u16)
    ensures
        width >= 100 ==> value_width(width) == (width - 3) / 2 - 23,
        27 <= width < 100 ==> value_width(width) == width - 27,
        width < 27 ==> value_width(width) == 0,
{
}

/// The size of a window is taken as it is, but for what no window can be.
pub proof fn law_sizes_are_clamped(n: u32)
    ensures
        1 <= n <= 65535 ==> clamped(n) == n,
        n == 0 ==> clamped(n) == 1,
        n > 65535 ==> clamped(n) == 65535,
{
}

/// The top of a box, and of a panel that stands alone, says its title.
pub proof fn law_panels_say_their_titles(title: Seq<char>, width: nat)
    ensures
        mentions(box_top(title, width), title),
        mentions(panel_head(title, width), title),
{
    let top = box_top(title, width);
    let at = (PANEL_HI@ + "┌"@ + "─ "@).len() as int;
    assert(top.subrange(at, at + title.len()) =~= title);
    assert(holds_at(top, title, at));
    let head = panel_head(title, width);
    let at = (PANEL_HI@ + "┌─ "@ + BLOOM_BONE@ + BOLD@).len() as int;
    assert(head.subrange(at, at + title.len()) =~= title);
    assert(holds_at(head, title, at));
}

/// The title names the project and the foot says how to leave.
pub proof fn law_the_screen_names_the_project(s: Snapshot, frame: u64)
    ensures
        mentions(title_line(s, frame), "◆ AETHERCOMPUTE"@),
        mentions(title_line(s, frame), "Training Monitor"@),
        mentions(foot_line(), "live SSH view · q/Ctrl-C: close · monitor.aethercompute.org"@),
{
    let line = title_line(s, frame);
    let brand = if frame % 8 == 0 {
        BRAND_B@
    } else {
        BRAND_A@
    };
    let name = "◆ AETHERCOMPUTE"@;
    let at = (brand + BOLD@).len() as int;
    assert(line.subrange(at, at + name.len()) =~= name);
    assert(holds_at(line, name, at));
    let what = "Training Monitor"@;
    let at = (brand + BOLD@ + name + RESET@ + "  "@ + DIM@).len() as int;
    assert(line.subrange(at, at + what.len()) =~= what);
    assert(holds_at(line, what, at));
    let foot = foot_line();
    let hint = "live SSH view · q/Ctrl-C: close · monitor.aethercompute.org"@;
    let at = DIM@.len() as int;
    assert(foot.subrange(at, at + hint.len()) =~= hint);
    assert(holds_at(foot, hint, at));
}

/// A text that fits stays as it is. One that does not keeps its beginning, and ends in an ellipsis.
pub proof fn law_long_texts_keep_their_beginning(s: Seq<char>, max: nat)
    ensures
        s.len() <= max ==> shortened(s, max) == s,
        0 < max < s.len() ==> shortened(s, max) == s.take(max - 1) + "…"@,
        visible_width(s) <= max ==> truncated(s, max) == s,
        s.len() <= max ==> padded_right(s, max).len() == max && s.is_prefix_of(padded_right(s, max)),
        s.len() > max ==> padded_right(s, max) == s,
{
    assert(s.len() <= max ==> padded_right(s, max).take(s.len() as int) =~= s);
}

} // verus!
