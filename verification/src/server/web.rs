//! The pages of the web monitor.

use vstd::prelude::*;
use vstd::string::StringExecFns;

use super::labels::{
    architecture_label, checkpoint_label, client_state_label, data_type_label, duration_text, eta_text,
    format_checkpoint_label, format_client_state, format_data_type, format_duration, format_eta,
    format_llm_architecture, format_optimizer, format_run_state, format_tps, optimizer_text,
    run_state_label, tps_text, OptimizerText,
};
use super::loss::{
    finite_losses, points_with_finite_loss, points_with_positive_throughput, positive_throughputs,
    LossPoint,
};
use super::startup::WandbInfo;
use crate::coordinator::{ClientInfo, ClientState, CoordinatorState, NUM_STORED_ROUNDS};
use crate::projection::cluster::name_view;
use crate::text::{
    concat_all, concatenated, decimal, decimal_text, fill, filled, holds_at, join, joined, mentions,
    views,
};

verus! {

broadcast use crate::text::lemma_views_push;

/// What the monitor shows.
#[derive(Debug)]
pub struct WebState {
    pub coordinator: Option<CoordinatorState>,
    pub loss_history: Vec<LossPoint>,
    /// Connected clients that are still downloading the checkpoint.
    pub syncing_clients: Vec<String>,
    /// Connected clients that have the checkpoint loaded and wait to be admitted to an epoch.
    pub ready_clients: Vec<String>,
    pub server_addr: String,
    pub wandb: Option<WandbInfo>,
}

/// What is shown before the coordinator has reported.
pub const WAITING_HTML: &'static str = "<i>Waiting for coordinator data...</i>";

/// The overview.
pub const OVERVIEW_TEMPLATE: &'static str = r#"<table border="1">
<tr><td><b>Run State</b></td><td>{} {}</td></tr>
<tr><td><b>Run ID</b></td><td>{}</td></tr>
<tr><td><b>Epoch</b></td><td>{}</td></tr>
<tr><td><b>Step</b></td><td>{} / {}</td></tr>
<tr><td><b>Height (Round)</b></td><td>{}</td></tr>
<tr><td><b>Epoch Steps</b></td><td>{} - {}</td></tr>
<tr><td><b>Clients</b></td><td>{} ({} exited)</td></tr>
<tr><td><b>Connected</b></td><td><span style="color:#52b8cd">{} ready</span>, <span style="color:#e28844">{} syncing</span></td></tr>
<tr><td><b>Server</b></td><td>{}</td></tr>
<tr><td><b>State Duration</b></td><td>{}</td></tr>
<tr><td><b>Epoch Duration</b></td><td>{}</td></tr>
<tr><td><b>Data Index</b></td><td>{}</td></tr>
<tr><td><b>First Round</b></td><td>{}</td></tr>
<tr><td><b>Cold Start Epoch</b></td><td>{}</td></tr>
</table>"#;

/// A truth in words.
pub open spec fn yes_no(b: bool) -> Seq<char> {
    if b {
        "Yes"@
    } else {
        "No"@
    }
}

fn yes_no_text(b: bool) -> (r: String)
    ensures
        r@ == yes_no(b),
{
    if b {
        "Yes".to_string()
    } else {
        "No".to_string()
    }
}

/// The seconds from `then` to `now`, none where `then` lies ahead.
pub open spec fn seconds_since(then: u64, now: u64) -> nat {
    if now >= then {
        (now - then) as nat
    } else {
        0
    }
}

/// How long the epoch has lasted, or a dash before it began.
pub open spec fn epoch_duration_text(start: u64, now: u64) -> Seq<char> {
    if start > 0 {
        duration_text(seconds_since(start, now))
    } else {
        "-"@
    }
}

/// What stands in the overview, in order.
pub open spec fn overview_fields(s: WebState, c: CoordinatorState, now: u64) -> Seq<Seq<char>> {
    seq![
        run_state_label(c.run_state),
        if c.pending_pause {
            "⚠️ Pending Pause"@
        } else {
            ""@
        },
        c.run_id@,
        decimal(c.progress.epoch as nat),
        decimal(c.progress.step as nat),
        decimal(c.config.total_steps as nat),
        decimal(c.epoch_state.rounds[c.epoch_state.rounds_head as int].height as nat),
        decimal(c.epoch_state.start_step as nat),
        decimal(c.epoch_state.last_step as nat),
        decimal(c.epoch_state.clients@.len()),
        decimal(c.epoch_state.exited_clients@.len()),
        decimal(s.ready_clients@.len()),
        decimal(s.syncing_clients@.len()),
        s.server_addr@,
        duration_text(seconds_since(c.run_state_start_unix_timestamp, now)),
        epoch_duration_text(c.epoch_state.start_timestamp, now),
        decimal(c.progress.epoch_start_data_index as nat),
        yes_no(c.epoch_state.first_round),
        yes_no(c.epoch_state.cold_start_epoch),
    ]
}

/// The overview at the moment `now`.
pub fn overview_partial(s: &WebState, now: u64) -> (r: String)
    requires
        s.coordinator matches Some(c) ==> c.has_head(),
    ensures
        r@ == (match s.coordinator {
            Some(c) => filled(OVERVIEW_TEMPLATE@, overview_fields(*s, c, now)),
            None => WAITING_HTML@,
        }),
{
    let c = match &s.coordinator {
        Some(c) => c,
        None => {
            return WAITING_HTML.to_string();
        },
    };
    let pending =
    if c.pending_pause {
        "⚠️ Pending Pause".to_string()
    } else {
        "".to_string()
    };
    let epoch_duration =
    if c.epoch_state.start_timestamp > 0 {
        format_duration(now.saturating_sub(c.epoch_state.start_timestamp))
    } else {
        "-".to_string()
    };
    let head: usize = c.epoch_state.rounds_head as usize;
    let fields = vec![
        format_run_state(c.run_state).to_string(),
        pending,
        c.run_id.clone(),
        decimal_text(c.progress.epoch as u64),
        decimal_text(c.progress.step as u64),
        decimal_text(c.config.total_steps as u64),
        decimal_text(c.epoch_state.rounds[head].height as u64),
        decimal_text(c.epoch_state.start_step as u64),
        decimal_text(c.epoch_state.last_step as u64),
        decimal_text(c.epoch_state.clients.len() as u64),
        decimal_text(c.epoch_state.exited_clients.len() as u64),
        decimal_text(s.ready_clients.len() as u64),
        decimal_text(s.syncing_clients.len() as u64),
        s.server_addr.clone(),
        format_duration(now.saturating_sub(c.run_state_start_unix_timestamp)),
        epoch_duration,
        decimal_text(c.progress.epoch_start_data_index),
        yes_no_text(c.epoch_state.first_round),
        yes_no_text(c.epoch_state.cold_start_epoch),
    ];
    assert(views(fields@) =~= overview_fields(*s, *c, now));
    fill(OVERVIEW_TEMPLATE, &fields)
}

// Clients

/// A client of the epoch.
pub const CLIENT_ROW: &'static str = r#"<tr><td>{}</td><td{}><b>{}</b></td><td>{}</td></tr>"#;

/// A client that has left the epoch.
pub const EXITED_ROW: &'static str = r#"<tr><td>{}</td><td><b>{}</b></td><td>{}</td></tr>"#;

/// What stands in place of rows where there are none.
pub const NO_CLIENTS: &'static str = r#"<tr><td colspan="3"><i>No clients connected</i></td></tr>"#;

/// The clients that have left the epoch.
pub const EXITED_SECTION: &'static str = r#"<br><table border="1">
<caption><b>Exited Clients</b></caption>
<thead><tr><th>Client ID</th><th>Status</th><th>Exited Height</th></tr></thead>
<tbody>{}</tbody>
</table>"#;

/// A client that is still downloading the checkpoint.
pub const SYNCING_ROW: &'static str = r#"<tr><td>{}</td><td style="color:#e28844"><b>Syncing</b></td></tr>"#;

/// A client that waits to be admitted.
pub const READY_ROW: &'static str = r#"<tr><td>{}</td><td style="color:#e2ccb8"><b>Ready (waiting for next epoch)</b></td></tr>"#;

/// The clients that are connected and not yet admitted.
pub const CONNECTED_SECTION: &'static str = r#"<br><table border="1">
<caption><b>Connected — Not Yet Admitted</b></caption>
<thead><tr><th>Client ID</th><th>Status</th></tr></thead>
<tbody>{}</tbody>
</table>"#;

/// All clients.
pub const CLIENTS_TEMPLATE: &'static str = r#"<div><b>Client Summary:</b> {} total &mdash;
<span style="color:#52b8cd">{} healthy</span>,
<span style="color:#da4e8a">{} dropped</span>,
<span style="color:#a85cbc">{} withdrawn</span>,
<span style="color:#da4e8a">{} ejected</span></div>
<br>
<table border="1">
<thead><tr><th>Client ID</th><th>Status</th><th>Exited Height</th></tr></thead>
<tbody>{}</tbody>
</table>
{}
{}"#;

/// How many of `clients` are in `state`.
pub open spec fn count_in(clients: Seq<ClientInfo>, state: ClientState) -> nat {
    clients.filter(|c: ClientInfo| c.state == state).len()
}

/// How many of `clients` are in `state`.
pub fn count_clients(clients: &Vec<ClientInfo>, state: ClientState) -> (r: usize)
    ensures
        r == count_in(clients@, state),
        r <= clients@.len(),
{
    let ghost in_state = |c: ClientInfo| c.state == state;
    let mut n: usize = 0;
    let mut i: usize = 0;
    reveal(Seq::filter);
    while i < clients.len()
        invariant
            i <= clients@.len(),
            n <= i,
            in_state == (|c: ClientInfo| c.state == state),
            n == clients@.take(i as int).filter(in_state).len(),
        decreases clients@.len() - i,
    {
        proof {
            reveal(Seq::filter);
            let t = clients@.take(i as int + 1);
            assert(t.drop_last() =~= clients@.take(i as int));
            assert(t.last() == clients@[i as int]);
        }
        if clients[i].state == state {
            n = n + 1;
        }
        i = i + 1;
    }
    assert(clients@.take(i as int) =~= clients@);
    n
}

/// Every client is in exactly one state.
pub proof fn law_counts_add_up(clients: Seq<ClientInfo>)
    ensures
        count_in(clients, ClientState::Healthy) + count_in(clients, ClientState::Dropped) + count_in(
            clients,
            ClientState::Withdrawn,
        ) + count_in(clients, ClientState::Ejected) == clients.len(),
    decreases clients.len(),
{
    reveal(Seq::filter);
    if clients.len() > 0 {
        law_counts_add_up(clients.drop_last());
    }
}

/// How a state stands out.
pub open spec fn state_style(state: ClientState) -> Seq<char> {
    match state {
        ClientState::Healthy => " style=\"color:#52b8cd\""@,
        ClientState::Dropped => " style=\"color:#da4e8a\""@,
        ClientState::Withdrawn => " style=\"color:#a85cbc\""@,
        ClientState::Ejected => " style=\"color:#da4e8a\""@,
    }
}

/// The row of a client of the epoch.
pub open spec fn client_row(c: ClientInfo) -> Seq<char> {
    filled(
        CLIENT_ROW@,
        seq![
            c.label@,
            state_style(c.state),
            client_state_label(c.state),
            decimal(c.exited_height as nat),
        ],
    )
}

/// The row of a client that has left the epoch.
pub open spec fn exited_row(c: ClientInfo) -> Seq<char> {
    filled(
        EXITED_ROW@,
        seq![c.label@, client_state_label(c.state), decimal(c.exited_height as nat)],
    )
}

/// A row with one field.
pub open spec fn name_row(template: Seq<char>, name: Seq<char>) -> Seq<char> {
    filled(template, seq![name])
}

fn render_client_row(c: &ClientInfo) -> (r: String)
    ensures
        r@ == client_row(*c),
{
    let style = match c.state {
        ClientState::Healthy => " style=\"color:#52b8cd\"",
        ClientState::Dropped => " style=\"color:#da4e8a\"",
        ClientState::Withdrawn => " style=\"color:#a85cbc\"",
        ClientState::Ejected => " style=\"color:#da4e8a\"",
    };
    let fields = vec![
        c.label.clone(),
        style.to_string(),
        format_client_state(c.state).to_string(),
        decimal_text(c.exited_height as u64),
    ];
    assert(views(fields@) =~= seq![
        c.label@,
        state_style(c.state),
        client_state_label(c.state),
        decimal(c.exited_height as nat),
    ]);
    fill(CLIENT_ROW, &fields)
}

fn render_exited_row(c: &ClientInfo) -> (r: String)
    ensures
        r@ == exited_row(*c),
{
    let fields = vec![
        c.label.clone(),
        format_client_state(c.state).to_string(),
        decimal_text(c.exited_height as u64),
    ];
    assert(views(fields@) =~= seq![
        c.label@,
        client_state_label(c.state),
        decimal(c.exited_height as nat),
    ]);
    fill(EXITED_ROW, &fields)
}

fn fill_one(template: &str, field: &String) -> (r: String)
    ensures
        r@ == name_row(template@, field@),
{
    let fields = vec![field.clone()];
    assert(views(fields@) =~= seq![field@]);
    fill(template, &fields)
}

/// The rows of the clients of the epoch.
pub open spec fn client_rows(clients: Seq<ClientInfo>) -> Seq<char> {
    concatenated(clients.map_values(|c: ClientInfo| client_row(c)))
}

/// The rows of the clients that have left the epoch.
pub open spec fn exited_rows(clients: Seq<ClientInfo>) -> Seq<char> {
    concatenated(clients.map_values(|c: ClientInfo| exited_row(c)))
}

/// The rows of the clients that are connected and not yet admitted: those still downloading, then
/// those that wait.
pub open spec fn connected_rows(syncing: Seq<String>, ready: Seq<String>) -> Seq<char> {
    concatenated(
        syncing.map_values(|n: String| name_row(SYNCING_ROW@, n@)) + ready.map_values(
            |n: String| name_row(READY_ROW@, n@),
        ),
    )
}

/// `rows` in a section of their own, or nothing where there are none.
pub open spec fn section(template: Seq<char>, rows: Seq<char>) -> Seq<char> {
    if rows.len() == 0 {
        Seq::empty()
    } else {
        name_row(template, rows)
    }
}

fn render_section(template: &str, rows: &String) -> (r: String)
    ensures
        r@ == section(template@, rows@),
{
    if rows.as_str().is_empty() {
        String::new()
    } else {
        fill_one(template, rows)
    }
}

fn render_client_rows(clients: &Vec<ClientInfo>) -> (r: String)
    ensures
        r@ == client_rows(clients@),
{
    let mut rows: Vec<String> = Vec::new();
    let mut i: usize = 0;
    while i < clients.len()
        invariant
            i <= clients@.len(),
            views(rows@) == clients@.take(i as int).map_values(|c: ClientInfo| client_row(c)),
        decreases clients@.len() - i,
    {
        rows.push(render_client_row(&clients[i]));
        i = i + 1;
        assert(views(rows@) =~= clients@.take(i as int).map_values(|c: ClientInfo| client_row(c)));
    }
    assert(clients@.take(i as int) =~= clients@);
    concat_all(&rows)
}

fn render_exited_rows(clients: &Vec<ClientInfo>) -> (r: String)
    ensures
        r@ == exited_rows(clients@),
{
    let mut rows: Vec<String> = Vec::new();
    let mut i: usize = 0;
    while i < clients.len()
        invariant
            i <= clients@.len(),
            views(rows@) == clients@.take(i as int).map_values(|c: ClientInfo| exited_row(c)),
        decreases clients@.len() - i,
    {
        rows.push(render_exited_row(&clients[i]));
        i = i + 1;
        assert(views(rows@) =~= clients@.take(i as int).map_values(|c: ClientInfo| exited_row(c)));
    }
    assert(clients@.take(i as int) =~= clients@);
    concat_all(&rows)
}

fn push_name_rows(rows: &mut Vec<String>, template: &str, names: &Vec<String>)
    ensures
        views(final(rows)@) == views(old(rows)@) + names@.map_values(
            |n: String| name_row(template@, n@),
        ),
{
    let ghost before = views(rows@);
    let ghost f = |n: String| name_row(template@, n@);
    let mut i: usize = 0;
    assert(views(rows@) =~= before + names@.take(0).map_values(f));
    while i < names.len()
        invariant
            i <= names@.len(),
            f == (|n: String| name_row(template@, n@)),
            views(rows@) == before + names@.take(i as int).map_values(f),
        decreases names@.len() - i,
    {
        rows.push(fill_one(template, &names[i]));
        i = i + 1;
        assert(views(rows@) =~= before + names@.take(i as int).map_values(f));
    }
    assert(names@.take(i as int) =~= names@);
}

/// What stands on the page of clients, in order.
pub open spec fn clients_fields(s: WebState, c: CoordinatorState) -> Seq<Seq<char>> {
    let clients = c.epoch_state.clients@;
    seq![
        decimal(clients.len()),
        decimal(count_in(clients, ClientState::Healthy)),
        decimal(count_in(clients, ClientState::Dropped)),
        decimal(count_in(clients, ClientState::Withdrawn)),
        decimal(count_in(clients, ClientState::Ejected)),
        if client_rows(clients).len() == 0 {
            NO_CLIENTS@
        } else {
            client_rows(clients)
        },
        section(EXITED_SECTION@, exited_rows(c.epoch_state.exited_clients@)),
        section(CONNECTED_SECTION@, connected_rows(s.syncing_clients@, s.ready_clients@)),
    ]
}

/// All clients: those of the epoch, those that left it, and those not yet admitted.
pub fn clients_partial(s: &WebState) -> (r: String)
    ensures
        r@ == (match s.coordinator {
            Some(c) => filled(CLIENTS_TEMPLATE@, clients_fields(*s, c)),
            None => WAITING_HTML@,
        }),
{
    let c = match &s.coordinator {
        Some(c) => c,
        None => {
            return WAITING_HTML.to_string();
        },
    };
    let clients = &c.epoch_state.clients;
    let healthy: usize = count_clients(clients, ClientState::Healthy);
    let dropped: usize = count_clients(clients, ClientState::Dropped);
    let withdrawn: usize = count_clients(clients, ClientState::Withdrawn);
    let ejected: usize = count_clients(clients, ClientState::Ejected);
    let n: usize = clients.len();
    proof {
        law_counts_add_up(clients@);
        assert(n == clients@.len());
    }
    let total: usize = healthy + dropped + withdrawn + ejected;
    let mut rows = render_client_rows(clients);
    if rows.as_str().is_empty() {
        rows = NO_CLIENTS.to_string();
    }
    let exited = render_exited_rows(&c.epoch_state.exited_clients);
    let mut connected: Vec<String> = Vec::new();
    push_name_rows(&mut connected, SYNCING_ROW, &s.syncing_clients);
    push_name_rows(&mut connected, READY_ROW, &s.ready_clients);
    assert(views(connected@) =~= s.syncing_clients@.map_values(
        |n: String| name_row(SYNCING_ROW@, n@),
    ) + s.ready_clients@.map_values(|n: String| name_row(READY_ROW@, n@)));
    let connected = concat_all(&connected);
    let fields = vec![
        decimal_text(total as u64),
        decimal_text(healthy as u64),
        decimal_text(dropped as u64),
        decimal_text(withdrawn as u64),
        decimal_text(ejected as u64),
        rows,
        render_section(EXITED_SECTION, &exited),
        render_section(CONNECTED_SECTION, &connected),
    ];
    assert(views(fields@) =~= clients_fields(*s, *c));
    fill(CLIENTS_TEMPLATE, &fields)
}

// Rounds

/// A round.
pub const ROUND_ROW: &'static str = r#"<tr{}>
<td>{}</td>
<td>{}</td>
<td>{}</td>
<td>{}</td>
<td>{}</td>
<td>{}</td>
</tr>"#;

/// The rounds.
pub const ROUNDS_TEMPLATE: &'static str = r#"<table border="1">
<thead><tr><th>Height</th><th>Data Index</th><th>Random Seed</th><th>Clients</th><th>TB Tasks</th><th>Witnesses</th></tr></thead>
<tbody>{}</tbody>
</table>
<small>Bold row = current round (head)</small>"#;

/// Where the round that came `back` rounds before the current one is kept.
pub open spec fn round_index(head: nat, back: nat) -> int {
    (head + NUM_STORED_ROUNDS - back) as int % NUM_STORED_ROUNDS as int
}

/// The row of the round that came `back` rounds before the current one.
pub open spec fn round_row(c: CoordinatorState, back: nat) -> Seq<char> {
    let round = c.epoch_state.rounds[round_index(c.epoch_state.rounds_head as nat, back)];
    filled(
        ROUND_ROW@,
        seq![
            if back == 0 {
                " style=\"font-weight:bold\""@
            } else {
                ""@
            },
            decimal(round.height as nat),
            decimal(round.data_index as nat),
            decimal(round.random_seed as nat),
            decimal(round.clients_len as nat),
            decimal(round.tie_breaker_tasks as nat),
            decimal(round.witnesses as nat),
        ],
    )
}

/// The rows of the rounds, the current one first.
pub open spec fn round_rows(c: CoordinatorState) -> Seq<Seq<char>> {
    Seq::new(NUM_STORED_ROUNDS as nat, |back: int| round_row(c, back as nat))
}

/// Each remembered round is shown once, the current one first.
pub proof fn law_rounds_are_shown_once(head: nat, a: nat, b: nat)
    requires
        a < NUM_STORED_ROUNDS,
        b < NUM_STORED_ROUNDS,
    ensures
        0 <= round_index(head, a) < NUM_STORED_ROUNDS,
        a != b ==> round_index(head, a) != round_index(head, b),
        head < NUM_STORED_ROUNDS ==> round_index(head, 0) == head,
{
}

fn render_round_row(c: &CoordinatorState, back: usize) -> (r: String)
    requires
        back < NUM_STORED_ROUNDS,
    ensures
        r@ == round_row(*c, back as nat),
{
    let head: u64 = c.epoch_state.rounds_head as u64;
    let i: u64 = (head + NUM_STORED_ROUNDS as u64 - back as u64) % NUM_STORED_ROUNDS as u64;
    let round = c.epoch_state.rounds[i as usize];
    let highlight =
    if back == 0 {
        " style=\"font-weight:bold\""
    } else {
        ""
    };
    let fields = vec![
        highlight.to_string(),
        decimal_text(round.height as u64),
        decimal_text(round.data_index),
        decimal_text(round.random_seed),
        decimal_text(round.clients_len as u64),
        decimal_text(round.tie_breaker_tasks as u64),
        decimal_text(round.witnesses as u64),
    ];
    assert(views(fields@) =~= seq![
        if back == 0 {
            " style=\"font-weight:bold\""@
        } else {
            ""@
        },
        decimal(round.height as nat),
        decimal(round.data_index as nat),
        decimal(round.random_seed as nat),
        decimal(round.clients_len as nat),
        decimal(round.tie_breaker_tasks as nat),
        decimal(round.witnesses as nat),
    ]);
    fill(ROUND_ROW, &fields)
}

/// The rounds, the current one first.
pub fn rounds_partial(s: &WebState) -> (r: String)
    ensures
        r@ == (match s.coordinator {
            Some(c) => name_row(ROUNDS_TEMPLATE@, concatenated(round_rows(c))),
            None => WAITING_HTML@,
        }),
{
    let c = match &s.coordinator {
        Some(c) => c,
        None => {
            return WAITING_HTML.to_string();
        },
    };
    let mut rows: Vec<String> = Vec::new();
    let mut back: usize = 0;
    while back < NUM_STORED_ROUNDS
        invariant
            back <= NUM_STORED_ROUNDS,
            views(rows@) == round_rows(*c).take(back as int),
        decreases NUM_STORED_ROUNDS - back,
    {
        rows.push(render_round_row(c, back));
        back = back + 1;
        assert(views(rows@) =~= round_rows(*c).take(back as int));
    }
    assert(round_rows(*c).take(back as int) =~= round_rows(*c));
    let all = concat_all(&rows);
    fill_one(ROUNDS_TEMPLATE, &all)
}

// Settings and model

/// The settings of the run.
pub const CONFIG_TEMPLATE: &'static str = r#"<table border="1">
<tr><td><b>Total Steps</b></td><td>{}</td></tr>
<tr><td><b>Epoch Time</b></td><td>{}s</td></tr>
<tr><td><b>Warmup Time</b></td><td>{}s</td></tr>
<tr><td><b>Cooldown Time</b></td><td>{}s</td></tr>
<tr><td><b>Max Round Train Time</b></td><td>{}s</td></tr>
<tr><td><b>Round Witness Time</b></td><td>{}s</td></tr>
<tr><td><b>Warmup Batch Tokens</b></td><td>{}</td></tr>
<tr><td><b>Init Min Clients</b></td><td>{}</td></tr>
<tr><td><b>Min Clients</b></td><td>{}</td></tr>
<tr><td><b>Witness Nodes</b></td><td>{}</td></tr>
<tr><td><b>Global Batch Size Start</b></td><td>{}</td></tr>
<tr><td><b>Global Batch Size End</b></td><td>{}</td></tr>
<tr><td><b>Verification %</b></td><td>{}%</td></tr>
<tr><td><b>Waiting Extra Time</b></td><td>{}s</td></tr>
</table>"#;

/// What stands on the page of settings, in order.
pub open spec fn config_fields(c: CoordinatorState) -> Seq<Seq<char>> {
    seq![
        decimal(c.config.total_steps as nat),
        decimal(c.config.epoch_time as nat),
        decimal(c.config.warmup_time as nat),
        decimal(c.config.cooldown_time as nat),
        decimal(c.config.max_round_train_time as nat),
        decimal(c.config.round_witness_time as nat),
        decimal(c.config.global_batch_size_warmup_tokens as nat),
        decimal(c.config.init_min_clients as nat),
        decimal(c.config.min_clients as nat),
        decimal(c.config.witness_nodes as nat),
        decimal(c.config.global_batch_size_start as nat),
        decimal(c.config.global_batch_size_end as nat),
        decimal(c.config.verification_percent as nat),
        decimal(c.config.waiting_for_members_extra_time as nat),
    ]
}

/// The settings of the run.
pub fn config_partial(s: &WebState) -> (r: String)
    ensures
        r@ == (match s.coordinator {
            Some(c) => filled(CONFIG_TEMPLATE@, config_fields(c)),
            None => WAITING_HTML@,
        }),
{
    let c = match &s.coordinator {
        Some(c) => c,
        None => {
            return WAITING_HTML.to_string();
        },
    };
    let cfg = &c.config;
    let fields = vec![
        decimal_text(cfg.total_steps as u64),
        decimal_text(cfg.epoch_time),
        decimal_text(cfg.warmup_time),
        decimal_text(cfg.cooldown_time),
        decimal_text(cfg.max_round_train_time),
        decimal_text(cfg.round_witness_time),
        decimal_text(cfg.global_batch_size_warmup_tokens),
        decimal_text(cfg.init_min_clients as u64),
        decimal_text(cfg.min_clients as u64),
        decimal_text(cfg.witness_nodes as u64),
        decimal_text(cfg.global_batch_size_start as u64),
        decimal_text(cfg.global_batch_size_end as u64),
        decimal_text(cfg.verification_percent as u64),
        decimal_text(cfg.waiting_for_members_extra_time as u64),
    ];
    assert(views(fields@) =~= config_fields(*c));
    fill(CONFIG_TEMPLATE, &fields)
}

/// The model.
pub const MODEL_TEMPLATE: &'static str = r#"<table border="1">
<tr><td><b>Architecture</b></td><td>{}</td></tr>
<tr><td><b>Max Seq Len</b></td><td>{}</td></tr>
<tr><td><b>Cold Start Warmup Steps</b></td><td>{}</td></tr>
<tr><td><b>Data Type</b></td><td>{}</td></tr>
<tr><td><b>Checkpoint</b></td><td>{}</td></tr>
<tr><td><b>LR Schedule</b></td><td>{}</td></tr>
<tr><td><b>Optimizer</b></td><td>{}</td></tr>
</table>"#;

/// What stands on the page of the model, in order.
pub open spec fn model_fields(c: CoordinatorState, lr: Seq<char>, opt: OptimizerText) -> Seq<Seq<char>> {
    seq![
        architecture_label(c.model.architecture),
        decimal(c.model.max_seq_len as nat),
        decimal(c.model.cold_start_warmup_steps as nat),
        data_type_label(c.model.data_type),
        checkpoint_label(c.model.checkpoint),
        lr,
        optimizer_text(opt),
    ]
}

/// The model, its learning-rate schedule put into words.
pub fn model_partial(s: &WebState, lr_schedule: &str, optimizer: &OptimizerText) -> (r: String)
    ensures
        r@ == (match s.coordinator {
            Some(c) => filled(MODEL_TEMPLATE@, model_fields(c, lr_schedule@, *optimizer)),
            None => WAITING_HTML@,
        }),
{
    let c = match &s.coordinator {
        Some(c) => c,
        None => {
            return WAITING_HTML.to_string();
        },
    };
    let fields = vec![
        format_llm_architecture(&c.model.architecture).to_string(),
        decimal_text(c.model.max_seq_len as u64),
        decimal_text(c.model.cold_start_warmup_steps as u64),
        format_data_type(&c.model.data_type).to_string(),
        format_checkpoint_label(&c.model.checkpoint).to_string(),
        lr_schedule.to_string(),
        format_optimizer(optimizer),
    ];
    assert(views(fields@) =~= model_fields(*c, lr_schedule@, *optimizer));
    fill(MODEL_TEMPLATE, &fields)
}

// Timing

/// How long the run has taken and will take.
pub const TIMING_TEMPLATE: &'static str = r#"<table border="1">
<tr><td><b>Elapsed</b></td><td>{}</td></tr>
<tr><td><b>Remaining Steps</b></td><td>{}</td></tr>
<tr><td><b>Remaining Tokens</b></td><td>{}</td></tr>
<tr><td><b>Tokens / Step</b></td><td>{}</td></tr>
<tr><td><b>ETA (weighted avg)</b></td><td>{} <span class="hint">({})</span></td></tr>
<tr><td><b>ETA (overall avg)</b></td><td>{} <span class="hint">({})</span></td></tr>
<tr><td><b>ETA (current speed)</b></td><td>{} <span class="hint">({})</span></td></tr>
</table>"#;

/// What is estimated of a run: fractions put into words, durations in seconds.
#[derive(Debug)]
pub struct TimingEstimate {
    pub remaining_steps: u32,
    pub remaining_tokens: String,
    pub weighted_eta: Option<u64>,
    pub weighted_tps: Option<String>,
    pub avg_eta: Option<u64>,
    pub avg_tps: Option<String>,
    pub current_eta: Option<u64>,
    pub current_tps: Option<String>,
}

/// How long a run has been going, at the moment `now`: since the first of `points`, or else since
/// its state began, where that is known.
pub open spec fn elapsed_since(points: Seq<LossPoint>, state_start: u64, now: u64) -> Option<u64> {
    if points.len() > 0 {
        Some(seconds_since(points[0].unix_timestamp, now) as u64)
    } else if state_start > 0 {
        Some(seconds_since(state_start, now) as u64)
    } else {
        None
    }
}

/// How long a run has been going, at the moment `now`.
pub fn elapsed(points: &Vec<LossPoint>, state_start: u64, now: u64) -> (r: Option<u64>)
    ensures
        r == elapsed_since(points@, state_start, now),
{
    if points.len() > 0 {
        Some(now.saturating_sub(points[0].unix_timestamp))
    } else if state_start > 0 {
        Some(now.saturating_sub(state_start))
    } else {
        None
    }
}

/// The tokens of a step at its current batch size.
pub open spec fn step_tokens(c: CoordinatorState) -> nat {
    (c.target_global_batch_size * c.model.max_seq_len) as nat
}

/// The tokens of a step at its current batch size.
pub fn tokens_per_step(c: &CoordinatorState) -> (r: u64)
    ensures
        r == step_tokens(*c),
{
    let batch: u64 = c.target_global_batch_size as u64;
    let len: u64 = c.model.max_seq_len as u64;
    assert(0 <= batch * len <= 0xffff * 0xffff_ffff) by (nonlinear_arith)
        requires
            batch <= 0xffff,
            len <= 0xffff_ffff,
    ;
    batch * len
}

/// The tokens that a run is to be trained on.
pub open spec fn token_budget(c: CoordinatorState) -> int {
    c.config.total_steps * c.config.global_batch_size_end * c.model.max_seq_len
}

/// The tokens that are still to be processed: none once the budget is spent.
pub fn remaining_tokens(c: &CoordinatorState) -> (r: u64)
    requires
        token_budget(*c) <= u64::MAX,
    ensures
        r == tokens_to_go(*c),
{
    let steps: u64 = c.config.total_steps as u64;
    let batch: u64 = c.config.global_batch_size_end as u64;
    proof {
        assert(steps * batch <= 0xffff_ffff * 0xffff) by (nonlinear_arith)
            requires
                steps <= 0xffff_ffff,
                batch <= 0xffff,
        ;
    }
    let samples: u64 = steps * batch;
    let budget: u64 = samples * c.model.max_seq_len as u64;
    budget.saturating_sub(c.total_tokens_processed)
}

/// The tokens that are still to be processed.
pub open spec fn tokens_to_go(c: CoordinatorState) -> int {
    if token_budget(c) > c.total_tokens_processed {
        token_budget(c) - c.total_tokens_processed
    } else {
        0
    }
}

/// The estimate belongs to this run: throughputs are known if and only if one was reported, nothing
/// more takes no time and no step, and how long the rest takes is not known without a throughput.
pub open spec fn timing_fits(t: TimingEstimate, s: WebState, c: CoordinatorState) -> bool {
    let rates = positive_throughputs(s.loss_history@);
    &&& t.weighted_tps is Some <==> rates.len() > 0
    &&& t.avg_tps is Some <==> rates.len() > 0
    &&& t.current_tps is Some <==> rates.len() > 0
    &&& tokens_to_go(c) == 0 ==> t.remaining_steps == 0 && t.weighted_eta == Some(0u64) && t.avg_eta
        == Some(0u64) && t.current_eta == Some(0u64)
    &&& tokens_to_go(c) > 0 && rates.len() == 0 ==> t.weighted_eta is None && t.avg_eta is None
        && t.current_eta is None
}

/// What stands on the page of timing of a run that has tokens to go and has reported no throughput:
/// dashes for all that is not known.
pub open spec fn untimed_fields(s: WebState, c: CoordinatorState, t: TimingEstimate, now: u64) -> Seq<
    Seq<char>,
> {
    seq![
        eta_text(elapsed_since(Seq::empty(), c.run_state_start_unix_timestamp, now)),
        decimal(t.remaining_steps as nat),
        t.remaining_tokens@,
        decimal(step_tokens(c)),
        "-"@,
        "-"@,
        "-"@,
        "-"@,
        "-"@,
        "-"@,
    ]
}

/// What stands on the page of timing, in order.
pub open spec fn timing_fields(s: WebState, c: CoordinatorState, t: TimingEstimate, now: u64) -> Seq<
    Seq<char>,
> {
    seq![
        eta_text(
            elapsed_since(
                positive_throughputs(s.loss_history@),
                c.run_state_start_unix_timestamp,
                now,
            ),
        ),
        decimal(t.remaining_steps as nat),
        t.remaining_tokens@,
        decimal(step_tokens(c)),
        eta_text(t.weighted_eta),
        tps_text(name_view(t.weighted_tps)),
        eta_text(t.avg_eta),
        tps_text(name_view(t.avg_tps)),
        eta_text(t.current_eta),
        tps_text(name_view(t.current_tps)),
    ]
}

/// How long the run has taken and will take, at the moment `now`.
pub fn timing_partial(s: &WebState, t: &TimingEstimate, now: u64) -> (r: String)
    ensures
        r@ == (match s.coordinator {
            Some(c) => filled(TIMING_TEMPLATE@, timing_fields(*s, c, *t, now)),
            None => WAITING_HTML@,
        }),
        match s.coordinator {
            Some(c) => timing_fits(*t, *s, c) && tokens_to_go(c) > 0 && positive_throughputs(
                s.loss_history@,
            ).len() == 0 ==> r@ == filled(TIMING_TEMPLATE@, untimed_fields(*s, c, *t, now)),
            None => true,
        },
{
    let c = match &s.coordinator {
        Some(c) => c,
        None => {
            return WAITING_HTML.to_string();
        },
    };
    let points = points_with_positive_throughput(&s.loss_history);
    let fields = vec![
        format_eta(elapsed(&points, c.run_state_start_unix_timestamp, now)),
        decimal_text(t.remaining_steps as u64),
        t.remaining_tokens.clone(),
        decimal_text(tokens_per_step(c)),
        format_eta(t.weighted_eta),
        format_tps(&t.weighted_tps),
        format_eta(t.avg_eta),
        format_tps(&t.avg_tps),
        format_eta(t.current_eta),
        format_tps(&t.current_tps),
    ];
    assert(views(fields@) =~= timing_fields(*s, *c, *t, now));
    proof {
        if timing_fits(*t, *s, *c) && tokens_to_go(*c) > 0 && points@.len() == 0 {
            assert(timing_fields(*s, *c, *t, now) =~= untimed_fields(*s, *c, *t, now));
        }
    }
    fill(TIMING_TEMPLATE, &fields)
}

// Charts

/// A label at an axis: where it stands along the axis, and what it says.
#[derive(Debug)]
pub struct AxisLabel {
    pub at: String,
    pub says: String,
}

/// A chart, its fractions put into words.
#[derive(Debug)]
pub struct Chart {
    /// What is said above the chart, in order.
    pub summary: Vec<String>,
    /// The least and the greatest number of tokens.
    pub min_tokens: String,
    pub max_tokens: String,
    pub y_labels: Vec<AxisLabel>,
    pub x_labels: Vec<AxisLabel>,
    /// The points of the line, each as a pair of coordinates.
    pub points: Vec<String>,
}

/// A label left of the chart of losses.
pub const LOSS_Y_LABEL: &'static str = r##"<text x="55" y="{}" text-anchor="end" fill="#e2ccb8">{}</text>"##;

/// A label below the chart of losses.
pub const LOSS_X_LABEL: &'static str = r##"<text x="{}" y="242" text-anchor="middle" fill="#e2ccb8">{}</text>"##;

/// The chart of losses, up to its line.
pub const LOSS_TEMPLATE: &'static str = r##"<div>
<b>Latest Loss:</b> {} &nbsp; <b>Min:</b> {} &nbsp; <b>Max:</b> {} &nbsp; <b>Avg:</b> {} &nbsp; Tokens: {} - {} &nbsp; Points: {}
<br><br>
<svg width="800" height="250" viewBox="0 0 800 250" xmlns="http://www.w3.org/2000/svg" class="chart-svg">
<rect x="60" y="20" width="720" height="200" fill="none" stroke="#463840"/>
{}
{}
"##;

/// What comes before the points of a line.
pub const POLYLINE: &'static str = r#"<polyline points=""#;

/// What comes behind the points of the line of losses.
pub const LOSS_END: &'static str = r##"" fill="none" stroke="#e2ccb8"/>
</svg>
</div>"##;

/// What stands in place of the chart of losses before there are two.
pub const NOT_ENOUGH_LOSS: &'static str = r#"<i>Not enough loss data yet</i>"#;

/// A label left of the chart of throughput.
pub const TPS_Y_LABEL: &'static str = r##"<text x="65" y="{}" text-anchor="end" fill="#e2ccb8">{}</text>"##;

/// A label below the chart of throughput.
pub const TPS_X_LABEL: &'static str = r##"<text x="{}" y="192" text-anchor="middle" fill="#e2ccb8">{}</text>"##;

/// The chart of throughput, up to its line.
pub const TPS_TEMPLATE: &'static str = r##"<div>
<b>Latest Tokens/s:</b> {} &nbsp; <b>Avg:</b> {} &nbsp; <b>Peak:</b> {} &nbsp; Tokens: {} - {} &nbsp; Points: {}
<br><br>
<svg width="800" height="200" viewBox="0 0 800 200" xmlns="http://www.w3.org/2000/svg" class="chart-svg">
<rect x="70" y="20" width="710" height="150" fill="none" stroke="#463840"/>
{}
{}
"##;

/// What comes behind the points of the line of throughputs.
pub const TPS_END: &'static str = r##"" fill="none" stroke="#52b8cd"/>
</svg>
</div>"##;

/// What stands in place of the chart of throughput before there are two.
pub const NOT_ENOUGH_TPS: &'static str = r#"<i>Not enough throughput data yet</i>"#;

/// The labels of an axis.
pub open spec fn labels_text(template: Seq<char>, labels: Seq<AxisLabel>) -> Seq<char> {
    concatenated(labels.map_values(|l: AxisLabel| filled(template, seq![l.at@, l.says@])))
}

fn render_labels(template: &str, labels: &Vec<AxisLabel>) -> (r: String)
    ensures
        r@ == labels_text(template@, labels@),
{
    let ghost f = |l: AxisLabel| filled(template@, seq![l.at@, l.says@]);
    let mut out: Vec<String> = Vec::new();
    let mut i: usize = 0;
    assert(views(out@) =~= labels@.take(0).map_values(f));
    while i < labels.len()
        invariant
            i <= labels@.len(),
            f == (|l: AxisLabel| filled(template@, seq![l.at@, l.says@])),
            views(out@) == labels@.take(i as int).map_values(f),
        decreases labels@.len() - i,
    {
        let fields = vec![labels[i].at.clone(), labels[i].says.clone()];
        assert(views(fields@) =~= seq![labels@[i as int].at@, labels@[i as int].says@]);
        out.push(fill(template, &fields));
        i = i + 1;
        assert(views(out@) =~= labels@.take(i as int).map_values(f));
    }
    assert(labels@.take(i as int) =~= labels@);
    concat_all(&out)
}

/// What stands in a chart of `n` points before its line, in order.
pub open spec fn chart_fields(chart: Chart, n: nat, y: Seq<char>, x: Seq<char>) -> Seq<Seq<char>> {
    views(chart.summary@) + seq![
        chart.min_tokens@,
        chart.max_tokens@,
        decimal(n),
        labels_text(y, chart.y_labels@),
        labels_text(x, chart.x_labels@),
    ]
}

/// The points of a chart's line.
pub open spec fn line_of(chart: Chart) -> Seq<char> {
    joined(views(chart.points@), " "@)
}

/// The blanks in a text.
pub open spec fn blanks(s: Seq<char>) -> nat
    decreases s.len(),
{
    if s.len() == 0 {
        0
    } else {
        blanks(s.drop_last()) + (if s.last() == ' ' {
            1nat
        } else {
            0
        })
    }
}

/// How many points a line has: they are separated by blanks.
pub open spec fn points_on(line: Seq<char>) -> nat {
    blanks(line) + 1
}

/// A line of `n` points is drawn.
pub open spec fn draws_line(html: Seq<char>, line: Seq<char>, n: nat) -> bool {
    mentions(html, POLYLINE@ + line + "\""@) && points_on(line) == n
}

/// The chart has a point for each of `n` values, none of them with a blank in it, and as many words
/// and labels as it should have.
pub open spec fn is_chart_of(chart: Chart, n: nat, summary: nat, y_labels: nat, x_labels: nat) -> bool {
    &&& chart.summary@.len() == summary
    &&& chart.y_labels@.len() == y_labels
    &&& chart.x_labels@.len() == x_labels
    &&& chart.points@.len() == n
    &&& forall|i: int| 0 <= i < n ==> blanks((#[trigger] chart.points@[i])@) == 0
}

/// The chart belongs to these losses.
pub open spec fn is_loss_chart(chart: Chart, losses: Seq<LossPoint>) -> bool {
    is_chart_of(chart, finite_losses(losses).len(), 4, 6, 7)
}

/// The chart belongs to these throughputs.
pub open spec fn is_throughput_chart(chart: Chart, losses: Seq<LossPoint>) -> bool {
    is_chart_of(chart, positive_throughputs(losses).len(), 3, 5, 7)
}

proof fn lemma_blanks_concat(a: Seq<char>, b: Seq<char>)
    ensures
        blanks(a + b) == blanks(a) + blanks(b),
    decreases b.len(),
{
    if b.len() == 0 {
        assert(a + b =~= a);
    } else {
        lemma_blanks_concat(a, b.drop_last());
        assert((a + b).drop_last() =~= a + b.drop_last());
    }
}

/// Texts without blanks, joined by blanks, can be told apart.
proof fn lemma_joined_points(parts: Seq<Seq<char>>)
    requires
        parts.len() > 0,
        forall|i: int| 0 <= i < parts.len() ==> blanks(#[trigger] parts[i]) == 0,
    ensures
        points_on(joined(parts, " "@)) == parts.len(),
    decreases parts.len(),
{
    if parts.len() > 1 {
        let rest = parts.drop_last();
        let sep = " "@;
        reveal_strlit(" ");
        assert(sep.drop_last().len() == 0);
        assert(blanks(sep) == 1) by {
            assert(blanks(sep.drop_last()) == 0);
        }
        assert(blanks(parts[parts.len() - 1]) == 0);
        assert forall|i: int| 0 <= i < rest.len() implies blanks(#[trigger] rest[i]) == 0 by {
            assert(rest[i] == parts[i]);
        }
        lemma_joined_points(rest);
        lemma_blanks_concat(joined(rest, sep), sep);
        lemma_blanks_concat(joined(rest, sep) + sep, parts.last());
    } else {
        assert(blanks(parts[0]) == 0);
    }
}

/// A chart draws its line, and with a point for each value where it has one for each.
proof fn lemma_draws_line(chart: Chart, n: nat, before: Seq<char>, end: Seq<char>)
    requires
        n > 0,
        chart.points@.len() == n,
        forall|i: int| 0 <= i < n ==> blanks((#[trigger] chart.points@[i])@) == 0,
        end.len() > 0,
        end[0] == '"',
    ensures
        draws_line(before + POLYLINE@ + line_of(chart) + end, line_of(chart), n),
{
    let parts = views(chart.points@);
    assert forall|i: int| 0 <= i < parts.len() implies blanks(#[trigger] parts[i]) == 0 by {
        assert(parts[i] == chart.points@[i]@);
    }
    lemma_joined_points(parts);
    reveal_strlit("\"");
    let html = before + POLYLINE@ + line_of(chart) + end;
    let drawn = POLYLINE@ + line_of(chart) + "\""@;
    let i = before.len() as int;
    assert(html.subrange(i, i + drawn.len()) =~= drawn);
    assert(holds_at(html, drawn, i));
}

fn render_chart(template: &str, chart: &Chart, n: usize, y: &str, x: &str, end: &str) -> (r: String)
    ensures
        r@ == filled(template@, chart_fields(*chart, n as nat, y@, x@)) + POLYLINE@ + line_of(
            *chart,
        ) + end@,
{
    let mut fields: Vec<String> = Vec::new();
    let mut i: usize = 0;
    while i < chart.summary.len()
        invariant
            i <= chart.summary@.len(),
            fields@ == chart.summary@.take(i as int),
        decreases chart.summary@.len() - i,
    {
        fields.push(chart.summary[i].clone());
        i = i + 1;
        assert(fields@ =~= chart.summary@.take(i as int));
    }
    assert(chart.summary@.take(i as int) =~= chart.summary@);
    fields.push(chart.min_tokens.clone());
    fields.push(chart.max_tokens.clone());
    fields.push(decimal_text(n as u64));
    fields.push(render_labels(y, &chart.y_labels));
    fields.push(render_labels(x, &chart.x_labels));
    assert(views(fields@) =~= chart_fields(*chart, n as nat, y@, x@));
    let mut out = fill(template, &fields);
    out.append(POLYLINE);
    out.append(join(&chart.points, " ").as_str());
    out.append(end);
    out
}

/// The chart of the finite losses, once there are two.
pub fn render_loss_svg(losses: &Vec<LossPoint>, chart: &Chart) -> (r: String)
    ensures
        r@ == (if finite_losses(losses@).len() < 2 {
            NOT_ENOUGH_LOSS@
        } else {
            filled(
                LOSS_TEMPLATE@,
                chart_fields(*chart, finite_losses(losses@).len(), LOSS_Y_LABEL@, LOSS_X_LABEL@),
            ) + POLYLINE@ + line_of(*chart) + LOSS_END@
        }),
        is_loss_chart(*chart, losses@) && finite_losses(losses@).len() >= 2 ==> draws_line(
            r@,
            line_of(*chart),
            finite_losses(losses@).len(),
        ),
{
    let points = points_with_finite_loss(losses);
    if points.len() < 2 {
        return NOT_ENOUGH_LOSS.to_string();
    }
    proof {
        if is_loss_chart(*chart, losses@) {
            reveal_strlit("\" fill=\"none\" stroke=\"#e2ccb8\"/>\n</svg>\n</div>");
            lemma_draws_line(
                *chart,
                points@.len(),
                filled(
                    LOSS_TEMPLATE@,
                    chart_fields(*chart, points@.len(), LOSS_Y_LABEL@, LOSS_X_LABEL@),
                ),
                LOSS_END@,
            );
        }
    }
    render_chart(LOSS_TEMPLATE, chart, points.len(), LOSS_Y_LABEL, LOSS_X_LABEL, LOSS_END)
}

/// The chart of the positive throughputs, once there are two.
pub fn render_throughput_svg(losses: &Vec<LossPoint>, chart: &Chart) -> (r: String)
    ensures
        r@ == (if positive_throughputs(losses@).len() < 2 {
            NOT_ENOUGH_TPS@
        } else {
            filled(
                TPS_TEMPLATE@,
                chart_fields(*chart, positive_throughputs(losses@).len(), TPS_Y_LABEL@, TPS_X_LABEL@),
            ) + POLYLINE@ + line_of(*chart) + TPS_END@
        }),
        is_throughput_chart(*chart, losses@) && positive_throughputs(losses@).len() >= 2
            ==> draws_line(r@, line_of(*chart), positive_throughputs(losses@).len()),
{
    let points = points_with_positive_throughput(losses);
    if points.len() < 2 {
        return NOT_ENOUGH_TPS.to_string();
    }
    proof {
        if is_throughput_chart(*chart, losses@) {
            reveal_strlit("\" fill=\"none\" stroke=\"#52b8cd\"/>\n</svg>\n</div>");
            lemma_draws_line(
                *chart,
                points@.len(),
                filled(
                    TPS_TEMPLATE@,
                    chart_fields(*chart, points@.len(), TPS_Y_LABEL@, TPS_X_LABEL@),
                ),
                TPS_END@,
            );
        }
    }
    render_chart(TPS_TEMPLATE, chart, points.len(), TPS_Y_LABEL, TPS_X_LABEL, TPS_END)
}

/// The page that holds all others.
pub const INDEX_HTML: &'static str = r##"<!DOCTYPE html>
<html>
<head>
<title>Aether Training Monitor</title>
<script src="https://unpkg.com/htmx.org@2.0.4"></script>
<style>
body { font-family: monospace; margin: 0; background: #141216; color: #e2ccb8; font-size: 13px; }
.wrap { max-width: 1200px; margin: 0 auto; padding: 0 1rem 1.5rem; }
.topbar { position: sticky; top: 0; z-index: 10; background: #141216; border-bottom: 1px solid #463840; padding: .55rem 0; }
.topbar .wrap { display: flex; align-items: baseline; justify-content: space-between; gap: 1rem; flex-wrap: wrap; }
.topbar h1 { font-size: 15px; margin: 0; }
.hint { color: #746268; font-size: 12px; }
h1 { color: #f5ead9; }
h2 { color: #e2ccb8; border-bottom: 1px solid #463840; padding-bottom: 4px; font-size: 14px; margin: 0 0 .5rem; }
table { border-collapse: collapse; }
td, th { padding: 3px 8px; text-align: left; border: 1px solid #463840; font-size: 12px; }
b { color: #f5ead9; }
a { color: #52b8cd; }
.grid { display: grid; grid-template-columns: repeat(auto-fit, minmax(320px, 1fr)); gap: 1rem 1.25rem; margin-top: 1rem; align-items: start; }
svg { display: block; width: 100%; height: auto; }
.chart-svg text { fill: #e2ccb8; font-size: 11px; }
.panel { overflow-x: auto; }
</style>
</head>
<body>
<header class="topbar"><div class="wrap">
  <h1>Aether Training Monitor</h1>
  <span class="hint">live &middot; auto-refresh 2&ndash;5s</span>
</div></header>
<div class="wrap">
<div class="grid">
  <div class="panel">
    <h2>Overview</h2>
    <div hx-get="/partials/overview" hx-trigger="every 2s" hx-swap="innerHTML"><i>Loading...</i></div>
  </div>
  <div class="panel">
    <h2>Configuration</h2>
    <div hx-get="/partials/config" hx-trigger="every 5s" hx-swap="innerHTML"><i>Loading...</i></div>
  </div>
  <div class="panel">
    <h2>Model</h2>
    <div hx-get="/partials/model" hx-trigger="every 5s" hx-swap="innerHTML"><i>Loading...</i></div>
  </div>
</div>
<div class="grid">
  <div class="panel">
    <h2>Clients</h2>
    <div hx-get="/partials/clients" hx-trigger="every 2s" hx-swap="innerHTML"><i>Loading...</i></div>
  </div>
  <div class="panel">
    <h2>Rounds</h2>
    <div hx-get="/partials/rounds" hx-trigger="every 3s" hx-swap="innerHTML"><i>Loading...</i></div>
  </div>
  <div class="panel">
    <h2>Timing</h2>
    <div hx-get="/partials/timing" hx-trigger="every 2s" hx-swap="innerHTML"><i>Loading...</i></div>
  </div>
</div>
<div class="grid">
  <div class="panel">
    <h2>Loss</h2>
    <div hx-get="/partials/loss" hx-trigger="every 5s" hx-swap="innerHTML"><i>Loading...</i></div>
  </div>
  <div class="panel">
    <h2>Throughput (Tokens/sec)</h2>
    <div hx-get="/partials/throughput" hx-trigger="every 5s" hx-swap="innerHTML"><i>Loading...</i></div>
  </div>
</div>
</div>
</body>
</html>"##;

/// The page that holds all others.
pub fn index() -> (r: &'static str)
    ensures
        r@ == INDEX_HTML@,
{
    INDEX_HTML
}

} // verus!
