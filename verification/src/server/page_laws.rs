//! What the pages of the web monitor say, and where they say it.

use vstd::prelude::*;

use super::labels::{
    architecture_label, checkpoint_label, client_state_label, data_type_label, duration_text, eta_text,
    optimizer_text, run_state_label, OptimizerText,
};
use super::loss::{is_finite_positive, LossPoint};
use super::web::{
    chart_fields, client_row, client_rows, clients_fields, config_fields, connected_rows, elapsed_since,
    exited_row, exited_rows, labels_text, model_fields, name_row, overview_fields, round_row, round_rows,
    state_style, timing_fields, AxisLabel, Chart, TimingEstimate, WebState, CLIENTS_TEMPLATE, CLIENT_ROW,
    CONFIG_TEMPLATE, CONNECTED_SECTION, EXITED_ROW, EXITED_SECTION, LOSS_TEMPLATE, LOSS_X_LABEL,
    LOSS_Y_LABEL, MODEL_TEMPLATE, NO_CLIENTS, OVERVIEW_TEMPLATE, READY_ROW, ROUNDS_TEMPLATE, ROUND_ROW,
    SYNCING_ROW, TIMING_TEMPLATE, TPS_TEMPLATE, TPS_X_LABEL, TPS_Y_LABEL,
};
use crate::coordinator::{ClientInfo, ClientState, CoordinatorState};
use crate::text::{
    all_fixed, blank, blank_from, concatenated, decimal, filled, holds_at, is_fixed,
    law_fields_go_to_their_places, law_fields_stand_between_their_texts, mentions, said, woven,
};

verus! {

/// The overview says beside each label what it names: the state and step of the run, its clients, and
/// how long it has been going.
#[verifier::rlimit(60)]
pub proof fn law_overview_says(s: WebState, c: CoordinatorState, now: u64)
    ensures
        filled(OVERVIEW_TEMPLATE@, overview_fields(s, c, now)) == woven(
            seq![
                (
                    "<table border=\"1\">\n<tr><td><b>Run State</b></td><td>"@,
                    run_state_label(c.run_state),
                ),
                (" "@, if c.pending_pause { "⚠️ Pending Pause"@ } else { ""@ }),
                ("</td></tr>\n<tr><td><b>Run ID</b></td><td>"@, c.run_id@),
                ("</td></tr>\n<tr><td><b>Epoch</b></td><td>"@, decimal(c.progress.epoch as nat)),
                ("</td></tr>\n<tr><td><b>Step</b></td><td>"@, decimal(c.progress.step as nat)),
                (" / "@, decimal(c.config.total_steps as nat)),
                (
                    "</td></tr>\n<tr><td><b>Height (Round)</b></td><td>"@,
                    decimal(c.epoch_state.rounds[c.epoch_state.rounds_head as int].height as nat),
                ),
                (
                    "</td></tr>\n<tr><td><b>Epoch Steps</b></td><td>"@,
                    decimal(c.epoch_state.start_step as nat),
                ),
                (" - "@, decimal(c.epoch_state.last_step as nat)),
                ("</td></tr>\n<tr><td><b>Clients</b></td><td>"@, decimal(c.epoch_state.clients@.len())),
                (" ("@, decimal(c.epoch_state.exited_clients@.len())),
                (
                    " exited)</td></tr>\n<tr><td><b>Connected</b></td><td><span style=\"color:#52b8cd\">"@,
                    decimal(s.ready_clients@.len()),
                ),
                (" ready</span>, <span style=\"color:#e28844\">"@, decimal(s.syncing_clients@.len())),
                (" syncing</span></td></tr>\n<tr><td><b>Server</b></td><td>"@, s.server_addr@),
                (
                    "</td></tr>\n<tr><td><b>State Duration</b></td><td>"@,
                    duration_text(
                        if now >= c.run_state_start_unix_timestamp {
                            (now - c.run_state_start_unix_timestamp) as nat
                        } else {
                            0
                        },
                    ),
                ),
                (
                    "</td></tr>\n<tr><td><b>Epoch Duration</b></td><td>"@,
                    if c.epoch_state.start_timestamp == 0 {
                        "-"@
                    } else if now >= c.epoch_state.start_timestamp {
                        duration_text((now - c.epoch_state.start_timestamp) as nat)
                    } else {
                        duration_text(0)
                    },
                ),
                (
                    "</td></tr>\n<tr><td><b>Data Index</b></td><td>"@,
                    decimal(c.progress.epoch_start_data_index as nat),
                ),
                (
                    "</td></tr>\n<tr><td><b>First Round</b></td><td>"@,
                    if c.epoch_state.first_round { "Yes"@ } else { "No"@ },
                ),
                (
                    "</td></tr>\n<tr><td><b>Cold Start Epoch</b></td><td>"@,
                    if c.epoch_state.cold_start_epoch { "Yes"@ } else { "No"@ },
                ),
            ],
            "</td></tr>\n</table>"@,
        ),
{
    let parts = seq![
        ("<table border=\"1\">\n<tr><td><b>Run State</b></td><td>"@, run_state_label(c.run_state)),
        (" "@, if c.pending_pause { "⚠️ Pending Pause"@ } else { ""@ }),
        ("</td></tr>\n<tr><td><b>Run ID</b></td><td>"@, c.run_id@),
        ("</td></tr>\n<tr><td><b>Epoch</b></td><td>"@, decimal(c.progress.epoch as nat)),
        ("</td></tr>\n<tr><td><b>Step</b></td><td>"@, decimal(c.progress.step as nat)),
        (" / "@, decimal(c.config.total_steps as nat)),
        (
            "</td></tr>\n<tr><td><b>Height (Round)</b></td><td>"@,
            decimal(c.epoch_state.rounds[c.epoch_state.rounds_head as int].height as nat),
        ),
        ("</td></tr>\n<tr><td><b>Epoch Steps</b></td><td>"@, decimal(c.epoch_state.start_step as nat)),
        (" - "@, decimal(c.epoch_state.last_step as nat)),
        ("</td></tr>\n<tr><td><b>Clients</b></td><td>"@, decimal(c.epoch_state.clients@.len())),
        (" ("@, decimal(c.epoch_state.exited_clients@.len())),
        (
            " exited)</td></tr>\n<tr><td><b>Connected</b></td><td><span style=\"color:#52b8cd\">"@,
            decimal(s.ready_clients@.len()),
        ),
        (" ready</span>, <span style=\"color:#e28844\">"@, decimal(s.syncing_clients@.len())),
        (" syncing</span></td></tr>\n<tr><td><b>Server</b></td><td>"@, s.server_addr@),
        (
            "</td></tr>\n<tr><td><b>State Duration</b></td><td>"@,
            duration_text(
                if now >= c.run_state_start_unix_timestamp {
                    (now - c.run_state_start_unix_timestamp) as nat
                } else {
                    0
                },
            ),
        ),
        (
            "</td></tr>\n<tr><td><b>Epoch Duration</b></td><td>"@,
            if c.epoch_state.start_timestamp == 0 {
                "-"@
            } else if now >= c.epoch_state.start_timestamp {
                duration_text((now - c.epoch_state.start_timestamp) as nat)
            } else {
                duration_text(0)
            },
        ),
        (
            "</td></tr>\n<tr><td><b>Data Index</b></td><td>"@,
            decimal(c.progress.epoch_start_data_index as nat),
        ),
        (
            "</td></tr>\n<tr><td><b>First Round</b></td><td>"@,
            if c.epoch_state.first_round { "Yes"@ } else { "No"@ },
        ),
        (
            "</td></tr>\n<tr><td><b>Cold Start Epoch</b></td><td>"@,
            if c.epoch_state.cold_start_epoch { "Yes"@ } else { "No"@ },
        ),
    ];
    let end = "</td></tr>\n</table>"@;
    assert(OVERVIEW_TEMPLATE@ == blank(parts, end)) by {
        reveal_strlit("{}");
        reveal_strlit("<table border=\"1\">\n<tr><td><b>Run State</b></td><td>{} {}</td></tr>\n<tr><td><b>Run ID</b></td><td>{}</td></tr>\n<tr><td><b>Epoch</b></td><td>{}</td></tr>\n<tr><td><b>Step</b></td><td>{} / {}</td></tr>\n<tr><td><b>Height (Round)</b></td><td>{}</td></tr>\n<tr><td><b>Epoch Steps</b></td><td>{} - {}</td></tr>\n<tr><td><b>Clients</b></td><td>{} ({} exited)</td></tr>\n<tr><td><b>Connected</b></td><td><span style=\"color:#52b8cd\">{} ready</span>, <span style=\"color:#e28844\">{} syncing</span></td></tr>\n<tr><td><b>Server</b></td><td>{}</td></tr>\n<tr><td><b>State Duration</b></td><td>{}</td></tr>\n<tr><td><b>Epoch Duration</b></td><td>{}</td></tr>\n<tr><td><b>Data Index</b></td><td>{}</td></tr>\n<tr><td><b>First Round</b></td><td>{}</td></tr>\n<tr><td><b>Cold Start Epoch</b></td><td>{}</td></tr>\n</table>");
        reveal_strlit("<table border=\"1\">\n<tr><td><b>Run State</b></td><td>");
        reveal_strlit(" ");
        reveal_strlit("</td></tr>\n<tr><td><b>Run ID</b></td><td>");
        reveal_strlit("</td></tr>\n<tr><td><b>Epoch</b></td><td>");
        reveal_strlit("</td></tr>\n<tr><td><b>Step</b></td><td>");
        reveal_strlit(" / ");
        reveal_strlit("</td></tr>\n<tr><td><b>Height (Round)</b></td><td>");
        reveal_strlit("</td></tr>\n<tr><td><b>Epoch Steps</b></td><td>");
        reveal_strlit(" - ");
        reveal_strlit("</td></tr>\n<tr><td><b>Clients</b></td><td>");
        reveal_strlit(" (");
        reveal_strlit(" exited)</td></tr>\n<tr><td><b>Connected</b></td><td><span style=\"color:#52b8cd\">");
        reveal_strlit(" ready</span>, <span style=\"color:#e28844\">");
        reveal_strlit(" syncing</span></td></tr>\n<tr><td><b>Server</b></td><td>");
        reveal_strlit("</td></tr>\n<tr><td><b>State Duration</b></td><td>");
        reveal_strlit("</td></tr>\n<tr><td><b>Epoch Duration</b></td><td>");
        reveal_strlit("</td></tr>\n<tr><td><b>Data Index</b></td><td>");
        reveal_strlit("</td></tr>\n<tr><td><b>First Round</b></td><td>");
        reveal_strlit("</td></tr>\n<tr><td><b>Cold Start Epoch</b></td><td>");
        reveal_strlit("</td></tr>\n</table>");
        reveal_with_fuel(blank_from, 20);
        assert(OVERVIEW_TEMPLATE@ =~= blank(parts, end));
    }
    assert(all_fixed(parts, end)) by {
        reveal_strlit("<table border=\"1\">\n<tr><td><b>Run State</b></td><td>");
        reveal_strlit(" ");
        reveal_strlit("</td></tr>\n<tr><td><b>Run ID</b></td><td>");
        reveal_strlit("</td></tr>\n<tr><td><b>Epoch</b></td><td>");
        reveal_strlit("</td></tr>\n<tr><td><b>Step</b></td><td>");
        reveal_strlit(" / ");
        reveal_strlit("</td></tr>\n<tr><td><b>Height (Round)</b></td><td>");
        reveal_strlit("</td></tr>\n<tr><td><b>Epoch Steps</b></td><td>");
        reveal_strlit(" - ");
        reveal_strlit("</td></tr>\n<tr><td><b>Clients</b></td><td>");
        reveal_strlit(" (");
        reveal_strlit(" exited)</td></tr>\n<tr><td><b>Connected</b></td><td><span style=\"color:#52b8cd\">");
        reveal_strlit(" ready</span>, <span style=\"color:#e28844\">");
        reveal_strlit(" syncing</span></td></tr>\n<tr><td><b>Server</b></td><td>");
        reveal_strlit("</td></tr>\n<tr><td><b>State Duration</b></td><td>");
        reveal_strlit("</td></tr>\n<tr><td><b>Epoch Duration</b></td><td>");
        reveal_strlit("</td></tr>\n<tr><td><b>Data Index</b></td><td>");
        reveal_strlit("</td></tr>\n<tr><td><b>First Round</b></td><td>");
        reveal_strlit("</td></tr>\n<tr><td><b>Cold Start Epoch</b></td><td>");
        reveal_strlit("</td></tr>\n</table>");
        assert(is_fixed(end));
        assert(is_fixed(parts[0].0));
        assert(is_fixed(parts[1].0));
        assert(is_fixed(parts[2].0));
        assert(is_fixed(parts[3].0));
        assert(is_fixed(parts[4].0));
        assert(is_fixed(parts[5].0));
        assert(is_fixed(parts[6].0));
        assert(is_fixed(parts[7].0));
        assert(is_fixed(parts[8].0));
        assert(is_fixed(parts[9].0));
        assert(is_fixed(parts[10].0));
        assert(is_fixed(parts[11].0));
        assert(is_fixed(parts[12].0));
        assert(is_fixed(parts[13].0));
        assert(is_fixed(parts[14].0));
        assert(is_fixed(parts[15].0));
        assert(is_fixed(parts[16].0));
        assert(is_fixed(parts[17].0));
        assert(is_fixed(parts[18].0));
    }
    assert(overview_fields(s, c, now) =~= said(parts));
    law_fields_go_to_their_places(parts, end);
}

/// The row of a client says its name, its state in the colour of the state, and the height at which it
/// left.
pub proof fn law_client_row_says(c: ClientInfo)
    ensures
        client_row(c) == woven(
            seq![
                ("<tr><td>"@, c.label@),
                (
                    "</td><td"@,
                    match c.state {
                        ClientState::Healthy => " style=\"color:#52b8cd\""@,
                        ClientState::Withdrawn => " style=\"color:#a85cbc\""@,
                        _ => " style=\"color:#da4e8a\""@,
                    },
                ),
                (
                    "><b>"@,
                    match c.state {
                        ClientState::Healthy => "Healthy"@,
                        ClientState::Dropped => "Dropped"@,
                        ClientState::Withdrawn => "Withdrawn"@,
                        ClientState::Ejected => "Ejected"@,
                    },
                ),
                ("</b></td><td>"@, decimal(c.exited_height as nat)),
            ],
            "</td></tr>"@,
        ),
{
    let parts = seq![
        ("<tr><td>"@, c.label@),
        (
            "</td><td"@,
            match c.state {
                ClientState::Healthy => " style=\"color:#52b8cd\""@,
                ClientState::Withdrawn => " style=\"color:#a85cbc\""@,
                _ => " style=\"color:#da4e8a\""@,
            },
        ),
        (
            "><b>"@,
            match c.state {
                ClientState::Healthy => "Healthy"@,
                ClientState::Dropped => "Dropped"@,
                ClientState::Withdrawn => "Withdrawn"@,
                ClientState::Ejected => "Ejected"@,
            },
        ),
        ("</b></td><td>"@, decimal(c.exited_height as nat)),
    ];
    let end = "</td></tr>"@;
    assert(CLIENT_ROW@ == blank(parts, end)) by {
        reveal_strlit("{}");
        reveal_strlit("<tr><td>{}</td><td{}><b>{}</b></td><td>{}</td></tr>");
        reveal_strlit("<tr><td>");
        reveal_strlit("</td><td");
        reveal_strlit("><b>");
        reveal_strlit("</b></td><td>");
        reveal_strlit("</td></tr>");
        reveal_with_fuel(blank_from, 5);
        assert(CLIENT_ROW@ =~= blank(parts, end));
    }
    assert(all_fixed(parts, end)) by {
        reveal_strlit("<tr><td>");
        reveal_strlit("</td><td");
        reveal_strlit("><b>");
        reveal_strlit("</b></td><td>");
        reveal_strlit("</td></tr>");
        assert(is_fixed(end));
        assert(is_fixed(parts[0].0));
        assert(is_fixed(parts[1].0));
        assert(is_fixed(parts[2].0));
        assert(is_fixed(parts[3].0));
    }
    assert(seq![
        c.label@,
        state_style(c.state),
        client_state_label(c.state),
        decimal(c.exited_height as nat),
    ] =~= said(parts));
    law_fields_go_to_their_places(parts, end);
}

/// The row of a client that has left says its name, how it left, and at which height.
pub proof fn law_exited_row_says(c: ClientInfo)
    ensures
        exited_row(c) == woven(
            seq![
                ("<tr><td>"@, c.label@),
                (
                    "</td><td><b>"@,
                    match c.state {
                        ClientState::Healthy => "Healthy"@,
                        ClientState::Dropped => "Dropped"@,
                        ClientState::Withdrawn => "Withdrawn"@,
                        ClientState::Ejected => "Ejected"@,
                    },
                ),
                ("</b></td><td>"@, decimal(c.exited_height as nat)),
            ],
            "</td></tr>"@,
        ),
{
    let parts = seq![
        ("<tr><td>"@, c.label@),
        (
            "</td><td><b>"@,
            match c.state {
                ClientState::Healthy => "Healthy"@,
                ClientState::Dropped => "Dropped"@,
                ClientState::Withdrawn => "Withdrawn"@,
                ClientState::Ejected => "Ejected"@,
            },
        ),
        ("</b></td><td>"@, decimal(c.exited_height as nat)),
    ];
    let end = "</td></tr>"@;
    assert(EXITED_ROW@ == blank(parts, end)) by {
        reveal_strlit("{}");
        reveal_strlit("<tr><td>{}</td><td><b>{}</b></td><td>{}</td></tr>");
        reveal_strlit("<tr><td>");
        reveal_strlit("</td><td><b>");
        reveal_strlit("</b></td><td>");
        reveal_strlit("</td></tr>");
        reveal_with_fuel(blank_from, 4);
        assert(EXITED_ROW@ =~= blank(parts, end));
    }
    assert(all_fixed(parts, end)) by {
        reveal_strlit("<tr><td>");
        reveal_strlit("</td><td><b>");
        reveal_strlit("</b></td><td>");
        reveal_strlit("</td></tr>");
        assert(is_fixed(end));
        assert(is_fixed(parts[0].0));
        assert(is_fixed(parts[1].0));
        assert(is_fixed(parts[2].0));
    }
    assert(seq![
        c.label@,
        client_state_label(c.state),
        decimal(c.exited_height as nat),
    ] =~= said(parts));
    law_fields_go_to_their_places(parts, end);
}

/// The table of clients that have left holds the rows that it is given.
pub proof fn law_exited_section_holds_its_rows(text: Seq<char>)
    ensures
        name_row(EXITED_SECTION@, text) == woven(
            seq![
                (
                    "<br><table border=\"1\">\n<caption><b>Exited Clients</b></caption>\n<thead><tr><th>Client ID</th><th>Status</th><th>Exited Height</th></tr></thead>\n<tbody>"@,
                    text,
                ),
            ],
            "</tbody>\n</table>"@,
        ),
{
    let parts = seq![
        (
            "<br><table border=\"1\">\n<caption><b>Exited Clients</b></caption>\n<thead><tr><th>Client ID</th><th>Status</th><th>Exited Height</th></tr></thead>\n<tbody>"@,
            text,
        ),
    ];
    let end = "</tbody>\n</table>"@;
    assert(EXITED_SECTION@ == blank(parts, end)) by {
        reveal_strlit("{}");
        reveal_strlit("<br><table border=\"1\">\n<caption><b>Exited Clients</b></caption>\n<thead><tr><th>Client ID</th><th>Status</th><th>Exited Height</th></tr></thead>\n<tbody>{}</tbody>\n</table>");
        reveal_strlit("<br><table border=\"1\">\n<caption><b>Exited Clients</b></caption>\n<thead><tr><th>Client ID</th><th>Status</th><th>Exited Height</th></tr></thead>\n<tbody>");
        reveal_strlit("</tbody>\n</table>");
        reveal_with_fuel(blank_from, 2);
        assert(EXITED_SECTION@ =~= blank(parts, end));
    }
    assert(all_fixed(parts, end)) by {
        reveal_strlit("<br><table border=\"1\">\n<caption><b>Exited Clients</b></caption>\n<thead><tr><th>Client ID</th><th>Status</th><th>Exited Height</th></tr></thead>\n<tbody>");
        reveal_strlit("</tbody>\n</table>");
        assert(is_fixed(end));
        assert(is_fixed(parts[0].0));
    }
    assert(seq![text] =~= said(parts));
    law_fields_go_to_their_places(parts, end);
}

/// The row of a client that is still downloading says its name.
pub proof fn law_syncing_row_says(text: Seq<char>)
    ensures
        name_row(SYNCING_ROW@, text) == woven(
            seq![
                ("<tr><td>"@, text),
            ],
            "</td><td style=\"color:#e28844\"><b>Syncing</b></td></tr>"@,
        ),
{
    let parts = seq![
        ("<tr><td>"@, text),
    ];
    let end = "</td><td style=\"color:#e28844\"><b>Syncing</b></td></tr>"@;
    assert(SYNCING_ROW@ == blank(parts, end)) by {
        reveal_strlit("{}");
        reveal_strlit("<tr><td>{}</td><td style=\"color:#e28844\"><b>Syncing</b></td></tr>");
        reveal_strlit("<tr><td>");
        reveal_strlit("</td><td style=\"color:#e28844\"><b>Syncing</b></td></tr>");
        reveal_with_fuel(blank_from, 2);
        assert(SYNCING_ROW@ =~= blank(parts, end));
    }
    assert(all_fixed(parts, end)) by {
        reveal_strlit("<tr><td>");
        reveal_strlit("</td><td style=\"color:#e28844\"><b>Syncing</b></td></tr>");
        assert(is_fixed(end));
        assert(is_fixed(parts[0].0));
    }
    assert(seq![text] =~= said(parts));
    law_fields_go_to_their_places(parts, end);
}

/// The row of a client that waits to be admitted says its name.
pub proof fn law_ready_row_says(text: Seq<char>)
    ensures
        name_row(READY_ROW@, text) == woven(
            seq![
                ("<tr><td>"@, text),
            ],
            "</td><td style=\"color:#e2ccb8\"><b>Ready (waiting for next epoch)</b></td></tr>"@,
        ),
{
    let parts = seq![
        ("<tr><td>"@, text),
    ];
    let end = "</td><td style=\"color:#e2ccb8\"><b>Ready (waiting for next epoch)</b></td></tr>"@;
    assert(READY_ROW@ == blank(parts, end)) by {
        reveal_strlit("{}");
        reveal_strlit("<tr><td>{}</td><td style=\"color:#e2ccb8\"><b>Ready (waiting for next epoch)</b></td></tr>");
        reveal_strlit("<tr><td>");
        reveal_strlit("</td><td style=\"color:#e2ccb8\"><b>Ready (waiting for next epoch)</b></td></tr>");
        reveal_with_fuel(blank_from, 2);
        assert(READY_ROW@ =~= blank(parts, end));
    }
    assert(all_fixed(parts, end)) by {
        reveal_strlit("<tr><td>");
        reveal_strlit("</td><td style=\"color:#e2ccb8\"><b>Ready (waiting for next epoch)</b></td></tr>");
        assert(is_fixed(end));
        assert(is_fixed(parts[0].0));
    }
    assert(seq![text] =~= said(parts));
    law_fields_go_to_their_places(parts, end);
}

/// The table of clients not yet admitted holds the rows that it is given.
pub proof fn law_connected_section_holds_its_rows(text: Seq<char>)
    ensures
        name_row(CONNECTED_SECTION@, text) == woven(
            seq![
                (
                    "<br><table border=\"1\">\n<caption><b>Connected — Not Yet Admitted</b></caption>\n<thead><tr><th>Client ID</th><th>Status</th></tr></thead>\n<tbody>"@,
                    text,
                ),
            ],
            "</tbody>\n</table>"@,
        ),
{
    let parts = seq![
        (
            "<br><table border=\"1\">\n<caption><b>Connected — Not Yet Admitted</b></caption>\n<thead><tr><th>Client ID</th><th>Status</th></tr></thead>\n<tbody>"@,
            text,
        ),
    ];
    let end = "</tbody>\n</table>"@;
    assert(CONNECTED_SECTION@ == blank(parts, end)) by {
        reveal_strlit("{}");
        reveal_strlit("<br><table border=\"1\">\n<caption><b>Connected — Not Yet Admitted</b></caption>\n<thead><tr><th>Client ID</th><th>Status</th></tr></thead>\n<tbody>{}</tbody>\n</table>");
        reveal_strlit("<br><table border=\"1\">\n<caption><b>Connected — Not Yet Admitted</b></caption>\n<thead><tr><th>Client ID</th><th>Status</th></tr></thead>\n<tbody>");
        reveal_strlit("</tbody>\n</table>");
        reveal_with_fuel(blank_from, 2);
        assert(CONNECTED_SECTION@ =~= blank(parts, end));
    }
    assert(all_fixed(parts, end)) by {
        reveal_strlit("<br><table border=\"1\">\n<caption><b>Connected — Not Yet Admitted</b></caption>\n<thead><tr><th>Client ID</th><th>Status</th></tr></thead>\n<tbody>");
        reveal_strlit("</tbody>\n</table>");
        assert(is_fixed(end));
        assert(is_fixed(parts[0].0));
    }
    assert(seq![text] =~= said(parts));
    law_fields_go_to_their_places(parts, end);
}

/// The table of rounds holds the rows that it is given.
pub proof fn law_rounds_page_holds_its_rows(text: Seq<char>)
    ensures
        name_row(ROUNDS_TEMPLATE@, text) == woven(
            seq![
                (
                    "<table border=\"1\">\n<thead><tr><th>Height</th><th>Data Index</th><th>Random Seed</th><th>Clients</th><th>TB Tasks</th><th>Witnesses</th></tr></thead>\n<tbody>"@,
                    text,
                ),
            ],
            "</tbody>\n</table>\n<small>Bold row = current round (head)</small>"@,
        ),
{
    let parts = seq![
        (
            "<table border=\"1\">\n<thead><tr><th>Height</th><th>Data Index</th><th>Random Seed</th><th>Clients</th><th>TB Tasks</th><th>Witnesses</th></tr></thead>\n<tbody>"@,
            text,
        ),
    ];
    let end = "</tbody>\n</table>\n<small>Bold row = current round (head)</small>"@;
    assert(ROUNDS_TEMPLATE@ == blank(parts, end)) by {
        reveal_strlit("{}");
        reveal_strlit("<table border=\"1\">\n<thead><tr><th>Height</th><th>Data Index</th><th>Random Seed</th><th>Clients</th><th>TB Tasks</th><th>Witnesses</th></tr></thead>\n<tbody>{}</tbody>\n</table>\n<small>Bold row = current round (head)</small>");
        reveal_strlit("<table border=\"1\">\n<thead><tr><th>Height</th><th>Data Index</th><th>Random Seed</th><th>Clients</th><th>TB Tasks</th><th>Witnesses</th></tr></thead>\n<tbody>");
        reveal_strlit("</tbody>\n</table>\n<small>Bold row = current round (head)</small>");
        reveal_with_fuel(blank_from, 2);
        assert(ROUNDS_TEMPLATE@ =~= blank(parts, end));
    }
    assert(all_fixed(parts, end)) by {
        reveal_strlit("<table border=\"1\">\n<thead><tr><th>Height</th><th>Data Index</th><th>Random Seed</th><th>Clients</th><th>TB Tasks</th><th>Witnesses</th></tr></thead>\n<tbody>");
        reveal_strlit("</tbody>\n</table>\n<small>Bold row = current round (head)</small>");
        assert(is_fixed(end));
        assert(is_fixed(parts[0].0));
    }
    assert(seq![text] =~= said(parts));
    law_fields_go_to_their_places(parts, end);
}

/// The page of clients says how many there are in all and, before the word for each state, how many are
/// in it; and it holds the tables of the clients of the epoch, of those that left, and of those not yet
/// admitted.
pub proof fn law_clients_page_says(s: WebState, c: CoordinatorState)
    ensures
        filled(CLIENTS_TEMPLATE@, clients_fields(s, c)) == woven(
            seq![
                ("<div><b>Client Summary:</b> "@, decimal(c.epoch_state.clients@.len())),
                (
                    " total &mdash;\n<span style=\"color:#52b8cd\">"@,
                    decimal(
                        c.epoch_state.clients@.filter(
                            |x: ClientInfo| x.state == ClientState::Healthy,
                        ).len(),
                    ),
                ),
                (
                    " healthy</span>,\n<span style=\"color:#da4e8a\">"@,
                    decimal(
                        c.epoch_state.clients@.filter(
                            |x: ClientInfo| x.state == ClientState::Dropped,
                        ).len(),
                    ),
                ),
                (
                    " dropped</span>,\n<span style=\"color:#a85cbc\">"@,
                    decimal(
                        c.epoch_state.clients@.filter(
                            |x: ClientInfo| x.state == ClientState::Withdrawn,
                        ).len(),
                    ),
                ),
                (
                    " withdrawn</span>,\n<span style=\"color:#da4e8a\">"@,
                    decimal(
                        c.epoch_state.clients@.filter(
                            |x: ClientInfo| x.state == ClientState::Ejected,
                        ).len(),
                    ),
                ),
                (
                    " ejected</span></div>\n<br>\n<table border=\"1\">\n<thead><tr><th>Client ID</th><th>Status</th><th>Exited Height</th></tr></thead>\n<tbody>"@,
                    if c.epoch_state.clients@.len() == 0 {
                        NO_CLIENTS@
                    } else {
                        client_rows(c.epoch_state.clients@)
                    },
                ),
                (
                    "</tbody>\n</table>\n"@,
                    if c.epoch_state.exited_clients@.len() == 0 {
                        Seq::empty()
                    } else {
                        name_row(EXITED_SECTION@, exited_rows(c.epoch_state.exited_clients@))
                    },
                ),
                (
                    "\n"@,
                    if s.syncing_clients@.len() == 0 && s.ready_clients@.len() == 0 {
                        Seq::empty()
                    } else {
                        name_row(
                            CONNECTED_SECTION@,
                            connected_rows(s.syncing_clients@, s.ready_clients@),
                        )
                    },
                ),
            ],
            ""@,
        ),
{
    lemma_rows_are_there(s, c);
    let parts = seq![
        ("<div><b>Client Summary:</b> "@, decimal(c.epoch_state.clients@.len())),
        (
            " total &mdash;\n<span style=\"color:#52b8cd\">"@,
            decimal(
                c.epoch_state.clients@.filter(
                    |x: ClientInfo| x.state == ClientState::Healthy,
                ).len(),
            ),
        ),
        (
            " healthy</span>,\n<span style=\"color:#da4e8a\">"@,
            decimal(
                c.epoch_state.clients@.filter(
                    |x: ClientInfo| x.state == ClientState::Dropped,
                ).len(),
            ),
        ),
        (
            " dropped</span>,\n<span style=\"color:#a85cbc\">"@,
            decimal(
                c.epoch_state.clients@.filter(
                    |x: ClientInfo| x.state == ClientState::Withdrawn,
                ).len(),
            ),
        ),
        (
            " withdrawn</span>,\n<span style=\"color:#da4e8a\">"@,
            decimal(
                c.epoch_state.clients@.filter(
                    |x: ClientInfo| x.state == ClientState::Ejected,
                ).len(),
            ),
        ),
        (
            " ejected</span></div>\n<br>\n<table border=\"1\">\n<thead><tr><th>Client ID</th><th>Status</th><th>Exited Height</th></tr></thead>\n<tbody>"@,
            if c.epoch_state.clients@.len() == 0 {
                NO_CLIENTS@
            } else {
                client_rows(c.epoch_state.clients@)
            },
        ),
        (
            "</tbody>\n</table>\n"@,
            if c.epoch_state.exited_clients@.len() == 0 {
                Seq::empty()
            } else {
                name_row(EXITED_SECTION@, exited_rows(c.epoch_state.exited_clients@))
            },
        ),
        (
            "\n"@,
            if s.syncing_clients@.len() == 0 && s.ready_clients@.len() == 0 {
                Seq::empty()
            } else {
                name_row(CONNECTED_SECTION@, connected_rows(s.syncing_clients@, s.ready_clients@))
            },
        ),
    ];
    let end = ""@;
    assert(CLIENTS_TEMPLATE@ == blank(parts, end)) by {
        reveal_strlit("{}");
        reveal_strlit("<div><b>Client Summary:</b> {} total &mdash;\n<span style=\"color:#52b8cd\">{} healthy</span>,\n<span style=\"color:#da4e8a\">{} dropped</span>,\n<span style=\"color:#a85cbc\">{} withdrawn</span>,\n<span style=\"color:#da4e8a\">{} ejected</span></div>\n<br>\n<table border=\"1\">\n<thead><tr><th>Client ID</th><th>Status</th><th>Exited Height</th></tr></thead>\n<tbody>{}</tbody>\n</table>\n{}\n{}");
        reveal_strlit("<div><b>Client Summary:</b> ");
        reveal_strlit(" total &mdash;\n<span style=\"color:#52b8cd\">");
        reveal_strlit(" healthy</span>,\n<span style=\"color:#da4e8a\">");
        reveal_strlit(" dropped</span>,\n<span style=\"color:#a85cbc\">");
        reveal_strlit(" withdrawn</span>,\n<span style=\"color:#da4e8a\">");
        reveal_strlit(" ejected</span></div>\n<br>\n<table border=\"1\">\n<thead><tr><th>Client ID</th><th>Status</th><th>Exited Height</th></tr></thead>\n<tbody>");
        reveal_strlit("</tbody>\n</table>\n");
        reveal_strlit("\n");
        reveal_strlit("");
        reveal_with_fuel(blank_from, 9);
        assert(CLIENTS_TEMPLATE@ =~= blank(parts, end));
    }
    assert(all_fixed(parts, end)) by {
        reveal_strlit("<div><b>Client Summary:</b> ");
        reveal_strlit(" total &mdash;\n<span style=\"color:#52b8cd\">");
        reveal_strlit(" healthy</span>,\n<span style=\"color:#da4e8a\">");
        reveal_strlit(" dropped</span>,\n<span style=\"color:#a85cbc\">");
        reveal_strlit(" withdrawn</span>,\n<span style=\"color:#da4e8a\">");
        reveal_strlit(" ejected</span></div>\n<br>\n<table border=\"1\">\n<thead><tr><th>Client ID</th><th>Status</th><th>Exited Height</th></tr></thead>\n<tbody>");
        reveal_strlit("</tbody>\n</table>\n");
        reveal_strlit("\n");
        reveal_strlit("");
        assert(is_fixed(end));
        assert(is_fixed(parts[0].0));
        assert(is_fixed(parts[1].0));
        assert(is_fixed(parts[2].0));
        assert(is_fixed(parts[3].0));
        assert(is_fixed(parts[4].0));
        assert(is_fixed(parts[5].0));
        assert(is_fixed(parts[6].0));
        assert(is_fixed(parts[7].0));
    }
    assert(clients_fields(s, c) =~= said(parts));
    law_fields_go_to_their_places(parts, end);
}

/// The row of a round says its height, where its data begins, its seed, its clients, its tie-breaking
/// tasks and its witnesses. The current round stands out.
pub proof fn law_round_row_says(c: CoordinatorState, back: nat)
    requires
        back < 4,
    ensures
        round_row(c, back) == woven(
            seq![
                ("<tr"@, if back == 0 { " style=\"font-weight:bold\""@ } else { ""@ }),
                (
                    ">\n<td>"@,
                    decimal(
                        c.epoch_state.rounds[(c.epoch_state.rounds_head + 4 - back) % 4].height as nat,
                    ),
                ),
                (
                    "</td>\n<td>"@,
                    decimal(
                        c.epoch_state.rounds[(c.epoch_state.rounds_head + 4 - back) % 4].data_index as nat,
                    ),
                ),
                (
                    "</td>\n<td>"@,
                    decimal(
                        c.epoch_state.rounds[(c.epoch_state.rounds_head + 4 - back) % 4].random_seed as nat,
                    ),
                ),
                (
                    "</td>\n<td>"@,
                    decimal(
                        c.epoch_state.rounds[(c.epoch_state.rounds_head + 4 - back) % 4].clients_len as nat,
                    ),
                ),
                (
                    "</td>\n<td>"@,
                    decimal(
                        c.epoch_state.rounds[(c.epoch_state.rounds_head + 4 - back) % 4].tie_breaker_tasks as nat,
                    ),
                ),
                (
                    "</td>\n<td>"@,
                    decimal(
                        c.epoch_state.rounds[(c.epoch_state.rounds_head + 4 - back) % 4].witnesses as nat,
                    ),
                ),
            ],
            "</td>\n</tr>"@,
        ),
{
    let round = c.epoch_state.rounds[(c.epoch_state.rounds_head + 4 - back) % 4];
    let parts = seq![
        ("<tr"@, if back == 0 { " style=\"font-weight:bold\""@ } else { ""@ }),
        (
            ">\n<td>"@,
            decimal(c.epoch_state.rounds[(c.epoch_state.rounds_head + 4 - back) % 4].height as nat),
        ),
        (
            "</td>\n<td>"@,
            decimal(
                c.epoch_state.rounds[(c.epoch_state.rounds_head + 4 - back) % 4].data_index as nat,
            ),
        ),
        (
            "</td>\n<td>"@,
            decimal(
                c.epoch_state.rounds[(c.epoch_state.rounds_head + 4 - back) % 4].random_seed as nat,
            ),
        ),
        (
            "</td>\n<td>"@,
            decimal(
                c.epoch_state.rounds[(c.epoch_state.rounds_head + 4 - back) % 4].clients_len as nat,
            ),
        ),
        (
            "</td>\n<td>"@,
            decimal(
                c.epoch_state.rounds[(c.epoch_state.rounds_head + 4 - back) % 4].tie_breaker_tasks as nat,
            ),
        ),
        (
            "</td>\n<td>"@,
            decimal(
                c.epoch_state.rounds[(c.epoch_state.rounds_head + 4 - back) % 4].witnesses as nat,
            ),
        ),
    ];
    let end = "</td>\n</tr>"@;
    assert(ROUND_ROW@ == blank(parts, end)) by {
        reveal_strlit("{}");
        reveal_strlit("<tr{}>\n<td>{}</td>\n<td>{}</td>\n<td>{}</td>\n<td>{}</td>\n<td>{}</td>\n<td>{}</td>\n</tr>");
        reveal_strlit("<tr");
        reveal_strlit(">\n<td>");
        reveal_strlit("</td>\n<td>");
        reveal_strlit("</td>\n</tr>");
        reveal_with_fuel(blank_from, 8);
        assert(ROUND_ROW@ =~= blank(parts, end));
    }
    assert(all_fixed(parts, end)) by {
        reveal_strlit("<tr");
        reveal_strlit(">\n<td>");
        reveal_strlit("</td>\n<td>");
        reveal_strlit("</td>\n</tr>");
        assert(is_fixed(end));
        assert(is_fixed(parts[0].0));
        assert(is_fixed(parts[1].0));
        assert(is_fixed(parts[2].0));
        assert(is_fixed(parts[3].0));
        assert(is_fixed(parts[4].0));
        assert(is_fixed(parts[5].0));
        assert(is_fixed(parts[6].0));
    }
    assert(seq![
        if back == 0 { " style=\"font-weight:bold\""@ } else { ""@ },
        decimal(round.height as nat),
        decimal(round.data_index as nat),
        decimal(round.random_seed as nat),
        decimal(round.clients_len as nat),
        decimal(round.tie_breaker_tasks as nat),
        decimal(round.witnesses as nat),
    ] =~= said(parts));
    law_fields_go_to_their_places(parts, end);
}

/// The page of settings says beside each label the setting that it names.
pub proof fn law_settings_page_says(c: CoordinatorState)
    ensures
        filled(CONFIG_TEMPLATE@, config_fields(c)) == woven(
            seq![
                (
                    "<table border=\"1\">\n<tr><td><b>Total Steps</b></td><td>"@,
                    decimal(c.config.total_steps as nat),
                ),
                (
                    "</td></tr>\n<tr><td><b>Epoch Time</b></td><td>"@,
                    decimal(c.config.epoch_time as nat),
                ),
                (
                    "s</td></tr>\n<tr><td><b>Warmup Time</b></td><td>"@,
                    decimal(c.config.warmup_time as nat),
                ),
                (
                    "s</td></tr>\n<tr><td><b>Cooldown Time</b></td><td>"@,
                    decimal(c.config.cooldown_time as nat),
                ),
                (
                    "s</td></tr>\n<tr><td><b>Max Round Train Time</b></td><td>"@,
                    decimal(c.config.max_round_train_time as nat),
                ),
                (
                    "s</td></tr>\n<tr><td><b>Round Witness Time</b></td><td>"@,
                    decimal(c.config.round_witness_time as nat),
                ),
                (
                    "s</td></tr>\n<tr><td><b>Warmup Batch Tokens</b></td><td>"@,
                    decimal(c.config.global_batch_size_warmup_tokens as nat),
                ),
                (
                    "</td></tr>\n<tr><td><b>Init Min Clients</b></td><td>"@,
                    decimal(c.config.init_min_clients as nat),
                ),
                (
                    "</td></tr>\n<tr><td><b>Min Clients</b></td><td>"@,
                    decimal(c.config.min_clients as nat),
                ),
                (
                    "</td></tr>\n<tr><td><b>Witness Nodes</b></td><td>"@,
                    decimal(c.config.witness_nodes as nat),
                ),
                (
                    "</td></tr>\n<tr><td><b>Global Batch Size Start</b></td><td>"@,
                    decimal(c.config.global_batch_size_start as nat),
                ),
                (
                    "</td></tr>\n<tr><td><b>Global Batch Size End</b></td><td>"@,
                    decimal(c.config.global_batch_size_end as nat),
                ),
                (
                    "</td></tr>\n<tr><td><b>Verification %</b></td><td>"@,
                    decimal(c.config.verification_percent as nat),
                ),
                (
                    "%</td></tr>\n<tr><td><b>Waiting Extra Time</b></td><td>"@,
                    decimal(c.config.waiting_for_members_extra_time as nat),
                ),
            ],
            "s</td></tr>\n</table>"@,
        ),
{
    let parts = seq![
        (
            "<table border=\"1\">\n<tr><td><b>Total Steps</b></td><td>"@,
            decimal(c.config.total_steps as nat),
        ),
        ("</td></tr>\n<tr><td><b>Epoch Time</b></td><td>"@, decimal(c.config.epoch_time as nat)),
        ("s</td></tr>\n<tr><td><b>Warmup Time</b></td><td>"@, decimal(c.config.warmup_time as nat)),
        ("s</td></tr>\n<tr><td><b>Cooldown Time</b></td><td>"@, decimal(c.config.cooldown_time as nat)),
        (
            "s</td></tr>\n<tr><td><b>Max Round Train Time</b></td><td>"@,
            decimal(c.config.max_round_train_time as nat),
        ),
        (
            "s</td></tr>\n<tr><td><b>Round Witness Time</b></td><td>"@,
            decimal(c.config.round_witness_time as nat),
        ),
        (
            "s</td></tr>\n<tr><td><b>Warmup Batch Tokens</b></td><td>"@,
            decimal(c.config.global_batch_size_warmup_tokens as nat),
        ),
        (
            "</td></tr>\n<tr><td><b>Init Min Clients</b></td><td>"@,
            decimal(c.config.init_min_clients as nat),
        ),
        ("</td></tr>\n<tr><td><b>Min Clients</b></td><td>"@, decimal(c.config.min_clients as nat)),
        ("</td></tr>\n<tr><td><b>Witness Nodes</b></td><td>"@, decimal(c.config.witness_nodes as nat)),
        (
            "</td></tr>\n<tr><td><b>Global Batch Size Start</b></td><td>"@,
            decimal(c.config.global_batch_size_start as nat),
        ),
        (
            "</td></tr>\n<tr><td><b>Global Batch Size End</b></td><td>"@,
            decimal(c.config.global_batch_size_end as nat),
        ),
        (
            "</td></tr>\n<tr><td><b>Verification %</b></td><td>"@,
            decimal(c.config.verification_percent as nat),
        ),
        (
            "%</td></tr>\n<tr><td><b>Waiting Extra Time</b></td><td>"@,
            decimal(c.config.waiting_for_members_extra_time as nat),
        ),
    ];
    let end = "s</td></tr>\n</table>"@;
    assert(CONFIG_TEMPLATE@ == blank(parts, end)) by {
        reveal_strlit("{}");
        reveal_strlit("<table border=\"1\">\n<tr><td><b>Total Steps</b></td><td>{}</td></tr>\n<tr><td><b>Epoch Time</b></td><td>{}s</td></tr>\n<tr><td><b>Warmup Time</b></td><td>{}s</td></tr>\n<tr><td><b>Cooldown Time</b></td><td>{}s</td></tr>\n<tr><td><b>Max Round Train Time</b></td><td>{}s</td></tr>\n<tr><td><b>Round Witness Time</b></td><td>{}s</td></tr>\n<tr><td><b>Warmup Batch Tokens</b></td><td>{}</td></tr>\n<tr><td><b>Init Min Clients</b></td><td>{}</td></tr>\n<tr><td><b>Min Clients</b></td><td>{}</td></tr>\n<tr><td><b>Witness Nodes</b></td><td>{}</td></tr>\n<tr><td><b>Global Batch Size Start</b></td><td>{}</td></tr>\n<tr><td><b>Global Batch Size End</b></td><td>{}</td></tr>\n<tr><td><b>Verification %</b></td><td>{}%</td></tr>\n<tr><td><b>Waiting Extra Time</b></td><td>{}s</td></tr>\n</table>");
        reveal_strlit("<table border=\"1\">\n<tr><td><b>Total Steps</b></td><td>");
        reveal_strlit("</td></tr>\n<tr><td><b>Epoch Time</b></td><td>");
        reveal_strlit("s</td></tr>\n<tr><td><b>Warmup Time</b></td><td>");
        reveal_strlit("s</td></tr>\n<tr><td><b>Cooldown Time</b></td><td>");
        reveal_strlit("s</td></tr>\n<tr><td><b>Max Round Train Time</b></td><td>");
        reveal_strlit("s</td></tr>\n<tr><td><b>Round Witness Time</b></td><td>");
        reveal_strlit("s</td></tr>\n<tr><td><b>Warmup Batch Tokens</b></td><td>");
        reveal_strlit("</td></tr>\n<tr><td><b>Init Min Clients</b></td><td>");
        reveal_strlit("</td></tr>\n<tr><td><b>Min Clients</b></td><td>");
        reveal_strlit("</td></tr>\n<tr><td><b>Witness Nodes</b></td><td>");
        reveal_strlit("</td></tr>\n<tr><td><b>Global Batch Size Start</b></td><td>");
        reveal_strlit("</td></tr>\n<tr><td><b>Global Batch Size End</b></td><td>");
        reveal_strlit("</td></tr>\n<tr><td><b>Verification %</b></td><td>");
        reveal_strlit("%</td></tr>\n<tr><td><b>Waiting Extra Time</b></td><td>");
        reveal_strlit("s</td></tr>\n</table>");
        reveal_with_fuel(blank_from, 15);
        assert(CONFIG_TEMPLATE@ =~= blank(parts, end));
    }
    assert(all_fixed(parts, end)) by {
        reveal_strlit("<table border=\"1\">\n<tr><td><b>Total Steps</b></td><td>");
        reveal_strlit("</td></tr>\n<tr><td><b>Epoch Time</b></td><td>");
        reveal_strlit("s</td></tr>\n<tr><td><b>Warmup Time</b></td><td>");
        reveal_strlit("s</td></tr>\n<tr><td><b>Cooldown Time</b></td><td>");
        reveal_strlit("s</td></tr>\n<tr><td><b>Max Round Train Time</b></td><td>");
        reveal_strlit("s</td></tr>\n<tr><td><b>Round Witness Time</b></td><td>");
        reveal_strlit("s</td></tr>\n<tr><td><b>Warmup Batch Tokens</b></td><td>");
        reveal_strlit("</td></tr>\n<tr><td><b>Init Min Clients</b></td><td>");
        reveal_strlit("</td></tr>\n<tr><td><b>Min Clients</b></td><td>");
        reveal_strlit("</td></tr>\n<tr><td><b>Witness Nodes</b></td><td>");
        reveal_strlit("</td></tr>\n<tr><td><b>Global Batch Size Start</b></td><td>");
        reveal_strlit("</td></tr>\n<tr><td><b>Global Batch Size End</b></td><td>");
        reveal_strlit("</td></tr>\n<tr><td><b>Verification %</b></td><td>");
        reveal_strlit("%</td></tr>\n<tr><td><b>Waiting Extra Time</b></td><td>");
        reveal_strlit("s</td></tr>\n</table>");
        assert(is_fixed(end));
        assert(is_fixed(parts[0].0));
        assert(is_fixed(parts[1].0));
        assert(is_fixed(parts[2].0));
        assert(is_fixed(parts[3].0));
        assert(is_fixed(parts[4].0));
        assert(is_fixed(parts[5].0));
        assert(is_fixed(parts[6].0));
        assert(is_fixed(parts[7].0));
        assert(is_fixed(parts[8].0));
        assert(is_fixed(parts[9].0));
        assert(is_fixed(parts[10].0));
        assert(is_fixed(parts[11].0));
        assert(is_fixed(parts[12].0));
        assert(is_fixed(parts[13].0));
    }
    assert(config_fields(c) =~= said(parts));
    law_fields_go_to_their_places(parts, end);
}

/// The page of the model says beside each label what it names.
pub proof fn law_model_page_says(c: CoordinatorState, lr: Seq<char>, opt: OptimizerText)
    ensures
        filled(MODEL_TEMPLATE@, model_fields(c, lr, opt)) == woven(
            seq![
                (
                    "<table border=\"1\">\n<tr><td><b>Architecture</b></td><td>"@,
                    architecture_label(c.model.architecture),
                ),
                (
                    "</td></tr>\n<tr><td><b>Max Seq Len</b></td><td>"@,
                    decimal(c.model.max_seq_len as nat),
                ),
                (
                    "</td></tr>\n<tr><td><b>Cold Start Warmup Steps</b></td><td>"@,
                    decimal(c.model.cold_start_warmup_steps as nat),
                ),
                ("</td></tr>\n<tr><td><b>Data Type</b></td><td>"@, data_type_label(c.model.data_type)),
                (
                    "</td></tr>\n<tr><td><b>Checkpoint</b></td><td>"@,
                    checkpoint_label(c.model.checkpoint),
                ),
                ("</td></tr>\n<tr><td><b>LR Schedule</b></td><td>"@, lr),
                ("</td></tr>\n<tr><td><b>Optimizer</b></td><td>"@, optimizer_text(opt)),
            ],
            "</td></tr>\n</table>"@,
        ),
{
    let parts = seq![
        (
            "<table border=\"1\">\n<tr><td><b>Architecture</b></td><td>"@,
            architecture_label(c.model.architecture),
        ),
        ("</td></tr>\n<tr><td><b>Max Seq Len</b></td><td>"@, decimal(c.model.max_seq_len as nat)),
        (
            "</td></tr>\n<tr><td><b>Cold Start Warmup Steps</b></td><td>"@,
            decimal(c.model.cold_start_warmup_steps as nat),
        ),
        ("</td></tr>\n<tr><td><b>Data Type</b></td><td>"@, data_type_label(c.model.data_type)),
        ("</td></tr>\n<tr><td><b>Checkpoint</b></td><td>"@, checkpoint_label(c.model.checkpoint)),
        ("</td></tr>\n<tr><td><b>LR Schedule</b></td><td>"@, lr),
        ("</td></tr>\n<tr><td><b>Optimizer</b></td><td>"@, optimizer_text(opt)),
    ];
    let end = "</td></tr>\n</table>"@;
    assert(MODEL_TEMPLATE@ == blank(parts, end)) by {
        reveal_strlit("{}");
        reveal_strlit("<table border=\"1\">\n<tr><td><b>Architecture</b></td><td>{}</td></tr>\n<tr><td><b>Max Seq Len</b></td><td>{}</td></tr>\n<tr><td><b>Cold Start Warmup Steps</b></td><td>{}</td></tr>\n<tr><td><b>Data Type</b></td><td>{}</td></tr>\n<tr><td><b>Checkpoint</b></td><td>{}</td></tr>\n<tr><td><b>LR Schedule</b></td><td>{}</td></tr>\n<tr><td><b>Optimizer</b></td><td>{}</td></tr>\n</table>");
        reveal_strlit("<table border=\"1\">\n<tr><td><b>Architecture</b></td><td>");
        reveal_strlit("</td></tr>\n<tr><td><b>Max Seq Len</b></td><td>");
        reveal_strlit("</td></tr>\n<tr><td><b>Cold Start Warmup Steps</b></td><td>");
        reveal_strlit("</td></tr>\n<tr><td><b>Data Type</b></td><td>");
        reveal_strlit("</td></tr>\n<tr><td><b>Checkpoint</b></td><td>");
        reveal_strlit("</td></tr>\n<tr><td><b>LR Schedule</b></td><td>");
        reveal_strlit("</td></tr>\n<tr><td><b>Optimizer</b></td><td>");
        reveal_strlit("</td></tr>\n</table>");
        reveal_with_fuel(blank_from, 8);
        assert(MODEL_TEMPLATE@ =~= blank(parts, end));
    }
    assert(all_fixed(parts, end)) by {
        reveal_strlit("<table border=\"1\">\n<tr><td><b>Architecture</b></td><td>");
        reveal_strlit("</td></tr>\n<tr><td><b>Max Seq Len</b></td><td>");
        reveal_strlit("</td></tr>\n<tr><td><b>Cold Start Warmup Steps</b></td><td>");
        reveal_strlit("</td></tr>\n<tr><td><b>Data Type</b></td><td>");
        reveal_strlit("</td></tr>\n<tr><td><b>Checkpoint</b></td><td>");
        reveal_strlit("</td></tr>\n<tr><td><b>LR Schedule</b></td><td>");
        reveal_strlit("</td></tr>\n<tr><td><b>Optimizer</b></td><td>");
        reveal_strlit("</td></tr>\n</table>");
        assert(is_fixed(end));
        assert(is_fixed(parts[0].0));
        assert(is_fixed(parts[1].0));
        assert(is_fixed(parts[2].0));
        assert(is_fixed(parts[3].0));
        assert(is_fixed(parts[4].0));
        assert(is_fixed(parts[5].0));
        assert(is_fixed(parts[6].0));
    }
    assert(model_fields(c, lr, opt) =~= said(parts));
    law_fields_go_to_their_places(parts, end);
}

/// The page of timing says how long the run has been going, what is left of it, and beside each estimate
/// of the time that takes the throughput that the estimate rests on.
pub proof fn law_timing_page_says(s: WebState, c: CoordinatorState, t: TimingEstimate, now: u64)
    ensures
        filled(TIMING_TEMPLATE@, timing_fields(s, c, t, now)) == woven(
            seq![
                (
                    "<table border=\"1\">\n<tr><td><b>Elapsed</b></td><td>"@,
                    eta_text(
                        elapsed_since(
                            s.loss_history@.filter(
                                |p: LossPoint| 0 < p.tokens_per_sec < 0x7f80_0000u32,
                            ),
                            c.run_state_start_unix_timestamp,
                            now,
                        ),
                    ),
                ),
                (
                    "</td></tr>\n<tr><td><b>Remaining Steps</b></td><td>"@,
                    decimal(t.remaining_steps as nat),
                ),
                ("</td></tr>\n<tr><td><b>Remaining Tokens</b></td><td>"@, t.remaining_tokens@),
                (
                    "</td></tr>\n<tr><td><b>Tokens / Step</b></td><td>"@,
                    decimal((c.target_global_batch_size * c.model.max_seq_len) as nat),
                ),
                (
                    "</td></tr>\n<tr><td><b>ETA (weighted avg)</b></td><td>"@,
                    match t.weighted_eta { Some(v) => duration_text(v as nat), None => "-"@ },
                ),
                (
                    " <span class=\"hint\">("@,
                    match t.weighted_tps { Some(v) => v@ + " tok/s"@, None => "-"@ },
                ),
                (
                    ")</span></td></tr>\n<tr><td><b>ETA (overall avg)</b></td><td>"@,
                    match t.avg_eta { Some(v) => duration_text(v as nat), None => "-"@ },
                ),
                (
                    " <span class=\"hint\">("@,
                    match t.avg_tps { Some(v) => v@ + " tok/s"@, None => "-"@ },
                ),
                (
                    ")</span></td></tr>\n<tr><td><b>ETA (current speed)</b></td><td>"@,
                    match t.current_eta { Some(v) => duration_text(v as nat), None => "-"@ },
                ),
                (
                    " <span class=\"hint\">("@,
                    match t.current_tps { Some(v) => v@ + " tok/s"@, None => "-"@ },
                ),
            ],
            ")</span></td></tr>\n</table>"@,
        ),
{
    let f = |p: LossPoint| is_finite_positive(p.tokens_per_sec);
    let g = |p: LossPoint| 0 < p.tokens_per_sec < 0x7f80_0000u32;
    assert(f =~= g);
    let parts = seq![
        (
            "<table border=\"1\">\n<tr><td><b>Elapsed</b></td><td>"@,
            eta_text(
                elapsed_since(
                    s.loss_history@.filter(|p: LossPoint| 0 < p.tokens_per_sec < 0x7f80_0000u32),
                    c.run_state_start_unix_timestamp,
                    now,
                ),
            ),
        ),
        ("</td></tr>\n<tr><td><b>Remaining Steps</b></td><td>"@, decimal(t.remaining_steps as nat)),
        ("</td></tr>\n<tr><td><b>Remaining Tokens</b></td><td>"@, t.remaining_tokens@),
        (
            "</td></tr>\n<tr><td><b>Tokens / Step</b></td><td>"@,
            decimal((c.target_global_batch_size * c.model.max_seq_len) as nat),
        ),
        (
            "</td></tr>\n<tr><td><b>ETA (weighted avg)</b></td><td>"@,
            match t.weighted_eta { Some(v) => duration_text(v as nat), None => "-"@ },
        ),
        (" <span class=\"hint\">("@, match t.weighted_tps { Some(v) => v@ + " tok/s"@, None => "-"@ }),
        (
            ")</span></td></tr>\n<tr><td><b>ETA (overall avg)</b></td><td>"@,
            match t.avg_eta { Some(v) => duration_text(v as nat), None => "-"@ },
        ),
        (" <span class=\"hint\">("@, match t.avg_tps { Some(v) => v@ + " tok/s"@, None => "-"@ }),
        (
            ")</span></td></tr>\n<tr><td><b>ETA (current speed)</b></td><td>"@,
            match t.current_eta { Some(v) => duration_text(v as nat), None => "-"@ },
        ),
        (" <span class=\"hint\">("@, match t.current_tps { Some(v) => v@ + " tok/s"@, None => "-"@ }),
    ];
    let end = ")</span></td></tr>\n</table>"@;
    assert(TIMING_TEMPLATE@ == blank(parts, end)) by {
        reveal_strlit("{}");
        reveal_strlit("<table border=\"1\">\n<tr><td><b>Elapsed</b></td><td>{}</td></tr>\n<tr><td><b>Remaining Steps</b></td><td>{}</td></tr>\n<tr><td><b>Remaining Tokens</b></td><td>{}</td></tr>\n<tr><td><b>Tokens / Step</b></td><td>{}</td></tr>\n<tr><td><b>ETA (weighted avg)</b></td><td>{} <span class=\"hint\">({})</span></td></tr>\n<tr><td><b>ETA (overall avg)</b></td><td>{} <span class=\"hint\">({})</span></td></tr>\n<tr><td><b>ETA (current speed)</b></td><td>{} <span class=\"hint\">({})</span></td></tr>\n</table>");
        reveal_strlit("<table border=\"1\">\n<tr><td><b>Elapsed</b></td><td>");
        reveal_strlit("</td></tr>\n<tr><td><b>Remaining Steps</b></td><td>");
        reveal_strlit("</td></tr>\n<tr><td><b>Remaining Tokens</b></td><td>");
        reveal_strlit("</td></tr>\n<tr><td><b>Tokens / Step</b></td><td>");
        reveal_strlit("</td></tr>\n<tr><td><b>ETA (weighted avg)</b></td><td>");
        reveal_strlit(" <span class=\"hint\">(");
        reveal_strlit(")</span></td></tr>\n<tr><td><b>ETA (overall avg)</b></td><td>");
        reveal_strlit(")</span></td></tr>\n<tr><td><b>ETA (current speed)</b></td><td>");
        reveal_strlit(")</span></td></tr>\n</table>");
        reveal_with_fuel(blank_from, 11);
        assert(TIMING_TEMPLATE@ =~= blank(parts, end));
    }
    assert(all_fixed(parts, end)) by {
        reveal_strlit("<table border=\"1\">\n<tr><td><b>Elapsed</b></td><td>");
        reveal_strlit("</td></tr>\n<tr><td><b>Remaining Steps</b></td><td>");
        reveal_strlit("</td></tr>\n<tr><td><b>Remaining Tokens</b></td><td>");
        reveal_strlit("</td></tr>\n<tr><td><b>Tokens / Step</b></td><td>");
        reveal_strlit("</td></tr>\n<tr><td><b>ETA (weighted avg)</b></td><td>");
        reveal_strlit(" <span class=\"hint\">(");
        reveal_strlit(")</span></td></tr>\n<tr><td><b>ETA (overall avg)</b></td><td>");
        reveal_strlit(")</span></td></tr>\n<tr><td><b>ETA (current speed)</b></td><td>");
        reveal_strlit(")</span></td></tr>\n</table>");
        assert(is_fixed(end));
        assert(is_fixed(parts[0].0));
        assert(is_fixed(parts[1].0));
        assert(is_fixed(parts[2].0));
        assert(is_fixed(parts[3].0));
        assert(is_fixed(parts[4].0));
        assert(is_fixed(parts[5].0));
        assert(is_fixed(parts[6].0));
        assert(is_fixed(parts[7].0));
        assert(is_fixed(parts[8].0));
        assert(is_fixed(parts[9].0));
    }
    assert(timing_fields(s, c, t, now) =~= said(parts));
    law_fields_go_to_their_places(parts, end);
}

/// Above the chart of losses stand the latest, the least, the greatest and the average, in the order in
/// which they are given, the range of tokens and the number of points.
pub proof fn law_loss_chart_says(chart: Chart, n: nat, y: Seq<char>, x: Seq<char>)
    requires
        chart.summary@.len() == 4,
    ensures
        filled(LOSS_TEMPLATE@, chart_fields(chart, n, y, x)) == woven(
            seq![
                ("<div>\n<b>Latest Loss:</b> "@, chart.summary@[0]@),
                (" &nbsp; <b>Min:</b> "@, chart.summary@[1]@),
                (" &nbsp; <b>Max:</b> "@, chart.summary@[2]@),
                (" &nbsp; <b>Avg:</b> "@, chart.summary@[3]@),
                (" &nbsp; Tokens: "@, chart.min_tokens@),
                (" - "@, chart.max_tokens@),
                (" &nbsp; Points: "@, decimal(n)),
                (
                    "\n<br><br>\n<svg width=\"800\" height=\"250\" viewBox=\"0 0 800 250\" xmlns=\"http://www.w3.org/2000/svg\" class=\"chart-svg\">\n<rect x=\"60\" y=\"20\" width=\"720\" height=\"200\" fill=\"none\" stroke=\"#463840\"/>\n"@,
                    labels_text(y, chart.y_labels@),
                ),
                ("\n"@, labels_text(x, chart.x_labels@)),
            ],
            "\n"@,
        ),
{
    let parts = seq![
        ("<div>\n<b>Latest Loss:</b> "@, chart.summary@[0]@),
        (" &nbsp; <b>Min:</b> "@, chart.summary@[1]@),
        (" &nbsp; <b>Max:</b> "@, chart.summary@[2]@),
        (" &nbsp; <b>Avg:</b> "@, chart.summary@[3]@),
        (" &nbsp; Tokens: "@, chart.min_tokens@),
        (" - "@, chart.max_tokens@),
        (" &nbsp; Points: "@, decimal(n)),
        (
            "\n<br><br>\n<svg width=\"800\" height=\"250\" viewBox=\"0 0 800 250\" xmlns=\"http://www.w3.org/2000/svg\" class=\"chart-svg\">\n<rect x=\"60\" y=\"20\" width=\"720\" height=\"200\" fill=\"none\" stroke=\"#463840\"/>\n"@,
            labels_text(y, chart.y_labels@),
        ),
        ("\n"@, labels_text(x, chart.x_labels@)),
    ];
    let end = "\n"@;
    assert(LOSS_TEMPLATE@ == blank(parts, end)) by {
        reveal_strlit("{}");
        reveal_strlit("<div>\n<b>Latest Loss:</b> {} &nbsp; <b>Min:</b> {} &nbsp; <b>Max:</b> {} &nbsp; <b>Avg:</b> {} &nbsp; Tokens: {} - {} &nbsp; Points: {}\n<br><br>\n<svg width=\"800\" height=\"250\" viewBox=\"0 0 800 250\" xmlns=\"http://www.w3.org/2000/svg\" class=\"chart-svg\">\n<rect x=\"60\" y=\"20\" width=\"720\" height=\"200\" fill=\"none\" stroke=\"#463840\"/>\n{}\n{}\n");
        reveal_strlit("<div>\n<b>Latest Loss:</b> ");
        reveal_strlit(" &nbsp; <b>Min:</b> ");
        reveal_strlit(" &nbsp; <b>Max:</b> ");
        reveal_strlit(" &nbsp; <b>Avg:</b> ");
        reveal_strlit(" &nbsp; Tokens: ");
        reveal_strlit(" - ");
        reveal_strlit(" &nbsp; Points: ");
        reveal_strlit("\n<br><br>\n<svg width=\"800\" height=\"250\" viewBox=\"0 0 800 250\" xmlns=\"http://www.w3.org/2000/svg\" class=\"chart-svg\">\n<rect x=\"60\" y=\"20\" width=\"720\" height=\"200\" fill=\"none\" stroke=\"#463840\"/>\n");
        reveal_strlit("\n");
        reveal_with_fuel(blank_from, 10);
        assert(LOSS_TEMPLATE@ =~= blank(parts, end));
    }
    assert(all_fixed(parts, end)) by {
        reveal_strlit("<div>\n<b>Latest Loss:</b> ");
        reveal_strlit(" &nbsp; <b>Min:</b> ");
        reveal_strlit(" &nbsp; <b>Max:</b> ");
        reveal_strlit(" &nbsp; <b>Avg:</b> ");
        reveal_strlit(" &nbsp; Tokens: ");
        reveal_strlit(" - ");
        reveal_strlit(" &nbsp; Points: ");
        reveal_strlit("\n<br><br>\n<svg width=\"800\" height=\"250\" viewBox=\"0 0 800 250\" xmlns=\"http://www.w3.org/2000/svg\" class=\"chart-svg\">\n<rect x=\"60\" y=\"20\" width=\"720\" height=\"200\" fill=\"none\" stroke=\"#463840\"/>\n");
        reveal_strlit("\n");
        assert(is_fixed(end));
        assert(is_fixed(parts[0].0));
        assert(is_fixed(parts[1].0));
        assert(is_fixed(parts[2].0));
        assert(is_fixed(parts[3].0));
        assert(is_fixed(parts[4].0));
        assert(is_fixed(parts[5].0));
        assert(is_fixed(parts[6].0));
        assert(is_fixed(parts[7].0));
        assert(is_fixed(parts[8].0));
    }
    assert(chart_fields(chart, n, y, x) =~= said(parts));
    law_fields_go_to_their_places(parts, end);
}

/// Above the chart of throughputs stand the latest, the average and the greatest, in the order in which
/// they are given, the range of tokens and the number of points.
pub proof fn law_throughput_chart_says(chart: Chart, n: nat, y: Seq<char>, x: Seq<char>)
    requires
        chart.summary@.len() == 3,
    ensures
        filled(TPS_TEMPLATE@, chart_fields(chart, n, y, x)) == woven(
            seq![
                ("<div>\n<b>Latest Tokens/s:</b> "@, chart.summary@[0]@),
                (" &nbsp; <b>Avg:</b> "@, chart.summary@[1]@),
                (" &nbsp; <b>Peak:</b> "@, chart.summary@[2]@),
                (" &nbsp; Tokens: "@, chart.min_tokens@),
                (" - "@, chart.max_tokens@),
                (" &nbsp; Points: "@, decimal(n)),
                (
                    "\n<br><br>\n<svg width=\"800\" height=\"200\" viewBox=\"0 0 800 200\" xmlns=\"http://www.w3.org/2000/svg\" class=\"chart-svg\">\n<rect x=\"70\" y=\"20\" width=\"710\" height=\"150\" fill=\"none\" stroke=\"#463840\"/>\n"@,
                    labels_text(y, chart.y_labels@),
                ),
                ("\n"@, labels_text(x, chart.x_labels@)),
            ],
            "\n"@,
        ),
{
    let parts = seq![
        ("<div>\n<b>Latest Tokens/s:</b> "@, chart.summary@[0]@),
        (" &nbsp; <b>Avg:</b> "@, chart.summary@[1]@),
        (" &nbsp; <b>Peak:</b> "@, chart.summary@[2]@),
        (" &nbsp; Tokens: "@, chart.min_tokens@),
        (" - "@, chart.max_tokens@),
        (" &nbsp; Points: "@, decimal(n)),
        (
            "\n<br><br>\n<svg width=\"800\" height=\"200\" viewBox=\"0 0 800 200\" xmlns=\"http://www.w3.org/2000/svg\" class=\"chart-svg\">\n<rect x=\"70\" y=\"20\" width=\"710\" height=\"150\" fill=\"none\" stroke=\"#463840\"/>\n"@,
            labels_text(y, chart.y_labels@),
        ),
        ("\n"@, labels_text(x, chart.x_labels@)),
    ];
    let end = "\n"@;
    assert(TPS_TEMPLATE@ == blank(parts, end)) by {
        reveal_strlit("{}");
        reveal_strlit("<div>\n<b>Latest Tokens/s:</b> {} &nbsp; <b>Avg:</b> {} &nbsp; <b>Peak:</b> {} &nbsp; Tokens: {} - {} &nbsp; Points: {}\n<br><br>\n<svg width=\"800\" height=\"200\" viewBox=\"0 0 800 200\" xmlns=\"http://www.w3.org/2000/svg\" class=\"chart-svg\">\n<rect x=\"70\" y=\"20\" width=\"710\" height=\"150\" fill=\"none\" stroke=\"#463840\"/>\n{}\n{}\n");
        reveal_strlit("<div>\n<b>Latest Tokens/s:</b> ");
        reveal_strlit(" &nbsp; <b>Avg:</b> ");
        reveal_strlit(" &nbsp; <b>Peak:</b> ");
        reveal_strlit(" &nbsp; Tokens: ");
        reveal_strlit(" - ");
        reveal_strlit(" &nbsp; Points: ");
        reveal_strlit("\n<br><br>\n<svg width=\"800\" height=\"200\" viewBox=\"0 0 800 200\" xmlns=\"http://www.w3.org/2000/svg\" class=\"chart-svg\">\n<rect x=\"70\" y=\"20\" width=\"710\" height=\"150\" fill=\"none\" stroke=\"#463840\"/>\n");
        reveal_strlit("\n");
        reveal_with_fuel(blank_from, 9);
        assert(TPS_TEMPLATE@ =~= blank(parts, end));
    }
    assert(all_fixed(parts, end)) by {
        reveal_strlit("<div>\n<b>Latest Tokens/s:</b> ");
        reveal_strlit(" &nbsp; <b>Avg:</b> ");
        reveal_strlit(" &nbsp; <b>Peak:</b> ");
        reveal_strlit(" &nbsp; Tokens: ");
        reveal_strlit(" - ");
        reveal_strlit(" &nbsp; Points: ");
        reveal_strlit("\n<br><br>\n<svg width=\"800\" height=\"200\" viewBox=\"0 0 800 200\" xmlns=\"http://www.w3.org/2000/svg\" class=\"chart-svg\">\n<rect x=\"70\" y=\"20\" width=\"710\" height=\"150\" fill=\"none\" stroke=\"#463840\"/>\n");
        reveal_strlit("\n");
        assert(is_fixed(end));
        assert(is_fixed(parts[0].0));
        assert(is_fixed(parts[1].0));
        assert(is_fixed(parts[2].0));
        assert(is_fixed(parts[3].0));
        assert(is_fixed(parts[4].0));
        assert(is_fixed(parts[5].0));
        assert(is_fixed(parts[6].0));
        assert(is_fixed(parts[7].0));
    }
    assert(chart_fields(chart, n, y, x) =~= said(parts));
    law_fields_go_to_their_places(parts, end);
}

/// A label left of the chart of losses stands at its place and says its text.
pub proof fn law_loss_height_label_says(label: AxisLabel)
    ensures
        filled(LOSS_Y_LABEL@, seq![label.at@, label.says@]) == woven(
            seq![
                ("<text x=\"55\" y=\""@, label.at@),
                ("\" text-anchor=\"end\" fill=\"#e2ccb8\">"@, label.says@),
            ],
            "</text>"@,
        ),
{
    let parts = seq![
        ("<text x=\"55\" y=\""@, label.at@),
        ("\" text-anchor=\"end\" fill=\"#e2ccb8\">"@, label.says@),
    ];
    let end = "</text>"@;
    assert(LOSS_Y_LABEL@ == blank(parts, end)) by {
        reveal_strlit("{}");
        reveal_strlit("<text x=\"55\" y=\"{}\" text-anchor=\"end\" fill=\"#e2ccb8\">{}</text>");
        reveal_strlit("<text x=\"55\" y=\"");
        reveal_strlit("\" text-anchor=\"end\" fill=\"#e2ccb8\">");
        reveal_strlit("</text>");
        reveal_with_fuel(blank_from, 3);
        assert(LOSS_Y_LABEL@ =~= blank(parts, end));
    }
    assert(all_fixed(parts, end)) by {
        reveal_strlit("<text x=\"55\" y=\"");
        reveal_strlit("\" text-anchor=\"end\" fill=\"#e2ccb8\">");
        reveal_strlit("</text>");
        assert(is_fixed(end));
        assert(is_fixed(parts[0].0));
        assert(is_fixed(parts[1].0));
    }
    assert(seq![label.at@, label.says@] =~= said(parts));
    law_fields_go_to_their_places(parts, end);
}

/// A label below the chart of losses stands at its place and says its text.
pub proof fn law_loss_tokens_label_says(label: AxisLabel)
    ensures
        filled(LOSS_X_LABEL@, seq![label.at@, label.says@]) == woven(
            seq![
                ("<text x=\""@, label.at@),
                ("\" y=\"242\" text-anchor=\"middle\" fill=\"#e2ccb8\">"@, label.says@),
            ],
            "</text>"@,
        ),
{
    let parts = seq![
        ("<text x=\""@, label.at@),
        ("\" y=\"242\" text-anchor=\"middle\" fill=\"#e2ccb8\">"@, label.says@),
    ];
    let end = "</text>"@;
    assert(LOSS_X_LABEL@ == blank(parts, end)) by {
        reveal_strlit("{}");
        reveal_strlit("<text x=\"{}\" y=\"242\" text-anchor=\"middle\" fill=\"#e2ccb8\">{}</text>");
        reveal_strlit("<text x=\"");
        reveal_strlit("\" y=\"242\" text-anchor=\"middle\" fill=\"#e2ccb8\">");
        reveal_strlit("</text>");
        reveal_with_fuel(blank_from, 3);
        assert(LOSS_X_LABEL@ =~= blank(parts, end));
    }
    assert(all_fixed(parts, end)) by {
        reveal_strlit("<text x=\"");
        reveal_strlit("\" y=\"242\" text-anchor=\"middle\" fill=\"#e2ccb8\">");
        reveal_strlit("</text>");
        assert(is_fixed(end));
        assert(is_fixed(parts[0].0));
        assert(is_fixed(parts[1].0));
    }
    assert(seq![label.at@, label.says@] =~= said(parts));
    law_fields_go_to_their_places(parts, end);
}

/// A label left of the chart of throughputs stands at its place and says its text.
pub proof fn law_throughput_height_label_says(label: AxisLabel)
    ensures
        filled(TPS_Y_LABEL@, seq![label.at@, label.says@]) == woven(
            seq![
                ("<text x=\"65\" y=\""@, label.at@),
                ("\" text-anchor=\"end\" fill=\"#e2ccb8\">"@, label.says@),
            ],
            "</text>"@,
        ),
{
    let parts = seq![
        ("<text x=\"65\" y=\""@, label.at@),
        ("\" text-anchor=\"end\" fill=\"#e2ccb8\">"@, label.says@),
    ];
    let end = "</text>"@;
    assert(TPS_Y_LABEL@ == blank(parts, end)) by {
        reveal_strlit("{}");
        reveal_strlit("<text x=\"65\" y=\"{}\" text-anchor=\"end\" fill=\"#e2ccb8\">{}</text>");
        reveal_strlit("<text x=\"65\" y=\"");
        reveal_strlit("\" text-anchor=\"end\" fill=\"#e2ccb8\">");
        reveal_strlit("</text>");
        reveal_with_fuel(blank_from, 3);
        assert(TPS_Y_LABEL@ =~= blank(parts, end));
    }
    assert(all_fixed(parts, end)) by {
        reveal_strlit("<text x=\"65\" y=\"");
        reveal_strlit("\" text-anchor=\"end\" fill=\"#e2ccb8\">");
        reveal_strlit("</text>");
        assert(is_fixed(end));
        assert(is_fixed(parts[0].0));
        assert(is_fixed(parts[1].0));
    }
    assert(seq![label.at@, label.says@] =~= said(parts));
    law_fields_go_to_their_places(parts, end);
}

/// A label below the chart of throughputs stands at its place and says its text.
pub proof fn law_throughput_tokens_label_says(label: AxisLabel)
    ensures
        filled(TPS_X_LABEL@, seq![label.at@, label.says@]) == woven(
            seq![
                ("<text x=\""@, label.at@),
                ("\" y=\"192\" text-anchor=\"middle\" fill=\"#e2ccb8\">"@, label.says@),
            ],
            "</text>"@,
        ),
{
    let parts = seq![
        ("<text x=\""@, label.at@),
        ("\" y=\"192\" text-anchor=\"middle\" fill=\"#e2ccb8\">"@, label.says@),
    ];
    let end = "</text>"@;
    assert(TPS_X_LABEL@ == blank(parts, end)) by {
        reveal_strlit("{}");
        reveal_strlit("<text x=\"{}\" y=\"192\" text-anchor=\"middle\" fill=\"#e2ccb8\">{}</text>");
        reveal_strlit("<text x=\"");
        reveal_strlit("\" y=\"192\" text-anchor=\"middle\" fill=\"#e2ccb8\">");
        reveal_strlit("</text>");
        reveal_with_fuel(blank_from, 3);
        assert(TPS_X_LABEL@ =~= blank(parts, end));
    }
    assert(all_fixed(parts, end)) by {
        reveal_strlit("<text x=\"");
        reveal_strlit("\" y=\"192\" text-anchor=\"middle\" fill=\"#e2ccb8\">");
        reveal_strlit("</text>");
        assert(is_fixed(end));
        assert(is_fixed(parts[0].0));
        assert(is_fixed(parts[1].0));
    }
    assert(seq![label.at@, label.says@] =~= said(parts));
    law_fields_go_to_their_places(parts, end);
}

/// Where one of several texts is not empty, neither are they together.
proof fn lemma_concatenated_part(parts: Seq<Seq<char>>, i: int)
    requires
        0 <= i < parts.len(),
    ensures
        mentions(concatenated(parts), parts[i]),
        concatenated(parts).len() >= parts[i].len(),
    decreases parts.len(),
{
    let all = concatenated(parts);
    let before = concatenated(parts.drop_last());
    if i == parts.len() - 1 {
        assert(all.subrange(before.len() as int, (before.len() + parts[i].len()) as int) =~= parts[i]);
        assert(holds_at(all, parts[i], before.len() as int));
    } else {
        lemma_concatenated_part(parts.drop_last(), i);
        let at = choose|at: int| holds_at(before, parts[i], at);
        assert(all.subrange(at, at + parts[i].len()) =~= before.subrange(at, at + parts[i].len()));
        assert(holds_at(all, parts[i], at));
    }
}

/// There are rows exactly where there are clients.
proof fn lemma_rows_are_there(s: WebState, c: CoordinatorState)
    ensures
        client_rows(c.epoch_state.clients@).len() == 0 <==> c.epoch_state.clients@.len() == 0,
        exited_rows(c.epoch_state.exited_clients@).len() == 0
            <==> c.epoch_state.exited_clients@.len() == 0,
        connected_rows(s.syncing_clients@, s.ready_clients@).len() == 0 <==> s.syncing_clients@.len()
            == 0 && s.ready_clients@.len() == 0,
{
    let clients = c.epoch_state.clients@;
    let exited = c.epoch_state.exited_clients@;
    let syncing = s.syncing_clients@;
    let ready = s.ready_clients@;
    reveal_strlit("<tr><td>");
    if clients.len() > 0 {
        law_client_row_says(clients[0]);
        lemma_concatenated_part(clients.map_values(|c: ClientInfo| client_row(c)), 0);
    }
    if exited.len() > 0 {
        law_exited_row_says(exited[0]);
        lemma_concatenated_part(exited.map_values(|c: ClientInfo| exited_row(c)), 0);
    }
    let rows = syncing.map_values(|n: String| name_row(SYNCING_ROW@, n@)) + ready.map_values(
        |n: String| name_row(READY_ROW@, n@),
    );
    if syncing.len() > 0 {
        law_syncing_row_says(syncing[0]@);
        assert(rows[0] == name_row(SYNCING_ROW@, syncing[0]@));
        lemma_concatenated_part(rows, 0);
    } else if ready.len() > 0 {
        law_ready_row_says(ready[0]@);
        assert(rows[0] == name_row(READY_ROW@, ready[0]@));
        lemma_concatenated_part(rows, 0);
    }
}

/// Every client has its row: those of the epoch, those that left it, those that are still downloading
/// and those that wait; and every remembered round has its own.
pub proof fn law_everybody_has_a_row(s: WebState, c: CoordinatorState, i: int)
    ensures
        0 <= i < c.epoch_state.clients@.len() ==> mentions(
            client_rows(c.epoch_state.clients@),
            client_row(c.epoch_state.clients@[i]),
        ),
        0 <= i < c.epoch_state.exited_clients@.len() ==> mentions(
            exited_rows(c.epoch_state.exited_clients@),
            exited_row(c.epoch_state.exited_clients@[i]),
        ),
        0 <= i < s.syncing_clients@.len() ==> mentions(
            connected_rows(s.syncing_clients@, s.ready_clients@),
            name_row(SYNCING_ROW@, s.syncing_clients@[i]@),
        ),
        0 <= i < s.ready_clients@.len() ==> mentions(
            connected_rows(s.syncing_clients@, s.ready_clients@),
            name_row(READY_ROW@, s.ready_clients@[i]@),
        ),
        0 <= i < 4 ==> mentions(concatenated(round_rows(c)), round_row(c, i as nat)),
{
    let clients = c.epoch_state.clients@;
    let exited = c.epoch_state.exited_clients@;
    let syncing = s.syncing_clients@;
    let ready = s.ready_clients@;
    let rows = syncing.map_values(|n: String| name_row(SYNCING_ROW@, n@)) + ready.map_values(
        |n: String| name_row(READY_ROW@, n@),
    );
    if 0 <= i < clients.len() {
        lemma_concatenated_part(clients.map_values(|c: ClientInfo| client_row(c)), i);
    }
    if 0 <= i < exited.len() {
        lemma_concatenated_part(exited.map_values(|c: ClientInfo| exited_row(c)), i);
    }
    if 0 <= i < syncing.len() {
        assert(rows[i] == name_row(SYNCING_ROW@, syncing[i]@));
        lemma_concatenated_part(rows, i);
    }
    if 0 <= i < ready.len() {
        assert(rows[syncing.len() + i] == name_row(READY_ROW@, ready[i]@));
        lemma_concatenated_part(rows, syncing.len() + i);
    }
    if 0 <= i < 4 {
        lemma_concatenated_part(round_rows(c), i);
    }
}

/// What a part of a text mentions, the text mentions.
proof fn lemma_mentions_part(text: Seq<char>, a: Seq<char>, part: Seq<char>, b: Seq<char>)
    requires
        mentions(text, a + part + b),
    ensures
        mentions(text, part),
{
    let whole = a + part + b;
    let at = choose|at: int| holds_at(text, whole, at);
    let n = a.len() as int;
    assert(text.subrange(at + n, at + n + part.len()) =~= whole.subrange(n, n + part.len()));
    assert(whole.subrange(n, n + part.len()) =~= part);
    assert(holds_at(text, part, at + n));
}

/// The number before the word for each state is the number of clients in that state.
pub proof fn law_clients_page_counts(s: WebState, c: CoordinatorState)
    ensures
        ({
            let page = filled(CLIENTS_TEMPLATE@, clients_fields(s, c));
            let n = |state: ClientState|
                decimal(c.epoch_state.clients@.filter(|x: ClientInfo| x.state == state).len());
            &&& mentions(
                page,
                "<span style=\"color:#52b8cd\">"@ + n(ClientState::Healthy) + " healthy</span>"@,
            )
            &&& mentions(
                page,
                "<span style=\"color:#da4e8a\">"@ + n(ClientState::Dropped) + " dropped</span>"@,
            )
            &&& mentions(
                page,
                "<span style=\"color:#a85cbc\">"@ + n(ClientState::Withdrawn) + " withdrawn</span>"@,
            )
            &&& mentions(
                page,
                "<span style=\"color:#da4e8a\">"@ + n(ClientState::Ejected) + " ejected</span>"@,
            )
        }),
{
    let page = filled(CLIENTS_TEMPLATE@, clients_fields(s, c));
    let clients = c.epoch_state.clients@;
    let healthy = decimal(clients.filter(|x: ClientInfo| x.state == ClientState::Healthy).len());
    let dropped = decimal(clients.filter(|x: ClientInfo| x.state == ClientState::Dropped).len());
    let withdrawn = decimal(clients.filter(|x: ClientInfo| x.state == ClientState::Withdrawn).len());
    let ejected = decimal(clients.filter(|x: ClientInfo| x.state == ClientState::Ejected).len());
    let blue = "<span style=\"color:#52b8cd\">"@;
    let red = "<span style=\"color:#da4e8a\">"@;
    let violet = "<span style=\"color:#a85cbc\">"@;
    let parts = seq![
        ("<div><b>Client Summary:</b> "@, decimal(clients.len())),
        (" total &mdash;\n<span style=\"color:#52b8cd\">"@, healthy),
        (" healthy</span>,\n<span style=\"color:#da4e8a\">"@, dropped),
        (" dropped</span>,\n<span style=\"color:#a85cbc\">"@, withdrawn),
        (" withdrawn</span>,\n<span style=\"color:#da4e8a\">"@, ejected),
        (
            " ejected</span></div>\n<br>\n<table border=\"1\">\n<thead><tr><th>Client ID</th><th>Status</th><th>Exited Height</th></tr></thead>\n<tbody>"@,
            if clients.len() == 0 { NO_CLIENTS@ } else { client_rows(clients) },
        ),
        (
            "</tbody>\n</table>\n"@,
            if c.epoch_state.exited_clients@.len() == 0 {
                Seq::empty()
            } else {
                name_row(EXITED_SECTION@, exited_rows(c.epoch_state.exited_clients@))
            },
        ),
        (
            "\n"@,
            if s.syncing_clients@.len() == 0 && s.ready_clients@.len() == 0 {
                Seq::empty()
            } else {
                name_row(CONNECTED_SECTION@, connected_rows(s.syncing_clients@, s.ready_clients@))
            },
        ),
    ];
    let end = ""@;
    law_clients_page_says(s, c);
    lemma_page_pieces();
    law_fields_stand_between_their_texts(parts, end, 1);
    law_fields_stand_between_their_texts(parts, end, 2);
    law_fields_stand_between_their_texts(parts, end, 3);
    law_fields_stand_between_their_texts(parts, end, 4);
    let (a, b) = (" total &mdash;\n"@, ",\n<span style=\"color:#da4e8a\">"@);
    assert(parts[1].0 + parts[1].1 + parts[2].0 =~= a + (blue + healthy + " healthy</span>"@) + b);
    lemma_mentions_part(page, a, blue + healthy + " healthy</span>"@, b);
    let (a, b) = (" healthy</span>,\n"@, ",\n<span style=\"color:#a85cbc\">"@);
    assert(parts[2].0 + parts[2].1 + parts[3].0 =~= a + (red + dropped + " dropped</span>"@) + b);
    lemma_mentions_part(page, a, red + dropped + " dropped</span>"@, b);
    let (a, b) = (" dropped</span>,\n"@, ",\n<span style=\"color:#da4e8a\">"@);
    assert(parts[3].0 + parts[3].1 + parts[4].0 =~= a + (violet + withdrawn + " withdrawn</span>"@)
        + b);
    lemma_mentions_part(page, a, violet + withdrawn + " withdrawn</span>"@, b);
    let (a, b) = (
        " withdrawn</span>,\n"@,
        "</div>\n<br>\n<table border=\"1\">\n<thead><tr><th>Client ID</th><th>Status</th><th>Exited Height</th></tr></thead>\n<tbody>"@,
    );
    assert(parts[4].0 + parts[4].1 + parts[5].0 =~= a + (red + ejected + " ejected</span>"@) + b);
    lemma_mentions_part(page, a, red + ejected + " ejected</span>"@, b);
}

/// How the texts between the numbers are put together.
proof fn lemma_page_pieces()
    ensures
        " total &mdash;\n<span style=\"color:#52b8cd\">"@ == " total &mdash;\n"@
            + "<span style=\"color:#52b8cd\">"@,
        " healthy</span>,\n<span style=\"color:#da4e8a\">"@ == " healthy</span>,\n"@
            + "<span style=\"color:#da4e8a\">"@,
        " healthy</span>,\n<span style=\"color:#da4e8a\">"@ == " healthy</span>"@
            + ",\n<span style=\"color:#da4e8a\">"@,
        " dropped</span>,\n<span style=\"color:#a85cbc\">"@ == " dropped</span>,\n"@
            + "<span style=\"color:#a85cbc\">"@,
        " dropped</span>,\n<span style=\"color:#a85cbc\">"@ == " dropped</span>"@
            + ",\n<span style=\"color:#a85cbc\">"@,
        " withdrawn</span>,\n<span style=\"color:#da4e8a\">"@ == " withdrawn</span>,\n"@
            + "<span style=\"color:#da4e8a\">"@,
        " withdrawn</span>,\n<span style=\"color:#da4e8a\">"@ == " withdrawn</span>"@
            + ",\n<span style=\"color:#da4e8a\">"@,
        " ejected</span></div>\n<br>\n<table border=\"1\">\n<thead><tr><th>Client ID</th><th>Status</th><th>Exited Height</th></tr></thead>\n<tbody>"@ == " ejected</span>"@ + "</div>\n<br>\n<table border=\"1\">\n<thead><tr><th>Client ID</th><th>Status</th><th>Exited Height</th></tr></thead>\n<tbody>"@,
{
    reveal_strlit(" dropped</span>");
    reveal_strlit(" dropped</span>,\n");
    reveal_strlit(" dropped</span>,\n<span style=\"color:#a85cbc\">");
    reveal_strlit(" ejected</span>");
    reveal_strlit(" ejected</span></div>\n<br>\n<table border=\"1\">\n<thead><tr><th>Client ID</th><th>Status</th><th>Exited Height</th></tr></thead>\n<tbody>");
    reveal_strlit(" healthy</span>");
    reveal_strlit(" healthy</span>,\n");
    reveal_strlit(" healthy</span>,\n<span style=\"color:#da4e8a\">");
    reveal_strlit(" total &mdash;\n");
    reveal_strlit(" total &mdash;\n<span style=\"color:#52b8cd\">");
    reveal_strlit(" withdrawn</span>");
    reveal_strlit(" withdrawn</span>,\n");
    reveal_strlit(" withdrawn</span>,\n<span style=\"color:#da4e8a\">");
    reveal_strlit(",\n<span style=\"color:#a85cbc\">");
    reveal_strlit(",\n<span style=\"color:#da4e8a\">");
    reveal_strlit("</div>\n<br>\n<table border=\"1\">\n<thead><tr><th>Client ID</th><th>Status</th><th>Exited Height</th></tr></thead>\n<tbody>");
    reveal_strlit("<span style=\"color:#52b8cd\">");
    reveal_strlit("<span style=\"color:#a85cbc\">");
    reveal_strlit("<span style=\"color:#da4e8a\">");
}

} // verus!
