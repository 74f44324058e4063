use aether::coordinator::{
    Checkpoint, ClientInfo, ClientState, CoordinatorState, DataLocation, EpochState, HubRepo,
    LlmArchitecture, LlmInfo, Progress, Round, RunConfig, RunState, TrainingDataType,
};
use aether::server::labels::{
    format_checkpoint_label, format_client_state, format_data_type, format_duration, format_eta,
    format_llm_architecture, format_lr_schedule, format_optimizer, format_run_state, format_tps,
    OptimizerText, ScheduleKind,
};
use aether::server::loss::LossPoint;
use aether::server::monitor::{remaining_steps, snapshot_from_web_state, RunEstimate};
use aether::server::monitor_screen::{
    ends_view, host_key_source, panel_value_width, progress_bar, render_ansi, render_panel,
    render_panel_pair, sparkline, sparkline_start, ClientView, HostKeySource, SnapshotTexts,
    WatcherIds, MODEL_TITLE, RESIZE,
};
use aether::server::terminal_text::{
    boxed_line, color_line, kv_line, panel_bottom, panel_top, shorten, truncate_visible,
    visible_len,
};
use aether::server::web::{
    clients_partial, config_partial, count_clients, elapsed, index, model_partial,
    overview_partial, remaining_tokens, render_loss_svg, render_throughput_svg, rounds_partial,
    timing_partial, AxisLabel, Chart, TimingEstimate, WebState,
};

fn client(id: u128, state: ClientState) -> ClientInfo {
    ClientInfo { id: (id, 0), label: format!("client-{id}"), state, exited_height: 9 }
}

fn round(height: u32) -> Round {
    Round {
        height,
        data_index: 10 * height as u64,
        random_seed: 0,
        clients_len: 2,
        tie_breaker_tasks: 1,
        witnesses: 1,
    }
}

fn coordinator() -> CoordinatorState {
    CoordinatorState {
        run_id: "run".to_string(),
        run_state: RunState::RoundTrain,
        run_state_start_unix_timestamp: 1000,
        pending_pause: false,
        config: RunConfig {
            total_steps: 100,
            epoch_time: 3600,
            warmup_time: 30,
            cooldown_time: 10,
            max_round_train_time: 11,
            round_witness_time: 5,
            global_batch_size_warmup_tokens: 123,
            init_min_clients: 2,
            min_clients: 1,
            witness_nodes: 3,
            global_batch_size_start: 4,
            global_batch_size_end: 8,
            verification_percent: 17,
            waiting_for_members_extra_time: 3,
        },
        progress: Progress { epoch: 2, step: 7, epoch_start_data_index: 0 },
        epoch_state: EpochState {
            clients: vec![
                client(1, ClientState::Healthy),
                client(2, ClientState::Dropped),
                client(3, ClientState::Healthy),
            ],
            exited_clients: vec![client(4, ClientState::Ejected)],
            rounds: [round(1), round(2), round(3), round(4)],
            rounds_head: 2,
            start_step: 5,
            last_step: 15,
            start_timestamp: 0,
            cold_start_epoch: false,
            first_round: false,
        },
        model: LlmInfo {
            architecture: LlmArchitecture::Torchtitan,
            max_seq_len: 512,
            cold_start_warmup_steps: 6,
            data_type: TrainingDataType::Finetuning,
            checkpoint: Checkpoint::P2P(HubRepo { repo_id: "m".to_string(), revision: None }),
            data_location: DataLocation::Elsewhere,
        },
        target_global_batch_size: 8,
        total_tokens_processed: 4096,
    }
}

fn state(coordinator: Option<CoordinatorState>) -> WebState {
    WebState {
        coordinator,
        loss_history: vec![],
        syncing_clients: vec!["s".to_string()],
        ready_clients: vec!["a".to_string(), "b".to_string()],
        server_addr: "1.2.3.4:5".to_string(),
        wandb: None,
    }
}

fn point(step: u32, loss: f32, tps: f32, unix_timestamp: u64) -> LossPoint {
    LossPoint {
        step,
        tokens_processed: 100 * step as u64,
        loss: loss.to_bits(),
        tokens_per_sec: tps.to_bits(),
        unix_timestamp,
    }
}

fn estimate() -> RunEstimate {
    RunEstimate {
        avg_tps: Some(2.0f32.to_bits()),
        weighted_tps: Some(3.0f32.to_bits()),
        eta_weighted: Some(61),
        eta_current: None,
    }
}

fn snapshot_texts() -> SnapshotTexts {
    SnapshotTexts {
        progress: "  7.0%".to_string(),
        progress_filled: 3,
        latest_loss: "2.5000".to_string(),
        latest_tps: "50.0".to_string(),
        weighted_tps: "3.0".to_string(),
        avg_tps: "2.0".to_string(),
        loss_levels: vec![0, 7],
        throughput_levels: vec![7, 0],
    }
}

#[test]
fn durations_begin_with_their_largest_unit() {
    assert_eq!(format_duration(0), "0s");
    assert_eq!(format_duration(59), "59s");
    assert_eq!(format_duration(61), "1m 01s");
    assert_eq!(format_duration(3600), "1h 00m 00s");
    assert_eq!(format_duration(366_661), "101h 51m 01s");
    assert_eq!(format_eta(None), "-");
    assert_eq!(format_eta(Some(5)), "5s");
    assert_eq!(format_tps(&None), "-");
    assert_eq!(format_tps(&Some("12.5".to_string())), "12.5 tok/s");
}

#[test]
fn states_have_names() {
    assert_eq!(format_run_state(RunState::WaitingForMembers), "Waiting for members");
    assert_eq!(format_run_state(RunState::RoundTrain), "Training");
    assert_eq!(format_run_state(RunState::RoundWitness), "Witness");
    assert_eq!(format_llm_architecture(&LlmArchitecture::HfDeepseek), "HuggingFace DeepSeek");
    assert_eq!(format_data_type(&TrainingDataType::Pretraining), "Pretraining");
    assert_eq!(format_checkpoint_label(&Checkpoint::Ephemeral), "Ephemeral");
    assert_eq!(format_client_state(ClientState::Withdrawn), "Withdrawn");
}

#[test]
fn settings_are_spelled_out() {
    assert_eq!(format_optimizer(&OptimizerText::Dummy), "Dummy");
    let adam = OptimizerText::AdamW {
        beta1: "0.9".to_string(),
        beta2: "0.95".to_string(),
        weight_decay: "0.1".to_string(),
        eps: "0.00000001".to_string(),
        clip_grad_norm: None,
    };
    assert_eq!(
        format_optimizer(&adam),
        "AdamW(betas=[0.9,0.95], weight_decay=0.1, eps=0.00000001, clip_grad_norm=None)"
    );
    let distro = OptimizerText::Distro {
        clip_grad_norm: Some("1".to_string()),
        decay: None,
        compression_decay: "0.999".to_string(),
        compression_topk: 2,
        compression_chunk: 64,
        quantize_1bit: true,
    };
    assert_eq!(
        format_optimizer(&distro),
        "Distro(clip=1, wd=None, comp_decay=0.999, topk=2, chunk=64, quantize_1bit=true)"
    );
    assert_eq!(
        format_lr_schedule(ScheduleKind::Cosine, 10, "0.00000000", "0.00040000"),
        "Cosine (warmup_steps=10, warmup_init_lr=0.00000000, current_lr=0.00040000)"
    );
}

#[test]
fn nothing_is_shown_before_the_first_report() {
    let s = state(None);
    let waiting = "<i>Waiting for coordinator data...</i>";
    assert_eq!(overview_partial(&s, 0), waiting);
    assert_eq!(rounds_partial(&s), waiting);
    assert_eq!(config_partial(&s), waiting);
    assert_eq!(model_partial(&s, "lr", &OptimizerText::Dummy), waiting);
    let snapshot = snapshot_from_web_state(&s, &estimate(), 0);
    assert!(snapshot.waiting);
    assert_eq!(snapshot.run_state, "Waiting for coordinator data");
    assert_eq!((snapshot.ready_clients, snapshot.syncing_clients), (2, 1));
}

#[test]
fn the_overview_tells_where_the_run_stands() {
    let html = overview_partial(&state(Some(coordinator())), 1090);
    assert!(html.contains("<tr><td><b>Run ID</b></td><td>run</td></tr>"));
    assert!(html.contains("<tr><td><b>Step</b></td><td>7 / 100</td></tr>"));
    assert!(html.contains("<tr><td><b>Height (Round)</b></td><td>3</td></tr>"));
    assert!(html.contains("<tr><td><b>Epoch Steps</b></td><td>5 - 15</td></tr>"));
    assert!(html.contains("<tr><td><b>Clients</b></td><td>3 (1 exited)</td></tr>"));
    assert!(html.contains("2 ready</span>"));
    assert!(html.contains("1 syncing</span>"));
    assert!(html.contains("1m 30s"));
    assert!(html.contains("<tr><td><b>Run State</b></td><td>Training </td></tr>"));
    assert!(html.contains("<tr><td><b>Epoch Duration</b></td><td>-</td></tr>"));
    assert!(html.contains("<tr><td><b>First Round</b></td><td>No</td></tr>"));
    let mut c = coordinator();
    c.pending_pause = true;
    c.epoch_state.start_timestamp = 1000;
    c.epoch_state.cold_start_epoch = true;
    let html = overview_partial(&state(Some(c)), 1005);
    assert!(html.contains("<td>Training ⚠️ Pending Pause</td>"));
    assert!(html.contains("<tr><td><b>Epoch Duration</b></td><td>5s</td></tr>"));
    assert!(html.contains("<tr><td><b>Cold Start Epoch</b></td><td>Yes</td></tr>"));
}

#[test]
fn clients_are_counted_and_listed() {
    let c = coordinator();
    assert_eq!(count_clients(&c.epoch_state.clients, ClientState::Healthy), 2);
    assert_eq!(count_clients(&c.epoch_state.clients, ClientState::Ejected), 0);
    let html = clients_partial(&state(Some(c)));
    for id in ["client-1", "client-2", "client-3", "client-4"] {
        assert!(html.contains(id));
    }
    assert!(html.contains("Dropped"));
}

#[test]
fn rounds_and_settings_are_listed() {
    let s = state(Some(coordinator()));
    let html = rounds_partial(&s);
    for index in ["10", "20", "30", "40"] {
        assert!(html.contains(index));
    }
    let html = config_partial(&s);
    assert!(html.contains("123"));
    assert!(html.contains("17"));
    let html = model_partial(&s, "lr text", &OptimizerText::Dummy);
    assert_eq!(
        html,
        "<table border=\"1\">\n\
         <tr><td><b>Architecture</b></td><td>Torchtitan</td></tr>\n\
         <tr><td><b>Max Seq Len</b></td><td>512</td></tr>\n\
         <tr><td><b>Cold Start Warmup Steps</b></td><td>6</td></tr>\n\
         <tr><td><b>Data Type</b></td><td>Finetuning</td></tr>\n\
         <tr><td><b>Checkpoint</b></td><td>P2P</td></tr>\n\
         <tr><td><b>LR Schedule</b></td><td>lr text</td></tr>\n\
         <tr><td><b>Optimizer</b></td><td>Dummy</td></tr>\n\
         </table>"
    );
}

#[test]
fn time_is_told() {
    assert_eq!(elapsed(&vec![point(1, 1.0, 1.0, 40)], 1000, 100), Some(60));
    assert_eq!(elapsed(&vec![], 90, 100), Some(10));
    assert_eq!(elapsed(&vec![], 0, 100), None);
    assert_eq!(elapsed(&vec![point(1, 1.0, 1.0, 400)], 0, 100), Some(0));
    assert_eq!(remaining_tokens(&coordinator()), 100 * 8 * 512 - 4096);
    let timing = TimingEstimate {
        remaining_steps: 99,
        remaining_tokens: "405.5K".to_string(),
        weighted_eta: Some(61),
        weighted_tps: Some("3.0".to_string()),
        avg_eta: None,
        avg_tps: None,
        current_eta: Some(3),
        current_tps: Some("9.9".to_string()),
    };
    let html = timing_partial(&state(Some(coordinator())), &timing, 1090);
    assert!(html.contains("<tr><td><b>Elapsed</b></td><td>1m 30s</td></tr>"));
    assert!(html.contains("<tr><td><b>Remaining Steps</b></td><td>99</td></tr>"));
    assert!(html.contains("<tr><td><b>Tokens / Step</b></td><td>4096</td></tr>"));
    assert!(html.contains(
        "<tr><td><b>ETA (weighted avg)</b></td><td>1m 01s <span class=\"hint\">(3.0 tok/s)</span></td></tr>"
    ));
    assert!(html.contains(
        "<tr><td><b>ETA (overall avg)</b></td><td>- <span class=\"hint\">(-)</span></td></tr>"
    ));
}

#[test]
fn nothing_is_timed_without_a_throughput() {
    let timing = TimingEstimate {
        remaining_steps: 99,
        remaining_tokens: "405.5K".to_string(),
        weighted_eta: None,
        weighted_tps: None,
        avg_eta: None,
        avg_tps: None,
        current_eta: None,
        current_tps: None,
    };
    let html = timing_partial(&state(Some(coordinator())), &timing, 1090);
    assert_eq!(html.matches("</b></td><td>- <span class=\"hint\">(-)</span></td></tr>").count(), 3);
    let unknown =
        RunEstimate { avg_tps: None, weighted_tps: None, eta_weighted: None, eta_current: None };
    let snapshot = snapshot_from_web_state(&state(Some(coordinator())), &unknown, 0);
    assert!(snapshot.throughput_points.is_empty());
    assert_eq!((snapshot.avg_tps, snapshot.weighted_tps), (None, None));
    assert_eq!((snapshot.eta_weighted, snapshot.eta_current), (None, None));
}

#[test]
fn charts_need_two_points() {
    let label = |at: &str, says: &str| AxisLabel { at: at.to_string(), says: says.to_string() };
    let chart = || Chart {
        summary: ["2.0000", "1.0000", "2.0000", "1.5000"].iter().map(|s| s.to_string()).collect(),
        min_tokens: "100".to_string(),
        max_tokens: "200".to_string(),
        y_labels: vec![label("224", "1.0000")],
        x_labels: vec![label("60", "100")],
        points: vec!["60.0,220.0".to_string(), "780.0,20.0".to_string()],
    };
    let one = vec![point(1, 1.0, 1.0, 0), point(2, f32::NAN, 0.0, 0)];
    assert_eq!(render_loss_svg(&one, &chart()), "<i>Not enough loss data yet</i>");
    assert_eq!(render_throughput_svg(&one, &chart()), "<i>Not enough throughput data yet</i>");
    let two = vec![point(1, 1.0, 5.0, 0), point(2, 2.0, 6.0, 0)];
    let svg = render_loss_svg(&two, &chart());
    assert!(svg.contains("<b>Latest Loss:</b> 2.0000"));
    assert!(svg.contains("Points: 2"));
    assert!(svg.contains("<polyline points=\"60.0,220.0 780.0,20.0\""));
    assert!(svg.contains("<text x=\"55\" y=\"224\" text-anchor=\"end\" fill=\"#e2ccb8\">1.0000</text>"));
    assert!(svg.ends_with(
        "\n<polyline points=\"60.0,220.0 780.0,20.0\" fill=\"none\" stroke=\"#e2ccb8\"/>\n</svg>\n</div>"
    ));
    let mut throughput = chart();
    throughput.summary = ["6.0", "5.5", "6.0"].iter().map(|s| s.to_string()).collect();
    let svg = render_throughput_svg(&two, &throughput);
    assert!(svg.contains("<b>Latest Tokens/s:</b> 6.0"));
    assert!(svg.contains("Tokens: 100 - 200"));
    assert!(svg.ends_with(
        "\n<polyline points=\"60.0,220.0 780.0,20.0\" fill=\"none\" stroke=\"#52b8cd\"/>\n</svg>\n</div>"
    ));
    assert!(index().starts_with("<!DOCTYPE html>"));
}

#[test]
fn the_run_is_summed_up() {
    let s = WebState {
        loss_history: vec![
            point(5, 3.0, 10.0, 1040),
            point(6, f32::NAN, -1.0, 1050),
            point(7, 2.5, f32::INFINITY, 1060),
        ],
        ..state(Some(coordinator()))
    };
    let snapshot = snapshot_from_web_state(&s, &estimate(), 1100);
    assert!(!snapshot.waiting);
    assert_eq!(snapshot.run_state, "Training");
    assert_eq!(snapshot.model, "Torchtitan · seq 512");
    assert_eq!(snapshot.checkpoint, "P2P");
    assert_eq!(snapshot.height, 3);
    assert_eq!(snapshot.epoch_steps, "5 - 15");
    assert_eq!(
        (snapshot.healthy, snapshot.dropped, snapshot.withdrawn, snapshot.ejected),
        (2, 1, 0, 0)
    );
    assert_eq!(snapshot.latest_loss, Some(2.5f32.to_bits()));
    assert_eq!(snapshot.latest_tps, None);
    assert_eq!(snapshot.elapsed, Some(60));
    assert_eq!(snapshot.remaining_steps, 93);
    assert_eq!(snapshot.tokens_per_step, Some(8 * 512));
    assert_eq!(snapshot.loss_points, vec![(5, 3.0f32.to_bits()), (7, 2.5f32.to_bits())]);
    assert_eq!(snapshot.throughput_points, vec![(5, 10.0f32.to_bits())]);
    assert_eq!(snapshot.eta_weighted, Some(61));
}

#[test]
fn escape_sequences_are_not_seen() {
    assert_eq!(visible_len("\x1b[1mab\x1b[0m"), 2);
    assert_eq!(visible_len("é·"), 2);
    assert_eq!(visible_len("\x1bx"), 2);
    assert_eq!(truncate_visible("abc", 3), "abc");
    assert_eq!(truncate_visible("abcd", 3), "ab…\x1b[0m");
    assert_eq!(truncate_visible("\x1b[1mabcd", 3), "\x1b[1mab…\x1b[0m");
    for text in ["abcdef", "\x1b[1mabcdef\x1b[", "a\x1bbcdef", "abcd\x1b[31"] {
        let once = truncate_visible(text, 3);
        assert_eq!(visible_len(&once), 3);
        assert_eq!(truncate_visible(&once, 3), once);
    }
    assert_eq!(shorten("abcdef", 4), "abc…");
    assert_eq!(shorten("abcd", 4), "abcd");
    assert_eq!(visible_len(&boxed_line("abc", 10)), 10);
    assert_eq!(visible_len(&boxed_line("abcdefghijkl", 10)), 10);
    assert_eq!(visible_len(&panel_top("Title", 30)), 30);
    assert_eq!(visible_len(&panel_bottom(30)), 30);
    assert_eq!(visible_len(&kv_line("Key", "value")), 20);
    assert_eq!(color_line("\x1b[1m", "v"), "\x1b[1mv\x1b[0m");
}

#[test]
fn panels_line_up() {
    let rows = vec!["a".to_string(), "longer row".to_string()];
    let panel = render_panel("T", &rows);
    assert_eq!(panel.len(), 4);
    for line in &panel {
        assert_eq!(visible_len(line), visible_len(&panel[0]));
    }
    let wide = render_panel_pair(120, "L", &rows, "R", &vec!["x".to_string()]);
    assert_eq!(wide.len(), 4);
    for line in &wide {
        assert_eq!(visible_len(line), 58 + 1 + 58);
    }
    let narrow = render_panel_pair(99, "L", &rows, "R", &vec!["x".to_string()]);
    assert_eq!(narrow.len(), 4 + 1 + 3);
}

#[test]
fn panel_titles_count_by_their_bytes() {
    let panel = render_panel("é", &Vec::new());
    assert_eq!(panel.len(), 2);
    assert_eq!(visible_len(&panel[0]), 7);
    assert_eq!(visible_len(&panel[1]), 8);
}

#[test]
fn bars_and_sparks_have_their_width() {
    assert_eq!(panel_value_width(120), 35);
    assert_eq!(panel_value_width(80), 53);
    assert_eq!(panel_value_width(20), 0);
    assert_eq!(progress_bar(3, 10), "━━━───────");
    assert_eq!(progress_bar(3, 2), "━━━─────");
    assert_eq!(sparkline_start(100, 20), 80);
    assert_eq!(sparkline_start(5, 20), 0);
    assert_eq!(sparkline_start(100, 3), 92);
    assert_eq!(sparkline_start(100, 500), 20);
    assert_eq!(sparkline(1, 20, &vec![0]), "-");
    assert_eq!(sparkline(3, 0, &vec![0, 1, 2]), "-");
    assert_eq!(sparkline(3, 20, &vec![0, 3, 7]), "▁▄█");
}

#[test]
fn the_screen_asks_for_room() {
    let snapshot = snapshot_from_web_state(&state(Some(coordinator())), &estimate(), 0);
    let small = render_ansi(&snapshot, &snapshot_texts(), 49, 40, 1);
    assert!(small.contains("Resize terminal to at least 50x18."));
    assert!(render_ansi(&snapshot, &snapshot_texts(), 80, 17, 1).contains("Resize terminal"));
    let s = WebState {
        loss_history: vec![point(5, 3.0, 10.0, 0), point(6, 4.0, 9.0, 0)],
        ..state(Some(coordinator()))
    };
    let snapshot = snapshot_from_web_state(&s, &estimate(), 0);
    let screen = render_ansi(&snapshot, &snapshot_texts(), 120, 32, 1);
    assert!(screen.starts_with("\x1b[?25l\x1b[2J\x1b[H"));
    assert!(screen.contains("Training Monitor"));
    assert!(screen.contains("▁█") && screen.contains("█▁"));
    assert!(screen.contains("Config / Model"));
    assert!(screen.contains("  7.0%"));
    assert!(screen.ends_with("\r\n"));
    assert!(!render_ansi(&snapshot, &snapshot_texts(), 120, 31, 1).contains("Config / Model"));
    let waiting = snapshot_from_web_state(&state(None), &estimate(), 0);
    assert!(render_ansi(&waiting, &snapshot_texts(), 120, 32, 8).contains("initializing"));
}

#[test]
fn the_screen_says_what_its_window_allows() {
    let s = snapshot_from_web_state(&state(Some(coordinator())), &estimate(), 0);
    for (width, height) in [(49, 40), (50, 17), (50, 18), (99, 31), (100, 31), (99, 32), (200, 60)] {
        let screen = render_ansi(&s, &snapshot_texts(), width, height, 3);
        let small = width < 50 || height < 18;
        assert_eq!(screen.contains(RESIZE), small);
        assert_eq!(screen.contains(MODEL_TITLE), !small && height >= 32);
        assert_eq!(screen.starts_with("\x1b[?25l\x1b[2J\x1b[H"), !small);
    }
}

#[test]
fn the_screen_shows_the_run() {
    let s = WebState {
        loss_history: vec![
            point(5, 3.0, 10.0, 0),
            point(6, 4.0, 9.0, 0),
            point(7, 3.5, f32::NAN, 0),
        ],
        ..state(Some(coordinator()))
    };
    let snapshot = snapshot_from_web_state(&s, &estimate(), 0);
    assert_eq!(remaining_steps(&coordinator()), 93);
    let mut texts = snapshot_texts();
    texts.latest_tps = "-".to_string();
    texts.loss_levels = vec![0, 7, 4];
    texts.throughput_levels = vec![7, 0];
    let screen = render_ansi(&snapshot, &texts, 120, 40, 1);
    for row in [
        kv_line("Loss", "▁█▅"),
        kv_line("Throughput", "█▁"),
        kv_line("Tokens/sec", "-"),
        kv_line("Remaining", "93"),
        kv_line("Ready", "2"),
    ] {
        assert!(screen.contains(&boxed_line(&row, 58)));
    }
}

#[test]
fn watchers_come_and_go() {
    let mut view = ClientView::new();
    assert_eq!((view.width, view.height, view.frame), (80, 24, 0));
    view.resize(0, 100_000);
    assert_eq!((view.width, view.height), (1, 65535));
    view.advance();
    assert_eq!(view.frame, 1);
    view.frame = u64::MAX;
    view.advance();
    assert_eq!(view.frame, 0);
    assert!(ends_view(&vec![b'q']) && ends_view(&vec![3]));
    assert!(!ends_view(&vec![b'q', b'q']) && !ends_view(&vec![]));
    let mut ids = WatcherIds { next: 4 };
    assert_eq!((ids.issue(), ids.issue()), (4, 5));
    assert_eq!(host_key_source(false, true), HostKeySource::Ephemeral);
    assert_eq!(host_key_source(true, true), HostKeySource::Load);
    assert_eq!(host_key_source(true, false), HostKeySource::Generate);
}
