use aether::coordinator::{
    Checkpoint, ClientInfo, ClientState, CoordinatorState, DataLocation, EpochState, GcsRepo,
    HubRepo, LlmArchitecture, LlmInfo, Progress, Round, RunConfig, RunState, TrainingDataType,
};
use aether::data_provider::TokenSize;
use aether::server::app::{
    must_broadcast, App, CallOutcome, ClientMessage, CoordinatorCall, HealthCheckOutcome,
    PauseCall, TickFollowUp, TickOutcome,
};
use aether::server::loss::{
    points_with_finite_loss, points_with_positive_throughput, push_loss_point, single_is_finite,
    single_is_finite_positive, throughput_weights, LossPoint, MAX_LOSS_HISTORY,
};
use aether::server::membership::Membership;
use aether::server::records::{aligned_len, encode_record, record_size, state_hash};
use aether::server::startup::{
    coordinator_port_or_any, must_fetch, plan_data_server, require_data_config, reset_ephemeral,
    run_name_at, wandb_info, web_port_or_default, DataServerInfo, ModelFetch, StartupError,
    WandbEnv, WandbInfo,
};
use aether::server::web::WebState;

fn client(id: u128, state: ClientState) -> ClientInfo {
    ClientInfo { id: (id, 0), label: format!("client-{id}"), state, exited_height: 9 }
}

fn round(height: u32) -> Round {
    Round {
        height,
        data_index: 0,
        random_seed: 0,
        clients_len: 0,
        tie_breaker_tasks: 0,
        witnesses: 0,
    }
}

fn hub() -> HubRepo {
    HubRepo { repo_id: "org/model".to_string(), revision: None }
}

fn model(checkpoint: Checkpoint, data_location: DataLocation) -> LlmInfo {
    LlmInfo {
        architecture: LlmArchitecture::HfLlama,
        max_seq_len: 512,
        cold_start_warmup_steps: 0,
        data_type: TrainingDataType::Pretraining,
        checkpoint,
        data_location,
    }
}

fn coordinator(checkpoint: Checkpoint) -> CoordinatorState {
    CoordinatorState {
        run_id: "run".to_string(),
        run_state: RunState::RoundTrain,
        run_state_start_unix_timestamp: 0,
        pending_pause: false,
        config: RunConfig {
            total_steps: 100,
            epoch_time: 60,
            warmup_time: 30,
            cooldown_time: 10,
            max_round_train_time: 10,
            round_witness_time: 5,
            global_batch_size_warmup_tokens: 0,
            init_min_clients: 1,
            min_clients: 1,
            witness_nodes: 1,
            global_batch_size_start: 8,
            global_batch_size_end: 8,
            verification_percent: 0,
            waiting_for_members_extra_time: 3,
        },
        progress: Progress { epoch: 2, step: 7, epoch_start_data_index: 0 },
        epoch_state: EpochState {
            clients: vec![client(1, ClientState::Healthy), client(2, ClientState::Healthy)],
            exited_clients: vec![client(3, ClientState::Dropped)],
            rounds: [round(1), round(2), round(3), round(4)],
            rounds_head: 2,
            start_step: 5,
            last_step: 15,
            start_timestamp: 0,
            cold_start_epoch: false,
            first_round: false,
        },
        model: model(checkpoint, DataLocation::Elsewhere),
        target_global_batch_size: 8,
        total_tokens_processed: 4096,
    }
}

fn server(checkpoint: Checkpoint, withdraw: bool) -> App {
    App::new(coordinator(checkpoint), None, withdraw, None).unwrap().0
}

/// A server whose coordinator has an epoch under way.
fn running(withdraw: bool) -> App {
    let mut app = server(Checkpoint::Hub(hub()), withdraw);
    app.set_coordinator(coordinator(Checkpoint::Hub(hub())));
    app
}

fn join(run_id: &str) -> ClientMessage {
    ClientMessage::Join { run_id: run_id.to_string() }
}

fn point(step: u32, loss: f32, tps: f32, unix_timestamp: u64) -> LossPoint {
    LossPoint {
        step,
        tokens_processed: step as u64,
        loss: loss.to_bits(),
        tokens_per_sec: tps.to_bits(),
        unix_timestamp,
    }
}

#[test]
fn clients_wait_until_they_are_ready() {
    let mut app = server(Checkpoint::Hub(hub()), false);
    assert_eq!(app.on_client_message((5, 0), &join("run"), 0), CoordinatorCall::Nothing);
    assert_eq!(app.get_pending_clients(), vec![(5, 0)]);
    assert!(app.on_tick().is_empty());
    app.on_client_message((5, 0), &ClientMessage::ReadyForEpoch, 0);
    assert!(app.get_pending_clients().is_empty());
    assert_eq!(app.get_ready_clients(), vec![(5, 0)]);
    assert_eq!(app.on_tick(), vec![(5, 0)]);
    assert_eq!(app.get_all_connected_clients(), vec![(5, 0)]);
    app.on_disconnect((5, 0));
    assert!(app.get_all_connected_clients().is_empty());
}

#[test]
fn other_runs_are_not_joined() {
    let mut app = server(Checkpoint::Hub(hub()), false);
    app.on_client_message((5, 0), &join("another"), 0);
    assert!(app.get_all_connected_clients().is_empty());
}

#[test]
fn weights_from_other_clients_need_all_who_wait() {
    let mut app = server(Checkpoint::P2P(hub()), false);
    app.on_client_message((5, 0), &join("run"), 0);
    app.on_client_message((6, 0), &join("run"), 0);
    app.on_client_message((6, 0), &ClientMessage::ReadyForEpoch, 0);
    assert_eq!(app.on_tick(), vec![(5, 0), (6, 0)]);
    // Joining again does not make a ready client pending, nor list it twice.
    app.on_client_message((6, 0), &join("run"), 0);
    assert_eq!(app.get_pending_clients(), vec![(5, 0)]);
    assert_eq!(app.get_ready_clients(), vec![(6, 0)]);
    assert_eq!(app.on_tick(), vec![(5, 0), (6, 0)]);
}

#[test]
fn those_who_left_the_epoch_are_shown_out() {
    let mut app = running(false);
    for id in [3u128, 4] {
        app.on_client_message((id, 0), &join("run"), 0);
        app.on_client_message((id, 0), &ClientMessage::ReadyForEpoch, 0);
    }
    assert_eq!(app.on_tick(), vec![(4, 0)]);
    let mut members = Membership::new();
    members.join((1, 0));
    members.make_ready((2, 0));
    members.kick_unhealthy_clients(&vec![
        client(1, ClientState::Ejected),
        client(2, ClientState::Withdrawn),
    ]);
    assert!(members.connected_clients().is_empty());
}

#[test]
fn leaving_withdraws_where_that_is_wanted() {
    let mut app = running(true);
    assert_eq!(app.on_disconnect((2, 0)), Some(1));
    assert_eq!(app.on_disconnect((9, 0)), None);
    let mut app = running(false);
    assert_eq!(app.on_disconnect((2, 0)), None);
}

#[test]
fn witnessed_losses_are_recorded() {
    let mut app = server(Checkpoint::Hub(hub()), false);
    let witness = |loss: f32| ClientMessage::WitnessStep {
        step: 7,
        loss: loss.to_bits(),
        tokens_per_sec: 50.0f32.to_bits(),
    };
    assert_eq!(
        app.on_client_message((1, 0), &witness(2.5), 1000),
        CoordinatorCall::Witness { recorded: true }
    );
    assert_eq!(
        app.on_client_message((1, 0), &witness(f32::NAN), 1001),
        CoordinatorCall::Witness { recorded: false }
    );
    let history = app.get_loss_history();
    assert_eq!(history.len(), 1);
    assert_eq!(f32::from_bits(history[0].loss), 2.5);
    assert_eq!(history[0].tokens_processed, 4096);
    assert_eq!(history[0].unix_timestamp, 1000);
}

#[test]
fn messages_are_handed_to_the_coordinator() {
    let mut app = running(false);
    let mut ask = |from: u128, m: ClientMessage| app.on_client_message((from, 0), &m, 0);
    assert_eq!(ask(1, ClientMessage::WarmupStep), CoordinatorCall::WarmupWitness);
    assert_eq!(ask(1, ClientMessage::HealthCheck), CoordinatorCall::HealthCheck);
    assert_eq!(ask(2, ClientMessage::Checkpoint), CoordinatorCall::Checkpoint { index: 1 });
    assert_eq!(ask(9, ClientMessage::Checkpoint), CoordinatorCall::UnknownCheckpointer);
}

#[test]
fn changes_are_broadcast() {
    let before = RunState::RoundTrain;
    assert!(!must_broadcast(before, CallOutcome::NotAsked));
    assert!(!must_broadcast(before, CallOutcome::Witnessed { state_after: before }));
    assert!(must_broadcast(before, CallOutcome::Witnessed { state_after: RunState::RoundWitness }));
    let checked = |o: HealthCheckOutcome| must_broadcast(before, CallOutcome::HealthChecked(o));
    assert!(checked(HealthCheckOutcome::Dropped(2)));
    assert!(!checked(HealthCheckOutcome::Dropped(0)));
    assert!(!checked(HealthCheckOutcome::Refused));
    assert!(must_broadcast(before, CallOutcome::Checkpointed));
}

#[test]
fn ticks_have_consequences() {
    let app = server(Checkpoint::Hub(hub()), false);
    match app.after_tick(TickOutcome::EpochEnd { completed: true }, true, "run") {
        TickFollowUp::SaveState { filename } => assert_eq!(filename, "run-step6.toml"),
        other => panic!("{other:?}"),
    }
    assert!(matches!(
        app.after_tick(TickOutcome::EpochEnd { completed: true }, false, "run"),
        TickFollowUp::Nothing
    ));
    assert!(matches!(
        app.after_tick(TickOutcome::EpochEnd { completed: false }, true, "run"),
        TickFollowUp::WarnEpochAbandoned
    ));
    assert!(matches!(app.after_tick(TickOutcome::Ticked, true, "run"), TickFollowUp::Nothing));
    assert!(matches!(app.after_tick(TickOutcome::Halted, true, "run"), TickFollowUp::Nothing));
    assert!(matches!(
        app.after_tick(TickOutcome::Failed, true, "run"),
        TickFollowUp::WarnTickFailed
    ));
}

#[test]
fn states_are_recorded_once() {
    let mut app = server(Checkpoint::Hub(hub()), false);
    let change = app.post_state_change(false, true, true, Some(77));
    assert!(change.broadcast && change.feed_data_server && change.record);
    let change = app.post_state_change(false, true, false, Some(77));
    assert!(change.broadcast && !change.feed_data_server && !change.record);
    let change = app.post_state_change(false, false, true, None);
    assert!(!change.broadcast && !change.feed_data_server && !change.record);
    assert!(app.post_state_change(false, false, true, Some(78)).record);
}

#[test]
fn warmup_time_is_restored() {
    let mut app = App::new(coordinator(Checkpoint::Hub(hub())), Some(999), false, None).unwrap().0;
    assert_eq!(app.get_coordinator().config.warmup_time, 999);
    app.post_state_change(false, false, false, None);
    assert_eq!(app.get_coordinator().config.warmup_time, 999);
    app.post_state_change(true, false, false, None);
    assert_eq!(app.get_coordinator().config.warmup_time, 30);
}

#[test]
fn the_server_can_be_asked() {
    let mut app = server(Checkpoint::Hub(hub()), false);
    assert_eq!(app.get_run_state(), RunState::WaitingForMembers);
    assert_eq!(app.get_rounds()[2].height, 3);
    assert_eq!(app.get_rounds_head(), 2);
    assert_eq!(app.get_current_epoch(), 2);
    assert!(matches!(app.get_checkpoint(), Checkpoint::Hub(_)));
    assert_eq!(app.get_clients().len(), 2);
    assert!(app.get_wandb_info().is_none());
    assert_eq!(app.pause(), PauseCall::Pause);
    app.set_coordinator(CoordinatorState {
        run_state: RunState::Paused,
        ..coordinator(Checkpoint::Hub(hub()))
    });
    assert_eq!(app.pause(), PauseCall::Resume);
}

#[test]
fn what_is_shown_is_brought_up_to_date() {
    let info = WandbInfo {
        project: "p".to_string(),
        run_name: "r".to_string(),
        entity: Some("e".to_string()),
        group: None,
    };
    let mut app =
        App::new(coordinator(Checkpoint::Hub(hub())), None, false, Some(info)).unwrap().0;
    app.on_client_message(
        (1, 0),
        &ClientMessage::WitnessStep { step: 1, loss: 0, tokens_per_sec: 0 },
        5,
    );
    let mut shown = WebState {
        coordinator: None,
        loss_history: vec![],
        syncing_clients: vec![],
        ready_clients: vec![],
        server_addr: String::new(),
        wandb: None,
    };
    app.update_web_state(
        &mut shown,
        vec!["a".to_string()],
        vec!["b".to_string()],
        "addr".to_string(),
    );
    let held = app.get_coordinator();
    let copy = shown.coordinator.unwrap();
    assert_eq!(copy.run_id, "run");
    assert_eq!(format!("{copy:?}"), format!("{held:?}"));
    assert_eq!(shown.loss_history.len(), 1);
    assert_eq!(shown.syncing_clients, vec!["a"]);
    assert_eq!(shown.ready_clients, vec!["b"]);
    assert_eq!(shown.server_addr, "addr");
    assert_eq!(shown.wandb.unwrap().entity.as_deref(), Some("e"));
}

#[test]
fn histories_are_thinned() {
    let mut history = Vec::new();
    for i in 0..MAX_LOSS_HISTORY as u32 {
        push_loss_point(&mut history, point(i, 1.0, 1.0, 0));
    }
    assert_eq!(history.len(), MAX_LOSS_HISTORY);
    push_loss_point(&mut history, point(u32::MAX, 1.0, 1.0, 0));
    let half = MAX_LOSS_HISTORY / 2;
    assert_eq!(history.len(), half / 2 + half + 1);
    assert_eq!((history[0].step, history[1].step), (0, 2));
    assert_eq!(history[half / 2].step, half as u32);
    assert_eq!(history[history.len() - 1].step, u32::MAX);
}

#[test]
fn fractions_are_told_apart() {
    for v in [0.0f32, -1.5, f32::MAX, f32::MIN_POSITIVE] {
        assert!(single_is_finite(v.to_bits()));
        assert_eq!(single_is_finite_positive(v.to_bits()), v > 0.0);
    }
    for v in [f32::INFINITY, f32::NEG_INFINITY, f32::NAN, -f32::NAN] {
        assert!(!single_is_finite(v.to_bits()));
        assert!(!single_is_finite_positive(v.to_bits()));
    }
    assert!(!single_is_finite_positive((-0.0f32).to_bits()));
    let history = vec![
        point(1, f32::NAN, 5.0, 0),
        point(2, 1.0, 0.0, 0),
        point(3, 2.0, 7.0, 0),
    ];
    let steps = |v: Vec<LossPoint>| -> Vec<u32> { v.iter().map(|p| p.step).collect() };
    assert_eq!(steps(points_with_finite_loss(&history)), vec![2, 3]);
    assert_eq!(steps(points_with_positive_throughput(&history)), vec![1, 3]);
}

#[test]
fn throughputs_weigh_as_long_as_they_held() {
    let at = |t: u64| point(0, 1.0, 1.0, t);
    assert_eq!(throughput_weights(&vec![]), Vec::<u64>::new());
    assert_eq!(throughput_weights(&vec![at(5)]), vec![1]);
    assert_eq!(throughput_weights(&vec![at(10), at(13), at(20), at(20)]), vec![3, 7, 1, 1]);
    assert_eq!(throughput_weights(&vec![at(10), at(4)]), vec![1, 1]);
}

#[test]
fn ports_have_defaults() {
    assert_eq!(web_port_or_default(None), 8080);
    assert_eq!(web_port_or_default(Some(1)), 1);
    assert_eq!(coordinator_port_or_any(None), 0);
    assert_eq!(coordinator_port_or_any(Some(2)), 2);
}

#[test]
fn epochs_can_be_forgotten() {
    let mut c = coordinator(Checkpoint::Hub(hub()));
    reset_ephemeral(&mut c);
    assert_eq!(c.run_state, RunState::WaitingForMembers);
    assert_eq!(c.epoch_state.clients.len(), 2);
    assert!(c.epoch_state.clients.iter().all(|c| c.id == (0, 0) && c.label.is_empty()));
    assert!(c.epoch_state.exited_clients.iter().all(|c| c.state == ClientState::Healthy));
    assert_eq!(c.progress.step, 7);
}

#[test]
fn data_is_served_where_it_is_asked_for() {
    let here = || DataLocation::Server("host:1".to_string());
    let plan = |cp: Checkpoint| plan_data_server(&model(cp, here()));
    assert!(matches!(
        plan_data_server(&model(Checkpoint::Ephemeral, DataLocation::Elsewhere)),
        Ok(None)
    ));
    let err = plan(Checkpoint::Ephemeral).unwrap_err();
    assert_eq!(err, StartupError::EphemeralCheckpoint);
    assert_eq!(err.message(), "Can't start up a run with an Ephemeral checkpoint.");
    let gcs = || GcsRepo { bucket: "b".to_string(), prefix: Some("p".to_string()) };
    for cp in [Checkpoint::P2P(hub()), Checkpoint::P2PGcs(gcs())] {
        let err = plan(cp).unwrap_err();
        assert_eq!(err, StartupError::P2PCheckpoint);
        assert_eq!(err.message(), "Can't start up a run with a P2P checkpoint.");
    }
    let dummy = plan(Checkpoint::Dummy(hub())).unwrap().unwrap();
    assert_eq!(dummy.url, "host:1");
    assert!(!must_fetch(&dummy.fetch, false));
    let fetched = plan(Checkpoint::Hub(hub())).unwrap().unwrap().fetch;
    assert!(must_fetch(&fetched, false) && !must_fetch(&fetched, true));
    let pinned = HubRepo { revision: Some("main".to_string()), ..hub() };
    let fetched = plan(Checkpoint::Hub(pinned)).unwrap().unwrap().fetch;
    assert!(must_fetch(&fetched, true));
    match plan(Checkpoint::Gcs(gcs())).unwrap().unwrap().fetch {
        ModelFetch::Gcs { bucket, prefix } => {
            assert_eq!((bucket.as_str(), prefix.as_deref()), ("b", Some("p")));
        }
        other => panic!("{other:?}"),
    }
    let err = require_data_config(None).unwrap_err();
    assert_eq!(err, StartupError::NoDataConfig);
    assert_eq!(
        err.message(),
        "Coordinator state requires we host training data, but no --data-config passed."
    );
    let info = DataServerInfo {
        dir: "d".to_string(),
        token_size: TokenSize::TwoBytes,
        seq_len: 4,
        shuffle_seed: [1; 32],
    };
    assert_eq!(require_data_config(Some(info)).unwrap().seq_len, 4);
    let mut c = coordinator(Checkpoint::Ephemeral);
    c.model.data_location = here();
    assert!(matches!(App::new(c, None, false, None), Err(StartupError::EphemeralCheckpoint)));
}

#[test]
fn metrics_are_logged_where_the_environment_says() {
    let env = |key: Option<&str>, project: Option<&str>, run: Option<&str>| WandbEnv {
        api_key: key.map(|s| s.to_string()),
        project: project.map(|s| s.to_string()),
        run: run.map(|s| s.to_string()),
        entity: None,
        group: Some("g".to_string()),
    };
    assert!(wandb_info("r", env(None, Some("p"), Some("n")), 0).is_none());
    let info = wandb_info("r", env(Some("k"), None, None), 86_400_000_000_000).unwrap();
    assert_eq!(info.project, "psyche");
    assert_eq!(info.run_name, "server-r-1970-01-02_00-00-00");
    assert_eq!(info.group.as_deref(), Some("g"));
    let info = wandb_info("r", env(Some("k"), Some("p"), Some("n")), 0).unwrap();
    assert_eq!((info.project.as_str(), info.run_name.as_str()), ("p", "n"));
    assert_eq!(run_name_at("a", "b"), "server-a-b");
}

#[test]
fn records_stay_aligned() {
    assert_eq!(record_size(100), 108);
    assert_eq!(aligned_len(250, 108), 216);
    assert_eq!(aligned_len(216, 108), 216);
    assert_eq!(aligned_len(5, 108), 0);
    assert_eq!(state_hash(&vec![1, 2]), state_hash(&vec![1, 2]));
    assert_ne!(state_hash(&vec![1, 2]), state_hash(&vec![2, 1]));
    let bytes = encode_record(-2, &vec![9, 8]);
    assert_eq!(bytes.len(), 10);
    assert_eq!(i64::from_le_bytes(bytes[..8].try_into().unwrap()), -2);
    assert_eq!(&bytes[8..], &[9, 8]);
}
