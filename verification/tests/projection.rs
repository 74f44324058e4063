use aether::batch_map::{BatchId, BatchMap};
use aether::coordinator::{Checkpoint, RunState};
use aether::events::{
    ApplyDistroResultsComplete, BatchAssigned, BatchDataDownloadComplete, BlobDownloadCompleted,
    BlobDownloadProgress, BlobDownloadStarted, BlobUploadStarted, CheckpointDownloadProgress,
    CheckpointDownloadStarted, CheckpointUploadFinished, CheckpointUploadProgress,
    CheckpointWriteFinished, Client, ClientError, ClientWarning, ConnectionChanged,
    ConnectionLatencyChanged, Cooldown, CoordinatorEvent, DistroResultDeserializeComplete, Event,
    EventData, GossipNeighborDown, GossipNeighborUp, GossipTrainingResultReceived,
    HealthCheckFailed, ModelSerializationFinished, ResourceSnapshot, RpcCallResult,
    RpcCallSubmitted, RpcCallType, SelectedPath, StateChanged, Train, TrainingFinished,
    UntrainedBatchWarning, Warmup, WitnessElected, P2P,
};
use aether::projection::cluster::ClusterProjection;
use aether::projection::node::seconds_between;
use aether::projection::snapshots::{
    ClusterSnapshot, CoordinatorStateSnapshot, DownloadStatus, NodeSnapshot, WarmupPhase,
};

fn now() -> i64 {
    chrono::Utc::now().timestamp_nanos_opt().unwrap()
}

fn make_event(data: EventData) -> Event {
    Event { timestamp: now(), data }
}

fn event_at(seconds: i64, data: EventData) -> Event {
    Event { timestamp: seconds * 1_000_000_000, data }
}

fn report(step: u64, batch_assignments: BatchMap<String>) -> CoordinatorStateSnapshot {
    CoordinatorStateSnapshot {
        timestamp: now(),
        run_state: RunState::RoundTrain,
        epoch: 0,
        step,
        checkpoint: Checkpoint::Ephemeral,
        client_ids: vec![],
        min_clients: 1,
        batch_assignments,
    }
}

fn assigned(batches: &[(BatchId, &str)]) -> BatchMap<String> {
    let mut map = BatchMap::new();
    for (batch, node) in batches {
        map.insert(*batch, node.to_string());
    }
    map
}

#[test]
fn test_warmup_phase_transitions() {
    let mut proj = ClusterProjection::new();
    let node_id = "node-1";

    proj.apply_node_event(node_id, &make_event(EventData::Warmup(Warmup::P2PParamInfoResponse)));
    assert_eq!(proj.snapshot().nodes[node_id].warmup.phase, WarmupPhase::NegotiatingP2P);

    proj.apply_node_event(
        node_id,
        &make_event(EventData::Warmup(Warmup::CheckpointDownloadStarted(
            CheckpointDownloadStarted { size_bytes: 1024 },
        ))),
    );
    assert_eq!(proj.snapshot().nodes[node_id].warmup.phase, WarmupPhase::Downloading);
    assert_eq!(proj.snapshot().nodes[node_id].warmup.download_total_bytes, Some(1024));

    proj.apply_node_event(
        node_id,
        &make_event(EventData::Warmup(Warmup::CheckpointDownloadProgress(
            CheckpointDownloadProgress { bytes_downloaded: 512 },
        ))),
    );
    assert_eq!(proj.snapshot().nodes[node_id].warmup.download_bytes, 512);

    proj.apply_node_event(node_id, &make_event(EventData::Warmup(Warmup::ModelLoadStarted)));
    assert_eq!(proj.snapshot().nodes[node_id].warmup.phase, WarmupPhase::LoadingModel);

    proj.apply_node_event(node_id, &make_event(EventData::Warmup(Warmup::ModelLoadComplete)));
    assert_eq!(proj.snapshot().nodes[node_id].warmup.phase, WarmupPhase::Complete);
    assert!(proj.snapshot().nodes[node_id].warmup.model_loaded);
}

#[test]
fn test_state_changed_updates_node() {
    let mut proj = ClusterProjection::new();
    let node_id = "node-2";

    proj.apply_node_event(
        node_id,
        &make_event(EventData::Client(Client::StateChanged(StateChanged {
            old_state: RunState::Uninitialized,
            new_state: RunState::RoundTrain,
            epoch: 2,
            step: 7,
        }))),
    );

    let node = &proj.snapshot().nodes[node_id];
    assert_eq!(node.run_state, Some(RunState::RoundTrain));
    assert_eq!(node.epoch, 2);
    assert_eq!(node.step, 7);
}

#[test]
fn test_training_finished_records_loss() {
    let mut proj = ClusterProjection::new();
    let node_id = "node-3";

    proj.apply_node_event(
        node_id,
        &make_event(EventData::Train(Train::TrainingFinished(TrainingFinished {
            batch_id: (0, 0),
            step: 5,
            loss: Some(2.5f64.to_bits()),
        }))),
    );

    let node = &proj.snapshot().nodes[node_id];
    let losses: Vec<(u64, f64)> =
        node.losses.iter().map(|(step, bits)| (*step, f64::from_bits(*bits))).collect();
    assert_eq!(losses, vec![(5, 2.5)]);
    assert_eq!(node.step, 5);
}

#[test]
fn test_warmup_resets_on_waiting_for_members() {
    let mut proj = ClusterProjection::new();
    let node_id = "node-4";

    proj.apply_node_event(node_id, &make_event(EventData::Warmup(Warmup::ModelLoadComplete)));
    assert_eq!(proj.snapshot().nodes[node_id].warmup.phase, WarmupPhase::Complete);

    proj.apply_node_event(
        node_id,
        &make_event(EventData::Client(Client::StateChanged(StateChanged {
            old_state: RunState::Cooldown,
            new_state: RunState::WaitingForMembers,
            epoch: 2,
            step: 0,
        }))),
    );
    assert_eq!(proj.snapshot().nodes[node_id].warmup.phase, WarmupPhase::Idle);
}

#[test]
fn test_batch_assigned_tracked() {
    let mut proj = ClusterProjection::new();
    let node_id = "node-5";
    let batch_id: BatchId = (0, 9);

    proj.apply_node_event(
        node_id,
        &make_event(EventData::Train(Train::BatchAssigned(BatchAssigned { batch_id }))),
    );

    let node = &proj.snapshot().nodes[node_id];
    assert!(node.train.batch_downloads.contains_key(&batch_id));
    assert_eq!(node.train.batches_assigned, 1);
}

#[test]
fn test_cooldown_checkpointer_flag() {
    let mut proj = ClusterProjection::new();
    let node_id = "node-6";

    proj.apply_node_event(
        node_id,
        &make_event(EventData::Client(Client::StateChanged(StateChanged {
            old_state: RunState::RoundWitness,
            new_state: RunState::Cooldown,
            epoch: 1,
            step: 10,
        }))),
    );
    assert!(!proj.snapshot().nodes[node_id].cooldown.is_checkpointer);

    proj.apply_node_event(
        node_id,
        &make_event(EventData::Cooldown(Cooldown::ModelSerializationStarted)),
    );
    assert!(proj.snapshot().nodes[node_id].cooldown.is_checkpointer);
}

#[test]
fn test_p2p_gossip_neighbors() {
    let mut proj = ClusterProjection::new();
    let node_id = "node-7";

    let ep1: (u128, u128) = (rand::random(), rand::random());
    let ep2: (u128, u128) = (rand::random(), rand::random());

    proj.apply_node_event(
        node_id,
        &make_event(EventData::P2P(P2P::GossipNeighborUp(GossipNeighborUp { endpoint_id: ep1 }))),
    );
    proj.apply_node_event(
        node_id,
        &make_event(EventData::P2P(P2P::GossipNeighborUp(GossipNeighborUp { endpoint_id: ep2 }))),
    );

    let neighbors = &proj.snapshot().nodes[node_id].p2p.gossip_neighbors;
    assert!(neighbors.contains(&ep1));
    assert!(neighbors.contains(&ep2));

    proj.apply_node_event(
        node_id,
        &make_event(EventData::P2P(P2P::GossipNeighborDown(GossipNeighborDown {
            endpoint_id: ep1,
        }))),
    );

    let neighbors = &proj.snapshot().nodes[node_id].p2p.gossip_neighbors;
    assert!(!neighbors.contains(&ep1));
    assert!(neighbors.contains(&ep2));
}

#[test]
fn test_coordinator_step_batches() {
    let mut proj = ClusterProjection::new();

    let b1: BatchId = (0, 4);
    let b2: BatchId = (5, 9);

    proj.apply_coordinator(report(1, assigned(&[(b1, "node-A"), (b2, "node-B")])));

    assert_eq!(
        proj.snapshot().step_batches.get(&b1).unwrap().assigned_to.as_deref(),
        Some("node-A")
    );
    assert_eq!(
        proj.snapshot().step_batches.get(&b2).unwrap().assigned_to.as_deref(),
        Some("node-B")
    );

    // A new step clears the batches of the old one.
    proj.apply_coordinator(report(2, BatchMap::new()));

    assert!(proj.snapshot().step_batches.is_empty());
}

#[test]
fn test_gossip_and_download_tracking() {
    let mut proj = ClusterProjection::new();
    let b1: BatchId = (0, 4);
    let half = u128::from_be_bytes([42u8; 16]);
    let blob = (half, half);

    // A batch is assigned to node-A.
    proj.apply_coordinator(report(1, assigned(&[(b1, "node-A")])));

    // node-B receives gossip for this batch.
    proj.apply_node_event(
        "node-B",
        &make_event(EventData::P2P(P2P::GossipTrainingResultReceived(
            GossipTrainingResultReceived { blob, batch_id: b1 },
        ))),
    );

    let view = proj.snapshot().step_batches.get(&b1).unwrap();
    assert_eq!(view.blob, Some(blob));
    assert!(view.node_status["node-B"].gossip_received);

    // node-B starts downloading the blob.
    proj.apply_node_event(
        "node-B",
        &make_event(EventData::P2P(P2P::BlobDownloadStarted(BlobDownloadStarted {
            blob,
            size_bytes: 1024,
        }))),
    );
    assert_eq!(
        proj.snapshot().step_batches.get(&b1).unwrap().node_status["node-B"].download,
        DownloadStatus::InProgress,
    );

    // node-B completes the download.
    proj.apply_node_event(
        "node-B",
        &make_event(EventData::P2P(P2P::BlobDownloadCompleted(BlobDownloadCompleted {
            blob,
            result: Ok(()),
        }))),
    );
    assert_eq!(
        proj.snapshot().step_batches.get(&b1).unwrap().node_status["node-B"].download,
        DownloadStatus::Success
    );

    // node-B deserializes it.
    proj.apply_node_event(
        "node-B",
        &make_event(EventData::Train(Train::DistroResultDeserializeComplete(
            DistroResultDeserializeComplete { blob, result: Ok(()) },
        ))),
    );
    assert_eq!(
        proj.snapshot().step_batches.get(&b1).unwrap().node_status["node-B"].deserialized,
        Some(true)
    );

    // node-B applies the distro results.
    proj.apply_node_event(
        "node-B",
        &make_event(EventData::Train(Train::ApplyDistroResultsComplete(
            ApplyDistroResultsComplete(Ok(())),
        ))),
    );
    assert!(proj.snapshot().applied_by.contains("node-B"));
}

#[test]
fn a_new_snapshot_is_of_the_present_and_empty() {
    let before = now();
    let snapshot = ClusterSnapshot::new();
    let after = now();
    assert!(before <= snapshot.timestamp && snapshot.timestamp <= after);
    assert!(snapshot.coordinator.is_none());
    assert!(snapshot.nodes.is_empty());
    assert!(snapshot.step_batches.is_empty());
    assert!(snapshot.prev_step_batches.is_empty());
    assert!(snapshot.step_witnesses.is_empty());
}

#[test]
fn a_snapshot_survives_the_projection() {
    let mut proj = ClusterProjection::from_snapshot(ClusterSnapshot::at(7));
    assert_eq!(proj.snapshot().timestamp, 7);
    proj.apply_node_event("a", &event_at(3, EventData::Warmup(Warmup::ModelLoadStarted)));
    let snapshot = proj.into_snapshot();
    assert_eq!(snapshot.timestamp, 3_000_000_000);
    assert_eq!(snapshot.nodes.len(), 1);
    let again = ClusterProjection::from_snapshot(snapshot);
    assert_eq!(again.snapshot().nodes["a"].warmup.phase, WarmupPhase::LoadingModel);
}

#[test]
fn events_touch_their_own_node_only() {
    let mut proj = ClusterProjection::new();
    for id in ["c", "a", "b"] {
        proj.apply_node_event(id, &make_event(EventData::P2P(P2P::BlobAddedToStore)));
    }
    proj.apply_node_event("a", &make_event(EventData::P2P(P2P::BlobAddedToStore)));
    let stored: Vec<(&str, usize)> = proj
        .snapshot()
        .nodes
        .iter()
        .map(|(id, node)| (id.as_str(), node.p2p.blobs_in_store))
        .collect();
    assert_eq!(stored, vec![("c", 1), ("a", 2), ("b", 1)]);
    assert_eq!(proj.snapshot().nodes["b"].node_id, "b");
}

#[test]
fn warmup_negotiation_does_not_go_back() {
    let mut node = NodeSnapshot::new("n".to_string());
    node.apply(&make_event(EventData::Warmup(Warmup::ModelLoadStarted)));
    node.apply(&make_event(EventData::Warmup(Warmup::P2PParamInfoRequest)));
    assert_eq!(node.warmup.phase, WarmupPhase::LoadingModel);
    node.apply(&make_event(EventData::Warmup(Warmup::CheckpointDownloadStarted(
        CheckpointDownloadStarted { size_bytes: 0 },
    ))));
    assert_eq!(node.warmup.download_total_bytes, None);
    assert_eq!(node.warmup.phase, WarmupPhase::Downloading);
    node.apply(&make_event(EventData::Warmup(Warmup::CheckpointDownloadComplete)));
    assert_eq!(node.warmup.phase.label(), "Downloading");
}

#[test]
fn warmup_phases_have_names() {
    assert_eq!(WarmupPhase::Idle.label(), "Idle");
    assert_eq!(WarmupPhase::NegotiatingP2P.label(), "Negotiating P2P");
    assert_eq!(WarmupPhase::Downloading.label(), "Downloading");
    assert_eq!(WarmupPhase::LoadingModel.label(), "Loading Model");
    assert_eq!(WarmupPhase::Complete.label(), "Complete");
}

#[test]
fn training_is_followed_batch_by_batch() {
    let mut node = NodeSnapshot::new("n".to_string());
    let batch = |b: BatchId| make_event(EventData::Train(Train::BatchAssigned(BatchAssigned { batch_id: b })));
    node.apply(&batch((5, 9)));
    node.apply(&batch((0, 4)));
    node.apply(&batch((5, 9)));
    assert_eq!(node.train.batches_assigned, 3);
    let order: Vec<BatchId> = node.train.batch_downloads.keys().copied().collect();
    assert_eq!(order, vec![(5, 9), (0, 4)]);

    node.apply(&make_event(EventData::Train(Train::BatchDataDownloadComplete(
        BatchDataDownloadComplete { result: Err(()) },
    ))));
    node.apply(&batch((10, 14)));
    node.apply(&make_event(EventData::Train(Train::BatchDataDownloadComplete(
        BatchDataDownloadComplete { result: Ok(()) },
    ))));
    let results: Vec<Option<Result<(), ()>>> =
        node.train.batch_downloads.values().map(|d| d.result).collect();
    assert_eq!(results, vec![Some(Err(())), Some(Err(())), Some(Ok(()))]);

    node.apply(&make_event(EventData::Train(Train::TrainingStarted)));
    assert!(node.train.training_in_progress);
    node.apply(&make_event(EventData::Train(Train::TrainingFinished(TrainingFinished {
        batch_id: (5, 9),
        step: 8,
        loss: None,
    }))));
    assert!(!node.train.training_in_progress);
    assert!(node.losses.is_empty());
    assert_eq!(node.step, 8);

    node.apply(&make_event(EventData::Train(Train::UntrainedBatchWarning(UntrainedBatchWarning {
        batch_id: (0, 4),
        expected_trainer: Some("m".to_string()),
    }))));
    assert_eq!(node.train.untrained_warnings, vec![((0, 4), Some("m".to_string()))]);

    node.apply(&make_event(EventData::Train(Train::ApplyDistroResultsComplete(
        ApplyDistroResultsComplete(Err("no".to_string())),
    ))));
    assert_eq!(node.train.last_distro_ok, Some(false));
    node.apply(&make_event(EventData::Train(Train::ApplyDistroResultsStart)));
    assert_eq!(node.train.last_distro_ok, None);
}

#[test]
fn witnesses_are_those_who_were_elected() {
    let elected = |is_witness: bool| {
        make_event(EventData::Train(Train::WitnessElected(WitnessElected {
            step: 3,
            round: 2,
            epoch: 1,
            index: 4,
            committee_position: 5,
            is_witness,
        })))
    };
    let call = |call_type: RpcCallType| {
        make_event(EventData::CoordinatorEvent(CoordinatorEvent::RpcCallSubmitted(
            RpcCallSubmitted { call_type },
        )))
    };
    let outcome = |result: Result<(), String>| {
        make_event(EventData::CoordinatorEvent(CoordinatorEvent::RpcCallResult(RpcCallResult {
            call_type: RpcCallType::WarmupWitness,
            result,
        })))
    };
    let mut proj = ClusterProjection::new();
    proj.apply_node_event("in", &elected(true));
    proj.apply_node_event("out", &elected(false));
    let info = proj.snapshot().nodes["in"].train.witness.unwrap();
    assert_eq!(
        (info.step, info.round, info.epoch, info.index, info.committee_position),
        (3, 2, 1, 4, 5)
    );
    assert!(proj.snapshot().nodes["out"].train.witness.is_none());
    assert!(proj.snapshot().step_witnesses.contains_key("in"));
    assert!(!proj.snapshot().step_witnesses.contains_key("out"));

    proj.apply_node_event("in", &call(RpcCallType::HealthCheck));
    assert!(!proj.snapshot().step_witnesses["in"].submitted);
    proj.apply_node_event("in", &call(RpcCallType::Witness));
    assert!(proj.snapshot().step_witnesses["in"].submitted);
    proj.apply_node_event("in", &outcome(Err("late".to_string())));
    assert_eq!(proj.snapshot().step_witnesses["in"].rpc_result, Some(false));
    proj.apply_node_event("in", &outcome(Ok(())));
    assert_eq!(proj.snapshot().step_witnesses["in"].rpc_result, Some(true));

    proj.apply_coordinator(report(1, BatchMap::new()));
    assert!(proj.snapshot().step_witnesses.is_empty());
}

#[test]
fn peers_keep_their_latency_when_the_path_changes() {
    let mut node = NodeSnapshot::new("n".to_string());
    let peer = (1u128, 2u128);
    let path = |p: Option<SelectedPath>| {
        make_event(EventData::P2P(P2P::ConnectionChanged(ConnectionChanged {
            endpoint_id: peer,
            connection_path: p,
        })))
    };
    let latency = |ms: u64| {
        make_event(EventData::P2P(P2P::ConnectionLatencyChanged(ConnectionLatencyChanged {
            endpoint_id: peer,
            latency_ms: ms,
        })))
    };
    node.apply(&latency(9));
    assert!(node.p2p.peers.is_empty());
    node.apply(&path(Some(SelectedPath::Relay)));
    assert_eq!(node.p2p.peers[&peer].latency_ms, None);
    node.apply(&latency(12));
    node.apply(&path(Some(SelectedPath::Direct)));
    assert_eq!(node.p2p.peers[&peer].latency_ms, Some(12));
    assert_eq!(node.p2p.peers[&peer].connection_path, Some(SelectedPath::Direct));
}

#[test]
fn downloads_are_followed_to_their_end() {
    let mut node = NodeSnapshot::new("n".to_string());
    let blob = (3u128, 4u128);
    node.apply(&make_event(EventData::P2P(P2P::BlobDownloadProgress(BlobDownloadProgress {
        blob,
        bytes_transferred: 5,
    }))));
    assert!(node.p2p.downloads.is_empty());
    node.apply(&make_event(EventData::P2P(P2P::BlobDownloadStarted(BlobDownloadStarted {
        blob,
        size_bytes: 100,
    }))));
    node.apply(&make_event(EventData::P2P(P2P::BlobDownloadProgress(BlobDownloadProgress {
        blob,
        bytes_transferred: 60,
    }))));
    assert_eq!(node.p2p.downloads[&blob].bytes_transferred, 60);
    assert_eq!(node.p2p.downloads[&blob].size_bytes, 100);
    assert!(node.p2p.downloads[&blob].result.is_none());
    node.apply(&make_event(EventData::P2P(P2P::BlobDownloadCompleted(BlobDownloadCompleted {
        blob,
        result: Err("gone".to_string()),
    }))));
    assert_eq!(node.p2p.downloads[&blob].result, Some(Err("gone".to_string())));
    node.apply(&make_event(EventData::P2P(P2P::BlobUploadStarted(BlobUploadStarted {
        to_endpoint_id: (0, 0),
        size_bytes: 1,
    }))));
    assert!(node.p2p.uploads.is_empty());
    node.apply(&make_event(EventData::P2P(P2P::GossipTrainingResultSent)));
    node.apply(&make_event(EventData::P2P(P2P::GossipFinishedSent)));
    node.apply(&make_event(EventData::P2P(P2P::GossipFinishedReceived)));
    assert_eq!((node.p2p.gossip_sent, node.p2p.gossip_recv), (2, 1));
}

#[test]
fn cooldown_is_followed_to_the_upload() {
    let mut node = NodeSnapshot::new("n".to_string());
    node.apply(&make_event(EventData::Warmup(Warmup::ModelLoadComplete)));
    node.apply(&make_event(EventData::Cooldown(Cooldown::ModelSerializationFinished(
        ModelSerializationFinished { success: false, error_string: Some("full".to_string()) },
    ))));
    node.apply(&make_event(EventData::Cooldown(Cooldown::CheckpointWriteFinished(
        CheckpointWriteFinished { success: true },
    ))));
    node.apply(&make_event(EventData::Cooldown(Cooldown::CheckpointUploadProgress(
        CheckpointUploadProgress { bytes_uploaded: 77 },
    ))));
    node.apply(&make_event(EventData::Cooldown(Cooldown::CheckpointUploadFinished(
        CheckpointUploadFinished { success: false, error_string: Some("slow".to_string()) },
    ))));
    assert_eq!(node.cooldown.serialization_ok, Some(false));
    assert_eq!(node.cooldown.serialization_error.as_deref(), Some("full"));
    assert_eq!(node.cooldown.checkpoint_write_ok, Some(true));
    assert_eq!(node.cooldown.upload_bytes, 77);
    assert_eq!(node.cooldown.upload_ok, Some(false));
    assert_eq!(node.cooldown.upload_error.as_deref(), Some("slow"));
    assert_eq!(node.warmup.phase, WarmupPhase::Complete);
    node.apply(&make_event(EventData::Cooldown(Cooldown::CheckpointUploadFinished(
        CheckpointUploadFinished { success: true, error_string: None },
    ))));
    assert_eq!(node.warmup.phase, WarmupPhase::Idle);
    assert!(!node.warmup.model_loaded);
}

#[test]
fn clients_tell_of_errors() {
    let mut node = NodeSnapshot::new("n".to_string());
    node.apply(&make_event(EventData::Client(Client::Error(ClientError {
        message: "bad".to_string(),
    }))));
    node.apply(&make_event(EventData::Client(Client::Warning(ClientWarning {
        message: "meh".to_string(),
    }))));
    node.apply(&make_event(EventData::Client(Client::HealthCheckFailed(HealthCheckFailed {
        round: 6,
    }))));
    assert_eq!(node.last_error.as_deref(), Some("bad"));
    assert_eq!(node.health_check_steps, vec![6]);
}

#[test]
fn throughput_is_derived_from_two_totals() {
    let mut node = NodeSnapshot::new("n".to_string());
    let totals = |seconds: i64, sent: u64, recv: u64| {
        event_at(
            seconds,
            EventData::ResourceSnapshot(ResourceSnapshot {
                network_bytes_sent_total: sent,
                network_bytes_recv_total: recv,
            }),
        )
    };
    node.apply(&totals(10, 1000, 500));
    assert_eq!((node.network_tx_bps, node.network_rx_bps), (None, None));
    node.apply(&totals(14, 5000, 400));
    assert_eq!((node.network_tx_bps, node.network_rx_bps), (Some(1000), Some(0)));
    // Two snapshots within a second say nothing new.
    node.apply(&totals(14, 9000, 900));
    assert_eq!((node.network_tx_bps, node.network_rx_bps), (Some(1000), Some(0)));
    assert_eq!(node.last_resource.unwrap().0, 14_000_000_000);
}

#[test]
fn seconds_are_whole_and_rounded_down() {
    assert_eq!(seconds_between(0, 999_999_999), 0);
    assert_eq!(seconds_between(0, 2_999_000_000), 2);
    assert_eq!(seconds_between(5_000_000_000, 65_000_000_000), 60);
    // A clock that went back gives a number that nothing can be divided by to any effect.
    assert_eq!(seconds_between(1_000_000_000, 0), (-1000i64 as u64) / 1000);
}

#[test]
fn late_reports_go_to_the_step_before() {
    let mut proj = ClusterProjection::new();
    proj.apply_coordinator(report(1, assigned(&[((0, 4), "a")])));
    proj.apply_node_event(
        "a",
        &make_event(EventData::Train(Train::ApplyDistroResultsComplete(
            ApplyDistroResultsComplete(Ok(())),
        ))),
    );
    proj.apply_coordinator(report(2, assigned(&[((5, 9), "b")])));
    assert!(proj.snapshot().prev_applied_by.contains("a"));
    assert!(!proj.snapshot().applied_by.contains("a"));
    proj.apply_node_event(
        "a",
        &make_event(EventData::Train(Train::TrainingFinished(TrainingFinished {
            batch_id: (0, 4),
            step: 1,
            loss: None,
        }))),
    );
    assert!(proj.snapshot().prev_step_batches.get(&(0, 4)).unwrap().trained);
    assert!(!proj.snapshot().step_batches.get(&(5, 9)).unwrap().trained);
    proj.apply_node_event(
        "a",
        &make_event(EventData::Train(Train::BatchDataDownloadComplete(
            BatchDataDownloadComplete { result: Ok(()) },
        ))),
    );
    let snapshot = proj.snapshot();
    assert_eq!(snapshot.prev_step_batches.get(&(0, 4)).unwrap().data_downloaded, Some(true));
    assert_eq!(snapshot.step_batches.get(&(5, 9)).unwrap().data_downloaded, None);
}

#[test]
fn late_assignments_refresh_the_step() {
    let mut proj = ClusterProjection::new();
    proj.apply_coordinator(report(1, assigned(&[((0, 4), "a")])));
    proj.apply_node_event(
        "a",
        &make_event(EventData::Train(Train::TrainingFinished(TrainingFinished {
            batch_id: (0, 4),
            step: 1,
            loss: None,
        }))),
    );
    proj.apply_coordinator(report(1, assigned(&[((0, 4), "b"), ((5, 9), "c")])));
    let snapshot = proj.snapshot();
    let view = snapshot.step_batches.get(&(0, 4)).unwrap();
    assert_eq!(view.assigned_to.as_deref(), Some("b"));
    assert!(view.trained);
    assert_eq!(
        snapshot.step_batches.get(&(5, 9)).unwrap().assigned_to.as_deref(),
        Some("c")
    );
    // The same report once more changes nothing.
    proj.apply_coordinator(report(1, assigned(&[((0, 4), "b"), ((5, 9), "c")])));
    assert_eq!(proj.snapshot().step_batches.len(), 2);
    assert!(proj.snapshot().step_batches.get(&(0, 4)).unwrap().trained);
}

#[test]
fn batches_stay_in_order() {
    let mut map: BatchMap<u8> = BatchMap::new();
    for b in [(5, 9), (0, 4), (5, 7), (0, 4)] {
        map.insert(b, b.1 as u8);
    }
    let order: Vec<(BatchId, u8)> = (0..map.len())
        .map(|i| map.entry_at(i))
        .map(|(b, v)| (b, *v))
        .collect();
    assert_eq!(order, vec![((0, 4), 4), ((5, 7), 7), ((5, 9), 9)]);
    assert!(map.contains_key(&(5, 7)));
    assert!(map.get(&(1, 1)).is_none());
    *map.get_mut(&(5, 7)).unwrap() = 1;
    assert_eq!(map.get(&(5, 7)), Some(&1));
    let copy = map.clone();
    *map.value_at_mut(0) = 9;
    assert_eq!(map.get(&(0, 4)), Some(&9));
    assert_eq!(copy.get(&(0, 4)), Some(&4));
    assert_eq!(copy.len(), 3);
}

#[test]
fn batches_are_counted_by_step() {
    let mut proj = ClusterProjection::new();
    let moves = |step: u64| {
        make_event(EventData::Client(Client::StateChanged(StateChanged {
            old_state: RunState::RoundWitness,
            new_state: RunState::RoundTrain,
            epoch: 0,
            step,
        })))
    };
    let batch = |b: BatchId| {
        make_event(EventData::Train(Train::BatchAssigned(BatchAssigned { batch_id: b })))
    };
    proj.apply_node_event("node-5", &moves(1));
    proj.apply_node_event("node-5", &batch((0, 9)));
    proj.apply_node_event("node-5", &moves(2));
    assert_eq!(proj.snapshot().nodes["node-5"].train.batches_assigned, 0);
    proj.apply_node_event("node-5", &batch((10, 19)));
    assert_eq!(proj.snapshot().nodes["node-5"].train.batches_assigned, 1);
    proj.apply_node_event("node-5", &moves(2));
    assert_eq!(proj.snapshot().nodes["node-5"].train.batches_assigned, 1);
}

#[test]
fn training_lasts_until_its_end() {
    let mut node = NodeSnapshot::new("n".to_string());
    node.apply(&make_event(EventData::Train(Train::TrainingStarted)));
    node.apply(&make_event(EventData::Train(Train::BatchAssigned(BatchAssigned {
        batch_id: (0, 4),
    }))));
    assert!(node.train.training_in_progress);
}

#[test]
fn an_election_counts_for_its_step() {
    let elected = |step: u64| {
        make_event(EventData::Train(Train::WitnessElected(WitnessElected {
            step,
            round: 0,
            epoch: 0,
            index: 0,
            committee_position: 0,
            is_witness: true,
        })))
    };
    let moves = |step: u64| {
        make_event(EventData::Client(Client::StateChanged(StateChanged {
            old_state: RunState::RoundWitness,
            new_state: RunState::RoundTrain,
            epoch: 0,
            step,
        })))
    };
    let mut node = NodeSnapshot::new("n".to_string());
    node.apply(&elected(2));
    node.apply(&moves(2));
    assert!(node.train.witness.is_some());
    node.apply(&moves(3));
    assert!(node.train.witness.is_none());
}

#[test]
fn trainers_and_receivers_are_apart() {
    let mut proj = ClusterProjection::new();
    proj.apply_coordinator(report(1, assigned(&[((0, 4), "a")])));
    let finished = make_event(EventData::Train(Train::TrainingFinished(TrainingFinished {
        batch_id: (0, 4),
        step: 1,
        loss: None,
    })));
    let gossip = make_event(EventData::P2P(P2P::GossipTrainingResultReceived(
        GossipTrainingResultReceived { blob: (1, 2), batch_id: (0, 4) },
    )));
    proj.apply_node_event("b", &finished);
    assert!(!proj.snapshot().step_batches.get(&(0, 4)).unwrap().trained);
    proj.apply_node_event("a", &finished);
    assert!(proj.snapshot().step_batches.get(&(0, 4)).unwrap().trained);
    proj.apply_node_event("a", &gossip);
    let view = proj.snapshot().step_batches.get(&(0, 4)).unwrap();
    assert_eq!(view.blob, Some((1, 2)));
    assert!(view.node_status.is_empty());
    proj.apply_node_event("b", &gossip);
    let view = proj.snapshot().step_batches.get(&(0, 4)).unwrap();
    assert!(view.node_status["b"].gossip_received);
}

#[test]
fn snapshots_are_copied_whole() {
    let mut proj = ClusterProjection::new();
    proj.apply_coordinator(report(1, assigned(&[((0, 4), "a"), ((5, 9), "b")])));
    let down = |blob| {
        EventData::P2P(P2P::BlobDownloadStarted(BlobDownloadStarted { blob, size_bytes: 7 }))
    };
    for data in [
        EventData::P2P(P2P::GossipNeighborUp(GossipNeighborUp { endpoint_id: (3, 4) })),
        EventData::P2P(P2P::ConnectionChanged(ConnectionChanged {
            endpoint_id: (3, 4),
            connection_path: None,
        })),
        EventData::P2P(P2P::GossipTrainingResultReceived(GossipTrainingResultReceived {
            blob: (1, 2),
            batch_id: (0, 4),
        })),
        down((1, 2)),
        down((9, 9)),
        EventData::Train(Train::BatchAssigned(BatchAssigned { batch_id: (5, 9) })),
        EventData::Train(Train::WitnessElected(WitnessElected {
            step: 1,
            round: 0,
            epoch: 0,
            index: 0,
            committee_position: 0,
            is_witness: true,
        })),
        EventData::Train(Train::UntrainedBatchWarning(UntrainedBatchWarning {
            batch_id: (0, 4),
            expected_trainer: Some("a".to_string()),
        })),
        EventData::Train(Train::ApplyDistroResultsComplete(ApplyDistroResultsComplete(Ok(())))),
    ] {
        proj.apply_node_event("b", &make_event(data));
    }
    let copy = proj.snapshot().clone();
    assert_eq!(format!("{copy:?}"), format!("{:?}", proj.snapshot()));
    assert_eq!(copy.nodes["b"].p2p.downloads.len(), 2);
    proj.apply_node_event("c", &make_event(EventData::P2P(P2P::GossipFinishedSent)));
    assert_eq!(copy.nodes.len(), 1);
}

#[test]
fn counters_without_room_are_left_alone() {
    let mut snapshot = ClusterSnapshot::at(1);
    let mut node = NodeSnapshot::new("full".to_string());
    node.p2p.gossip_sent = u32::MAX;
    snapshot.nodes.insert("full".to_string(), node);
    let mut proj = ClusterProjection::from_snapshot(snapshot);
    let sent = event_at(5, EventData::P2P(P2P::GossipFinishedSent));
    let received = event_at(6, EventData::P2P(P2P::GossipFinishedReceived));
    assert!(!proj.apply_if_room("full", &sent));
    assert_eq!(proj.snapshot().timestamp, 1);
    assert!(proj.apply_if_room("full", &received));
    assert!(proj.apply_if_room("new", &sent));
    assert_eq!(proj.snapshot().nodes["full"].p2p.gossip_sent, u32::MAX);
    assert_eq!(proj.snapshot().nodes["full"].p2p.gossip_recv, 1);
    assert_eq!(proj.snapshot().nodes["new"].p2p.gossip_sent, 1);
    assert_eq!(proj.snapshot().timestamp, 5_000_000_000);
}
