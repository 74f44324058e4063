//! How an event changes the node that reported it.

use vstd::prelude::*;

use super::maps::{
    batch_downloads_at_mut, batch_downloads_entry, batch_downloads_len, batch_downloads_new,
    batch_downloads_of, downloads_get_mut, downloads_insert, downloads_new, downloads_of, peers_get, peers_get_mut,
    peers_insert, peers_new, peers_of, present_or, uploads_new, uploads_of,
};
use super::snapshots::{
    BatchDownload, BlobDownloadTransfer, BlobUploadTransfer, CooldownSnapshot, NodeSnapshot, P2PSnapshot,
    PeerInfo, TrainSnapshot, WarmupPhase, WarmupSnapshot, WitnessInfo,
};
use crate::batch_map::BatchId;
use crate::coordinator::RunState;
use crate::events::{
    Client, Cooldown, Event, EventData, ResourceSnapshot, Train, Warmup, WitnessElected, P2P,
};
use crate::keyed::{lookup, put};
use crate::sets::{BlobHash, EndpointId, IdSet};

verus! {

/// A node's peer-to-peer state.
#[verifier::ext_equal]
pub struct P2PModel {
    pub peers: Seq<(EndpointId, PeerInfo)>,
    pub gossip_neighbors: Set<EndpointId>,
    pub uploads: Seq<(BlobHash, BlobUploadTransfer)>,
    pub downloads: Seq<(BlobHash, BlobDownloadTransfer)>,
    pub blobs_in_store: usize,
    pub gossip_sent: u32,
    pub gossip_recv: u32,
}

/// A node's training state.
#[verifier::ext_equal]
pub struct TrainModel {
    pub batches_assigned: u64,
    pub batch_downloads: Seq<(BatchId, BatchDownload)>,
    pub training_in_progress: bool,
    pub witness: Option<WitnessInfo>,
    pub last_distro_ok: Option<bool>,
    pub untrained_warnings: Seq<(BatchId, Option<String>)>,
}

/// All that is known of a node.
#[verifier::ext_equal]
pub struct NodeModel {
    pub node_id: Seq<char>,
    pub run_state: Option<RunState>,
    pub epoch: u64,
    pub step: u64,
    pub warmup: WarmupSnapshot,
    pub losses: Seq<(u64, u64)>,
    pub health_check_steps: Seq<u64>,
    pub last_error: Option<String>,
    pub network_tx_bps: Option<u64>,
    pub network_rx_bps: Option<u64>,
    pub p2p: P2PModel,
    pub train: TrainModel,
    pub cooldown: CooldownSnapshot,
    pub last_resource: Option<(i64, ResourceSnapshot)>,
}

impl View for P2PSnapshot {
    type V = P2PModel;

    open spec fn view(&self) -> P2PModel {
        P2PModel {
            peers: peers_of(self.peers),
            gossip_neighbors: self.gossip_neighbors@,
            uploads: uploads_of(self.uploads),
            downloads: downloads_of(self.downloads),
            blobs_in_store: self.blobs_in_store,
            gossip_sent: self.gossip_sent,
            gossip_recv: self.gossip_recv,
        }
    }
}

impl View for TrainSnapshot {
    type V = TrainModel;

    open spec fn view(&self) -> TrainModel {
        TrainModel {
            batches_assigned: self.batches_assigned,
            batch_downloads: batch_downloads_of(self.batch_downloads),
            training_in_progress: self.training_in_progress,
            witness: self.witness,
            last_distro_ok: self.last_distro_ok,
            untrained_warnings: self.untrained_warnings@,
        }
    }
}

impl View for NodeSnapshot {
    type V = NodeModel;

    open spec fn view(&self) -> NodeModel {
        NodeModel {
            node_id: self.node_id@,
            run_state: self.run_state,
            epoch: self.epoch,
            step: self.step,
            warmup: self.warmup,
            losses: self.losses@,
            health_check_steps: self.health_check_steps@,
            last_error: self.last_error,
            network_tx_bps: self.network_tx_bps,
            network_rx_bps: self.network_rx_bps,
            p2p: self.p2p@,
            train: self.train@,
            cooldown: self.cooldown,
            last_resource: self.last_resource,
        }
    }
}

/// Warmup that has not begun.
pub open spec fn idle_warmup() -> WarmupSnapshot {
    WarmupSnapshot {
        phase: WarmupPhase::Idle,
        download_total_bytes: None,
        download_bytes: 0,
        model_loaded: false,
    }
}

/// Cooldown that has not begun.
pub open spec fn idle_cooldown() -> CooldownSnapshot {
    CooldownSnapshot {
        is_checkpointer: false,
        serialization_ok: None,
        serialization_error: None,
        checkpoint_write_ok: None,
        upload_bytes: 0,
        upload_ok: None,
        upload_error: None,
    }
}

impl P2PModel {
    /// No peer, no transfer, nothing counted.
    pub open spec fn fresh() -> P2PModel {
        P2PModel {
            peers: Seq::empty(),
            gossip_neighbors: Set::empty(),
            uploads: Seq::empty(),
            downloads: Seq::empty(),
            blobs_in_store: 0,
            gossip_sent: 0,
            gossip_recv: 0,
        }
    }

    /// A counter that the event advances still has room.
    pub open spec fn has_room(self, event: P2P) -> bool {
        match event {
            P2P::BlobAddedToStore => self.blobs_in_store < usize::MAX,
            P2P::GossipTrainingResultSent | P2P::GossipFinishedSent => self.gossip_sent < u32::MAX,
            P2P::GossipTrainingResultReceived(_) | P2P::GossipFinishedReceived => self.gossip_recv
                < u32::MAX,
            _ => true,
        }
    }

    /// The state after a peer-to-peer event.
    pub open spec fn after(self, event: P2P) -> P2PModel {
        match event {
            P2P::ConnectionChanged(cc) => P2PModel {
                peers: put(
                    self.peers,
                    cc.endpoint_id,
                    PeerInfo {
                        connection_path: cc.connection_path,
                        latency_ms: match lookup(self.peers, cc.endpoint_id) {
                            Some(p) => p.latency_ms,
                            None => None,
                        },
                    },
                ),
                ..self
            },
            P2P::GossipNeighborUp(up) => P2PModel {
                gossip_neighbors: self.gossip_neighbors.insert(up.endpoint_id),
                ..self
            },
            P2P::GossipNeighborDown(down) => P2PModel {
                gossip_neighbors: self.gossip_neighbors.remove(down.endpoint_id),
                ..self
            },
            P2P::ConnectionLatencyChanged(clc) => match lookup(self.peers, clc.endpoint_id) {
                Some(p) => P2PModel {
                    peers: put(
                        self.peers,
                        clc.endpoint_id,
                        PeerInfo { latency_ms: Some(clc.latency_ms), ..p },
                    ),
                    ..self
                },
                None => self,
            },
            P2P::BlobAddedToStore => P2PModel {
                blobs_in_store: (self.blobs_in_store + 1) as usize,
                ..self
            },
            P2P::BlobDownloadStarted(bds) => P2PModel {
                downloads: put(
                    self.downloads,
                    bds.blob,
                    BlobDownloadTransfer {
                        size_bytes: bds.size_bytes,
                        bytes_transferred: 0,
                        result: None,
                    },
                ),
                ..self
            },
            P2P::BlobDownloadProgress(bdp) => match lookup(self.downloads, bdp.blob) {
                Some(t) => P2PModel {
                    downloads: put(
                        self.downloads,
                        bdp.blob,
                        BlobDownloadTransfer { bytes_transferred: bdp.bytes_transferred, ..t },
                    ),
                    ..self
                },
                None => self,
            },
            P2P::BlobDownloadCompleted(bdc) => match lookup(self.downloads, bdc.blob) {
                Some(t) => P2PModel {
                    downloads: put(
                        self.downloads,
                        bdc.blob,
                        BlobDownloadTransfer { result: Some(bdc.result), ..t },
                    ),
                    ..self
                },
                None => self,
            },
            P2P::GossipTrainingResultSent | P2P::GossipFinishedSent => P2PModel {
                gossip_sent: (self.gossip_sent + 1) as u32,
                ..self
            },
            P2P::GossipTrainingResultReceived(_) | P2P::GossipFinishedReceived => P2PModel {
                gossip_recv: (self.gossip_recv + 1) as u32,
                ..self
            },
            _ => self,
        }
    }
}

/// The election that an event reports, for a node that was elected.
pub open spec fn election(we: WitnessElected) -> WitnessInfo {
    WitnessInfo {
        step: we.step,
        round: we.round,
        epoch: we.epoch,
        index: we.index,
        committee_position: we.committee_position,
    }
}

/// Every download that was pending ends with `result`.
pub open spec fn settled(s: Seq<(BatchId, BatchDownload)>, result: Result<(), ()>) -> Seq<
    (BatchId, BatchDownload),
> {
    s.map_values(
        |e: (BatchId, BatchDownload)|
            if e.1.result is None {
                (e.0, BatchDownload { result: Some(result) })
            } else {
                e
            },
    )
}

impl TrainModel {
    /// Nothing assigned, nothing trained.
    pub open spec fn fresh() -> TrainModel {
        TrainModel {
            batches_assigned: 0,
            batch_downloads: Seq::empty(),
            training_in_progress: false,
            witness: None,
            last_distro_ok: None,
            untrained_warnings: Seq::empty(),
        }
    }

    /// The state when the node moves to another step: batches are counted anew, and an election
    /// counts for its own step alone.
    pub open spec fn at_step(self, step: u64) -> TrainModel {
        TrainModel {
            batches_assigned: 0,
            witness: match self.witness {
                Some(w) if w.step == step => Some(w),
                _ => None,
            },
            ..self
        }
    }

    /// A counter that the event advances still has room.
    pub open spec fn has_room(self, event: Train) -> bool {
        event is BatchAssigned ==> self.batches_assigned < u64::MAX
    }

    /// The state after a training event.
    pub open spec fn after(self, event: Train) -> TrainModel {
        match event {
            Train::BatchAssigned(ba) => TrainModel {
                batches_assigned: (self.batches_assigned + 1) as u64,
                batch_downloads: put(
                    self.batch_downloads,
                    ba.batch_id,
                    present_or(self.batch_downloads, ba.batch_id, BatchDownload { result: None }),
                ),
                witness: None,
                ..self
            },
            Train::BatchDataDownloadComplete(c) => TrainModel {
                batch_downloads: settled(self.batch_downloads, c.result),
                ..self
            },
            Train::TrainingStarted => TrainModel { training_in_progress: true, ..self },
            Train::TrainingFinished(_) => TrainModel { training_in_progress: false, ..self },
            Train::WitnessElected(we) => TrainModel {
                witness: if we.is_witness {
                    Some(election(we))
                } else {
                    None
                },
                ..self
            },
            Train::UntrainedBatchWarning(w) => TrainModel {
                untrained_warnings: self.untrained_warnings.push((w.batch_id, w.expected_trainer)),
                ..self
            },
            Train::ApplyDistroResultsStart => TrainModel { last_distro_ok: None, ..self },
            Train::ApplyDistroResultsComplete(arc) => TrainModel {
                last_distro_ok: Some(arc.0 is Ok),
                ..self
            },
            _ => self,
        }
    }
}

/// The warmup state after a warmup event.
pub open spec fn warmup_after(w: WarmupSnapshot, event: Warmup) -> WarmupSnapshot {
    match event {
        Warmup::P2PParamInfoRequest | Warmup::P2PParamInfoResponse => if w.phase == WarmupPhase::Idle {
            WarmupSnapshot { phase: WarmupPhase::NegotiatingP2P, ..w }
        } else {
            w
        },
        Warmup::CheckpointDownloadStarted(cds) => WarmupSnapshot {
            phase: WarmupPhase::Downloading,
            download_total_bytes: if cds.size_bytes > 0 {
                Some(cds.size_bytes)
            } else {
                None
            },
            download_bytes: 0,
            ..w
        },
        Warmup::CheckpointDownloadProgress(cdp) => WarmupSnapshot {
            download_bytes: cdp.bytes_downloaded,
            ..w
        },
        Warmup::CheckpointDownloadComplete => w,
        Warmup::ModelLoadStarted => WarmupSnapshot { phase: WarmupPhase::LoadingModel, ..w },
        Warmup::ModelLoadComplete => WarmupSnapshot {
            phase: WarmupPhase::Complete,
            model_loaded: true,
            ..w
        },
    }
}

/// The cooldown state after a cooldown event.
pub open spec fn cooldown_after(c: CooldownSnapshot, event: Cooldown) -> CooldownSnapshot {
    match event {
        Cooldown::ModelSerializationStarted => CooldownSnapshot { is_checkpointer: true, ..c },
        Cooldown::ModelSerializationFinished(msf) => CooldownSnapshot {
            serialization_ok: Some(msf.success),
            serialization_error: msf.error_string,
            ..c
        },
        Cooldown::CheckpointWriteStarted => c,
        Cooldown::CheckpointWriteFinished(cwf) => CooldownSnapshot {
            checkpoint_write_ok: Some(cwf.success),
            ..c
        },
        Cooldown::CheckpointUploadStarted => c,
        Cooldown::CheckpointUploadProgress(cup) => CooldownSnapshot {
            upload_bytes: cup.bytes_uploaded,
            ..c
        },
        Cooldown::CheckpointUploadFinished(cuf) => CooldownSnapshot {
            upload_ok: Some(cuf.success),
            upload_error: cuf.error_string,
            ..c
        },
    }
}

/// A duration in nanoseconds in whole milliseconds, rounded toward zero.
pub open spec fn whole_millis(nanos: int) -> int {
    if nanos >= 0 {
        nanos / 1_000_000
    } else {
        -((-nanos) / 1_000_000)
    }
}

/// The seconds from `from` to `to` by which throughput is divided: whole milliseconds, taken
/// modulo 2^64, cut to whole seconds.
pub open spec fn elapsed_secs(from: i64, to: i64) -> int {
    let ms = whole_millis(to - from);
    if ms >= 0 {
        ms / 1000
    } else {
        (ms + 0x1_0000_0000_0000_0000) / 1000
    }
}

/// The growth of a counter per second; a counter that fell has not grown.
pub open spec fn growth_rate(before: u64, now: u64, secs: int) -> u64 {
    (if now >= before {
        (now - before) / secs
    } else {
        0
    }) as u64
}

impl NodeModel {
    /// A node of which nothing is known but its name.
    pub open spec fn fresh(node_id: Seq<char>) -> NodeModel {
        NodeModel {
            node_id,
            run_state: None,
            epoch: 0,
            step: 0,
            warmup: idle_warmup(),
            losses: Seq::empty(),
            health_check_steps: Seq::empty(),
            last_error: None,
            network_tx_bps: None,
            network_rx_bps: None,
            p2p: P2PModel::fresh(),
            train: TrainModel::fresh(),
            cooldown: idle_cooldown(),
            last_resource: None,
        }
    }

    /// A counter that the event advances still has room.
    pub open spec fn has_room(self, event: EventData) -> bool {
        match event {
            EventData::Train(t) => self.train.has_room(t),
            EventData::P2P(p) => self.p2p.has_room(p),
            _ => true,
        }
    }

    /// The node after a client event.
    pub open spec fn after_client(self, event: Client) -> NodeModel {
        match event {
            Client::StateChanged(sc) => NodeModel {
                run_state: Some(sc.new_state),
                epoch: sc.epoch,
                step: sc.step,
                warmup: if sc.new_state == RunState::WaitingForMembers {
                    idle_warmup()
                } else {
                    self.warmup
                },
                cooldown: if sc.new_state == RunState::Cooldown {
                    idle_cooldown()
                } else {
                    self.cooldown
                },
                train: if sc.step != self.step {
                    self.train.at_step(sc.step)
                } else {
                    self.train
                },
                ..self
            },
            Client::HealthCheckFailed(hcf) => NodeModel {
                health_check_steps: self.health_check_steps.push(hcf.round),
                ..self
            },
            Client::Error(e) => NodeModel { last_error: Some(e.message), ..self },
            Client::Warning(_) => self,
        }
    }

    /// The node after a training event.
    pub open spec fn after_train(self, event: Train) -> NodeModel {
        let train = self.train.after(event);
        match event {
            Train::TrainingFinished(tf) => NodeModel {
                train,
                step: tf.step,
                losses: match tf.loss {
                    Some(loss) => self.losses.push((tf.step, loss)),
                    None => self.losses,
                },
                ..self
            },
            _ => NodeModel { train, ..self },
        }
    }

    /// The node after a cooldown event. A finished upload ends the warmup state too.
    pub open spec fn after_cooldown(self, event: Cooldown) -> NodeModel {
        NodeModel {
            cooldown: cooldown_after(self.cooldown, event),
            warmup: match event {
                Cooldown::CheckpointUploadFinished(cuf) => if cuf.success {
                    idle_warmup()
                } else {
                    self.warmup
                },
                _ => self.warmup,
            },
            ..self
        }
    }

    /// The node after a resource snapshot taken at `timestamp`. Throughput is known once two
    /// snapshots lie at least a second apart.
    pub open spec fn after_resource(self, timestamp: i64, rs: ResourceSnapshot) -> NodeModel {
        let seen = NodeModel { last_resource: Some((timestamp, rs)), ..self };
        match self.last_resource {
            Some((then, prev)) => {
                let secs = elapsed_secs(then, timestamp);
                if secs == 0 {
                    seen
                } else {
                    NodeModel {
                        network_tx_bps: Some(
                            growth_rate(
                                prev.network_bytes_sent_total,
                                rs.network_bytes_sent_total,
                                secs,
                            ),
                        ),
                        network_rx_bps: Some(
                            growth_rate(
                                prev.network_bytes_recv_total,
                                rs.network_bytes_recv_total,
                                secs,
                            ),
                        ),
                        ..seen
                    }
                }
            },
            None => seen,
        }
    }

    /// The node after an event of its own.
    pub open spec fn after(self, event: Event) -> NodeModel {
        match event.data {
            EventData::Client(c) => self.after_client(c),
            EventData::Train(t) => self.after_train(t),
            EventData::Warmup(w) => NodeModel { warmup: warmup_after(self.warmup, w), ..self },
            EventData::Cooldown(c) => self.after_cooldown(c),
            EventData::P2P(p) => NodeModel { p2p: self.p2p.after(p), ..self },
            EventData::ResourceSnapshot(rs) => self.after_resource(event.timestamp, rs),
            EventData::CoordinatorEvent(_) => self,
        }
    }
}

impl WarmupPhase {
    /// The phase in words.
    pub fn label(&self) -> (r: &'static str)
        ensures
            r@ == (match self {
                WarmupPhase::Idle => "Idle"@,
                WarmupPhase::NegotiatingP2P => "Negotiating P2P"@,
                WarmupPhase::Downloading => "Downloading"@,
                WarmupPhase::LoadingModel => "Loading Model"@,
                WarmupPhase::Complete => "Complete"@,
            }),
    {
        match self {
            WarmupPhase::Idle => "Idle",
            WarmupPhase::NegotiatingP2P => "Negotiating P2P",
            WarmupPhase::Downloading => "Downloading",
            WarmupPhase::LoadingModel => "Loading Model",
            WarmupPhase::Complete => "Complete",
        }
    }
}

impl Default for WarmupPhase {
    fn default() -> (r: Self)
        ensures
            r == WarmupPhase::Idle,
    {
        WarmupPhase::Idle
    }
}

impl Default for WarmupSnapshot {
    fn default() -> (r: Self)
        ensures
            r == idle_warmup(),
    {
        WarmupSnapshot {
            phase: WarmupPhase::Idle,
            download_total_bytes: None,
            download_bytes: 0,
            model_loaded: false,
        }
    }
}

impl Default for CooldownSnapshot {
    fn default() -> (r: Self)
        ensures
            r == idle_cooldown(),
    {
        CooldownSnapshot {
            is_checkpointer: false,
            serialization_ok: None,
            serialization_error: None,
            checkpoint_write_ok: None,
            upload_bytes: 0,
            upload_ok: None,
            upload_error: None,
        }
    }
}

impl Default for P2PSnapshot {
    fn default() -> (r: Self)
        ensures
            r@ == P2PModel::fresh(),
    {
        P2PSnapshot {
            peers: peers_new(),
            gossip_neighbors: IdSet::new(),
            uploads: uploads_new(),
            downloads: downloads_new(),
            blobs_in_store: 0,
            gossip_sent: 0,
            gossip_recv: 0,
        }
    }
}

impl Default for TrainSnapshot {
    fn default() -> (r: Self)
        ensures
            r@ == TrainModel::fresh(),
    {
        TrainSnapshot {
            batches_assigned: 0,
            batch_downloads: batch_downloads_new(),
            training_in_progress: false,
            witness: None,
            last_distro_ok: None,
            untrained_warnings: Vec::new(),
        }
    }
}

/// A copy of an optional text.
pub(crate) fn clone_text(text: &Option<String>) -> (r: Option<String>)
    ensures
        r == *text,
{
    match text {
        Some(t) => Some(t.clone()),
        None => None,
    }
}

/// A copy of an outcome.
pub(crate) fn clone_outcome(outcome: &Result<(), String>) -> (r: Result<(), String>)
    ensures
        r == *outcome,
{
    match outcome {
        Ok(u) => Ok(*u),
        Err(e) => Err(e.clone()),
    }
}

impl P2PSnapshot {
    /// Takes in a peer-to-peer event.
    pub fn apply(&mut self, event: &P2P)
        requires
            old(self)@.has_room(*event),
        ensures
            final(self)@ == old(self)@.after(*event),
    {
        match event {
            P2P::ConnectionChanged(cc) => {
                let latency: Option<u64> = match peers_get(&self.peers, &cc.endpoint_id) {
                    Some(p) => p.latency_ms,
                    None => None,
                };
                peers_insert(
                    &mut self.peers,
                    cc.endpoint_id,
                    PeerInfo { connection_path: cc.connection_path, latency_ms: latency },
                );
            },
            P2P::GossipNeighborUp(up) => {
                self.gossip_neighbors.insert(up.endpoint_id);
            },
            P2P::GossipNeighborDown(down) => {
                self.gossip_neighbors.remove(&down.endpoint_id);
            },
            P2P::ConnectionLatencyChanged(clc) => {
                if let Some(p) = peers_get_mut(&mut self.peers, &clc.endpoint_id) {
                    p.latency_ms = Some(clc.latency_ms);
                }
            },
            P2P::BlobAddedToStore => {
                self.blobs_in_store = self.blobs_in_store + 1;
            },
            P2P::BlobDownloadStarted(bds) => {
                downloads_insert(
                    &mut self.downloads,
                    bds.blob,
                    BlobDownloadTransfer {
                        size_bytes: bds.size_bytes,
                        bytes_transferred: 0,
                        result: None,
                    },
                );
            },
            P2P::BlobDownloadProgress(bdp) => {
                if let Some(t) = downloads_get_mut(&mut self.downloads, &bdp.blob) {
                    t.bytes_transferred = bdp.bytes_transferred;
                }
            },
            P2P::BlobDownloadCompleted(bdc) => {
                if let Some(t) = downloads_get_mut(&mut self.downloads, &bdc.blob) {
                    t.result = Some(clone_outcome(&bdc.result));
                }
            },
            P2P::GossipTrainingResultSent | P2P::GossipFinishedSent => {
                self.gossip_sent = self.gossip_sent + 1;
            },
            P2P::GossipTrainingResultReceived(_) | P2P::GossipFinishedReceived => {
                self.gossip_recv = self.gossip_recv + 1;
            },
            // Uploads are not followed: their events do not name the blob.
            P2P::BlobUploadStarted(_) | P2P::BlobUploadProgress | P2P::BlobUploadCompleted => {},
            P2P::GossipLagged | P2P::BlobDownloadRequested | P2P::BlobDownloadTryProvider
            | P2P::BlobDownloadProviderFailed => {},
        }
    }
}

impl TrainSnapshot {
    /// Takes in a training event.
    pub fn apply(&mut self, event: &Train)
        requires
            old(self)@.has_room(*event),
        ensures
            final(self)@ == old(self)@.after(*event),
    {
        match event {
            Train::BatchAssigned(ba) => {
                self.batches_assigned = self.batches_assigned + 1;
                batch_downloads_entry(
                    &mut self.batch_downloads,
                    ba.batch_id,
                    BatchDownload { result: None },
                );
                self.witness = None;
            },
            Train::BatchDataDownloadComplete(c) => {
                self.settle_downloads(c.result);
            },
            Train::TrainingStarted => {
                self.training_in_progress = true;
            },
            Train::TrainingFinished(_) => {
                self.training_in_progress = false;
            },
            Train::WitnessElected(we) => {
                self.witness =
                if we.is_witness {
                    Some(elected(we))
                } else {
                    None
                };
            },
            Train::UntrainedBatchWarning(w) => {
                self.untrained_warnings.push((w.batch_id, clone_text(&w.expected_trainer)));
            },
            Train::ApplyDistroResultsStart => {
                self.last_distro_ok = None;
            },
            Train::ApplyDistroResultsComplete(arc) => {
                self.last_distro_ok = Some(arc.0.is_ok());
            },
            Train::BatchDataDownloadStart | Train::DistroResultDeserializeStarted
            | Train::DistroResultDeserializeComplete(_) | Train::DistroResultAddedToConsensus => {},
        }
    }

    /// Moves on to another step.
    fn begin_step(&mut self, step: u64)
        ensures
            final(self)@ == old(self)@.at_step(step),
    {
        self.batches_assigned = 0;
        let stays = match &self.witness {
            Some(w) => w.step == step,
            None => false,
        };
        if !stays {
            self.witness = None;
        }
    }

    /// Ends every pending download with `result`.
    fn settle_downloads(&mut self, result: Result<(), ()>)
        ensures
            final(self)@ == (TrainModel {
                batch_downloads: settled(old(self)@.batch_downloads, result),
                ..old(self)@
            }),
    {
        let ghost before = batch_downloads_of(self.batch_downloads);
        let ghost after = settled(before, result);
        let n: usize = batch_downloads_len(&self.batch_downloads);
        let mut i: usize = 0;
        while i < n
            invariant
                i <= n == before.len(),
                before == old(self)@.batch_downloads,
                after == settled(before, result),
                batch_downloads_of(self.batch_downloads) == after.take(i as int) + before.skip(
                    i as int,
                ),
                self@ == (TrainModel { batch_downloads: self@.batch_downloads, ..old(self)@ }),
            decreases n - i,
        {
            let ghost now = batch_downloads_of(self.batch_downloads);
            assert(now[i as int] == before[i as int]);
            if let Some(dl) = batch_downloads_at_mut(&mut self.batch_downloads, i) {
                if dl.result.is_none() {
                    dl.result = Some(result);
                }
            }
            assert(batch_downloads_of(self.batch_downloads) =~= after.take(i as int + 1)
                + before.skip(i as int + 1));
            i = i + 1;
        }
        assert(after.take(i as int) + before.skip(i as int) =~= after);
    }
}

/// The election that an event reports, for a node that was elected.
pub(crate) fn elected(we: &WitnessElected) -> (r: WitnessInfo)
    ensures
        r == election(*we),
{
    WitnessInfo {
        step: we.step,
        round: we.round,
        epoch: we.epoch,
        index: we.index,
        committee_position: we.committee_position,
    }
}

impl WarmupSnapshot {
    /// Takes in a warmup event.
    pub fn apply(&mut self, event: &Warmup)
        ensures
            *final(self) == warmup_after(*old(self), *event),
    {
        match event {
            Warmup::P2PParamInfoRequest | Warmup::P2PParamInfoResponse => {
                if self.phase == WarmupPhase::Idle {
                    self.phase = WarmupPhase::NegotiatingP2P;
                }
            },
            Warmup::CheckpointDownloadStarted(cds) => {
                self.phase = WarmupPhase::Downloading;
                self.download_total_bytes =
                if cds.size_bytes > 0 {
                    Some(cds.size_bytes)
                } else {
                    None
                };
                self.download_bytes = 0;
            },
            Warmup::CheckpointDownloadProgress(cdp) => {
                self.download_bytes = cdp.bytes_downloaded;
            },
            Warmup::CheckpointDownloadComplete => {},
            Warmup::ModelLoadStarted => {
                self.phase = WarmupPhase::LoadingModel;
            },
            Warmup::ModelLoadComplete => {
                self.phase = WarmupPhase::Complete;
                self.model_loaded = true;
            },
        }
    }
}

impl CooldownSnapshot {
    /// Takes in a cooldown event.
    pub fn apply(&mut self, event: &Cooldown)
        ensures
            *final(self) == cooldown_after(*old(self), *event),
    {
        match event {
            Cooldown::ModelSerializationStarted => {
                self.is_checkpointer = true;
            },
            Cooldown::ModelSerializationFinished(msf) => {
                self.serialization_ok = Some(msf.success);
                self.serialization_error = clone_text(&msf.error_string);
            },
            Cooldown::CheckpointWriteStarted => {},
            Cooldown::CheckpointWriteFinished(cwf) => {
                self.checkpoint_write_ok = Some(cwf.success);
            },
            Cooldown::CheckpointUploadStarted => {},
            Cooldown::CheckpointUploadProgress(cup) => {
                self.upload_bytes = cup.bytes_uploaded;
            },
            Cooldown::CheckpointUploadFinished(cuf) => {
                self.upload_ok = Some(cuf.success);
                self.upload_error = clone_text(&cuf.error_string);
            },
        }
    }
}

/// `chrono::DateTime` subtraction and `TimeDelta::num_milliseconds`, on moments given in
/// nanoseconds since the Unix epoch: the whole milliseconds from `from` to `to`, rounded toward
/// zero.
#[verifier::external_body]
fn millis_between(from: i64, to: i64) -> (r: i64)
    ensures
        r == whole_millis(to - from),
{
    (chrono::DateTime::from_timestamp_nanos(to) - chrono::DateTime::from_timestamp_nanos(from)).num_milliseconds()
}

/// The seconds from `from` to `to` by which throughput is divided.
pub fn seconds_between(from: i64, to: i64) -> (r: u64)
    ensures
        r == elapsed_secs(from, to),
{
    let ms: i64 = millis_between(from, to);
    let wrapped: u64 = ms as u64;
    proof {
        if ms >= 0 {
            assert(wrapped == ms);
        } else {
            assert(ms as u64 == ms + 0x1_0000_0000_0000_0000) by (bit_vector)
                requires
                    ms < 0,
            ;
        }
    }
    wrapped / 1000
}

impl NodeSnapshot {
    /// Whether the counter that an event advances, if it advances one, still has room.
    pub fn has_room_for(&self, data: &EventData) -> (r: bool)
        ensures
            r == self@.has_room(*data),
    {
        match data {
            EventData::Train(Train::BatchAssigned(_)) => self.train.batches_assigned < u64::MAX,
            EventData::P2P(p2p) => match p2p {
                P2P::BlobAddedToStore => self.p2p.blobs_in_store < usize::MAX,
                P2P::GossipTrainingResultSent | P2P::GossipFinishedSent => self.p2p.gossip_sent
                    < u32::MAX,
                P2P::GossipTrainingResultReceived(_) | P2P::GossipFinishedReceived =>
                    self.p2p.gossip_recv < u32::MAX,
                _ => true,
            },
            _ => true,
        }
    }
}

impl NodeSnapshot {
    /// A node of which nothing is known but its name.
    pub fn new(node_id: String) -> (r: Self)
        ensures
            r@ == NodeModel::fresh(node_id@),
    {
        NodeSnapshot {
            node_id,
            run_state: None,
            epoch: 0,
            step: 0,
            warmup: WarmupSnapshot::default(),
            losses: Vec::new(),
            health_check_steps: Vec::new(),
            last_error: None,
            network_tx_bps: None,
            network_rx_bps: None,
            p2p: P2PSnapshot::default(),
            train: TrainSnapshot::default(),
            cooldown: CooldownSnapshot::default(),
            last_resource: None,
        }
    }

    fn apply_client(&mut self, event: &Client)
        ensures
            final(self)@ == old(self)@.after_client(*event),
    {
        match event {
            Client::StateChanged(sc) => {
                self.run_state = Some(sc.new_state);
                self.epoch = sc.epoch;
                if sc.step != self.step {
                    self.train.begin_step(sc.step);
                }
                self.step = sc.step;
                if sc.new_state == RunState::WaitingForMembers {
                    self.warmup = WarmupSnapshot::default();
                }
                if sc.new_state == RunState::Cooldown {
                    self.cooldown = CooldownSnapshot::default();
                }
            },
            Client::HealthCheckFailed(hcf) => {
                self.health_check_steps.push(hcf.round);
            },
            Client::Error(e) => {
                self.last_error = Some(e.message.clone());
            },
            Client::Warning(_) => {},
        }
    }

    fn apply_train(&mut self, event: &Train)
        requires
            old(self)@.train.has_room(*event),
        ensures
            final(self)@ == old(self)@.after_train(*event),
    {
        self.train.apply(event);
        if let Train::TrainingFinished(tf) = event {
            if let Some(loss) = tf.loss {
                self.losses.push((tf.step, loss));
            }
            self.step = tf.step;
        }
    }

    fn apply_cooldown(&mut self, event: &Cooldown)
        ensures
            final(self)@ == old(self)@.after_cooldown(*event),
    {
        self.cooldown.apply(event);
        if let Cooldown::CheckpointUploadFinished(cuf) = event {
            if cuf.success {
                self.warmup = WarmupSnapshot::default();
            }
        }
    }

    fn apply_resource(&mut self, timestamp: i64, rs: &ResourceSnapshot)
        ensures
            final(self)@ == old(self)@.after_resource(timestamp, *rs),
    {
        if let Some((then, prev)) = self.last_resource {
            let secs: u64 = seconds_between(then, timestamp);
            let tx: Option<u64> = rs.network_bytes_sent_total.saturating_sub(
                prev.network_bytes_sent_total,
            ).checked_div(secs);
            let rx: Option<u64> = rs.network_bytes_recv_total.saturating_sub(
                prev.network_bytes_recv_total,
            ).checked_div(secs);
            if let (Some(tx_bps), Some(rx_bps)) = (tx, rx) {
                self.network_tx_bps = Some(tx_bps);
                self.network_rx_bps = Some(rx_bps);
            }
        }
        self.last_resource = Some((timestamp, *rs));
    }

    /// Takes in an event of this node.
    pub fn apply(&mut self, event: &Event)
        requires
            old(self)@.has_room(event.data),
        ensures
            final(self)@ == old(self)@.after(*event),
    {
        match &event.data {
            EventData::Client(client) => self.apply_client(client),
            EventData::Train(train) => self.apply_train(train),
            EventData::Warmup(warmup) => self.warmup.apply(warmup),
            EventData::Cooldown(cooldown) => self.apply_cooldown(cooldown),
            EventData::P2P(p2p) => self.p2p.apply(p2p),
            EventData::ResourceSnapshot(rs) => self.apply_resource(event.timestamp, rs),
            EventData::CoordinatorEvent(_) => {},
        }
    }
}

} // verus!
