//! The state that events are folded into.

use indexmap::IndexMap;
use vstd::prelude::*;

use crate::batch_map::{BatchId, BatchMap};
use crate::coordinator::{Checkpoint, RunState};
use crate::events::{ResourceSnapshot, SelectedPath};
use crate::sets::{BlobHash, BlobIndex, EndpointId, IdSet, NameSet};

verus! {

/// What the coordinator last reported.
#[derive(Debug)]
pub struct CoordinatorStateSnapshot {
    /// Nanoseconds since the Unix epoch.
    pub timestamp: i64,
    pub run_state: RunState,
    pub epoch: u64,
    pub step: u64,
    pub checkpoint: Checkpoint,
    pub client_ids: Vec<String>,
    pub min_clients: usize,
    /// Which node each batch of the current step is assigned to.
    pub batch_assignments: BatchMap<String>,
}

/// How far a node has come in getting and loading the model.
#[derive(Debug, Clone, Copy, PartialEq, Eq, Structural)]
pub enum WarmupPhase {
    Idle,
    NegotiatingP2P,
    Downloading,
    LoadingModel,
    Complete,
}

#[derive(Debug, Clone, Copy)]
pub struct WarmupSnapshot {
    pub phase: WarmupPhase,
    pub download_total_bytes: Option<u64>,
    pub download_bytes: u64,
    pub model_loaded: bool,
}

#[derive(Debug, Clone, Copy)]
pub struct PeerInfo {
    /// Whether the peer is reached directly or through a relay.
    pub connection_path: Option<SelectedPath>,
    pub latency_ms: Option<u64>,
}

#[derive(Debug)]
pub struct BlobUploadTransfer {
    /// The endpoint uploaded to.
    pub peer_endpoint_id: EndpointId,
    pub size_bytes: u64,
    pub bytes_transferred: u64,
    /// `None` while in progress, then success or the reason of failure.
    pub result: Option<Result<(), String>>,
}

#[derive(Debug)]
pub struct BlobDownloadTransfer {
    pub size_bytes: u64,
    pub bytes_transferred: u64,
    /// `None` while in progress, then success or the reason of failure.
    pub result: Option<Result<(), String>>,
}

#[derive(Debug)]
pub struct P2PSnapshot {
    /// Known peers and the state of the connection to each.
    pub peers: IndexMap<EndpointId, PeerInfo>,
    /// The current gossip neighbourhood.
    pub gossip_neighbors: IdSet,
    pub uploads: IndexMap<BlobHash, BlobUploadTransfer>,
    pub downloads: IndexMap<BlobHash, BlobDownloadTransfer>,
    /// How many blobs were ever added to the local store.
    pub blobs_in_store: usize,
    /// Gossip messages sent in this session.
    pub gossip_sent: u32,
    /// Gossip messages received in this session.
    pub gossip_recv: u32,
}

#[derive(Debug, Clone, Copy)]
pub struct BatchDownload {
    pub result: Option<Result<(), ()>>,
}

#[derive(Debug, Clone, Copy)]
pub struct WitnessInfo {
    pub step: u64,
    pub round: u64,
    pub epoch: u64,
    pub index: u64,
    pub committee_position: u64,
}

#[derive(Debug)]
pub struct TrainSnapshot {
    /// Number of batches assigned to this node for the current step.
    pub batches_assigned: u64,
    /// Download status of the batches this node is responsible for.
    pub batch_downloads: IndexMap<BatchId, BatchDownload>,
    /// True between the start of training and its end.
    pub training_in_progress: bool,
    /// This node's election as a witness for this step, if it was elected.
    pub witness: Option<WitnessInfo>,
    /// Whether the last application of distro results succeeded.
    pub last_distro_ok: Option<bool>,
    /// Batches this node was warned about, each with the trainer it expected.
    pub untrained_warnings: Vec<(BatchId, Option<String>)>,
}

#[derive(Debug)]
pub struct CooldownSnapshot {
    /// Serialization of the model has started here: this node writes the checkpoint.
    pub is_checkpointer: bool,
    pub serialization_ok: Option<bool>,
    pub serialization_error: Option<String>,
    pub checkpoint_write_ok: Option<bool>,
    pub upload_bytes: u64,
    pub upload_ok: Option<bool>,
    pub upload_error: Option<String>,
}

#[derive(Debug, Clone, Copy, PartialEq, Eq, Structural)]
pub enum DownloadStatus {
    NotStarted,
    InProgress,
    Success,
    Failed,
}

/// How far one batch's result has come on one node.
#[derive(Debug, Clone, Copy)]
pub struct NodeBatchStatus {
    /// Gossip announcing the result has arrived.
    pub gossip_received: bool,
    pub download: DownloadStatus,
    /// `None` until deserialization ends, then whether it succeeded.
    pub deserialized: Option<bool>,
}

/// A witness of the current step.
#[derive(Debug, Clone, Copy)]
pub struct WitnessStatus {
    pub info: WitnessInfo,
    /// The attestation was submitted.
    pub submitted: bool,
    /// `None` until the call's result is known, then whether it succeeded.
    pub rpc_result: Option<bool>,
}

/// One batch, seen across the cluster.
#[derive(Debug)]
pub struct ClusterBatchView {
    /// The node that the coordinator assigned the batch to.
    pub assigned_to: Option<String>,
    /// The blob that holds the batch's result, once gossip has named it.
    pub blob: Option<BlobHash>,
    /// Whether the assigned node downloaded the training data.
    pub data_downloaded: Option<bool>,
    /// Whether the assigned node finished training.
    pub trained: bool,
    /// How far the result has come on each node that does not train the batch.
    pub node_status: IndexMap<String, NodeBatchStatus>,
}

#[derive(Debug)]
pub struct NodeSnapshot {
    pub node_id: String,
    pub run_state: Option<RunState>,
    pub epoch: u64,
    pub step: u64,
    pub warmup: WarmupSnapshot,
    /// A step and the bits of its loss for each finished training that reported one.
    pub losses: Vec<(u64, u64)>,
    pub health_check_steps: Vec<u64>,
    pub last_error: Option<String>,
    /// Bytes sent per second between the last two resource snapshots.
    pub network_tx_bps: Option<u64>,
    /// Bytes received per second between the last two resource snapshots.
    pub network_rx_bps: Option<u64>,
    pub p2p: P2PSnapshot,
    pub train: TrainSnapshot,
    pub cooldown: CooldownSnapshot,
    /// The last resource snapshot and its moment.
    pub last_resource: Option<(i64, ResourceSnapshot)>,
}

#[derive(Debug)]
pub struct ClusterSnapshot {
    /// The moment of the last change, in nanoseconds since the Unix epoch.
    pub timestamp: i64,
    pub coordinator: Option<CoordinatorStateSnapshot>,
    pub nodes: IndexMap<String, NodeSnapshot>,
    /// The batches of the current step.
    pub step_batches: BatchMap<ClusterBatchView>,
    /// The batches of the step before, about which nodes may still report.
    pub prev_step_batches: BatchMap<ClusterBatchView>,
    /// Which batch each result blob belongs to.
    pub blob_to_batch: BlobIndex,
    /// Nodes that applied the distro results of the current step.
    pub applied_by: NameSet,
    /// Nodes that applied the distro results of the step before.
    pub prev_applied_by: NameSet,
    /// The witnesses of the current step.
    pub step_witnesses: IndexMap<String, WitnessStatus>,
}

} // verus!
