//! Events that nodes report about themselves.

use vstd::prelude::*;

use crate::batch_map::BatchId;
use crate::coordinator::RunState;
use crate::sets::{BlobHash, EndpointId};

verus! {

/// An event and the moment at which it happened, in nanoseconds since the Unix epoch.
#[derive(Debug)]
pub struct Event {
    pub timestamp: i64,
    pub data: EventData,
}

/// What happened.
#[derive(Debug)]
pub enum EventData {
    Client(Client),
    Train(Train),
    Warmup(Warmup),
    Cooldown(Cooldown),
    P2P(P2P),
    ResourceSnapshot(ResourceSnapshot),
    CoordinatorEvent(CoordinatorEvent),
}

// Client

#[derive(Debug, Clone, Copy)]
pub struct StateChanged {
    pub old_state: RunState,
    pub new_state: RunState,
    pub epoch: u64,
    pub step: u64,
}

#[derive(Debug, Clone, Copy)]
pub struct HealthCheckFailed {
    pub round: u64,
}

#[derive(Debug)]
pub struct ClientError {
    pub message: String,
}

#[derive(Debug)]
pub struct ClientWarning {
    pub message: String,
}

#[derive(Debug)]
pub enum Client {
    StateChanged(StateChanged),
    HealthCheckFailed(HealthCheckFailed),
    Error(ClientError),
    Warning(ClientWarning),
}

// Train

#[derive(Debug, Clone, Copy)]
pub struct BatchAssigned {
    pub batch_id: BatchId,
}

#[derive(Debug, Clone, Copy)]
pub struct BatchDataDownloadComplete {
    pub result: Result<(), ()>,
}

/// A finished batch. The loss is given by the bits of an IEEE double.
#[derive(Debug, Clone, Copy)]
pub struct TrainingFinished {
    pub batch_id: BatchId,
    pub step: u64,
    pub loss: Option<u64>,
}

#[derive(Debug, Clone, Copy)]
pub struct WitnessElected {
    pub step: u64,
    pub round: u64,
    pub epoch: u64,
    pub index: u64,
    pub committee_position: u64,
    pub is_witness: bool,
}

#[derive(Debug)]
pub struct UntrainedBatchWarning {
    pub batch_id: BatchId,
    pub expected_trainer: Option<String>,
}

#[derive(Debug)]
pub struct DistroResultDeserializeComplete {
    pub blob: BlobHash,
    pub result: Result<(), String>,
}

#[derive(Debug)]
pub struct ApplyDistroResultsComplete(pub Result<(), String>);

#[derive(Debug)]
pub enum Train {
    BatchAssigned(BatchAssigned),
    BatchDataDownloadStart,
    BatchDataDownloadComplete(BatchDataDownloadComplete),
    TrainingStarted,
    TrainingFinished(TrainingFinished),
    WitnessElected(WitnessElected),
    UntrainedBatchWarning(UntrainedBatchWarning),
    DistroResultDeserializeStarted,
    DistroResultDeserializeComplete(DistroResultDeserializeComplete),
    ApplyDistroResultsStart,
    ApplyDistroResultsComplete(ApplyDistroResultsComplete),
    DistroResultAddedToConsensus,
}

// Warmup

#[derive(Debug, Clone, Copy)]
pub struct CheckpointDownloadStarted {
    pub size_bytes: u64,
}

#[derive(Debug, Clone, Copy)]
pub struct CheckpointDownloadProgress {
    pub bytes_downloaded: u64,
}

#[derive(Debug, Clone, Copy)]
pub enum Warmup {
    P2PParamInfoRequest,
    P2PParamInfoResponse,
    CheckpointDownloadStarted(CheckpointDownloadStarted),
    CheckpointDownloadProgress(CheckpointDownloadProgress),
    CheckpointDownloadComplete,
    ModelLoadStarted,
    ModelLoadComplete,
}

// Cooldown

#[derive(Debug)]
pub struct ModelSerializationFinished {
    pub success: bool,
    pub error_string: Option<String>,
}

#[derive(Debug, Clone, Copy)]
pub struct CheckpointWriteFinished {
    pub success: bool,
}

#[derive(Debug, Clone, Copy)]
pub struct CheckpointUploadProgress {
    pub bytes_uploaded: u64,
}

#[derive(Debug)]
pub struct CheckpointUploadFinished {
    pub success: bool,
    pub error_string: Option<String>,
}

#[derive(Debug)]
pub enum Cooldown {
    ModelSerializationStarted,
    ModelSerializationFinished(ModelSerializationFinished),
    CheckpointWriteStarted,
    CheckpointWriteFinished(CheckpointWriteFinished),
    CheckpointUploadStarted,
    CheckpointUploadProgress(CheckpointUploadProgress),
    CheckpointUploadFinished(CheckpointUploadFinished),
}

// P2P

/// How packets reach a peer.
#[derive(Debug, Clone, Copy, PartialEq, Eq, Structural)]
pub enum SelectedPath {
    Direct,
    Relay,
}

#[derive(Debug, Clone, Copy)]
pub struct ConnectionChanged {
    pub endpoint_id: EndpointId,
    pub connection_path: Option<SelectedPath>,
}

#[derive(Debug, Clone, Copy)]
pub struct GossipNeighborUp {
    pub endpoint_id: EndpointId,
}

#[derive(Debug, Clone, Copy)]
pub struct GossipNeighborDown {
    pub endpoint_id: EndpointId,
}

#[derive(Debug, Clone, Copy)]
pub struct ConnectionLatencyChanged {
    pub endpoint_id: EndpointId,
    pub latency_ms: u64,
}

#[derive(Debug, Clone, Copy)]
pub struct BlobUploadStarted {
    pub to_endpoint_id: EndpointId,
    pub size_bytes: u64,
}

#[derive(Debug, Clone, Copy)]
pub struct BlobDownloadStarted {
    pub blob: BlobHash,
    pub size_bytes: u64,
}

#[derive(Debug, Clone, Copy)]
pub struct BlobDownloadProgress {
    pub blob: BlobHash,
    pub bytes_transferred: u64,
}

#[derive(Debug)]
pub struct BlobDownloadCompleted {
    pub blob: BlobHash,
    pub result: Result<(), String>,
}

#[derive(Debug, Clone, Copy)]
pub struct GossipTrainingResultReceived {
    pub blob: BlobHash,
    pub batch_id: BatchId,
}

#[derive(Debug)]
pub enum P2P {
    ConnectionChanged(ConnectionChanged),
    GossipNeighborUp(GossipNeighborUp),
    GossipNeighborDown(GossipNeighborDown),
    GossipLagged,
    ConnectionLatencyChanged(ConnectionLatencyChanged),
    BlobAddedToStore,
    BlobUploadStarted(BlobUploadStarted),
    BlobUploadProgress,
    BlobUploadCompleted,
    BlobDownloadStarted(BlobDownloadStarted),
    BlobDownloadProgress(BlobDownloadProgress),
    BlobDownloadCompleted(BlobDownloadCompleted),
    BlobDownloadRequested,
    BlobDownloadTryProvider,
    BlobDownloadProviderFailed,
    GossipTrainingResultSent,
    GossipFinishedSent,
    GossipTrainingResultReceived(GossipTrainingResultReceived),
    GossipFinishedReceived,
}

// Resources

/// Totals since the node's start.
#[derive(Debug, Clone, Copy)]
pub struct ResourceSnapshot {
    pub network_bytes_sent_total: u64,
    pub network_bytes_recv_total: u64,
}

// Calls to the coordinator

#[derive(Debug, Clone, Copy, PartialEq, Eq, Structural)]
pub enum RpcCallType {
    Witness,
    WarmupWitness,
    HealthCheck,
    Checkpoint,
}

#[derive(Debug, Clone, Copy)]
pub struct RpcCallSubmitted {
    pub call_type: RpcCallType,
}

#[derive(Debug)]
pub struct RpcCallResult {
    pub call_type: RpcCallType,
    pub result: Result<(), String>,
}

#[derive(Debug)]
pub enum CoordinatorEvent {
    RpcCallSubmitted(RpcCallSubmitted),
    RpcCallResult(RpcCallResult),
}

} // verus!
