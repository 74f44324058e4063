//! What the run's coordinator reports, as plain values.

use vstd::prelude::*;

use crate::sets::Id256;

verus! {

/// The phase a run is in.
#[derive(Debug, Clone, Copy, PartialEq, Eq, Structural)]
pub enum RunState {
    Uninitialized,
    WaitingForMembers,
    Warmup,
    RoundTrain,
    RoundWitness,
    Cooldown,
    Finished,
    Paused,
}

/// A repository on a model hub.
#[derive(Debug)]
pub struct HubRepo {
    pub repo_id: String,
    pub revision: Option<String>,
}

/// A place in a storage bucket.
#[derive(Debug)]
pub struct GcsRepo {
    pub bucket: String,
    pub prefix: Option<String>,
}

/// Where the model's weights are kept.
#[derive(Debug)]
pub enum Checkpoint {
    Ephemeral,
    Dummy(HubRepo),
    Hub(HubRepo),
    P2P(HubRepo),
    Gcs(GcsRepo),
    P2PGcs(GcsRepo),
}

/// How a client left, or that it did not.
#[derive(Debug, Clone, Copy, PartialEq, Eq, Structural)]
pub enum ClientState {
    Healthy,
    Dropped,
    Withdrawn,
    Ejected,
}

/// A client of the current epoch, or one that has left it.
#[derive(Debug)]
pub struct ClientInfo {
    pub id: Id256,
    /// The identity as it is shown.
    pub label: String,
    pub state: ClientState,
    pub exited_height: u32,
}

/// How many rounds the coordinator remembers.
pub const NUM_STORED_ROUNDS: usize = 4;

/// One round of training.
#[derive(Debug, Clone, Copy)]
pub struct Round {
    pub height: u32,
    pub data_index: u64,
    pub random_seed: u64,
    pub clients_len: u16,
    pub tie_breaker_tasks: u16,
    /// How many witnesses have attested.
    pub witnesses: usize,
}

/// The settings of a run.
#[derive(Debug, Clone, Copy)]
pub struct RunConfig {
    pub total_steps: u32,
    pub epoch_time: u64,
    pub warmup_time: u64,
    pub cooldown_time: u64,
    pub max_round_train_time: u64,
    pub round_witness_time: u64,
    pub global_batch_size_warmup_tokens: u64,
    pub init_min_clients: u16,
    pub min_clients: u16,
    pub witness_nodes: u16,
    pub global_batch_size_start: u16,
    pub global_batch_size_end: u16,
    pub verification_percent: u8,
    pub waiting_for_members_extra_time: u8,
}

/// How far the run has come.
#[derive(Debug, Clone, Copy)]
pub struct Progress {
    pub epoch: u16,
    pub step: u32,
    pub epoch_start_data_index: u64,
}

/// The current epoch.
#[derive(Debug)]
pub struct EpochState {
    pub clients: Vec<ClientInfo>,
    pub exited_clients: Vec<ClientInfo>,
    pub rounds: [Round; 4],
    pub rounds_head: u32,
    pub start_step: u32,
    pub last_step: u32,
    pub start_timestamp: u64,
    pub cold_start_epoch: bool,
    pub first_round: bool,
}

/// The family of a language model.
#[derive(Debug, Clone, Copy, PartialEq, Eq, Structural)]
pub enum LlmArchitecture {
    HfLlama,
    HfDeepseek,
    HfAuto,
    Torchtitan,
}

/// What the training data is for.
#[derive(Debug, Clone, Copy, PartialEq, Eq, Structural)]
pub enum TrainingDataType {
    Pretraining,
    Finetuning,
}

/// Where clients get training data from.
#[derive(Debug)]
pub enum DataLocation {
    /// The server's own data service, at this address.
    Server(String),
    /// Anywhere else.
    Elsewhere,
}

/// The model that is trained.
#[derive(Debug)]
pub struct LlmInfo {
    pub architecture: LlmArchitecture,
    pub max_seq_len: u32,
    pub cold_start_warmup_steps: u32,
    pub data_type: TrainingDataType,
    pub checkpoint: Checkpoint,
    pub data_location: DataLocation,
}

/// The coordinator's state, as far as the server reads it.
#[derive(Debug)]
pub struct CoordinatorState {
    pub run_id: String,
    pub run_state: RunState,
    pub run_state_start_unix_timestamp: u64,
    pub pending_pause: bool,
    pub config: RunConfig,
    pub progress: Progress,
    pub epoch_state: EpochState,
    pub model: LlmInfo,
    /// The batch size that the current round aims at.
    pub target_global_batch_size: u16,
    /// The tokens that the run has processed up to the current round.
    pub total_tokens_processed: u64,
}

impl Clone for HubRepo {
    fn clone(&self) -> (r: Self)
        ensures
            r == *self,
    {
        HubRepo {
            repo_id: self.repo_id.clone(),
            revision: match &self.revision {
                Some(s) => Some(s.clone()),
                None => None,
            },
        }
    }
}

impl Clone for GcsRepo {
    fn clone(&self) -> (r: Self)
        ensures
            r == *self,
    {
        GcsRepo {
            bucket: self.bucket.clone(),
            prefix: match &self.prefix {
                Some(s) => Some(s.clone()),
                None => None,
            },
        }
    }
}

impl Clone for Checkpoint {
    fn clone(&self) -> (r: Self)
        ensures
            r == *self,
    {
        match self {
            Checkpoint::Ephemeral => Checkpoint::Ephemeral,
            Checkpoint::Dummy(repo) => Checkpoint::Dummy(repo.clone()),
            Checkpoint::Hub(repo) => Checkpoint::Hub(repo.clone()),
            Checkpoint::P2P(repo) => Checkpoint::P2P(repo.clone()),
            Checkpoint::Gcs(repo) => Checkpoint::Gcs(repo.clone()),
            Checkpoint::P2PGcs(repo) => Checkpoint::P2PGcs(repo.clone()),
        }
    }
}

impl Clone for DataLocation {
    fn clone(&self) -> (r: Self)
        ensures
            r == *self,
    {
        match self {
            DataLocation::Server(url) => DataLocation::Server(url.clone()),
            DataLocation::Elsewhere => DataLocation::Elsewhere,
        }
    }
}

impl Clone for LlmInfo {
    fn clone(&self) -> (r: Self)
        ensures
            r == *self,
    {
        LlmInfo {
            architecture: self.architecture,
            max_seq_len: self.max_seq_len,
            cold_start_warmup_steps: self.cold_start_warmup_steps,
            data_type: self.data_type,
            checkpoint: self.checkpoint.clone(),
            data_location: self.data_location.clone(),
        }
    }
}

impl Clone for ClientInfo {
    fn clone(&self) -> (r: Self)
        ensures
            r == *self,
    {
        ClientInfo {
            id: self.id,
            label: self.label.clone(),
            state: self.state,
            exited_height: self.exited_height,
        }
    }
}

fn clone_clients(clients: &Vec<ClientInfo>) -> (r: Vec<ClientInfo>)
    ensures
        r@ == clients@,
{
    let mut out: Vec<ClientInfo> = Vec::new();
    let mut i: usize = 0;
    while i < clients.len()
        invariant
            i <= clients@.len(),
            out@ == clients@.take(i as int),
        decreases clients@.len() - i,
    {
        out.push(clients[i].clone());
        i = i + 1;
        assert(out@ =~= clients@.take(i as int));
    }
    assert(out@ =~= clients@);
    out
}

impl Clone for CoordinatorState {
    fn clone(&self) -> (r: Self)
        ensures
            r.same_as(*self),
    {
        CoordinatorState {
            run_id: self.run_id.clone(),
            run_state: self.run_state,
            run_state_start_unix_timestamp: self.run_state_start_unix_timestamp,
            pending_pause: self.pending_pause,
            config: self.config,
            progress: self.progress,
            epoch_state: EpochState {
                clients: clone_clients(&self.epoch_state.clients),
                exited_clients: clone_clients(&self.epoch_state.exited_clients),
                rounds: self.epoch_state.rounds,
                rounds_head: self.epoch_state.rounds_head,
                start_step: self.epoch_state.start_step,
                last_step: self.epoch_state.last_step,
                start_timestamp: self.epoch_state.start_timestamp,
                cold_start_epoch: self.epoch_state.cold_start_epoch,
                first_round: self.epoch_state.first_round,
            },
            model: self.model.clone(),
            target_global_batch_size: self.target_global_batch_size,
            total_tokens_processed: self.total_tokens_processed,
        }
    }
}

impl CoordinatorState {
    /// The same clients in the same order, and the same value in every other field.
    pub open spec fn same_as(self, other: CoordinatorState) -> bool {
        &&& self.epoch_state.clients@ == other.epoch_state.clients@
        &&& self.epoch_state.exited_clients@ == other.epoch_state.exited_clients@
        &&& self == (CoordinatorState {
            epoch_state: EpochState {
                clients: self.epoch_state.clients,
                exited_clients: self.epoch_state.exited_clients,
                ..other.epoch_state
            },
            ..other
        })
    }

    /// The current round is one of those remembered.
    pub open spec fn has_head(self) -> bool {
        self.epoch_state.rounds_head < NUM_STORED_ROUNDS
    }
}

/// The weights come from other clients.
pub open spec fn is_p2p(checkpoint: Checkpoint) -> bool {
    checkpoint is P2P || checkpoint is P2PGcs
}

} // verus!
