//! What is decided before the server runs.

use vstd::prelude::*;
use vstd::string::StringExecFns;

use crate::coordinator::{
    Checkpoint, ClientInfo, ClientState, CoordinatorState, DataLocation, LlmInfo, RunState,
};
use crate::data_provider::TokenSize;

verus! {

/// The port of the web monitor where none is asked for.
pub const DEFAULT_WEB_PORT: u16 = 8080;

/// The port of the web monitor.
pub fn web_port_or_default(web_port: Option<u16>) -> (r: u16)
    ensures
        r == (match web_port {
            Some(p) => p,
            None => DEFAULT_WEB_PORT,
        }),
{
    match web_port {
        Some(p) => p,
        None => DEFAULT_WEB_PORT,
    }
}

/// The port that clients connect to: any free one where none is asked for.
pub fn coordinator_port_or_any(port: Option<u16>) -> (r: u16)
    ensures
        r == (match port {
            Some(p) => p,
            None => 0,
        }),
{
    match port {
        Some(p) => p,
        None => 0,
    }
}

/// A client slot that nobody takes.
pub open spec fn vacant(c: ClientInfo) -> bool {
    &&& c.id == (0u128, 0u128)
    &&& c.label@ == Seq::<char>::empty()
    &&& c.state == ClientState::Healthy
    &&& c.exited_height == 0
}

fn vacate(clients: &mut Vec<ClientInfo>)
    ensures
        final(clients)@.len() == old(clients)@.len(),
        forall|i: int| 0 <= i < final(clients)@.len() ==> vacant(#[trigger] final(clients)@[i]),
{
    let n: usize = clients.len();
    let mut i: usize = 0;
    while i < n
        invariant
            i <= n == clients@.len(),
            n == old(clients)@.len(),
            forall|k: int| 0 <= k < i ==> vacant(#[trigger] clients@[k]),
        decreases n - i,
    {
        clients.set(
            i,
            ClientInfo {
                id: (0, 0),
                label: String::new(),
                state: ClientState::Healthy,
                exited_height: 0,
            },
        );
        i = i + 1;
    }
}

/// The slots of `before`, with nobody in them.
pub open spec fn vacated(before: Seq<ClientInfo>, after: Seq<ClientInfo>) -> bool {
    &&& after.len() == before.len()
    &&& forall|i: int| 0 <= i < after.len() ==> vacant(#[trigger] after[i])
}

/// Puts the run back to waiting for members, without the clients of the epoch that was under way.
pub fn reset_ephemeral(coordinator: &mut CoordinatorState)
    ensures
        final(coordinator).run_state == RunState::WaitingForMembers,
        vacated(old(coordinator).epoch_state.clients@, final(coordinator).epoch_state.clients@),
        vacated(
            old(coordinator).epoch_state.exited_clients@,
            final(coordinator).epoch_state.exited_clients@,
        ),
        *final(coordinator) == (CoordinatorState {
            run_state: RunState::WaitingForMembers,
            epoch_state: crate::coordinator::EpochState {
                clients: final(coordinator).epoch_state.clients,
                exited_clients: final(coordinator).epoch_state.exited_clients,
                ..old(coordinator).epoch_state
            },
            ..*old(coordinator)
        }),
{
    coordinator.run_state = RunState::WaitingForMembers;
    vacate(&mut coordinator.epoch_state.clients);
    vacate(&mut coordinator.epoch_state.exited_clients);
}

/// What has to be fetched before training data can be served.
#[derive(Debug)]
pub enum ModelFetch {
    Nothing,
    /// A repository of the hub. Without a revision, one that lies here already is enough.
    Hub { repo_id: String, revision: Option<String>, unless_present: bool },
    Gcs { bucket: String, prefix: Option<String> },
}

/// What the training-data service needs.
#[derive(Debug)]
pub struct DataServerPlan {
    pub fetch: ModelFetch,
    /// The address at which the service is announced.
    pub url: String,
}

/// Why a run cannot be started.
#[derive(Debug, Clone, Copy, PartialEq, Eq, Structural)]
pub enum StartupError {
    EphemeralCheckpoint,
    P2PCheckpoint,
    NoDataConfig,
}

impl StartupError {
    /// The reason in words.
    pub fn message(&self) -> (r: &'static str)
        ensures
            r@ == (match self {
                StartupError::EphemeralCheckpoint =>
                    "Can't start up a run with an Ephemeral checkpoint."@,
                StartupError::P2PCheckpoint => "Can't start up a run with a P2P checkpoint."@,
                StartupError::NoDataConfig =>
                    "Coordinator state requires we host training data, but no --data-config passed."@,
            }),
    {
        match self {
            StartupError::EphemeralCheckpoint =>
                "Can't start up a run with an Ephemeral checkpoint.",
            StartupError::P2PCheckpoint => "Can't start up a run with a P2P checkpoint.",
            StartupError::NoDataConfig =>
                "Coordinator state requires we host training data, but no --data-config passed.",
        }
    }
}

fn clone_text(text: &Option<String>) -> (r: Option<String>)
    ensures
        r == *text,
{
    match text {
        Some(t) => Some(t.clone()),
        None => None,
    }
}

/// What the training-data service needs, if this server is to run one. A model whose weights are
/// nowhere to be had, or only with other clients, cannot be started from.
pub open spec fn planned(model: LlmInfo) -> Result<Option<DataServerPlan>, StartupError> {
    match model.data_location {
        DataLocation::Elsewhere => Ok(None),
        DataLocation::Server(url) => match model.checkpoint {
            Checkpoint::Ephemeral => Err(StartupError::EphemeralCheckpoint),
            Checkpoint::P2P(_) | Checkpoint::P2PGcs(_) => Err(StartupError::P2PCheckpoint),
            Checkpoint::Dummy(_) => Ok(Some(DataServerPlan { fetch: ModelFetch::Nothing, url })),
            Checkpoint::Hub(hub) => Ok(
                Some(
                    DataServerPlan {
                        fetch: ModelFetch::Hub {
                            repo_id: hub.repo_id,
                            revision: hub.revision,
                            unless_present: hub.revision is None,
                        },
                        url,
                    },
                ),
            ),
            Checkpoint::Gcs(gcs) => Ok(
                Some(
                    DataServerPlan {
                        fetch: ModelFetch::Gcs { bucket: gcs.bucket, prefix: gcs.prefix },
                        url,
                    },
                ),
            ),
        },
    }
}

/// What the training-data service needs, if this server is to run one.
pub fn plan_data_server(model: &LlmInfo) -> (r: Result<Option<DataServerPlan>, StartupError>)
    ensures
        r == planned(*model),
{
    let url = match &model.data_location {
        DataLocation::Server(url) => url,
        DataLocation::Elsewhere => {
            return Ok(None);
        },
    };
    let fetch = match &model.checkpoint {
        Checkpoint::Hub(hub) => ModelFetch::Hub {
            repo_id: hub.repo_id.clone(),
            revision: clone_text(&hub.revision),
            unless_present: hub.revision.is_none(),
        },
        Checkpoint::Ephemeral => {
            return Err(StartupError::EphemeralCheckpoint);
        },
        Checkpoint::Dummy(_) => ModelFetch::Nothing,
        Checkpoint::P2P(_) | Checkpoint::P2PGcs(_) => {
            return Err(StartupError::P2PCheckpoint);
        },
        Checkpoint::Gcs(gcs) => ModelFetch::Gcs {
            bucket: gcs.bucket.clone(),
            prefix: clone_text(&gcs.prefix),
        },
    };
    Ok(Some(DataServerPlan { fetch, url: url.clone() }))
}

/// Whether the model has to be fetched, given whether it lies here already.
pub fn must_fetch(fetch: &ModelFetch, present: bool) -> (r: bool)
    ensures
        r == (match fetch {
            ModelFetch::Nothing => false,
            ModelFetch::Hub { unless_present, .. } => !(*unless_present && present),
            ModelFetch::Gcs { .. } => true,
        }),
{
    match fetch {
        ModelFetch::Nothing => false,
        ModelFetch::Hub { unless_present, .. } => !(*unless_present && present),
        ModelFetch::Gcs { .. } => true,
    }
}

/// Where training data lies and how it is cut into sequences.
#[derive(Debug)]
pub struct DataServerInfo {
    pub dir: String,
    pub token_size: TokenSize,
    pub seq_len: usize,
    pub shuffle_seed: [u8; 32],
}

/// The settings of the training-data service, which must have been given.
pub fn require_data_config(config: Option<DataServerInfo>) -> (r: Result<DataServerInfo, StartupError>)
    ensures
        r == (match config {
            Some(c) => Ok::<DataServerInfo, StartupError>(c),
            None => Err::<DataServerInfo, StartupError>(StartupError::NoDataConfig),
        }),
{
    match config {
        Some(c) => Ok(c),
        None => Err(StartupError::NoDataConfig),
    }
}

// Metric logging

/// Where server-side metrics are logged.
#[derive(Debug)]
pub struct WandbInfo {
    pub project: String,
    pub run_name: String,
    pub entity: Option<String>,
    pub group: Option<String>,
}

impl Clone for WandbInfo {
    fn clone(&self) -> (r: Self)
        ensures
            r == *self,
    {
        WandbInfo {
            project: self.project.clone(),
            run_name: self.run_name.clone(),
            entity: match &self.entity {
                Some(e) => Some(e.clone()),
                None => None,
            },
            group: match &self.group {
                Some(g) => Some(g.clone()),
                None => None,
            },
        }
    }
}

/// What the environment says about metric logging.
#[derive(Debug)]
pub struct WandbEnv {
    pub api_key: Option<String>,
    pub project: Option<String>,
    pub run: Option<String>,
    pub entity: Option<String>,
    pub group: Option<String>,
}

/// The project that metrics are logged to where the environment names none.
pub const DEFAULT_WANDB_PROJECT: &'static str = "psyche";

/// How a moment stands in the name of a logged run.
pub const STAMP_PATTERN: &'static str = "%Y-%m-%d_%H-%M-%S";

/// A moment in UTC, in nanoseconds since the Unix epoch, written by a pattern.
pub uninterp spec fn utc_stamp(nanos: i64, pattern: Seq<char>) -> Seq<char>;

/// `chrono::DateTime::format`, on a moment given in nanoseconds since the Unix epoch. Its text is
/// named, not spelled out. A pattern that chrono cannot read is left out.
#[verifier::external_body]
fn utc_stamp_text(nanos: i64, pattern: &str) -> (r: String)
    requires
        pattern@ == STAMP_PATTERN@,
    ensures
        r@ == utc_stamp(nanos, pattern@),
{
    chrono::DateTime::from_timestamp_nanos(nanos).format(pattern).to_string()
}

/// The name of a logged run that the environment does not name.
pub open spec fn server_run_name(run_id: Seq<char>, stamp: Seq<char>) -> Seq<char> {
    "server-"@ + run_id + "-"@ + stamp
}

/// The name of a logged run that the environment does not name.
pub fn run_name_at(run_id: &str, stamp: &str) -> (r: String)
    ensures
        r@ == server_run_name(run_id@, stamp@),
{
    let mut name = "server-".to_string();
    name.append(run_id);
    name.append("-");
    name.append(stamp);
    name
}

/// Where metrics are logged, driven entirely by the environment: nowhere without a key. The moment
/// is given in nanoseconds since the Unix epoch.
pub fn wandb_info(run_id: &str, env: WandbEnv, now: i64) -> (r: Option<WandbInfo>)
    ensures
        r is Some <==> env.api_key is Some,
        r matches Some(info) ==> {
            &&& info.project@ == (match env.project {
                Some(p) => p@,
                None => DEFAULT_WANDB_PROJECT@,
            })
            &&& info.run_name@ == (match env.run {
                Some(n) => n@,
                None => server_run_name(run_id@, utc_stamp(now, STAMP_PATTERN@)),
            })
            &&& info.entity == env.entity
            &&& info.group == env.group
        },
{
    if env.api_key.is_none() {
        return None;
    }
    let project = match env.project {
        Some(p) => p,
        None => DEFAULT_WANDB_PROJECT.to_string(),
    };
    let run_name = match env.run {
        Some(n) => n,
        None => run_name_at(run_id, utc_stamp_text(now, STAMP_PATTERN).as_str()),
    };
    Some(WandbInfo { project, run_name, entity: env.entity, group: env.group })
}

} // verus!
