//! The server's state, and what it does about what it is told.
//!
//! The coordinator itself, the network and the clock lie outside. Each thing that happens is taken
//! in here; the answer says what is to be done outside, and what came of that is taken in again.

use vstd::prelude::*;
use vstd::string::StringExecFns;

use super::loss::{
    history_after, is_finite, push_loss_point, single_is_finite, LossPoint,
};
use super::membership::{law_pending_and_ready_are_apart, Membership, Roster};
use super::startup::{
    plan_data_server, planned, reset_ephemeral, vacated, DataServerPlan, StartupError, WandbInfo,
};
use super::web::WebState;
use crate::coordinator::{
    is_p2p, Checkpoint, ClientInfo, CoordinatorState, EpochState, Round, RunConfig, RunState,
};
use crate::sets::Id256;
use crate::text::{decimal, decimal_text};

verus! {

/// What a client sends.
#[derive(Debug)]
pub enum ClientMessage {
    /// The client wants to take part in a run.
    Join { run_id: String },
    /// The client has the checkpoint loaded.
    ReadyForEpoch,
    /// The client witnessed a step. Fractions are given by the bits of IEEE singles.
    WitnessStep { step: u32, loss: u32, tokens_per_sec: u32 },
    /// The client witnessed the warmup.
    WarmupStep,
    /// The client reports on the health of others.
    HealthCheck,
    /// The client has written a checkpoint.
    Checkpoint,
}

/// What is to be asked of the coordinator on account of a message.
#[derive(Debug, Clone, Copy, PartialEq, Eq, Structural)]
pub enum CoordinatorCall {
    Nothing,
    /// Hand it the witness of a step; log the loss first where it was recorded.
    Witness { recorded: bool },
    /// Hand it the witness of the warmup.
    WarmupWitness,
    /// Hand it the report on the health of others.
    HealthCheck,
    /// Hand it the checkpoint of the client at this place in its list.
    Checkpoint { index: usize },
    /// Nothing: a checkpoint came from a client that is not in its list.
    UnknownCheckpointer,
}

/// What the coordinator said to a report on health.
#[derive(Debug, Clone, Copy, PartialEq, Eq, Structural)]
pub enum HealthCheckOutcome {
    Dropped(u32),
    Refused,
}

/// What came of a call.
#[derive(Debug, Clone, Copy, PartialEq, Eq, Structural)]
pub enum CallOutcome {
    /// Nothing was asked.
    NotAsked,
    /// A witness was handed over, accepted or not, with the run in this state afterwards.
    Witnessed { state_after: RunState },
    HealthChecked(HealthCheckOutcome),
    /// A checkpoint came in, accepted or not.
    Checkpointed,
}

/// What came of a tick.
#[derive(Debug, Clone, Copy, PartialEq, Eq, Structural)]
pub enum TickOutcome {
    Ticked,
    /// An epoch ended, or was abandoned.
    EpochEnd { completed: bool },
    Halted,
    Failed,
}

/// What is to be done after a tick.
#[derive(Debug)]
pub enum TickFollowUp {
    Nothing,
    /// Save the state, put back to waiting for members, under this name.
    SaveState { filename: String },
    WarnEpochAbandoned,
    WarnTickFailed,
}

/// What is to be done once the coordinator may have changed.
#[derive(Debug, Clone, Copy, PartialEq, Eq, Structural)]
pub struct StateChange {
    /// Send the state to all clients.
    pub broadcast: bool,
    /// Hand the state to the training-data service.
    pub feed_data_server: bool,
    /// Append the state to the file of states.
    pub record: bool,
}

/// What a pause key means.
#[derive(Debug, Clone, Copy, PartialEq, Eq, Structural)]
pub enum PauseCall {
    Pause,
    Resume,
}

/// The place of a client in a list.
pub open spec fn client_position(clients: Seq<ClientInfo>, id: Id256) -> Option<int>
    decreases clients.len(),
{
    if clients.len() == 0 {
        None
    } else if clients[0].id == id {
        Some(0)
    } else {
        match client_position(clients.drop_first(), id) {
            Some(i) => Some(i + 1),
            None => None,
        }
    }
}

/// What `client_position` finds: the first place, if there is one.
pub proof fn lemma_client_position(clients: Seq<ClientInfo>, id: Id256)
    ensures
        match client_position(clients, id) {
            Some(i) => {
                &&& 0 <= i < clients.len()
                &&& clients[i].id == id
                &&& forall|j: int| 0 <= j < i ==> (#[trigger] clients[j]).id != id
            },
            None => forall|j: int| 0 <= j < clients.len() ==> (#[trigger] clients[j]).id != id,
        },
    decreases clients.len(),
{
    if clients.len() > 0 && clients[0].id != id {
        let rest = clients.drop_first();
        lemma_client_position(rest, id);
        assert forall|j: int|
            0 <= j < (match client_position(clients, id) {
                Some(i) => i,
                None => clients.len() as int,
            }) implies (#[trigger] clients[j]).id != id by {
            if j > 0 {
                assert(rest[j - 1] == clients[j]);
            }
        }
    }
}

fn position_of(clients: &Vec<ClientInfo>, id: &Id256) -> (r: Option<usize>)
    ensures
        match r {
            Some(i) => client_position(clients@, *id) == Some(i as int),
            None => client_position(clients@, *id) is None,
        },
{
    proof {
        lemma_client_position(clients@, *id);
    }
    let mut i: usize = 0;
    while i < clients.len()
        invariant
            i <= clients@.len(),
            forall|j: int| 0 <= j < i ==> (#[trigger] clients@[j]).id != *id,
        decreases clients@.len() - i,
    {
        if clients[i].id.0 == id.0 && clients[i].id.1 == id.1 {
            proof {
                lemma_client_position(clients@, *id);
            }
            return Some(i);
        }
        i = i + 1;
    }
    proof {
        lemma_client_position(clients@, *id);
    }
    None
}

/// The server.
#[derive(Debug)]
pub struct App {
    coordinator: CoordinatorState,
    membership: Membership,
    loss_history: Vec<LossPoint>,
    last_coordinator_hash: u64,
    original_warmup_time: u64,
    withdraw_on_disconnect: bool,
    wandb_info: Option<WandbInfo>,
}

/// The server's state.
pub struct AppModel {
    pub coordinator: CoordinatorState,
    pub roster: Roster,
    pub loss_history: Seq<LossPoint>,
    pub last_coordinator_hash: u64,
    pub original_warmup_time: u64,
    pub withdraw_on_disconnect: bool,
    pub wandb_info: Option<WandbInfo>,
}

impl View for App {
    type V = AppModel;

    closed spec fn view(&self) -> AppModel {
        AppModel {
            coordinator: self.coordinator,
            roster: self.membership@,
            loss_history: self.loss_history@,
            last_coordinator_hash: self.last_coordinator_hash,
            original_warmup_time: self.original_warmup_time,
            withdraw_on_disconnect: self.withdraw_on_disconnect,
            wandb_info: self.wandb_info,
        }
    }
}

impl AppModel {
    /// The point that a witness of a step adds to the history.
    pub open spec fn loss_point(self, step: u32, loss: u32, tokens_per_sec: u32, now: u64) -> LossPoint {
        LossPoint {
            step,
            tokens_processed: self.coordinator.total_tokens_processed,
            loss,
            tokens_per_sec,
            unix_timestamp: now,
        }
    }

    /// The state after a message. Joining another run changes nothing; a loss is recorded where it
    /// is finite.
    pub open spec fn after_message(self, from: Id256, message: ClientMessage, now: u64) -> AppModel {
        match message {
            ClientMessage::Join { run_id } => if run_id@ == self.coordinator.run_id@ {
                AppModel { roster: self.roster.after_join(from), ..self }
            } else {
                self
            },
            ClientMessage::ReadyForEpoch => AppModel {
                roster: self.roster.after_ready(from),
                ..self
            },
            ClientMessage::WitnessStep { step, loss, tokens_per_sec } => if is_finite(loss) {
                AppModel {
                    loss_history: history_after(
                        self.loss_history,
                        self.loss_point(step, loss, tokens_per_sec, now),
                    ),
                    ..self
                }
            } else {
                self
            },
            _ => self,
        }
    }

    /// The state once the coordinator may have changed: a run under way gets back its own length of
    /// warmup, and the hash of a state that is recorded is kept.
    pub open spec fn after_state_change(self, active: bool, hash: Option<u64>) -> AppModel {
        AppModel {
            coordinator: if active {
                CoordinatorState {
                    config: RunConfig {
                        warmup_time: self.original_warmup_time,
                        ..self.coordinator.config
                    },
                    ..self.coordinator
                }
            } else {
                self.coordinator
            },
            last_coordinator_hash: match hash {
                Some(h) => h,
                None => self.last_coordinator_hash,
            },
            ..self
        }
    }

    /// What is to be done once the coordinator may have changed. A state is recorded where it is not
    /// the one recorded last.
    pub open spec fn state_change(
        self,
        broadcast: bool,
        has_data_server: bool,
        hash: Option<u64>,
    ) -> StateChange {
        StateChange {
            broadcast,
            feed_data_server: broadcast && has_data_server,
            record: hash matches Some(h) && h != self.last_coordinator_hash,
        }
    }

    /// What a message asks of the coordinator.
    pub open spec fn call_for(self, from: Id256, message: ClientMessage) -> CoordinatorCall {
        match message {
            ClientMessage::Join { .. } | ClientMessage::ReadyForEpoch => CoordinatorCall::Nothing,
            ClientMessage::WitnessStep { loss, .. } => CoordinatorCall::Witness {
                recorded: is_finite(loss),
            },
            ClientMessage::WarmupStep => CoordinatorCall::WarmupWitness,
            ClientMessage::HealthCheck => CoordinatorCall::HealthCheck,
            ClientMessage::Checkpoint => match client_position(
                self.coordinator.epoch_state.clients@,
                from,
            ) {
                Some(i) => CoordinatorCall::Checkpoint { index: i as usize },
                None => CoordinatorCall::UnknownCheckpointer,
            },
        }
    }
}

/// Whether the state is sent to all clients after a message: when a witness changed the run's
/// state, when a report on health dropped somebody, and after every checkpoint.
pub open spec fn broadcasts(state_before: RunState, outcome: CallOutcome) -> bool {
    match outcome {
        CallOutcome::NotAsked => false,
        CallOutcome::Witnessed { state_after } => state_after != state_before,
        CallOutcome::HealthChecked(HealthCheckOutcome::Dropped(n)) => n > 0,
        CallOutcome::HealthChecked(HealthCheckOutcome::Refused) => false,
        CallOutcome::Checkpointed => true,
    }
}

/// Whether the state is sent to all clients after a message.
pub fn must_broadcast(state_before: RunState, outcome: CallOutcome) -> (r: bool)
    ensures
        r == broadcasts(state_before, outcome),
{
    match outcome {
        CallOutcome::NotAsked => false,
        CallOutcome::Witnessed { state_after } => state_after != state_before,
        CallOutcome::HealthChecked(HealthCheckOutcome::Dropped(n)) => n > 0,
        CallOutcome::HealthChecked(HealthCheckOutcome::Refused) => false,
        CallOutcome::Checkpointed => true,
    }
}

/// The name under which a state is saved, given how the run's name is shown.
pub open spec fn state_filename(run: Seq<char>, step: nat) -> Seq<char> {
    run + "-step"@ + decimal(step) + ".toml"@
}

impl App {
    /// A server that takes up the run `coordinator`, put back to waiting for members, together with
    /// what its training-data service needs. The first warmup may be given another length; the
    /// length it has afterwards is kept.
    pub fn new(
        coordinator: CoordinatorState,
        init_warmup_time: Option<u64>,
        withdraw_on_disconnect: bool,
        wandb_info: Option<WandbInfo>,
    ) -> (r: Result<(App, Option<DataServerPlan>), StartupError>)
        ensures
            planned(coordinator.model) == (match r {
                Ok((_, plan)) => Ok::<Option<DataServerPlan>, StartupError>(plan),
                Err(e) => Err(e),
            }),
            r matches Ok((app, _)) ==> {
                &&& app@.roster == Roster::empty()
                &&& app@.loss_history == Seq::<LossPoint>::empty()
                &&& app@.last_coordinator_hash == 0
                &&& app@.original_warmup_time == coordinator.config.warmup_time
                &&& app@.withdraw_on_disconnect == withdraw_on_disconnect
                &&& app@.wandb_info == wandb_info
                &&& vacated(
                    coordinator.epoch_state.clients@,
                    app@.coordinator.epoch_state.clients@,
                )
                &&& vacated(
                    coordinator.epoch_state.exited_clients@,
                    app@.coordinator.epoch_state.exited_clients@,
                )
                &&& app@.coordinator == (CoordinatorState {
                    run_state: RunState::WaitingForMembers,
                    config: RunConfig {
                        warmup_time: match init_warmup_time {
                            Some(t) => t,
                            None => coordinator.config.warmup_time,
                        },
                        ..coordinator.config
                    },
                    epoch_state: EpochState {
                        clients: app@.coordinator.epoch_state.clients,
                        exited_clients: app@.coordinator.epoch_state.exited_clients,
                        ..coordinator.epoch_state
                    },
                    ..coordinator
                })
            },
    {
        let plan = match plan_data_server(&coordinator.model) {
            Ok(p) => p,
            Err(e) => {
                return Err(e);
            },
        };
        let mut coordinator = coordinator;
        reset_ephemeral(&mut coordinator);
        let original_warmup_time: u64 = coordinator.config.warmup_time;
        if let Some(t) = init_warmup_time {
            coordinator.config.warmup_time = t;
        }
        let app = App {
            coordinator,
            membership: Membership::new(),
            loss_history: Vec::new(),
            last_coordinator_hash: 0,
            original_warmup_time,
            withdraw_on_disconnect,
            wandb_info,
        };
        Ok((app, plan))
    }

    /// The connected clients, as they are kept.
    pub closed spec fn members(&self) -> Membership {
        self.membership
    }

    /// The clients of the epoch.
    pub fn get_clients(&self) -> (r: &Vec<ClientInfo>)
        ensures
            *r == self@.coordinator.epoch_state.clients,
    {
        &self.coordinator.epoch_state.clients
    }

    /// Clients that have joined but have not yet loaded the checkpoint.
    pub fn get_pending_clients(&self) -> (r: Vec<Id256>)
        ensures
            r@.to_set() == self@.roster.pending,
            r@.no_duplicates(),
            self@.roster.apart(),
    {
        self.membership.pending_clients()
    }

    /// Clients that have the checkpoint loaded.
    pub fn get_ready_clients(&self) -> (r: Vec<Id256>)
        ensures
            r@.to_set() == self@.roster.ready,
            r@.no_duplicates(),
    {
        self.membership.ready_clients()
    }

    /// All connected clients, ready or not.
    pub fn get_all_connected_clients(&self) -> (r: Vec<Id256>)
        ensures
            r@.to_set() == self@.roster.connected(),
            r@.no_duplicates(),
    {
        self.membership.connected_clients()
    }

    /// The phase of the run.
    pub fn get_run_state(&self) -> (r: RunState)
        ensures
            r == self@.coordinator.run_state,
    {
        self.coordinator.run_state
    }

    /// The rounds that the coordinator remembers.
    pub fn get_rounds(&self) -> (r: &[Round; 4])
        ensures
            *r == self@.coordinator.epoch_state.rounds,
    {
        &self.coordinator.epoch_state.rounds
    }

    /// Which of the rounds is the current one.
    pub fn get_rounds_head(&self) -> (r: u32)
        ensures
            r == self@.coordinator.epoch_state.rounds_head,
    {
        self.coordinator.epoch_state.rounds_head
    }

    /// The current epoch.
    pub fn get_current_epoch(&self) -> (r: u16)
        ensures
            r == self@.coordinator.progress.epoch,
    {
        self.coordinator.progress.epoch
    }

    /// Where the model's weights are kept.
    pub fn get_checkpoint(&self) -> (r: &Checkpoint)
        ensures
            *r == self@.coordinator.model.checkpoint,
    {
        &self.coordinator.model.checkpoint
    }

    /// The coordinator's state.
    pub fn get_coordinator(&self) -> (r: &CoordinatorState)
        ensures
            *r == self@.coordinator,
    {
        &self.coordinator
    }

    /// The losses reported so far.
    pub fn get_loss_history(&self) -> (r: &Vec<LossPoint>)
        ensures
            r@ == self@.loss_history,
    {
        &self.loss_history
    }

    /// Where metrics are logged.
    pub fn get_wandb_info(&self) -> (r: &Option<WandbInfo>)
        ensures
            *r == self@.wandb_info,
    {
        &self.wandb_info
    }

    /// Takes in what the coordinator has become.
    pub fn set_coordinator(&mut self, coordinator: CoordinatorState)
        ensures
            final(self)@ == (AppModel { coordinator, ..old(self)@ }),
    {
        self.coordinator = coordinator;
    }

    /// Takes in a message at the moment `now`, and says what it asks of the coordinator.
    pub fn on_client_message(&mut self, from: Id256, message: &ClientMessage, now: u64) -> (r:
        CoordinatorCall)
        ensures
            final(self)@ == old(self)@.after_message(from, *message, now),
            r == old(self)@.call_for(from, *message),
            match message {
                ClientMessage::WitnessStep { step, loss, tokens_per_sec } => is_finite(*loss) ==> {
                    let last = final(self)@.loss_history.last();
                    &&& final(self)@.loss_history.len() > 0
                    &&& last.step == step
                    &&& last.loss == loss
                    &&& last.tokens_per_sec == tokens_per_sec
                    &&& last.unix_timestamp == now
                    &&& last.tokens_processed == old(self)@.coordinator.total_tokens_processed
                },
                ClientMessage::Join { run_id } => run_id@ == old(self)@.coordinator.run_id@
                    ==> final(self)@.roster.connected().contains(from),
                ClientMessage::ReadyForEpoch => final(self)@.roster.ready.contains(from),
                _ => final(self)@ == old(self)@,
            },
    {
        match message {
            ClientMessage::Join { run_id } => {
                if *run_id == self.coordinator.run_id {
                    self.membership.join(from);
                }
                CoordinatorCall::Nothing
            },
            ClientMessage::ReadyForEpoch => {
                self.membership.make_ready(from);
                CoordinatorCall::Nothing
            },
            ClientMessage::WitnessStep { step, loss, tokens_per_sec } => {
                let recorded = single_is_finite(*loss);
                if recorded {
                    let point = LossPoint {
                        step: *step,
                        tokens_processed: self.coordinator.total_tokens_processed,
                        loss: *loss,
                        tokens_per_sec: *tokens_per_sec,
                        unix_timestamp: now,
                    };
                    push_loss_point(&mut self.loss_history, point);
                }
                CoordinatorCall::Witness { recorded }
            },
            ClientMessage::WarmupStep => CoordinatorCall::WarmupWitness,
            ClientMessage::HealthCheck => CoordinatorCall::HealthCheck,
            ClientMessage::Checkpoint => {
                match position_of(&self.coordinator.epoch_state.clients, &from) {
                    Some(index) => CoordinatorCall::Checkpoint { index },
                    None => CoordinatorCall::UnknownCheckpointer,
                }
            },
        }
    }

    /// Takes in that a client is gone, and says which client the coordinator is to withdraw.
    pub fn on_disconnect(&mut self, from: Id256) -> (r: Option<usize>)
        ensures
            final(self)@ == (AppModel { roster: old(self)@.roster.after_leave(from), ..old(self)@ }),
            r == (if old(self)@.withdraw_on_disconnect {
                match client_position(old(self)@.coordinator.epoch_state.clients@, from) {
                    Some(i) => Some(i as usize),
                    None => None,
                }
            } else {
                None
            }),
            !final(self)@.roster.connected().contains(from),
            r matches Some(i) ==> i < old(self)@.coordinator.epoch_state.clients@.len()
                && old(self)@.coordinator.epoch_state.clients@[i as int].id == from,
    {
        proof {
            lemma_client_position(self.coordinator.epoch_state.clients@, from);
        }
        self.membership.leave(&from);
        if self.withdraw_on_disconnect {
            position_of(&self.coordinator.epoch_state.clients, &from)
        } else {
            None
        }
    }

    /// Shows out the clients that did not stay healthy, and says who may be admitted at this tick.
    pub fn on_tick(&mut self) -> (r: Vec<Id256>)
        ensures
            final(self)@ == (AppModel {
                roster: old(self)@.roster.after_kick(
                    old(self)@.coordinator.epoch_state.exited_clients@,
                ),
                ..old(self)@
            }),
            r@ == (if is_p2p(old(self)@.coordinator.model.checkpoint) {
                final(self).members().pending_listed() + final(self).members().ready_listed()
            } else {
                final(self).members().ready_listed()
            }),
            r@.to_set() == final(self)@.roster.admissible(
                is_p2p(old(self)@.coordinator.model.checkpoint),
            ),
            r@.no_duplicates(),
    {
        self.membership.kick_unhealthy_clients(&self.coordinator.epoch_state.exited_clients);
        let p2p = match &self.coordinator.model.checkpoint {
            Checkpoint::P2P(_) | Checkpoint::P2PGcs(_) => true,
            _ => false,
        };
        self.membership.admission(p2p)
    }

    /// What is to be done after a tick. A completed epoch is saved, under the step that it ended
    /// with, where states are saved at all.
    pub fn after_tick(&self, outcome: TickOutcome, saves_states: bool, run_shown: &str) -> (r:
        TickFollowUp)
        requires
            outcome == (TickOutcome::EpochEnd { completed: true }) && saves_states
                ==> self@.coordinator.progress.step > 0,
        ensures
            match outcome {
                TickOutcome::EpochEnd { completed: true } => if saves_states {
                    r matches TickFollowUp::SaveState { filename } && filename@ == state_filename(
                        run_shown@,
                        (self@.coordinator.progress.step - 1) as nat,
                    )
                } else {
                    r == TickFollowUp::Nothing
                },
                TickOutcome::EpochEnd { completed: false } => r == TickFollowUp::WarnEpochAbandoned,
                TickOutcome::Ticked | TickOutcome::Halted => r == TickFollowUp::Nothing,
                TickOutcome::Failed => r == TickFollowUp::WarnTickFailed,
            },
    {
        match outcome {
            TickOutcome::EpochEnd { completed } => {
                if !completed {
                    return TickFollowUp::WarnEpochAbandoned;
                }
                if !saves_states {
                    return TickFollowUp::Nothing;
                }
                let mut filename = run_shown.to_string();
                filename.append("-step");
                filename.append(decimal_text((self.coordinator.progress.step - 1) as u64).as_str());
                filename.append(".toml");
                TickFollowUp::SaveState { filename }
            },
            TickOutcome::Ticked | TickOutcome::Halted => TickFollowUp::Nothing,
            TickOutcome::Failed => TickFollowUp::WarnTickFailed,
        }
    }

    /// Settles what follows once the coordinator may have changed. `hash` is that of its state with
    /// the warmup put right, where states are recorded.
    pub fn post_state_change(
        &mut self,
        active: bool,
        broadcast: bool,
        has_data_server: bool,
        hash: Option<u64>,
    ) -> (r: StateChange)
        ensures
            final(self)@ == old(self)@.after_state_change(active, hash),
            r == old(self)@.state_change(broadcast, has_data_server, hash),
    {
        if active {
            self.coordinator.config.warmup_time = self.original_warmup_time;
        }
        let record = match hash {
            Some(h) => {
                let changed = h != self.last_coordinator_hash;
                self.last_coordinator_hash = h;
                changed
            },
            None => false,
        };
        StateChange { broadcast, feed_data_server: broadcast && has_data_server, record }
    }

    /// What a pause key means: a paused run goes on, any other is paused.
    pub fn pause(&self) -> (r: PauseCall)
        ensures
            r == (if self@.coordinator.run_state == RunState::Paused {
                PauseCall::Resume
            } else {
                PauseCall::Pause
            }),
    {
        match self.coordinator.run_state {
            RunState::Paused => PauseCall::Resume,
            _ => PauseCall::Pause,
        }
    }

    /// Brings what the monitor shows up to date: with the coordinator as it stands, the losses, and
    /// the connected clients under the names that they are shown by.
    pub fn update_web_state(
        &self,
        shared: &mut WebState,
        syncing_clients: Vec<String>,
        ready_clients: Vec<String>,
        server_addr: String,
    )
        ensures
            final(shared).coordinator matches Some(c) && c.same_as(self@.coordinator),
            final(shared).loss_history@ == self@.loss_history,
            final(shared).syncing_clients == syncing_clients,
            final(shared).ready_clients == ready_clients,
            final(shared).server_addr == server_addr,
            final(shared).wandb == self@.wandb_info,
    {
        let mut losses: Vec<LossPoint> = Vec::new();
        let mut i: usize = 0;
        while i < self.loss_history.len()
            invariant
                i <= self.loss_history@.len(),
                losses@ == self.loss_history@.take(i as int),
            decreases self.loss_history@.len() - i,
        {
            losses.push(self.loss_history[i]);
            i = i + 1;
            assert(losses@ =~= self.loss_history@.take(i as int));
        }
        assert(losses@ =~= self.loss_history@);
        shared.coordinator = Some(self.coordinator.clone());
        shared.loss_history = losses;
        shared.syncing_clients = syncing_clients;
        shared.ready_clients = ready_clients;
        shared.server_addr = server_addr;
        shared.wandb = match &self.wandb_info {
            Some(info) => Some(info.clone()),
            None => None,
        };
    }
}

/// A message can neither connect anybody but its sender nor disconnect anybody.
pub proof fn law_messages_concern_their_sender(
    m: AppModel,
    from: Id256,
    message: ClientMessage,
    now: u64,
    other: Id256,
)
    ensures
        other != from ==> (m.after_message(from, message, now).roster.connected().contains(other)
            <==> m.roster.connected().contains(other)),
        m.roster.connected().contains(from) ==> m.after_message(
            from,
            message,
            now,
        ).roster.connected().contains(from),
        m.after_message(from, message, now).coordinator == m.coordinator,
{
}

/// No message makes a client both pending and ready.
pub proof fn law_messages_keep_clients_apart(
    m: AppModel,
    from: Id256,
    message: ClientMessage,
    now: u64,
)
    requires
        m.roster.apart(),
    ensures
        m.after_message(from, message, now).roster.apart(),
{
    law_pending_and_ready_are_apart(m.roster, from, Seq::empty());
}

/// Who joins another run is not connected on that account.
pub proof fn law_other_runs_are_not_joined(m: AppModel, from: Id256, run_id: String, now: u64)
    requires
        run_id@ != m.coordinator.run_id@,
    ensures
        m.after_message(from, ClientMessage::Join { run_id }, now) == m,
{
}

/// A state is recorded once: told of it again, there is nothing to record.
pub proof fn law_states_are_recorded_once(
    m: AppModel,
    active: bool,
    broadcast: bool,
    has_data_server: bool,
    hash: u64,
)
    ensures
        !m.after_state_change(active, Some(hash)).state_change(
            broadcast,
            has_data_server,
            Some(hash),
        ).record,
{
}

/// Whatever the length of the first warmup, a run under way has its own, and keeps it.
pub proof fn law_warmup_time_is_restored(m: AppModel, hash: Option<u64>)
    ensures
        m.after_state_change(true, hash).coordinator.config.warmup_time == m.original_warmup_time,
        m.after_state_change(true, hash).after_state_change(true, hash) == m.after_state_change(
            true,
            hash,
        ),
{
}

} // verus!
