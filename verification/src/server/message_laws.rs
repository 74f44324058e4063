//! What the server makes of what it is told.

use vstd::prelude::*;

use super::app::{
    broadcasts, client_position, lemma_client_position, state_filename, AppModel, CallOutcome,
    ClientMessage, CoordinatorCall, HealthCheckOutcome,
};
use super::loss::{
    finite_losses, is_finite, is_finite_positive, law_history_spans_all_steps,
    positive_throughputs, weight, LossPoint,
};
use super::membership::{unhealthy, Roster};
use super::startup::{planned, server_run_name, vacant, vacated, ModelFetch, StartupError};
use crate::coordinator::{
    is_p2p, Checkpoint, ClientInfo, ClientState, DataLocation, LlmInfo, RunState,
};
use crate::sets::Id256;
use crate::text::decimal;

verus! {

/// An IEEE single is finite unless all bits of its exponent are set; it is finite and positive where,
/// besides, its sign is not set and it is not zero.
pub proof fn law_finite_by_its_exponent(bits: u32)
    ensures
        is_finite(bits) <==> (bits >> 23u32) & 0xffu32 != 0xffu32,
        is_finite_positive(bits) <==> (bits >> 23u32) & 0xffu32 != 0xffu32 && bits >> 31u32 == 0u32
            && bits != 0u32,
{
    assert((bits % 0x8000_0000u32 < 0x7f80_0000u32) <==> (bits >> 23u32) & 0xffu32 != 0xffu32)
        by (bit_vector);
    assert((0u32 < bits && bits < 0x7f80_0000u32) <==> ((bits >> 23u32) & 0xffu32 != 0xffu32 && bits
        >> 31u32 == 0u32 && bits != 0u32)) by (bit_vector);
}

/// A witnessed step whose loss is finite is recorded: the last point of the history has the step, the
/// loss and the throughput of the message, the moment at which it came, and the tokens processed so
/// far. One whose loss is not finite is not.
pub proof fn law_witnessed_losses_are_recorded(
    m: AppModel,
    from: Id256,
    step: u32,
    loss: u32,
    tokens_per_sec: u32,
    now: u64,
)
    ensures
        ({
            let after = m.after_message(
                from,
                ClientMessage::WitnessStep { step, loss, tokens_per_sec },
                now,
            );
            if is_finite(loss) {
                &&& after.loss_history.len() > 0
                &&& after.loss_history.last().step == step
                &&& after.loss_history.last().loss == loss
                &&& after.loss_history.last().tokens_per_sec == tokens_per_sec
                &&& after.loss_history.last().unix_timestamp == now
                &&& after.loss_history.last().tokens_processed == m.coordinator.total_tokens_processed
                &&& m.loss_history.len() < 5000 ==> after.loss_history.drop_last() == m.loss_history
            } else {
                after.loss_history == m.loss_history
            }
        }),
{
    let point = LossPoint {
        step,
        tokens_processed: m.coordinator.total_tokens_processed,
        loss,
        tokens_per_sec,
        unix_timestamp: now,
    };
    law_history_spans_all_steps(m.loss_history, point);
    assert(m.loss_history.push(point).drop_last() =~= m.loss_history);
}

/// What a message changes of who is connected. A client that joins the run waits until it is ready,
/// unless it is ready already; one that is ready no longer waits. No other message changes anybody.
pub proof fn law_messages_change_the_roster(
    m: AppModel,
    from: Id256,
    message: ClientMessage,
    now: u64,
    x: Id256,
)
    ensures
        ({
            let before = m.roster;
            let after = m.after_message(from, message, now).roster;
            match message {
                ClientMessage::Join { run_id } => {
                    &&& after.ready.contains(x) == before.ready.contains(x)
                    &&& after.pending.contains(x) == (before.pending.contains(x) || (x == from
                        && run_id@ == m.coordinator.run_id@ && !before.ready.contains(from)))
                },
                ClientMessage::ReadyForEpoch => {
                    &&& after.ready.contains(x) == (before.ready.contains(x) || x == from)
                    &&& after.pending.contains(x) == (before.pending.contains(x) && x != from)
                },
                _ => after == before,
            }
        }),
{
}

/// What a message leaves alone: the coordinator and all settings, and, unless a step was witnessed, the
/// history of losses.
pub proof fn law_messages_leave_the_rest(m: AppModel, from: Id256, message: ClientMessage, now: u64)
    ensures
        ({
            let after = m.after_message(from, message, now);
            &&& after.coordinator == m.coordinator
            &&& after.last_coordinator_hash == m.last_coordinator_hash
            &&& after.original_warmup_time == m.original_warmup_time
            &&& after.withdraw_on_disconnect == m.withdraw_on_disconnect
            &&& after.wandb_info == m.wandb_info
            &&& !(message is WitnessStep) ==> after.loss_history == m.loss_history
        }),
{
}

/// What a message asks of the coordinator: a witness of a step or of the warmup and a report on health
/// are handed over; a checkpoint under the first place of its sender among the clients of the epoch,
/// if it has one; joining and getting ready ask nothing.
pub proof fn law_messages_ask_the_coordinator(m: AppModel, from: Id256, message: ClientMessage, j: int)
    requires
        m.coordinator.epoch_state.clients@.len() <= usize::MAX,
    ensures
        ({
            let clients = m.coordinator.epoch_state.clients@;
            match (message, m.call_for(from, message)) {
                (ClientMessage::Join { .. }, call) => call == CoordinatorCall::Nothing,
                (ClientMessage::ReadyForEpoch, call) => call == CoordinatorCall::Nothing,
                (ClientMessage::WitnessStep { loss, .. }, call) => call == (CoordinatorCall::Witness {
                    recorded: is_finite(loss),
                }),
                (ClientMessage::WarmupStep, call) => call == CoordinatorCall::WarmupWitness,
                (ClientMessage::HealthCheck, call) => call == CoordinatorCall::HealthCheck,
                (ClientMessage::Checkpoint, CoordinatorCall::Checkpoint { index }) => {
                    &&& index < clients.len()
                    &&& clients[index as int].id == from
                    &&& 0 <= j < index ==> clients[j].id != from
                },
                (ClientMessage::Checkpoint, call) => {
                    &&& call == CoordinatorCall::UnknownCheckpointer
                    &&& 0 <= j < clients.len() ==> clients[j].id != from
                },
            }
        }),
{
    lemma_client_position(m.coordinator.epoch_state.clients@, from);
}

/// The place of a client is the first at which it stands, and it has none where it stands nowhere.
pub proof fn law_places_are_first_places(clients: Seq<ClientInfo>, id: Id256, j: int)
    ensures
        match client_position(clients, id) {
            Some(i) => 0 <= i < clients.len() && clients[i].id == id && (0 <= j < i ==> clients[j].id
                != id),
            None => 0 <= j < clients.len() ==> clients[j].id != id,
        },
{
    lemma_client_position(clients, id);
}

/// The state is sent to all clients where a witness changed it, where a report on health dropped
/// somebody, and after every checkpoint; and else not.
pub proof fn law_changes_are_broadcast(before: RunState, after: RunState, dropped: u32)
    ensures
        broadcasts(before, CallOutcome::Witnessed { state_after: after }) <==> before != after,
        broadcasts(before, CallOutcome::HealthChecked(HealthCheckOutcome::Dropped(dropped)))
            <==> dropped != 0,
        !broadcasts(before, CallOutcome::HealthChecked(HealthCheckOutcome::Refused)),
        broadcasts(before, CallOutcome::Checkpointed),
        !broadcasts(before, CallOutcome::NotAsked),
{
}

/// What follows once the coordinator may have changed. Only a broadcast feeds the data service, and
/// only where there is one. A state is recorded exactly where states are recorded and it is another
/// than the last one, which is from then on this one. A run under way has its own length of warmup;
/// nothing else changes.
pub proof fn law_state_changes_are_settled(
    m: AppModel,
    active: bool,
    broadcast: bool,
    has_data_server: bool,
    hash: Option<u64>,
)
    ensures
        ({
            let r = m.state_change(broadcast, has_data_server, hash);
            let after = m.after_state_change(active, hash);
            &&& r.broadcast == broadcast
            &&& r.feed_data_server == (broadcast && has_data_server)
            &&& r.record == (hash is Some && hash != Some(m.last_coordinator_hash))
            &&& hash matches Some(h) ==> after.last_coordinator_hash == h
            &&& hash is None ==> after.last_coordinator_hash == m.last_coordinator_hash
            &&& !active ==> after.coordinator == m.coordinator
            &&& active ==> after.coordinator.config.warmup_time == m.original_warmup_time
            &&& after.coordinator.run_id == m.coordinator.run_id
            &&& after.coordinator.run_state == m.coordinator.run_state
            &&& after.coordinator.progress == m.coordinator.progress
            &&& after.coordinator.epoch_state == m.coordinator.epoch_state
            &&& after.coordinator.model == m.coordinator.model
            &&& after.coordinator.total_tokens_processed == m.coordinator.total_tokens_processed
            &&& after.coordinator.config.total_steps == m.coordinator.config.total_steps
            &&& after.coordinator.config.epoch_time == m.coordinator.config.epoch_time
            &&& after.coordinator.config.cooldown_time == m.coordinator.config.cooldown_time
            &&& after.roster == m.roster
            &&& after.loss_history == m.loss_history
            &&& after.original_warmup_time == m.original_warmup_time
            &&& after.withdraw_on_disconnect == m.withdraw_on_disconnect
            &&& after.wandb_info == m.wandb_info
        }),
{
}

/// A state is saved under the run's name and its step.
pub proof fn law_states_are_named_by_run_and_step(run: Seq<char>, step: nat)
    ensures
        state_filename(run, step) == run + "-step"@ + decimal(step) + ".toml"@,
{
}

// Who is connected

/// Who is connected after a client joined, got ready or left, and after those that did not stay healthy
/// were shown out: each change concerns exactly those that it names.
pub proof fn law_rosters_change_by_name(r: Roster, id: Id256, exited: Seq<ClientInfo>, x: Id256)
    ensures
        r.after_join(id).ready.contains(x) == r.ready.contains(x),
        r.after_join(id).pending.contains(x) == (r.pending.contains(x) || (x == id
            && !r.ready.contains(id))),
        r.after_ready(id).ready.contains(x) == (r.ready.contains(x) || x == id),
        r.after_ready(id).pending.contains(x) == (r.pending.contains(x) && x != id),
        r.after_leave(id).ready.contains(x) == (r.ready.contains(x) && x != id),
        r.after_leave(id).pending.contains(x) == (r.pending.contains(x) && x != id),
        r.after_kick(exited).ready.contains(x) == (r.ready.contains(x) && !unhealthy(exited).contains(x)),
        r.after_kick(exited).pending.contains(x) == (r.pending.contains(x) && !unhealthy(
            exited,
        ).contains(x)),
        r.connected().contains(x) == (r.pending.contains(x) || r.ready.contains(x)),
        r.admissible(false).contains(x) == r.ready.contains(x),
        r.admissible(true).contains(x) == (r.pending.contains(x) || r.ready.contains(x)),
        !Roster::empty().connected().contains(x),
{
}

/// Those that did not stay healthy are those that a list names as dropped, withdrawn or ejected.
pub proof fn law_the_unhealthy_are_named(exited: Seq<ClientInfo>, i: int, x: Id256)
    ensures
        0 <= i < exited.len() && exited[i].state != ClientState::Healthy ==> unhealthy(exited).contains(
            exited[i].id,
        ),
        unhealthy(exited).contains(x) ==> exists|j: int|
            0 <= j < exited.len() && (#[trigger] exited[j]).id == x && exited[j].state
                != ClientState::Healthy,
{
}

/// Weights come from other clients exactly where the checkpoint is one of the two peer-to-peer kinds.
pub proof fn law_peer_to_peer_checkpoints(checkpoint: Checkpoint)
    ensures
        is_p2p(checkpoint) <==> match checkpoint {
            Checkpoint::P2P(_) | Checkpoint::P2PGcs(_) => true,
            Checkpoint::Ephemeral | Checkpoint::Dummy(_) | Checkpoint::Hub(_) | Checkpoint::Gcs(_) =>
                false,
        },
{
}

// The history

/// The points with a finite loss are those of the history with one, in order and none else; and
/// likewise those with a throughput that is finite and positive.
pub proof fn law_chosen_points(s: Seq<LossPoint>, p: LossPoint)
    ensures
        finite_losses(s).contains(p) <==> s.contains(p) && is_finite(p.loss),
        positive_throughputs(s).contains(p) <==> s.contains(p) && is_finite_positive(p.tokens_per_sec),
        finite_losses(s.push(p)) == (if is_finite(p.loss) {
            finite_losses(s).push(p)
        } else {
            finite_losses(s)
        }),
        positive_throughputs(s.push(p)) == (if is_finite_positive(p.tokens_per_sec) {
            positive_throughputs(s).push(p)
        } else {
            positive_throughputs(s)
        }),
{
    let f = |p: LossPoint| is_finite(p.loss);
    let g = |p: LossPoint| is_finite_positive(p.tokens_per_sec);
    broadcast use vstd::seq_lib::group_filter_ensures;

    if s.contains(p) {
        let i = choose|i: int| 0 <= i < s.len() && s[i] == p;
        assert(f(s[i]) ==> s.filter(f).contains(s[i]));
        assert(g(s[i]) ==> s.filter(g).contains(s[i]));
    }
    if s.filter(f).contains(p) {
        lemma_chosen_is_there(s, f, p);
    }
    if s.filter(g).contains(p) {
        lemma_chosen_is_there(s, g, p);
    }
    reveal(Seq::filter);
    assert(s.push(p).drop_last() =~= s);
    assert(s.push(p).last() == p);
}

proof fn lemma_chosen_is_there(s: Seq<LossPoint>, f: spec_fn(LossPoint) -> bool, p: LossPoint)
    requires
        s.filter(f).contains(p),
    ensures
        s.contains(p),
        f(p),
    decreases s.len(),
{
    reveal(Seq::filter);
    if s.len() > 0 {
        let rest = s.drop_last();
        if rest.filter(f).contains(p) {
            lemma_chosen_is_there(rest, f, p);
            let i = choose|i: int| 0 <= i < rest.len() && rest[i] == p;
            assert(s[i] == p);
        } else {
            assert(f(s.last()));
            let t = s.filter(f);
            let i = choose|i: int| 0 <= i < t.len() && t[i] == p;
            if i < t.len() - 1 {
                assert(rest.filter(f)[i] == p);
            }
            assert(s[s.len() - 1] == p);
        }
    }
}

/// A point counts for the seconds until the next one, at least one; the last for as long as the one
/// before it; and a point that stands alone for one.
pub proof fn law_points_count_until_the_next(s: Seq<LossPoint>, i: int)
    requires
        0 <= i < s.len(),
    ensures
        i + 1 < s.len() && s[i + 1].unix_timestamp > s[i].unix_timestamp ==> weight(s, i)
            == s[i + 1].unix_timestamp - s[i].unix_timestamp,
        i + 1 < s.len() && s[i + 1].unix_timestamp <= s[i].unix_timestamp ==> weight(s, i) == 1,
        i + 1 == s.len() && i > 0 ==> weight(s, i) == weight(s, i - 1),
        s.len() == 1 ==> weight(s, i) == 1,
{
}

// Startup

/// What has to be fetched before a run can serve its training data. A run whose data lies elsewhere
/// needs nothing. One whose weights are nowhere, or only with other clients, cannot be started. A
/// repository of the hub is fetched at its revision, and where none is named only if it does not lie
/// here yet; a bucket with its prefix.
pub proof fn law_startup_fetches_the_model(model: LlmInfo)
    ensures
        model.data_location is Elsewhere ==> planned(model) matches Ok(None),
        model.data_location matches DataLocation::Server(url) ==> match model.checkpoint {
            Checkpoint::Ephemeral => planned(model) matches Err(e) && e
                == StartupError::EphemeralCheckpoint,
            Checkpoint::P2P(_) | Checkpoint::P2PGcs(_) => planned(model) matches Err(e) && e
                == StartupError::P2PCheckpoint,
            Checkpoint::Dummy(_) => planned(model) matches Ok(Some(plan)) && plan.url == url
                && plan.fetch is Nothing,
            Checkpoint::Hub(hub) => {
                &&& planned(model) matches Ok(Some(plan))
                &&& plan.url == url
                &&& plan.fetch matches ModelFetch::Hub { repo_id, revision, unless_present }
                &&& repo_id == hub.repo_id
                &&& revision == hub.revision
                &&& unless_present <==> hub.revision is None
            },
            Checkpoint::Gcs(gcs) => {
                &&& planned(model) matches Ok(Some(plan))
                &&& plan.url == url
                &&& plan.fetch matches ModelFetch::Gcs { bucket, prefix }
                &&& bucket == gcs.bucket
                &&& prefix == gcs.prefix
            },
        },
{
}

/// A logged run that the environment does not name is named by the run and the moment.
pub proof fn law_logged_runs_are_named(run_id: Seq<char>, stamp: Seq<char>)
    ensures
        server_run_name(run_id, stamp) == "server-"@ + run_id + "-"@ + stamp,
{
}

/// A run that goes back to waiting keeps as many slots as it had, all of them healthy and nobody's.
pub proof fn law_slots_are_vacated(before: Seq<ClientInfo>, after: Seq<ClientInfo>, i: int)
    requires
        vacated(before, after),
    ensures
        after.len() == before.len(),
        0 <= i < before.len() ==> {
            &&& after[i].id == (0u128, 0u128)
            &&& after[i].label@.len() == 0
            &&& after[i].state == ClientState::Healthy
            &&& after[i].exited_height == 0
        },
{
    if 0 <= i < before.len() {
        assert(vacant(after[i]));
    }
}

} // verus!
