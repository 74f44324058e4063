//! The monitor that is watched over a remote shell.

use vstd::prelude::*;
use vstd::string::StringExecFns;

use super::labels::{
    architecture_label, checkpoint_label, format_checkpoint_label, format_llm_architecture,
    format_run_state, run_state_label,
};
use super::loss::{
    finite_losses, is_finite, points_with_finite_loss, points_with_positive_throughput,
    positive_throughputs, single_is_finite, LossPoint,
};
use super::terminal_text::less;
use super::web::{
    count_clients, count_in, elapsed, elapsed_since, law_counts_add_up, step_tokens,
    tokens_per_step, WebState,
};
use crate::coordinator::{ClientState, CoordinatorState};
use crate::text::{decimal, decimal_text};

verus! {

/// What the monitor shows. Fractions are given by the bits of IEEE numbers.
#[derive(Debug)]
pub struct Snapshot {
    pub waiting: bool,
    pub run_state: String,
    pub run_id: String,
    pub model: String,
    pub checkpoint: String,
    pub epoch: u32,
    pub step: u32,
    pub total_steps: u32,
    pub height: u32,
    pub epoch_steps: String,
    pub ready_clients: usize,
    pub syncing_clients: usize,
    pub healthy: usize,
    pub dropped: usize,
    pub withdrawn: usize,
    pub ejected: usize,
    pub server_addr: String,
    pub latest_loss: Option<u32>,
    pub latest_tps: Option<u32>,
    pub avg_tps: Option<u32>,
    pub weighted_tps: Option<u32>,
    pub elapsed: Option<u64>,
    pub remaining_steps: u32,
    pub tokens_per_step: Option<u64>,
    pub eta_weighted: Option<u64>,
    pub eta_current: Option<u64>,
    pub warmup_time: u64,
    pub epoch_time: u64,
    pub min_clients: u32,
    pub init_min_clients: u32,
    pub witness_nodes: u32,
    pub loss_points: Vec<(u32, u32)>,
    pub throughput_points: Vec<(u32, u32)>,
}

/// What is estimated of a run. Fractions are given by the bits of IEEE numbers.
#[derive(Debug, Clone, Copy)]
pub struct RunEstimate {
    pub avg_tps: Option<u32>,
    pub weighted_tps: Option<u32>,
    pub eta_weighted: Option<u64>,
    pub eta_current: Option<u64>,
}

/// `bits` where they stand for a finite number.
pub open spec fn if_finite(bits: u32) -> Option<u32> {
    if is_finite(bits) {
        Some(bits)
    } else {
        None
    }
}

/// The last loss, where it is finite.
pub open spec fn latest_loss(s: Seq<LossPoint>) -> Option<u32> {
    if s.len() > 0 {
        if_finite(s.last().loss)
    } else {
        None
    }
}

/// The last throughput, where it is finite.
pub open spec fn latest_tps(s: Seq<LossPoint>) -> Option<u32> {
    if s.len() > 0 {
        if_finite(s.last().tokens_per_sec)
    } else {
        None
    }
}

/// Steps and losses.
pub open spec fn step_losses(s: Seq<LossPoint>) -> Seq<(u32, u32)> {
    s.map_values(|p: LossPoint| (p.step, p.loss))
}

/// Steps and throughputs.
pub open spec fn step_throughputs(s: Seq<LossPoint>) -> Seq<(u32, u32)> {
    s.map_values(|p: LossPoint| (p.step, p.tokens_per_sec))
}

/// The snapshot before the coordinator has reported.
pub open spec fn shows_waiting(r: Snapshot, s: WebState) -> bool {
    &&& r.waiting
    &&& r.run_state@ == "Waiting for coordinator data"@
    &&& r.run_id@ == "-"@
    &&& r.model@ == "-"@
    &&& r.checkpoint@ == "-"@
    &&& r.epoch_steps@ == "-"@
    &&& r.epoch == 0 && r.step == 0 && r.total_steps == 0 && r.height == 0
    &&& r.ready_clients == s.ready_clients@.len()
    &&& r.syncing_clients == s.syncing_clients@.len()
    &&& r.healthy == 0 && r.dropped == 0 && r.withdrawn == 0 && r.ejected == 0
    &&& r.server_addr@ == s.server_addr@
    &&& r.latest_loss is None && r.latest_tps is None && r.avg_tps is None && r.weighted_tps is None
    &&& r.elapsed is None && r.tokens_per_step is None
    &&& r.eta_weighted is None && r.eta_current is None
    &&& r.remaining_steps == 0 && r.warmup_time == 0 && r.epoch_time == 0
    &&& r.min_clients == 0 && r.init_min_clients == 0 && r.witness_nodes == 0
    &&& r.loss_points@ == Seq::<(u32, u32)>::empty()
    &&& r.throughput_points@ == Seq::<(u32, u32)>::empty()
}

/// The snapshot of a run.
pub open spec fn shows_run(r: Snapshot, s: WebState, c: CoordinatorState, e: RunEstimate, now: u64) -> bool {
    let clients = c.epoch_state.clients@;
    &&& !r.waiting
    &&& r.run_state@ == run_state_label(c.run_state)
    &&& r.run_id@ == c.run_id@
    &&& r.model@ == architecture_label(c.model.architecture) + " · seq "@ + decimal(
        c.model.max_seq_len as nat,
    )
    &&& r.checkpoint@ == checkpoint_label(c.model.checkpoint)
    &&& r.epoch == c.progress.epoch
    &&& r.step == c.progress.step
    &&& r.total_steps == c.config.total_steps
    &&& r.height == c.epoch_state.rounds[c.epoch_state.rounds_head as int].height
    &&& r.epoch_steps@ == decimal(c.epoch_state.start_step as nat) + " - "@ + decimal(
        c.epoch_state.last_step as nat,
    )
    &&& r.ready_clients == s.ready_clients@.len()
    &&& r.syncing_clients == s.syncing_clients@.len()
    &&& r.healthy == count_in(clients, ClientState::Healthy)
    &&& r.dropped == count_in(clients, ClientState::Dropped)
    &&& r.withdrawn == count_in(clients, ClientState::Withdrawn)
    &&& r.ejected == count_in(clients, ClientState::Ejected)
    &&& r.server_addr@ == s.server_addr@
    &&& r.latest_loss == latest_loss(s.loss_history@)
    &&& r.latest_tps == latest_tps(s.loss_history@)
    &&& r.avg_tps == e.avg_tps
    &&& r.weighted_tps == e.weighted_tps
    &&& r.elapsed == elapsed_since(s.loss_history@, c.run_state_start_unix_timestamp, now)
    &&& r.remaining_steps == steps_left(c)
    &&& r.tokens_per_step == Some(step_tokens(c) as u64)
    &&& r.eta_weighted == e.eta_weighted
    &&& r.eta_current == e.eta_current
    &&& r.warmup_time == c.config.warmup_time
    &&& r.epoch_time == c.config.epoch_time
    &&& r.min_clients == c.config.min_clients
    &&& r.init_min_clients == c.config.init_min_clients
    &&& r.witness_nodes == c.config.witness_nodes
    &&& r.loss_points@ == step_losses(finite_losses(s.loss_history@))
    &&& r.throughput_points@ == step_throughputs(positive_throughputs(s.loss_history@))
}

/// The steps that are left.
pub open spec fn steps_left(c: CoordinatorState) -> nat {
    less(c.config.total_steps as nat, c.progress.step as nat)
}

/// The steps that are left.
pub fn remaining_steps(c: &CoordinatorState) -> (r: u32)
    ensures
        r == steps_left(*c),
{
    c.config.total_steps.saturating_sub(c.progress.step)
}

/// The tokens of the steps that are left.
pub open spec fn tokens_left(c: CoordinatorState) -> nat {
    steps_left(c) * step_tokens(c)
}

/// The estimate belongs to this run: a throughput is known if and only if one was reported, nothing
/// more takes no time, and how long the rest takes is not known without a throughput.
pub open spec fn estimate_fits(e: RunEstimate, s: WebState, c: CoordinatorState) -> bool {
    let rates = positive_throughputs(s.loss_history@);
    &&& e.avg_tps is Some <==> rates.len() > 0
    &&& e.weighted_tps is Some <==> rates.len() > 0
    &&& tokens_left(c) == 0 ==> e.eta_weighted == Some(0u64) && e.eta_current == Some(0u64)
    &&& tokens_left(c) > 0 && rates.len() == 0 ==> e.eta_weighted is None
    &&& tokens_left(c) > 0 && latest_tps(s.loss_history@) is None ==> e.eta_current is None
}

impl Snapshot {
    /// What is shown agrees: a throughput is known if and only if there is one to show, a run without
    /// steps left takes no time, and how long the rest takes is not known without a throughput.
    pub open spec fn agrees(self) -> bool {
        let left = self.remaining_steps > 0 && self.tokens_per_step is Some && self.tokens_per_step->0 > 0;
        &&& self.avg_tps is Some <==> self.throughput_points@.len() > 0
        &&& self.weighted_tps is Some <==> self.throughput_points@.len() > 0
        &&& self.remaining_steps == 0 ==> self.eta_weighted == Some(0u64) && self.eta_current == Some(
            0u64,
        )
        &&& left && self.throughput_points@.len() == 0 ==> self.eta_weighted is None
        &&& left && self.latest_tps is None ==> self.eta_current is None
    }

    /// The clients can be counted.
    pub open spec fn can_count(self) -> bool {
        self.healthy + self.dropped + self.withdrawn + self.ejected <= usize::MAX
    }
}

fn bits_if_finite(bits: u32) -> (r: Option<u32>)
    ensures
        r == if_finite(bits),
{
    if single_is_finite(bits) {
        Some(bits)
    } else {
        None
    }
}

fn losses_by_step(points: &Vec<LossPoint>) -> (r: Vec<(u32, u32)>)
    ensures
        r@ == step_losses(points@),
{
    let mut out: Vec<(u32, u32)> = Vec::new();
    let mut i: usize = 0;
    while i < points.len()
        invariant
            i <= points@.len(),
            out@ == step_losses(points@).take(i as int),
        decreases points@.len() - i,
    {
        out.push((points[i].step, points[i].loss));
        i = i + 1;
        assert(out@ =~= step_losses(points@).take(i as int));
    }
    assert(step_losses(points@).take(i as int) =~= step_losses(points@));
    out
}

fn throughputs_by_step(points: &Vec<LossPoint>) -> (r: Vec<(u32, u32)>)
    ensures
        r@ == step_throughputs(points@),
{
    let mut out: Vec<(u32, u32)> = Vec::new();
    let mut i: usize = 0;
    while i < points.len()
        invariant
            i <= points@.len(),
            out@ == step_throughputs(points@).take(i as int),
        decreases points@.len() - i,
    {
        out.push((points[i].step, points[i].tokens_per_sec));
        i = i + 1;
        assert(out@ =~= step_throughputs(points@).take(i as int));
    }
    assert(step_throughputs(points@).take(i as int) =~= step_throughputs(points@));
    out
}

fn waiting_snapshot(s: &WebState) -> (r: Snapshot)
    ensures
        shows_waiting(r, *s),
{
    Snapshot {
        waiting: true,
        run_state: "Waiting for coordinator data".to_string(),
        run_id: "-".to_string(),
        model: "-".to_string(),
        checkpoint: "-".to_string(),
        epoch: 0,
        step: 0,
        total_steps: 0,
        height: 0,
        epoch_steps: "-".to_string(),
        ready_clients: s.ready_clients.len(),
        syncing_clients: s.syncing_clients.len(),
        healthy: 0,
        dropped: 0,
        withdrawn: 0,
        ejected: 0,
        server_addr: s.server_addr.clone(),
        latest_loss: None,
        latest_tps: None,
        avg_tps: None,
        weighted_tps: None,
        elapsed: None,
        remaining_steps: 0,
        tokens_per_step: None,
        eta_weighted: None,
        eta_current: None,
        warmup_time: 0,
        epoch_time: 0,
        min_clients: 0,
        init_min_clients: 0,
        witness_nodes: 0,
        loss_points: Vec::new(),
        throughput_points: Vec::new(),
    }
}

/// What the monitor shows at the moment `now`, given what is estimated of the run.
pub fn snapshot_from_web_state(s: &WebState, estimate: &RunEstimate, now: u64) -> (r: Snapshot)
    requires
        s.coordinator matches Some(c) ==> c.has_head(),
    ensures
        match s.coordinator {
            Some(c) => shows_run(r, *s, c, *estimate, now),
            None => shows_waiting(r, *s),
        },
        match s.coordinator {
            Some(c) => estimate_fits(*estimate, *s, c) ==> r.agrees(),
            None => true,
        },
        r.can_count(),
{
    let c = match &s.coordinator {
        Some(c) => c,
        None => {
            return waiting_snapshot(s);
        },
    };
    let clients = &c.epoch_state.clients;
    let healthy: usize = count_clients(clients, ClientState::Healthy);
    let dropped: usize = count_clients(clients, ClientState::Dropped);
    let withdrawn: usize = count_clients(clients, ClientState::Withdrawn);
    let ejected: usize = count_clients(clients, ClientState::Ejected);
    let n: usize = clients.len();
    proof {
        law_counts_add_up(clients@);
        let steps = steps_left(*c) as int;
        let tokens = step_tokens(*c) as int;
        assert(steps == 0 ==> steps * tokens == 0) by (nonlinear_arith);
        assert(steps > 0 && tokens > 0 ==> steps * tokens > 0) by (nonlinear_arith);
        assert(n == clients@.len());
    }
    let history = &s.loss_history;
    let last_loss: Option<u32> = if history.len() > 0 {
        bits_if_finite(history[history.len() - 1].loss)
    } else {
        None
    };
    let last_tps: Option<u32> = if history.len() > 0 {
        bits_if_finite(history[history.len() - 1].tokens_per_sec)
    } else {
        None
    };
    let mut model = format_llm_architecture(&c.model.architecture).to_string();
    model.append(" · seq ");
    model.append(decimal_text(c.model.max_seq_len as u64).as_str());
    let mut epoch_steps = decimal_text(c.epoch_state.start_step as u64);
    epoch_steps.append(" - ");
    epoch_steps.append(decimal_text(c.epoch_state.last_step as u64).as_str());
    let head: usize = c.epoch_state.rounds_head as usize;
    Snapshot {
        waiting: false,
        run_state: format_run_state(c.run_state).to_string(),
        run_id: c.run_id.clone(),
        model,
        checkpoint: format_checkpoint_label(&c.model.checkpoint).to_string(),
        epoch: c.progress.epoch as u32,
        step: c.progress.step,
        total_steps: c.config.total_steps,
        height: c.epoch_state.rounds[head].height,
        epoch_steps,
        ready_clients: s.ready_clients.len(),
        syncing_clients: s.syncing_clients.len(),
        healthy,
        dropped,
        withdrawn,
        ejected,
        server_addr: s.server_addr.clone(),
        latest_loss: last_loss,
        latest_tps: last_tps,
        avg_tps: estimate.avg_tps,
        weighted_tps: estimate.weighted_tps,
        elapsed: elapsed(history, c.run_state_start_unix_timestamp, now),
        remaining_steps: remaining_steps(c),
        tokens_per_step: Some(tokens_per_step(c)),
        eta_weighted: estimate.eta_weighted,
        eta_current: estimate.eta_current,
        warmup_time: c.config.warmup_time,
        epoch_time: c.config.epoch_time,
        min_clients: c.config.min_clients as u32,
        init_min_clients: c.config.init_min_clients as u32,
        witness_nodes: c.config.witness_nodes as u32,
        loss_points: losses_by_step(&points_with_finite_loss(history)),
        throughput_points: throughputs_by_step(&points_with_positive_throughput(history)),
    }
}

} // verus!
