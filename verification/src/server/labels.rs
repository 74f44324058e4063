//! The words in which states, durations and settings are shown.

use vstd::prelude::*;
use vstd::string::StringExecFns;

use crate::coordinator::{Checkpoint, ClientState, LlmArchitecture, RunState, TrainingDataType};
use crate::text::{decimal, decimal2, decimal2_text, decimal_text, fill, filled, views};

verus! {

/// A run state in words.
pub open spec fn run_state_label(state: RunState) -> Seq<char> {
    match state {
        RunState::Uninitialized => "Uninitialized"@,
        RunState::WaitingForMembers => "Waiting for members"@,
        RunState::Warmup => "Warmup"@,
        RunState::RoundTrain => "Training"@,
        RunState::RoundWitness => "Witness"@,
        RunState::Cooldown => "Cooldown"@,
        RunState::Finished => "Finished"@,
        RunState::Paused => "Paused"@,
    }
}

/// A run state in words.
pub fn format_run_state(state: RunState) -> (r: &'static str)
    ensures
        r@ == run_state_label(state),
{
    match state {
        RunState::Uninitialized => "Uninitialized",
        RunState::WaitingForMembers => "Waiting for members",
        RunState::Warmup => "Warmup",
        RunState::RoundTrain => "Training",
        RunState::RoundWitness => "Witness",
        RunState::Cooldown => "Cooldown",
        RunState::Finished => "Finished",
        RunState::Paused => "Paused",
    }
}

/// A model family in words.
pub open spec fn architecture_label(arch: LlmArchitecture) -> Seq<char> {
    match arch {
        LlmArchitecture::HfLlama => "HuggingFace LLaMA"@,
        LlmArchitecture::HfDeepseek => "HuggingFace DeepSeek"@,
        LlmArchitecture::HfAuto => "HuggingFace Auto"@,
        LlmArchitecture::Torchtitan => "Torchtitan"@,
    }
}

/// A model family in words.
pub fn format_llm_architecture(arch: &LlmArchitecture) -> (r: &'static str)
    ensures
        r@ == architecture_label(*arch),
{
    match arch {
        LlmArchitecture::HfLlama => "HuggingFace LLaMA",
        LlmArchitecture::HfDeepseek => "HuggingFace DeepSeek",
        LlmArchitecture::HfAuto => "HuggingFace Auto",
        LlmArchitecture::Torchtitan => "Torchtitan",
    }
}

/// A kind of training data in words.
pub open spec fn data_type_label(dt: TrainingDataType) -> Seq<char> {
    match dt {
        TrainingDataType::Pretraining => "Pretraining"@,
        TrainingDataType::Finetuning => "Finetuning"@,
    }
}

/// A kind of training data in words.
pub fn format_data_type(dt: &TrainingDataType) -> (r: &'static str)
    ensures
        r@ == data_type_label(*dt),
{
    match dt {
        TrainingDataType::Pretraining => "Pretraining",
        TrainingDataType::Finetuning => "Finetuning",
    }
}

/// A kind of checkpoint in words.
pub open spec fn checkpoint_label(cp: Checkpoint) -> Seq<char> {
    match cp {
        Checkpoint::Ephemeral => "Ephemeral"@,
        Checkpoint::Dummy(_) => "Dummy"@,
        Checkpoint::Hub(_) => "Hub"@,
        Checkpoint::P2P(_) => "P2P"@,
        Checkpoint::Gcs(_) => "GCS"@,
        Checkpoint::P2PGcs(_) => "P2P+GCS"@,
    }
}

/// A kind of checkpoint in words.
pub fn format_checkpoint_label(cp: &Checkpoint) -> (r: &'static str)
    ensures
        r@ == checkpoint_label(*cp),
{
    match cp {
        Checkpoint::Ephemeral => "Ephemeral",
        Checkpoint::Dummy(_) => "Dummy",
        Checkpoint::Hub(_) => "Hub",
        Checkpoint::P2P(_) => "P2P",
        Checkpoint::Gcs(_) => "GCS",
        Checkpoint::P2PGcs(_) => "P2P+GCS",
    }
}

/// A client's state in words.
pub open spec fn client_state_label(state: ClientState) -> Seq<char> {
    match state {
        ClientState::Healthy => "Healthy"@,
        ClientState::Dropped => "Dropped"@,
        ClientState::Withdrawn => "Withdrawn"@,
        ClientState::Ejected => "Ejected"@,
    }
}

/// A client's state in words.
pub fn format_client_state(state: ClientState) -> (r: &'static str)
    ensures
        r@ == client_state_label(state),
{
    match state {
        ClientState::Healthy => "Healthy",
        ClientState::Dropped => "Dropped",
        ClientState::Withdrawn => "Withdrawn",
        ClientState::Ejected => "Ejected",
    }
}

/// A duration in hours, minutes and seconds, beginning with the largest unit that is not zero.
pub open spec fn duration_text(secs: nat) -> Seq<char> {
    let h = secs / 3600;
    let m = (secs % 3600) / 60;
    let s = secs % 60;
    if h > 0 {
        decimal(h) + "h "@ + decimal2(m) + "m "@ + decimal2(s) + "s"@
    } else if m > 0 {
        decimal(m) + "m "@ + decimal2(s) + "s"@
    } else {
        decimal(s) + "s"@
    }
}

/// A duration, or a dash where it is not known.
pub open spec fn eta_text(secs: Option<u64>) -> Seq<char> {
    match secs {
        Some(s) => duration_text(s as nat),
        None => "-"@,
    }
}

/// A duration in hours, minutes and seconds, beginning with the largest unit that is not zero.
pub fn format_duration(secs: u64) -> (r: String)
    ensures
        r@ == duration_text(secs as nat),
{
    let h: u64 = secs / 3600;
    let m: u64 = (secs % 3600) / 60;
    let s: u64 = secs % 60;
    if h > 0 {
        let mut out = decimal_text(h);
        out.append("h ");
        out.append(decimal2_text(m).as_str());
        out.append("m ");
        out.append(decimal2_text(s).as_str());
        out.append("s");
        out
    } else if m > 0 {
        let mut out = decimal_text(m);
        out.append("m ");
        out.append(decimal2_text(s).as_str());
        out.append("s");
        out
    } else {
        let mut out = decimal_text(s);
        out.append("s");
        out
    }
}

/// A duration, or a dash where it is not known.
pub fn format_eta(secs: Option<u64>) -> (r: String)
    ensures
        r@ == eta_text(secs),
{
    match secs {
        Some(s) => format_duration(s),
        None => "-".to_string(),
    }
}

/// A throughput that was put into words with one decimal, or a dash where it is not known.
pub open spec fn tps_text(rate: Option<Seq<char>>) -> Seq<char> {
    match rate {
        Some(v) => v + " tok/s"@,
        None => "-"@,
    }
}

/// A throughput that was put into words with one decimal, or a dash where it is not known.
pub fn format_tps(rate: &Option<String>) -> (r: String)
    ensures
        r@ == tps_text(crate::projection::cluster::name_view(*rate)),
{
    match rate {
        Some(v) => {
            let mut out = v.clone();
            out.append(" tok/s");
            out
        },
        None => "-".to_string(),
    }
}

/// An optimizer, its fractional settings put into words.
#[derive(Debug)]
pub enum OptimizerText {
    Dummy,
    AdamW {
        beta1: String,
        beta2: String,
        weight_decay: String,
        eps: String,
        clip_grad_norm: Option<String>,
    },
    Distro {
        clip_grad_norm: Option<String>,
        decay: Option<String>,
        compression_decay: String,
        compression_topk: u16,
        compression_chunk: u16,
        quantize_1bit: bool,
    },
}

/// A text, or the word for its absence.
pub open spec fn or_none(text: Option<String>) -> Seq<char> {
    match text {
        Some(t) => t@,
        None => "None"@,
    }
}

/// A truth value in words.
pub open spec fn bool_text(b: bool) -> Seq<char> {
    if b {
        "true"@
    } else {
        "false"@
    }
}

fn or_none_text(text: &Option<String>) -> (r: String)
    ensures
        r@ == or_none(*text),
{
    match text {
        Some(t) => t.clone(),
        None => "None".to_string(),
    }
}

/// How an AdamW optimizer is shown.
pub const ADAMW_TEMPLATE: &'static str =
    "AdamW(betas=[{},{}], weight_decay={}, eps={}, clip_grad_norm={})";

/// How a Distro optimizer is shown.
pub const DISTRO_TEMPLATE: &'static str =
    "Distro(clip={}, wd={}, comp_decay={}, topk={}, chunk={}, quantize_1bit={})";

/// An optimizer and its settings.
pub open spec fn optimizer_text(opt: OptimizerText) -> Seq<char> {
    match opt {
        OptimizerText::Dummy => "Dummy"@,
        OptimizerText::AdamW { beta1, beta2, weight_decay, eps, clip_grad_norm } => filled(
            ADAMW_TEMPLATE@,
            seq![beta1@, beta2@, weight_decay@, eps@, or_none(clip_grad_norm)],
        ),
        OptimizerText::Distro {
            clip_grad_norm,
            decay,
            compression_decay,
            compression_topk,
            compression_chunk,
            quantize_1bit,
        } => filled(
            DISTRO_TEMPLATE@,
            seq![
                or_none(clip_grad_norm),
                or_none(decay),
                compression_decay@,
                decimal(compression_topk as nat),
                decimal(compression_chunk as nat),
                bool_text(quantize_1bit),
            ],
        ),
    }
}

/// An optimizer and its settings.
pub fn format_optimizer(opt: &OptimizerText) -> (r: String)
    ensures
        r@ == optimizer_text(*opt),
{
    match opt {
        OptimizerText::Dummy => "Dummy".to_string(),
        OptimizerText::AdamW { beta1, beta2, weight_decay, eps, clip_grad_norm } => {
            let fields = vec![
                beta1.clone(),
                beta2.clone(),
                weight_decay.clone(),
                eps.clone(),
                or_none_text(clip_grad_norm),
            ];
            assert(views(fields@) =~= seq![
                beta1@,
                beta2@,
                weight_decay@,
                eps@,
                or_none(*clip_grad_norm),
            ]);
            fill(ADAMW_TEMPLATE, &fields)
        },
        OptimizerText::Distro {
            clip_grad_norm,
            decay,
            compression_decay,
            compression_topk,
            compression_chunk,
            quantize_1bit,
        } => {
            let quantized =
            if *quantize_1bit {
                "true".to_string()
            } else {
                "false".to_string()
            };
            let fields = vec![
                or_none_text(clip_grad_norm),
                or_none_text(decay),
                compression_decay.clone(),
                decimal_text(*compression_topk as u64),
                decimal_text(*compression_chunk as u64),
                quantized,
            ];
            assert(views(fields@) =~= seq![
                or_none(*clip_grad_norm),
                or_none(*decay),
                compression_decay@,
                decimal(*compression_topk as nat),
                decimal(*compression_chunk as nat),
                bool_text(*quantize_1bit),
            ]);
            fill(DISTRO_TEMPLATE, &fields)
        },
    }
}

/// The shape of a learning-rate schedule.
#[derive(Debug, Clone, Copy, PartialEq, Eq, Structural)]
pub enum ScheduleKind {
    Constant,
    Linear,
    Cosine,
    WarmupStableDecay,
}

/// How a learning-rate schedule is shown.
pub const SCHEDULE_TEMPLATE: &'static str =
    "{} (warmup_steps={}, warmup_init_lr={}, current_lr={})";

/// The shape of a schedule in words.
pub open spec fn schedule_label(kind: ScheduleKind) -> Seq<char> {
    match kind {
        ScheduleKind::Constant => "Constant"@,
        ScheduleKind::Linear => "Linear"@,
        ScheduleKind::Cosine => "Cosine"@,
        ScheduleKind::WarmupStableDecay => "WarmupStableDecay"@,
    }
}

/// A learning-rate schedule, given its two rates in words.
pub fn format_lr_schedule(
    kind: ScheduleKind,
    warmup_steps: u32,
    warmup_init_lr: &str,
    current_lr: &str,
) -> (r: String)
    ensures
        r@ == filled(
            SCHEDULE_TEMPLATE@,
            seq![
                schedule_label(kind),
                decimal(warmup_steps as nat),
                warmup_init_lr@,
                current_lr@,
            ],
        ),
{
    let label = match kind {
        ScheduleKind::Constant => "Constant",
        ScheduleKind::Linear => "Linear",
        ScheduleKind::Cosine => "Cosine",
        ScheduleKind::WarmupStableDecay => "WarmupStableDecay",
    };
    let fields = vec![
        label.to_string(),
        decimal_text(warmup_steps as u64),
        warmup_init_lr.to_string(),
        current_lr.to_string(),
    ];
    assert(views(fields@) =~= seq![
        schedule_label(kind),
        decimal(warmup_steps as nat),
        warmup_init_lr@,
        current_lr@,
    ]);
    fill(SCHEDULE_TEMPLATE, &fields)
}

} // verus!
