//! What the words say in which states, durations and settings are shown.

use vstd::prelude::*;

use super::labels::{
    architecture_label, bool_text, checkpoint_label, client_state_label, data_type_label,
    duration_text, eta_text, optimizer_text, or_none, run_state_label, schedule_label, tps_text,
    OptimizerText, ScheduleKind, ADAMW_TEMPLATE, DISTRO_TEMPLATE, SCHEDULE_TEMPLATE,
};
use super::loss::LossPoint;
use super::web::{
    count_in, elapsed_since, epoch_duration_text, seconds_since, step_tokens, token_budget,
    tokens_to_go,
};
use crate::coordinator::{
    Checkpoint, ClientInfo, ClientState, CoordinatorState, LlmArchitecture, RunState,
    TrainingDataType,
};
use crate::text::{
    all_fixed, blank, blank_from, decimal, decimal2, digit, filled, is_fixed,
    law_fields_go_to_their_places, said, woven,
};

verus! {

/// Every state of a run has a name of its own.
pub proof fn law_run_states_are_named(x: RunState)
    ensures
        run_state_label(x) == "Uninitialized"@ <==> x is Uninitialized,
        run_state_label(x) == "Waiting for members"@ <==> x is WaitingForMembers,
        run_state_label(x) == "Warmup"@ <==> x is Warmup,
        run_state_label(x) == "Training"@ <==> x is RoundTrain,
        run_state_label(x) == "Witness"@ <==> x is RoundWitness,
        run_state_label(x) == "Cooldown"@ <==> x is Cooldown,
        run_state_label(x) == "Finished"@ <==> x is Finished,
        run_state_label(x) == "Paused"@ <==> x is Paused,
{
    reveal_strlit("Uninitialized");
    reveal_strlit("Waiting for members");
    reveal_strlit("Warmup");
    reveal_strlit("Training");
    reveal_strlit("Witness");
    reveal_strlit("Cooldown");
    reveal_strlit("Finished");
    reveal_strlit("Paused");
    assert("Uninitialized"@.len() == 13);
    assert("Waiting for members"@.len() == 19);
    assert("Warmup"@.len() == 6);
    assert("Training"@.len() == 8);
    assert("Witness"@.len() == 7);
    assert("Cooldown"@.len() == 8);
    assert("Finished"@.len() == 8);
    assert("Paused"@.len() == 6);
    assert("Warmup"@[0] != "Paused"@[0]);
    assert("Training"@[0] != "Cooldown"@[0]);
    assert("Training"@[0] != "Finished"@[0]);
    assert("Cooldown"@[0] != "Finished"@[0]);
}

/// Every model family has a name of its own.
pub proof fn law_architectures_are_named(x: LlmArchitecture)
    ensures
        architecture_label(x) == "HuggingFace LLaMA"@ <==> x is HfLlama,
        architecture_label(x) == "HuggingFace DeepSeek"@ <==> x is HfDeepseek,
        architecture_label(x) == "HuggingFace Auto"@ <==> x is HfAuto,
        architecture_label(x) == "Torchtitan"@ <==> x is Torchtitan,
{
    reveal_strlit("HuggingFace LLaMA");
    reveal_strlit("HuggingFace DeepSeek");
    reveal_strlit("HuggingFace Auto");
    reveal_strlit("Torchtitan");
    assert("HuggingFace LLaMA"@.len() == 17);
    assert("HuggingFace DeepSeek"@.len() == 20);
    assert("HuggingFace Auto"@.len() == 16);
    assert("Torchtitan"@.len() == 10);
}

/// Every kind of training data has a name of its own.
pub proof fn law_data_types_are_named(x: TrainingDataType)
    ensures
        data_type_label(x) == "Pretraining"@ <==> x is Pretraining,
        data_type_label(x) == "Finetuning"@ <==> x is Finetuning,
{
    reveal_strlit("Pretraining");
    reveal_strlit("Finetuning");
    assert("Pretraining"@.len() == 11);
    assert("Finetuning"@.len() == 10);
}

/// Every kind of checkpoint has a name of its own.
pub proof fn law_checkpoints_are_named(x: Checkpoint)
    ensures
        checkpoint_label(x) == "Ephemeral"@ <==> x is Ephemeral,
        checkpoint_label(x) == "Dummy"@ <==> x is Dummy,
        checkpoint_label(x) == "Hub"@ <==> x is Hub,
        checkpoint_label(x) == "P2P"@ <==> x is P2P,
        checkpoint_label(x) == "GCS"@ <==> x is Gcs,
        checkpoint_label(x) == "P2P+GCS"@ <==> x is P2PGcs,
{
    reveal_strlit("Ephemeral");
    reveal_strlit("Dummy");
    reveal_strlit("Hub");
    reveal_strlit("P2P");
    reveal_strlit("GCS");
    reveal_strlit("P2P+GCS");
    assert("Ephemeral"@.len() == 9);
    assert("Dummy"@.len() == 5);
    assert("Hub"@.len() == 3);
    assert("P2P"@.len() == 3);
    assert("GCS"@.len() == 3);
    assert("P2P+GCS"@.len() == 7);
    assert("Hub"@[0] != "P2P"@[0]);
    assert("Hub"@[0] != "GCS"@[0]);
    assert("P2P"@[0] != "GCS"@[0]);
}

/// Every state of a client has a name of its own.
pub proof fn law_client_states_are_named(x: ClientState)
    ensures
        client_state_label(x) == "Healthy"@ <==> x is Healthy,
        client_state_label(x) == "Dropped"@ <==> x is Dropped,
        client_state_label(x) == "Withdrawn"@ <==> x is Withdrawn,
        client_state_label(x) == "Ejected"@ <==> x is Ejected,
{
    reveal_strlit("Healthy");
    reveal_strlit("Dropped");
    reveal_strlit("Withdrawn");
    reveal_strlit("Ejected");
    assert("Healthy"@.len() == 7);
    assert("Dropped"@.len() == 7);
    assert("Withdrawn"@.len() == 9);
    assert("Ejected"@.len() == 7);
    assert("Healthy"@[0] != "Dropped"@[0]);
    assert("Healthy"@[0] != "Ejected"@[0]);
    assert("Dropped"@[0] != "Ejected"@[0]);
}

/// Every shape of a schedule has a name of its own.
pub proof fn law_schedules_are_named(x: ScheduleKind)
    ensures
        schedule_label(x) == "Constant"@ <==> x is Constant,
        schedule_label(x) == "Linear"@ <==> x is Linear,
        schedule_label(x) == "Cosine"@ <==> x is Cosine,
        schedule_label(x) == "WarmupStableDecay"@ <==> x is WarmupStableDecay,
{
    reveal_strlit("Constant");
    reveal_strlit("Linear");
    reveal_strlit("Cosine");
    reveal_strlit("WarmupStableDecay");
    assert("Constant"@.len() == 8);
    assert("Linear"@.len() == 6);
    assert("Cosine"@.len() == 6);
    assert("WarmupStableDecay"@.len() == 17);
    assert("Linear"@[0] != "Cosine"@[0]);
}

/// An AdamW optimizer is shown with each of its settings under its name.
pub proof fn law_adamw_says(
    beta1: String,
    beta2: String,
    weight_decay: String,
    eps: String,
    clip_grad_norm: Option<String>,
)
    ensures
        optimizer_text(OptimizerText::AdamW { beta1, beta2, weight_decay, eps, clip_grad_norm }) == woven(
            seq![
                ("AdamW(betas=["@, beta1@),
                (","@, beta2@),
                ("], weight_decay="@, weight_decay@),
                (", eps="@, eps@),
                (", clip_grad_norm="@, match clip_grad_norm { Some(t) => t@, None => "None"@ }),
            ],
            ")"@,
        ),
{
    let parts = seq![
        ("AdamW(betas=["@, beta1@),
        (","@, beta2@),
        ("], weight_decay="@, weight_decay@),
        (", eps="@, eps@),
        (", clip_grad_norm="@, match clip_grad_norm { Some(t) => t@, None => "None"@ }),
    ];
    let end = ")"@;
    assert(ADAMW_TEMPLATE@ == blank(parts, end)) by {
        reveal_strlit("{}");
        reveal_strlit("AdamW(betas=[{},{}], weight_decay={}, eps={}, clip_grad_norm={})");
        reveal_strlit("AdamW(betas=[");
        reveal_strlit(",");
        reveal_strlit("], weight_decay=");
        reveal_strlit(", eps=");
        reveal_strlit(", clip_grad_norm=");
        reveal_strlit(")");
        reveal_with_fuel(blank_from, 6);
        assert(ADAMW_TEMPLATE@ =~= blank(parts, end));
    }
    assert(all_fixed(parts, end)) by {
        reveal_strlit("AdamW(betas=[");
        reveal_strlit(",");
        reveal_strlit("], weight_decay=");
        reveal_strlit(", eps=");
        reveal_strlit(", clip_grad_norm=");
        reveal_strlit(")");
        assert(is_fixed(end));
        assert(is_fixed(parts[0].0));
        assert(is_fixed(parts[1].0));
        assert(is_fixed(parts[2].0));
        assert(is_fixed(parts[3].0));
        assert(is_fixed(parts[4].0));
    }
    assert(seq![beta1@, beta2@, weight_decay@, eps@, or_none(clip_grad_norm)] =~= said(parts));
    law_fields_go_to_their_places(parts, end);
}

/// A Distro optimizer is shown with each of its settings under its name.
pub proof fn law_distro_says(
    clip_grad_norm: Option<String>,
    decay: Option<String>,
    compression_decay: String,
    compression_topk: u16,
    compression_chunk: u16,
    quantize_1bit: bool,
)
    ensures
        optimizer_text(
            OptimizerText::Distro {
                clip_grad_norm,
                decay,
                compression_decay,
                compression_topk,
                compression_chunk,
                quantize_1bit,
            },
        ) == woven(
            seq![
                ("Distro(clip="@, match clip_grad_norm { Some(t) => t@, None => "None"@ }),
                (", wd="@, match decay { Some(t) => t@, None => "None"@ }),
                (", comp_decay="@, compression_decay@),
                (", topk="@, decimal(compression_topk as nat)),
                (", chunk="@, decimal(compression_chunk as nat)),
                (", quantize_1bit="@, if quantize_1bit { "true"@ } else { "false"@ }),
            ],
            ")"@,
        ),
{
    let parts = seq![
        ("Distro(clip="@, match clip_grad_norm { Some(t) => t@, None => "None"@ }),
        (", wd="@, match decay { Some(t) => t@, None => "None"@ }),
        (", comp_decay="@, compression_decay@),
        (", topk="@, decimal(compression_topk as nat)),
        (", chunk="@, decimal(compression_chunk as nat)),
        (", quantize_1bit="@, if quantize_1bit { "true"@ } else { "false"@ }),
    ];
    let end = ")"@;
    assert(DISTRO_TEMPLATE@ == blank(parts, end)) by {
        reveal_strlit("{}");
        reveal_strlit("Distro(clip={}, wd={}, comp_decay={}, topk={}, chunk={}, quantize_1bit={})");
        reveal_strlit("Distro(clip=");
        reveal_strlit(", wd=");
        reveal_strlit(", comp_decay=");
        reveal_strlit(", topk=");
        reveal_strlit(", chunk=");
        reveal_strlit(", quantize_1bit=");
        reveal_strlit(")");
        reveal_with_fuel(blank_from, 7);
        assert(DISTRO_TEMPLATE@ =~= blank(parts, end));
    }
    assert(all_fixed(parts, end)) by {
        reveal_strlit("Distro(clip=");
        reveal_strlit(", wd=");
        reveal_strlit(", comp_decay=");
        reveal_strlit(", topk=");
        reveal_strlit(", chunk=");
        reveal_strlit(", quantize_1bit=");
        reveal_strlit(")");
        assert(is_fixed(end));
        assert(is_fixed(parts[0].0));
        assert(is_fixed(parts[1].0));
        assert(is_fixed(parts[2].0));
        assert(is_fixed(parts[3].0));
        assert(is_fixed(parts[4].0));
        assert(is_fixed(parts[5].0));
    }
    assert(seq![
        or_none(clip_grad_norm),
        or_none(decay),
        compression_decay@,
        decimal(compression_topk as nat),
        decimal(compression_chunk as nat),
        bool_text(quantize_1bit),
    ] =~= said(parts));
    law_fields_go_to_their_places(parts, end);
}

/// A learning-rate schedule is shown by its shape, with its warmup steps, the rate it begins with and the
/// current one.
pub proof fn law_schedule_says(
    kind: ScheduleKind,
    warmup_steps: u32,
    warmup_init_lr: Seq<char>,
    current_lr: Seq<char>,
)
    ensures
        filled(
            SCHEDULE_TEMPLATE@,
            seq![schedule_label(kind), decimal(warmup_steps as nat), warmup_init_lr, current_lr],
        ) == woven(
            seq![
                (""@, schedule_label(kind)),
                (" (warmup_steps="@, decimal(warmup_steps as nat)),
                (", warmup_init_lr="@, warmup_init_lr),
                (", current_lr="@, current_lr),
            ],
            ")"@,
        ),
{
    let parts = seq![
        (""@, schedule_label(kind)),
        (" (warmup_steps="@, decimal(warmup_steps as nat)),
        (", warmup_init_lr="@, warmup_init_lr),
        (", current_lr="@, current_lr),
    ];
    let end = ")"@;
    assert(SCHEDULE_TEMPLATE@ == blank(parts, end)) by {
        reveal_strlit("{}");
        reveal_strlit("{} (warmup_steps={}, warmup_init_lr={}, current_lr={})");
        reveal_strlit("");
        reveal_strlit(" (warmup_steps=");
        reveal_strlit(", warmup_init_lr=");
        reveal_strlit(", current_lr=");
        reveal_strlit(")");
        reveal_with_fuel(blank_from, 5);
        assert(SCHEDULE_TEMPLATE@ =~= blank(parts, end));
    }
    assert(all_fixed(parts, end)) by {
        reveal_strlit("");
        reveal_strlit(" (warmup_steps=");
        reveal_strlit(", warmup_init_lr=");
        reveal_strlit(", current_lr=");
        reveal_strlit(")");
        assert(is_fixed(end));
        assert(is_fixed(parts[0].0));
        assert(is_fixed(parts[1].0));
        assert(is_fixed(parts[2].0));
        assert(is_fixed(parts[3].0));
    }
    assert(seq![
        schedule_label(kind),
        decimal(warmup_steps as nat),
        warmup_init_lr,
        current_lr,
    ] =~= said(parts));
    law_fields_go_to_their_places(parts, end);
}

/// A number of two digits keeps both, and one of one digit gets a zero in front.
pub proof fn law_two_digits(n: nat)
    requires
        n < 100,
    ensures
        decimal2(n) == seq![digit(n / 10), digit(n % 10)],
        decimal2(n)[0] as int - '0' as int == n / 10,
        decimal2(n)[1] as int - '0' as int == n % 10,
{
    if n >= 10 {
        assert(decimal(n / 10) =~= seq![digit(n / 10)]);
        assert(decimal2(n) =~= seq![digit(n / 10), digit(n % 10)]);
    } else {
        assert(decimal2(n) =~= seq![digit(n / 10), digit(n % 10)]);
    }
}

/// A duration is said in hours, minutes and seconds, without the units before the first that is not
/// zero.
pub proof fn law_durations_are_said_by_units(h: nat, m: nat, s: nat)
    requires
        m < 60,
        s < 60,
    ensures
        duration_text(3600 * h + 60 * m + s) == (if h > 0 {
            decimal(h) + "h "@ + decimal2(m) + "m "@ + decimal2(s) + "s"@
        } else if m > 0 {
            decimal(m) + "m "@ + decimal2(s) + "s"@
        } else {
            decimal(s) + "s"@
        }),
        forall|secs: u64| eta_text(Some(secs)) == #[trigger] duration_text(secs as nat),
        eta_text(None) == "-"@,
{
    let n = 3600 * h + 60 * m + s;
    assert(n / 3600 == h);
    assert((n % 3600) / 60 == m);
    assert(n % 60 == s);
}

/// A throughput is said with its unit, and one that is not known as a dash.
pub proof fn law_throughputs_are_said(rate: Seq<char>)
    ensures
        tps_text(Some(rate)) == rate + " tok/s"@,
        tps_text(None) == "-"@,
{
}

/// A run has been going since its first point or, before there is one, since its state began, where
/// that is known. A moment that lies ahead counts as now.
pub proof fn law_elapsed_counts_from_the_first_point(points: Seq<LossPoint>, start: u64, now: u64)
    ensures
        points.len() > 0 && now >= points[0].unix_timestamp ==> elapsed_since(points, start, now) == Some(
            (now - points[0].unix_timestamp) as u64,
        ),
        points.len() > 0 && now < points[0].unix_timestamp ==> elapsed_since(points, start, now) == Some(
            0u64,
        ),
        points.len() == 0 && start == 0 ==> elapsed_since(points, start, now) is None,
        points.len() == 0 && 0 < start <= now ==> elapsed_since(points, start, now) == Some(
            (now - start) as u64,
        ),
        points.len() == 0 && start > now ==> elapsed_since(points, start, now) == Some(0u64),
        seconds_since(start, now) == (if now >= start {
            now - start
        } else {
            0
        }),
        epoch_duration_text(0, now) == "-"@,
        start > 0 ==> epoch_duration_text(start, now) == duration_text(seconds_since(start, now)),
{
}

/// What is left of a run's tokens, together with what was processed, is its budget, until that is
/// spent. The budget is that of all its steps at their final batch size.
pub proof fn law_tokens_add_up(c: CoordinatorState)
    ensures
        token_budget(c) == c.config.total_steps * c.config.global_batch_size_end * c.model.max_seq_len,
        c.total_tokens_processed <= token_budget(c) ==> tokens_to_go(c) + c.total_tokens_processed
            == token_budget(c),
        c.total_tokens_processed >= token_budget(c) ==> tokens_to_go(c) == 0,
        step_tokens(c) == c.target_global_batch_size * c.model.max_seq_len,
{
    assert(c.target_global_batch_size * c.model.max_seq_len >= 0) by (nonlinear_arith);
}

/// Each client counts once, in its own state.
pub proof fn law_each_client_counts_in_its_state(
    clients: Seq<ClientInfo>,
    client: ClientInfo,
    state: ClientState,
)
    ensures
        count_in(Seq::empty(), state) == 0,
        count_in(clients.push(client), state) == count_in(clients, state) + (if client.state == state {
            1int
        } else {
            0
        }),
{
    reveal(Seq::filter);
    assert(clients.push(client).drop_last() =~= clients);
    assert(clients.push(client).last() == client);
}

} // verus!
