//! What each event changes of the node that reports it, and what it leaves alone.

use vstd::prelude::*;

use super::maps::{batch_downloads_of, downloads_of, peers_of, present_or, uploads_of};
use super::node::{elapsed_secs, growth_rate, settled, NodeModel};
use super::snapshots::{
    BatchDownload, BlobDownloadTransfer, NodeSnapshot, PeerInfo, WarmupPhase, WitnessInfo,
};
use crate::batch_map::BatchId;
use crate::coordinator::RunState;
use crate::events::{
    Client, Cooldown, Event, EventData, ResourceSnapshot, Train, Warmup, P2P,
};
use crate::keyed::{
    has_key, key_position, lemma_key_position, lemma_key_position_is, lemma_put_lookup, lookup,
};
use crate::sets::{BlobHash, EndpointId};

verus! {

/// The model of a node is what its snapshot holds, field by field.
pub proof fn law_the_model_is_the_snapshot(n: NodeSnapshot)
    ensures
        n@.node_id == n.node_id@,
        n@.run_state == n.run_state,
        n@.epoch == n.epoch,
        n@.step == n.step,
        n@.warmup == n.warmup,
        n@.losses == n.losses@,
        n@.health_check_steps == n.health_check_steps@,
        n@.last_error == n.last_error,
        n@.network_tx_bps == n.network_tx_bps,
        n@.network_rx_bps == n.network_rx_bps,
        n@.cooldown == n.cooldown,
        n@.last_resource == n.last_resource,
        n@.p2p == n.p2p@,
        n@.p2p.peers == peers_of(n.p2p.peers),
        n@.p2p.uploads == uploads_of(n.p2p.uploads),
        n@.p2p.downloads == downloads_of(n.p2p.downloads),
        n@.p2p.gossip_neighbors == n.p2p.gossip_neighbors@,
        n@.p2p.blobs_in_store == n.p2p.blobs_in_store,
        n@.p2p.gossip_sent == n.p2p.gossip_sent,
        n@.p2p.gossip_recv == n.p2p.gossip_recv,
        n@.train == n.train@,
        n@.train.batch_downloads == batch_downloads_of(n.train.batch_downloads),
        n@.train.batches_assigned == n.train.batches_assigned,
        n@.train.training_in_progress == n.train.training_in_progress,
        n@.train.witness == n.train.witness,
        n@.train.last_distro_ok == n.train.last_distro_ok,
        n@.train.untrained_warnings == n.train.untrained_warnings@,
{
}

/// Of a node that was only named, nothing else is known.
pub proof fn law_a_new_node_is_unknown(name: Seq<char>)
    ensures
        ({
            let n = NodeModel::fresh(name);
            &&& n.node_id == name
            &&& n.run_state is None
            &&& n.epoch == 0 && n.step == 0
            &&& n.warmup.phase == WarmupPhase::Idle
            &&& n.warmup.download_total_bytes is None
            &&& n.warmup.download_bytes == 0
            &&& !n.warmup.model_loaded
            &&& n.losses.len() == 0
            &&& n.health_check_steps.len() == 0
            &&& n.last_error is None
            &&& n.network_tx_bps is None
            &&& n.network_rx_bps is None
            &&& n.last_resource is None
            &&& n.p2p.peers.len() == 0
            &&& n.p2p.gossip_neighbors == Set::<EndpointId>::empty()
            &&& n.p2p.uploads.len() == 0
            &&& n.p2p.downloads.len() == 0
            &&& n.p2p.blobs_in_store == 0 && n.p2p.gossip_sent == 0 && n.p2p.gossip_recv == 0
            &&& n.train.batches_assigned == 0
            &&& n.train.batch_downloads.len() == 0
            &&& !n.train.training_in_progress
            &&& n.train.witness is None
            &&& n.train.last_distro_ok is None
            &&& n.train.untrained_warnings.len() == 0
            &&& !n.cooldown.is_checkpointer
            &&& n.cooldown.serialization_ok is None && n.cooldown.serialization_error is None
            &&& n.cooldown.checkpoint_write_ok is None
            &&& n.cooldown.upload_bytes == 0
            &&& n.cooldown.upload_ok is None && n.cooldown.upload_error is None
        }),
{
}

/// Each finished training that reports a loss adds that loss, with its step, behind those recorded
/// before. No other event changes what is recorded.
pub proof fn law_every_loss_is_recorded(n: NodeModel, event: Event)
    ensures
        match event.data {
            EventData::Train(Train::TrainingFinished(tf)) => match tf.loss {
                Some(loss) => {
                    &&& n.after(event).losses.len() == n.losses.len() + 1
                    &&& n.after(event).losses.last() == (tf.step, loss)
                    &&& n.losses.is_prefix_of(n.after(event).losses)
                },
                None => n.after(event).losses == n.losses,
            },
            _ => n.after(event).losses == n.losses,
        },
{
}

/// The step of a node is the one that it last reported, by a change of state or by finishing a
/// training. Its state and its epoch are those of its last change of state.
pub proof fn law_position_is_the_last_reported(n: NodeModel, event: Event)
    ensures
        n.after(event).step == (match event.data {
            EventData::Client(Client::StateChanged(sc)) => sc.step,
            EventData::Train(Train::TrainingFinished(tf)) => tf.step,
            _ => n.step,
        }),
        n.after(event).epoch == (match event.data {
            EventData::Client(Client::StateChanged(sc)) => sc.epoch,
            _ => n.epoch,
        }),
        n.after(event).run_state == (match event.data {
            EventData::Client(Client::StateChanged(sc)) => Some(sc.new_state),
            _ => n.run_state,
        }),
        n.after(event).node_id == n.node_id,
{
}

/// Each failed check is noted with its round, behind those noted before, and the last error is the
/// one that is kept. Nothing else changes either.
pub proof fn law_failures_are_noted(n: NodeModel, event: Event)
    ensures
        match event.data {
            EventData::Client(Client::HealthCheckFailed(f)) => {
                &&& n.after(event).health_check_steps.len() == n.health_check_steps.len() + 1
                &&& n.after(event).health_check_steps.last() == f.round
                &&& n.health_check_steps.is_prefix_of(n.after(event).health_check_steps)
            },
            _ => n.after(event).health_check_steps == n.health_check_steps,
        },
        match event.data {
            EventData::Client(Client::Error(e)) => n.after(event).last_error matches Some(text)
                && text@ == e.message@,
            _ => n.after(event).last_error == n.last_error,
        },
{
}

/// How far a node is in its warmup: from idle through negotiating, downloading and loading to
/// complete, and back to idle when it waits for members again or has uploaded a checkpoint.
pub proof fn law_warmup_goes_through_its_phases(n: NodeModel, event: Event)
    ensures
        n.after(event).warmup.phase == (match event.data {
            EventData::Warmup(Warmup::P2PParamInfoRequest)
            | EventData::Warmup(Warmup::P2PParamInfoResponse) => if n.warmup.phase
                == WarmupPhase::Idle {
                WarmupPhase::NegotiatingP2P
            } else {
                n.warmup.phase
            },
            EventData::Warmup(Warmup::CheckpointDownloadStarted(_)) => WarmupPhase::Downloading,
            EventData::Warmup(Warmup::ModelLoadStarted) => WarmupPhase::LoadingModel,
            EventData::Warmup(Warmup::ModelLoadComplete) => WarmupPhase::Complete,
            EventData::Client(Client::StateChanged(sc)) => if sc.new_state
                == RunState::WaitingForMembers {
                WarmupPhase::Idle
            } else {
                n.warmup.phase
            },
            EventData::Cooldown(Cooldown::CheckpointUploadFinished(f)) => if f.success {
                WarmupPhase::Idle
            } else {
                n.warmup.phase
            },
            _ => n.warmup.phase,
        }),
        n.after(event).warmup.model_loaded == (match event.data {
            EventData::Warmup(Warmup::ModelLoadComplete) => true,
            _ => n.warmup.model_loaded && !begins_anew(event.data),
        }),
{
}

/// The event puts the warmup back to its beginning.
pub open spec fn begins_anew(data: EventData) -> bool {
    match data {
        EventData::Client(Client::StateChanged(sc)) => sc.new_state == RunState::WaitingForMembers,
        EventData::Cooldown(Cooldown::CheckpointUploadFinished(f)) => f.success,
        _ => false,
    }
}

/// The size of a checkpoint is known where its download names one, and what has come of it is what was
/// last reported, counted from nothing for each download.
pub proof fn law_checkpoint_downloads_are_followed(n: NodeModel, event: Event)
    ensures
        n.after(event).warmup.download_total_bytes == (match event.data {
            EventData::Warmup(Warmup::CheckpointDownloadStarted(d)) => if d.size_bytes == 0 {
                None
            } else {
                Some(d.size_bytes)
            },
            _ => if begins_anew(event.data) {
                None
            } else {
                n.warmup.download_total_bytes
            },
        }),
        n.after(event).warmup.download_bytes == (match event.data {
            EventData::Warmup(Warmup::CheckpointDownloadStarted(_)) => 0,
            EventData::Warmup(Warmup::CheckpointDownloadProgress(p)) => p.bytes_downloaded,
            _ => if begins_anew(event.data) {
                0
            } else {
                n.warmup.download_bytes
            },
        }),
{
}

/// The event opens a cooldown.
pub open spec fn opens_cooldown(data: EventData) -> bool {
    data matches EventData::Client(Client::StateChanged(sc)) && sc.new_state == RunState::Cooldown
}

/// What a node reports of writing a checkpoint is kept until the next cooldown: that it writes one,
/// and of each step whether it succeeded, and why not.
pub proof fn law_cooldown_is_followed(n: NodeModel, event: Event)
    ensures
        ({
            let before = n.cooldown;
            let after = n.after(event).cooldown;
            let anew = opens_cooldown(event.data);
            &&& after.is_checkpointer == (event.data is Cooldown
                && event.data->Cooldown_0 is ModelSerializationStarted || (before.is_checkpointer
                && !anew))
            &&& after.serialization_ok == (match event.data {
                EventData::Cooldown(Cooldown::ModelSerializationFinished(f)) => Some(f.success),
                _ => if anew {
                    None
                } else {
                    before.serialization_ok
                },
            })
            &&& after.serialization_error == (match event.data {
                EventData::Cooldown(Cooldown::ModelSerializationFinished(f)) => f.error_string,
                _ => if anew {
                    None
                } else {
                    before.serialization_error
                },
            })
            &&& after.checkpoint_write_ok == (match event.data {
                EventData::Cooldown(Cooldown::CheckpointWriteFinished(f)) => Some(f.success),
                _ => if anew {
                    None
                } else {
                    before.checkpoint_write_ok
                },
            })
            &&& after.upload_bytes == (match event.data {
                EventData::Cooldown(Cooldown::CheckpointUploadProgress(p)) => p.bytes_uploaded,
                _ => if anew {
                    0
                } else {
                    before.upload_bytes
                },
            })
            &&& after.upload_ok == (match event.data {
                EventData::Cooldown(Cooldown::CheckpointUploadFinished(f)) => Some(f.success),
                _ => if anew {
                    None
                } else {
                    before.upload_ok
                },
            })
            &&& after.upload_error == (match event.data {
                EventData::Cooldown(Cooldown::CheckpointUploadFinished(f)) => f.error_string,
                _ => if anew {
                    None
                } else {
                    before.upload_error
                },
            })
        }),
{
}

/// The last resource snapshot is kept with its moment. Two that lie `secs` whole seconds apart, and at
/// least one, give the bytes per second between them, sent and received, rounded down; two within a
/// second change nothing. A counter that fell has not grown. No other event changes a rate.
pub proof fn law_rates_are_growth_by_time(
    n: NodeModel,
    event: Event,
    rs: ResourceSnapshot,
    then: i64,
    before: ResourceSnapshot,
)
    requires
        event.data == EventData::ResourceSnapshot(rs),
    ensures
        n.after(event).last_resource == Some((event.timestamp, rs)),
        n.last_resource is None ==> n.after(event).network_tx_bps == n.network_tx_bps
            && n.after(event).network_rx_bps == n.network_rx_bps,
        n.last_resource == Some((then, before)) && 0 <= event.timestamp - then < 1_000_000_000 ==> {
            &&& n.after(event).network_tx_bps == n.network_tx_bps
            &&& n.after(event).network_rx_bps == n.network_rx_bps
        },
        n.last_resource == Some((then, before)) && event.timestamp - then >= 1_000_000_000 ==> {
            let secs = (event.timestamp - then) / 1_000_000_000;
            &&& n.after(event).network_tx_bps matches Some(tx) && is_rate(
                tx as int,
                before.network_bytes_sent_total as int,
                rs.network_bytes_sent_total as int,
                secs,
            )
            &&& n.after(event).network_rx_bps matches Some(rx) && is_rate(
                rx as int,
                before.network_bytes_recv_total as int,
                rs.network_bytes_recv_total as int,
                secs,
            )
        },
{
    if n.last_resource == Some((then, before)) && event.timestamp >= then {
        let d = event.timestamp - then;
        assert((d / 1_000_000) / 1000 == d / 1_000_000_000);
        let secs = elapsed_secs(then, event.timestamp);
        assert(secs == d / 1_000_000_000);
        if secs > 0 {
            lemma_is_rate(before.network_bytes_sent_total, rs.network_bytes_sent_total, secs);
            lemma_is_rate(before.network_bytes_recv_total, rs.network_bytes_recv_total, secs);
        }
    }
}

/// A counter grew by `rate` each second, for `secs` seconds, and by less than one more each.
pub open spec fn is_rate(rate: int, before: int, now: int, secs: int) -> bool {
    if now >= before {
        rate * secs <= now - before < (rate + 1) * secs
    } else {
        rate == 0
    }
}

proof fn lemma_is_rate(before: u64, now: u64, secs: int)
    requires
        secs > 0,
    ensures
        is_rate(growth_rate(before, now, secs) as int, before as int, now as int, secs),
{
    if now >= before {
        let d = now - before;
        let q = d / secs;
        vstd::arithmetic::div_mod::lemma_fundamental_div_mod(d, secs);
        vstd::arithmetic::div_mod::lemma_mod_bound(d, secs);
        assert(0 <= q <= d) by (nonlinear_arith)
            requires
                d >= 0,
                secs > 0,
                q == d / secs,
        ;
        assert(q * secs == secs * q && (q + 1) * secs == secs * q + secs) by (nonlinear_arith);
    }
}

/// Rates and the last resource snapshot are changed by resource snapshots alone.
pub proof fn law_only_snapshots_change_rates(n: NodeModel, event: Event)
    ensures
        !(event.data is ResourceSnapshot) ==> {
            &&& n.after(event).network_tx_bps == n.network_tx_bps
            &&& n.after(event).network_rx_bps == n.network_rx_bps
            &&& n.after(event).last_resource == n.last_resource
        },
{
}

/// A peer is reached as was last said, and its latency is the one last measured, which a change of
/// connection does not forget. The latency of a peer that is not known is not kept.
pub proof fn law_peers_are_followed(n: NodeModel, event: Event, peer: EndpointId)
    ensures
        ({
            let before = lookup(n.p2p.peers, peer);
            let after = lookup(n.after(event).p2p.peers, peer);
            match event.data {
                EventData::P2P(P2P::ConnectionChanged(e)) => if e.endpoint_id == peer {
                    &&& after matches Some(p)
                    &&& p.connection_path == e.connection_path
                    &&& p.latency_ms == (match before {
                        Some(q) => q.latency_ms,
                        None => None,
                    })
                } else {
                    after == before
                },
                EventData::P2P(P2P::ConnectionLatencyChanged(e)) => if e.endpoint_id == peer {
                    match before {
                        Some(q) => {
                            &&& after matches Some(p)
                            &&& p.connection_path == q.connection_path
                            &&& p.latency_ms == Some(e.latency_ms)
                        },
                        None => after is None,
                    }
                } else {
                    after == before
                },
                _ => after == before,
            }
        }),
{
    match event.data {
        EventData::P2P(P2P::ConnectionChanged(e)) => {
            let latency = match lookup(n.p2p.peers, e.endpoint_id) {
                Some(p) => p.latency_ms,
                None => None,
            };
            let info = PeerInfo { connection_path: e.connection_path, latency_ms: latency };
            lemma_put_lookup(n.p2p.peers, e.endpoint_id, info, peer);
        },
        EventData::P2P(P2P::ConnectionLatencyChanged(e)) => {
            if let Some(p) = lookup(n.p2p.peers, e.endpoint_id) {
                let info = PeerInfo { latency_ms: Some(e.latency_ms), ..p };
                lemma_put_lookup(n.p2p.peers, e.endpoint_id, info, peer);
            }
        },
        _ => {},
    }
}

/// A download is followed from its start, with its size and nothing transferred, through the bytes
/// last reported, to its result. Progress and the end of one that never started change nothing.
pub proof fn law_blob_downloads_are_followed(n: NodeModel, event: Event, blob: BlobHash)
    ensures
        ({
            let before = lookup(n.p2p.downloads, blob);
            let after = lookup(n.after(event).p2p.downloads, blob);
            match event.data {
                EventData::P2P(P2P::BlobDownloadStarted(e)) => if e.blob == blob {
                    &&& after matches Some(t)
                    &&& t.size_bytes == e.size_bytes
                    &&& t.bytes_transferred == 0
                    &&& t.result is None
                } else {
                    after == before
                },
                EventData::P2P(P2P::BlobDownloadProgress(e)) => if e.blob == blob {
                    match before {
                        Some(b) => {
                            &&& after matches Some(t)
                            &&& t.size_bytes == b.size_bytes
                            &&& t.bytes_transferred == e.bytes_transferred
                            &&& t.result == b.result
                        },
                        None => after is None,
                    }
                } else {
                    after == before
                },
                EventData::P2P(P2P::BlobDownloadCompleted(e)) => if e.blob == blob {
                    match before {
                        Some(b) => {
                            &&& after matches Some(t)
                            &&& t.size_bytes == b.size_bytes
                            &&& t.bytes_transferred == b.bytes_transferred
                            &&& t.result == Some(e.result)
                        },
                        None => after is None,
                    }
                } else {
                    after == before
                },
                _ => after == before,
            }
        }),
        n.after(event).p2p.uploads == n.p2p.uploads,
{
    match event.data {
        EventData::P2P(P2P::BlobDownloadStarted(e)) => {
            let t = BlobDownloadTransfer {
                size_bytes: e.size_bytes,
                bytes_transferred: 0,
                result: None,
            };
            lemma_put_lookup(n.p2p.downloads, e.blob, t, blob);
        },
        EventData::P2P(P2P::BlobDownloadProgress(e)) => {
            if let Some(b) = lookup(n.p2p.downloads, e.blob) {
                let t = BlobDownloadTransfer { bytes_transferred: e.bytes_transferred, ..b };
                lemma_put_lookup(n.p2p.downloads, e.blob, t, blob);
            }
        },
        EventData::P2P(P2P::BlobDownloadCompleted(e)) => {
            if let Some(b) = lookup(n.p2p.downloads, e.blob) {
                let t = BlobDownloadTransfer { result: Some(e.result), ..b };
                lemma_put_lookup(n.p2p.downloads, e.blob, t, blob);
            }
        },
        _ => {},
    }
}

/// Neighbours are those that came up and have not gone down since. Each blob that is stored, each
/// message that is sent and each that is received counts one, and nothing else counts.
pub proof fn law_gossip_is_counted(n: NodeModel, event: Event, other: EndpointId)
    requires
        n.has_room(event.data),
    ensures
        n.after(event).p2p.gossip_neighbors.contains(other) == (match event.data {
            EventData::P2P(P2P::GossipNeighborUp(e)) => e.endpoint_id == other
                || n.p2p.gossip_neighbors.contains(other),
            EventData::P2P(P2P::GossipNeighborDown(e)) => e.endpoint_id != other
                && n.p2p.gossip_neighbors.contains(other),
            _ => n.p2p.gossip_neighbors.contains(other),
        }),
        n.after(event).p2p.gossip_sent - n.p2p.gossip_sent == (match event.data {
            EventData::P2P(P2P::GossipTrainingResultSent)
            | EventData::P2P(P2P::GossipFinishedSent) => 1int,
            _ => 0,
        }),
        n.after(event).p2p.gossip_recv - n.p2p.gossip_recv == (match event.data {
            EventData::P2P(P2P::GossipTrainingResultReceived(_))
            | EventData::P2P(P2P::GossipFinishedReceived) => 1int,
            _ => 0,
        }),
        n.after(event).p2p.blobs_in_store - n.p2p.blobs_in_store == (match event.data {
            EventData::P2P(P2P::BlobAddedToStore) => 1int,
            _ => 0,
        }),
{
}

/// A batch assigned to a node waits for its data; one that was known already stays as it is. When the
/// data has come, or failed to, every batch that waited has that result, and the others keep theirs.
pub proof fn law_batch_downloads_are_followed(n: NodeModel, event: Event, batch: BatchId)
    ensures
        ({
            let before = lookup(n.train.batch_downloads, batch);
            let after = lookup(n.after(event).train.batch_downloads, batch);
            match event.data {
                EventData::Train(Train::BatchAssigned(e)) => if e.batch_id == batch && before is None {
                    after matches Some(d) && d.result is None
                } else {
                    after == before
                },
                EventData::Train(Train::BatchDataDownloadComplete(e)) => match before {
                    Some(b) => after matches Some(d) && d.result == (if b.result is None {
                        Some(e.result)
                    } else {
                        b.result
                    }),
                    None => after is None,
                },
                _ => after == before,
            }
        }),
{
    let s = n.train.batch_downloads;
    match event.data {
        EventData::Train(Train::BatchAssigned(e)) => {
            let d = present_or(s, e.batch_id, BatchDownload { result: None });
            lemma_put_lookup(s, e.batch_id, d, batch);
        },
        EventData::Train(Train::BatchDataDownloadComplete(e)) => {
            let t = settled(s, e.result);
            if has_key(s, batch) {
                lemma_key_position(s, batch);
                let p = key_position(s, batch);
                assert(t[p].0 == batch);
                assert forall|j: int| 0 <= j < p implies (#[trigger] t[j]).0 != batch by {
                    assert(s[j].0 != batch);
                }
                lemma_key_position_is(t, batch, p);
            } else if has_key(t, batch) {
                let j = choose|j: int| 0 <= j < t.len() && (#[trigger] t[j]).0 == batch;
                assert(s[j].0 == batch);
            }
        },
        _ => {},
    }
}

/// A node is a witness as it was last elected, for the step of that election; being assigned a batch,
/// or moving to another step, ends that.
pub proof fn law_elections_are_kept(n: NodeModel, event: Event)
    ensures
        match event.data {
            EventData::Train(Train::WitnessElected(e)) => if e.is_witness {
                n.after(event).train.witness == Some(
                    WitnessInfo {
                        step: e.step,
                        round: e.round,
                        epoch: e.epoch,
                        index: e.index,
                        committee_position: e.committee_position,
                    },
                )
            } else {
                n.after(event).train.witness is None
            },
            EventData::Train(Train::BatchAssigned(_)) => n.after(event).train.witness is None,
            EventData::Client(Client::StateChanged(sc)) => n.after(event).train.witness == (
            match n.train.witness {
                Some(w) => if sc.step == n.step || sc.step == w.step {
                    Some(w)
                } else {
                    None
                },
                None => None,
            }),
            _ => n.after(event).train.witness == n.train.witness,
        },
{
}

/// Whether the last results were applied is not known from the start of applying until its end. Each
/// warning is kept behind those before, with its batch and the trainer that was expected.
pub proof fn law_results_and_warnings_are_kept(n: NodeModel, event: Event)
    ensures
        n.after(event).train.last_distro_ok == (match event.data {
            EventData::Train(Train::ApplyDistroResultsStart) => None,
            EventData::Train(Train::ApplyDistroResultsComplete(e)) => Some(e.0 is Ok),
            _ => n.train.last_distro_ok,
        }),
        match event.data {
            EventData::Train(Train::UntrainedBatchWarning(w)) => {
                let after = n.after(event).train.untrained_warnings;
                &&& after.len() == n.train.untrained_warnings.len() + 1
                &&& after.last() == (w.batch_id, w.expected_trainer)
                &&& n.train.untrained_warnings.is_prefix_of(after)
            },
            _ => n.after(event).train.untrained_warnings == n.train.untrained_warnings,
        },
{
}

/// `m` is what an event makes of a node `n`: where it stands, what it recorded, and whether it trains.
pub open spec fn node_follows(n: NodeModel, m: NodeModel, event: Event) -> bool {
    &&& m.node_id == n.node_id
    &&& match event.data {
        EventData::Client(Client::StateChanged(sc)) => {
            &&& m.run_state == Some(sc.new_state)
            &&& m.epoch == sc.epoch
            &&& m.step == sc.step
            &&& m.losses == n.losses
        },
        EventData::Client(Client::HealthCheckFailed(f)) => m.health_check_steps
            == n.health_check_steps.push(f.round),
        EventData::Client(Client::Error(e)) => m.last_error == Some(e.message),
        EventData::Train(Train::TrainingFinished(tf)) => {
            &&& m.step == tf.step
            &&& !m.train.training_in_progress
            &&& m.losses == (match tf.loss {
                Some(loss) => n.losses.push((tf.step, loss)),
                None => n.losses,
            })
        },
        EventData::Train(Train::TrainingStarted) => m.train.training_in_progress,
        EventData::ResourceSnapshot(rs) => m.last_resource == Some((event.timestamp, rs)),
        _ => m.step == n.step && m.losses == n.losses && m.run_state == n.run_state,
    }
}

/// A node follows its events.
pub proof fn law_nodes_follow_their_events(n: NodeModel, event: Event)
    ensures
        node_follows(n, n.after(event), event),
{
}

} // verus!
