//! What each event and each report changes of the cluster, and what it leaves alone.

use vstd::prelude::*;

use super::cluster::{all_data_reported, BatchModel, ClusterModel};
use super::laws::{law_event_touches_own_node, law_new_step_is_seeded};
use super::maps::{nodes_of, statuses_of, witnesses_of};
use super::node_laws::{law_nodes_follow_their_events, node_follows};
use super::snapshots::{
    ClusterBatchView, ClusterSnapshot, CoordinatorStateSnapshot, DownloadStatus, NodeBatchStatus,
    WitnessInfo, WitnessStatus,
};
use crate::batch_map::{ascending, BatchId};
use crate::events::{
    BatchDataDownloadComplete, CoordinatorEvent, Event, EventData, RpcCallType, Train, P2P,
};
use crate::keyed::{
    has_key, key_position, lemma_key_position, lemma_key_position_is, lemma_put_lookup, lookup, put,
    view_values,
};
use crate::sets::BlobHash;

verus! {

/// The model of a cluster is what its snapshot holds, field by field.
pub proof fn law_the_model_is_the_cluster(c: ClusterSnapshot, b: ClusterBatchView)
    ensures
        c@.timestamp == c.timestamp,
        c@.coordinator == c.coordinator,
        c@.nodes == view_values(nodes_of(c.nodes)),
        c@.step_batches == view_values(c.step_batches@),
        c@.prev_step_batches == view_values(c.prev_step_batches@),
        c@.blob_to_batch == c.blob_to_batch@,
        c@.applied_by == c.applied_by@,
        c@.prev_applied_by == c.prev_applied_by@,
        c@.step_witnesses == witnesses_of(c.step_witnesses),
        b@.assigned_to is Some <==> b.assigned_to is Some,
        b.assigned_to matches Some(n) ==> b@.assigned_to == Some(n@),
        b@.blob == b.blob,
        b@.data_downloaded == b.data_downloaded,
        b@.trained == b.trained,
        b@.node_status == statuses_of(b.node_status),
{
}

/// A projection that has seen nothing knows no node, no batch, no blob and no witness.
pub proof fn law_at_first_nothing_is_known(timestamp: i64)
    ensures
        ({
            let c = ClusterModel::fresh(timestamp);
            &&& c.timestamp == timestamp
            &&& c.coordinator is None
            &&& c.nodes.len() == 0
            &&& c.step_batches.len() == 0
            &&& c.prev_step_batches.len() == 0
            &&& c.blob_to_batch == Map::<BlobHash, BatchId>::empty()
            &&& c.applied_by == Set::<Seq<char>>::empty()
            &&& c.prev_applied_by == Set::<Seq<char>>::empty()
            &&& c.step_witnesses.len() == 0
        }),
{
}

/// The batch that an event is about, if it is about one: the one that it names, or the one that its
/// blob was last said to hold.
pub open spec fn concerned(c: ClusterModel, data: EventData) -> Option<BatchId> {
    match data {
        EventData::Train(Train::TrainingFinished(e)) => Some(e.batch_id),
        EventData::P2P(P2P::GossipTrainingResultReceived(e)) => Some(e.batch_id),
        EventData::Train(Train::DistroResultDeserializeComplete(e)) => batch_of(c, e.blob),
        EventData::P2P(P2P::BlobDownloadStarted(e)) => batch_of(c, e.blob),
        EventData::P2P(P2P::BlobDownloadCompleted(e)) => batch_of(c, e.blob),
        _ => None,
    }
}

/// The batch whose result `blob` was last said to hold.
pub open spec fn batch_of(c: ClusterModel, blob: BlobHash) -> Option<BatchId> {
    if c.blob_to_batch.contains_key(blob) {
        Some(c.blob_to_batch[blob])
    } else {
        None
    }
}

/// What an event of `node` makes of a batch that it is about.
spec fn told(b: BatchModel, node: Seq<char>, data: EventData) -> BatchModel {
    match data {
        EventData::Train(Train::TrainingFinished(_)) => b.finished_by(node),
        EventData::P2P(P2P::GossipTrainingResultReceived(e)) => b.gossiped(node, e.blob),
        EventData::Train(Train::DistroResultDeserializeComplete(e)) => b.reported(
            node,
            |s: NodeBatchStatus| NodeBatchStatus { deserialized: Some(e.result is Ok), ..s },
        ),
        EventData::P2P(P2P::BlobDownloadStarted(e)) => b.reported(
            node,
            |s: NodeBatchStatus| NodeBatchStatus { download: DownloadStatus::InProgress, ..s },
        ),
        EventData::P2P(P2P::BlobDownloadCompleted(e)) => b.reported(
            node,
            |s: NodeBatchStatus|
                NodeBatchStatus {
                    download: if e.result is Ok {
                        DownloadStatus::Success
                    } else {
                        DownloadStatus::Failed
                    },
                    ..s
                },
        ),
        _ => b,
    }
}

/// What is found of a batch once a node has reported on its training data.
proof fn lemma_data_lookup(s: Seq<(BatchId, BatchModel)>, node: Seq<char>, ok: bool, k: BatchId)
    ensures
        lookup(all_data_reported(s, node, ok), k) == (match lookup(s, k) {
            Some(b) => Some(b.data_reported(node, ok)),
            None => None,
        }),
{
    let t = all_data_reported(s, node, ok);
    if has_key(s, k) {
        lemma_key_position(s, k);
        let p = key_position(s, k);
        assert(t[p].0 == k);
        assert forall|j: int| 0 <= j < p implies (#[trigger] t[j]).0 != k by {
            assert(s[j].0 != k);
        }
        lemma_key_position_is(t, k, p);
    } else if has_key(t, k) {
        let j = choose|j: int| 0 <= j < t.len() && (#[trigger] t[j]).0 == k;
        assert(s[j].0 == k);
    }
}

/// What is found of a batch after an event.
proof fn lemma_batches_after(c: ClusterModel, node: Seq<char>, event: Event, k: BatchId)
    ensures
        ({
            let d = c.after_node_event(node, event);
            let mine = concerned(c, event.data) == Some(k);
            &&& !(event.data is Train && event.data->Train_0 is BatchDataDownloadComplete) ==> {
                &&& lookup(d.step_batches, k) == (match lookup(c.step_batches, k) {
                    Some(b) if mine => Some(told(b, node, event.data)),
                    found => found,
                })
                &&& lookup(d.prev_step_batches, k) == (match lookup(c.prev_step_batches, k) {
                    Some(b) if mine && !has_key(c.step_batches, k) => Some(
                        told(b, node, event.data),
                    ),
                    found => found,
                })
            }
            &&& event.data matches EventData::Train(Train::BatchDataDownloadComplete(e)) ==> {
                &&& lookup(d.step_batches, k) == (match lookup(c.step_batches, k) {
                    Some(b) => Some(b.data_reported(node, e.result is Ok)),
                    None => None,
                })
                &&& lookup(d.prev_step_batches, k) == (match lookup(c.prev_step_batches, k) {
                    Some(b) => Some(b.data_reported(node, e.result is Ok)),
                    None => None,
                })
            }
        }),
{
    let mid = ClusterModel {
        timestamp: event.timestamp,
        nodes: put(c.nodes, node, c.node(node).after(event)),
        ..c
    };
    if let EventData::Train(Train::BatchDataDownloadComplete(e)) = event.data {
        lemma_data_lookup(c.step_batches, node, e.result is Ok, k);
        lemma_data_lookup(c.prev_step_batches, node, e.result is Ok, k);
    }
    if let Some(id) = concerned(c, event.data) {
        if let Some(b) = c.batch(id) {
            let m = told(b, node, event.data);
            lemma_put_lookup(c.step_batches, id, m, k);
            lemma_put_lookup(c.prev_step_batches, id, m, k);
            assert(mid.batch(id) == Some(b));
        }
    }
}

/// What an event of `node` may have made of a batch.
pub open spec fn batch_follows(
    b: BatchModel,
    a: BatchModel,
    node: Seq<char>,
    data: EventData,
    concerned: bool,
) -> bool {
    let own = b.assigned_to == Some(node);
    &&& a.assigned_to == b.assigned_to
    // Its training data: the first word of its own node counts.
    &&& a.data_downloaded == (match data {
        EventData::Train(Train::BatchDataDownloadComplete(e)) => if own && b.data_downloaded is None {
            Some(e.result is Ok)
        } else {
            b.data_downloaded
        },
        _ => b.data_downloaded,
    })
    // It is trained once its own node has finished it.
    &&& a.trained == (b.trained || (own && concerned && data is Train
        && data->Train_0 is TrainingFinished))
    // The blob that holds its result is the first one that gossip named.
    &&& a.blob == (match data {
        EventData::P2P(P2P::GossipTrainingResultReceived(e)) => if concerned && b.blob is None {
            Some(e.blob)
        } else {
            b.blob
        },
        _ => b.blob,
    })
}

/// What is known of each batch of the current step, and of the step before, after an event of a node:
/// whether its training data came, whether it is trained, and the blob of its result. Late reports go
/// to the step before where the batch is not one of the current step.
pub proof fn law_batches_follow_events(c: ClusterModel, node: Seq<char>, event: Event, k: BatchId)
    ensures
        ({
            let d = c.after_node_event(node, event);
            let mine = concerned(c, event.data) == Some(k);
            &&& has_key(d.step_batches, k) <==> has_key(c.step_batches, k)
            &&& has_key(d.prev_step_batches, k) <==> has_key(c.prev_step_batches, k)
            &&& has_key(c.step_batches, k) ==> batch_follows(
                lookup(c.step_batches, k)->0,
                lookup(d.step_batches, k)->0,
                node,
                event.data,
                mine,
            )
            &&& has_key(c.prev_step_batches, k) ==> batch_follows(
                lookup(c.prev_step_batches, k)->0,
                lookup(d.prev_step_batches, k)->0,
                node,
                event.data,
                mine && !has_key(c.step_batches, k),
            )
        }),
{
    lemma_batches_after(c, node, event, k);
    assert(lookup(c.step_batches, k) is Some <==> has_key(c.step_batches, k));
    assert(lookup(c.prev_step_batches, k) is Some <==> has_key(c.prev_step_batches, k));
    let d = c.after_node_event(node, event);
    assert(lookup(d.step_batches, k) is Some <==> has_key(d.step_batches, k));
    assert(lookup(d.prev_step_batches, k) is Some <==> has_key(d.prev_step_batches, k));
}

/// When a node has the training data of its batches, or failed to get it, every batch of the current
/// step and of the step before that is assigned to it says so: whether the data came, where nothing was
/// said before. Batches of other nodes, and all else of its own, stay as they were.
pub proof fn law_downloads_are_shown(
    c: ClusterModel,
    node: Seq<char>,
    event: Event,
    report: BatchDataDownloadComplete,
    i: int,
)
    requires
        event.data == EventData::Train(Train::BatchDataDownloadComplete(report)),
    ensures
        ({
            let d = c.after_node_event(node, event);
            &&& d.step_batches.len() == c.step_batches.len()
            &&& d.prev_step_batches.len() == c.prev_step_batches.len()
            &&& 0 <= i < c.step_batches.len() ==> d.step_batches[i].0 == c.step_batches[i].0
                && data_is_shown(c.step_batches[i].1, d.step_batches[i].1, node, report.result is Ok)
            &&& 0 <= i < c.prev_step_batches.len() ==> d.prev_step_batches[i].0
                == c.prev_step_batches[i].0 && data_is_shown(
                c.prev_step_batches[i].1,
                d.prev_step_batches[i].1,
                node,
                report.result is Ok,
            )
        }),
{
}

/// A batch of `node` shows whether its training data came, as it was first said; another stays as it
/// was.
pub open spec fn data_is_shown(b: BatchModel, a: BatchModel, node: Seq<char>, ok: bool) -> bool {
    if b.assigned_to == Some(node) {
        &&& a.data_downloaded is Some
        &&& a.data_downloaded->0 == (match b.data_downloaded {
            Some(said) => said,
            None => ok,
        })
        &&& a.assigned_to == b.assigned_to
        &&& a.blob == b.blob
        &&& a.trained == b.trained
        &&& a.node_status == b.node_status
    } else {
        a == b
    }
}

/// How far the result of a batch has come on node `x`.
pub open spec fn progress_on(b: BatchModel, x: Seq<char>) -> NodeBatchStatus {
    match lookup(b.node_status, x) {
        Some(s) => s,
        None => NodeBatchStatus {
            gossip_received: false,
            download: DownloadStatus::NotStarted,
            deserialized: None,
        },
    }
}

/// What an event of `node` may have made of the progress of a batch's result on node `x`. The trainer
/// has the result already, so what it says is not kept.
pub open spec fn progress_follows(
    b: BatchModel,
    a: BatchModel,
    node: Seq<char>,
    x: Seq<char>,
    data: EventData,
    concerned: bool,
) -> bool {
    let before = progress_on(b, x);
    let after = progress_on(a, x);
    let heard = concerned && x == node && b.assigned_to != Some(node);
    &&& after.gossip_received == (before.gossip_received || (heard && data is P2P
        && data->P2P_0 is GossipTrainingResultReceived))
    &&& after.download == (match data {
        EventData::P2P(P2P::BlobDownloadStarted(_)) if heard => DownloadStatus::InProgress,
        EventData::P2P(P2P::BlobDownloadCompleted(e)) if heard => if e.result is Ok {
            DownloadStatus::Success
        } else {
            DownloadStatus::Failed
        },
        _ => before.download,
    })
    &&& after.deserialized == (match data {
        EventData::Train(Train::DistroResultDeserializeComplete(e)) if heard => Some(e.result is Ok),
        _ => before.deserialized,
    })
}

proof fn lemma_told_progress(b: BatchModel, node: Seq<char>, x: Seq<char>, data: EventData)
    ensures
        concerns_a_batch(data) ==> progress_follows(b, told(b, node, data), node, x, data, true),
{
    let s = b.status(node);
    let statuses = b.node_status;
    lemma_put_lookup(statuses, node, NodeBatchStatus { gossip_received: true, ..s }, x);
    lemma_put_lookup(statuses, node, NodeBatchStatus { download: DownloadStatus::InProgress, ..s }, x);
    lemma_put_lookup(statuses, node, NodeBatchStatus { download: DownloadStatus::Success, ..s }, x);
    lemma_put_lookup(statuses, node, NodeBatchStatus { download: DownloadStatus::Failed, ..s }, x);
    lemma_put_lookup(statuses, node, NodeBatchStatus { deserialized: Some(true), ..s }, x);
    lemma_put_lookup(statuses, node, NodeBatchStatus { deserialized: Some(false), ..s }, x);
}

spec fn concerns_a_batch(data: EventData) -> bool {
    match data {
        EventData::Train(Train::TrainingFinished(_))
        | EventData::P2P(P2P::GossipTrainingResultReceived(_))
        | EventData::Train(Train::DistroResultDeserializeComplete(_))
        | EventData::P2P(P2P::BlobDownloadStarted(_))
        | EventData::P2P(P2P::BlobDownloadCompleted(_)) => true,
        _ => false,
    }
}

/// How far each batch's result has come on each node, after an event: its announcement, its download
/// and whether it could be read.
pub proof fn law_results_are_followed(
    c: ClusterModel,
    node: Seq<char>,
    event: Event,
    k: BatchId,
    x: Seq<char>,
)
    ensures
        ({
            let d = c.after_node_event(node, event);
            let mine = concerned(c, event.data) == Some(k);
            &&& has_key(c.step_batches, k) ==> progress_follows(
                lookup(c.step_batches, k)->0,
                lookup(d.step_batches, k)->0,
                node,
                x,
                event.data,
                mine,
            )
            &&& has_key(c.prev_step_batches, k) ==> progress_follows(
                lookup(c.prev_step_batches, k)->0,
                lookup(d.prev_step_batches, k)->0,
                node,
                x,
                event.data,
                mine && !has_key(c.step_batches, k),
            )
        }),
{
    lemma_batches_after(c, node, event, k);
    if let Some(b) = lookup(c.step_batches, k) {
        lemma_told_progress(b, node, x, event.data);
    }
    if let Some(b) = lookup(c.prev_step_batches, k) {
        lemma_told_progress(b, node, x, event.data);
    }
}

/// A blob belongs to the batch that gossip last named with it. Those that have applied a step's results
/// are those that said so with success. Nobody else's word changes either.
pub proof fn law_blobs_and_applications_are_kept(
    c: ClusterModel,
    node: Seq<char>,
    event: Event,
    blob: BlobHash,
    x: Seq<char>,
)
    ensures
        ({
            let d = c.after_node_event(node, event);
            &&& batch_of(d, blob) == (match event.data {
                EventData::P2P(P2P::GossipTrainingResultReceived(e)) if e.blob == blob => Some(
                    e.batch_id,
                ),
                _ => batch_of(c, blob),
            })
            &&& d.applied_by.contains(x) == (c.applied_by.contains(x) || (x == node
                && event.data is Train && event.data->Train_0 is ApplyDistroResultsComplete && (
            event.data->Train_0->ApplyDistroResultsComplete_0).0 is Ok))
            &&& d.prev_applied_by == c.prev_applied_by
            &&& d.coordinator == c.coordinator
            &&& d.timestamp == event.timestamp
        }),
{
}

/// A node is a witness of the step once it was elected, and as it was last elected. Its attestation, of
/// a step or of the warmup, counts as submitted once it was sent, and its outcome is the one last
/// reported. Other calls, and calls of those that are no witnesses, change nothing.
pub proof fn law_witnesses_are_followed(c: ClusterModel, node: Seq<char>, event: Event, x: Seq<char>)
    ensures
        ({
            let before = lookup(c.step_witnesses, x);
            let after = lookup(c.after_node_event(node, event).step_witnesses, x);
            match event.data {
                EventData::Train(Train::WitnessElected(e)) => if e.is_witness && x == node {
                    &&& after matches Some(w)
                    &&& w.info == (WitnessInfo {
                        step: e.step,
                        round: e.round,
                        epoch: e.epoch,
                        index: e.index,
                        committee_position: e.committee_position,
                    })
                    &&& !w.submitted
                    &&& w.rpc_result is None
                } else {
                    after == before
                },
                EventData::CoordinatorEvent(CoordinatorEvent::RpcCallSubmitted(e)) => if x == node
                    && attests(e.call_type) && before is Some {
                    &&& after matches Some(w)
                    &&& w.info == (before->0).info
                    &&& w.submitted
                    &&& w.rpc_result == (before->0).rpc_result
                } else {
                    after == before
                },
                EventData::CoordinatorEvent(CoordinatorEvent::RpcCallResult(e)) => if x == node
                    && attests(e.call_type) && before is Some {
                    &&& after matches Some(w)
                    &&& w.info == (before->0).info
                    &&& w.submitted == (before->0).submitted
                    &&& w.rpc_result == Some(e.result is Ok)
                } else {
                    after == before
                },
                _ => after == before,
            }
        }),
{
    let s = c.step_witnesses;
    match event.data {
        EventData::Train(Train::WitnessElected(e)) => {
            let info = WitnessInfo {
                step: e.step,
                round: e.round,
                epoch: e.epoch,
                index: e.index,
                committee_position: e.committee_position,
            };
            let w = WitnessStatus { info, submitted: false, rpc_result: None };
            lemma_put_lookup(s, node, w, x);
        },
        EventData::CoordinatorEvent(CoordinatorEvent::RpcCallSubmitted(e)) => {
            if let Some(w) = lookup(s, node) {
                lemma_put_lookup(s, node, WitnessStatus { submitted: true, ..w }, x);
            }
        },
        EventData::CoordinatorEvent(CoordinatorEvent::RpcCallResult(e)) => {
            if let Some(w) = lookup(s, node) {
                lemma_put_lookup(s, node, WitnessStatus { rpc_result: Some(e.result is Ok), ..w }, x);
            }
        },
        _ => {},
    }
}

/// A call by which a witness attests: of a step, or of the warmup.
pub open spec fn attests(call: RpcCallType) -> bool {
    match call {
        RpcCallType::Witness | RpcCallType::WarmupWitness => true,
        RpcCallType::HealthCheck | RpcCallType::Checkpoint => false,
    }
}

/// The first report of the coordinator, and every one that names another step than the last, begins a
/// step: its batches are those assigned, each with its node and nothing else known, and what was known
/// of the batches and the applications of the step that ends is kept as that of the step before.
pub proof fn law_another_step_begins(c: ClusterModel, update: CoordinatorStateSnapshot, i: int)
    requires
        c.coordinator matches Some(last) ==> last.step != update.step,
        ascending(update.batch_assignments@),
    ensures
        ({
            let d = c.after_coordinator(update);
            let a = update.batch_assignments@;
            &&& d.timestamp == update.timestamp
            &&& d.coordinator == Some(update)
            &&& d.nodes == c.nodes
            &&& d.prev_step_batches == c.step_batches
            &&& d.prev_applied_by == c.applied_by
            &&& d.applied_by == Set::<Seq<char>>::empty()
            &&& d.blob_to_batch == Map::<BlobHash, BatchId>::empty()
            &&& d.step_witnesses.len() == 0
            &&& d.step_batches.len() == a.len()
            &&& 0 <= i < a.len() ==> {
                &&& d.step_batches[i].0 == a[i].0
                &&& d.step_batches[i].1.assigned_to == Some(a[i].1@)
                &&& d.step_batches[i].1.blob is None
                &&& d.step_batches[i].1.data_downloaded is None
                &&& !d.step_batches[i].1.trained
                &&& d.step_batches[i].1.node_status.len() == 0
            }
        }),
{
    law_new_step_is_seeded(c, update);
}

/// A further report on the same step begins nothing: it is kept, with its moment, and all else but the
/// assignments stays.
pub proof fn law_the_same_step_goes_on(c: ClusterModel, update: CoordinatorStateSnapshot)
    requires
        c.coordinator matches Some(last) && last.step == update.step,
    ensures
        ({
            let d = c.after_coordinator(update);
            &&& d.timestamp == update.timestamp
            &&& d.coordinator == Some(update)
            &&& d.nodes == c.nodes
            &&& d.prev_step_batches == c.prev_step_batches
            &&& d.prev_applied_by == c.prev_applied_by
            &&& d.applied_by == c.applied_by
            &&& d.blob_to_batch == c.blob_to_batch
            &&& d.step_witnesses == c.step_witnesses
        }),
{
}

/// `d` is what an event of `node` makes of the cluster `c`: of its moment, of that node, and of every
/// batch of the current step and of the step before.
pub open spec fn cluster_follows(
    c: ClusterModel,
    d: ClusterModel,
    node: Seq<char>,
    event: Event,
) -> bool {
    &&& d.timestamp == event.timestamp
    &&& d.coordinator == c.coordinator
    &&& has_key(d.nodes, node)
    &&& node_follows(c.node(node), lookup(d.nodes, node)->0, event)
    &&& forall|k: BatchId|
        has_key(c.step_batches, k) ==> batch_follows(
            lookup(c.step_batches, k)->0,
            #[trigger] lookup(d.step_batches, k)->0,
            node,
            event.data,
            concerned(c, event.data) == Some(k),
        )
    &&& forall|k: BatchId|
        has_key(c.prev_step_batches, k) ==> batch_follows(
            lookup(c.prev_step_batches, k)->0,
            #[trigger] lookup(d.prev_step_batches, k)->0,
            node,
            event.data,
            concerned(c, event.data) == Some(k) && !has_key(c.step_batches, k),
        )
}

/// A cluster follows the events of its nodes.
pub proof fn law_clusters_follow_their_events(c: ClusterModel, node: Seq<char>, event: Event)
    ensures
        cluster_follows(c, c.after_node_event(node, event), node, event),
{
    let d = c.after_node_event(node, event);
    law_event_touches_own_node(c, node, event, node);
    law_nodes_follow_their_events(c.node(node), event);
    assert(lookup(d.nodes, node) is Some);
    assert forall|k: BatchId| has_key(c.step_batches, k) implies batch_follows(
        lookup(c.step_batches, k)->0,
        #[trigger] lookup(d.step_batches, k)->0,
        node,
        event.data,
        concerned(c, event.data) == Some(k),
    ) by {
        law_batches_follow_events(c, node, event, k);
    }
    assert forall|k: BatchId| has_key(c.prev_step_batches, k) implies batch_follows(
        lookup(c.prev_step_batches, k)->0,
        #[trigger] lookup(d.prev_step_batches, k)->0,
        node,
        event.data,
        concerned(c, event.data) == Some(k) && !has_key(c.step_batches, k),
    ) by {
        law_batches_follow_events(c, node, event, k);
    }
}

} // verus!
