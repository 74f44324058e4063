//! What holds of a projection whatever events and reports it takes in.

use vstd::prelude::*;

use super::cluster::{all_data_reported, reassigned, seeded, BatchModel, ClusterModel};
use super::maps::present_or;
use super::node::{NodeModel, P2PModel};
use super::snapshots::{
    BlobDownloadTransfer, CoordinatorStateSnapshot, NodeBatchStatus, PeerInfo, WitnessStatus,
};
use crate::batch_map::{ascending, batch_lt, lemma_put_ordered, lemma_rank, rank, BatchId};
use crate::events::{
    Client, Event, EventData, GossipNeighborDown, GossipNeighborUp, Train, TrainingFinished, P2P,
};
use crate::keyed::{
    distinct_keys, has_key, key_position, keys, lemma_key_position, lemma_key_position_is,
    lemma_put_lookup, lookup, put,
};
use crate::sets::{BlobHash, EndpointId};

verus! {

/// Every node is filed under its own name, and under no other.
pub open spec fn well_named(s: Seq<(Seq<char>, NodeModel)>) -> bool {
    &&& distinct_keys(s)
    &&& forall|i: int| 0 <= i < s.len() ==> (#[trigger] s[i]).1.node_id == s[i].0
}

impl ClusterModel {
    /// The order that every projection keeps: nodes and witnesses are listed once each, batches
    /// ascend.
    pub open spec fn ordered(self) -> bool {
        &&& well_named(self.nodes)
        &&& distinct_keys(self.step_witnesses)
        &&& ascending(self.step_batches)
        &&& ascending(self.prev_step_batches)
    }
}

/// Replacing the value of a key that is there moves no key.
proof fn lemma_put_keys<K, V>(s: Seq<(K, V)>, k: K, v: V)
    ensures
        keys(put(s, k, v)) == (if has_key(s, k) {
            keys(s)
        } else {
            keys(s).push(k)
        }),
{
    lemma_key_position(s, k);
    if has_key(s, k) {
        assert(keys(put(s, k, v)) =~= keys(s));
    } else {
        assert(keys(put(s, k, v)) =~= keys(s).push(k));
    }
}

/// Whether keys ascend depends on the keys alone.
proof fn lemma_ascending_keys<V>(s: Seq<(BatchId, V)>, t: Seq<(BatchId, V)>)
    requires
        ascending(s),
        keys(s) == keys(t),
    ensures
        ascending(t),
{
    assert(keys(s).len() == s.len() && keys(t).len() == t.len());
    assert forall|i: int, j: int| 0 <= i < j < t.len() implies batch_lt(
        (#[trigger] t[i]).0,
        (#[trigger] t[j]).0,
    ) by {
        assert(keys(s)[i] == s[i].0 && keys(t)[i] == t[i].0);
        assert(keys(s)[j] == s[j].0 && keys(t)[j] == t[j].0);
    }
}

/// What `with_batch` leaves alone.
proof fn lemma_with_batch(c: ClusterModel, id: BatchId, m: BatchModel)
    requires
        c.batch(id) is Some,
    ensures
        keys(c.with_batch(id, m).step_batches) == keys(c.step_batches),
        keys(c.with_batch(id, m).prev_step_batches) == keys(c.prev_step_batches),
        c.in_prev(id) ==> c.with_batch(id, m).step_batches == c.step_batches,
        !c.in_prev(id) ==> c.with_batch(id, m).prev_step_batches == c.prev_step_batches,
        c.with_batch(id, m).nodes == c.nodes,
        c.with_batch(id, m).coordinator == c.coordinator,
        c.with_batch(id, m).applied_by == c.applied_by,
        c.with_batch(id, m).prev_applied_by == c.prev_applied_by,
        c.with_batch(id, m).step_witnesses == c.step_witnesses,
        c.with_batch(id, m).blob_to_batch == c.blob_to_batch,
        c.with_batch(id, m).timestamp == c.timestamp,
{
    lemma_put_keys(c.step_batches, id, m);
    lemma_put_keys(c.prev_step_batches, id, m);
}

/// What an event can change beyond its node: neither which batches there are, nor what was
/// recorded of the step before as applied, nor the coordinator's report.
proof fn lemma_shared_effects(c: ClusterModel, node: Seq<char>, data: EventData)
    ensures
        c.with_shared_effects(node, data).nodes == c.nodes,
        c.with_shared_effects(node, data).timestamp == c.timestamp,
        c.with_shared_effects(node, data).coordinator == c.coordinator,
        c.with_shared_effects(node, data).prev_applied_by == c.prev_applied_by,
        c.applied_by.subset_of(c.with_shared_effects(node, data).applied_by),
        keys(c.with_shared_effects(node, data).step_batches) == keys(c.step_batches),
        keys(c.with_shared_effects(node, data).prev_step_batches) == keys(c.prev_step_batches),
        distinct_keys(c.step_witnesses) ==> distinct_keys(
            c.with_shared_effects(node, data).step_witnesses,
        ),
        c.blob_to_batch.dom().subset_of(c.with_shared_effects(node, data).blob_to_batch.dom()),
        keys(c.step_witnesses).is_prefix_of(keys(c.with_shared_effects(node, data).step_witnesses)),
{
    let d = c.with_shared_effects(node, data);
    match data {
        EventData::Train(Train::BatchDataDownloadComplete(r)) => {
            assert(keys(d.step_batches) =~= keys(c.step_batches));
            assert(keys(d.prev_step_batches) =~= keys(c.prev_step_batches));
        },
        EventData::Train(Train::TrainingFinished(tf)) => {
            if let Some(b) = c.batch(tf.batch_id) {
                lemma_with_batch(c, tf.batch_id, b.finished_by(node));
            }
        },
        EventData::Train(Train::DistroResultDeserializeComplete(drc)) => {
            if c.blob_to_batch.contains_key(drc.blob) {
                let id = c.blob_to_batch[drc.blob];
                if c.batch(id) is Some {
                    lemma_blob_status(c, drc.blob, node);
                }
            }
        },
        EventData::P2P(P2P::BlobDownloadStarted(bds)) => {
            if c.blob_to_batch.contains_key(bds.blob) {
                let id = c.blob_to_batch[bds.blob];
                if c.batch(id) is Some {
                    lemma_blob_status(c, bds.blob, node);
                }
            }
        },
        EventData::P2P(P2P::BlobDownloadCompleted(bdc)) => {
            if c.blob_to_batch.contains_key(bdc.blob) {
                let id = c.blob_to_batch[bdc.blob];
                if c.batch(id) is Some {
                    lemma_blob_status(c, bdc.blob, node);
                }
            }
        },
        EventData::P2P(P2P::GossipTrainingResultReceived(gtr)) => {
            let told = ClusterModel {
                blob_to_batch: c.blob_to_batch.insert(gtr.blob, gtr.batch_id),
                ..c
            };
            if let Some(b) = told.batch(gtr.batch_id) {
                lemma_with_batch(told, gtr.batch_id, b.gossiped(node, gtr.blob));
            }
        },
        _ => {
            assert forall|k: Seq<char>, w: WitnessStatus|
                distinct_keys(c.step_witnesses) implies distinct_keys(
                #[trigger] put(c.step_witnesses, k, w),
            ) by {
                lemma_put_lookup(c.step_witnesses, k, w, k);
            }
            assert forall|k: Seq<char>, w: WitnessStatus|
                keys(c.step_witnesses).is_prefix_of(keys(#[trigger] put(c.step_witnesses, k, w))) by {
                lemma_put_keys(c.step_witnesses, k, w);
            }
        },
    }
}

/// A blob's status is filed with the batch that the blob belongs to.
proof fn lemma_blob_status(c: ClusterModel, blob: BlobHash, node: Seq<char>)
    requires
        c.blob_to_batch.contains_key(blob),
        c.batch(c.blob_to_batch[blob]) is Some,
    ensures
        forall|change: spec_fn(NodeBatchStatus) -> NodeBatchStatus|
            {
                let d = #[trigger] c.with_blob_status(blob, node, change);
                &&& keys(d.step_batches) == keys(c.step_batches)
                &&& keys(d.prev_step_batches) == keys(c.prev_step_batches)
            },
{
    let id = c.blob_to_batch[blob];
    let b = c.batch(id)->0;
    assert forall|change: spec_fn(NodeBatchStatus) -> NodeBatchStatus|
        {
            let d = #[trigger] c.with_blob_status(blob, node, change);
            &&& keys(d.step_batches) == keys(c.step_batches)
            &&& keys(d.prev_step_batches) == keys(c.prev_step_batches)
        } by {
        lemma_with_batch(c, id, b.reported(node, change));
    }
}

/// An event of one node changes what is known of that node alone. Every other node, and the order
/// in which nodes are listed, stays as it was; a node heard of for the first time comes last.
pub proof fn law_event_touches_own_node(
    c: ClusterModel,
    node: Seq<char>,
    event: Event,
    other: Seq<char>,
)
    ensures
        lookup(c.after_node_event(node, event).nodes, node) == Some(c.node(node).after(event)),
        other != node ==> lookup(c.after_node_event(node, event).nodes, other) == lookup(
            c.nodes,
            other,
        ),
        keys(c.after_node_event(node, event).nodes) == (if has_key(c.nodes, node) {
            keys(c.nodes)
        } else {
            keys(c.nodes).push(node)
        }),
{
    let n = c.node(node).after(event);
    let mid = ClusterModel {
        timestamp: event.timestamp,
        nodes: put(c.nodes, node, n),
        ..c
    };
    lemma_shared_effects(mid, node, event.data);
    lemma_put_lookup(c.nodes, node, n, other);
    lemma_put_keys(c.nodes, node, n);
}

/// An event of a node neither adds nor removes a batch and leaves the coordinator's report alone. It
/// takes nobody off the list of those that applied a step's results, drops no witness, and forgets
/// no blob.
pub proof fn law_event_keeps_batches(c: ClusterModel, node: Seq<char>, event: Event)
    ensures
        keys(c.after_node_event(node, event).step_batches) == keys(c.step_batches),
        keys(c.after_node_event(node, event).prev_step_batches) == keys(c.prev_step_batches),
        c.after_node_event(node, event).coordinator == c.coordinator,
        c.after_node_event(node, event).prev_applied_by == c.prev_applied_by,
        c.applied_by.subset_of(c.after_node_event(node, event).applied_by),
        keys(c.step_witnesses).is_prefix_of(keys(c.after_node_event(node, event).step_witnesses)),
        c.blob_to_batch.dom().subset_of(c.after_node_event(node, event).blob_to_batch.dom()),
        c.after_node_event(node, event).timestamp == event.timestamp,
{
    let mid = ClusterModel {
        timestamp: event.timestamp,
        nodes: put(c.nodes, node, c.node(node).after(event)),
        ..c
    };
    lemma_shared_effects(mid, node, event.data);
}

/// A projection that has seen nothing is ordered.
pub proof fn law_fresh_is_ordered(timestamp: i64)
    ensures
        ClusterModel::fresh(timestamp).ordered(),
{
}

/// An event keeps a projection ordered.
pub proof fn law_event_keeps_order(c: ClusterModel, node: Seq<char>, event: Event)
    requires
        c.ordered(),
    ensures
        c.after_node_event(node, event).ordered(),
{
    let n = c.node(node).after(event);
    let mid = ClusterModel { timestamp: event.timestamp, nodes: put(c.nodes, node, n), ..c };
    let d = c.after_node_event(node, event);
    lemma_shared_effects(mid, node, event.data);
    lemma_put_lookup(c.nodes, node, n, node);
    lemma_key_position(c.nodes, node);
    assert(n.node_id == node);
    assert forall|i: int| 0 <= i < d.nodes.len() implies (#[trigger] d.nodes[i]).1.node_id
        == d.nodes[i].0 by {
        if i != key_position(c.nodes, node) {
            assert(d.nodes[i] == c.nodes[i]);
        }
    }
    lemma_ascending_keys(c.step_batches, d.step_batches);
    lemma_ascending_keys(c.prev_step_batches, d.prev_step_batches);
}

/// Seeding from assignments gives ascending batches.
proof fn lemma_seeded_ascending(a: Seq<(BatchId, String)>, n: nat)
    requires
        n <= a.len(),
    ensures
        ascending(seeded(a, n)),
    decreases n,
{
    if n > 0 {
        lemma_seeded_ascending(a, (n - 1) as nat);
        lemma_put_ordered(
            seeded(a, (n - 1) as nat),
            a[n - 1].0,
            BatchModel { assigned_to: Some(a[n - 1].1@), ..BatchModel::fresh() },
            a[n - 1].0,
        );
    }
}

/// Assigning batches keeps them ascending.
proof fn lemma_reassigned_ascending(s: Seq<(BatchId, BatchModel)>, a: Seq<(BatchId, String)>, n: nat)
    requires
        n <= a.len(),
        ascending(s),
    ensures
        ascending(reassigned(s, a, n)),
    decreases n,
{
    if n > 0 {
        lemma_reassigned_ascending(s, a, (n - 1) as nat);
        let before = reassigned(s, a, (n - 1) as nat);
        lemma_put_ordered(
            before,
            a[n - 1].0,
            BatchModel {
                assigned_to: Some(a[n - 1].1@),
                ..present_or(before, a[n - 1].0, BatchModel::fresh())
            },
            a[n - 1].0,
        );
    }
}

/// A report of the coordinator keeps a projection ordered.
pub proof fn law_report_keeps_order(c: ClusterModel, update: CoordinatorStateSnapshot)
    requires
        c.ordered(),
    ensures
        c.after_coordinator(update).ordered(),
{
    let a = update.batch_assignments@;
    lemma_seeded_ascending(a, a.len());
    lemma_reassigned_ascending(c.step_batches, a, a.len());
}

/// What is never taken back about a batch, whatever a node reports: its node, the first blob named
/// for it, the first word on its training data, and that it was trained.
pub open spec fn only_progresses(before: BatchModel, after: BatchModel) -> bool {
    &&& after.assigned_to == before.assigned_to
    &&& before.blob is Some ==> after.blob == before.blob
    &&& before.data_downloaded is Some ==> after.data_downloaded == before.data_downloaded
    &&& before.trained ==> after.trained
}

/// Progress of every batch under one change of one of them.
proof fn lemma_with_batch_progress(c: ClusterModel, id: BatchId, m: BatchModel, k: BatchId)
    requires
        c.batch(id) is Some,
        only_progresses(c.batch(id)->0, m),
    ensures
        lookup(c.step_batches, k) is Some ==> lookup(c.with_batch(id, m).step_batches, k) is Some
            && only_progresses(
            lookup(c.step_batches, k)->0,
            lookup(c.with_batch(id, m).step_batches, k)->0,
        ),
        lookup(c.prev_step_batches, k) is Some ==> lookup(c.with_batch(id, m).prev_step_batches, k) is Some
            && only_progresses(
            lookup(c.prev_step_batches, k)->0,
            lookup(c.with_batch(id, m).prev_step_batches, k)->0,
        ),
{
    lemma_put_lookup(c.step_batches, id, m, k);
    lemma_put_lookup(c.prev_step_batches, id, m, k);
}

/// Progress of every batch when a node reports on its training data.
proof fn lemma_data_reported_progress(
    s: Seq<(BatchId, BatchModel)>,
    node: Seq<char>,
    ok: bool,
    k: BatchId,
)
    ensures
        lookup(s, k) is Some ==> lookup(all_data_reported(s, node, ok), k) is Some
            && only_progresses(lookup(s, k)->0, lookup(all_data_reported(s, node, ok), k)->0),
{
    let t = all_data_reported(s, node, ok);
    if has_key(s, k) {
        lemma_key_position(s, k);
        let p = key_position(s, k);
        assert(t[p].0 == k);
        assert forall|j: int| 0 <= j < p implies (#[trigger] t[j]).0 != k by {
            assert(s[j].0 != k);
        }
        lemma_key_position_is(t, k, p);
    }
}

/// Nothing that a node reports takes back what was known of a batch.
pub proof fn law_batches_only_progress(c: ClusterModel, node: Seq<char>, event: Event, k: BatchId)
    ensures
        lookup(c.step_batches, k) is Some ==> lookup(c.after_node_event(node, event).step_batches, k) is Some
            && only_progresses(
            lookup(c.step_batches, k)->0,
            lookup(c.after_node_event(node, event).step_batches, k)->0,
        ),
        lookup(c.prev_step_batches, k) is Some ==> lookup(
            c.after_node_event(node, event).prev_step_batches,
            k,
        ) is Some && only_progresses(
            lookup(c.prev_step_batches, k)->0,
            lookup(c.after_node_event(node, event).prev_step_batches, k)->0,
        ),
{
    let mid = ClusterModel {
        timestamp: event.timestamp,
        nodes: put(c.nodes, node, c.node(node).after(event)),
        ..c
    };
    match event.data {
        EventData::Train(Train::BatchDataDownloadComplete(r)) => {
            lemma_data_reported_progress(c.step_batches, node, r.result is Ok, k);
            lemma_data_reported_progress(c.prev_step_batches, node, r.result is Ok, k);
        },
        EventData::Train(Train::TrainingFinished(tf)) => {
            if let Some(b) = mid.batch(tf.batch_id) {
                lemma_with_batch_progress(
                    mid,
                    tf.batch_id,
                    b.finished_by(node),
                    k,
                );
            }
        },
        EventData::Train(Train::DistroResultDeserializeComplete(drc)) => {
            lemma_blob_progress(mid, drc.blob, node, k);
        },
        EventData::P2P(P2P::BlobDownloadStarted(bds)) => {
            lemma_blob_progress(mid, bds.blob, node, k);
        },
        EventData::P2P(P2P::BlobDownloadCompleted(bdc)) => {
            lemma_blob_progress(mid, bdc.blob, node, k);
        },
        EventData::P2P(P2P::GossipTrainingResultReceived(gtr)) => {
            let told = ClusterModel {
                blob_to_batch: mid.blob_to_batch.insert(gtr.blob, gtr.batch_id),
                ..mid
            };
            if let Some(b) = told.batch(gtr.batch_id) {
                lemma_with_batch_progress(told, gtr.batch_id, b.gossiped(node, gtr.blob), k);
            }
        },
        _ => {},
    }
}

/// What one event leaves untouched: every other node, the coordinator's report and what it seeded,
/// which batches there are and whom they are assigned to. Witnesses, blobs and those that applied a
/// step's results are only added to.
pub proof fn law_event_leaves_the_rest(
    c: ClusterModel,
    node: Seq<char>,
    event: Event,
    other: Seq<char>,
    k: BatchId,
)
    ensures
        ({
            let d = c.after_node_event(node, event);
            &&& d.timestamp == event.timestamp
            &&& has_key(d.nodes, other) <==> has_key(c.nodes, other) || other == node
            &&& other != node ==> lookup(d.nodes, other) == lookup(c.nodes, other)
            &&& d.coordinator == c.coordinator
            &&& d.prev_applied_by == c.prev_applied_by
            &&& keys(d.step_batches) == keys(c.step_batches)
            &&& keys(d.prev_step_batches) == keys(c.prev_step_batches)
            &&& lookup(c.step_batches, k) matches Some(b) ==> (lookup(
                d.step_batches,
                k,
            ) matches Some(a) && a.assigned_to == b.assigned_to)
            &&& lookup(c.prev_step_batches, k) matches Some(b) ==> (lookup(
                d.prev_step_batches,
                k,
            ) matches Some(a) && a.assigned_to == b.assigned_to)
            &&& c.applied_by.subset_of(d.applied_by)
            &&& has_key(c.step_witnesses, other) ==> has_key(d.step_witnesses, other)
            &&& c.blob_to_batch.dom().subset_of(d.blob_to_batch.dom())
        }),
{
    let d = c.after_node_event(node, event);
    law_event_touches_own_node(c, node, event, other);
    law_event_keeps_batches(c, node, event);
    law_batches_only_progress(c, node, event, k);
    if has_key(c.step_witnesses, other) {
        let i = choose|i: int|
            0 <= i < c.step_witnesses.len() && (#[trigger] c.step_witnesses[i]).0 == other;
        assert(keys(c.step_witnesses)[i] == other);
        assert(keys(d.step_witnesses)[i] == other);
        assert(d.step_witnesses[i].0 == other);
    }
}

/// Progress of every batch when a node's status on one of them changes.
proof fn lemma_blob_progress(c: ClusterModel, blob: BlobHash, node: Seq<char>, k: BatchId)
    ensures
        forall|change: spec_fn(NodeBatchStatus) -> NodeBatchStatus|
            {
                let d = #[trigger] c.with_blob_status(blob, node, change);
                &&& lookup(c.step_batches, k) is Some ==> lookup(d.step_batches, k) is Some
                    && only_progresses(lookup(c.step_batches, k)->0, lookup(d.step_batches, k)->0)
                &&& lookup(c.prev_step_batches, k) is Some ==> lookup(d.prev_step_batches, k) is Some
                    && only_progresses(
                    lookup(c.prev_step_batches, k)->0,
                    lookup(d.prev_step_batches, k)->0,
                )
            },
{
    if c.blob_to_batch.contains_key(blob) && c.batch(c.blob_to_batch[blob]) is Some {
        let id = c.blob_to_batch[blob];
        let b = c.batch(id)->0;
        assert forall|change: spec_fn(NodeBatchStatus) -> NodeBatchStatus|
            {
                let d = #[trigger] c.with_blob_status(blob, node, change);
                &&& lookup(c.step_batches, k) is Some ==> lookup(d.step_batches, k) is Some
                    && only_progresses(lookup(c.step_batches, k)->0, lookup(d.step_batches, k)->0)
                &&& lookup(c.prev_step_batches, k) is Some ==> lookup(d.prev_step_batches, k) is Some
                    && only_progresses(
                    lookup(c.prev_step_batches, k)->0,
                    lookup(d.prev_step_batches, k)->0,
                )
            } by {
            lemma_with_batch_progress(c, id, b.reported(node, change), k);
        }
    }
}

/// What a node has recorded is never taken back: losses, failed checks and warnings are only added
/// to, and the counters of the session do not fall.
pub open spec fn only_grows(before: NodeModel, after: NodeModel) -> bool {
    &&& after.node_id == before.node_id
    &&& before.losses.is_prefix_of(after.losses)
    &&& before.health_check_steps.is_prefix_of(after.health_check_steps)
    &&& before.train.untrained_warnings.is_prefix_of(after.train.untrained_warnings)
    &&& before.p2p.blobs_in_store <= after.p2p.blobs_in_store
    &&& before.p2p.gossip_sent <= after.p2p.gossip_sent
    &&& before.p2p.gossip_recv <= after.p2p.gossip_recv
    &&& before.last_error is Some ==> after.last_error is Some
}

/// An event takes back nothing that its node had recorded.
pub proof fn law_records_only_grow(n: NodeModel, event: Event)
    requires
        n.has_room(event.data),
    ensures
        only_grows(n, n.after(event)),
{
}

/// A neighbour that comes and goes again is not a neighbour, and leaves the others as they were.
pub proof fn law_neighbor_up_then_down(m: P2PModel, endpoint: EndpointId)
    ensures
        m.after(P2P::GossipNeighborUp(GossipNeighborUp { endpoint_id: endpoint })).after(
            P2P::GossipNeighborDown(GossipNeighborDown { endpoint_id: endpoint }),
        ) == (P2PModel { gossip_neighbors: m.gossip_neighbors.remove(endpoint), ..m }),
{
    assert(m.gossip_neighbors.insert(endpoint).remove(endpoint) =~= m.gossip_neighbors.remove(
        endpoint,
    ));
}

/// Events about one peer or one blob leave the entries of every other alone.
pub proof fn law_transfers_are_separate(
    m: P2PModel,
    event: P2P,
    peer: EndpointId,
    blob: BlobHash,
)
    ensures
        (match event {
            P2P::ConnectionChanged(e) => e.endpoint_id != peer,
            P2P::ConnectionLatencyChanged(e) => e.endpoint_id != peer,
            _ => true,
        }) ==> lookup(m.after(event).peers, peer) == lookup(m.peers, peer),
        (match event {
            P2P::BlobDownloadStarted(e) => e.blob != blob,
            P2P::BlobDownloadProgress(e) => e.blob != blob,
            P2P::BlobDownloadCompleted(e) => e.blob != blob,
            _ => true,
        }) ==> lookup(m.after(event).downloads, blob) == lookup(m.downloads, blob),
{
    match event {
        P2P::ConnectionChanged(e) => {
            assert forall|v: PeerInfo| e.endpoint_id != peer implies lookup(
                #[trigger] put(m.peers, e.endpoint_id, v),
                peer,
            ) == lookup(m.peers, peer) by {
                lemma_put_lookup(m.peers, e.endpoint_id, v, peer);
            }
        },
        P2P::ConnectionLatencyChanged(e) => {
            assert forall|v: PeerInfo| e.endpoint_id != peer implies lookup(
                #[trigger] put(m.peers, e.endpoint_id, v),
                peer,
            ) == lookup(m.peers, peer) by {
                lemma_put_lookup(m.peers, e.endpoint_id, v, peer);
            }
        },
        P2P::BlobDownloadStarted(e) => {
            lemma_other_download(m, e.blob, blob);
        },
        P2P::BlobDownloadProgress(e) => {
            lemma_other_download(m, e.blob, blob);
        },
        P2P::BlobDownloadCompleted(e) => {
            lemma_other_download(m, e.blob, blob);
        },
        _ => {},
    }
}

/// A put for one blob does not show at another.
proof fn lemma_other_download(m: P2PModel, changed: BlobHash, blob: BlobHash)
    ensures
        forall|v: BlobDownloadTransfer|
            changed != blob ==> lookup(#[trigger] put(m.downloads, changed, v), blob) == lookup(
                m.downloads,
                blob,
            ),
{
    assert forall|v: BlobDownloadTransfer| changed != blob implies lookup(
        #[trigger] put(m.downloads, changed, v),
        blob,
    ) == lookup(m.downloads, blob) by {
        lemma_put_lookup(m.downloads, changed, v, blob);
    }
}

/// When the coordinator moves to another step, the batches of the step that ends become those of
/// the step before, with all that was known of them, and so does the list of those that applied
/// its results. What belonged to the step that ends is forgotten. Nodes are left alone.
pub proof fn law_new_step_retains_the_last(c: ClusterModel, update: CoordinatorStateSnapshot)
    requires
        c.advances(update),
    ensures
        c.after_coordinator(update).prev_step_batches == c.step_batches,
        c.after_coordinator(update).prev_applied_by == c.applied_by,
        c.after_coordinator(update).applied_by == Set::<Seq<char>>::empty(),
        c.after_coordinator(update).blob_to_batch == Map::<BlobHash, BatchId>::empty(),
        c.after_coordinator(update).step_witnesses == Seq::<(Seq<char>, WitnessStatus)>::empty(),
        c.after_coordinator(update).nodes == c.nodes,
        c.after_coordinator(update).coordinator == Some(update),
        update.batch_assignments@.len() == 0 ==> c.after_coordinator(update).step_batches == Seq::<
            (BatchId, BatchModel),
        >::empty(),
{
}

/// The batches that a new step starts with are those of the assignments, in their order, each with
/// its node and nothing else.
pub proof fn law_new_step_is_seeded(c: ClusterModel, update: CoordinatorStateSnapshot)
    requires
        c.advances(update),
        ascending(update.batch_assignments@),
    ensures
        c.after_coordinator(update).step_batches == update.batch_assignments@.map_values(
            |e: (BatchId, String)|
                (e.0, BatchModel { assigned_to: Some(e.1@), ..BatchModel::fresh() }),
        ),
{
    let a = update.batch_assignments@;
    lemma_seeded(a, a.len());
    assert(a.take(a.len() as int) =~= a);
}

/// The first `n` assignments, seeded.
proof fn lemma_seeded(a: Seq<(BatchId, String)>, n: nat)
    requires
        ascending(a),
        n <= a.len(),
    ensures
        seeded(a, n) == a.take(n as int).map_values(
            |e: (BatchId, String)|
                (e.0, BatchModel { assigned_to: Some(e.1@), ..BatchModel::fresh() }),
        ),
    decreases n,
{
    let f = |e: (BatchId, String)|
        (e.0, BatchModel { assigned_to: Some(e.1@), ..BatchModel::fresh() });
    if n > 0 {
        let m = (n - 1) as nat;
        lemma_seeded(a, m);
        let s = seeded(a, m);
        let k = a[n - 1].0;
        assert forall|i: int| 0 <= i < m implies (#[trigger] s[i]).0 == a[i].0 by {
            assert(s[i] == f(a.take(m as int)[i]));
        }
        assert forall|i: int| 0 <= i < m implies batch_lt((#[trigger] s[i]).0, k) by {
            assert(batch_lt(a[i].0, a[n - 1].0));
        }
        lemma_rank(s, k);
        assert(rank(s, k) == m);
        assert(!has_key(s, k));
        assert(seeded(a, n) =~= a.take(n as int).map_values(f));
    } else {
        assert(seeded(a, n) =~= a.take(0).map_values(f));
    }
}

/// What is known of batch `k` once the first `n` assignments were refreshed.
proof fn lemma_reassigned(
    s: Seq<(BatchId, BatchModel)>,
    a: Seq<(BatchId, String)>,
    n: nat,
    k: BatchId,
)
    requires
        ascending(a),
        n <= a.len(),
    ensures
        lookup(reassigned(s, a, n), k) == (if has_key(a.take(n as int), k) {
            Some(
                BatchModel {
                    assigned_to: Some(lookup(a, k)->0@),
                    ..present_or(s, k, BatchModel::fresh())
                },
            )
        } else {
            lookup(s, k)
        }),
    decreases n,
{
    if n > 0 {
        let m = (n - 1) as nat;
        let before = reassigned(s, a, m);
        let last = a[n - 1].0;
        lemma_reassigned(s, a, m, k);
        lemma_put_ordered(
            before,
            last,
            BatchModel {
                assigned_to: Some(a[n - 1].1@),
                ..present_or(before, last, BatchModel::fresh())
            },
            k,
        );
        let t = a.take(n as int);
        let u = a.take(m as int);
        if k == last {
            assert(t[n - 1].0 == k);
            assert forall|j: int| 0 <= j < n - 1 implies (#[trigger] a[j]).0 != k by {
                assert(batch_lt(a[j].0, a[n - 1].0));
            }
            lemma_key_position_is(a, k, n - 1);
            if has_key(u, k) {
                let j = choose|j: int| 0 <= j < u.len() && (#[trigger] u[j]).0 == k;
                assert(a[j].0 == k);
            }
        } else {
            if has_key(t, k) {
                let j = choose|j: int| 0 <= j < t.len() && (#[trigger] t[j]).0 == k;
                assert(j != n - 1);
                assert(u[j].0 == k);
            }
            if has_key(u, k) {
                let j = choose|j: int| 0 <= j < u.len() && (#[trigger] u[j]).0 == k;
                assert(t[j].0 == k);
            }
        }
    } else {
        assert(!has_key(a.take(0), k));
    }
}

/// A further report on the same step changes of each assigned batch only which node it is assigned
/// to, and nothing of any other batch. All else that was known stays.
pub proof fn law_same_step_keeps_progress(
    c: ClusterModel,
    update: CoordinatorStateSnapshot,
    k: BatchId,
)
    requires
        !c.advances(update),
        ascending(update.batch_assignments@),
    ensures
        lookup(c.after_coordinator(update).step_batches, k) == (match lookup(
            update.batch_assignments@,
            k,
        ) {
            Some(node) => Some(
                BatchModel {
                    assigned_to: Some(node@),
                    ..present_or(c.step_batches, k, BatchModel::fresh())
                },
            ),
            None => lookup(c.step_batches, k),
        }),
        c.after_coordinator(update) == (ClusterModel {
            timestamp: update.timestamp,
            coordinator: Some(update),
            step_batches: c.after_coordinator(update).step_batches,
            ..c
        }),
{
    let a = update.batch_assignments@;
    lemma_reassigned(c.step_batches, a, a.len(), k);
    assert(a.take(a.len() as int) =~= a);
}

/// A value put where it already stands changes nothing.
proof fn lemma_put_same<K, V>(s: Seq<(K, V)>, k: K, v: V)
    requires
        lookup(s, k) == Some(v),
    ensures
        put(s, k, v) == s,
{
    lemma_key_position(s, k);
    assert(put(s, k, v) =~= s);
}

/// Refreshing assignments that are already in place changes nothing.
proof fn lemma_reassigned_in_place(
    t: Seq<(BatchId, BatchModel)>,
    a: Seq<(BatchId, String)>,
    n: nat,
)
    requires
        n <= a.len(),
        forall|i: int|
            0 <= i < a.len() ==> lookup(t, (#[trigger] a[i]).0) is Some && (lookup(t, a[i].0)->0).assigned_to
                == Some(a[i].1@),
    ensures
        reassigned(t, a, n) == t,
    decreases n,
{
    if n > 0 {
        lemma_reassigned_in_place(t, a, (n - 1) as nat);
        let k = a[n - 1].0;
        let v = BatchModel {
            assigned_to: Some(a[n - 1].1@),
            ..present_or(t, k, BatchModel::fresh())
        };
        assert(lookup(t, k) == Some(v));
        lemma_put_same(t, k, v);
    }
}

/// A report taken in twice is as good as once.
pub proof fn law_report_twice_is_once(c: ClusterModel, update: CoordinatorStateSnapshot)
    requires
        ascending(update.batch_assignments@),
    ensures
        c.after_coordinator(update).after_coordinator(update) == c.after_coordinator(update),
{
    let a = update.batch_assignments@;
    let d = c.after_coordinator(update);
    assert forall|i: int| 0 <= i < a.len() implies lookup(d.step_batches, (#[trigger] a[i]).0) is Some
        && (lookup(d.step_batches, a[i].0)->0).assigned_to == Some(a[i].1@) by {
        let k = a[i].0;
        assert forall|j: int| 0 <= j < i implies (#[trigger] a[j]).0 != k by {
            assert(batch_lt(a[j].0, a[i].0));
        }
        lemma_key_position_is(a, k, i);
        if c.advances(update) {
            law_new_step_is_seeded(c, update);
            let s = d.step_batches;
            assert(s[i].0 == k);
            assert forall|j: int| 0 <= j < i implies (#[trigger] s[j]).0 != k by {
                assert(s[j].0 == a[j].0);
            }
            lemma_key_position_is(s, k, i);
        } else {
            law_same_step_keeps_progress(c, update, k);
        }
    }
    lemma_reassigned_in_place(d.step_batches, a, a.len());
}

/// The batch is known, and assigned to `node`.
pub open spec fn is_trainer(c: ClusterModel, node: Seq<char>, batch: BatchId) -> bool {
    c.batch(batch) matches Some(b) && b.assigned_to == Some(node)
}

/// What the trainer of a batch of the step before says, after the coordinator has moved on, is filed
/// with the step before; what it says about a batch of the current step never is. Of a batch that is
/// not its own, a node's word changes nothing.
pub proof fn law_late_reports_go_to_the_step_before(
    c: ClusterModel,
    node: Seq<char>,
    event: Event,
    finished: TrainingFinished,
)
    requires
        event.data == EventData::Train(Train::TrainingFinished(finished)),
    ensures
        c.in_prev(finished.batch_id) && is_trainer(c, node, finished.batch_id) ==> {
            &&& c.after_node_event(node, event).step_batches == c.step_batches
            &&& (lookup(c.after_node_event(node, event).prev_step_batches, finished.batch_id)->0).trained
        },
        has_key(c.step_batches, finished.batch_id) && is_trainer(c, node, finished.batch_id) ==> {
            &&& c.after_node_event(node, event).prev_step_batches == c.prev_step_batches
            &&& (lookup(c.after_node_event(node, event).step_batches, finished.batch_id)->0).trained
        },
        !is_trainer(c, node, finished.batch_id) ==> {
            &&& c.after_node_event(node, event).step_batches == c.step_batches
            &&& c.after_node_event(node, event).prev_step_batches == c.prev_step_batches
        },
{
    if let Some(b) = c.batch(finished.batch_id) {
        let m = b.finished_by(node);
        lemma_put_lookup(c.step_batches, finished.batch_id, m, finished.batch_id);
        lemma_put_lookup(c.prev_step_batches, finished.batch_id, m, finished.batch_id);
        if m == b {
            if c.in_prev(finished.batch_id) {
                lemma_put_same(c.prev_step_batches, finished.batch_id, b);
            } else {
                lemma_put_same(c.step_batches, finished.batch_id, b);
            }
        }
    }
}

/// Batches are counted by step: when a node moves to another step the count begins anew, each batch
/// assigned to it counts one, and nothing else changes the count.
pub proof fn law_batches_are_counted_by_step(n: NodeModel, event: Event)
    requires
        n.has_room(event.data),
    ensures
        n.after(event).train.batches_assigned == (match event.data {
            EventData::Client(Client::StateChanged(sc)) if sc.step != n.step => 0,
            EventData::Train(Train::BatchAssigned(_)) => n.train.batches_assigned + 1,
            _ => n.train.batches_assigned as int,
        }),
{
}

/// Training is in progress between its start and its end, whatever else a node reports meanwhile.
pub proof fn law_training_lasts_until_its_end(n: NodeModel, event: Event)
    ensures
        n.after(event).train.training_in_progress == (match event.data {
            EventData::Train(Train::TrainingStarted) => true,
            EventData::Train(Train::TrainingFinished(_)) => false,
            _ => n.train.training_in_progress,
        }),
{
}

/// How far a batch's result has come is kept for those that did not train it: what its trainer
/// reports adds nothing there. And only its trainer can mark it as trained.
pub proof fn law_trainers_and_receivers_are_apart(
    b: BatchModel,
    node: Seq<char>,
    blob: BlobHash,
    change: spec_fn(NodeBatchStatus) -> NodeBatchStatus,
)
    ensures
        b.assigned_to == Some(node) ==> {
            &&& b.reported(node, change) == b
            &&& b.gossiped(node, blob).node_status == b.node_status
            &&& b.finished_by(node).trained
        },
        b.assigned_to != Some(node) ==> {
            &&& b.finished_by(node) == b
            &&& b.reported(node, change).status(node) == change(b.status(node))
            &&& b.gossiped(node, blob).status(node).gossip_received
        },
{
    lemma_put_lookup(b.node_status, node, change(b.status(node)), node);
    lemma_put_lookup(
        b.node_status,
        node,
        NodeBatchStatus { gossip_received: true, ..b.status(node) },
        node,
    );
}

} // verus!
