//! The cluster as a whole: nodes, the batches of the current step and its witnesses.

use vstd::prelude::*;

use super::cluster_laws::{cluster_follows, law_clusters_follow_their_events};
use super::maps::{
    nodes_entry, nodes_get, nodes_new, nodes_of, present_or, statuses_entry, statuses_new,
    statuses_of, witnesses_clear, witnesses_get_mut, witnesses_insert, witnesses_new, witnesses_of,
};
use super::node::{elected, election, NodeModel};
use super::snapshots::{
    ClusterBatchView, ClusterSnapshot, CoordinatorStateSnapshot, DownloadStatus, NodeBatchStatus,
    NodeSnapshot, WitnessStatus,
};
use crate::batch_map::{ascending, lemma_put_ordered_view_values, put_ordered, BatchId, BatchMap};
use crate::events::{CoordinatorEvent, Event, EventData, RpcCallType, Train, P2P};
use crate::keyed::{has_key, lemma_put_view_values, lemma_view_values, lookup, put, view_values};
use crate::sets::{BlobHash, BlobIndex, NameSet};

verus! {

/// One batch, seen across the cluster.
#[verifier::ext_equal]
pub struct BatchModel {
    pub assigned_to: Option<Seq<char>>,
    pub blob: Option<BlobHash>,
    pub data_downloaded: Option<bool>,
    pub trained: bool,
    pub node_status: Seq<(Seq<char>, NodeBatchStatus)>,
}

/// The cluster as a whole.
#[verifier::ext_equal]
pub struct ClusterModel {
    pub timestamp: i64,
    pub coordinator: Option<CoordinatorStateSnapshot>,
    pub nodes: Seq<(Seq<char>, NodeModel)>,
    pub step_batches: Seq<(BatchId, BatchModel)>,
    pub prev_step_batches: Seq<(BatchId, BatchModel)>,
    pub blob_to_batch: Map<BlobHash, BatchId>,
    pub applied_by: Set<Seq<char>>,
    pub prev_applied_by: Set<Seq<char>>,
    pub step_witnesses: Seq<(Seq<char>, WitnessStatus)>,
}

/// A name's characters, where there is a name.
pub open spec fn name_view(name: Option<String>) -> Option<Seq<char>> {
    match name {
        Some(n) => Some(n@),
        None => None,
    }
}

impl View for ClusterBatchView {
    type V = BatchModel;

    open spec fn view(&self) -> BatchModel {
        BatchModel {
            assigned_to: name_view(self.assigned_to),
            blob: self.blob,
            data_downloaded: self.data_downloaded,
            trained: self.trained,
            node_status: statuses_of(self.node_status),
        }
    }
}

impl View for ClusterSnapshot {
    type V = ClusterModel;

    open spec fn view(&self) -> ClusterModel {
        ClusterModel {
            timestamp: self.timestamp,
            coordinator: self.coordinator,
            nodes: view_values(nodes_of(self.nodes)),
            step_batches: view_values(self.step_batches@),
            prev_step_batches: view_values(self.prev_step_batches@),
            blob_to_batch: self.blob_to_batch@,
            applied_by: self.applied_by@,
            prev_applied_by: self.prev_applied_by@,
            step_witnesses: witnesses_of(self.step_witnesses),
        }
    }
}

/// A result of which a node has seen nothing.
pub open spec fn unseen() -> NodeBatchStatus {
    NodeBatchStatus { gossip_received: false, download: DownloadStatus::NotStarted, deserialized: None }
}

impl BatchModel {
    /// A batch that nobody has reported on.
    pub open spec fn fresh() -> BatchModel {
        BatchModel {
            assigned_to: None,
            blob: None,
            data_downloaded: None,
            trained: false,
            node_status: Seq::empty(),
        }
    }

    /// How far the result has come on `node`.
    pub open spec fn status(self, node: Seq<char>) -> NodeBatchStatus {
        present_or(self.node_status, node, unseen())
    }

    /// The batch with `status` for `node`.
    pub open spec fn with_status(self, node: Seq<char>, status: NodeBatchStatus) -> BatchModel {
        BatchModel { node_status: put(self.node_status, node, status), ..self }
    }

    /// The batch once `node` has more to say of its result. The trainer's own word is not kept.
    pub open spec fn reported(
        self,
        node: Seq<char>,
        change: spec_fn(NodeBatchStatus) -> NodeBatchStatus,
    ) -> BatchModel {
        if self.assigned_to == Some(node) {
            self
        } else {
            self.with_status(node, change(self.status(node)))
        }
    }

    /// The batch once `node` has finished training it, which counts for the assigned trainer alone.
    pub open spec fn finished_by(self, node: Seq<char>) -> BatchModel {
        BatchModel { trained: self.trained || self.assigned_to == Some(node), ..self }
    }

    /// The batch once `node` has the training data of its batches, or failed to get it. The first
    /// report counts.
    pub open spec fn data_reported(self, node: Seq<char>, ok: bool) -> BatchModel {
        if self.assigned_to == Some(node) && self.data_downloaded is None {
            BatchModel { data_downloaded: Some(ok), ..self }
        } else {
            self
        }
    }

    /// The batch once gossip on `node` has named the blob that holds its result. The first blob
    /// counts.
    pub open spec fn gossiped(self, node: Seq<char>, blob: BlobHash) -> BatchModel {
        BatchModel {
            blob: if self.blob is None {
                Some(blob)
            } else {
                self.blob
            },
            ..self
        }.reported(node, |s: NodeBatchStatus| NodeBatchStatus { gossip_received: true, ..s })
    }
}

/// The batches once `node` has reported on its training data.
pub open spec fn all_data_reported(s: Seq<(BatchId, BatchModel)>, node: Seq<char>, ok: bool) -> Seq<
    (BatchId, BatchModel),
> {
    s.map_values(|e: (BatchId, BatchModel)| (e.0, e.1.data_reported(node, ok)))
}

/// The batches of the first `n` assignments, each with its node and nothing else.
pub open spec fn seeded(a: Seq<(BatchId, String)>, n: nat) -> Seq<(BatchId, BatchModel)>
    decreases n,
{
    if n == 0 {
        Seq::empty()
    } else {
        put_ordered(
            seeded(a, (n - 1) as nat),
            a[n - 1].0,
            BatchModel { assigned_to: Some(a[n - 1].1@), ..BatchModel::fresh() },
        )
    }
}

/// The batches `s` with the nodes of the first `n` assignments, and all else as it was.
pub open spec fn reassigned(s: Seq<(BatchId, BatchModel)>, a: Seq<(BatchId, String)>, n: nat) -> Seq<
    (BatchId, BatchModel),
>
    decreases n,
{
    if n == 0 {
        s
    } else {
        let before = reassigned(s, a, (n - 1) as nat);
        put_ordered(
            before,
            a[n - 1].0,
            BatchModel {
                assigned_to: Some(a[n - 1].1@),
                ..present_or(before, a[n - 1].0, BatchModel::fresh())
            },
        )
    }
}

/// A call by which a witness attests.
pub open spec fn is_attestation(call: RpcCallType) -> bool {
    call == RpcCallType::Witness || call == RpcCallType::WarmupWitness
}

impl ClusterModel {
    /// Nothing is known but the moment.
    pub open spec fn fresh(timestamp: i64) -> ClusterModel {
        ClusterModel {
            timestamp,
            coordinator: None,
            nodes: Seq::empty(),
            step_batches: Seq::empty(),
            prev_step_batches: Seq::empty(),
            blob_to_batch: Map::empty(),
            applied_by: Set::empty(),
            prev_applied_by: Set::empty(),
            step_witnesses: Seq::empty(),
        }
    }

    /// What is known of `node`, which may be only its name.
    pub open spec fn node(self, node: Seq<char>) -> NodeModel {
        present_or(self.nodes, node, NodeModel::fresh(node))
    }

    /// The batch belongs to the step before, and not to the current one.
    pub open spec fn in_prev(self, batch: BatchId) -> bool {
        !has_key(self.step_batches, batch) && has_key(self.prev_step_batches, batch)
    }

    /// What is known of a batch of the current step or of the step before.
    pub open spec fn batch(self, batch: BatchId) -> Option<BatchModel> {
        if self.in_prev(batch) {
            lookup(self.prev_step_batches, batch)
        } else {
            lookup(self.step_batches, batch)
        }
    }

    /// The cluster with `m` for a batch that it knows.
    pub open spec fn with_batch(self, batch: BatchId, m: BatchModel) -> ClusterModel {
        if self.in_prev(batch) {
            ClusterModel { prev_step_batches: put(self.prev_step_batches, batch, m), ..self }
        } else {
            ClusterModel { step_batches: put(self.step_batches, batch, m), ..self }
        }
    }

    /// The cluster once `node` has more to say of the batch whose result `blob` holds.
    pub open spec fn with_blob_status(
        self,
        blob: BlobHash,
        node: Seq<char>,
        change: spec_fn(NodeBatchStatus) -> NodeBatchStatus,
    ) -> ClusterModel {
        if self.blob_to_batch.contains_key(blob) {
            let id = self.blob_to_batch[blob];
            match self.batch(id) {
                Some(b) => self.with_batch(id, b.reported(node, change)),
                None => self,
            }
        } else {
            self
        }
    }

    /// What an event of `node` changes beyond the node itself.
    pub open spec fn with_shared_effects(self, node: Seq<char>, data: EventData) -> ClusterModel {
        match data {
            EventData::Train(Train::BatchDataDownloadComplete(c)) => ClusterModel {
                step_batches: all_data_reported(self.step_batches, node, c.result is Ok),
                prev_step_batches: all_data_reported(self.prev_step_batches, node, c.result is Ok),
                ..self
            },
            EventData::Train(Train::TrainingFinished(tf)) => match self.batch(tf.batch_id) {
                Some(b) => self.with_batch(tf.batch_id, b.finished_by(node)),
                None => self,
            },
            EventData::Train(Train::ApplyDistroResultsComplete(arc)) => if arc.0 is Ok {
                ClusterModel { applied_by: self.applied_by.insert(node), ..self }
            } else {
                self
            },
            EventData::Train(Train::WitnessElected(we)) => if we.is_witness {
                ClusterModel {
                    step_witnesses: put(
                        self.step_witnesses,
                        node,
                        WitnessStatus { info: election(we), submitted: false, rpc_result: None },
                    ),
                    ..self
                }
            } else {
                self
            },
            EventData::Train(Train::DistroResultDeserializeComplete(drc)) => self.with_blob_status(
                drc.blob,
                node,
                |s: NodeBatchStatus| NodeBatchStatus { deserialized: Some(drc.result is Ok), ..s },
            ),
            EventData::P2P(P2P::GossipTrainingResultReceived(gtr)) => {
                let told = ClusterModel {
                    blob_to_batch: self.blob_to_batch.insert(gtr.blob, gtr.batch_id),
                    ..self
                };
                match told.batch(gtr.batch_id) {
                    Some(b) => told.with_batch(gtr.batch_id, b.gossiped(node, gtr.blob)),
                    None => told,
                }
            },
            EventData::P2P(P2P::BlobDownloadStarted(bds)) => self.with_blob_status(
                bds.blob,
                node,
                |s: NodeBatchStatus| NodeBatchStatus { download: DownloadStatus::InProgress, ..s },
            ),
            EventData::P2P(P2P::BlobDownloadCompleted(bdc)) => self.with_blob_status(
                bdc.blob,
                node,
                |s: NodeBatchStatus|
                    NodeBatchStatus {
                        download: if bdc.result is Ok {
                            DownloadStatus::Success
                        } else {
                            DownloadStatus::Failed
                        },
                        ..s
                    },
            ),
            EventData::CoordinatorEvent(CoordinatorEvent::RpcCallSubmitted(sub)) => match lookup(
                self.step_witnesses,
                node,
            ) {
                Some(w) if is_attestation(sub.call_type) => ClusterModel {
                    step_witnesses: put(
                        self.step_witnesses,
                        node,
                        WitnessStatus { submitted: true, ..w },
                    ),
                    ..self
                },
                _ => self,
            },
            EventData::CoordinatorEvent(CoordinatorEvent::RpcCallResult(res)) => match lookup(
                self.step_witnesses,
                node,
            ) {
                Some(w) if is_attestation(res.call_type) => ClusterModel {
                    step_witnesses: put(
                        self.step_witnesses,
                        node,
                        WitnessStatus { rpc_result: Some(res.result is Ok), ..w },
                    ),
                    ..self
                },
                _ => self,
            },
            _ => self,
        }
    }

    /// The cluster after an event of `node`.
    pub open spec fn after_node_event(self, node: Seq<char>, event: Event) -> ClusterModel {
        ClusterModel {
            timestamp: event.timestamp,
            nodes: put(self.nodes, node, self.node(node).after(event)),
            ..self
        }.with_shared_effects(node, event.data)
    }

    /// The coordinator has moved to another step, or reports for the first time.
    pub open spec fn advances(self, update: CoordinatorStateSnapshot) -> bool {
        match self.coordinator {
            Some(c) => c.step != update.step,
            None => true,
        }
    }

    /// The cluster after a report of the coordinator.
    pub open spec fn after_coordinator(self, update: CoordinatorStateSnapshot) -> ClusterModel {
        let a = update.batch_assignments@;
        if self.advances(update) {
            ClusterModel {
                timestamp: update.timestamp,
                coordinator: Some(update),
                step_batches: seeded(a, a.len()),
                prev_step_batches: self.step_batches,
                blob_to_batch: Map::empty(),
                applied_by: Set::empty(),
                prev_applied_by: self.applied_by,
                step_witnesses: Seq::empty(),
                ..self
            }
        } else {
            ClusterModel {
                timestamp: update.timestamp,
                coordinator: Some(update),
                step_batches: reassigned(self.step_batches, a, a.len()),
                ..self
            }
        }
    }
}

impl Default for DownloadStatus {
    fn default() -> (r: Self)
        ensures
            r == DownloadStatus::NotStarted,
    {
        DownloadStatus::NotStarted
    }
}

impl Default for NodeBatchStatus {
    fn default() -> (r: Self)
        ensures
            r == unseen(),
    {
        NodeBatchStatus {
            gossip_received: false,
            download: DownloadStatus::NotStarted,
            deserialized: None,
        }
    }
}

impl Default for ClusterBatchView {
    fn default() -> (r: Self)
        ensures
            r@ == BatchModel::fresh(),
    {
        ClusterBatchView {
            assigned_to: None,
            blob: None,
            data_downloaded: None,
            trained: false,
            node_status: statuses_new(),
        }
    }
}

impl ClusterBatchView {
    /// Whether the batch is assigned to `node`.
    fn is_trained_by(&self, node: &String) -> (r: bool)
        ensures
            r == (self@.assigned_to == Some(node@)),
    {
        match &self.assigned_to {
            Some(n) => *n == *node,
            None => false,
        }
    }

    /// Access to how far the result has come on `node`, unless it is the trainer.
    fn status_mut(&mut self, node: &String) -> (r: Option<&mut NodeBatchStatus>)
        ensures
            match r {
                Some(s) => {
                    &&& old(self)@.assigned_to != Some(node@)
                    &&& *s == old(self)@.status(node@)
                    &&& final(self)@ == old(self)@.with_status(node@, *final(s))
                },
                None => old(self)@.assigned_to == Some(node@) && final(self)@ == old(self)@,
            },
    {
        if self.is_trained_by(node) {
            None
        } else {
            Some(statuses_entry(&mut self.node_status, node.clone(), NodeBatchStatus::default()))
        }
    }

    /// Takes in that `node` has the training data of its batches, or failed to get it.
    fn report_data(&mut self, node: &String, ok: bool)
        ensures
            final(self)@ == old(self)@.data_reported(node@, ok),
    {
        if self.is_trained_by(node) && self.data_downloaded.is_none() {
            self.data_downloaded = Some(ok);
        }
    }
}

/// Takes in that `node` has the training data of its batches, or failed to get it.
fn report_data(batches: &mut BatchMap<ClusterBatchView>, node: &String, ok: bool)
    ensures
        view_values(final(batches)@) == all_data_reported(view_values(old(batches)@), node@, ok),
{
    let ghost before = view_values(batches@);
    let ghost after = all_data_reported(before, node@, ok);
    let n: usize = batches.len();
    let mut i: usize = 0;
    while i < n
        invariant
            i <= n == before.len() == batches@.len(),
            after == all_data_reported(before, node@, ok),
            view_values(batches@) == after.take(i as int) + before.skip(i as int),
        decreases n - i,
    {
        let ghost now = batches@;
        assert(view_values(now)[i as int] == before[i as int]);
        batches.value_at_mut(i).report_data(node, ok);
        proof {
            let want = after.take(i as int + 1) + before.skip(i as int + 1);
            assert forall|j: int| 0 <= j < n implies view_values(batches@)[j] == want[j] by {
                if j != i {
                    assert(batches@[j] == now[j]);
                    assert(view_values(now)[j] == (after.take(i as int) + before.skip(i as int))[j]);
                } else {
                    assert(batches@[j].1@ == now[j].1@.data_reported(node@, ok));
                }
            }
            assert(view_values(batches@) =~= want);
        }
        i = i + 1;
    }
    assert(after.take(i as int) + before.skip(i as int) =~= after);
}

/// `chrono::Utc::now` and `DateTime::timestamp_nanos_opt`: the clock's nanoseconds since the Unix
/// epoch, where they can be counted. Nothing is known of the moment itself.
#[verifier::external_body]
fn clock_nanos() -> (r: Option<i64>) {
    chrono::Utc::now().timestamp_nanos_opt()
}

impl ClusterSnapshot {
    /// Nothing is known but the moment.
    pub fn at(timestamp: i64) -> (r: Self)
        ensures
            r@ == ClusterModel::fresh(timestamp),
    {
        ClusterSnapshot {
            timestamp,
            coordinator: None,
            nodes: nodes_new(),
            step_batches: BatchMap::new(),
            prev_step_batches: BatchMap::new(),
            blob_to_batch: BlobIndex::new(),
            applied_by: NameSet::new(),
            prev_applied_by: NameSet::new(),
            step_witnesses: witnesses_new(),
        }
    }

    /// Nothing is known yet. The moment is now, or the last one that can be counted.
    pub fn new() -> (r: Self)
        ensures
            r@ == ClusterModel::fresh(r.timestamp),
    {
        match clock_nanos() {
            Some(now) => Self::at(now),
            None => Self::at(i64::MAX),
        }
    }

    /// Whether the batch belongs to the step before, and not to the current one.
    fn in_prev(&self, batch: BatchId) -> (r: bool)
        ensures
            r == self@.in_prev(batch),
    {
        proof {
            lemma_view_values(self.step_batches@, batch);
            lemma_view_values(self.prev_step_batches@, batch);
        }
        !self.step_batches.contains_key(&batch) && self.prev_step_batches.contains_key(&batch)
    }

    /// Access to a batch of the current step or of the step before.
    fn batch_mut(&mut self, batch: BatchId) -> (r: Option<&mut ClusterBatchView>)
        ensures
            match r {
                Some(b) => {
                    &&& old(self)@.batch(batch) == Some(b@)
                    &&& final(self)@ == old(self)@.with_batch(batch, final(b)@)
                },
                None => old(self)@.batch(batch) is None && final(self)@ == old(self)@,
            },
    {
        proof {
            lemma_view_values(self.step_batches@, batch);
            lemma_view_values(self.prev_step_batches@, batch);
            assert forall|v: ClusterBatchView|
                #![trigger put(self.step_batches@, batch, v)]
                view_values(put(self.step_batches@, batch, v)) == put(
                    view_values(self.step_batches@),
                    batch,
                    v@,
                ) by {
                lemma_put_view_values(self.step_batches@, batch, v);
            }
            assert forall|v: ClusterBatchView|
                #![trigger put(self.prev_step_batches@, batch, v)]
                view_values(put(self.prev_step_batches@, batch, v)) == put(
                    view_values(self.prev_step_batches@),
                    batch,
                    v@,
                ) by {
                lemma_put_view_values(self.prev_step_batches@, batch, v);
            }
        }
        if self.in_prev(batch) {
            self.prev_step_batches.get_mut(&batch)
        } else {
            self.step_batches.get_mut(&batch)
        }
    }

    /// Takes in what an event of `node_id` changes beyond the node itself.
    fn apply_shared_effects(&mut self, node_id: &str, data: &EventData)
        ensures
            final(self)@ == old(self)@.with_shared_effects(node_id@, *data),
    {
        let name = node_id.to_string();
        match data {
            EventData::Train(Train::BatchDataDownloadComplete(c)) => {
                let ok = c.result.is_ok();
                report_data(&mut self.step_batches, &name, ok);
                report_data(&mut self.prev_step_batches, &name, ok);
            },
            EventData::Train(Train::TrainingFinished(tf)) => {
                if let Some(view) = self.batch_mut(tf.batch_id) {
                    if view.is_trained_by(&name) {
                        view.trained = true;
                    }
                }
            },
            EventData::Train(Train::ApplyDistroResultsComplete(arc)) => {
                if arc.0.is_ok() {
                    self.applied_by.insert(name);
                }
            },
            EventData::Train(Train::WitnessElected(we)) => {
                if we.is_witness {
                    witnesses_insert(
                        &mut self.step_witnesses,
                        name,
                        WitnessStatus { info: elected(we), submitted: false, rpc_result: None },
                    );
                }
            },
            EventData::Train(Train::DistroResultDeserializeComplete(drc)) => {
                if let Some(batch) = self.blob_to_batch.get(&drc.blob) {
                    if let Some(view) = self.batch_mut(batch) {
                        if let Some(status) = view.status_mut(&name) {
                            status.deserialized = Some(drc.result.is_ok());
                        }
                    }
                }
            },
            EventData::P2P(P2P::GossipTrainingResultReceived(gtr)) => {
                self.blob_to_batch.insert(gtr.blob, gtr.batch_id);
                if let Some(view) = self.batch_mut(gtr.batch_id) {
                    if view.blob.is_none() {
                        view.blob = Some(gtr.blob);
                    }
                    if let Some(status) = view.status_mut(&name) {
                        status.gossip_received = true;
                    }
                }
            },
            EventData::P2P(P2P::BlobDownloadStarted(bds)) => {
                if let Some(batch) = self.blob_to_batch.get(&bds.blob) {
                    if let Some(view) = self.batch_mut(batch) {
                        if let Some(status) = view.status_mut(&name) {
                            status.download = DownloadStatus::InProgress;
                        }
                    }
                }
            },
            EventData::P2P(P2P::BlobDownloadCompleted(bdc)) => {
                if let Some(batch) = self.blob_to_batch.get(&bdc.blob) {
                    if let Some(view) = self.batch_mut(batch) {
                        if let Some(status) = view.status_mut(&name) {
                            status.download =
                            if bdc.result.is_ok() {
                                DownloadStatus::Success
                            } else {
                                DownloadStatus::Failed
                            };
                        }
                    }
                }
            },
            EventData::CoordinatorEvent(CoordinatorEvent::RpcCallSubmitted(sub)) => {
                if sub.call_type == RpcCallType::Witness || sub.call_type
                    == RpcCallType::WarmupWitness {
                    if let Some(w) = witnesses_get_mut(&mut self.step_witnesses, node_id) {
                        w.submitted = true;
                    }
                }
            },
            EventData::CoordinatorEvent(CoordinatorEvent::RpcCallResult(res)) => {
                if res.call_type == RpcCallType::Witness || res.call_type
                    == RpcCallType::WarmupWitness {
                    if let Some(w) = witnesses_get_mut(&mut self.step_witnesses, node_id) {
                        w.rpc_result = Some(res.result.is_ok());
                    }
                }
            },
            _ => {},
        }
    }
}

/// The view of a batch that was only assigned.
fn assigned_view(node: &String) -> (r: ClusterBatchView)
    ensures
        r@ == (BatchModel { assigned_to: Some(node@), ..BatchModel::fresh() }),
{
    let mut view = ClusterBatchView::default();
    view.assigned_to = Some(node.clone());
    view
}

/// The batches of `assignments`, each with its node and nothing else.
fn seed(assignments: &BatchMap<String>) -> (r: BatchMap<ClusterBatchView>)
    ensures
        view_values(r@) == seeded(assignments@, assignments@.len()),
        ascending(assignments@),
{
    let n: usize = assignments.len();
    let mut batches: BatchMap<ClusterBatchView> = BatchMap::new();
    assert(view_values(batches@) =~= seeded(assignments@, 0));
    let mut i: usize = 0;
    while i < n
        invariant
            i <= n == assignments@.len(),
            view_values(batches@) == seeded(assignments@, i as nat),
        decreases n - i,
    {
        let entry = assignments.entry_at(i);
        let view = assigned_view(entry.1);
        proof {
            lemma_put_ordered_view_values(batches@, entry.0, view);
        }
        batches.insert(entry.0, view);
        i = i + 1;
    }
    batches
}

/// Gives the batches of `assignments` their nodes and leaves all else as it is.
fn reassign(batches: &mut BatchMap<ClusterBatchView>, assignments: &BatchMap<String>)
    ensures
        view_values(final(batches)@) == reassigned(
            view_values(old(batches)@),
            assignments@,
            assignments@.len(),
        ),
        ascending(assignments@),
{
    let n: usize = assignments.len();
    let ghost before = view_values(batches@);
    let mut i: usize = 0;
    while i < n
        invariant
            i <= n == assignments@.len(),
            before == view_values(old(batches)@),
            view_values(batches@) == reassigned(before, assignments@, i as nat),
        decreases n - i,
    {
        let entry = assignments.entry_at(i);
        let ghost s = batches@;
        proof {
            lemma_view_values(s, entry.0);
        }
        match batches.get_mut(&entry.0) {
            Some(view) => {
                view.assigned_to = Some(entry.1.clone());
                proof {
                    lemma_put_view_values(s, entry.0, *view);
                }
            },
            None => {
                let view = assigned_view(entry.1);
                proof {
                    lemma_put_ordered_view_values(s, entry.0, view);
                }
                batches.insert(entry.0, view);
            },
        }
        i = i + 1;
    }
}

/// A projection: the cluster as the events and reports so far show it.
pub struct ClusterProjection {
    snapshot: ClusterSnapshot,
}

impl View for ClusterProjection {
    type V = ClusterModel;

    closed spec fn view(&self) -> ClusterModel {
        self.snapshot@
    }
}

impl ClusterProjection {
    /// The snapshot that the projection holds.
    pub closed spec fn held(&self) -> ClusterSnapshot {
        self.snapshot
    }

    /// A projection that has seen nothing.
    pub fn new() -> (r: Self)
        ensures
            r@ == ClusterModel::fresh(r@.timestamp),
    {
        ClusterProjection { snapshot: ClusterSnapshot::new() }
    }

    /// A projection that goes on from `snapshot`.
    pub fn from_snapshot(snapshot: ClusterSnapshot) -> (r: Self)
        ensures
            r.held() == snapshot,
            r@ == snapshot@,
    {
        ClusterProjection { snapshot }
    }

    /// The snapshot, taken out.
    pub fn into_snapshot(self) -> (r: ClusterSnapshot)
        ensures
            r == self.held(),
            r@ == self@,
    {
        self.snapshot
    }

    /// The snapshot.
    pub fn snapshot(&self) -> (r: &ClusterSnapshot)
        ensures
            *r == self.held(),
            r@ == self@,
    {
        &self.snapshot
    }

    /// Takes in an event that `node_id` reported.
    pub fn apply_node_event(&mut self, node_id: &str, event: &Event)
        requires
            old(self)@.node(node_id@).has_room(event.data),
        ensures
            final(self)@ == old(self)@.after_node_event(node_id@, *event),
            cluster_follows(old(self)@, final(self)@, node_id@, *event),
    {
        proof {
            law_clusters_follow_their_events(self@, node_id@, *event);
        }
        self.snapshot.timestamp = event.timestamp;
        let fresh = NodeSnapshot::new(node_id.to_string());
        let ghost before = nodes_of(self.snapshot.nodes);
        proof {
            lemma_view_values(before, node_id@);
            assert forall|v: NodeSnapshot|
                #![trigger put(before, node_id@, v)]
                view_values(put(before, node_id@, v)) == put(view_values(before), node_id@, v@) by {
                lemma_put_view_values(before, node_id@, v);
            }
        }
        nodes_entry(&mut self.snapshot.nodes, node_id.to_string(), fresh).apply(event);
        self.snapshot.apply_shared_effects(node_id, &event.data);
    }

    /// Takes in an event that `node_id` reported, unless a counter that it advances has no room
    /// left. Says whether it was taken in.
    pub fn apply_if_room(&mut self, node_id: &str, event: &Event) -> (r: bool)
        ensures
            r == old(self)@.node(node_id@).has_room(event.data),
            final(self)@ == (if r {
                old(self)@.after_node_event(node_id@, *event)
            } else {
                old(self)@
            }),
    {
        proof {
            lemma_view_values(nodes_of(self.snapshot.nodes), node_id@);
        }
        let room = match nodes_get(&self.snapshot.nodes, node_id) {
            Some(node) => node.has_room_for(&event.data),
            None => true,
        };
        if room {
            self.apply_node_event(node_id, event);
        }
        room
    }

    /// Takes in a report of the coordinator, whose assignments stand in the order of the batches.
    pub fn apply_coordinator(&mut self, update: CoordinatorStateSnapshot)
        ensures
            final(self)@ == old(self)@.after_coordinator(update),
            final(self)@.coordinator == Some(update),
            final(self)@.timestamp == update.timestamp,
            final(self)@.nodes == old(self)@.nodes,
            ascending(update.batch_assignments@),
    {
        self.snapshot.timestamp = update.timestamp;
        let step_changed = match &self.snapshot.coordinator {
            Some(c) => c.step != update.step,
            None => true,
        };
        if step_changed {
            let mut batches = seed(&update.batch_assignments);
            core::mem::swap(&mut self.snapshot.step_batches, &mut batches);
            self.snapshot.prev_step_batches = batches;
            let mut applied = NameSet::new();
            core::mem::swap(&mut self.snapshot.applied_by, &mut applied);
            self.snapshot.prev_applied_by = applied;
            self.snapshot.blob_to_batch.clear();
            witnesses_clear(&mut self.snapshot.step_witnesses);
        } else {
            reassign(&mut self.snapshot.step_batches, &update.batch_assignments);
        }
        self.snapshot.coordinator = Some(update);
    }
}

impl Default for ClusterProjection {
    fn default() -> (r: Self)
        ensures
            r@ == ClusterModel::fresh(r@.timestamp),
    {
        Self::new()
    }
}

impl Default for ClusterSnapshot {
    fn default() -> (r: Self)
        ensures
            r@ == ClusterModel::fresh(r.timestamp),
    {
        Self::new()
    }
}

} // verus!
