//! Copies of snapshots.

use vstd::prelude::*;

use super::cluster::ClusterModel;
use super::maps::{
    batch_downloads_clone, downloads_clone, nodes_clone, peers_clone, statuses_clone, uploads_clone,
    witnesses_clone,
};
use super::node::{clone_outcome, clone_text};
use super::snapshots::{
    BlobDownloadTransfer, BlobUploadTransfer, ClusterBatchView, ClusterSnapshot, CooldownSnapshot,
    CoordinatorStateSnapshot, NodeSnapshot, P2PSnapshot, TrainSnapshot,
};
use crate::batch_map::BatchId;
use crate::keyed::{copied, copied_texts, view_values};

verus! {

impl CoordinatorStateSnapshot {
    /// The same clients and assignments in the same order, and the same value in every other field.
    pub open spec fn same_as(self, other: CoordinatorStateSnapshot) -> bool {
        &&& self.client_ids@ == other.client_ids@
        &&& self.batch_assignments@ == other.batch_assignments@
        &&& self == (CoordinatorStateSnapshot {
            client_ids: self.client_ids,
            batch_assignments: self.batch_assignments,
            ..other
        })
    }
}

impl Clone for CoordinatorStateSnapshot {
    fn clone(&self) -> (r: Self)
        ensures
            r.same_as(*self),
    {
        let batch_assignments = self.batch_assignments.clone();
        assert(batch_assignments@ =~= self.batch_assignments@);
        CoordinatorStateSnapshot {
            timestamp: self.timestamp,
            run_state: self.run_state,
            epoch: self.epoch,
            step: self.step,
            checkpoint: self.checkpoint.clone(),
            client_ids: copied_texts(&self.client_ids),
            min_clients: self.min_clients,
            batch_assignments,
        }
    }
}

fn clone_result(result: &Option<Result<(), String>>) -> (r: Option<Result<(), String>>)
    ensures
        r == *result,
{
    match result {
        Some(outcome) => Some(clone_outcome(outcome)),
        None => None,
    }
}

impl Clone for BlobUploadTransfer {
    fn clone(&self) -> (r: Self)
        ensures
            r == *self,
    {
        BlobUploadTransfer {
            peer_endpoint_id: self.peer_endpoint_id,
            size_bytes: self.size_bytes,
            bytes_transferred: self.bytes_transferred,
            result: clone_result(&self.result),
        }
    }
}

impl Clone for BlobDownloadTransfer {
    fn clone(&self) -> (r: Self)
        ensures
            r == *self,
    {
        BlobDownloadTransfer {
            size_bytes: self.size_bytes,
            bytes_transferred: self.bytes_transferred,
            result: clone_result(&self.result),
        }
    }
}

impl Clone for P2PSnapshot {
    fn clone(&self) -> (r: Self)
        ensures
            r@ == self@,
    {
        P2PSnapshot {
            peers: peers_clone(&self.peers),
            gossip_neighbors: self.gossip_neighbors.clone(),
            uploads: uploads_clone(&self.uploads),
            downloads: downloads_clone(&self.downloads),
            blobs_in_store: self.blobs_in_store,
            gossip_sent: self.gossip_sent,
            gossip_recv: self.gossip_recv,
        }
    }
}

fn clone_warnings(v: &Vec<(BatchId, Option<String>)>) -> (r: Vec<(BatchId, Option<String>)>)
    ensures
        r@ == v@,
{
    let mut out: Vec<(BatchId, Option<String>)> = Vec::new();
    let mut i: usize = 0;
    while i < v.len()
        invariant
            i <= v@.len(),
            out@ == v@.take(i as int),
        decreases v@.len() - i,
    {
        out.push((v[i].0, clone_text(&v[i].1)));
        i = i + 1;
        assert(out@ =~= v@.take(i as int));
    }
    assert(v@.take(i as int) =~= v@);
    out
}

impl Clone for TrainSnapshot {
    fn clone(&self) -> (r: Self)
        ensures
            r@ == self@,
    {
        TrainSnapshot {
            batches_assigned: self.batches_assigned,
            batch_downloads: batch_downloads_clone(&self.batch_downloads),
            training_in_progress: self.training_in_progress,
            witness: self.witness,
            last_distro_ok: self.last_distro_ok,
            untrained_warnings: clone_warnings(&self.untrained_warnings),
        }
    }
}

impl Clone for CooldownSnapshot {
    fn clone(&self) -> (r: Self)
        ensures
            r == *self,
    {
        CooldownSnapshot {
            is_checkpointer: self.is_checkpointer,
            serialization_ok: self.serialization_ok,
            serialization_error: clone_text(&self.serialization_error),
            checkpoint_write_ok: self.checkpoint_write_ok,
            upload_bytes: self.upload_bytes,
            upload_ok: self.upload_ok,
            upload_error: clone_text(&self.upload_error),
        }
    }
}

impl Clone for ClusterBatchView {
    fn clone(&self) -> (r: Self)
        ensures
            r@ == self@,
    {
        ClusterBatchView {
            assigned_to: clone_text(&self.assigned_to),
            blob: self.blob,
            data_downloaded: self.data_downloaded,
            trained: self.trained,
            node_status: statuses_clone(&self.node_status),
        }
    }
}

impl Clone for NodeSnapshot {
    fn clone(&self) -> (r: Self)
        ensures
            r@ == self@,
    {
        NodeSnapshot {
            node_id: self.node_id.clone(),
            run_state: self.run_state,
            epoch: self.epoch,
            step: self.step,
            warmup: self.warmup,
            losses: copied(&self.losses),
            health_check_steps: copied(&self.health_check_steps),
            last_error: clone_text(&self.last_error),
            network_tx_bps: self.network_tx_bps,
            network_rx_bps: self.network_rx_bps,
            p2p: self.p2p.clone(),
            train: self.train.clone(),
            cooldown: self.cooldown.clone(),
            last_resource: self.last_resource,
        }
    }
}

impl Clone for ClusterSnapshot {
    fn clone(&self) -> (r: Self)
        ensures
            r@ == (ClusterModel { coordinator: r.coordinator, ..self@ }),
            match self.coordinator {
                Some(c) => r.coordinator matches Some(d) && d.same_as(c),
                None => r.coordinator is None,
            },
    {
        let step_batches = self.step_batches.clone();
        let prev_step_batches = self.prev_step_batches.clone();
        assert(view_values(step_batches@) =~= view_values(self.step_batches@));
        assert(view_values(prev_step_batches@) =~= view_values(self.prev_step_batches@));
        ClusterSnapshot {
            timestamp: self.timestamp,
            coordinator: match &self.coordinator {
                Some(c) => Some(c.clone()),
                None => None,
            },
            nodes: nodes_clone(&self.nodes),
            step_batches,
            prev_step_batches,
            blob_to_batch: self.blob_to_batch.clone(),
            applied_by: self.applied_by.clone(),
            prev_applied_by: self.prev_applied_by.clone(),
            step_witnesses: witnesses_clone(&self.step_witnesses),
        }
    }
}

} // verus!
