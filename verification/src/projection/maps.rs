//! The insertion-ordered maps of the snapshots: `indexmap::IndexMap`, and what is relied on of it.
//!
//! Each map's contents are named as the sequence of its entries in iteration order. An
//! `IndexMap` keeps a key in the place of its first insertion and appends new keys at the end.

use indexmap::IndexMap;
use vstd::prelude::*;

use super::snapshots::{
    BatchDownload, BlobDownloadTransfer, BlobUploadTransfer, NodeBatchStatus, NodeSnapshot, PeerInfo,
    WitnessStatus,
};
use crate::batch_map::BatchId;
use crate::keyed::{lookup, put, view_values};
use crate::sets::{BlobHash, EndpointId};

verus! {

/// `indexmap::IndexMap`, with nothing seen of its fields.
#[verifier::external_type_specification]
#[verifier::external_body]
#[verifier::reject_recursive_types(K)]
#[verifier::reject_recursive_types(V)]
#[verifier::reject_recursive_types(S)]
pub struct ExIndexMap<K, V, S>(IndexMap<K, V, S>);

/// The entries of a map of nodes, in iteration order.
pub uninterp spec fn nodes_of(m: IndexMap<String, NodeSnapshot>) -> Seq<(Seq<char>, NodeSnapshot)>;

/// The entries of a map of peers, in iteration order.
pub uninterp spec fn peers_of(m: IndexMap<EndpointId, PeerInfo>) -> Seq<(EndpointId, PeerInfo)>;

/// The entries of a map of uploads, in iteration order.
pub uninterp spec fn uploads_of(m: IndexMap<BlobHash, BlobUploadTransfer>) -> Seq<(BlobHash, BlobUploadTransfer)>;

/// The entries of a map of downloads, in iteration order.
pub uninterp spec fn downloads_of(m: IndexMap<BlobHash, BlobDownloadTransfer>) -> Seq<(BlobHash, BlobDownloadTransfer)>;

/// The entries of a map of batch downloads, in iteration order.
pub uninterp spec fn batch_downloads_of(m: IndexMap<BatchId, BatchDownload>) -> Seq<(BatchId, BatchDownload)>;

/// The entries of a map of per-node batch states, in iteration order.
pub uninterp spec fn statuses_of(m: IndexMap<String, NodeBatchStatus>) -> Seq<(Seq<char>, NodeBatchStatus)>;

/// The entries of a map of witnesses, in iteration order.
pub uninterp spec fn witnesses_of(m: IndexMap<String, WitnessStatus>) -> Seq<(Seq<char>, WitnessStatus)>;

/// The value that an entry call gives access to: the one that the key has, or else the one offered.
pub open spec fn present_or<K, V>(s: Seq<(K, V)>, k: K, v: V) -> V {
    match lookup(s, k) {
        Some(w) => w,
        None => v,
    }
}

/// `IndexMap::new`: a map without entries.
#[verifier::external_body]
pub(crate) fn nodes_new() -> (r: IndexMap<String, NodeSnapshot>)
    ensures
        nodes_of(r) == Seq::<(Seq<char>, NodeSnapshot)>::empty(),
{
    IndexMap::new()
}

/// `IndexMap::entry` and `Entry::or_insert`: access to the value of `k`, which is `v` at the end
/// of the map if `k` had none.
#[verifier::external_body]
pub(crate) fn nodes_entry<'a>(
    m: &'a mut IndexMap<String, NodeSnapshot>,
    k: String,
    v: NodeSnapshot,
) -> (r: &'a mut NodeSnapshot)
    ensures
        *r == present_or(nodes_of(*old(m)), k@, v),
        nodes_of(*final(m)) == put(nodes_of(*old(m)), k@, *final(r)),
{
    m.entry(k).or_insert(v)
}

/// `IndexMap::get`: the value of `k`, if it has one.
#[verifier::external_body]
pub(crate) fn nodes_get<'a>(m: &'a IndexMap<String, NodeSnapshot>, k: &str) -> (r: Option<
    &'a NodeSnapshot,
>)
    ensures
        match r {
            Some(v) => lookup(nodes_of(*m), k@) == Some(*v),
            None => lookup(nodes_of(*m), k@) is None,
        },
{
    m.get(k)
}

/// `IndexMap::new`: a map without entries.
#[verifier::external_body]
pub(crate) fn peers_new() -> (r: IndexMap<EndpointId, PeerInfo>)
    ensures
        peers_of(r) == Seq::<(EndpointId, PeerInfo)>::empty(),
{
    IndexMap::new()
}

/// `IndexMap::insert`: gives `k` the value `v`, in the place of `k` or at the end.
#[verifier::external_body]
pub(crate) fn peers_insert(m: &mut IndexMap<EndpointId, PeerInfo>, k: EndpointId, v: PeerInfo)
    ensures
        peers_of(*final(m)) == put(peers_of(*old(m)), k, v),
{
    m.insert(k, v);
}

/// `IndexMap::get`: the value of `k`, if it has one.
#[verifier::external_body]
pub(crate) fn peers_get<'a>(m: &'a IndexMap<EndpointId, PeerInfo>, k: &EndpointId) -> (r: Option<
    &'a PeerInfo,
>)
    ensures
        match r {
            Some(v) => lookup(peers_of(*m), *k) == Some(*v),
            None => lookup(peers_of(*m), *k) is None,
        },
{
    m.get(k)
}

/// `IndexMap::get_mut`: access to the value of `k`, if it has one.
#[verifier::external_body]
pub(crate) fn peers_get_mut<'a>(m: &'a mut IndexMap<EndpointId, PeerInfo>, k: &EndpointId) -> (r:
    Option<&'a mut PeerInfo>)
    ensures
        match r {
            Some(v) => {
                &&& lookup(peers_of(*old(m)), *k) == Some(*v)
                &&& peers_of(*final(m)) == put(peers_of(*old(m)), *k, *final(v))
            },
            None => {
                &&& lookup(peers_of(*old(m)), *k) is None
                &&& peers_of(*final(m)) == peers_of(*old(m))
            },
        },
{
    m.get_mut(k)
}

/// `IndexMap::new`: a map without entries.
#[verifier::external_body]
pub(crate) fn uploads_new() -> (r: IndexMap<BlobHash, BlobUploadTransfer>)
    ensures
        uploads_of(r) == Seq::<(BlobHash, BlobUploadTransfer)>::empty(),
{
    IndexMap::new()
}

/// `IndexMap::new`: a map without entries.
#[verifier::external_body]
pub(crate) fn downloads_new() -> (r: IndexMap<BlobHash, BlobDownloadTransfer>)
    ensures
        downloads_of(r) == Seq::<(BlobHash, BlobDownloadTransfer)>::empty(),
{
    IndexMap::new()
}

/// `IndexMap::insert`: gives `k` the value `v`, in the place of `k` or at the end.
#[verifier::external_body]
pub(crate) fn downloads_insert(
    m: &mut IndexMap<BlobHash, BlobDownloadTransfer>,
    k: BlobHash,
    v: BlobDownloadTransfer,
)
    ensures
        downloads_of(*final(m)) == put(downloads_of(*old(m)), k, v),
{
    m.insert(k, v);
}

/// `IndexMap::get_mut`: access to the value of `k`, if it has one.
#[verifier::external_body]
pub(crate) fn downloads_get_mut<'a>(
    m: &'a mut IndexMap<BlobHash, BlobDownloadTransfer>,
    k: &BlobHash,
) -> (r: Option<&'a mut BlobDownloadTransfer>)
    ensures
        match r {
            Some(v) => {
                &&& lookup(downloads_of(*old(m)), *k) == Some(*v)
                &&& downloads_of(*final(m)) == put(downloads_of(*old(m)), *k, *final(v))
            },
            None => {
                &&& lookup(downloads_of(*old(m)), *k) is None
                &&& downloads_of(*final(m)) == downloads_of(*old(m))
            },
        },
{
    m.get_mut(k)
}

/// `IndexMap::new`: a map without entries.
#[verifier::external_body]
pub(crate) fn batch_downloads_new() -> (r: IndexMap<BatchId, BatchDownload>)
    ensures
        batch_downloads_of(r) == Seq::<(BatchId, BatchDownload)>::empty(),
{
    IndexMap::new()
}

/// `IndexMap::entry` and `Entry::or_insert`: access to the value of `k`, which is `v` at the end
/// of the map if `k` had none.
#[verifier::external_body]
pub(crate) fn batch_downloads_entry<'a>(
    m: &'a mut IndexMap<BatchId, BatchDownload>,
    k: BatchId,
    v: BatchDownload,
) -> (r: &'a mut BatchDownload)
    ensures
        *r == present_or(batch_downloads_of(*old(m)), k, v),
        batch_downloads_of(*final(m)) == put(batch_downloads_of(*old(m)), k, *final(r)),
{
    m.entry(k).or_insert(v)
}

/// `IndexMap::len`: the number of entries.
#[verifier::external_body]
pub(crate) fn batch_downloads_len(m: &IndexMap<BatchId, BatchDownload>) -> (r: usize)
    ensures
        r == batch_downloads_of(*m).len(),
{
    m.len()
}

/// `IndexMap::get_index_mut`: access to the value of the entry at place `i`, if there is one.
#[verifier::external_body]
pub(crate) fn batch_downloads_at_mut<'a>(m: &'a mut IndexMap<BatchId, BatchDownload>, i: usize) -> (r:
    Option<&'a mut BatchDownload>)
    ensures
        match r {
            Some(v) => {
                &&& i < batch_downloads_of(*old(m)).len()
                &&& *v == batch_downloads_of(*old(m))[i as int].1
                &&& batch_downloads_of(*final(m)) == batch_downloads_of(*old(m)).update(
                    i as int,
                    (batch_downloads_of(*old(m))[i as int].0, *final(v)),
                )
            },
            None => {
                &&& i >= batch_downloads_of(*old(m)).len()
                &&& batch_downloads_of(*final(m)) == batch_downloads_of(*old(m))
            },
        },
{
    m.get_index_mut(i).map(|e| e.1)
}

/// `IndexMap::new`: a map without entries.
#[verifier::external_body]
pub(crate) fn statuses_new() -> (r: IndexMap<String, NodeBatchStatus>)
    ensures
        statuses_of(r) == Seq::<(Seq<char>, NodeBatchStatus)>::empty(),
{
    IndexMap::new()
}

/// `IndexMap::entry` and `Entry::or_insert`: access to the value of `k`, which is `v` at the end
/// of the map if `k` had none.
#[verifier::external_body]
pub(crate) fn statuses_entry<'a>(
    m: &'a mut IndexMap<String, NodeBatchStatus>,
    k: String,
    v: NodeBatchStatus,
) -> (r: &'a mut NodeBatchStatus)
    ensures
        *r == present_or(statuses_of(*old(m)), k@, v),
        statuses_of(*final(m)) == put(statuses_of(*old(m)), k@, *final(r)),
{
    m.entry(k).or_insert(v)
}

/// `IndexMap::new`: a map without entries.
#[verifier::external_body]
pub(crate) fn witnesses_new() -> (r: IndexMap<String, WitnessStatus>)
    ensures
        witnesses_of(r) == Seq::<(Seq<char>, WitnessStatus)>::empty(),
{
    IndexMap::new()
}

/// `IndexMap::insert`: gives `k` the value `v`, in the place of `k` or at the end.
#[verifier::external_body]
pub(crate) fn witnesses_insert(m: &mut IndexMap<String, WitnessStatus>, k: String, v: WitnessStatus)
    ensures
        witnesses_of(*final(m)) == put(witnesses_of(*old(m)), k@, v),
{
    m.insert(k, v);
}

/// `IndexMap::get_mut`: access to the value of `k`, if it has one.
#[verifier::external_body]
pub(crate) fn witnesses_get_mut<'a>(m: &'a mut IndexMap<String, WitnessStatus>, k: &str) -> (r: Option<
    &'a mut WitnessStatus,
>)
    ensures
        match r {
            Some(v) => {
                &&& lookup(witnesses_of(*old(m)), k@) == Some(*v)
                &&& witnesses_of(*final(m)) == put(witnesses_of(*old(m)), k@, *final(v))
            },
            None => {
                &&& lookup(witnesses_of(*old(m)), k@) is None
                &&& witnesses_of(*final(m)) == witnesses_of(*old(m))
            },
        },
{
    m.get_mut(k)
}

/// `IndexMap::clear`: removes every entry.
#[verifier::external_body]
pub(crate) fn witnesses_clear(m: &mut IndexMap<String, WitnessStatus>)
    ensures
        witnesses_of(*final(m)) == Seq::<(Seq<char>, WitnessStatus)>::empty(),
{
    m.clear();
}

/// `IndexMap::clone`: the same entries in the same order.
#[verifier::external_body]
pub(crate) fn peers_clone(m: &IndexMap<EndpointId, PeerInfo>) -> (r: IndexMap<EndpointId, PeerInfo>)
    ensures
        peers_of(r) == peers_of(*m),
{
    m.clone()
}

/// `IndexMap::clone`: the same entries in the same order.
#[verifier::external_body]
pub(crate) fn uploads_clone(m: &IndexMap<BlobHash, BlobUploadTransfer>) -> (r: IndexMap<BlobHash, BlobUploadTransfer>)
    ensures
        uploads_of(r) == uploads_of(*m),
{
    m.clone()
}

/// `IndexMap::clone`: the same entries in the same order.
#[verifier::external_body]
pub(crate) fn downloads_clone(m: &IndexMap<BlobHash, BlobDownloadTransfer>) -> (r: IndexMap<BlobHash, BlobDownloadTransfer>)
    ensures
        downloads_of(r) == downloads_of(*m),
{
    m.clone()
}

/// `IndexMap::clone`: the same entries in the same order.
#[verifier::external_body]
pub(crate) fn batch_downloads_clone(m: &IndexMap<BatchId, BatchDownload>) -> (r: IndexMap<BatchId, BatchDownload>)
    ensures
        batch_downloads_of(r) == batch_downloads_of(*m),
{
    m.clone()
}

/// `IndexMap::clone`: the same entries in the same order.
#[verifier::external_body]
pub(crate) fn statuses_clone(m: &IndexMap<String, NodeBatchStatus>) -> (r: IndexMap<String, NodeBatchStatus>)
    ensures
        statuses_of(r) == statuses_of(*m),
{
    m.clone()
}

/// `IndexMap::clone`: the same entries in the same order.
#[verifier::external_body]
pub(crate) fn witnesses_clone(m: &IndexMap<String, WitnessStatus>) -> (r: IndexMap<String, WitnessStatus>)
    ensures
        witnesses_of(r) == witnesses_of(*m),
{
    m.clone()
}

/// `IndexMap::clone`: the same names in the same order, each with a copy of what is known of its
/// node.
#[verifier::external_body]
pub(crate) fn nodes_clone(m: &IndexMap<String, NodeSnapshot>) -> (r: IndexMap<String, NodeSnapshot>)
    ensures
        view_values(nodes_of(r)) == view_values(nodes_of(*m)),
{
    m.clone()
}

} // verus!
