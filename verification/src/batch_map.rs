//! Maps from batches to values, kept in the order of the batches.

use vstd::prelude::*;

use crate::keyed::{copied, has_key, key_position, lookup, put};
use crate::keyed::{lemma_key_position, lemma_key_position_is};

verus! {

/// A batch of training samples: the first and the last index of a closed interval.
pub type BatchId = (u64, u64);

/// The order of batches: by first index, then by last.
pub open spec fn batch_lt(a: BatchId, b: BatchId) -> bool {
    a.0 < b.0 || (a.0 == b.0 && a.1 < b.1)
}

/// The keys of `s` ascend, so none occurs twice.
pub open spec fn ascending<V>(s: Seq<(BatchId, V)>) -> bool {
    forall|i: int, j: int|
        0 <= i < j < s.len() ==> batch_lt((#[trigger] s[i]).0, (#[trigger] s[j]).0)
}

/// How many leading keys of `s` come before `k`.
pub open spec fn rank<V>(s: Seq<(BatchId, V)>, k: BatchId) -> int
    decreases s.len(),
{
    if s.len() == 0 {
        0
    } else if batch_lt(s[0].0, k) {
        1 + rank(s.drop_first(), k)
    } else {
        0
    }
}

/// `s` with `v` for `k`: in the place that `k` already had, or else where the order puts it.
pub open spec fn put_ordered<V>(s: Seq<(BatchId, V)>, k: BatchId, v: V) -> Seq<(BatchId, V)> {
    if has_key(s, k) {
        put(s, k, v)
    } else {
        s.insert(rank(s, k), (k, v))
    }
}

/// What `rank` counts.
pub proof fn lemma_rank<V>(s: Seq<(BatchId, V)>, k: BatchId)
    ensures
        0 <= rank(s, k) <= s.len(),
        forall|j: int| 0 <= j < rank(s, k) ==> batch_lt((#[trigger] s[j]).0, k),
        rank(s, k) < s.len() ==> !batch_lt(s[rank(s, k)].0, k),
    decreases s.len(),
{
    if s.len() > 0 && batch_lt(s[0].0, k) {
        let rest = s.drop_first();
        lemma_rank(rest, k);
        assert forall|j: int| 0 <= j < rank(s, k) implies batch_lt((#[trigger] s[j]).0, k) by {
            if j > 0 {
                assert(s[j] == rest[j - 1]);
            }
        }
    }
}

/// The only place that `rank` can give.
proof fn lemma_rank_is<V>(s: Seq<(BatchId, V)>, k: BatchId, i: int)
    requires
        0 <= i <= s.len(),
        forall|j: int| 0 <= j < i ==> batch_lt((#[trigger] s[j]).0, k),
        i < s.len() ==> !batch_lt(s[i].0, k),
    ensures
        rank(s, k) == i,
{
    lemma_rank(s, k);
    if rank(s, k) < i {
        assert(batch_lt(s[rank(s, k)].0, k));
    }
}

/// Ordered insertion keeps the keys ascending and changes the value of no other key.
pub proof fn lemma_put_ordered<V>(s: Seq<(BatchId, V)>, k: BatchId, v: V, other: BatchId)
    ensures
        lookup(put_ordered(s, k, v), k) == Some(v),
        other != k ==> lookup(put_ordered(s, k, v), other) == lookup(s, other),
        ascending(s) ==> ascending(put_ordered(s, k, v)),
{
    let t = put_ordered(s, k, v);
    if has_key(s, k) {
        crate::keyed::lemma_put_lookup(s, k, v, other);
        let p = key_position(s, k);
        lemma_key_position(s, k);
        assert forall|i: int, j: int| ascending(s) && 0 <= i < j < t.len() implies batch_lt(
            (#[trigger] t[i]).0,
            (#[trigger] t[j]).0,
        ) by {
            assert(t[i].0 == s[i].0);
            assert(t[j].0 == s[j].0);
        }
    } else {
        let r = rank(s, k);
        lemma_rank(s, k);
        assert(t[r] == (k, v));
        assert forall|j: int| 0 <= j < r implies (#[trigger] t[j]).0 != k by {
            assert(t[j] == s[j]);
        }
        lemma_key_position_is(t, k, r);
        if other != k {
            lemma_key_position(s, other);
            lemma_key_position(t, other);
            if has_key(s, other) {
                let q = key_position(s, other);
                let q2 = if q < r { q } else { q + 1 };
                assert(t[q2] == s[q]);
                assert forall|j: int| 0 <= j < q2 implies (#[trigger] t[j]).0 != other by {
                    if j < r {
                        assert(t[j] == s[j]);
                    } else if j > r {
                        assert(t[j] == s[j - 1]);
                    }
                }
                lemma_key_position_is(t, other, q2);
            } else if has_key(t, other) {
                let q = key_position(t, other);
                assert(s[if q < r { q } else { q - 1 }].0 == other);
            }
        }
        if ascending(s) {
            assert forall|i: int, j: int| 0 <= i < j < t.len() implies batch_lt(
                (#[trigger] t[i]).0,
                (#[trigger] t[j]).0,
            ) by {
                let si = if i < r { i } else { i - 1 };
                let sj = if j < r { j } else { j - 1 };
                if i != r {
                    assert(t[i] == s[si]);
                }
                if j != r {
                    assert(t[j] == s[sj]);
                }
                if i == r {
                    assert(!batch_lt(s[r].0, k));
                    assert(s[r].0 != k);
                    if sj > r {
                        assert(batch_lt(s[r].0, s[sj].0));
                    }
                }
            }
        }
    }
}

/// Viewing values changes no rank, so it passes through ordered insertion.
pub proof fn lemma_put_ordered_view_values<V: View>(s: Seq<(BatchId, V)>, k: BatchId, v: V)
    ensures
        crate::keyed::view_values(put_ordered(s, k, v)) == put_ordered(
            crate::keyed::view_values(s),
            k,
            v@,
        ),
{
    crate::keyed::lemma_view_values(s, k);
    crate::keyed::lemma_put_view_values(s, k, v);
    let t = crate::keyed::view_values(s);
    lemma_rank(s, k);
    assert forall|j: int| 0 <= j < rank(s, k) implies batch_lt((#[trigger] t[j]).0, k) by {
        assert(t[j].0 == s[j].0);
    }
    lemma_rank_is(t, k, rank(s, k));
    if !has_key(s, k) {
        assert(crate::keyed::view_values(put_ordered(s, k, v)) =~= put_ordered(t, k, v@));
    }
}

/// A map from batches to values. Its entries stand in the order of the batches.
#[derive(Debug)]
pub struct BatchMap<V> {
    batches: Vec<BatchId>,
    values: Vec<V>,
}

/// Batches and their values, pair by pair.
spec fn paired<V>(batches: Seq<BatchId>, values: Seq<V>) -> Seq<(BatchId, V)> {
    Seq::new(batches.len(), |i: int| (batches[i], values[i]))
}

impl<V> View for BatchMap<V> {
    type V = Seq<(BatchId, V)>;

    closed spec fn view(&self) -> Seq<(BatchId, V)> {
        paired(self.batches@, self.values@)
    }
}

impl<V: Clone> Clone for BatchMap<V> {
    fn clone(&self) -> (r: Self)
        ensures
            r@.len() == self@.len(),
            forall|i: int|
                0 <= i < r@.len() ==> (#[trigger] r@[i]).0 == self@[i].0 && cloned(
                    self@[i].1,
                    r@[i].1,
                ),
    {
        proof {
            use_type_invariant(self);
        }
        let batches = copied(&self.batches);
        let values = self.values.clone();
        proof {
            let s = paired(self.batches@, self.values@);
            let t = paired(batches@, values@);
            assert forall|a: int, b: int| 0 <= a < b < t.len() implies batch_lt(
                (#[trigger] t[a]).0,
                (#[trigger] t[b]).0,
            ) by {
                assert(batch_lt(s[a].0, s[b].0));
            }
        }
        BatchMap { batches, values }
    }
}

impl<V> BatchMap<V> {
    #[verifier::type_invariant]
    spec fn in_order(self) -> bool {
        &&& self.batches@.len() == self.values@.len()
        &&& ascending(paired(self.batches@, self.values@))
    }

    /// The empty map.
    pub fn new() -> (r: Self)
        ensures
            r@ == Seq::<(BatchId, V)>::empty(),
    {
        let r = BatchMap { batches: Vec::new(), values: Vec::new() };
        assert(r@ =~= Seq::<(BatchId, V)>::empty());
        r
    }

    /// The number of batches, which stand in their order.
    pub fn len(&self) -> (r: usize)
        ensures
            r == self@.len(),
            ascending(self@),
    {
        proof {
            use_type_invariant(self);
        }
        self.batches.len()
    }

    /// Whether there is no batch.
    pub fn is_empty(&self) -> (r: bool)
        ensures
            r == (self@.len() == 0),
    {
        self.batches.len() == 0
    }

    /// The entry at place `i` in the order of the batches.
    pub fn entry_at(&self, i: usize) -> (r: (BatchId, &V))
        requires
            i < self@.len(),
        ensures
            r.0 == self@[i as int].0,
            *r.1 == self@[i as int].1,
    {
        proof {
            use_type_invariant(self);
        }
        (self.batches[i], &self.values[i])
    }

    /// The value at place `i` in the order of the batches, for changing.
    pub fn value_at_mut(&mut self, i: usize) -> (r: &mut V)
        requires
            i < old(self)@.len(),
        ensures
            *r == old(self)@[i as int].1,
            final(self)@ == old(self)@.update(i as int, (old(self)@[i as int].0, *final(r))),
    {
        proof {
            use_type_invariant(&*self);
            lemma_paired_update(self.batches@, self.values@, i as int);
        }
        &mut self.values[i]
    }

    fn position(&self, k: BatchId) -> (r: usize)
        ensures
            r == key_position(self@, k),
    {
        let mut i: usize = 0;
        while i < self.batches.len()
            invariant
                i <= self.batches@.len(),
                forall|j: int| 0 <= j < i ==> (#[trigger] self@[j]).0 != k,
            decreases self.batches@.len() - i,
        {
            assert(self@[i as int].0 == self.batches@[i as int]);
            if self.batches[i].0 == k.0 && self.batches[i].1 == k.1 {
                proof {
                    lemma_key_position_is(self@, k, i as int);
                }
                return i;
            }
            i = i + 1;
        }
        proof {
            lemma_key_position(self@, k);
        }
        i
    }

    /// Whether `k` has a value.
    pub fn contains_key(&self, k: &BatchId) -> (r: bool)
        ensures
            r == has_key(self@, *k),
    {
        proof {
            lemma_key_position(self@, *k);
        }
        self.position(*k) < self.batches.len()
    }

    /// The value of `k`.
    pub fn get(&self, k: &BatchId) -> (r: Option<&V>)
        ensures
            match r {
                Some(v) => lookup(self@, *k) == Some(*v),
                None => lookup(self@, *k) is None,
            },
    {
        proof {
            use_type_invariant(self);
            lemma_key_position(self@, *k);
        }
        let i: usize = self.position(*k);
        if i < self.batches.len() {
            Some(&self.values[i])
        } else {
            None
        }
    }

    /// The value of `k`, for changing.
    pub fn get_mut(&mut self, k: &BatchId) -> (r: Option<&mut V>)
        ensures
            match r {
                Some(v) => {
                    &&& lookup(old(self)@, *k) == Some(*v)
                    &&& final(self)@ == put(old(self)@, *k, *final(v))
                },
                None => lookup(old(self)@, *k) is None && final(self)@ == old(self)@,
            },
    {
        proof {
            use_type_invariant(&*self);
            lemma_key_position(self@, *k);
        }
        let i: usize = self.position(*k);
        if i < self.batches.len() {
            proof {
                lemma_paired_update(self.batches@, self.values@, i as int);
            }
            Some(&mut self.values[i])
        } else {
            None
        }
    }

    /// Gives `k` the value `v`.
    pub fn insert(&mut self, k: BatchId, v: V)
        ensures
            final(self)@ == put_ordered(old(self)@, k, v),
            ascending(final(self)@),
    {
        proof {
            use_type_invariant(&*self);
            lemma_key_position(self@, k);
            lemma_put_ordered(self@, k, v, k);
        }
        let i: usize = self.position(k);
        let ghost before = self@;
        let mut taken: BatchMap<V> = BatchMap::new();
        core::mem::swap(&mut taken, self);
        let BatchMap { mut batches, mut values } = taken;
        if i < batches.len() {
            values.set(i, v);
        } else {
            let mut r: usize = 0;
            while r < batches.len() && (batches[r].0 < k.0 || (batches[r].0 == k.0 && batches[r].1
                < k.1))
                invariant
                    r <= batches@.len(),
                    before.len() == batches@.len(),
                    forall|j: int| 0 <= j < batches@.len() ==> (#[trigger] before[j]).0 == batches@[j],
                    forall|j: int| 0 <= j < r ==> batch_lt((#[trigger] before[j]).0, k),
                decreases batches@.len() - r,
            {
                assert(before[r as int].0 == batches@[r as int]);
                r = r + 1;
            }
            proof {
                if r < batches@.len() {
                    assert(before[r as int].0 == batches@[r as int]);
                }
                lemma_rank_is(before, k, r as int);
            }
            batches.insert(r, k);
            values.insert(r, v);
        }
        assert(paired(batches@, values@) =~= put_ordered(before, k, v));
        *self = BatchMap { batches, values };
    }
}

/// Another value for one batch.
proof fn lemma_paired_update<V>(batches: Seq<BatchId>, values: Seq<V>, i: int)
    requires
        0 <= i < batches.len() == values.len(),
        ascending(paired(batches, values)),
    ensures
        forall|v: V|
            {
                &&& paired(batches, #[trigger] values.update(i, v)) == paired(batches, values).update(
                    i,
                    (batches[i], v),
                )
                &&& ascending(paired(batches, values.update(i, v)))
            },
{
    assert forall|v: V|
        {
            &&& paired(batches, #[trigger] values.update(i, v)) == paired(batches, values).update(
                i,
                (batches[i], v),
            )
            &&& ascending(paired(batches, values.update(i, v)))
        } by {
        let s = paired(batches, values);
        let t = paired(batches, values.update(i, v));
        assert(t =~= s.update(i, (batches[i], v)));
        assert forall|a: int, b: int| 0 <= a < b < t.len() implies batch_lt(
            (#[trigger] t[a]).0,
            (#[trigger] t[b]).0,
        ) by {
            assert(batch_lt(s[a].0, s[b].0));
        }
    }
}

} // verus!
