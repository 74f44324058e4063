//! Small sets and maps keyed by identifiers and by names.

use vstd::prelude::*;

use crate::batch_map::BatchId;
use crate::keyed::{copied, copied_texts, has_key, key_position, lookup, put};
use crate::keyed::{lemma_key_position, lemma_key_position_is, lemma_put_lookup};

verus! {

/// Thirty-two bytes read as two big-endian words.
pub type Id256 = (u128, u128);

/// The public key by which the peer-to-peer layer knows an endpoint.
pub type EndpointId = Id256;

/// The content hash of a blob.
pub type BlobHash = Id256;

/// A set of identifiers.
#[derive(Debug)]
pub struct IdSet {
    items: Vec<Id256>,
}

impl View for IdSet {
    type V = Set<Id256>;

    closed spec fn view(&self) -> Set<Id256> {
        self.items@.to_set()
    }
}

impl Clone for IdSet {
    fn clone(&self) -> (r: Self)
        ensures
            r@ == self@,
            r.listed() == self.listed(),
    {
        proof {
            use_type_invariant(self);
        }
        IdSet { items: copied(&self.items) }
    }
}

impl IdSet {
    #[verifier::type_invariant]
    spec fn lists_once(self) -> bool {
        self.items@.no_duplicates()
    }

    /// The members in the order in which they came.
    pub closed spec fn listed(&self) -> Seq<Id256> {
        self.items@
    }

    /// The list holds the members, and nothing else.
    pub proof fn lemma_listed(&self)
        ensures
            self@ == self.listed().to_set(),
    {
    }

    /// The empty set.
    pub fn new() -> (r: Self)
        ensures
            r@ == Set::<Id256>::empty(),
            r.listed() == Seq::<Id256>::empty(),
    {
        let r = IdSet { items: Vec::new() };
        assert(r@ =~= Set::<Id256>::empty());
        r
    }

    /// The members in the order in which they came.
    pub fn to_vec(&self) -> (r: Vec<Id256>)
        ensures
            r@ == self.listed(),
            r@.no_duplicates(),
            r@.to_set() == self@,
    {
        proof {
            use_type_invariant(self);
        }
        let mut r: Vec<Id256> = Vec::new();
        let mut i: usize = 0;
        while i < self.items.len()
            invariant
                i <= self.items@.len(),
                r@ == self.items@.take(i as int),
            decreases self.items@.len() - i,
        {
            r.push(self.items[i]);
            i = i + 1;
        }
        assert(self.items@.take(i as int) =~= self.items@);
        r
    }

    /// Whether `k` is a member.
    pub fn contains(&self, k: &Id256) -> (r: bool)
        ensures
            r == self@.contains(*k),
    {
        let mut i: usize = 0;
        while i < self.items.len()
            invariant
                i <= self.items@.len(),
                forall|j: int| 0 <= j < i ==> self.items@[j] != *k,
            decreases self.items@.len() - i,
        {
            if self.items[i].0 == k.0 && self.items[i].1 == k.1 {
                assert(self.items@[i as int] == *k);
                return true;
            }
            i = i + 1;
        }
        false
    }

    /// Makes `k` a member; tells whether it was none before.
    pub fn insert(&mut self, k: Id256) -> (r: bool)
        ensures
            final(self)@ == old(self)@.insert(k),
            r == !old(self)@.contains(k),
            final(self).listed() == (if r { old(self).listed().push(k) } else {
                old(self).listed()
            }),
    {
        if self.contains(&k) {
            assert(self@ =~= self@.insert(k));
            return false;
        }
        proof {
            use_type_invariant(&*self);
        }
        let ghost before = self.items@;
        let mut items: Vec<Id256> = Vec::new();
        core::mem::swap(&mut items, &mut self.items);
        items.push(k);
        self.items = items;
        assert(self.items@.to_set() =~= before.to_set().insert(k)) by {
            assert(self.items@ == before.push(k));
            assert(self.items@[before.len() as int] == k);
            assert forall|x: Id256| before.contains(x) implies self.items@.contains(x) by {
                let j = choose|j: int| 0 <= j < before.len() && before[j] == x;
                assert(self.items@[j] == x);
            }
        }
        true
    }

    /// Takes `k` out; tells whether it was a member.
    pub fn remove(&mut self, k: &Id256) -> (r: bool)
        ensures
            final(self)@ == old(self)@.remove(*k),
            r == old(self)@.contains(*k),
            final(self).listed() == old(self).listed().filter(|x: Id256| x != *k),
    {
        proof {
            use_type_invariant(&*self);
        }
        let ghost keep = |x: Id256| x != *k;
        let mut kept: Vec<Id256> = Vec::new();
        let mut found = false;
        let mut i: usize = 0;
        while i < self.items.len()
            invariant
                self == old(self),
                i <= self.items@.len(),
                keep == (|x: Id256| x != *k),
                kept@ == self.items@.take(i as int).filter(keep),
                self.items@.no_duplicates(),
                kept@.no_duplicates(),
                found == self.items@.take(i as int).contains(*k),
            decreases self.items@.len() - i,
        {
            let item = self.items[i];
            proof {
                let t = self.items@.take(i as int + 1);
                assert(t.drop_last() =~= self.items@.take(i as int));
                assert(t.last() == item);
                reveal(Seq::filter);
                assert(t == t.drop_last().push(item));
                if t.drop_last().contains(*k) {
                    let j = choose|j: int| 0 <= j < t.drop_last().len() && t.drop_last()[j] == *k;
                    assert(t[j] == *k);
                }
                if t.contains(*k) && item != *k {
                    let j = choose|j: int| 0 <= j < t.len() && t[j] == *k;
                    assert(t.drop_last()[j] == *k);
                }
                if item == *k {
                    assert(t[i as int] == *k);
                }
                if kept@.contains(item) {
                    let before = self.items@.take(i as int);
                    before.lemma_filter_contains_rev(keep, item);
                    let j = choose|j: int| 0 <= j < before.len() && before[j] == item;
                    assert(self.items@[j] == self.items@[i as int]);
                }
            }
            if item.0 == k.0 && item.1 == k.1 {
                found = true;
            } else {
                kept.push(item);
            }
            i = i + 1;
        }
        assert(self.items@.take(i as int) =~= self.items@);
        self.items = kept;
        proof {
            let s = old(self).items@;
            assert(self@ =~= old(self)@.remove(*k)) by {
                assert forall|x: Id256| self@.contains(x) == old(self)@.remove(*k).contains(x) by {
                    if self@.contains(x) {
                        let j = choose|j: int| 0 <= j < kept@.len() && kept@[j] == x;
                        assert(keep(s.filter(keep)[j]));
                        s.lemma_filter_contains_rev(keep, x);
                    }
                    if old(self)@.remove(*k).contains(x) {
                        let j = choose|j: int| 0 <= j < s.len() && s[j] == x;
                        assert(keep(s[j]));
                        assert(s.filter(keep).contains(s[j]));
                    }
                }
            }
        }
        found
    }
}

/// A set of node names.
#[derive(Debug)]
pub struct NameSet {
    items: Vec<String>,
}

impl View for NameSet {
    type V = Set<Seq<char>>;

    closed spec fn view(&self) -> Set<Seq<char>> {
        Set::new(|n: Seq<char>| exists|i: int| 0 <= i < self.items@.len() && self.items@[i]@ == n)
    }
}

impl Clone for NameSet {
    fn clone(&self) -> (r: Self)
        ensures
            r@ == self@,
    {
        let r = NameSet { items: copied_texts(&self.items) };
        assert(r@ =~= self@);
        r
    }
}

impl NameSet {
    /// The empty set.
    pub fn new() -> (r: Self)
        ensures
            r@ == Set::<Seq<char>>::empty(),
    {
        let r = NameSet { items: Vec::new() };
        assert(r@ =~= Set::<Seq<char>>::empty());
        r
    }

    fn holds(&self, name: &String) -> (r: bool)
        ensures
            r == self@.contains(name@),
    {
        let mut i: usize = 0;
        while i < self.items.len()
            invariant
                i <= self.items@.len(),
                forall|j: int| 0 <= j < i ==> self.items@[j]@ != name@,
            decreases self.items@.len() - i,
        {
            if self.items[i] == *name {
                return true;
            }
            i = i + 1;
        }
        false
    }

    /// Whether `name` is a member.
    pub fn contains(&self, name: &str) -> (r: bool)
        ensures
            r == self@.contains(name@),
    {
        let owned = name.to_string();
        self.holds(&owned)
    }

    /// Makes `name` a member.
    pub fn insert(&mut self, name: String)
        ensures
            final(self)@ == old(self)@.insert(name@),
    {
        if self.holds(&name) {
            assert(self@ =~= old(self)@.insert(name@));
            return ;
        }
        let ghost before = self.items@;
        let ghost added = name@;
        self.items.push(name);
        assert(self@ =~= old(self)@.insert(added)) by {
            assert(self.items@[before.len() as int]@ == added);
            assert forall|n: Seq<char>| old(self)@.contains(n) implies self@.contains(n) by {
                let j = choose|j: int| 0 <= j < before.len() && before[j]@ == n;
                assert(self.items@[j]@ == n);
            }
        }
    }
}

/// Which batch each blob belongs to.
#[derive(Debug)]
pub struct BlobIndex {
    entries: Vec<(BlobHash, BatchId)>,
}

impl View for BlobIndex {
    type V = Map<BlobHash, BatchId>;

    closed spec fn view(&self) -> Map<BlobHash, BatchId> {
        Map::new(
            |k: BlobHash| has_key(self.entries@, k),
            |k: BlobHash| lookup(self.entries@, k)->0,
        )
    }
}

impl Clone for BlobIndex {
    fn clone(&self) -> (r: Self)
        ensures
            r@ == self@,
    {
        let r = BlobIndex { entries: copied(&self.entries) };
        assert(r@ =~= self@);
        r
    }
}

impl BlobIndex {
    /// The empty map.
    pub fn new() -> (r: Self)
        ensures
            r@ == Map::<BlobHash, BatchId>::empty(),
    {
        let r = BlobIndex { entries: Vec::new() };
        assert(r@ =~= Map::<BlobHash, BatchId>::empty());
        r
    }

    fn position(&self, k: BlobHash) -> (r: usize)
        ensures
            r == key_position(self.entries@, k),
    {
        let mut i: usize = 0;
        while i < self.entries.len()
            invariant
                i <= self.entries@.len(),
                forall|j: int| 0 <= j < i ==> (#[trigger] self.entries@[j]).0 != k,
            decreases self.entries@.len() - i,
        {
            if self.entries[i].0.0 == k.0 && self.entries[i].0.1 == k.1 {
                proof {
                    lemma_key_position_is(self.entries@, k, i as int);
                }
                return i;
            }
            i = i + 1;
        }
        proof {
            lemma_key_position(self.entries@, k);
        }
        i
    }

    /// The batch of `k`.
    pub fn get(&self, k: &BlobHash) -> (r: Option<BatchId>)
        ensures
            match r {
                Some(b) => self@.contains_key(*k) && self@[*k] == b,
                None => !self@.contains_key(*k),
            },
    {
        proof {
            lemma_key_position(self.entries@, *k);
        }
        let i: usize = self.position(*k);
        if i < self.entries.len() {
            Some(self.entries[i].1)
        } else {
            None
        }
    }

    /// Records that `k` belongs to `b`.
    pub fn insert(&mut self, k: BlobHash, b: BatchId)
        ensures
            final(self)@ == old(self)@.insert(k, b),
    {
        let ghost before = self.entries@;
        proof {
            lemma_key_position(before, k);
        }
        let i: usize = self.position(k);
        if i < self.entries.len() {
            self.entries.set(i, (k, b));
        } else {
            self.entries.push((k, b));
        }
        assert(self.entries@ == put(before, k, b));
        assert(self@ =~= old(self)@.insert(k, b)) by {
            lemma_put_lookup(before, k, b, k);
            lemma_key_position(self.entries@, k);
            assert forall|o: BlobHash| o != k implies has_key(self.entries@, o) == has_key(before, o)
                && lookup(self.entries@, o) == lookup(before, o) by {
                lemma_put_lookup(before, k, b, o);
                assert(lookup(self.entries@, o) is Some == lookup(before, o) is Some);
            }
        }
    }

    /// Forgets every blob.
    pub fn clear(&mut self)
        ensures
            final(self)@ == Map::<BlobHash, BatchId>::empty(),
    {
        self.entries.clear();
        assert(self@ =~= Map::<BlobHash, BatchId>::empty());
    }
}

} // verus!
