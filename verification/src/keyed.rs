//! Association lists: sequences of key-value pairs read as insertion-ordered maps.

use vstd::prelude::*;

verus! {

/// Where `k` first occurs as a key of `s`; the length of `s` when it does not occur.
pub open spec fn key_position<K, V>(s: Seq<(K, V)>, k: K) -> int
    decreases s.len(),
{
    if s.len() == 0 {
        0
    } else if s[0].0 == k {
        0
    } else {
        1 + key_position(s.drop_first(), k)
    }
}

/// `k` is a key of `s`.
pub open spec fn has_key<K, V>(s: Seq<(K, V)>, k: K) -> bool {
    exists|i: int| 0 <= i < s.len() && (#[trigger] s[i]).0 == k
}

/// The value that `s` holds for `k`.
pub open spec fn lookup<K, V>(s: Seq<(K, V)>, k: K) -> Option<V> {
    if has_key(s, k) {
        Some(s[key_position(s, k)].1)
    } else {
        None
    }
}

/// `s` with `v` for `k`: in the place that `k` already had, or else at the end.
pub open spec fn put<K, V>(s: Seq<(K, V)>, k: K, v: V) -> Seq<(K, V)> {
    if has_key(s, k) {
        s.update(key_position(s, k), (k, v))
    } else {
        s.push((k, v))
    }
}

/// No key occurs twice.
pub open spec fn distinct_keys<K, V>(s: Seq<(K, V)>) -> bool {
    forall|i: int, j: int| 0 <= i < j < s.len() ==> (#[trigger] s[i]).0 != (#[trigger] s[j]).0
}

/// The keys of `s`, in order.
pub open spec fn keys<K, V>(s: Seq<(K, V)>) -> Seq<K> {
    s.map_values(|e: (K, V)| e.0)
}

/// `s` with each value replaced by its view.
pub open spec fn view_values<K, V: View>(s: Seq<(K, V)>) -> Seq<(K, V::V)> {
    s.map_values(|e: (K, V)| (e.0, e.1@))
}

/// The items of a list, copied.
pub(crate) fn copied<T: Copy>(v: &Vec<T>) -> (r: Vec<T>)
    ensures
        r@ == v@,
{
    let mut out: Vec<T> = Vec::new();
    let mut i: usize = 0;
    while i < v.len()
        invariant
            i <= v@.len(),
            out@ == v@.take(i as int),
        decreases v@.len() - i,
    {
        out.push(v[i]);
        i = i + 1;
        assert(out@ =~= v@.take(i as int));
    }
    assert(v@.take(i as int) =~= v@);
    out
}

/// The texts of a list, copied.
pub(crate) fn copied_texts(v: &Vec<String>) -> (r: Vec<String>)
    ensures
        r@ == v@,
{
    let mut out: Vec<String> = Vec::new();
    let mut i: usize = 0;
    while i < v.len()
        invariant
            i <= v@.len(),
            out@ == v@.take(i as int),
        decreases v@.len() - i,
    {
        out.push(v[i].clone());
        i = i + 1;
        assert(out@ =~= v@.take(i as int));
    }
    assert(v@.take(i as int) =~= v@);
    out
}

/// What `key_position` finds.
pub proof fn lemma_key_position<K, V>(s: Seq<(K, V)>, k: K)
    ensures
        0 <= key_position(s, k) <= s.len(),
        has_key(s, k) <==> key_position(s, k) < s.len(),
        has_key(s, k) ==> s[key_position(s, k)].0 == k,
        forall|j: int| 0 <= j < key_position(s, k) ==> (#[trigger] s[j]).0 != k,
    decreases s.len(),
{
    if s.len() > 0 && s[0].0 != k {
        let rest = s.drop_first();
        lemma_key_position(rest, k);
        assert forall|j: int| 0 <= j < key_position(s, k) implies (#[trigger] s[j]).0 != k by {
            if j > 0 {
                assert(rest[j - 1] == s[j]);
            }
        }
        if has_key(s, k) {
            let i = choose|i: int| 0 <= i < s.len() && (#[trigger] s[i]).0 == k;
            assert(rest[i - 1].0 == k);
            assert(s[key_position(s, k)] == rest[key_position(rest, k)]);
        }
        if has_key(rest, k) {
            let i = choose|i: int| 0 <= i < rest.len() && (#[trigger] rest[i]).0 == k;
            assert(s[i + 1].0 == k);
        }
    } else if s.len() > 0 {
        assert(s[0].0 == k);
    }
}

/// The only place where `k` can first occur.
pub proof fn lemma_key_position_is<K, V>(s: Seq<(K, V)>, k: K, i: int)
    requires
        0 <= i < s.len(),
        s[i].0 == k,
        forall|j: int| 0 <= j < i ==> (#[trigger] s[j]).0 != k,
    ensures
        key_position(s, k) == i,
        has_key(s, k),
{
    lemma_key_position(s, k);
}

/// Replacing values by their views moves no key.
pub proof fn lemma_view_values<K, V: View>(s: Seq<(K, V)>, k: K)
    ensures
        has_key(view_values(s), k) <==> has_key(s, k),
        key_position(view_values(s), k) == key_position(s, k),
        lookup(view_values(s), k) == (match lookup(s, k) {
            Some(v) => Some(v@),
            None => None,
        }),
{
    let t = view_values(s);
    lemma_key_position(s, k);
    lemma_key_position(t, k);
    if has_key(s, k) {
        assert(t[key_position(s, k)].0 == k);
        assert forall|j: int| 0 <= j < key_position(s, k) implies (#[trigger] t[j]).0 != k by {
            assert(s[j].0 != k);
        }
        lemma_key_position_is(t, k, key_position(s, k));
    } else if has_key(t, k) {
        let i = choose|i: int| 0 <= i < t.len() && (#[trigger] t[i]).0 == k;
        assert(s[i].0 == k);
    }
}

/// Putting a value and then viewing is viewing and then putting the view.
pub proof fn lemma_put_view_values<K, V: View>(s: Seq<(K, V)>, k: K, v: V)
    ensures
        view_values(put(s, k, v)) == put(view_values(s), k, v@),
{
    lemma_view_values(s, k);
    lemma_key_position(s, k);
    assert(view_values(put(s, k, v)) =~= put(view_values(s), k, v@));
}

/// What a lookup finds after a put.
pub proof fn lemma_put_lookup<K, V>(s: Seq<(K, V)>, k: K, v: V, other: K)
    ensures
        lookup(put(s, k, v), k) == Some(v),
        other != k ==> lookup(put(s, k, v), other) == lookup(s, other),
        distinct_keys(s) ==> distinct_keys(put(s, k, v)),
        put(s, k, v).len() == s.len() + (if has_key(s, k) { 0int } else { 1 }),
{
    let t = put(s, k, v);
    let p = key_position(s, k);
    lemma_key_position(s, k);
    lemma_key_position(s, other);
    lemma_key_position(t, other);
    assert(t[p] == (k, v));
    assert forall|j: int| 0 <= j < p implies (#[trigger] t[j]).0 != k by {
        assert(t[j] == s[j]);
    }
    lemma_key_position_is(t, k, p);
    if other != k {
        if has_key(s, other) {
            let q = key_position(s, other);
            assert(t[q] == s[q]);
            assert forall|j: int| 0 <= j < q implies (#[trigger] t[j]).0 != other by {
                if j != p {
                    assert(t[j] == s[j]);
                }
            }
            lemma_key_position_is(t, other, q);
        } else if has_key(t, other) {
            let q = key_position(t, other);
            assert(q != p);
            assert(s[q].0 == other);
        }
    }
    if distinct_keys(s) {
        assert forall|i: int, j: int| 0 <= i < j < t.len() implies (#[trigger] t[i]).0 != (
        #[trigger] t[j]).0 by {
            if i != p {
                assert(t[i] == s[i]);
            }
            if j != p {
                assert(t[j] == s[j]);
            }
            if i == p && has_key(s, k) {
                assert(s[i].0 == k);
            }
            if j == p && has_key(s, k) {
                assert(s[j].0 == k);
            }
        }
    }
}

/// A key is found at its first place, and its value is the one that stands there; a key that is not
/// there has no value, and its place is the end.
pub proof fn law_keys_are_found_at_their_first_place<K, V>(s: Seq<(K, V)>, k: K)
    ensures
        0 <= key_position(s, k) <= s.len(),
        forall|i: int| 0 <= i < key_position(s, k) ==> (#[trigger] s[i]).0 != k,
        key_position(s, k) < s.len() ==> s[key_position(s, k)].0 == k && lookup(s, k) == Some(
            s[key_position(s, k)].1,
        ),
        key_position(s, k) == s.len() ==> lookup(s, k) is None,
        has_key(s, k) <==> key_position(s, k) < s.len(),
    decreases s.len(),
{
    if s.len() > 0 && s[0].0 != k {
        let rest = s.drop_first();
        law_keys_are_found_at_their_first_place(rest, k);
        let n = key_position(rest, k);
        assert forall|i: int| 0 <= i < n + 1 implies (#[trigger] s[i]).0 != k by {
            if i > 0 {
                assert(rest[i - 1] == s[i]);
            }
        }
        if n < rest.len() {
            assert(s[n + 1] == rest[n]);
        }
    }
}

/// What is put is looked up again, and nothing else changes; a new key goes to the end.
pub proof fn law_what_is_put_is_looked_up<K, V>(s: Seq<(K, V)>, k: K, v: V, other: K)
    ensures
        lookup(put(s, k, v), k) == Some(v),
        other != k ==> lookup(put(s, k, v), other) == lookup(s, other),
        has_key(s, k) ==> put(s, k, v).len() == s.len(),
        !has_key(s, k) ==> put(s, k, v) == s.push((k, v)),
        distinct_keys(s) ==> distinct_keys(put(s, k, v)),
{
    let t = put(s, k, v);
    law_keys_are_found_at_their_first_place(s, k);
    law_keys_are_found_at_their_first_place(s, other);
    law_keys_are_found_at_their_first_place(t, k);
    law_keys_are_found_at_their_first_place(t, other);
    let n = key_position(s, k);
    assert(t[n].0 == k && t[n].1 == v);
    assert forall|i: int| 0 <= i < n implies (#[trigger] t[i]).0 != k by {
        assert(t[i] == s[i]);
    }
    let at = key_position(t, k);
    assert(at == n) by {
        if at < n {
            assert(t[at].0 == k);
        }
        if n < at {
            assert(t[n].0 != k);
        }
    }
    if other != k {
        let a = key_position(s, other);
        let b = key_position(t, other);
        if a < s.len() {
            assert(t[a] == s[a]);
            assert(b <= a);
            assert(t[b].0 == other);
            assert(t[b] == s[b]);
            assert(a <= b);
        } else if b < t.len() {
            assert(t[b].0 == other);
            assert(b != n);
            assert(t[b] == s[b]);
        }
    }
    if distinct_keys(s) {
        assert forall|i: int, j: int| 0 <= i < j < t.len() implies (#[trigger] t[i]).0 != (
        #[trigger] t[j]).0 by {
            if i < s.len() {
                assert(t[i].0 == s[i].0 || i == n);
            }
            if j < s.len() {
                assert(t[j].0 == s[j].0 || j == n);
            }
        }
    }
}

} // verus!
