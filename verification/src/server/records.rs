//! The file of coordinator states: fixed-size records of a moment and a state.

use vstd::bytes::{
    lemma_auto_spec_u64_to_from_le_bytes, spec_u64_from_le_bytes, spec_u64_to_le_bytes, u64_to_le_bytes,
};
use vstd::prelude::*;
use vstd::std_specs::hash::DefaultHasherAdditionalSpecFns;

use std::collections::hash_map::DefaultHasher;
use std::hash::Hasher;

verus! {

/// The bytes that a record's moment takes.
pub const STAMP_BYTES: usize = 8;

/// The bytes of a record whose state takes `state_bytes`.
pub fn record_size(state_bytes: usize) -> (r: u64)
    requires
        state_bytes + STAMP_BYTES <= usize::MAX,
    ensures
        r == state_bytes + STAMP_BYTES,
{
    (state_bytes + STAMP_BYTES) as u64
}

/// The length of a file without a partial record at its end, so that what is appended stays aligned
/// to record boundaries.
pub fn aligned_len(len: u64, record_size: u64) -> (r: u64)
    requires
        record_size > 0,
    ensures
        r == len - len % record_size,
{
    proof {
        assert(len % record_size <= len) by (nonlinear_arith)
            requires
                record_size > 0,
        ;
    }
    len - (len % record_size)
}

/// Whole records are kept and a partial one is discarded, however much of it was written.
pub proof fn law_only_partial_records_are_discarded(whole: nat, partial: nat, record_size: nat)
    requires
        partial < record_size,
    ensures
        ({
            let len = whole * record_size + partial;
            len - len % record_size == whole * record_size
        }),
{
    let len = whole * record_size + partial;
    vstd::arithmetic::div_mod::lemma_mod_multiples_vanish(
        whole as int,
        partial as int,
        record_size as int,
    );
    assert(record_size * whole == whole * record_size) by (nonlinear_arith);
    vstd::arithmetic::div_mod::lemma_small_mod(partial, record_size);
}

/// A moment in milliseconds since the Unix epoch, as the bits that stand for it.
pub open spec fn stamp_bits(timestamp: i64) -> u64 {
    timestamp as u64
}

/// A record: the moment in little-endian order, then the state.
pub open spec fn record(timestamp: i64, state: Seq<u8>) -> Seq<u8> {
    spec_u64_to_le_bytes(stamp_bits(timestamp)) + state
}

/// A record: the moment in little-endian order, then the state.
pub fn encode_record(timestamp: i64, state: &Vec<u8>) -> (r: Vec<u8>)
    ensures
        r@ == record(timestamp, state@),
{
    let mut buf = u64_to_le_bytes(timestamp as u64);
    let mut i: usize = 0;
    let ghost stamp = buf@;
    assert(stamp + state@.take(0) =~= stamp);
    while i < state.len()
        invariant
            i <= state@.len(),
            buf@ == stamp + state@.take(i as int),
        decreases state@.len() - i,
    {
        buf.push(state[i]);
        assert(state@.take(i as int + 1) =~= state@.take(i as int).push(state@[i as int]));
        i = i + 1;
        assert(buf@ =~= stamp + state@.take(i as int));
    }
    assert(state@.take(i as int) =~= state@);
    buf
}

/// The hash by which it is told whether a state has changed: that of `std`'s default hasher, fed with
/// the state's bytes at once.
pub fn state_hash(state: &Vec<u8>) -> (r: u64)
    ensures
        r == DefaultHasher::spec_finish(seq![state@]),
{
    let mut hasher = DefaultHasher::new();
    hasher.write(state.as_slice());
    assert(hasher@ =~= seq![state@]);
    hasher.finish()
}

/// A record has a fixed size, and gives back the moment and the state that were written.
pub proof fn law_record_can_be_read_back(timestamp: i64, state: Seq<u8>)
    ensures
        record(timestamp, state).len() == STAMP_BYTES + state.len(),
        spec_u64_from_le_bytes(record(timestamp, state).take(STAMP_BYTES as int)) == stamp_bits(
            timestamp,
        ),
        record(timestamp, state).skip(STAMP_BYTES as int) == state,
{
    lemma_auto_spec_u64_to_from_le_bytes();
    let b = spec_u64_to_le_bytes(stamp_bits(timestamp));
    assert(record(timestamp, state).take(STAMP_BYTES as int) =~= b);
    assert(record(timestamp, state).skip(STAMP_BYTES as int) =~= state);
}

/// The moment of a record can be had back from its bits, also before the epoch.
pub proof fn law_moments_are_kept_by_their_bits(timestamp: i64)
    ensures
        stamp_bits(timestamp) as i64 == timestamp,
        timestamp >= 0 ==> stamp_bits(timestamp) == timestamp,
{
    assert((timestamp as u64) as i64 == timestamp) by (bit_vector);
    assert(timestamp >= 0 ==> timestamp as u64 == timestamp) by (bit_vector);
}

} // verus!
