//! Hardware requirements, and the micro-batch that suits a graphics card.
//!
//! The volunteer run is a 250M-parameter bf16 model (sequence length 512) trained with the
//! compressed Distro optimizer, so peak memory is dominated by activations, which scale with the
//! micro-batch size. That allows a micro-batch to be recommended from memory alone, and the launch
//! to be refused below a minimum.

use vstd::prelude::*;

verus! {

/// The memory that a single NVIDIA card must have to be allowed to train: 4 GiB fits the model
/// comfortably with a micro-batch of one.
pub const MIN_VRAM_MIB: u32 = 4 * 1024;

/// Whether the given memory (in MiB) clears the minimum. Unknown memory is not refused here: the
/// caller decides on it.
pub fn meets_minimum(vram_mib: Option<u32>) -> (r: bool)
    ensures
        r == (vram_mib matches Some(mib) ==> mib >= MIN_VRAM_MIB),
{
    match vram_mib {
        Some(mib) => mib >= MIN_VRAM_MIB,
        None => true,
    }
}

/// The micro-batch that suits a card: one from 4 GiB, two from 8, four from 16, eight from 24.
pub open spec fn suitable_micro_batch(mib: u32) -> usize {
    if mib < 8 * 1024 {
        1
    } else if mib < 16 * 1024 {
        2
    } else if mib < 24 * 1024 {
        4
    } else {
        8
    }
}

/// Recommends a micro-batch. There is none for a card below the minimum, nor where the memory is
/// unknown.
pub fn recommended_micro_batch(vram_mib: Option<u32>) -> (r: Option<usize>)
    ensures
        r == (match vram_mib {
            Some(mib) if mib >= MIN_VRAM_MIB => Some(suitable_micro_batch(mib)),
            _ => None,
        }),
{
    match vram_mib {
        Some(mib) => {
            if mib < MIN_VRAM_MIB {
                return None;
            }
            let batch: usize = if mib < 8 * 1024 {
                1
            } else if mib < 16 * 1024 {
                2
            } else if mib < 24 * 1024 {
                4
            } else {
                8
            };
            Some(batch)
        },
        None => None,
    }
}

/// More memory never means a smaller micro-batch.
pub proof fn law_more_memory_no_smaller_batch(less: u32, more: u32)
    requires
        less <= more,
    ensures
        suitable_micro_batch(less) <= suitable_micro_batch(more),
{
}

} // verus!
