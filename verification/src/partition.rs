//! Partition sizing: the one-time startup query that fixes the largest
//! image a transfer may declare.

use vstd::prelude::*;

use crate::errors::OtaError;

verus! {

/// The largest of the sizes, zero for an empty sequence.
pub open spec fn max_of(sizes: Seq<u32>) -> nat
    decreases sizes.len(),
{
    if sizes.len() == 0 {
        0
    } else if sizes.last() as nat >= max_of(sizes.drop_last()) {
        sizes.last() as nat
    } else {
        max_of(sizes.drop_last())
    }
}

/// Picks the bound for OTA transfers from the sizes of the update
/// partitions the flash collaborator reported at startup: the size of the
/// largest one. With no partition of a non-zero size there is nowhere to
/// stage an image, and every transfer must be refused.
pub fn get_max_ota_size(sizes: &Vec<u32>) -> (r: Result<u32, OtaError>)
    ensures
        match r {
            Ok(m) => m as nat == max_of(sizes@) && m > 0,
            Err(e) => max_of(sizes@) == 0 && e == OtaError::NoOtaPartitions,
        },
{
    let mut max_size: u32 = 0;
    let mut i: usize = 0;
    while i < sizes.len()
        invariant
            i <= sizes@.len(),
            max_size as nat == max_of(sizes@.take(i as int)),
        decreases sizes@.len() - i,
    {
        if sizes[i] > max_size {
            max_size = sizes[i];
        }
        proof {
            assert(sizes@.take(i + 1).drop_last() =~= sizes@.take(i as int));
        }
        i = i + 1;
    }
    proof {
        assert(sizes@.take(sizes@.len() as int) =~= sizes@);
    }
    if max_size == 0 {
        Err(OtaError::NoOtaPartitions)
    } else {
        Ok(max_size)
    }
}

} // verus!
