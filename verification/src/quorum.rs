//! Quorum arithmetic for Byzantine-fault-tolerant review rounds.

use vstd::prelude::*;

verus! {

/// Number of faulty voters that a panel of `n` voters tolerates.
pub open spec fn spec_tolerated_faults(n: int) -> int {
    if n >= 1 {
        (n - 1) / 3
    } else {
        0
    }
}

/// The approval threshold `2f + 1` of a panel of `n` voters.
pub open spec fn spec_consensus_threshold(n: int) -> int {
    2 * spec_tolerated_faults(n) + 1
}

/// Computes the approval threshold of a panel of `reviewer_count` voters.
pub fn consensus_threshold(reviewer_count: i32) -> (t: i32)
    requires
        reviewer_count >= 1,
    ensures
        t == spec_consensus_threshold(reviewer_count as int),
        1 <= t <= reviewer_count,
{
    let f: i32 = (reviewer_count - 1) / 3;
    2 * f + 1
}

} // verus!
