//! Status figures the node's mempool service reports to operators.  The
//! mempool itself is service plumbing outside this crate; only the shape of
//! the reported data is fixed here.

use vstd::prelude::*;

verus! {

/// A snapshot of the mempool's load.
#[derive(Clone, Copy, Debug, PartialEq, Eq, Structural)]
pub struct MempoolMetrics {
    /// Number of items waiting in the pool.
    pub pending_items: usize,
    /// Timestamp of the most recently added item.
    pub last_item_timestamp: u64,
}

} // verus!
