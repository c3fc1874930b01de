//! The external ledger as one call sees it. The ledger itself — sequencing,
//! accounting, value transfer, event emission — stays outside this library:
//! the caller reads this snapshot from it before a call and performs the
//! transfer the returned record describes.

use vstd::prelude::*;

verus! {

/// A snapshot of the external ledger for the duration of one call.
pub struct HostContext {
    /// The ledger's current logical time.
    pub block_timestamp: u64,
    /// The escrow's live balance, read fresh for this call.
    pub balance: u128,
    /// Whether the ledger accepts the value transfer this call may ask for.
    pub transfer_accepted: bool,
}

} // verus!
