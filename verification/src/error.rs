//! The ways in which this layer fails. None of them is recoverable here:
//! a caller that sees one is expected to stop the affected worker.

use vstd::prelude::*;

verus! {

/// A fatal condition of the transport layer.
#[derive(Clone, Copy, Debug, PartialEq, Eq, Structural)]
pub enum CommError {
    /// A previous holder of the shared table failed while it held the lock,
    /// or the table found behind the lock is not made for this worker: the
    /// worker's index or the number of its wake handles does not fit the
    /// table's number of workers.
    RegistryLockCorrupted,
    /// A worker asked a second time for its share of a live channel.
    SlotAlreadyConsumed,
    /// A live channel was requested with another payload type than the one
    /// it was built for.
    TypeMismatch,
    /// The other end of a channel is gone.
    ChannelDisconnected,
    /// The handoff of wake handles between the workers broke during setup.
    BuzzerExchangeFailed,
}

} // verus!
