//! Configuration: what is fixed at construction, and the snapshots that can
//! be replaced while the supervisor runs.

use vstd::prelude::*;

verus! {

/// The largest capacity a bus can be given: what tokio's semaphore can
/// count, which is `usize::MAX >> 3`.
pub const MAX_CHANNEL_SIZE: usize = usize::MAX / 8;

/// The snapshot that the action worker reads.
#[derive(Debug, Clone, PartialEq, Eq)]
pub struct ActionConfig {
    /// How long the worker gathers events before it acts, in milliseconds.
    pub throttle_ms: u64,
}

/// The snapshot that the filesystem worker reads.
#[derive(Debug, Clone, PartialEq, Eq)]
pub struct FsConfig {
    /// The paths to watch.
    pub pathset: Vec<String>,
}

/// The configuration that can be replaced at any time, one part for each
/// worker that follows it.
#[derive(Debug, Clone, PartialEq, Eq)]
pub struct RuntimeConfig {
    pub action: ActionConfig,
    pub fs: FsConfig,
}

/// The configuration that is set once, at construction.
#[derive(Debug)]
pub struct InitConfig<H> {
    /// Receives every runtime error; owned by the error hook once the
    /// supervisor has started.
    pub error_handler: H,
    /// Capacity of the error bus.
    pub error_channel_size: usize,
    /// Capacity of the event bus.
    pub event_channel_size: usize,
}

/// Whether a bus can be made with this capacity: it holds one item at
/// least, and no more than [`MAX_CHANNEL_SIZE`].
pub open spec fn valid_channel_size(size: usize) -> bool {
    0 < size <= MAX_CHANNEL_SIZE
}

/// Tests [`valid_channel_size`].
pub fn is_valid_channel_size(size: usize) -> (r: bool)
    ensures
        r == valid_channel_size(size),
{
    0 < size && size <= MAX_CHANNEL_SIZE
}

} // verus!
