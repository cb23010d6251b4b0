//! Timing of the server-sent event stream.

use vstd::prelude::*;

verus! {

/// Seconds between two heartbeat events.
pub const HEARTBEAT_INTERVAL_SECS: u64 = 10;

/// Seconds between two keep-alive comments.
pub const KEEP_ALIVE_INTERVAL_SECS: u64 = 15;

} // verus!
