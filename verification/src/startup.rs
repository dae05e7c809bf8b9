//! How often starting the HTTP server is tried before the device restarts.

use vstd::prelude::*;

verus! {

/// Attempts at starting the HTTP server before giving up.
pub const MAX_START_ATTEMPTS: u32 = 5;

/// What follows a failed attempt to start the server.
#[derive(Debug, Clone, Copy, PartialEq, Eq, Structural)]
pub enum StartRetry {
    /// Wait, then make attempt number `attempt`.
    TryAgain { attempt: u32 },
    /// Every attempt failed: restart the device.
    GiveUp,
}

/// The decision after attempt number `attempt` (counted from 1) failed:
/// try again until [`MAX_START_ATTEMPTS`] attempts have been made.
pub fn after_failed_start(attempt: u32) -> (r: StartRetry)
    ensures
        attempt < MAX_START_ATTEMPTS ==> r == (StartRetry::TryAgain { attempt: (attempt + 1) as u32 }),
        attempt >= MAX_START_ATTEMPTS ==> r == StartRetry::GiveUp,
        r matches StartRetry::TryAgain { attempt: next } ==> next <= MAX_START_ATTEMPTS,
{
    if attempt < MAX_START_ATTEMPTS {
        StartRetry::TryAgain { attempt: attempt + 1 }
    } else {
        StartRetry::GiveUp
    }
}

} // verus!
