//! Precision of timed waits on Windows.
//!
//! A wait that expires there wakes up with the timer of the process, every 15 milliseconds
//! or so, unless a finer period is asked for, and unless the process is exempt from being
//! throttled while its window is hidden. The exemption is asked for once; the fine period is
//! held for a session only. Elsewhere waits are precise, and nothing is done.

use crate::plugin::Platform;
use vstd::prelude::*;

verus! {

/// The period that is asked for, in milliseconds.
pub const PERIOD_MS: u32 = 1;

/// Is the system to be asked to exempt the process?
pub fn exempt_process_from_timer_throttling(platform: Platform) -> (r: bool)
    ensures
        r == (platform == Platform::Windows),
{
    platform == Platform::Windows
}

/// The fine period of a session.
#[derive(Debug, PartialEq, Eq, Structural)]
pub struct SessionTimerResolution {
    pub held: bool,
}

impl SessionTimerResolution {
    /// Takes the system's answer to the request for the fine period: zero grants it. Only
    /// Windows is asked.
    pub fn acquire(platform: Platform, answer: u32) -> (r: SessionTimerResolution)
        ensures
            r.held == (platform == Platform::Windows && answer == 0),
    {
        SessionTimerResolution { held: platform == Platform::Windows && answer == 0 }
    }

    /// The session is over. Says whether the period is to be given back, which it is
    /// exactly if it was granted.
    pub fn release(self) -> (r: bool)
        ensures
            r == self.held,
    {
        self.held
    }
}

} // verus!
