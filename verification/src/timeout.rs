//! When a notification closes by itself.

use vstd::prelude::*;
use vstd::std_specs::convert::FromSpecImpl;

verus! {

/// How long the server shows a notification that asks for the default.
pub const DEFAULT_TIMEOUT_MS: u64 = 5000;

/// Describes the timeout of a notification.
#[derive(Debug, Copy, Clone, PartialEq, Eq, Structural)]
pub enum Timeout {
    /// Expires after the server default, five seconds.
    Default,
    /// Does not expire: the user has to close it.
    Never,
    /// Expires after this many milliseconds.
    Milliseconds(u32),
}

impl Timeout {
    /// The timeout as a number of milliseconds; `Never` counts as 0.
    pub open spec fn millis(self) -> u64 {
        match self {
            Timeout::Default => DEFAULT_TIMEOUT_MS,
            Timeout::Never => 0,
            Timeout::Milliseconds(ms) => ms as u64,
        }
    }

    /// The delay of the closing timer, or `None` where no timer runs.
    pub open spec fn delay(self) -> Option<u64> {
        match self {
            Timeout::Never => None,
            _ => Some(self.millis()),
        }
    }

    /// Resolves the timeout to the delay after which the notification is
    /// closed. `Never` gives `None`: no closing timer is started for it.
    pub fn closing_delay(self) -> (delay: Option<u64>)
        ensures
            delay == self.delay(),
    {
        match self {
            Timeout::Never => None,
            Timeout::Default => Some(DEFAULT_TIMEOUT_MS),
            Timeout::Milliseconds(ms) => Some(ms as u64),
        }
    }
}

/// Only `Never` is left without a closing timer; the default runs five
/// seconds, and a number of milliseconds runs as long as it says.
pub proof fn lemma_timer_follows_timeout(timeout: Timeout)
    ensures
        timeout.delay().is_none() <==> timeout == Timeout::Never,
        timeout == Timeout::Default ==> timeout.delay() == Some(5000u64),
        timeout matches Timeout::Milliseconds(ms) ==> timeout.delay() == Some(ms as u64),
{
}

impl FromSpecImpl<Timeout> for u64 {
    open spec fn obeys_from_spec() -> bool {
        true
    }

    open spec fn from_spec(timeout: Timeout) -> u64 {
        timeout.millis()
    }
}

impl From<Timeout> for u64 {
    fn from(timeout: Timeout) -> (ms: u64)
        ensures
            ms == timeout.millis(),
    {
        match timeout {
            Timeout::Default => DEFAULT_TIMEOUT_MS,
            Timeout::Never => 0,
            Timeout::Milliseconds(ms) => ms as u64,
        }
    }
}

impl Default for Timeout {
    fn default() -> (timeout: Timeout)
        ensures
            timeout == Timeout::Default,
    {
        Timeout::Default
    }
}

} // verus!
