//! The rule by which the publish sink's background monitor follows the health of
//! the connection to the broker.
//!
//! The monitor's caller drives the broker client's event loop. After each poll it
//! tells the monitor how the poll ended, does what the monitor answers, and polls
//! again; it never stops.

use vstd::prelude::*;

verus! {

/// Seconds to wait after a failed poll before the next one.
pub const RECONNECT_DELAY_SECS: u64 = 1;

/// What the monitor has to say after a poll.
#[derive(Clone, Copy, Debug, PartialEq, Eq, Structural)]
pub enum Report {
    /// The connection is as it was.
    Nothing,
    /// The connection has come up.
    Connected,
    /// The connection has gone down; the poll's error is to be logged.
    Disconnected,
}

/// What the monitor's caller does after a poll.
#[derive(Clone, Copy, Debug, PartialEq, Eq, Structural)]
pub struct MonitorStep {
    pub report: Report,
    /// Seconds to wait before the next poll.
    pub wait_secs: u64,
}

/// The step that follows a poll, given whether the connection was up before it and
/// whether the poll succeeded.
pub open spec fn step_after(connected: bool, poll_ok: bool) -> MonitorStep {
    MonitorStep {
        report: if poll_ok && !connected {
            Report::Connected
        } else if !poll_ok && connected {
            Report::Disconnected
        } else {
            Report::Nothing
        },
        wait_secs: if poll_ok {
            0
        } else {
            RECONNECT_DELAY_SECS
        },
    }
}

/// The connection status: whether the last poll succeeded. No history is kept.
#[derive(Clone, Copy, Debug, PartialEq, Eq, Structural)]
pub struct ConnectionMonitor {
    pub connected: bool,
}

impl ConnectionMonitor {
    /// A monitor of a connection that is not up yet.
    pub fn new() -> (monitor: ConnectionMonitor)
        ensures
            !monitor.connected,
    {
        ConnectionMonitor { connected: false }
    }

    /// Whether the connection was up at the last poll.
    pub fn is_connected(&self) -> (connected: bool)
        ensures
            connected == self.connected,
    {
        self.connected
    }

    /// Takes note of how a poll ended.
    ///
    /// The status becomes `poll_ok`. A change of status is reported, once; a failed
    /// poll is followed by the reconnect delay, a successful one by no wait.
    pub fn observe(&mut self, poll_ok: bool) -> (step: MonitorStep)
        ensures
            final(self).connected == poll_ok,
            step == step_after(old(self).connected, poll_ok),
    {
        let report = if poll_ok && !self.connected {
            Report::Connected
        } else if !poll_ok && self.connected {
            Report::Disconnected
        } else {
            Report::Nothing
        };
        self.connected = poll_ok;
        MonitorStep {
            report,
            wait_secs: if poll_ok {
                0
            } else {
                RECONNECT_DELAY_SECS
            },
        }
    }
}

/// A status is reported when it changes and only then: of two polls in a row that
/// end alike, the second reports nothing, and every failed poll is followed by the
/// reconnect delay.
pub proof fn lemma_report_once_per_transition(connected: bool, poll_ok: bool)
    ensures
        step_after(poll_ok, poll_ok).report == Report::Nothing,
        step_after(connected, poll_ok).report != Report::Nothing <==> connected != poll_ok,
        !poll_ok ==> step_after(connected, poll_ok).wait_secs == RECONNECT_DELAY_SECS,
{
}

} // verus!
