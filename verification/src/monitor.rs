//! The liveness monitor: hysteresis over reachability probes.
//!
//! A permanent background activity probes the controller once per fixed
//! period and keeps a consecutive-failure counter. A successful probe resets
//! the counter and re-arms a paused stream; failures count only while the
//! stream runs, and the third consecutive one pauses it. The probe itself
//! (and the sleep between probes) happens outside the library; the loop
//! calls `observe_probe` with each result and applies the returned command
//! to the shared stream state.

use vstd::prelude::*;
use crate::state::StreamState;

verus! {

/// Consecutive failed probes that pause a running stream.
pub const FAILURE_THRESHOLD: u32 = 3;

/// Seconds between probes.
pub const PROBE_PERIOD_SECONDS: u64 = 30;

/// What one probe result does to the monitor: the new consecutive-failure
/// count, and the command to apply to the stream state, if any.
///
/// A successful probe resets the count to zero and commands `Running` if the
/// stream was paused. A failed probe while the stream is paused changes
/// nothing (failures are ignored while already paused, to avoid needless
/// churn). A failed probe while the stream runs raises the count — it
/// saturates at the threshold — and commands `Paused` once the count
/// reaches the threshold.
pub open spec fn spec_monitor_step(failures: u32, probe_ok: bool, stream: StreamState) -> (
    u32,
    Option<StreamState>,
) {
    if probe_ok {
        (0u32, if stream is Paused {
            Some(StreamState::Running)
        } else {
            None
        })
    } else if stream is Running {
        let raised: u32 = if failures < FAILURE_THRESHOLD {
            (failures + 1) as u32
        } else {
            failures
        };
        (raised, if raised >= FAILURE_THRESHOLD {
            Some(StreamState::Paused)
        } else {
            None
        })
    } else {
        (failures, None)
    }
}

/// The monitor's own state: how many probes in a row have failed.
pub struct MonitorState {
    pub consecutive_failures: u32,
}

impl MonitorState {
    /// A fresh monitor: no failures recorded.
    pub fn new() -> (m: Self)
        ensures
            m.consecutive_failures == 0,
    {
        MonitorState { consecutive_failures: 0 }
    }

    /// Feeds one probe result through the hysteresis and returns the stream
    /// command to apply, exactly as `spec_monitor_step` says. A probe that
    /// could not run at all counts as a failed probe.
    pub fn observe_probe(&mut self, probe_ok: bool, stream: StreamState) -> (cmd: Option<
        StreamState,
    >)
        ensures
            final(self).consecutive_failures == spec_monitor_step(
                old(self).consecutive_failures,
                probe_ok,
                stream,
            ).0,
            cmd == spec_monitor_step(old(self).consecutive_failures, probe_ok, stream).1,
    {
        if probe_ok {
            self.consecutive_failures = 0;
            if matches!(stream, StreamState::Paused) {
                Some(StreamState::Running)
            } else {
                None
            }
        } else if matches!(stream, StreamState::Running) {
            if self.consecutive_failures < FAILURE_THRESHOLD {
                self.consecutive_failures = self.consecutive_failures + 1;
            }
            if self.consecutive_failures >= FAILURE_THRESHOLD {
                Some(StreamState::Paused)
            } else {
                None
            }
        } else {
            None
        }
    }
}

/// A successful probe always re-arms: whatever the failure count was, it
/// resets to zero; a paused stream is commanded back to `Running`, a running
/// one left alone, and `Paused` is never commanded.
pub proof fn lemma_success_rearms(failures: u32, stream: StreamState)
    ensures
        spec_monitor_step(failures, true, stream).0 == 0,
        stream is Paused ==> spec_monitor_step(failures, true, stream).1 == Some(
            StreamState::Running,
        ),
        stream is Running ==> spec_monitor_step(failures, true, stream).1 is None,
{
}

/// While the stream runs, a failed probe commands `Paused` exactly when it
/// completes the threshold of consecutive failures: with fewer than two
/// failures already recorded, no single failure pauses the stream. A failed
/// probe while the stream is already paused commands nothing and changes
/// nothing.
pub proof fn lemma_pause_needs_consecutive_failures(failures: u32)
    ensures
        (spec_monitor_step(failures, false, StreamState::Running).1 == Some(StreamState::Paused))
            <==> failures >= FAILURE_THRESHOLD - 1,
        spec_monitor_step(failures, false, StreamState::Paused)
            == (failures, None::<StreamState>),
{
}

} // verus!
