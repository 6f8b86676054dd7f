//! The stream state shared between the liveness monitor and the playback
//! scheduler.
//!
//! The monitor is the single writer of this signal, the scheduler its reader.
//! The cell that carries it between the two long-running tasks (a
//! latest-value slot with change notification) lives outside the library;
//! here stands the value itself and its initial state.

use vstd::prelude::*;

verus! {

/// The two-valued signal gating playback: frames are sent only while the
/// stream is `Running`.
#[derive(Clone, Copy, Debug, PartialEq, Eq, Structural)]
pub enum StreamState {
    Running,
    Paused,
}

impl StreamState {
    /// The state at startup: paused until the monitor's first successful
    /// probe.
    pub fn initial() -> (s: Self)
        ensures
            s is Paused,
    {
        StreamState::Paused
    }
}

/// The orchestrator starts a playback attempt only once the stream state has
/// become `Running`.
pub fn playback_may_start(state: StreamState) -> (b: bool)
    ensures
        b <==> state is Running,
{
    matches!(state, StreamState::Running)
}

} // verus!
