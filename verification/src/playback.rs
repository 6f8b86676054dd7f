//! The playback scheduler: the decision logic of the frame cadence loop.
//!
//! The scheduler walks frame indices in order, hands each decoded frame to
//! the caller for delivery to the frame sink, and supports looping. The loop
//! around it — sending, sleeping one frame interval, and reading the shared
//! stream state — runs outside the library and calls back into these
//! functions for every decision: which frame to decode next, how the cursor
//! advances after a send, and whether an observed `Paused` state halts
//! playback. A decode error is fatal to the playback attempt and is
//! surfaced unchanged; a delivery error is not (the caller logs it and
//! playback continues).

use vstd::prelude::*;
use std::sync::Arc;
use crate::error::PlayerError;
use crate::fseq::{FseqFile, spec_get_frame};
use crate::state::StreamState;

verus! {

/// What the scheduler needs for one playback attempt: the parsed sequence
/// file, shared read-only across the whole playback lifetime, and whether
/// the sequence loops.
pub struct PlaybackContext {
    pub fseq_file: Arc<FseqFile>,
    pub loop_enabled: bool,
}

/// The phases of a playback attempt. `Looping` is the moment just after the
/// cursor wrapped back to frame 0; the next advance returns to `Running`.
#[derive(Clone, Copy, Debug, PartialEq, Eq, Structural)]
pub enum SchedulerPhase {
    /// Before the first frame request.
    Idle,
    /// Frames are being decoded and sent.
    Running,
    /// The cursor just wrapped for another pass.
    Looping,
    /// The sequence ended with looping disabled.
    Finished,
    /// A `Paused` stream state was observed; playback stopped.
    Halted,
}

/// The playback cursor and its phase: the current frame index, the number of
/// completed passes, and the fixed parameters of the attempt.
pub struct Scheduler {
    pub phase: SchedulerPhase,
    pub frame_num: u32,
    pub sequence_run_count: u32,
    pub frame_count: u32,
    pub loop_enabled: bool,
}

impl Scheduler {
    /// The scheduler still produces frames: it halts only by finishing the
    /// sequence, observing `Paused`, or hitting a fatal decode error.
    pub open spec fn active(self) -> bool {
        self.phase is Running || self.phase is Looping
    }

    /// A fresh attempt: cursor at frame 0, no completed passes, idle until
    /// started.
    pub fn new(frame_count: u32, loop_enabled: bool) -> (s: Self)
        ensures
            s.phase is Idle,
            s.frame_num == 0,
            s.sequence_run_count == 0,
            s.frame_count == frame_count,
            s.loop_enabled == loop_enabled,
    {
        Scheduler {
            phase: SchedulerPhase::Idle,
            frame_num: 0,
            sequence_run_count: 0,
            frame_count,
            loop_enabled,
        }
    }

    /// Begins the attempt: the first frame request follows.
    pub fn start(&mut self)
        requires
            old(self).phase is Idle,
        ensures
            *final(self) == (Scheduler { phase: SchedulerPhase::Running, ..*old(self) }),
    {
        self.phase = SchedulerPhase::Running;
    }

    /// Whether the loop around the scheduler should keep going.
    pub fn is_active(&self) -> (b: bool)
        ensures
            b == self.active(),
    {
        matches!(self.phase, SchedulerPhase::Running | SchedulerPhase::Looping)
    }

    /// The frame index the next request decodes.
    pub fn current_frame(&self) -> (i: u32)
        ensures
            i == self.frame_num,
    {
        self.frame_num
    }

    /// Decodes the frame the cursor points at. The result is exactly
    /// `get_frame` at the cursor; an error is fatal to the attempt and the
    /// caller surfaces it.
    pub fn fetch_frame(&self, context: &PlaybackContext) -> (r: Result<Vec<u8>, PlayerError>)
        requires
            self.active(),
            context.fseq_file.wf(),
        ensures
            r is Ok <==> spec_get_frame(context.fseq_file.buffer@, self.frame_num) is Ok,
            r is Ok ==> r->Ok_0@ == spec_get_frame(context.fseq_file.buffer@, self.frame_num)->Ok_0,
            r is Err ==> r->Err_0 == spec_get_frame(context.fseq_file.buffer@, self.frame_num)->Err_0,
    {
        context.fseq_file.get_frame(self.frame_num)
    }

    /// Advances the cursor after a frame was handed to the sink. When the
    /// cursor reaches the frame count, the completed-pass counter rises (it
    /// saturates rather than wraps); with looping enabled the cursor resets
    /// to 0 for another pass, otherwise the attempt is finished.
    pub fn advance_after_send(&mut self)
        requires
            old(self).active(),
            old(self).frame_num < old(self).frame_count,
        ensures
            final(self).frame_count == old(self).frame_count,
            final(self).loop_enabled == old(self).loop_enabled,
            old(self).frame_num + 1 < old(self).frame_count ==> *final(self) == (Scheduler {
                phase: SchedulerPhase::Running,
                frame_num: (old(self).frame_num + 1) as u32,
                ..*old(self)
            }),
            old(self).frame_num + 1 == old(self).frame_count ==> {
                &&& final(self).sequence_run_count == if old(self).sequence_run_count < u32::MAX {
                    old(self).sequence_run_count + 1
                } else {
                    old(self).sequence_run_count as int
                }
                &&& old(self).loop_enabled ==> final(self).phase is Looping && final(self).frame_num == 0
                &&& !old(self).loop_enabled ==> final(self).phase is Finished && final(self).frame_num
                    == old(self).frame_count
            },
    {
        self.frame_num = self.frame_num + 1;
        if self.frame_num >= self.frame_count {
            if self.sequence_run_count < u32::MAX {
                self.sequence_run_count = self.sequence_run_count + 1;
            }
            if self.loop_enabled {
                self.frame_num = 0;
                self.phase = SchedulerPhase::Looping;
            } else {
                self.phase = SchedulerPhase::Finished;
            }
        } else {
            self.phase = SchedulerPhase::Running;
        }
    }

    /// Takes note of the stream state read at the frame boundary. Observing
    /// `Paused` halts the attempt before any further frame is requested;
    /// observing `Running` changes nothing.
    pub fn observe_stream_state(&mut self, state: StreamState)
        ensures
            state is Paused ==> *final(self) == (Scheduler {
                phase: SchedulerPhase::Halted,
                ..*old(self)
            }),
            state is Running ==> *final(self) == *old(self),
    {
        if matches!(state, StreamState::Paused) {
            self.phase = SchedulerPhase::Halted;
        }
    }
}

/// Once the scheduler has observed a `Paused` stream state it is halted and
/// no longer active, and every halted scheduler stays off the frame path:
/// `fetch_frame` demands an active scheduler, so no frame beyond the one
/// already in flight at the transition is ever decoded or sent.
pub proof fn lemma_paused_observation_stops_frames(before: Scheduler, after: Scheduler)
    requires
        after == (Scheduler { phase: SchedulerPhase::Halted, ..before }),
    ensures
        !after.active(),
        after.frame_num == before.frame_num,
{
}

} // verus!
