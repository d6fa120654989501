use vstd::prelude::*;

use crate::video_recorder::{bgrx_frame, decode_bgrx_rows, rows_readable, Frame};

verus! {

/// Consecutive failed acquisitions after which the duplication is given up.
pub const MAX_CONSECUTIVE_FAILURES: u32 = 8;

/// Milliseconds that one acquisition waits for a new frame.
pub const ACQUIRE_TIMEOUT_MS: u32 = 200;

/// How one acquire-next-frame call on the output duplication ended.
#[derive(Debug, Clone, Copy, PartialEq, Eq, Structural)]
pub enum AcquireOutcome {
    /// No new frame within the timeout.
    Timeout,
    /// A frame was acquired; a zero presentation time marks one with no new content.
    Acquired { last_present_time: i64 },
    /// Any other failure.
    Failed,
}

/// What the poller does with an acquisition. Every action releases the frame.
#[derive(Debug, Clone, Copy, PartialEq, Eq, Structural)]
pub enum PollAction {
    /// Release and acquire again.
    Retry,
    /// Copy the frame out, release it and send it.
    Emit,
    /// Give the duplication up: the producer ends and closes the channel.
    Fatal,
}

/// The decisions of the duplication producer loop.
#[derive(Debug)]
pub struct DuplicationPoller {
    failures: u32,
}

impl DuplicationPoller {
    pub closed spec fn spec_failures(&self) -> u32 {
        self.failures
    }

    /// The failure count never passes the limit.
    pub open spec fn wf(&self) -> bool {
        self.spec_failures() <= MAX_CONSECUTIVE_FAILURES
    }

    pub fn new() -> (r: DuplicationPoller)
        ensures
            r.spec_failures() == 0,
            r.wf(),
    {
        DuplicationPoller { failures: 0 }
    }

    /// Consecutive failed acquisitions so far.
    pub fn failures(&self) -> (r: u32)
        ensures
            r == self.spec_failures(),
    {
        self.failures
    }

    /// Classifies an acquisition: a timeout or a frame without new content is
    /// retried, a new frame is emitted, and a failure is retried until it is the
    /// `MAX_CONSECUTIVE_FAILURES`-th in a row, which is fatal (and stays so).
    pub fn on_acquire(&mut self, outcome: AcquireOutcome) -> (r: PollAction)
        requires
            old(self).wf(),
        ensures
            final(self).wf(),
            match outcome {
                AcquireOutcome::Timeout => r == PollAction::Retry && final(self).spec_failures()
                    == old(self).spec_failures(),
                AcquireOutcome::Acquired { last_present_time } => final(self).spec_failures() == 0
                    && r == if last_present_time == 0 {
                    PollAction::Retry
                } else {
                    PollAction::Emit
                },
                AcquireOutcome::Failed => if old(self).spec_failures() + 1
                    >= MAX_CONSECUTIVE_FAILURES {
                    final(self).spec_failures() == MAX_CONSECUTIVE_FAILURES && r == PollAction::Fatal
                } else {
                    final(self).spec_failures() == old(self).spec_failures() + 1 && r
                        == PollAction::Retry
                },
            },
    {
        match outcome {
            AcquireOutcome::Timeout => PollAction::Retry,
            AcquireOutcome::Acquired { last_present_time } => {
                self.failures = 0;
                if last_present_time == 0 {
                    PollAction::Retry
                } else {
                    PollAction::Emit
                }
            },
            AcquireOutcome::Failed => {
                if self.failures + 1 >= MAX_CONSECUTIVE_FAILURES {
                    self.failures = MAX_CONSECUTIVE_FAILURES;
                    PollAction::Fatal
                } else {
                    self.failures = self.failures + 1;
                    PollAction::Retry
                }
            },
        }
    }
}

/// Builds a frame from a mapped staging copy of the duplicated surface:
/// `height` rows of `row_pitch` bytes of BGRA pixels.
pub fn texture_to_frame(width: u32, height: u32, row_pitch: usize, mapped: &[u8]) -> (r: Option<Frame>)
    ensures
        r.is_some() <==> rows_readable(width, height, row_pitch, mapped@.len() as int),
        r matches Some(f) ==> bgrx_frame(width, height, row_pitch, mapped@, f),
{
    decode_bgrx_rows(width, height, row_pitch, mapped)
}

} // verus!
