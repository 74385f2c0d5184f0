use vstd::prelude::*;

use crate::convert::RawFrame;
use crate::error::CaptureError;

verus! {

/// Where a sampling run stands.
#[derive(Clone, Copy, Debug, PartialEq, Eq, Structural)]
pub enum SamplerPhase {
    /// The next step is to capture one frame.
    Capturing,
    /// A frame was captured; the next step is the inter-frame wait.
    Waiting,
    /// The duration has passed; the frames are complete.
    Finished,
    /// The capture attempt with this 0-based index failed.
    Failed { index: usize },
}

/// What the driver of a sampling run should do next.
#[derive(Clone, Copy, Debug, PartialEq, Eq, Structural)]
pub enum SampleAction {
    CaptureFrame,
    /// Block for this many milliseconds, then report the elapsed time.
    Sleep { millis: u64 },
    Stop,
}

/// The decisions of a time-bounded capture run at a fixed frame rate.
///
/// Each step captures a frame, then waits for the inter-frame delay, then
/// checks the elapsed time; so at least one frame is captured, even for a
/// zero duration. A failed capture discards every frame of the run.
pub struct FrameSampler {
    duration_secs: u64,
    delay_millis: u64,
    phase: SamplerPhase,
    frames: Vec<RawFrame>,
}

/// The inter-frame delay in milliseconds at a frame rate.
pub open spec fn frame_delay_millis(frame_rate: u64) -> int
    recommends
        frame_rate > 0,
{
    1000int / frame_rate as int
}

impl FrameSampler {
    pub closed spec fn duration(&self) -> u64 {
        self.duration_secs
    }

    pub closed spec fn delay(&self) -> u64 {
        self.delay_millis
    }

    pub closed spec fn phase_of(&self) -> SamplerPhase {
        self.phase
    }

    pub closed spec fn frames_of(&self) -> Seq<RawFrame> {
        self.frames@
    }

    /// Failed runs hold no frames; waiting and finished runs hold at least one.
    pub open spec fn wf(&self) -> bool {
        &&& (self.phase_of() is Failed ==> self.frames_of().len() == 0)
        &&& (self.phase_of() is Waiting ==> self.frames_of().len() >= 1)
        &&& (self.phase_of() is Finished ==> self.frames_of().len() >= 1)
    }

    /// Starts a run of `duration_secs` seconds at `frame_rate` frames per second.
    pub fn new(duration_secs: u64, frame_rate: u64) -> (r: FrameSampler)
        requires
            frame_rate > 0,
        ensures
            r.wf(),
            r.duration() == duration_secs,
            r.delay() as int == frame_delay_millis(frame_rate),
            r.phase_of() == SamplerPhase::Capturing,
            r.frames_of().len() == 0,
    {
        FrameSampler {
            duration_secs,
            delay_millis: 1000 / frame_rate,
            phase: SamplerPhase::Capturing,
            frames: Vec::new(),
        }
    }

    pub fn phase(&self) -> (r: SamplerPhase)
        ensures
            r == self.phase_of(),
    {
        self.phase
    }

    /// The step the driver must take in the current phase.
    pub fn next_action(&self) -> (r: SampleAction)
        ensures
            self.phase_of() is Capturing ==> r == SampleAction::CaptureFrame,
            self.phase_of() is Waiting ==> r == (SampleAction::Sleep { millis: self.delay() }),
            (self.phase_of() is Finished || self.phase_of() is Failed) ==> r == SampleAction::Stop,
    {
        match self.phase {
            SamplerPhase::Capturing => SampleAction::CaptureFrame,
            SamplerPhase::Waiting => SampleAction::Sleep { millis: self.delay_millis },
            _ => SampleAction::Stop,
        }
    }

    /// Records the outcome of one capture attempt: a frame is appended, and a
    /// failure ends the run with the attempt's index and drops every frame.
    pub fn on_captured(&mut self, outcome: Option<RawFrame>)
        requires
            old(self).wf(),
            old(self).phase_of() is Capturing,
        ensures
            final(self).wf(),
            final(self).duration() == old(self).duration(),
            final(self).delay() == old(self).delay(),
            match outcome {
                Some(f) => {
                    &&& final(self).phase_of() == SamplerPhase::Waiting
                    &&& final(self).frames_of() == old(self).frames_of().push(f)
                },
                None => {
                    &&& final(self).phase_of() == (SamplerPhase::Failed { index: old(self).frames_of().len() as usize })
                    &&& final(self).frames_of().len() == 0
                },
            },
    {
        match outcome {
            Some(f) => {
                self.frames.push(f);
                self.phase = SamplerPhase::Waiting;
            },
            None => {
                self.phase = SamplerPhase::Failed { index: self.frames.len() };
                self.frames = Vec::new();
            },
        }
    }

    /// Records the time elapsed since the run began, in milliseconds, after
    /// the inter-frame wait: the run ends once that strictly exceeds the
    /// duration.
    pub fn on_slept(&mut self, elapsed_millis: u64)
        requires
            old(self).wf(),
            old(self).phase_of() is Waiting,
        ensures
            final(self).wf(),
            final(self).duration() == old(self).duration(),
            final(self).delay() == old(self).delay(),
            final(self).frames_of() == old(self).frames_of(),
            final(self).phase_of() == if elapsed_millis as int > old(self).duration() as int * 1000 {
                SamplerPhase::Finished
            } else {
                SamplerPhase::Capturing
            },
    {
        if elapsed_millis as u128 > self.duration_secs as u128 * 1000 {
            self.phase = SamplerPhase::Finished;
        } else {
            self.phase = SamplerPhase::Capturing;
        }
    }

    /// The captured frames in capture order, or the index of the failed
    /// attempt. A finished run always has at least one frame.
    pub fn into_frames(self) -> (r: Result<Vec<RawFrame>, CaptureError>)
        requires
            self.wf(),
            self.phase_of() is Finished || self.phase_of() is Failed,
        ensures
            match self.phase_of() {
                SamplerPhase::Failed { index } => r == Err::<Vec<RawFrame>, CaptureError>(
                    CaptureError::FrameCaptureFailed { index },
                ),
                _ => r is Ok && r->Ok_0@ == self.frames_of() && r->Ok_0@.len() >= 1,
            },
    {
        match self.phase {
            SamplerPhase::Failed { index } => Err(CaptureError::FrameCaptureFailed { index }),
            _ => Ok(self.frames),
        }
    }
}

} // verus!
