use vstd::prelude::*;

verus! {

/// The ways a capture run can fail; each names the phase that failed.
#[derive(Clone, Copy, Debug, PartialEq, Eq, Structural)]
pub enum CaptureError {
    /// The user cancelled the selection, or the overlay could not be set up.
    SelectionAborted,
    /// The capture device failed on the attempt with this 0-based index.
    FrameCaptureFailed { index: usize },
    /// The frames could not be quantized or serialized.
    EncodingFailed,
    /// The output sink could not be created or written.
    IoFailure,
}

} // verus!
