use vstd::prelude::*;

verus! {

/// The step of a GPU-to-CPU transfer that failed.
#[derive(Clone, Copy, Debug, PartialEq, Eq, Structural)]
pub enum TransferStage {
    /// The requested region is empty or inverted (`right <= left` or `bottom <= top`).
    InvalidRegion,
    /// The CPU-readable staging texture could not be created.
    CreateStaging,
    /// The source rectangle reaches outside the frame, so no sub-region copy can be made.
    SourceOutOfBounds,
    /// Mapping the staging texture for CPU reads failed.
    MapForRead,
    /// The mapping reported a row stride narrower than one row of pixels.
    Layout,
    /// The mapped byte length does not fit in `usize`.
    SizeOverflow,
}

/// Every failure the capture pipeline reports.
#[derive(Clone, Copy, Debug, PartialEq, Eq, Structural)]
pub enum CaptureError {
    /// The requested display does not exist.
    DisplayResolution,
    /// The hardware refused to open or rebuild a duplication handle.
    SessionCreate,
    /// The session was invalidated; it must be recreated before further use.
    AccessLost,
    /// The hardware reported some other failure while acquiring a frame.
    AcquireFailed,
    /// The hardware reported a pixel format outside the supported set; holds its code.
    UnsupportedFormat(i32),
    /// A stage of the GPU-to-CPU transfer failed.
    Transfer(TransferStage),
    /// A mapped frame's memory was requested after the frame was released.
    UseAfterRelease,
}

} // verus!
