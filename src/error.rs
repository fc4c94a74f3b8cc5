use vstd::prelude::*;

verus! {

/// The one error that a stage of the pipeline reports.
#[derive(Debug, Clone, PartialEq, Eq)]
pub enum PipelineError {
    /// A width or height of zero, or a reference size too small to plan with.
    InvalidDimensions,
    /// A buffer whose length disagrees with its declared size, or a
    /// destination buffer that cannot be allocated.
    ResizeFailed,
    /// A tensor or mask buffer that cannot be allocated.
    AllocationFailed,
    /// The inference engine failed; its message is kept.
    InferenceFailed(String),
    /// Mask and image differ in size.
    DimensionMismatch,
    /// Loading or saving an image failed; the message is kept.
    IoError(String),
}

} // verus!
