use vstd::prelude::*;

verus! {

/// What can go wrong in one pass of the frame pipeline. Every variant is
/// recoverable: the frame is skipped and the previous mesh stays on screen.
#[derive(Debug, Clone, Copy, PartialEq, Eq, Structural)]
pub enum PipelineError {
    /// A buffer or vector does not have the length its stage requires.
    DimensionMismatch { expected: usize, actual: usize },
    /// The spectral transform refused its input.
    SpectrumError,
    /// All smoothed magnitudes are equal, so there is no range to scale by.
    DegenerateRange,
}

/// Succeeds exactly when `actual` equals `expected`.
pub fn check_dimension(expected: usize, actual: usize) -> (r: Result<(), PipelineError>)
    ensures
        r is Ok <==> actual == expected,
        r is Err ==> r == Err::<(), PipelineError>(
            PipelineError::DimensionMismatch { expected, actual },
        ),
{
    if actual == expected {
        Ok(())
    } else {
        Err(PipelineError::DimensionMismatch { expected, actual })
    }
}

} // verus!
