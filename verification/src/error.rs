use vstd::prelude::*;

verus! {

/// Why a render attempt ended without an image.
#[derive(Clone, Copy, Debug, PartialEq, Eq, Structural)]
pub enum RenderError {
    /// No enumerated device exposes a graphics-capable queue family.
    NoSuitableDevice,
    /// No memory type is both allowed for the allocation and has the
    /// requested properties.
    NoSuitableMemoryType,
    /// The backend refused to build the pipeline; the payload is its code.
    PipelineCreation(i32),
    /// The fence did not signal within the timeout.
    SubmissionTimeout,
    /// Any other backend call failed; the payload is its code.
    BackendCallFailed(i32),
    /// The reported image layout has rows that overlap or that lie outside
    /// the mapped memory.
    InvalidImageLayout,
    /// The image encoder refused the pixels.
    EncodingFailed,
}

/// The exit status of the process for the outcome of a render attempt: zero
/// for success, one for any failure.
pub fn exit_code(outcome: &Result<(), RenderError>) -> (code: i32)
    ensures
        code == if outcome is Ok { 0i32 } else { 1i32 },
{
    match outcome {
        Ok(_) => 0,
        Err(_) => 1,
    }
}

} // verus!
