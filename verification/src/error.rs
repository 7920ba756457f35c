//! The errors a resampler reports. Every one of them is recoverable: the
//! call that returns it has changed nothing.
use vstd::prelude::*;

verus! {

/// A processor feature that an accelerated kernel depends on.
#[derive(Debug, Clone, Copy, PartialEq, Eq, Structural)]
pub enum CpuFeature {
    /// SSE3 on x86_64.
    Sse3,
    /// AVX on x86_64.
    Avx,
    /// Neon on aarch64.
    Neon,
}

/// Why a call on a resampler was refused.
#[derive(Debug, Clone, Copy, PartialEq, Eq, Structural)]
pub enum ResampleError {
    /// The input does not have one entry per channel.
    WrongNumberOfInputChannels { expected: usize, actual: usize },
    /// The output does not have one entry per channel.
    WrongNumberOfOutputChannels { expected: usize, actual: usize },
    /// The mask of active channels does not have one entry per channel.
    WrongNumberOfMaskChannels { expected: usize, actual: usize },
    /// An active channel of the input does not hold the number of frames
    /// that the resampler asked for.
    WrongNumberOfInputFrames { channel: usize, expected: usize, actual: usize },
    /// The new ratio is further than a tenth from the original one.
    RatioOutOfBounds,
    /// An accelerated kernel was asked for on a processor that lacks the
    /// feature it needs. Only construction can report this.
    MissingCpuFeature(CpuFeature),
}

/// What a fallible call on a resampler returns.
pub type ResampleResult<T> = Result<T, ResampleError>;

} // verus!
