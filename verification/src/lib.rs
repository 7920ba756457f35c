//! Sample-rate conversion of non-interleaved, multi-channel audio in chunks:
//! the bookkeeping that every resampler shares, each function with a contract
//! that Verus proves.
//!
//! A chunk is one vector of samples per channel. The sample type is left
//! generic here: nothing in this crate does arithmetic on samples. It decides
//! which calls are accepted, what the buffers hold between calls, which
//! shape the output gets, where a time lies on the grid of filter phases and
//! how the filter bank is laid out.
//!
//! - `resampler`: the contract of a resampler, `Resampler`, and its twin for
//!   `dyn` handles, `VecResampler`.
//! - `validate`: the shape checks of a call and the mask of active channels.
//! - `stream`: a call from opening to closing, `ChunkStream`.
//! - `buffer`: the sliding history under it, `StreamBuffer`.
//! - `output`: resizing and cutting the output of the active channels.
//! - `phase`: grid points around a time.
//! - `bank`: the rows of the polyphase filter bank.
//! - `sizes`: where a call stops and how much the next one needs.
//! - `error`: the errors.
use vstd::prelude::*;

pub mod bank;
pub mod buffer;
pub mod error;
pub mod output;
pub mod phase;
pub mod resampler;
pub mod sizes;
pub mod stream;
pub mod validate;

pub use crate::bank::{make_bank, padded_sinc_len};
pub use crate::buffer::StreamBuffer;
pub use crate::error::{CpuFeature, ResampleError, ResampleResult};
pub use crate::output::{resize_active, truncate_active};
pub use crate::phase::{get_nearest_time, get_nearest_times_2, get_nearest_times_4};
pub use crate::resampler::{Resampler, VecResampler};
pub use crate::sizes::{fixed_in_end_index, fixed_out_next_needed, fixed_out_room};
pub use crate::stream::ChunkStream;
pub use crate::validate::{update_mask_from_buffers, validate_buffers};

verus! {

/// How a value between two stored filter phases is obtained.
///
/// The filter bank holds a fixed number of phases per input sample. A point
/// between two phases is computed from the nearest one, two or four of them.
#[derive(Debug, Clone, Copy, PartialEq, Eq, Structural)]
pub enum InterpolationType {
    /// A cubic polynomial through the four nearest phases.
    Cubic,
    /// A straight line between the two nearest phases.
    Linear,
    /// The nearest phase, taken as it is.
    Nearest,
}

} // verus!
