//! The contract that every resampler meets, whatever it computes inside.
//!
//! A resampler is described here by what its state determines: how many
//! channels it serves, how many frames it needs next per channel, how many
//! it will then produce per channel, the ratio it works at and the band
//! that a new ratio must lie in.
//! The contracts say which calls are refused, what a refused call leaves
//! behind (everything as it was) and which shape a served call gives the
//! output. They say nothing of the sample values.
use vstd::prelude::*;
use crate::error::ResampleResult;

verus! {

/// The mask that a call works with: the one the caller gave, or else the one
/// derived from which channels hold frames.
pub open spec fn effective_mask(frames: Seq<usize>, given: Option<&[bool]>) -> Seq<bool> {
    match given {
        Some(mask) => mask@,
        None => crate::validate::derived_mask(frames),
    }
}

/// Whether one call of `process_into_buffer` is accepted, and if not, why:
/// decided by the shapes of its arguments and the resampler's geometry.
pub open spec fn acceptance<T>(
    wave_in: Seq<Vec<T>>,
    out_channels: nat,
    given_mask: Option<&[bool]>,
    channels: usize,
    needed: usize,
) -> ResampleResult<()> {
    let frames = crate::validate::frame_counts(wave_in);
    crate::validate::validation(
        frames,
        out_channels as usize,
        effective_mask(frames, given_mask),
        channels,
        needed,
    )
}

/// How a call that ended in `r` leaves a caller's output buffer: as long as
/// before; on success each active channel with exactly `produced` frames;
/// every other channel, and after a refusal every channel, with what it held.
pub open spec fn output_after<T>(
    r: ResampleResult<()>,
    before: Seq<Vec<T>>,
    after: Seq<Vec<T>>,
    mask: Seq<bool>,
    produced: usize,
) -> bool {
    &&& after.len() == before.len()
    &&& forall|c: int|
        0 <= c < after.len() ==> if r is Ok && c < mask.len() && mask[c] {
            (#[trigger] after[c])@.len() == produced
        } else {
            after[c]@ == before[c]@
        }
}

/// What `process` hands back on success: one vector per channel, with
/// `produced` frames where the channel is active and none where it is not.
pub open spec fn output_fresh<T>(out: Seq<Vec<T>>, mask: Seq<bool>, channels: usize, produced: usize) -> bool {
    &&& out.len() == channels
    &&& forall|c: int|
        0 <= c < out.len() ==> (#[trigger] out[c])@.len() == (if c < mask.len() && mask[c] {
            produced
        } else {
            0
        })
}

/// In what a served call gives, any two active channels hold the same
/// number of frames.
pub proof fn lemma_active_channels_agree<T>(
    out: Seq<Vec<T>>,
    mask: Seq<bool>,
    channels: usize,
    produced: usize,
    a: int,
    b: int,
)
    requires
        output_fresh(out, mask, channels, produced),
        0 <= a < channels,
        0 <= b < channels,
        a < mask.len() && mask[a],
        b < mask.len() && mask[b],
    ensures
        out[a]@.len() == out[b]@.len(),
{
}

/// A resampler: it takes chunks of non-interleaved audio, one vector per
/// channel, and returns them at another sample rate.
///
/// `T` is the sample type. An implementation decides what the spec
/// functions are and owes the contracts below; the two methods with a body
/// are proved from them. Outside verified code the spec functions are
/// methods like the others, which an implementation writes and nothing here
/// calls.
pub trait Resampler<T>: Send {
    /// The type in which a resampling ratio is given.
    type Ratio;

    /// The number of channels, fixed when the resampler is made.
    spec fn channels(&self) -> usize;

    /// The number of frames that the next call needs in each active channel.
    spec fn frames_needed(&self) -> usize;

    /// The number of frames that the next call gives each active channel.
    spec fn frames_produced(&self) -> usize;

    /// The largest number of frames that the next call can give a channel,
    /// for the state as it is: the frames of `get_max_output_size`.
    spec fn max_frames_produced(&self) -> usize;

    /// The ratio of output rate to input rate that the resampler works at.
    spec fn ratio(&self) -> Self::Ratio;

    /// Whether `ratio` lies in the band around the ratio that the resampler
    /// was made with: less than a tenth away from it, above or below.
    spec fn ratio_in_band(&self, ratio: Self::Ratio) -> bool;

    /// The ratio that is `rel_ratio` times the one the resampler was made
    /// with.
    spec fn ratio_relative(&self, rel_ratio: Self::Ratio) -> Self::Ratio;

    /// Resamples one chunk into a newly allocated output.
    ///
    /// A channel whose mask entry is `false` is skipped and its output is
    /// empty. Without a mask, a channel is active exactly when its input is
    /// not empty. The call is refused exactly when the shapes do not fit, and
    /// then changes nothing. No call changes the ratio or the band.
    fn process(&mut self, wave_in: &[Vec<T>], active_channels_mask: Option<&[bool]>) -> (r:
        ResampleResult<Vec<Vec<T>>>)
        ensures
            final(self).channels() == old(self).channels(),
            final(self).ratio() == old(self).ratio(),
            forall|x: Self::Ratio|
                #![trigger final(self).ratio_in_band(x)]
                #![trigger old(self).ratio_in_band(x)]
                final(self).ratio_in_band(x) == old(self).ratio_in_band(x),
            forall|x: Self::Ratio|
                #![trigger final(self).ratio_relative(x)]
                #![trigger old(self).ratio_relative(x)]
                final(self).ratio_relative(x) == old(self).ratio_relative(x),
            match r {
                Ok(out) => {
                    &&& acceptance(
                        wave_in@,
                        old(self).channels() as nat,
                        active_channels_mask,
                        old(self).channels(),
                        old(self).frames_needed(),
                    ) is Ok
                    &&& out@.len() == wave_in@.len()
                    &&& output_fresh(
                        out@,
                        effective_mask(
                            crate::validate::frame_counts(wave_in@),
                            active_channels_mask,
                        ),
                        old(self).channels(),
                        old(self).frames_produced(),
                    )
                },
                Err(e) => {
                    &&& acceptance(
                        wave_in@,
                        old(self).channels() as nat,
                        active_channels_mask,
                        old(self).channels(),
                        old(self).frames_needed(),
                    ) == Err::<(), crate::error::ResampleError>(e)
                    &&& final(self).frames_needed() == old(self).frames_needed()
                    &&& final(self).frames_produced() == old(self).frames_produced()
                    &&& final(self).max_frames_produced() == old(self).max_frames_produced()
                },
            },
    {
        let mut wave_out = self.allocate_output_buffer();
        match self.process_into_buffer(wave_in, &mut wave_out, active_channels_mask) {
            Ok(()) => {
                proof {
                    crate::validate::lemma_validation_passes(
                        crate::validate::frame_counts(wave_in@),
                        old(self).channels(),
                        effective_mask(
                            crate::validate::frame_counts(wave_in@),
                            active_channels_mask,
                        ),
                        old(self).channels(),
                        old(self).frames_needed(),
                    );
                }
                Ok(wave_out)
            },
            Err(e) => Err(e),
        }
    }

    /// Resamples one chunk into an output that the caller owns.
    ///
    /// Each active channel of the output is resized to exactly the number of
    /// frames produced; an inactive one is left as it is. The call is refused
    /// exactly when the shapes do not fit: the error names the first check
    /// that fails. A refused call changes neither the output nor what the
    /// resampler will need and produce next, at most or exactly. No call
    /// changes the ratio or the band.
    fn process_into_buffer(
        &mut self,
        wave_in: &[Vec<T>],
        wave_out: &mut [Vec<T>],
        active_channels_mask: Option<&[bool]>,
    ) -> (r: ResampleResult<()>)
        ensures
            final(self).channels() == old(self).channels(),
            final(self).ratio() == old(self).ratio(),
            forall|x: Self::Ratio|
                #![trigger final(self).ratio_in_band(x)]
                #![trigger old(self).ratio_in_band(x)]
                final(self).ratio_in_band(x) == old(self).ratio_in_band(x),
            forall|x: Self::Ratio|
                #![trigger final(self).ratio_relative(x)]
                #![trigger old(self).ratio_relative(x)]
                final(self).ratio_relative(x) == old(self).ratio_relative(x),
            r == acceptance(
                wave_in@,
                old(wave_out)@.len(),
                active_channels_mask,
                old(self).channels(),
                old(self).frames_needed(),
            ),
            output_after(
                r,
                old(wave_out)@,
                final(wave_out)@,
                effective_mask(crate::validate::frame_counts(wave_in@), active_channels_mask),
                old(self).frames_produced(),
            ),
            r is Err ==> {
                &&& final(self).frames_needed() == old(self).frames_needed()
                &&& final(self).frames_produced() == old(self).frames_produced()
                &&& final(self).max_frames_produced() == old(self).max_frames_produced()
            },
    ;

    /// Allocates an output for `process_into_buffer`: one empty vector per
    /// channel, each with room for the largest output of the next call.
    fn allocate_output_buffer(&self) -> (out: Vec<Vec<T>>)
        ensures
            out@.len() == self.channels(),
            forall|c: int| 0 <= c < out@.len() ==> (#[trigger] out@[c])@.len() == 0,
    {
        let (channels, out_len) = self.get_max_output_size();
        let mut wave_out: Vec<Vec<T>> = Vec::with_capacity(channels);
        let mut c: usize = 0;
        while c < channels
            invariant
                c <= channels,
                wave_out@.len() == c,
                forall|d: int| 0 <= d < c ==> (#[trigger] wave_out@[d])@.len() == 0,
            decreases channels - c,
        {
            wave_out.push(Vec::with_capacity(out_len));
            c += 1;
        }
        wave_out
    }

    /// The number of channels, and the largest number of frames that the
    /// next call can give a channel. The second holds for the state as it
    /// is: a change of ratio may raise it.
    fn get_max_output_size(&self) -> (r: (usize, usize))
        ensures
            r.0 == self.channels(),
            r.1 == self.max_frames_produced(),
            r.1 >= self.frames_produced(),
    ;

    /// The number of frames that the next call needs in each active channel.
    fn nbr_frames_needed(&self) -> (r: usize)
        ensures
            r == self.frames_needed(),
    ;

    /// Sets the ratio between output and input rate. The call succeeds
    /// exactly when the new ratio lies in the band around the ratio that the
    /// resampler was made with, and the resampler then works at the new
    /// ratio. The only refusal is a ratio out of bounds, and a refused call
    /// changes nothing. The band itself never moves.
    fn set_resample_ratio(&mut self, new_ratio: Self::Ratio) -> (r: ResampleResult<()>)
        ensures
            final(self).channels() == old(self).channels(),
            forall|x: Self::Ratio|
                #![trigger final(self).ratio_in_band(x)]
                #![trigger old(self).ratio_in_band(x)]
                final(self).ratio_in_band(x) == old(self).ratio_in_band(x),
            forall|x: Self::Ratio|
                #![trigger final(self).ratio_relative(x)]
                #![trigger old(self).ratio_relative(x)]
                final(self).ratio_relative(x) == old(self).ratio_relative(x),
            match r {
                Ok(()) => {
                    &&& old(self).ratio_in_band(new_ratio)
                    &&& final(self).ratio() == new_ratio
                },
                Err(e) => {
                    &&& !old(self).ratio_in_band(new_ratio)
                    &&& e == crate::error::ResampleError::RatioOutOfBounds
                    &&& final(self).ratio() == old(self).ratio()
                    &&& final(self).frames_needed() == old(self).frames_needed()
                    &&& final(self).frames_produced() == old(self).frames_produced()
                    &&& final(self).max_frames_produced() == old(self).max_frames_produced()
                },
            },
    ;

    /// Sets the ratio as a multiple of the ratio that the resampler was made
    /// with: the same as setting the ratio to that multiple.
    fn set_resample_ratio_relative(&mut self, rel_ratio: Self::Ratio) -> (r: ResampleResult<()>)
        ensures
            final(self).channels() == old(self).channels(),
            forall|x: Self::Ratio|
                #![trigger final(self).ratio_in_band(x)]
                #![trigger old(self).ratio_in_band(x)]
                final(self).ratio_in_band(x) == old(self).ratio_in_band(x),
            forall|x: Self::Ratio|
                #![trigger final(self).ratio_relative(x)]
                #![trigger old(self).ratio_relative(x)]
                final(self).ratio_relative(x) == old(self).ratio_relative(x),
            match r {
                Ok(()) => {
                    &&& old(self).ratio_in_band(old(self).ratio_relative(rel_ratio))
                    &&& final(self).ratio() == old(self).ratio_relative(rel_ratio)
                },
                Err(e) => {
                    &&& !old(self).ratio_in_band(old(self).ratio_relative(rel_ratio))
                    &&& e == crate::error::ResampleError::RatioOutOfBounds
                    &&& final(self).ratio() == old(self).ratio()
                    &&& final(self).frames_needed() == old(self).frames_needed()
                    &&& final(self).frames_produced() == old(self).frames_produced()
                    &&& final(self).max_frames_produced() == old(self).max_frames_produced()
                },
            },
    ;
}

/// The same contract under a second name, for code that holds resamplers of
/// several types behind one `dyn` handle. Every `Resampler` is a
/// `VecResampler`, and each method hands the call on unchanged: what one
/// returns is what the `Resampler`'s method of that name returned.
pub trait VecResampler<T>: Send {
    /// The type in which a resampling ratio is given.
    type Ratio;

    /// The number of channels, fixed when the resampler is made.
    spec fn channels(&self) -> usize;

    /// The number of frames that the next call needs in each active channel.
    spec fn frames_needed(&self) -> usize;

    /// The number of frames that the next call gives each active channel.
    spec fn frames_produced(&self) -> usize;

    /// The largest number of frames that the next call can give a channel,
    /// for the state as it is: the frames of `get_max_output_size`.
    spec fn max_frames_produced(&self) -> usize;

    /// The ratio of output rate to input rate that the resampler works at.
    spec fn ratio(&self) -> Self::Ratio;

    /// Whether `ratio` lies in the band around the ratio that the resampler
    /// was made with: less than a tenth away from it, above or below.
    spec fn ratio_in_band(&self, ratio: Self::Ratio) -> bool;

    /// The ratio that is `rel_ratio` times the one the resampler was made
    /// with.
    spec fn ratio_relative(&self, rel_ratio: Self::Ratio) -> Self::Ratio;

    /// Resamples one chunk into a newly allocated output.
    fn process(&mut self, wave_in: &[Vec<T>], active_channels_mask: Option<&[bool]>) -> (r:
        ResampleResult<Vec<Vec<T>>>)
        ensures
            final(self).channels() == old(self).channels(),
            final(self).ratio() == old(self).ratio(),
            forall|x: Self::Ratio|
                #![trigger final(self).ratio_in_band(x)]
                #![trigger old(self).ratio_in_band(x)]
                final(self).ratio_in_band(x) == old(self).ratio_in_band(x),
            forall|x: Self::Ratio|
                #![trigger final(self).ratio_relative(x)]
                #![trigger old(self).ratio_relative(x)]
                final(self).ratio_relative(x) == old(self).ratio_relative(x),
            match r {
                Ok(out) => {
                    &&& acceptance(
                        wave_in@,
                        old(self).channels() as nat,
                        active_channels_mask,
                        old(self).channels(),
                        old(self).frames_needed(),
                    ) is Ok
                    &&& out@.len() == wave_in@.len()
                    &&& output_fresh(
                        out@,
                        effective_mask(
                            crate::validate::frame_counts(wave_in@),
                            active_channels_mask,
                        ),
                        old(self).channels(),
                        old(self).frames_produced(),
                    )
                },
                Err(e) => {
                    &&& acceptance(
                        wave_in@,
                        old(self).channels() as nat,
                        active_channels_mask,
                        old(self).channels(),
                        old(self).frames_needed(),
                    ) == Err::<(), crate::error::ResampleError>(e)
                    &&& final(self).frames_needed() == old(self).frames_needed()
                    &&& final(self).frames_produced() == old(self).frames_produced()
                    &&& final(self).max_frames_produced() == old(self).max_frames_produced()
                },
            },
    ;

    /// Resamples one chunk into an output that the caller owns.
    fn process_into_buffer(
        &mut self,
        wave_in: &[Vec<T>],
        wave_out: &mut [Vec<T>],
        active_channels_mask: Option<&[bool]>,
    ) -> (r: ResampleResult<()>)
        ensures
            final(self).channels() == old(self).channels(),
            final(self).ratio() == old(self).ratio(),
            forall|x: Self::Ratio|
                #![trigger final(self).ratio_in_band(x)]
                #![trigger old(self).ratio_in_band(x)]
                final(self).ratio_in_band(x) == old(self).ratio_in_band(x),
            forall|x: Self::Ratio|
                #![trigger final(self).ratio_relative(x)]
                #![trigger old(self).ratio_relative(x)]
                final(self).ratio_relative(x) == old(self).ratio_relative(x),
            r == acceptance(
                wave_in@,
                old(wave_out)@.len(),
                active_channels_mask,
                old(self).channels(),
                old(self).frames_needed(),
            ),
            output_after(
                r,
                old(wave_out)@,
                final(wave_out)@,
                effective_mask(crate::validate::frame_counts(wave_in@), active_channels_mask),
                old(self).frames_produced(),
            ),
            r is Err ==> {
                &&& final(self).frames_needed() == old(self).frames_needed()
                &&& final(self).frames_produced() == old(self).frames_produced()
                &&& final(self).max_frames_produced() == old(self).max_frames_produced()
            },
    ;

    /// Allocates an output for `process_into_buffer`: one empty vector per
    /// channel.
    fn allocate_output_buffer(&self) -> (out: Vec<Vec<T>>)
        ensures
            out@.len() == self.channels(),
            forall|c: int| 0 <= c < out@.len() ==> (#[trigger] out@[c])@.len() == 0,
    ;

    /// The number of channels, and the largest number of frames that the
    /// next call can give a channel.
    fn get_max_output_size(&self) -> (r: (usize, usize))
        ensures
            r.0 == self.channels(),
            r.1 == self.max_frames_produced(),
            r.1 >= self.frames_produced(),
    ;

    /// The number of frames that the next call needs in each active channel.
    fn nbr_frames_needed(&self) -> (r: usize)
        ensures
            r == self.frames_needed(),
    ;

    /// Sets the ratio between output and input rate.
    fn set_resample_ratio(&mut self, new_ratio: Self::Ratio) -> (r: ResampleResult<()>)
        ensures
            final(self).channels() == old(self).channels(),
            forall|x: Self::Ratio|
                #![trigger final(self).ratio_in_band(x)]
                #![trigger old(self).ratio_in_band(x)]
                final(self).ratio_in_band(x) == old(self).ratio_in_band(x),
            forall|x: Self::Ratio|
                #![trigger final(self).ratio_relative(x)]
                #![trigger old(self).ratio_relative(x)]
                final(self).ratio_relative(x) == old(self).ratio_relative(x),
            match r {
                Ok(()) => {
                    &&& old(self).ratio_in_band(new_ratio)
                    &&& final(self).ratio() == new_ratio
                },
                Err(e) => {
                    &&& !old(self).ratio_in_band(new_ratio)
                    &&& e == crate::error::ResampleError::RatioOutOfBounds
                    &&& final(self).ratio() == old(self).ratio()
                    &&& final(self).frames_needed() == old(self).frames_needed()
                    &&& final(self).frames_produced() == old(self).frames_produced()
                    &&& final(self).max_frames_produced() == old(self).max_frames_produced()
                },
            },
    ;

    /// Sets the ratio as a multiple of the ratio that the resampler was made
    /// with.
    fn set_resample_ratio_relative(&mut self, rel_ratio: Self::Ratio) -> (r: ResampleResult<()>)
        ensures
            final(self).channels() == old(self).channels(),
            forall|x: Self::Ratio|
                #![trigger final(self).ratio_in_band(x)]
                #![trigger old(self).ratio_in_band(x)]
                final(self).ratio_in_band(x) == old(self).ratio_in_band(x),
            forall|x: Self::Ratio|
                #![trigger final(self).ratio_relative(x)]
                #![trigger old(self).ratio_relative(x)]
                final(self).ratio_relative(x) == old(self).ratio_relative(x),
            match r {
                Ok(()) => {
                    &&& old(self).ratio_in_band(old(self).ratio_relative(rel_ratio))
                    &&& final(self).ratio() == old(self).ratio_relative(rel_ratio)
                },
                Err(e) => {
                    &&& !old(self).ratio_in_band(old(self).ratio_relative(rel_ratio))
                    &&& e == crate::error::ResampleError::RatioOutOfBounds
                    &&& final(self).ratio() == old(self).ratio()
                    &&& final(self).frames_needed() == old(self).frames_needed()
                    &&& final(self).frames_produced() == old(self).frames_produced()
                    &&& final(self).max_frames_produced() == old(self).max_frames_produced()
                },
            },
    ;
}

impl<T, U> VecResampler<T> for U where U: Resampler<T> {
    type Ratio = U::Ratio;

    open spec fn channels(&self) -> usize {
        Resampler::channels(self)
    }

    open spec fn frames_needed(&self) -> usize {
        Resampler::frames_needed(self)
    }

    open spec fn frames_produced(&self) -> usize {
        Resampler::frames_produced(self)
    }

    open spec fn max_frames_produced(&self) -> usize {
        Resampler::max_frames_produced(self)
    }

    open spec fn ratio(&self) -> U::Ratio {
        Resampler::ratio(self)
    }

    open spec fn ratio_in_band(&self, ratio: U::Ratio) -> bool {
        Resampler::ratio_in_band(self, ratio)
    }

    open spec fn ratio_relative(&self, rel_ratio: U::Ratio) -> U::Ratio {
        Resampler::ratio_relative(self, rel_ratio)
    }

    fn process(&mut self, wave_in: &[Vec<T>], active_channels_mask: Option<&[bool]>) -> (r:
        ResampleResult<Vec<Vec<T>>>) {
        Resampler::process(self, wave_in, active_channels_mask)
    }

    fn process_into_buffer(
        &mut self,
        wave_in: &[Vec<T>],
        wave_out: &mut [Vec<T>],
        active_channels_mask: Option<&[bool]>,
    ) -> (r: ResampleResult<()>) {
        Resampler::process_into_buffer(self, wave_in, wave_out, active_channels_mask)
    }

    fn allocate_output_buffer(&self) -> (out: Vec<Vec<T>>)
        ensures
            call_ensures(<U as Resampler<T>>::allocate_output_buffer, (self,), out),
    {
        Resampler::allocate_output_buffer(self)
    }

    fn get_max_output_size(&self) -> (r: (usize, usize))
        ensures
            call_ensures(<U as Resampler<T>>::get_max_output_size, (self,), r),
    {
        Resampler::get_max_output_size(self)
    }

    fn nbr_frames_needed(&self) -> (r: usize)
        ensures
            call_ensures(<U as Resampler<T>>::nbr_frames_needed, (self,), r),
    {
        Resampler::nbr_frames_needed(self)
    }

    fn set_resample_ratio(&mut self, new_ratio: U::Ratio) -> (r: ResampleResult<()>) {
        Resampler::set_resample_ratio(self, new_ratio)
    }

    fn set_resample_ratio_relative(&mut self, rel_ratio: U::Ratio) -> (r: ResampleResult<()>) {
        Resampler::set_resample_ratio_relative(self, rel_ratio)
    }
}

} // verus!
