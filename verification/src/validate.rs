//! Shape checks on the buffers handed to a resampler, and the mask of active
//! channels.
use vstd::prelude::*;
use crate::error::{ResampleError, ResampleResult};

verus! {

/// The number of frames in each channel of `wave`.
pub open spec fn frame_counts<T>(wave: Seq<Vec<T>>) -> Seq<usize> {
    Seq::new(wave.len(), |c: int| wave[c].len())
}

/// The mask that stands in when the caller gives none: a channel is active
/// exactly when it holds at least one frame.
pub open spec fn derived_mask(frames: Seq<usize>) -> Seq<bool> {
    Seq::new(frames.len(), |c: int| frames[c] != 0)
}

/// Channel `c` is active and does not hold `needed` frames.
pub open spec fn frames_mismatch(frames: Seq<usize>, mask: Seq<bool>, needed: usize, c: int) -> bool {
    &&& 0 <= c < frames.len()
    &&& c < mask.len()
    &&& mask[c]
    &&& frames[c] != needed
}

/// Channel `c` is the first one that is active and does not hold `needed`
/// frames.
pub open spec fn first_frames_mismatch(
    frames: Seq<usize>,
    mask: Seq<bool>,
    needed: usize,
    c: int,
) -> bool {
    &&& frames_mismatch(frames, mask, needed, c)
    &&& forall|d: int| 0 <= d < c ==> !frames_mismatch(frames, mask, needed, d)
}

/// What the checks find in a set of buffers: the first of the four that fails,
/// in the order input channels, mask channels, frames of each active channel
/// (lowest channel first), output channels.
pub open spec fn validation(
    frames: Seq<usize>,
    out_channels: usize,
    mask: Seq<bool>,
    channels: usize,
    needed: usize,
) -> ResampleResult<()> {
    if frames.len() != channels {
        Err(
            ResampleError::WrongNumberOfInputChannels {
                expected: channels,
                actual: frames.len() as usize,
            },
        )
    } else if mask.len() != channels {
        Err(
            ResampleError::WrongNumberOfMaskChannels {
                expected: channels,
                actual: mask.len() as usize,
            },
        )
    } else if exists|c: int| frames_mismatch(frames, mask, needed, c) {
        let c = choose|c: int| first_frames_mismatch(frames, mask, needed, c);
        Err(
            ResampleError::WrongNumberOfInputFrames {
                channel: c as usize,
                expected: needed,
                actual: frames[c],
            },
        )
    } else if out_channels != channels {
        Err(ResampleError::WrongNumberOfOutputChannels { expected: channels, actual: out_channels })
    } else {
        Ok(())
    }
}

/// Sets each entry of `mask` that has a channel in `wave_in` to whether that
/// channel holds any frame. Entries past the last channel keep their value.
pub fn update_mask_from_buffers<T>(wave_in: &[Vec<T>], mask: &mut [bool])
    ensures
        final(mask)@.len() == old(mask)@.len(),
        forall|c: int|
            0 <= c < old(mask)@.len() ==> final(mask)@[c] == (if c < wave_in@.len() {
                wave_in@[c].len() != 0
            } else {
                old(mask)@[c]
            }),
{
    let n: usize = if wave_in.len() < mask.len() {
        wave_in.len()
    } else {
        mask.len()
    };
    let mut c: usize = 0;
    while c < n
        invariant
            c <= n,
            n <= wave_in@.len(),
            n <= mask@.len(),
            mask@.len() == old(mask)@.len(),
            forall|d: int| 0 <= d < c ==> mask@[d] == (wave_in@[d].len() != 0),
            forall|d: int| c <= d < mask@.len() ==> mask@[d] == old(mask)@[d],
        decreases n - c,
    {
        mask[c] = wave_in[c].len() != 0;
        c += 1;
    }
}

/// Checks the buffers of one call against the resampler's geometry.
///
/// The checks run in a fixed order and the first that fails is reported: one
/// input entry per channel; one mask entry per channel; `needed_len` frames in
/// every active channel, the lowest offending channel being named; one output
/// entry per channel. Nothing is written.
pub fn validate_buffers<T>(
    wave_in: &[Vec<T>],
    wave_out: &mut [Vec<T>],
    mask: &[bool],
    channels: usize,
    needed_len: usize,
) -> (r: ResampleResult<()>)
    ensures
        r == validation(frame_counts(wave_in@), old(wave_out)@.len() as usize, mask@, channels, needed_len),
        final(wave_out)@ == old(wave_out)@,
{
    if wave_in.len() != channels {
        return Err(
            ResampleError::WrongNumberOfInputChannels { expected: channels, actual: wave_in.len() },
        );
    }
    if mask.len() != channels {
        return Err(
            ResampleError::WrongNumberOfMaskChannels { expected: channels, actual: mask.len() },
        );
    }
    let ghost frames = frame_counts(wave_in@);
    let mut chan: usize = 0;
    while chan < channels
        invariant
            chan <= channels,
            wave_in@.len() == channels,
            mask@.len() == channels,
            frames == frame_counts(wave_in@),
            forall|d: int| 0 <= d < chan ==> !frames_mismatch(frames, mask@, needed_len, d),
        decreases channels - chan,
    {
        if wave_in[chan].len() != needed_len && mask[chan] {
            proof {
                assert(first_frames_mismatch(frames, mask@, needed_len, chan as int));
                let c = choose|c: int| first_frames_mismatch(frames, mask@, needed_len, c);
                assert(c == chan);
            }
            return Err(
                ResampleError::WrongNumberOfInputFrames {
                    channel: chan,
                    expected: needed_len,
                    actual: wave_in[chan].len(),
                },
            );
        }
        chan += 1;
    }
    if wave_out.len() != channels {
        return Err(
            ResampleError::WrongNumberOfOutputChannels {
                expected: channels,
                actual: wave_out.len(),
            },
        );
    }
    Ok(())
}

/// The buffers pass exactly when every shape fits: one input entry, one mask
/// entry and one output entry per channel, and the needed number of frames in
/// every active channel. In particular input and output then have the same
/// number of channels.
pub proof fn lemma_validation_passes(
    frames: Seq<usize>,
    out_channels: usize,
    mask: Seq<bool>,
    channels: usize,
    needed: usize,
)
    ensures
        validation(frames, out_channels, mask, channels, needed) is Ok <==> {
            &&& frames.len() == channels
            &&& mask.len() == channels
            &&& out_channels == channels
            &&& forall|c: int| 0 <= c < channels && mask[c] ==> frames[c] == needed
        },
        validation(frames, out_channels, mask, channels, needed) is Ok ==> frames.len()
            == out_channels,
{
    if frames.len() == channels && mask.len() == channels {
        if validation(frames, out_channels, mask, channels, needed) is Ok {
            assert forall|c: int| 0 <= c < channels && mask[c] implies frames[c] == needed by {
                assert(!frames_mismatch(frames, mask, needed, c));
            }
        }
    }
}

/// Where the channel counts of input and mask fit and `c` is the first active
/// channel with the wrong number of frames, that channel is the one reported,
/// whatever the output looks like.
pub proof fn lemma_validation_reports_first_mismatch(
    frames: Seq<usize>,
    out_channels: usize,
    mask: Seq<bool>,
    channels: usize,
    needed: usize,
    c: int,
)
    requires
        frames.len() == channels,
        mask.len() == channels,
        first_frames_mismatch(frames, mask, needed, c),
    ensures
        validation(frames, out_channels, mask, channels, needed) == Err::<(), ResampleError>(
            ResampleError::WrongNumberOfInputFrames {
                channel: c as usize,
                expected: needed,
                actual: frames[c],
            },
        ),
{
    let d = choose|d: int| first_frames_mismatch(frames, mask, needed, d);
    assert(d == c);
}

/// A channel that is not active has no say in the result: the number of
/// frames that it holds may be any.
pub proof fn lemma_validation_ignores_inactive(
    frames: Seq<usize>,
    out_channels: usize,
    mask: Seq<bool>,
    channels: usize,
    needed: usize,
    c: int,
    held: usize,
)
    requires
        0 <= c < frames.len(),
        c < mask.len(),
        !mask[c],
    ensures
        validation(frames.update(c, held), out_channels, mask, channels, needed) == validation(
            frames,
            out_channels,
            mask,
            channels,
            needed,
        ),
{
    let other = frames.update(c, held);
    assert forall|d: int|
        frames_mismatch(other, mask, needed, d) == frames_mismatch(frames, mask, needed, d) by {}
    assert forall|d: int|
        first_frames_mismatch(other, mask, needed, d) == first_frames_mismatch(
            frames,
            mask,
            needed,
            d,
        ) by {
        if first_frames_mismatch(frames, mask, needed, d) {
            assert forall|e: int| 0 <= e < d implies !frames_mismatch(other, mask, needed, e) by {
                assert(!frames_mismatch(frames, mask, needed, e));
            }
        }
        if first_frames_mismatch(other, mask, needed, d) {
            assert forall|e: int| 0 <= e < d implies !frames_mismatch(frames, mask, needed, e) by {
                assert(!frames_mismatch(other, mask, needed, e));
            }
        }
    }
    if frames.len() == channels && mask.len() == channels {
        if exists|d: int| frames_mismatch(frames, mask, needed, d) {
            let d = choose|d: int| frames_mismatch(frames, mask, needed, d);
            assert(frames_mismatch(other, mask, needed, d));
            lemma_first_mismatch_exists(frames, mask, needed, d);
            let f = choose|f: int| first_frames_mismatch(frames, mask, needed, f);
            lemma_validation_reports_first_mismatch(other, out_channels, mask, channels, needed, f);
            lemma_validation_reports_first_mismatch(frames, out_channels, mask, channels, needed, f);
        } else {
            assert forall|d: int| !frames_mismatch(other, mask, needed, d) by {
                assert(!frames_mismatch(frames, mask, needed, d));
            }
        }
    }
}

/// Below any mismatching channel there is a first one.
proof fn lemma_first_mismatch_exists(frames: Seq<usize>, mask: Seq<bool>, needed: usize, c: int)
    requires
        frames_mismatch(frames, mask, needed, c),
    ensures
        exists|f: int| first_frames_mismatch(frames, mask, needed, f),
    decreases c,
{
    if exists|d: int| 0 <= d < c && frames_mismatch(frames, mask, needed, d) {
        let d = choose|d: int| 0 <= d < c && frames_mismatch(frames, mask, needed, d);
        lemma_first_mismatch_exists(frames, mask, needed, d);
    } else {
        assert(first_frames_mismatch(frames, mask, needed, c));
    }
}

} // verus!
