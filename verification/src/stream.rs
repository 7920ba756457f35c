//! What a chunked resampler does around its arithmetic, call after call.
//!
//! A call is served in three steps. `begin` decides whether the call is
//! accepted, and only then touches anything: it slides the buffer, installs
//! the new samples and gives the output room. The caller then runs its
//! filter over the windows and writes the frames. `finish` cuts the output
//! to what was written. A refused call leaves buffer and output as they
//! were, so the next call carries on from the last accepted one.
use vstd::prelude::*;
use crate::buffer::StreamBuffer;
use crate::error::ResampleResult;
use crate::output::{resize_active, truncate_active};
use crate::validate::{update_mask_from_buffers, validate_buffers};

verus! {

/// The state that a resampler keeps between calls: the buffer, the number
/// of frames the next call must bring, the number the last one brought, and
/// the mask of the last call.
pub struct ChunkStream<T> {
    buffer: StreamBuffer<T>,
    mask: Vec<bool>,
    /// Where a mask is derived before it is known whether the call is
    /// accepted. It holds nothing between calls.
    pending: Vec<bool>,
    needed: usize,
    filled: usize,
}

impl<T: Copy> ChunkStream<T> {
    /// The samples of each lane of the buffer.
    pub closed spec fn lanes(&self) -> Seq<Seq<T>> {
        self.buffer@
    }

    /// The length of the carry region.
    pub closed spec fn carry(&self) -> nat {
        self.buffer.carry()
    }

    /// The number of new samples that a lane has room for.
    pub closed spec fn room(&self) -> nat {
        self.buffer.room()
    }

    /// The number of frames that the next call must bring in each active
    /// channel.
    pub closed spec fn needed(&self) -> usize {
        self.needed
    }

    /// The number of frames that the last accepted call brought.
    pub closed spec fn filled(&self) -> usize {
        self.filled
    }

    /// The mask of the last accepted call.
    pub closed spec fn mask(&self) -> Seq<bool> {
        self.mask@
    }

    /// The number of channels.
    pub open spec fn channels(&self) -> nat {
        self.lanes().len()
    }

    /// The buffer is well formed, there is one mask entry per channel, and
    /// what a call brings fits behind the carry region.
    pub closed spec fn wf(&self) -> bool {
        &&& self.buffer.wf()
        &&& self.mask@.len() == self.buffer@.len()
        &&& self.pending@.len() == self.buffer@.len()
        &&& self.needed <= self.buffer.room()
        &&& self.filled <= self.buffer.room()
    }

    /// What `wf` means for the lanes and the mask.
    pub proof fn lemma_wf(&self)
        requires
            self.wf(),
        ensures
            self.mask().len() == self.channels(),
            self.channels() <= usize::MAX,
            self.needed() <= self.room(),
            self.filled() <= self.room(),
            self.carry() + self.room() <= usize::MAX,
            forall|c: int|
                0 <= c < self.channels() ==> (#[trigger] self.lanes()[c]).len() == self.carry()
                    + self.room(),
    {
    }

    /// A stream of `channels` channels for a filter of `sinc_len` taps, whose
    /// calls bring `needed` frames each and whose lanes have room for `room`.
    /// Every channel is active and every sample is `zero`.
    pub fn new(channels: usize, sinc_len: usize, needed: usize, room: usize, zero: T) -> (r: Self)
        requires
            needed <= room,
            2 * sinc_len + room <= usize::MAX,
        ensures
            r.wf(),
            r.channels() == channels,
            r.carry() == 2 * sinc_len,
            r.room() == room,
            r.needed() == needed,
            r.filled() == 0,
            forall|c: int| 0 <= c < channels ==> r.mask()[c],
            forall|c: int, i: int|
                0 <= c < channels && 0 <= i < 2 * sinc_len + room ==> (#[trigger] r.lanes()[c][i])
                    == zero,
    {
        let buffer = StreamBuffer::new(channels, sinc_len, room, zero);
        let mut mask: Vec<bool> = Vec::with_capacity(channels);
        let mut pending: Vec<bool> = Vec::with_capacity(channels);
        let mut c: usize = 0;
        while c < channels
            invariant
                c <= channels,
                mask@.len() == c,
                pending@.len() == c,
                forall|d: int| 0 <= d < c ==> mask@[d],
            decreases channels - c,
        {
            mask.push(true);
            pending.push(true);
            c += 1;
        }
        ChunkStream { buffer, mask, pending, needed, filled: 0 }
    }

    /// The number of frames that the next call must bring in each active
    /// channel.
    pub fn nbr_frames_needed(&self) -> (r: usize)
        ensures
            r == self.needed(),
    {
        self.needed
    }

    /// The number of channels.
    pub fn nbr_channels(&self) -> (r: usize)
        ensures
            r == self.channels(),
    {
        self.buffer.channels()
    }

    /// The mask of the last accepted call.
    pub fn active_channels(&self) -> (r: &[bool])
        ensures
            r@ == self.mask(),
    {
        self.mask.as_slice()
    }

    /// The buffer, to read the windows from.
    pub fn buffer(&self) -> (r: &StreamBuffer<T>)
        ensures
            r@ == self.lanes(),
            r.carry() == self.carry(),
            r.room() == self.room(),
            self.wf() ==> r.wf(),
    {
        &self.buffer
    }

    /// Changes what the next call must bring. Where the lanes have no room
    /// for as much, they are made longer by as much as is missing, with
    /// `zero` in the new places.
    pub fn set_needed(&mut self, needed: usize, zero: T)
        requires
            old(self).wf(),
            old(self).carry() + needed <= usize::MAX,
        ensures
            final(self).wf(),
            final(self).needed() == needed,
            final(self).filled() == old(self).filled(),
            final(self).mask() == old(self).mask(),
            final(self).carry() == old(self).carry(),
            final(self).channels() == old(self).channels(),
            final(self).room() == (if needed <= old(self).room() {
                old(self).room()
            } else {
                needed as nat
            }),
            forall|c: int|
                0 <= c < old(self).channels() ==> (#[trigger] final(self).lanes()[c])
                    == crate::output::resized(
                    old(self).lanes()[c],
                    final(self).carry() + final(self).room(),
                    zero,
                ),
    {
        if needed > self.buffer.room_len() {
            self.buffer.set_room(needed, zero);
        } else {
            assert forall|c: int| 0 <= c < self.buffer@.len() implies (#[trigger] self.buffer@[c])
                == crate::output::resized(
                self.buffer@[c],
                self.buffer.carry() + self.buffer.room(),
                zero,
            ) by {
                assert(self.buffer@[c].subrange(0, self.buffer@[c].len() as int)
                    =~= self.buffer@[c]);
            }
        }
        self.needed = needed;
    }

    /// Opens a call.
    ///
    /// The call is refused exactly when the shapes do not fit, with the
    /// first of the four checks that fails: one input entry per channel, one
    /// mask entry per channel, the needed number of frames in every active
    /// channel, one output entry per channel. A refused call changes nothing:
    /// not the buffer, not the mask, not the output.
    ///
    /// An accepted call slides every lane by what the last call brought,
    /// writes the new samples of each active channel behind the carry region
    /// and brings the output of each active channel to `reserve` frames, new
    /// frames being `fill`. Without a mask, a channel is active exactly when
    /// its input is not empty.
    pub fn begin(
        &mut self,
        wave_in: &[Vec<T>],
        wave_out: &mut [Vec<T>],
        active_channels_mask: Option<&[bool]>,
        reserve: usize,
        fill: T,
    ) -> (r: ResampleResult<()>)
        requires
            old(self).wf(),
        ensures
            final(self).wf(),
            final(self).channels() == old(self).channels(),
            final(self).carry() == old(self).carry(),
            final(self).room() == old(self).room(),
            final(self).needed() == old(self).needed(),
            final(wave_out)@.len() == old(wave_out)@.len(),
            r == crate::resampler::acceptance(
                wave_in@,
                old(wave_out)@.len(),
                active_channels_mask,
                old(self).channels() as usize,
                old(self).needed(),
            ),
            r is Ok ==> {
                &&& final(self).mask() == crate::resampler::effective_mask(
                    crate::validate::frame_counts(wave_in@),
                    active_channels_mask,
                )
                &&& final(self).filled() == old(self).needed()
                &&& forall|c: int|
                    0 <= c < old(self).channels() ==> (#[trigger] final(self).lanes()[c]) == (
                    if final(self).mask()[c] {
                        crate::buffer::installed(
                            crate::buffer::slid(
                                old(self).lanes()[c],
                                old(self).carry(),
                                old(self).filled() as nat,
                            ),
                            old(self).carry(),
                            wave_in@[c]@,
                        )
                    } else {
                        crate::buffer::slid(
                            old(self).lanes()[c],
                            old(self).carry(),
                            old(self).filled() as nat,
                        )
                    })
                &&& forall|c: int|
                    0 <= c < old(wave_out)@.len() ==> (#[trigger] final(wave_out)@[c])@ == (
                    if final(self).mask()[c] {
                        crate::output::resized(old(wave_out)@[c]@, reserve as nat, fill)
                    } else {
                        old(wave_out)@[c]@
                    })
            },
            r is Err ==> {
                &&& final(self).lanes() == old(self).lanes()
                &&& final(self).filled() == old(self).filled()
                &&& final(self).mask() == old(self).mask()
                &&& forall|c: int|
                    0 <= c < old(wave_out)@.len() ==> (#[trigger] final(wave_out)@[c])@ == old(
                        wave_out,
                    )@[c]@
            },
    {
        let channels: usize = self.buffer.channels();
        let out_channels: usize = wave_out.len();
        let ghost frames = crate::validate::frame_counts(wave_in@);
        let checked = match active_channels_mask {
            Some(given) => validate_buffers(wave_in, wave_out, given, channels, self.needed),
            None => {
                update_mask_from_buffers(wave_in, self.pending.as_mut_slice());
                proof {
                    if wave_in@.len() == channels {
                        assert(self.pending@ =~= crate::validate::derived_mask(frames));
                    }
                }
                validate_buffers(wave_in, wave_out, self.pending.as_slice(), channels, self.needed)
            },
        };
        if let Err(e) = checked {
            return Err(e);
        }
        proof {
            let mask = crate::resampler::effective_mask(frames, active_channels_mask);
            crate::validate::lemma_validation_passes(
                frames,
                out_channels,
                mask,
                channels,
                self.needed,
            );
        }
        match active_channels_mask {
            Some(given) => copy_mask(given, &mut self.mask),
            None => copy_mask(self.pending.as_slice(), &mut self.mask),
        }
        proof {
            assert forall|c: int| 0 <= c < wave_in@.len() && self.mask@[c] implies (
            #[trigger] wave_in@[c])@.len() <= self.buffer.room() by {
                assert(frames[c] == wave_in@[c].len());
            }
        }
        self.buffer.slide(self.filled);
        self.buffer.install(wave_in, self.mask.as_slice());
        self.filled = self.needed;
        resize_active(wave_out, self.mask.as_slice(), reserve, fill);
        Ok(())
    }

    /// Closes a call that wrote `produced` frames: the output of each active
    /// channel is cut to that many. After `begin` with a `reserve` of at
    /// least `produced`, every active channel then holds exactly `produced`
    /// frames.
    pub fn finish(&self, wave_out: &mut [Vec<T>], produced: usize)
        requires
            self.wf(),
            old(wave_out)@.len() == self.channels(),
        ensures
            final(wave_out)@.len() == old(wave_out)@.len(),
            forall|c: int|
                0 <= c < old(wave_out)@.len() ==> (#[trigger] final(wave_out)@[c])@ == (
                if self.mask()[c] {
                    crate::output::truncated(old(wave_out)@[c]@, produced as nat)
                } else {
                    old(wave_out)@[c]@
                }),
    {
        truncate_active(wave_out, self.mask.as_slice(), produced);
    }
}

/// Copies `given` over `mask`, which is as long.
fn copy_mask(given: &[bool], mask: &mut Vec<bool>)
    requires
        given@.len() == old(mask)@.len(),
    ensures
        final(mask)@ == given@,
{
    let n: usize = given.len();
    let mut c: usize = 0;
    while c < n
        invariant
            c <= n,
            n == given@.len(),
            mask@.len() == n,
            forall|d: int| 0 <= d < c ==> mask@[d] == given@[d],
        decreases n - c,
    {
        mask[c] = given[c];
        c += 1;
    }
    assert(mask@ =~= given@);
}

} // verus!
