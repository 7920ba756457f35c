//! Giving the output of a call its shape: the channels that take part get
//! the length of what was produced, the others are left alone.
use vstd::prelude::*;

verus! {

/// `s` brought to length `len`: cut where it is longer, continued with
/// `fill` where it is shorter.
pub open spec fn resized<T>(s: Seq<T>, len: nat, fill: T) -> Seq<T> {
    if len <= s.len() {
        s.subrange(0, len as int)
    } else {
        s + Seq::new((len - s.len()) as nat, |i: int| fill)
    }
}

/// `s` cut to at most `len` items.
pub open spec fn truncated<T>(s: Seq<T>, len: nat) -> Seq<T> {
    if len <= s.len() {
        s.subrange(0, len as int)
    } else {
        s
    }
}

/// Brings every active channel of `wave_out` to `len` frames, new frames
/// being `fill`. Inactive channels are not touched.
pub fn resize_active<T: Copy>(wave_out: &mut [Vec<T>], mask: &[bool], len: usize, fill: T)
    requires
        mask@.len() == old(wave_out)@.len(),
    ensures
        final(wave_out)@.len() == old(wave_out)@.len(),
        forall|c: int|
            0 <= c < old(wave_out)@.len() ==> (#[trigger] final(wave_out)@[c])@ == (if mask@[c] {
                resized(old(wave_out)@[c]@, len as nat, fill)
            } else {
                old(wave_out)@[c]@
            }),
{
    let channels: usize = wave_out.len();
    let mut c: usize = 0;
    while c < channels
        invariant
            c <= channels,
            channels == wave_out@.len(),
            channels == mask@.len(),
            wave_out@.len() == old(wave_out)@.len(),
            forall|d: int|
                0 <= d < c ==> (#[trigger] wave_out@[d])@ == (if mask@[d] {
                    resized(old(wave_out)@[d]@, len as nat, fill)
                } else {
                    old(wave_out)@[d]@
                }),
            forall|d: int| c <= d < channels ==> (#[trigger] wave_out@[d])@ == old(wave_out)@[d]@,
        decreases channels - c,
    {
        if mask[c] {
            resize_lane(&mut wave_out[c], len, fill);
        }
        c += 1;
    }
}

/// Cuts every active channel of `wave_out` to at most `len` frames. Inactive
/// channels are not touched.
pub fn truncate_active<T>(wave_out: &mut [Vec<T>], mask: &[bool], len: usize)
    requires
        mask@.len() == old(wave_out)@.len(),
    ensures
        final(wave_out)@.len() == old(wave_out)@.len(),
        forall|c: int|
            0 <= c < old(wave_out)@.len() ==> (#[trigger] final(wave_out)@[c])@ == (if mask@[c] {
                truncated(old(wave_out)@[c]@, len as nat)
            } else {
                old(wave_out)@[c]@
            }),
{
    let channels: usize = wave_out.len();
    let mut c: usize = 0;
    while c < channels
        invariant
            c <= channels,
            channels == wave_out@.len(),
            channels == mask@.len(),
            wave_out@.len() == old(wave_out)@.len(),
            forall|d: int|
                0 <= d < c ==> (#[trigger] wave_out@[d])@ == (if mask@[d] {
                    truncated(old(wave_out)@[d]@, len as nat)
                } else {
                    old(wave_out)@[d]@
                }),
            forall|d: int| c <= d < channels ==> (#[trigger] wave_out@[d])@ == old(wave_out)@[d]@,
        decreases channels - c,
    {
        if mask[c] {
            wave_out[c].truncate(len);
        }
        c += 1;
    }
}

/// Brings one channel to `len` frames.
pub(crate) fn resize_lane<T: Copy>(lane: &mut Vec<T>, len: usize, fill: T)
    ensures
        final(lane)@ == resized(old(lane)@, len as nat, fill),
{
    if len <= lane.len() {
        lane.truncate(len);
    } else {
        let ghost start = lane@;
        let mut i: usize = lane.len();
        while i < len
            invariant
                start.len() <= i <= len,
                lane@.len() == i,
                start == old(lane)@,
                forall|j: int| 0 <= j < start.len() ==> lane@[j] == start[j],
                forall|j: int| start.len() <= j < i ==> lane@[j] == fill,
            decreases len - i,
        {
            lane.push(fill);
            i += 1;
        }
        assert(lane@ =~= resized(old(lane)@, len as nat, fill));
    }
}

/// The two steps together give an output the shape that a served call owes:
/// where the active channels are first resized to `reserved` frames and then
/// cut to the `produced <= reserved` frames that were written, every active
/// channel ends with exactly `produced` frames, the same number in all of
/// them, and every inactive channel with what it held.
pub proof fn lemma_shaping_serves<T>(
    before: Seq<Vec<T>>,
    between: Seq<Vec<T>>,
    after: Seq<Vec<T>>,
    mask: Seq<bool>,
    reserved: usize,
    produced: usize,
    fill: T,
)
    requires
        mask.len() == before.len(),
        between.len() == before.len(),
        after.len() == before.len(),
        produced <= reserved,
        forall|c: int|
            0 <= c < before.len() ==> (#[trigger] between[c])@ == (if mask[c] {
                resized(before[c]@, reserved as nat, fill)
            } else {
                before[c]@
            }),
        forall|c: int|
            0 <= c < before.len() ==> (#[trigger] after[c])@ == (if mask[c] {
                truncated(between[c]@, produced as nat)
            } else {
                between[c]@
            }),
    ensures
        crate::resampler::output_after(Ok::<(), crate::error::ResampleError>(()), before, after, mask, produced),
{
    assert forall|c: int| 0 <= c < after.len() implies if mask[c] {
        (#[trigger] after[c])@.len() == produced
    } else {
        after[c]@ == before[c]@
    } by {
        assert(between[c]@ == (if mask[c] {
            resized(before[c]@, reserved as nat, fill)
        } else {
            before[c]@
        }));
    }
}

} // verus!
