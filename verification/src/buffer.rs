//! The sliding history that turns a filter on a whole signal into a filter
//! on a stream of chunks.
//!
//! Each channel has one lane of samples. The first `carry` positions of a
//! lane, twice the filter's length, hold the end of what earlier calls
//! delivered; the `room` positions after them take the samples of the
//! current call. Before a call installs its samples, the lane slides: the
//! last `carry` samples of the old window move to the front. A filter that
//! reaches back from the first new sample thus always reads samples that
//! were really delivered, or the silence before the first of them.
use vstd::prelude::*;

verus! {

/// One lane of samples per channel, each `carry + room` long.
pub struct StreamBuffer<T> {
    lanes: Vec<Vec<T>>,
    carry: usize,
    room: usize,
}

/// The last `n` items of `s`.
pub open spec fn tail<T>(s: Seq<T>, n: nat) -> Seq<T>
    recommends
        n <= s.len(),
{
    s.subrange(s.len() - n, s.len() as int)
}

/// A lane after sliding: the `carry` samples that ended the old window of
/// `carry + filled` samples stand in front, the rest is as it was.
pub open spec fn slid<T>(lane: Seq<T>, carry: nat, filled: nat) -> Seq<T>
    recommends
        carry + filled <= lane.len(),
{
    lane.subrange(filled as int, (filled + carry) as int) + lane.subrange(
        carry as int,
        lane.len() as int,
    )
}

/// A lane after `fresh` was installed behind the carry region: only the
/// positions that `fresh` covers have changed.
pub open spec fn installed<T>(lane: Seq<T>, carry: nat, fresh: Seq<T>) -> Seq<T>
    recommends
        carry + fresh.len() <= lane.len(),
{
    lane.subrange(0, carry as int) + fresh + lane.subrange(
        (carry + fresh.len()) as int,
        lane.len() as int,
    )
}

impl<T: Copy> StreamBuffer<T> {
    /// The samples of each lane.
    pub closed spec fn view(&self) -> Seq<Seq<T>> {
        Seq::new(self.lanes@.len(), |c: int| self.lanes@[c]@)
    }

    /// The length of the carry region.
    pub closed spec fn carry(&self) -> nat {
        self.carry as nat
    }

    /// The length of the region for new samples.
    pub closed spec fn room(&self) -> nat {
        self.room as nat
    }

    /// Every lane is `carry + room` long, and that length is one a vector
    /// can have.
    pub open spec fn wf(&self) -> bool {
        &&& self.carry() + self.room() <= usize::MAX
        &&& self@.len() <= usize::MAX
        &&& forall|c: int| 0 <= c < self@.len() ==> (#[trigger] self@[c]).len() == self.carry() + self.room()
    }

    /// A buffer of `channels` lanes for a filter of `sinc_len` taps, with
    /// room for `room` new samples a call, filled with `zero`.
    pub fn new(channels: usize, sinc_len: usize, room: usize, zero: T) -> (r: Self)
        requires
            2 * sinc_len + room <= usize::MAX,
        ensures
            r.wf(),
            r@.len() == channels,
            r.carry() == 2 * sinc_len,
            r.room() == room,
            forall|c: int, i: int|
                0 <= c < channels && 0 <= i < 2 * sinc_len + room ==> (#[trigger] r@[c][i]) == zero,
    {
        let len: usize = 2 * sinc_len + room;
        let mut lanes: Vec<Vec<T>> = Vec::with_capacity(channels);
        let mut c: usize = 0;
        while c < channels
            invariant
                c <= channels,
                lanes@.len() == c,
                forall|d: int| 0 <= d < c ==> (#[trigger] lanes@[d])@.len() == len,
                forall|d: int, i: int| 0 <= d < c && 0 <= i < len ==> (#[trigger] lanes@[d]@[i]) == zero,
            decreases channels - c,
        {
            let lane = filled_lane(len, zero);
            lanes.push(lane);
            c += 1;
        }
        StreamBuffer { lanes, carry: 2 * sinc_len, room }
    }

    /// The number of channels.
    pub fn channels(&self) -> (r: usize)
        ensures
            r == self@.len(),
    {
        self.lanes.len()
    }

    /// The length of the carry region: twice the filter's length.
    pub fn carry_len(&self) -> (r: usize)
        ensures
            r == self.carry(),
    {
        self.carry
    }

    /// The number of new samples that a lane has room for.
    pub fn room_len(&self) -> (r: usize)
        ensures
            r == self.room(),
    {
        self.room
    }

    /// The lane of channel `c`.
    pub fn channel(&self, c: usize) -> (r: &[T])
        requires
            c < self@.len(),
        ensures
            r@ == self@[c as int],
    {
        self.lanes[c].as_slice()
    }

    /// Where in a lane a filter of `taps` taps starts that is anchored at
    /// `index`, counted from the first new sample: at `carry + index`. A
    /// negative `index` reaches into the carry region. `None` where any of
    /// the taps would fall outside the lane.
    pub fn tap_start(&self, index: isize, taps: usize) -> (r: Option<usize>)
        requires
            self.wf(),
        ensures
            match r {
                Some(start) => start == self.carry() + index && start + taps <= self.carry()
                    + self.room(),
                None => self.carry() + index < 0 || self.carry() + index + taps > self.carry()
                    + self.room(),
            },
    {
        let len: usize = self.carry + self.room;
        if index < 0 {
            let back: usize = (-(index + 1)) as usize;
            if back >= self.carry {
                return None;
            }
            let start: usize = self.carry - 1 - back;
            if taps > len - start {
                return None;
            }
            Some(start)
        } else {
            let ahead: usize = index as usize;
            if ahead > self.room {
                return None;
            }
            let start: usize = self.carry + ahead;
            if taps > len - start {
                return None;
            }
            Some(start)
        }
    }

    /// Gives every lane room for `room` new samples. A lane that grows is
    /// continued with `zero`; one that shrinks loses its end.
    pub fn set_room(&mut self, room: usize, zero: T)
        requires
            old(self).wf(),
            old(self).carry() + room <= usize::MAX,
        ensures
            final(self).wf(),
            final(self).carry() == old(self).carry(),
            final(self).room() == room,
            final(self)@.len() == old(self)@.len(),
            forall|c: int|
                0 <= c < old(self)@.len() ==> (#[trigger] final(self)@[c])
                    == crate::output::resized(old(self)@[c], (old(self).carry() + room) as nat, zero),
    {
        let channels: usize = self.lanes.len();
        let len: usize = self.carry + room;
        assert forall|d: int| 0 <= d < channels implies (#[trigger] self.lanes@[d])@ == old(
            self,
        )@[d] by {}
        let mut c: usize = 0;
        while c < channels
            invariant
                c <= channels,
                channels == self.lanes@.len(),
                self.carry == old(self).carry,
                len == self.carry + room,
                self.lanes@.len() == old(self).lanes@.len(),
                forall|d: int|
                    0 <= d < c ==> (#[trigger] self.lanes@[d])@ == crate::output::resized(
                        old(self).lanes@[d]@,
                        len as nat,
                        zero,
                    ),
                forall|d: int|
                    c <= d < channels ==> (#[trigger] self.lanes@[d])@ == old(self).lanes@[d]@,
            decreases channels - c,
        {
            crate::output::resize_lane(&mut self.lanes[c], len, zero);
            c += 1;
        }
        self.room = room;
        assert forall|d: int| 0 <= d < old(self)@.len() implies (#[trigger] self@[d])
            == crate::output::resized(old(self)@[d], (old(self).carry() + room) as nat, zero) by {
            assert(self@[d] == self.lanes@[d]@);
        }
    }

    /// Slides every lane: the last `carry` samples of the window that held
    /// `filled` new samples become the carry region. The positions behind
    /// the carry region keep what they held.
    pub fn slide(&mut self, filled: usize)
        requires
            old(self).wf(),
            filled <= old(self).room(),
        ensures
            final(self).wf(),
            final(self).carry() == old(self).carry(),
            final(self).room() == old(self).room(),
            final(self)@.len() == old(self)@.len(),
            forall|c: int|
                0 <= c < old(self)@.len() ==> (#[trigger] final(self)@[c]) == slid(
                    old(self)@[c],
                    old(self).carry(),
                    filled as nat,
                ),
    {
        let channels: usize = self.lanes.len();
        let carry: usize = self.carry;
        assert forall|d: int| 0 <= d < channels implies (#[trigger] self.lanes@[d])@.len() == carry
            + self.room by {
            assert(self@[d] == self.lanes@[d]@);
        }
        let mut c: usize = 0;
        while c < channels
            invariant
                c <= channels,
                channels == self.lanes@.len(),
                carry == self.carry,
                self.carry == old(self).carry,
                self.room == old(self).room,
                filled <= self.room,
                self.carry + self.room <= usize::MAX,
                self.lanes@.len() == old(self).lanes@.len(),
                forall|d: int|
                    0 <= d < channels ==> (#[trigger] self.lanes@[d])@.len() == carry + self.room,
                forall|d: int|
                    0 <= d < c ==> (#[trigger] self.lanes@[d])@ == slid(
                        old(self).lanes@[d]@,
                        carry as nat,
                        filled as nat,
                    ),
                forall|d: int|
                    c <= d < channels ==> (#[trigger] self.lanes@[d])@ == old(self).lanes@[d]@,
            decreases channels - c,
        {
            slide_lane(&mut self.lanes[c], carry, filled);
            c += 1;
        }
        assert forall|d: int| 0 <= d < old(self)@.len() implies (#[trigger] self@[d]) == slid(
            old(self)@[d],
            old(self).carry(),
            filled as nat,
        ) by {
            assert(self@[d] == self.lanes@[d]@);
        }
    }

    /// Installs the samples of one call: in each active channel, `wave_in`
    /// is written behind the carry region. Inactive channels, and every
    /// position that the new samples do not cover, keep what they held.
    pub fn install(&mut self, wave_in: &[Vec<T>], mask: &[bool])
        requires
            old(self).wf(),
            wave_in@.len() == old(self)@.len(),
            mask@.len() == old(self)@.len(),
            forall|c: int|
                0 <= c < wave_in@.len() && mask@[c] ==> (#[trigger] wave_in@[c])@.len() <= old(
                    self,
                ).room(),
        ensures
            final(self).wf(),
            final(self).carry() == old(self).carry(),
            final(self).room() == old(self).room(),
            final(self)@.len() == old(self)@.len(),
            forall|c: int|
                0 <= c < old(self)@.len() ==> (#[trigger] final(self)@[c]) == (if mask@[c] {
                    installed(old(self)@[c], old(self).carry(), wave_in@[c]@)
                } else {
                    old(self)@[c]
                }),
    {
        let channels: usize = self.lanes.len();
        let carry: usize = self.carry;
        assert forall|d: int| 0 <= d < channels implies (#[trigger] self.lanes@[d])@.len() == carry
            + self.room by {
            assert(self@[d] == self.lanes@[d]@);
        }
        let mut c: usize = 0;
        while c < channels
            invariant
                c <= channels,
                channels == self.lanes@.len(),
                channels == wave_in@.len(),
                channels == mask@.len(),
                carry == self.carry,
                self.carry == old(self).carry,
                self.room == old(self).room,
                self.carry + self.room <= usize::MAX,
                self.lanes@.len() == old(self).lanes@.len(),
                forall|d: int|
                    0 <= d < channels && mask@[d] ==> (#[trigger] wave_in@[d])@.len() <= self.room,
                forall|d: int|
                    0 <= d < channels ==> (#[trigger] self.lanes@[d])@.len() == carry + self.room,
                forall|d: int|
                    0 <= d < c ==> (#[trigger] self.lanes@[d])@ == (if mask@[d] {
                        installed(old(self).lanes@[d]@, carry as nat, wave_in@[d]@)
                    } else {
                        old(self).lanes@[d]@
                    }),
                forall|d: int|
                    c <= d < channels ==> (#[trigger] self.lanes@[d])@ == old(self).lanes@[d]@,
            decreases channels - c,
        {
            if mask[c] {
                install_lane(&mut self.lanes[c], carry, &wave_in[c]);
            }
            c += 1;
        }
        assert forall|d: int| 0 <= d < old(self)@.len() implies (#[trigger] self@[d]) == (if mask@[d] {
            installed(old(self)@[d], old(self).carry(), wave_in@[d]@)
        } else {
            old(self)@[d]
        }) by {
            assert(self@[d] == self.lanes@[d]@);
        }
    }
}

/// A lane of `len` samples, each of them `zero`.
fn filled_lane<T: Copy>(len: usize, zero: T) -> (lane: Vec<T>)
    ensures
        lane@.len() == len,
        forall|i: int| 0 <= i < len ==> lane@[i] == zero,
{
    let mut lane: Vec<T> = Vec::with_capacity(len);
    let mut i: usize = 0;
    while i < len
        invariant
            i <= len,
            lane@.len() == i,
            forall|j: int| 0 <= j < i ==> lane@[j] == zero,
        decreases len - i,
    {
        lane.push(zero);
        i += 1;
    }
    lane
}

/// Moves the `carry` samples that start at `filled` to the front of `lane`.
fn slide_lane<T: Copy>(lane: &mut Vec<T>, carry: usize, filled: usize)
    requires
        carry + filled <= old(lane)@.len(),
    ensures
        final(lane)@ == slid(old(lane)@, carry as nat, filled as nat),
{
    let mut i: usize = 0;
    while i < carry
        invariant
            i <= carry,
            carry + filled <= lane.len(),
            lane@.len() == old(lane)@.len(),
            forall|j: int| 0 <= j < i ==> lane@[j] == old(lane)@[filled + j],
            forall|j: int| i <= j < lane@.len() ==> lane@[j] == old(lane)@[j],
        decreases carry - i,
    {
        let sample = lane[filled + i];
        lane[i] = sample;
        i += 1;
    }
    assert(lane@ =~= slid(old(lane)@, carry as nat, filled as nat));
}

/// Writes `fresh` into `lane` from position `carry` on.
fn install_lane<T: Copy>(lane: &mut Vec<T>, carry: usize, fresh: &Vec<T>)
    requires
        carry + fresh@.len() <= old(lane)@.len(),
    ensures
        final(lane)@ == installed(old(lane)@, carry as nat, fresh@),
{
    let n: usize = fresh.len();
    let mut i: usize = 0;
    while i < n
        invariant
            i <= n,
            n == fresh@.len(),
            carry + n <= lane.len(),
            lane@.len() == old(lane)@.len(),
            forall|j: int| 0 <= j < i ==> lane@[carry + j] == fresh@[j],
            forall|j: int|
                0 <= j < lane@.len() && !(carry <= j < carry + i) ==> lane@[j] == old(lane)@[j],
        decreases n - i,
    {
        lane[carry + i] = fresh[i];
        i += 1;
    }
    assert(lane@ =~= installed(old(lane)@, carry as nat, fresh@));
}

/// Sliding and installing keep the window at the end of the stream. Where
/// the window of `carry + filled` samples is the end of all that was
/// delivered so far, sliding it and installing `fresh` gives a window of
/// `carry + fresh.len()` samples that is the end of the stream with `fresh`
/// appended: the carry region holds the last `carry` samples from before.
pub proof fn lemma_window_follows_stream<T>(
    stream: Seq<T>,
    lane: Seq<T>,
    carry: nat,
    filled: nat,
    fresh: Seq<T>,
)
    requires
        carry + filled <= lane.len(),
        carry + fresh.len() <= lane.len(),
        carry + filled <= stream.len(),
        lane.subrange(0, (carry + filled) as int) == tail(stream, carry + filled),
    ensures
        installed(slid(lane, carry, filled), carry, fresh).subrange(
            0,
            (carry + fresh.len()) as int,
        ) == tail(stream + fresh, carry + fresh.len()),
        slid(lane, carry, filled).subrange(0, carry as int) == tail(stream, carry),
{
    let window = lane.subrange(0, (carry + filled) as int);
    let moved = slid(lane, carry, filled);
    assert forall|i: int| 0 <= i < carry implies moved[i] == tail(stream, carry)[i] by {
        assert(moved[i] == lane[filled + i]);
        assert(window[filled + i] == lane[filled + i]);
        assert(tail(stream, carry + filled)[filled + i] == stream[stream.len() - carry + i]);
    }
    assert(moved.subrange(0, carry as int) =~= tail(stream, carry));
    let after = installed(moved, carry, fresh).subrange(0, (carry + fresh.len()) as int);
    let goal = tail(stream + fresh, carry + fresh.len());
    assert forall|i: int| 0 <= i < carry + fresh.len() implies after[i] == goal[i] by {
        if i < carry {
            assert(after[i] == moved[i]);
            assert(moved.subrange(0, carry as int)[i] == moved[i]);
            assert(goal[i] == stream[stream.len() - carry + i]);
        } else {
            assert(after[i] == fresh[i - carry]);
        }
    }
    assert(after =~= goal);
}

} // verus!
