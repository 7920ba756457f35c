//! The whole-number bookkeeping of the two drivers: where a call with a
//! fixed input stops, and how much input a call with a fixed output asks for
//! next.
use vstd::prelude::*;

verus! {

/// The index at which a call with `chunk_size` new samples stops producing:
/// `chunk_size - (sinc_len + 1)`, a filter's length and one sample before the
/// end of the new samples.
pub fn fixed_in_end_index(chunk_size: usize, sinc_len: usize) -> (r: isize)
    requires
        chunk_size <= isize::MAX,
        sinc_len < isize::MAX,
    ensures
        r == chunk_size - (sinc_len + 1),
{
    let chunk: isize = chunk_size as isize;
    let len: isize = sinc_len as isize;
    chunk - (len + 1)
}

/// The room that a buffer is given for new samples where the call's need
/// varies: one and a half times what is needed at the start, rounded down.
pub fn fixed_out_room(needed: usize) -> (r: usize)
    requires
        3 * needed <= usize::MAX,
    ensures
        r == (3 * needed) / 2,
{
    3 * needed / 2
}

/// What the next call needs, after one that needed `needed` samples and
/// left the cursor, rounded to a whole sample, at `cursor`: so many more as
/// the cursor has run past the end, and a filter's length on top. `None`
/// where that is no number of samples: below zero, or above what a length
/// can be.
pub fn fixed_out_next_needed(needed: usize, cursor: isize, sinc_len: usize) -> (r: Option<usize>)
    ensures
        match r {
            Some(next) => next == needed + cursor + sinc_len,
            None => needed + cursor + sinc_len < 0 || needed + cursor + sinc_len > usize::MAX,
        },
{
    if cursor < 0 {
        let back: usize = (-(cursor + 1)) as usize;
        // The cursor stands `back + 1` samples before the end.
        if sinc_len > back {
            let rest: usize = sinc_len - 1 - back;
            needed.checked_add(rest)
        } else {
            let owed: usize = back - sinc_len;
            if needed > owed {
                Some(needed - 1 - owed)
            } else {
                None
            }
        }
    } else {
        let ahead: usize = cursor as usize;
        match needed.checked_add(ahead) {
            Some(sum) => sum.checked_add(sinc_len),
            None => None,
        }
    }
}

} // verus!
