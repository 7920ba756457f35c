//! The layout of the polyphase filter bank.
//!
//! A filter of `sinc_len * factor` taps, sampled `factor` times as finely as
//! the signal, is stored as `factor` rows of `sinc_len` taps, one row per
//! phase. The rows are in reverse order: tap `factor * p + n` of the long
//! filter is tap `p` of row `factor - 1 - n`. So the last row holds the taps
//! that fall on whole samples, and row 0 those furthest into a sample.
use vstd::prelude::*;

verus! {

/// `bank` is the filter `taps` laid out in `factor` rows of `sinc_len` taps.
pub open spec fn is_bank_of<T>(bank: Seq<Seq<T>>, taps: Seq<T>, sinc_len: nat, factor: nat) -> bool {
    &&& bank.len() == factor
    &&& forall|r: int| 0 <= r < factor ==> (#[trigger] bank[r]).len() == sinc_len
    &&& forall|n: int, p: int|
        0 <= n < factor && 0 <= p < sinc_len ==> #[trigger] bank[factor - 1 - n][p] == taps[factor
            * p + n]
}

/// The rows of a bank, as sequences.
pub open spec fn rows<T>(bank: Seq<Vec<T>>) -> Seq<Seq<T>> {
    Seq::new(bank.len(), |r: int| bank[r]@)
}

/// The length that a filter is given: the least multiple of 8 that is not
/// below `sinc_len`.
pub fn padded_sinc_len(sinc_len: usize) -> (r: usize)
    requires
        sinc_len <= usize::MAX - 7,
    ensures
        r % 8 == 0,
        sinc_len <= r < sinc_len + 8,
{
    8 * ((sinc_len + 7) / 8)
}

/// Lays a filter of `sinc_len * factor` taps out as a bank of `factor` rows.
pub fn make_bank<T: Copy>(taps: &[T], sinc_len: usize, factor: usize) -> (bank: Vec<Vec<T>>)
    requires
        taps.len() == sinc_len * factor,
    ensures
        is_bank_of(rows(bank@), taps@, sinc_len as nat, factor as nat),
{
    let mut bank: Vec<Vec<T>> = Vec::with_capacity(factor);
    let mut r: usize = 0;
    while r < factor
        invariant
            r <= factor,
            taps.len() == sinc_len * factor,
            bank@.len() == r,
            forall|q: int| 0 <= q < r ==> (#[trigger] bank@[q])@.len() == sinc_len,
            forall|q: int, p: int|
                0 <= q < r && 0 <= p < sinc_len ==> #[trigger] bank@[q]@[p] == taps@[factor * p + (
                factor - 1 - q)],
        decreases factor - r,
    {
        let n: usize = factor - 1 - r;
        let mut row: Vec<T> = Vec::with_capacity(sinc_len);
        let mut p: usize = 0;
        while p < sinc_len
            invariant
                p <= sinc_len,
                n < factor,
                taps.len() == sinc_len * factor,
                row@.len() == p,
                forall|k: int| 0 <= k < p ==> #[trigger] row@[k] == taps@[factor * k + n],
            decreases sinc_len - p,
        {
            assert(0 <= factor * p && factor * p + n < sinc_len * factor) by (nonlinear_arith)
                requires
                    0 <= p < sinc_len,
                    0 <= n < factor,
            ;
            row.push(taps[factor * p + n]);
            p += 1;
        }
        bank.push(row);
        r += 1;
    }
    proof {
        let b = rows(bank@);
        assert forall|n: int, p: int| 0 <= n < factor && 0 <= p < sinc_len implies #[trigger] b[factor
            - 1 - n][p] == taps@[factor * p + n] by {
            let q = factor - 1 - n;
            assert(b[q] == bank@[q]@);
            assert(bank@[q]@[p] == taps@[factor * p + (factor - 1 - q)]);
        }
        assert forall|r: int| 0 <= r < factor implies (#[trigger] b[r]).len() == sinc_len by {
            assert(b[r] == bank@[r]@);
        }
    }
    bank
}

} // verus!
