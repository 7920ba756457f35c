//! Points on the phase grid.
//!
//! The filter bank divides each input sample into `factor` phases. A point
//! in time is named by a pair `(index, subindex)`: `index` whole samples,
//! which may be negative, and `subindex` phases with `0 <= subindex < factor`.
//! Counted in phases from sample 0, the pair stands at `index * factor +
//! subindex`, and every place on the grid has exactly one such name.
//!
//! The functions here take a time that is already split into its whole part
//! and its fraction scaled by `factor` and made whole. Rounding a fraction
//! below one can give `factor` itself, so a subindex up to and including
//! `factor` is taken, and carried into the index.
use vstd::prelude::*;

verus! {

/// The place of a pair on the grid, in phases from sample 0.
pub open spec fn place(index: int, subindex: int, factor: int) -> int {
    index * factor + subindex
}

/// `point` is the name of the place `at`: it stands there, and its subindex
/// is a phase of the filter bank.
pub open spec fn names(point: (isize, isize), at: int, factor: int) -> bool {
    &&& 0 <= point.1 < factor
    &&& place(point.0 as int, point.1 as int, factor) == at
}

/// A place has one name only: its index is the place divided by `factor`,
/// rounded down, and its subindex is the remainder.
pub proof fn lemma_name_is_unique(point: (isize, isize), at: int, factor: int)
    requires
        factor > 0,
        names(point, at, factor),
    ensures
        point.0 == at / factor,
        point.1 == at % factor,
        forall|other: (isize, isize)| names(other, at, factor) ==> other == point,
{
    vstd::arithmetic::div_mod::lemma_fundamental_div_mod_converse(
        at,
        factor,
        point.0 as int,
        point.1 as int,
    );
    assert forall|other: (isize, isize)| names(other, at, factor) implies other == point by {
        vstd::arithmetic::div_mod::lemma_fundamental_div_mod_converse(
            at,
            factor,
            other.0 as int,
            other.1 as int,
        );
    }
}

/// The name of the place one phase after `point`.
fn next_point(point: (isize, isize), factor: isize) -> (r: (isize, isize))
    requires
        0 <= point.1 < factor,
        point.0 < isize::MAX,
    ensures
        names(r, place(point.0 as int, point.1 as int, factor as int) + 1, factor as int),
        r.0 == point.0 || r.0 == point.0 + 1,
{
    if point.1 == factor - 1 {
        assert((point.0 + 1) * factor == point.0 * factor + factor) by (nonlinear_arith);
        (point.0 + 1, 0)
    } else {
        (point.0, point.1 + 1)
    }
}

/// The name of the place one phase before `point`.
fn previous_point(point: (isize, isize), factor: isize) -> (r: (isize, isize))
    requires
        0 <= point.1 < factor,
        point.0 > isize::MIN,
    ensures
        names(r, place(point.0 as int, point.1 as int, factor as int) - 1, factor as int),
{
    if point.1 == 0 {
        assert((point.0 - 1) * factor == point.0 * factor - factor) by (nonlinear_arith);
        (point.0 - 1, factor - 1)
    } else {
        (point.0, point.1 - 1)
    }
}

/// The grid point of a time that was rounded to the nearest phase:
/// `(index, subindex)` itself, or `(index + 1, 0)` where the rounding reached
/// the next sample.
pub fn get_nearest_time(index: isize, subindex: isize, factor: isize) -> (r: (isize, isize))
    requires
        factor > 0,
        0 <= subindex <= factor,
        index < isize::MAX,
    ensures
        names(r, place(index as int, subindex as int, factor as int), factor as int),
        r.0 == index || r.0 == index + 1,
{
    if subindex >= factor {
        assert((index + 1) * factor == index * factor + factor) by (nonlinear_arith);
        (index + 1, subindex - factor)
    } else {
        (index, subindex)
    }
}

/// The two grid points that bracket a time: the one at or below it, given by
/// `(index, subindex)`, and the one a phase later.
pub fn get_nearest_times_2(index: isize, subindex: isize, factor: isize) -> (r: [(isize, isize); 2])
    requires
        factor > 0,
        0 <= subindex <= factor,
        index < isize::MAX - 1,
    ensures
        forall|k: int|
            0 <= k < 2 ==> names(
                #[trigger] r@[k],
                place(index as int, subindex as int, factor as int) + k,
                factor as int,
            ),
{
    let base = get_nearest_time(index, subindex, factor);
    let after = next_point(base, factor);
    [base, after]
}

/// The four grid points around a time, for a cubic through them: one phase
/// before the point at or below the time, that point itself, and the two
/// after it.
pub fn get_nearest_times_4(index: isize, subindex: isize, factor: isize) -> (r: [(isize, isize); 4])
    requires
        factor > 0,
        0 <= subindex <= factor,
        isize::MIN < index < isize::MAX - 2,
    ensures
        forall|k: int|
            0 <= k < 4 ==> names(
                #[trigger] r@[k],
                place(index as int, subindex as int, factor as int) + k - 1,
                factor as int,
            ),
{
    let base = get_nearest_time(index, subindex, factor);
    let before = previous_point(base, factor);
    let after = next_point(base, factor);
    let last = next_point(after, factor);
    [before, base, after, last]
}

} // verus!
