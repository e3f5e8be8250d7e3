//! Resampling a window of samples to a fixed number of display points.
//!
//! Point `i` of `count` lies at position `i * (len - 1) / (count - 1)` of a
//! source of `len` samples, so the first point is the first sample and the last
//! point the last sample. Positions are kept as exact fractions: a point either
//! falls on a sample or between two neighbours, with the weight of the upper
//! neighbour as a proper fraction.

use vstd::prelude::*;
use crate::sample::ZERO;

verus! {

/// One point of a resampled window.
#[derive(Clone, Copy, Debug, PartialEq, Eq, Structural)]
pub enum Tap {
    /// The point falls on a sample: its bit pattern.
    Exact(u32),
    /// The point falls between two neighbouring samples. Its value is
    /// `lower * (1 - w) + upper * w` with `w = num / den` and `0 < num < den`.
    Between { lower: u32, upper: u32, num: usize, den: usize },
}

/// The denominator of every position: one less than the number of points, or
/// one where there are fewer than two points.
pub open spec fn steps(count: int) -> int {
    if count > 1 {
        count - 1
    } else {
        1
    }
}

/// Point `i` of `count` over `source`. An empty source gives `+0.0` everywhere.
pub open spec fn tap_at(source: Seq<u32>, count: int, i: int) -> Tap {
    if source.len() == 0 {
        Tap::Exact(ZERO)
    } else {
        let position = i * (source.len() - 1);
        let index = position / steps(count);
        let num = position % steps(count);
        if num == 0 {
            Tap::Exact(source[index])
        } else {
            Tap::Between {
                lower: source[index],
                upper: source[index + 1],
                num: num as usize,
                den: steps(count) as usize,
            }
        }
    }
}

/// Where a point lies: the index of the sample at or below it is in the
/// source, and where the point is not on a sample the next index is too.
pub proof fn lemma_tap_in_bounds(len: int, count: int, i: int)
    requires
        0 < len,
        0 <= i < count,
    ensures
        0 <= (i * (len - 1)) / steps(count) < len,
        0 <= (i * (len - 1)) % steps(count) < steps(count),
        (i * (len - 1)) % steps(count) != 0 ==> (i * (len - 1)) / steps(count) + 1 < len,
{
    let den = steps(count);
    let position = i * (len - 1);
    assert(i <= den);
    assert(0 <= position <= den * (len - 1)) by (nonlinear_arith)
        requires
            0 <= i <= den,
            0 <= len - 1,
            position == i * (len - 1),
    ;
    let index = position / den;
    let num = position % den;
    assert(position == den * index + num && 0 <= num < den) by (nonlinear_arith)
        requires
            den > 0,
            index == position / den,
            num == position % den,
    ;
    assert(0 <= index && index <= len - 1 && (num != 0 ==> index < len - 1)) by (nonlinear_arith)
        requires
            den > 0,
            position == den * index + num,
            0 <= num < den,
            0 <= position <= den * (len - 1),
    ;
}

/// The first point is the first sample and, with two points or more, the last
/// point is the last sample.
pub proof fn lemma_endpoints(source: Seq<u32>, count: int)
    requires
        source.len() > 0,
        count >= 2,
    ensures
        tap_at(source, count, 0) == Tap::Exact(source[0]),
        tap_at(source, count, count - 1) == Tap::Exact(source[source.len() - 1]),
{
    let den = count - 1;
    let last = source.len() - 1;
    assert(0 * last == 0) by (nonlinear_arith);
    assert(0int / den == 0 && 0int % den == 0) by (nonlinear_arith)
        requires
            den > 0,
    ;
    assert((den * last) / den == last && (den * last) % den == 0) by (nonlinear_arith)
        requires
            den > 0,
            last >= 0,
    ;
}

/// Resamples `source` to `N` points.
pub fn resample_into<const N: usize>(source: &[u32]) -> (out: [Tap; N])
    ensures
        forall|i: int| 0 <= i < N ==> #[trigger] out[i] == tap_at(source@, N as int, i),
{
    let mut out: [Tap; N] = [Tap::Exact(ZERO); N];
    let len: usize = source.len();
    if len == 0 {
        return out;
    }
    let den: usize = if N > 1 {
        N - 1
    } else {
        1
    };
    let mut i: usize = 0;
    while i < N
        invariant
            i <= N,
            len == source@.len(),
            len > 0,
            den == steps(N as int),
            forall|j: int| 0 <= j < i ==> out[j] == tap_at(source@, N as int, j),
        decreases N - i,
    {
        proof {
            lemma_tap_in_bounds(len as int, N as int, i as int);
            assert(i * (len - 1) <= 0xFFFF_FFFF_FFFF_FFFF * 0xFFFF_FFFF_FFFF_FFFF)
                by (nonlinear_arith)
                requires
                    0 <= i <= 0xFFFF_FFFF_FFFF_FFFF,
                    0 <= len - 1 <= 0xFFFF_FFFF_FFFF_FFFF,
            ;
        }
        let position: u128 = (i as u128) * ((len - 1) as u128);
        let index: usize = (position / (den as u128)) as usize;
        let num: usize = (position % (den as u128)) as usize;
        let tap = if num == 0 {
            Tap::Exact(source[index])
        } else {
            Tap::Between { lower: source[index], upper: source[index + 1], num, den }
        };
        out[i] = tap;
        i = i + 1;
    }
    out
}

} // verus!
