//! Bin geometry of the gap-equivalence overlay: the media-absolute block grid the scan path
//! measures on, selected by centre containment, and the plain left-to-right tiling used for donor
//! occupancy.

use vstd::prelude::*;
use core::ops::Range;

verus! {

/// Does block `k` (frames `[k*bf, (k+1)*bf)`) have its centre inside `[lo, hi)`? Compared at
/// doubled precision so an odd `bf` keeps its half frame.
pub open spec fn block_centre_in(k: int, bf: int, lo: int, hi: int) -> bool {
    2 * lo <= 2 * k * bf + bf && 2 * k * bf + bf < 2 * hi
}

/// First frame of grid block `k`.
pub open spec fn block_start(k: int, bf: int) -> int {
    k * bf
}

/// The effective bin width: at least one frame.
pub open spec fn effective_bin(bin_frames: usize) -> int {
    if bin_frames == 0 {
        1
    } else {
        bin_frames as int
    }
}

/// Block `k` of the grid, clamped to the end of the track.
pub open spec fn grid_block(k: int, bf: int, total_frames: int) -> (int, int) {
    (k * bf, if (k + 1) * bf <= total_frames {
        (k + 1) * bf
    } else {
        total_frames
    })
}

proof fn lemma_ceil_div(d: int, m: int)
    requires
        d > 0,
        m > 0,
    ensures
        ((d + m - 1) / m) * m >= d,
        ((d + m - 1) / m - 1) * m < d,
        (d + m - 1) / m >= 1,
{
    let q = (d + m - 1) / m;
    let r = (d + m - 1) % m;
    assert(d + m - 1 == q * m + r && 0 <= r < m) by (nonlinear_arith)
        requires
            m > 0,
            q == (d + m - 1) / m,
            r == (d + m - 1) % m,
    ;
    assert(q * m >= d) by (nonlinear_arith)
        requires
            d + m - 1 == q * m + r,
            0 <= r < m,
    ;
    assert((q - 1) * m < d) by (nonlinear_arith)
        requires
            d + m - 1 == q * m + r,
            0 <= r < m,
            m > 0,
    ;
    assert(q >= 1) by (nonlinear_arith)
        requires
            q * m >= d,
            d > 0,
            m > 0,
    ;
}

proof fn lemma_mul_mono(a: int, b: int, c: int)
    requires
        a <= b,
        c >= 0,
    ensures
        a * c <= b * c,
{
    assert(a * c <= b * c) by (nonlinear_arith)
        requires
            a <= b,
            c >= 0,
    ;
}

/// The smallest block index whose centre is at or after `bound`.
fn first_centred_at_or_after(bound: usize, bf: usize) -> (k: usize)
    requires
        bf >= 1,
        2 * bound + 2 * bf <= usize::MAX,
    ensures
        2 * k * bf + bf >= 2 * bound,
        k == 0 || 2 * (k - 1) * bf + bf < 2 * bound,
        k * bf <= bound + bf,
{
    let two_b = 2 * bound;
    if two_b <= bf {
        0
    } else {
        let d = two_b - bf;
        let m = 2 * bf;
        let q = (d + m - 1) / m;
        proof {
            lemma_ceil_div(d as int, m as int);
            assert(2 * q * bf == q * m) by (nonlinear_arith)
                requires
                    m == 2 * bf,
            ;
            assert(2 * (q - 1) * bf == (q - 1) * m) by (nonlinear_arith)
                requires
                    m == 2 * bf,
            ;
            assert(q * bf <= bound + bf) by (nonlinear_arith)
                requires
                    (q - 1) * m < d,
                    m == 2 * bf,
                    d == 2 * bound - bf,
                    bf >= 1,
            ;
        }
        q
    }
}

/// The **media-absolute** block grid the scan path measures on: whole bins of `bin_frames`
/// (at least one frame), phase-locked to the start of the track, of which the ones whose
/// **centre** falls in `[gap.start, gap.end)` are kept, in order, each clamped to `total_frames`.
/// A block that starts at or past the end of the track is dropped; there is never a trailing
/// partial bin inside the gap.
pub fn block_grid_bins(gap: Range<usize>, bin_frames: usize, total_frames: usize) -> (r: Vec<
    Range<usize>,
>)
    requires
        2 * gap.start + 2 * effective_bin(bin_frames) <= usize::MAX,
        2 * gap.end + 2 * effective_bin(bin_frames) <= usize::MAX,
    ensures
        forall|i: int|
            #![trigger r@[i]]
            0 <= i < r@.len() ==> {
                let bf = effective_bin(bin_frames);
                let k = r@[i].start as int / bf;
                &&& r@[i].start == k * bf
                &&& block_centre_in(k, bf, gap.start as int, gap.end as int)
                &&& r@[i].start < total_frames
                &&& (r@[i].start as int, r@[i].end as int) == grid_block(k, bf, total_frames as int)
            },
        forall|i: int, j: int| 0 <= i < j < r@.len() ==> r@[i].start < r@[j].start,
        forall|k: int|
            #![trigger block_start(k, effective_bin(bin_frames))]
            k >= 0 && block_centre_in(k, effective_bin(bin_frames), gap.start as int, gap.end as int)
                && block_start(k, effective_bin(bin_frames)) < total_frames ==> exists|i: int|
                0 <= i < r@.len() && r@[i].start == block_start(k, effective_bin(bin_frames)),
{
    let bf: usize = if bin_frames == 0 {
        1
    } else {
        bin_frames
    };
    let ghost bfi = bf as int;
    let k_lo = first_centred_at_or_after(gap.start, bf);
    let k_hi = first_centred_at_or_after(gap.end, bf);
    let mut r: Vec<Range<usize>> = Vec::new();
    let mut k = k_lo;
    while k < k_hi
        invariant
            bfi == bf as int,
            bf >= 1,
            bfi == effective_bin(bin_frames),
            2 * gap.end + 2 * bf <= usize::MAX,
            2 * k_lo * bf + bf >= 2 * gap.start,
            k_lo == 0 || 2 * (k_lo - 1) * bf + bf < 2 * gap.start,
            2 * k_hi * bf + bf >= 2 * gap.end,
            k_hi == 0 || 2 * (k_hi - 1) * bf + bf < 2 * gap.end,
            k_lo <= k,
            k <= k_hi || k == k_lo,
            forall|i: int|
                #![trigger r@[i]]
                0 <= i < r@.len() ==> {
                    let kk = r@[i].start as int / bfi;
                    &&& r@[i].start == kk * bfi
                    &&& k_lo <= kk < k
                    &&& r@[i].start < total_frames
                    &&& (r@[i].start as int, r@[i].end as int) == grid_block(kk, bfi, total_frames as int)
                },
            forall|i: int, j: int| 0 <= i < j < r@.len() ==> r@[i].start < r@[j].start,
            forall|kk: int|
                #![trigger block_start(kk, bfi)]
                k_lo <= kk < k && block_start(kk, bfi) < total_frames ==> exists|i: int|
                    0 <= i < r@.len() && r@[i].start == block_start(kk, bfi),
        decreases k_hi - k,
    {
        proof {
            lemma_mul_mono(k as int, (k_hi - 1) as int, bf as int);
            assert(2 * (k_hi - 1) * bf == 2 * ((k_hi - 1) * bf)) by (nonlinear_arith);
            assert((k + 1) * bf == k * bf + bf) by (nonlinear_arith);
        }
        let start = k * bf;
        let block_end = (k + 1) * bf;
        let end = if block_end <= total_frames {
            block_end
        } else {
            total_frames
        };
        let ghost old_r = r@;
        if start < end {
            proof {
                assert(start as int / bfi == k) by (nonlinear_arith)
                    requires
                        start == k * bfi,
                        bfi >= 1,
                ;
                assert forall|i: int| 0 <= i < old_r.len() implies old_r[i].start < start by {
                    let kk = old_r[i].start as int / bfi;
                    lemma_mul_mono(kk + 1, k as int, bfi);
                    assert((kk + 1) * bfi == kk * bfi + bfi) by (nonlinear_arith);
                }
            }
            r.push(start..end);
            proof {
                assert forall|kk: int|
                    #![trigger block_start(kk, bfi)]
                    k_lo <= kk < k + 1 && block_start(kk, bfi) < total_frames implies exists|i: int|
                    0 <= i < r@.len() && r@[i].start == block_start(kk, bfi) by {
                    if kk < k {
                        let i = choose|i: int| 0 <= i < old_r.len() && old_r[i].start == block_start(kk, bfi);
                        assert(r@[i] == old_r[i]);
                    } else {
                        assert(r@[old_r.len() as int].start == block_start(kk, bfi));
                    }
                }
            }
        } else {
            proof {
                assert forall|kk: int|
                    #![trigger block_start(kk, bfi)]
                    k_lo <= kk < k + 1 && block_start(kk, bfi) < total_frames implies exists|i: int|
                    0 <= i < r@.len() && r@[i].start == block_start(kk, bfi) by {
                    if kk == k {
                        assert(start >= total_frames);
                    } else {
                        let i = choose|i: int| 0 <= i < old_r.len() && old_r[i].start == block_start(kk, bfi);
                        assert(r@[i] == old_r[i]);
                    }
                }
            }
        }
        k = k + 1;
    }
    proof {
        assert forall|i: int| #![trigger r@[i]] 0 <= i < r@.len() implies ({
            let kk = r@[i].start as int / bfi;
            block_centre_in(kk, bfi, gap.start as int, gap.end as int)
        }) by {
            let kk = r@[i].start as int / bfi;
            lemma_mul_mono(k_lo as int, kk, bfi);
            lemma_mul_mono(kk, (k_hi - 1) as int, bfi);
            assert(2 * kk * bfi == 2 * (kk * bfi)) by (nonlinear_arith);
            assert(2 * k_lo * bfi == 2 * (k_lo * bfi)) by (nonlinear_arith);
            assert(2 * (k_hi - 1) * bfi == 2 * ((k_hi - 1) * bfi)) by (nonlinear_arith);
        }
        assert forall|kk: int|
            #![trigger block_start(kk, bfi)]
            kk >= 0 && block_centre_in(kk, bfi, gap.start as int, gap.end as int)
                && block_start(kk, bfi) < total_frames implies exists|i: int|
            0 <= i < r@.len() && r@[i].start == block_start(kk, bfi) by {
            assert(2 * kk * bfi == 2 * (kk * bfi)) by (nonlinear_arith);
            if kk < k_lo {
                lemma_mul_mono(kk, (k_lo - 1) as int, bfi);
                assert(2 * (k_lo - 1) * bfi == 2 * ((k_lo - 1) * bfi)) by (nonlinear_arith);
            }
            if kk >= k_hi {
                lemma_mul_mono(k_hi as int, kk, bfi);
                assert(2 * k_hi * bfi == 2 * (k_hi * bfi)) by (nonlinear_arith);
            }
        }
    }
    r
}


/// Consecutive bins of `bin_frames` (at least one frame) tiling `[span.start, min(span.end,
/// total_frames))` from its start; the last bin may be shorter. Empty when the clamped span is.
pub fn tile_bins(span: Range<usize>, bin_frames: usize, total_frames: usize) -> (r: Vec<Range<usize>>)
    requires
        span.end + effective_bin(bin_frames) <= usize::MAX,
    ensures
        ({
            let end = if span.end <= total_frames {
                span.end as int
            } else {
                total_frames as int
            };
            let bf = effective_bin(bin_frames);
            &&& (r@.len() == 0 <==> span.start >= end)
            &&& r@.len() > 0 ==> r@[0].start == span.start && r@[r@.len() - 1].end == end
            &&& forall|i: int|
                #![trigger r@[i]]
                0 <= i < r@.len() ==> r@[i].start < r@[i].end && r@[i].end - r@[i].start <= bf
                    && (i < r@.len() - 1 ==> r@[i].end - r@[i].start == bf)
            &&& forall|i: int|
                #![trigger r@[i + 1]]
                0 <= i < r@.len() - 1 ==> r@[i].end == r@[i + 1].start
        }),
{
    let bf: usize = if bin_frames == 0 {
        1
    } else {
        bin_frames
    };
    let end = if span.end <= total_frames {
        span.end
    } else {
        total_frames
    };
    let mut r: Vec<Range<usize>> = Vec::new();
    let mut f = span.start;
    while f < end
        invariant
            bf as int == effective_bin(bin_frames),
            end <= span.end,
            span.end + bf <= usize::MAX,
            r@.len() == 0 ==> f == span.start,
            r@.len() > 0 ==> r@[0].start == span.start && r@[r@.len() - 1].end == f,
            r@.len() > 0 ==> f <= end,
            r@.len() > 0 ==> span.start < end,
            forall|i: int|
                #![trigger r@[i]]
                0 <= i < r@.len() ==> r@[i].start < r@[i].end && r@[i].end - r@[i].start <= bf
                    && (i < r@.len() - 1 ==> r@[i].end - r@[i].start == bf),
            forall|i: int| #![trigger r@[i + 1]] 0 <= i < r@.len() - 1 ==> r@[i].end == r@[i + 1].start,
            r@.len() > 0 ==> (r@[r@.len() - 1].end - r@[r@.len() - 1].start == bf || f == end),
        decreases end - f,
    {
        let bin_end = if f + bf <= end {
            f + bf
        } else {
            end
        };
        let ghost old_r = r@;
        r.push(f..bin_end);
        proof {
            assert forall|i: int| #![trigger r@[i]] 0 <= i < r@.len() implies r@[i].start < r@[i].end
                && r@[i].end - r@[i].start <= bf && (i < r@.len() - 1 ==> r@[i].end - r@[i].start
                == bf) by {
                if i < old_r.len() {
                    assert(r@[i] == old_r[i]);
                }
            }
            assert forall|i: int| #![trigger r@[i + 1]] 0 <= i < r@.len() - 1 implies r@[i].end
                == r@[i + 1].start by {
                if i + 1 < old_r.len() {
                    assert(r@[i] == old_r[i]);
                    assert(r@[i + 1] == old_r[i + 1]);
                } else {
                    assert(r@[i] == old_r[i]);
                }
            }
        }
        f = bin_end;
    }
    r
}

} // verus!
