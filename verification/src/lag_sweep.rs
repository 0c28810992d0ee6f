//! The integer geometry of a per-shoulder lag correlation sweep: the search knobs in whole
//! milliseconds, and which slices of the A border and the B haystack one shoulder compares.

use vstd::prelude::*;
use crate::schema::LagChannel;

verus! {

/// Search knobs for a per-shoulder lag correlation sweep.
#[derive(Debug, Clone, Copy, PartialEq, Eq, Structural)]
pub struct LagSweepParams {
    /// Template length in samples.
    pub window: usize,
    /// Largest lag searched either way, in samples (a negative value searches none).
    pub max_lag: i64,
    pub sample_rate: u32,
    pub channel: LagChannel,
}

/// `samples` expressed in whole milliseconds at `sample_rate` (a zero rate counts as 1 Hz),
/// rounded down and saturating at `u32::MAX`.
pub open spec fn whole_ms(samples: nat, sample_rate: u32) -> u32 {
    let rate: nat = if sample_rate == 0 { 1 } else { sample_rate as nat };
    let ms = samples * 1000 / rate;
    if ms > u32::MAX {
        u32::MAX
    } else {
        ms as u32
    }
}

/// The searched lag magnitude in samples: `max_lag`, or 0 when it is negative.
pub open spec fn lag_reach(max_lag: i64) -> usize {
    (if max_lag > 0 { max_lag } else { 0 }) as usize
}

/// `samples` in whole milliseconds at `sample_rate`, rounded down, saturating.
fn ms_of(samples: u64, sample_rate: u32) -> (r: u32)
    ensures
        r == whole_ms(samples as nat, sample_rate),
{
    let rate: u128 = if sample_rate == 0 { 1 } else { sample_rate as u128 };
    let scaled: u128 = samples as u128 * 1000;
    let ms = scaled / rate;
    if ms > u32::MAX as u128 {
        u32::MAX
    } else {
        ms as u32
    }
}

impl LagSweepParams {
    /// The template window in whole milliseconds.
    pub fn win_ms(self) -> (r: u32)
        ensures
            r == whole_ms(self.window as nat, self.sample_rate),
    {
        ms_of(self.window as u64, self.sample_rate)
    }

    /// The searched lag range in whole milliseconds.
    pub fn max_lag_ms(self) -> (r: u32)
        ensures
            r == whole_ms(lag_reach(self.max_lag) as nat, self.sample_rate),
    {
        ms_of(self.ml() as u64, self.sample_rate)
    }

    /// The searched lag magnitude in samples.
    pub fn ml(self) -> (r: usize)
        ensures
            r == lag_reach(self.max_lag),
    {
        let m: i64 = if self.max_lag > 0 { self.max_lag } else { 0 };
        m as usize
    }
}

/// The slices one shoulder of a lag sweep compares: `a_border[a_start..a_end]` (the template)
/// against `b_signal[b_lo..b_hi]` (the haystack around the anchor).
#[derive(Debug, Clone, Copy, PartialEq, Eq, Structural)]
pub struct LagSweepSpan {
    pub a_start: usize,
    pub a_end: usize,
    pub b_lo: usize,
    pub b_hi: usize,
}

/// Where one shoulder's sweep looks, or `None` when it cannot run. The template is the last
/// (pre shoulder) or first (post shoulder) `w = min(window, a_len)` samples of the A border, and
/// needs `w >= 8`. The pre shoulder searches B over `[anchor − w − ml, anchor + ml)`, the post
/// shoulder over `[anchor − ml, anchor + w + ml)`, both cut at `b_len`; the lower edge must not
/// fall before 0, and the span must not be empty.
pub open spec fn lag_sweep_span_spec(
    window: nat,
    ml: nat,
    a_len: nat,
    b_len: nat,
    anchor: nat,
    pre_shoulder: bool,
) -> Option<(nat, nat, nat, nat)> {
    let w = if window < a_len { window } else { a_len };
    let in_range = if pre_shoulder {
        w >= 8 && anchor >= w + ml
    } else {
        w >= 8 && anchor >= ml
    };
    if !in_range {
        None
    } else {
        let lo: nat = if pre_shoulder { (anchor - w - ml) as nat } else { (anchor - ml) as nat };
        let top: nat = if pre_shoulder { anchor + ml } else { anchor + w + ml };
        let hi: nat = if top < b_len { top } else { b_len };
        if hi <= lo {
            None
        } else if pre_shoulder {
            Some(((a_len - w) as nat, a_len, lo, hi))
        } else {
            Some((0, w, lo, hi))
        }
    }
}

/// Where one shoulder of a lag sweep looks (see [`lag_sweep_span_spec`]), for an A border of
/// `a_len` samples and a B signal of `b_len` samples around `anchor_frame`.
pub fn lag_sweep_span(
    params: LagSweepParams,
    a_len: usize,
    b_len: usize,
    anchor_frame: usize,
    pre_shoulder: bool,
) -> (r: Option<LagSweepSpan>)
    ensures
        match r {
            Some(s) => lag_sweep_span_spec(
                params.window as nat,
                lag_reach(params.max_lag) as nat,
                a_len as nat,
                b_len as nat,
                anchor_frame as nat,
                pre_shoulder,
            ) == Some((s.a_start as nat, s.a_end as nat, s.b_lo as nat, s.b_hi as nat)),
            None => lag_sweep_span_spec(
                params.window as nat,
                lag_reach(params.max_lag) as nat,
                a_len as nat,
                b_len as nat,
                anchor_frame as nat,
                pre_shoulder,
            ) is None,
        },
        r matches Some(s) ==> 8 <= s.a_end - s.a_start && s.a_start < s.a_end <= a_len && s.b_lo
            < s.b_hi <= b_len,
{
    let ml = params.ml();
    let w = if params.window < a_len { params.window } else { a_len };
    let in_range = if pre_shoulder {
        w >= 8 && anchor_frame >= w && anchor_frame - w >= ml
    } else {
        w >= 8 && anchor_frame >= ml
    };
    if !in_range {
        return None;
    }
    let lo = if pre_shoulder { anchor_frame - w - ml } else { anchor_frame - ml };
    // The upper edge `anchor + ml` (pre) or `anchor + w + ml` (post), cut at `b_len`.
    let reach = if pre_shoulder {
        ml as u128
    } else {
        w as u128 + ml as u128
    };
    let hi = if (anchor_frame as u128) + reach < b_len as u128 {
        (anchor_frame as u128 + reach) as usize
    } else {
        b_len
    };
    if hi <= lo {
        return None;
    }
    if pre_shoulder {
        Some(LagSweepSpan { a_start: a_len - w, a_end: a_len, b_lo: lo, b_hi: hi })
    } else {
        Some(LagSweepSpan { a_start: 0, a_end: w, b_lo: lo, b_hi: hi })
    }
}

} // verus!
