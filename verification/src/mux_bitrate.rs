//! Resolve the ffmpeg `-b:a` audio bitrate for muxing from measured source bitrates.

use vstd::prelude::*;
use crate::text::{
    append_decimal, ascii_lower, ascii_lowercase_chars, chars_eq, chars_of, decimal, parse_u32_chars,
    parse_u32_spec, trim_bounds, trim_spec, lemma_decimal_parses_back, is_ascii_digit,
    lemma_trim_identity, lemma_lower_identity,
};

verus! {

/// How to pick the AAC bitrate when muxing patched output.
#[derive(Debug, Clone, Copy, PartialEq, Eq, Structural)]
pub enum MuxAudioBitratePolicy {
    /// Use the lower measured bitrate of video A and B (default for mux).
    MatchMin,
    /// Use video A's measured audio bitrate only.
    MatchA,
    /// Omit `-b:a` and let ffmpeg pick its encoder default.
    Default,
    /// Fixed target in kilobits per second (e.g. `256` for `256k`).
    ExplicitKbps(u32),
}

/// The digits of an explicit policy: one trailing `k` (else `K`) removed.
pub open spec fn explicit_digits(l: Seq<char>) -> Seq<char> {
    if l.len() > 0 && l.last() == 'k' {
        l.drop_last()
    } else if l.len() > 0 && l.last() == 'K' {
        l.drop_last()
    } else {
        l
    }
}

/// The error text for a value that is neither a keyword nor a positive kilobit count.
pub open spec fn invalid_policy_message(trimmed: Seq<char>) -> Seq<char> {
    "invalid mux audio bitrate policy: "@ + trimmed
}

/// What a policy string means: trimmed, ASCII-lowercased, then a keyword (`match_min` /
/// `match-min`, `match_a` / `match-a`, `default`) or a positive `u32` kilobit count with an
/// optional `k` suffix.
pub open spec fn parse_policy_spec(raw: Seq<char>) -> Result<MuxAudioBitratePolicy, Seq<char>> {
    let t = trim_spec(raw);
    if t.len() == 0 {
        Err("must not be empty"@)
    } else {
        let l = ascii_lower(t);
        if l == "match_min"@ || l == "match-min"@ {
            Ok(MuxAudioBitratePolicy::MatchMin)
        } else if l == "match_a"@ || l == "match-a"@ {
            Ok(MuxAudioBitratePolicy::MatchA)
        } else if l == "default"@ {
            Ok(MuxAudioBitratePolicy::Default)
        } else {
            match parse_u32_spec(explicit_digits(l)) {
                Some(v) => if v != 0 {
                    Ok(MuxAudioBitratePolicy::ExplicitKbps(v))
                } else {
                    Err(invalid_policy_message(t))
                },
                None => Err(invalid_policy_message(t)),
            }
        }
    }
}

/// Bits per second rounded to the nearest kilobit, never below 8.
pub open spec fn kbps_rounded(bps: u32) -> nat {
    let k = ((bps + 500) / 1000) as nat;
    if k < 8 {
        8
    } else {
        k
    }
}

/// ffmpeg's `-b:a` value for `bps`: the rounded kilobit count followed by `k`.
pub open spec fn ffmpeg_bitrate_text(bps: u32) -> Seq<char> {
    decimal(kbps_rounded(bps)) + "k"@
}

/// The config keyword of a policy.
pub open spec fn policy_keyword(policy: MuxAudioBitratePolicy) -> Seq<char> {
    match policy {
        MuxAudioBitratePolicy::MatchMin => "match_min"@,
        MuxAudioBitratePolicy::MatchA => "match_a"@,
        MuxAudioBitratePolicy::Default => "default"@,
        MuxAudioBitratePolicy::ExplicitKbps(kbps) => decimal(kbps as nat) + "k"@,
    }
}

/// `kbps * 1000`, saturating at `u32::MAX`.
pub open spec fn kbps_to_bps_saturating(kbps: u32) -> u32 {
    if kbps * 1000 > u32::MAX {
        u32::MAX
    } else {
        (kbps * 1000) as u32
    }
}

/// The bitrate a policy selects from the two measurements, before the zero check.
pub open spec fn selected_bps(
    policy: MuxAudioBitratePolicy,
    source_a_bps: Option<u32>,
    source_b_bps: Option<u32>,
) -> Option<u32> {
    match policy {
        MuxAudioBitratePolicy::Default => None,
        MuxAudioBitratePolicy::ExplicitKbps(kbps) => Some(kbps_to_bps_saturating(kbps)),
        MuxAudioBitratePolicy::MatchA => source_a_bps,
        MuxAudioBitratePolicy::MatchMin => match (source_a_bps, source_b_bps) {
            (Some(a), Some(b)) => Some(if a <= b { a } else { b }),
            (Some(a), None) => Some(a),
            (None, Some(b)) => Some(b),
            (None, None) => None,
        },
    }
}

/// Parse a mux bitrate policy from config / CLI text.
pub fn parse_mux_audio_bitrate_policy(raw: &str) -> (r: Result<MuxAudioBitratePolicy, String>)
    ensures
        match r {
            Ok(p) => parse_policy_spec(raw@) == Ok::<MuxAudioBitratePolicy, Seq<char>>(p),
            Err(e) => parse_policy_spec(raw@) == Err::<MuxAudioBitratePolicy, Seq<char>>(e@),
        },
{
    let v = chars_of(raw);
    let (a, b) = trim_bounds(v.as_slice());
    if a == b {
        return Err(String::from_str("must not be empty"));
    }
    let trimmed = raw.substring_char(a, b);
    let tv = chars_of(trimmed);
    let l = ascii_lowercase_chars(tv.as_slice());
    let ls = l.as_slice();
    if chars_eq(ls, "match_min") || chars_eq(ls, "match-min") {
        return Ok(MuxAudioBitratePolicy::MatchMin);
    }
    if chars_eq(ls, "match_a") || chars_eq(ls, "match-a") {
        return Ok(MuxAudioBitratePolicy::MatchA);
    }
    if chars_eq(ls, "default") {
        return Ok(MuxAudioBitratePolicy::Default);
    }
    let n = l.len();
    let end = if n > 0 && (l[n - 1] == 'k' || l[n - 1] == 'K') {
        n - 1
    } else {
        n
    };
    assert(l@.subrange(0, end as int) =~= explicit_digits(l@));
    match parse_u32_chars(ls, 0, end) {
        Some(value) => {
            if value != 0 {
                return Ok(MuxAudioBitratePolicy::ExplicitKbps(value));
            }
        },
        None => {},
    }
    let mut e = String::from_str("invalid mux audio bitrate policy: ");
    e.append(trimmed);
    Err(e)
}

/// Bits per second rounded to the nearest kilobit (minimum 8).
fn bps_to_kbps_rounded(bps: u32) -> (r: u64)
    ensures
        r == kbps_rounded(bps),
{
    let k = (bps as u64 + 500) / 1000;
    if k < 8 {
        8
    } else {
        k
    }
}

/// Format a bits-per-second rate for ffmpeg `-b:a` (nearest kilobit, minimum 8k).
pub fn format_ffmpeg_audio_bitrate(bps: u32) -> (r: String)
    ensures
        r@ == ffmpeg_bitrate_text(bps),
{
    let kb = bps_to_kbps_rounded(bps);
    let mut s = String::new();
    append_decimal(&mut s, kb);
    s.append("k");
    s
}

/// Human-readable source bitrate for progress logs (`256 kbps`, or `unknown`).
pub fn format_optional_bitrate_kbps(bps: Option<u32>) -> (r: String)
    ensures
        r@ == (match bps {
            Some(b) => if b != 0 {
                decimal(kbps_rounded(b)) + " kbps"@
            } else {
                "unknown"@
            },
            None => "unknown"@,
        }),
{
    match bps {
        Some(b) => {
            if b == 0 {
                String::from_str("unknown")
            } else {
                let mut s = String::new();
                append_decimal(&mut s, bps_to_kbps_rounded(b));
                s.append(" kbps");
                s
            }
        },
        None => String::from_str("unknown"),
    }
}

/// Config keyword for a mux bitrate policy (matches TOML / CLI values).
pub fn format_mux_bitrate_policy(policy: MuxAudioBitratePolicy) -> (r: String)
    ensures
        r@ == policy_keyword(policy),
{
    match policy {
        MuxAudioBitratePolicy::MatchMin => String::from_str("match_min"),
        MuxAudioBitratePolicy::MatchA => String::from_str("match_a"),
        MuxAudioBitratePolicy::Default => String::from_str("default"),
        MuxAudioBitratePolicy::ExplicitKbps(kbps) => {
            let mut s = String::new();
            append_decimal(&mut s, kbps as u64);
            s.append("k");
            s
        },
    }
}

/// Resolve ffmpeg `-b:a` from the policy and patch-time measurements: `None` when the policy
/// defers to ffmpeg, when no measurement is available, or when the selected rate is zero.
pub fn resolve_mux_audio_bitrate(
    policy: MuxAudioBitratePolicy,
    source_a_bps: Option<u32>,
    source_b_bps: Option<u32>,
) -> (r: Option<String>)
    ensures
        match selected_bps(policy, source_a_bps, source_b_bps) {
            Some(bps) => if bps != 0 {
                r is Some && r->0@ == ffmpeg_bitrate_text(bps)
            } else {
                r is None
            },
            None => r is None,
        },
        policy == MuxAudioBitratePolicy::MatchA ==> match source_a_bps {
            None => r is None,
            Some(a) => if a == 0 {
                r is None
            } else {
                r is Some && r->0@ == ffmpeg_bitrate_text(a)
            },
        },
        policy == MuxAudioBitratePolicy::Default ==> r is None,
{
    let bps = match policy {
        MuxAudioBitratePolicy::Default => {
            return None;
        },
        MuxAudioBitratePolicy::ExplicitKbps(kbps) => match kbps.checked_mul(1000) {
            Some(v) => v,
            None => u32::MAX,
        },
        MuxAudioBitratePolicy::MatchA => match source_a_bps {
            Some(a) => a,
            None => {
                return None;
            },
        },
        MuxAudioBitratePolicy::MatchMin => match (source_a_bps, source_b_bps) {
            (Some(a), Some(b)) => if a <= b {
                a
            } else {
                b
            },
            (Some(a), None) => a,
            (None, Some(b)) => b,
            (None, None) => {
                return None;
            },
        },
    };
    if bps == 0 {
        return None;
    }
    Some(format_ffmpeg_audio_bitrate(bps))
}


/// Every policy except the degenerate `ExplicitKbps(0)` parses back from its config keyword.
pub proof fn lemma_policy_keyword_parses_back(policy: MuxAudioBitratePolicy)
    requires
        policy != MuxAudioBitratePolicy::ExplicitKbps(0),
    ensures
        parse_policy_spec(policy_keyword(policy)) == Ok::<MuxAudioBitratePolicy, Seq<char>>(policy),
{
    reveal_strlit("match_min");
    reveal_strlit("match-min");
    reveal_strlit("match_a");
    reveal_strlit("match-a");
    reveal_strlit("default");
    reveal_strlit("k");
    let s = policy_keyword(policy);
    match policy {
        MuxAudioBitratePolicy::ExplicitKbps(kbps) => {
            let d = decimal(kbps as nat);
            lemma_decimal_parses_back(kbps as nat);
            assert(s =~= d.push('k'));
            assert(is_ascii_digit(d[0]));
            assert forall|i: int| 0 <= i < s.len() implies !('A' <= #[trigger] s[i] && s[i] <= 'Z') by {
                if i < d.len() {
                    assert(s[i] == d[i]);
                    assert(is_ascii_digit(d[i]));
                }
            }
            lemma_trim_identity(s);
            lemma_lower_identity(s);
            assert(s.last() == 'k');
            assert(s != "match_min"@);
            assert(s != "match-min"@);
            assert(s != "match_a"@);
            assert(s != "match-a"@);
            assert(s != "default"@);
            assert(explicit_digits(s) =~= d);
            assert(d[0] != '+');
        },
        _ => {
            assert forall|i: int| 0 <= i < s.len() implies !('A' <= #[trigger] s[i] && s[i] <= 'Z') by {
            }
            lemma_trim_identity(s);
            lemma_lower_identity(s);
        },
    }
}

/// Under `match_a` the selection depends on source A alone: A's measurement when there is one,
/// otherwise nothing, whatever source B holds.
pub proof fn lemma_match_a_reads_only_source_a(a: Option<u32>, b1: Option<u32>, b2: Option<u32>)
    ensures
        selected_bps(MuxAudioBitratePolicy::MatchA, a, b1) == selected_bps(
            MuxAudioBitratePolicy::MatchA,
            a,
            b2,
        ),
        a is None ==> selected_bps(MuxAudioBitratePolicy::MatchA, a, b1) is None,
        a matches Some(x) ==> selected_bps(MuxAudioBitratePolicy::MatchA, a, b1) == Some(x),
{
}

/// `match_min` never selects more than either measured source.
pub proof fn lemma_match_min_never_exceeds_a_source(a: Option<u32>, b: Option<u32>)
    ensures
        selected_bps(MuxAudioBitratePolicy::MatchMin, a, b) matches Some(x) ==> {
            &&& (a matches Some(av) ==> x <= av)
            &&& (b matches Some(bv) ==> x <= bv)
        },
        selected_bps(MuxAudioBitratePolicy::MatchMin, a, b) is None <==> (a is None && b is None),
{
}

} // verus!
