//! The stable identity digest of a decoded source: 64-bit FNV-1a over the stream layout and a
//! strided subset of the samples' bit patterns, rendered as 16 lowercase hex digits.

use vstd::prelude::*;

verus! {

/// The FNV-1a 64-bit offset basis.
pub const FNV_OFFSET_BASIS: u64 = 0xcbf2_9ce4_8422_2325u64;

/// The FNV-1a 64-bit prime.
pub const FNV_PRIME: u64 = 0x0000_0100_0000_01b3u64;

/// Samples beyond this many per stride step are skipped: the stride is `len / SAMPLE_BUDGET`,
/// at least 1, so at most about this many samples are digested.
pub const SAMPLE_BUDGET: usize = 200_000usize;

/// One FNV-1a step: xor the byte in, then multiply by the prime modulo 2^64.
pub open spec fn fnv_step(h: u64, b: u8) -> u64 {
    (((h ^ (b as u64)) as nat * FNV_PRIME as nat) % 0x1_0000_0000_0000_0000) as u64
}

/// FNV-1a of `bytes`, starting from state `h`.
pub open spec fn fnv_bytes(h: u64, bytes: Seq<u8>) -> u64
    decreases bytes.len(),
{
    if bytes.len() == 0 {
        h
    } else {
        fnv_bytes(fnv_step(h, bytes[0]), bytes.drop_first())
    }
}

/// The `n` low bytes of `x`, least significant first.
pub open spec fn le_bytes(x: nat, n: nat) -> Seq<u8>
    decreases n,
{
    if n == 0 {
        Seq::empty()
    } else {
        seq![(x % 256) as u8] + le_bytes(x / 256, (n - 1) as nat)
    }
}

/// The words of `bits` at indices `from`, `from + stride`, `from + 2·stride`, … below its length.
pub open spec fn sampled_from(bits: Seq<u32>, stride: nat, from: nat) -> Seq<u32>
    recommends
        stride > 0,
    decreases (if from < bits.len() { bits.len() - from } else { 0 }),
    when stride > 0
{
    if from >= bits.len() {
        Seq::empty()
    } else {
        seq![bits[from as int]] + sampled_from(bits, stride, from + stride)
    }
}

/// The little-endian bytes of each word, concatenated in order.
pub open spec fn word_bytes(ws: Seq<u32>) -> Seq<u8>
    decreases ws.len(),
{
    if ws.len() == 0 {
        Seq::empty()
    } else {
        le_bytes(ws[0] as nat, 4) + word_bytes(ws.drop_first())
    }
}

/// The sampling stride for `len` samples: `len / SAMPLE_BUDGET`, at least 1.
pub open spec fn sample_stride(len: nat) -> nat {
    if len / (SAMPLE_BUDGET as nat) == 0 {
        1
    } else {
        len / (SAMPLE_BUDGET as nat)
    }
}

/// The digested stream: sample rate (4 bytes), channel count (2), sample count (8), then the
/// strided samples' bit patterns (4 each), all little-endian.
pub open spec fn digest_input(bits: Seq<u32>, sample_rate: u32, channels: u16) -> Seq<u8> {
    le_bytes(sample_rate as nat, 4) + le_bytes(channels as nat, 2) + le_bytes(bits.len(), 8)
        + word_bytes(sampled_from(bits, sample_stride(bits.len()), 0))
}

/// The 64-bit identity digest of a decoded source.
pub open spec fn source_digest(bits: Seq<u32>, sample_rate: u32, channels: u16) -> u64 {
    fnv_bytes(FNV_OFFSET_BASIS, digest_input(bits, sample_rate, channels))
}

/// The lowercase hex digit of `d` (`0..16`).
pub open spec fn hex_digit(d: nat) -> char {
    if d < 10 {
        ((d + '0' as nat) as u32) as char
    } else {
        ((d - 10 + 'a' as nat) as u32) as char
    }
}

/// The `n` low hex digits of `x`, most significant first, zero-padded.
pub open spec fn hex_text(x: nat, n: nat) -> Seq<char>
    decreases n,
{
    if n == 0 {
        Seq::empty()
    } else {
        hex_text(x / 16, (n - 1) as nat).push(hex_digit(x % 16))
    }
}

/// FNV-1a over a concatenation is FNV-1a over the second part from the state the first left.
pub proof fn lemma_fnv_concat(h: u64, a: Seq<u8>, b: Seq<u8>)
    ensures
        fnv_bytes(h, a + b) == fnv_bytes(fnv_bytes(h, a), b),
    decreases a.len(),
{
    if a.len() == 0 {
        assert(a + b =~= b);
    } else {
        assert((a + b).drop_first() =~= a.drop_first() + b);
        assert((a + b)[0] == a[0]);
        lemma_fnv_concat(fnv_step(h, a[0]), a.drop_first(), b);
    }
}

/// The `k`-th sampled index at stride `stride`.
pub open spec fn sampled_index(k: nat, stride: nat) -> nat {
    k * stride
}

/// Two sample streams of one length that agree at every sampled index from the `k`-th on
/// sample the same words from there.
proof fn lemma_sampled_from_agree(b1: Seq<u32>, b2: Seq<u32>, stride: nat, k: nat)
    requires
        stride > 0,
        b1.len() == b2.len(),
        forall|j: nat|
            #[trigger] sampled_index(j, stride) < b1.len() ==> b1[sampled_index(j, stride) as int]
                == b2[sampled_index(j, stride) as int],
    ensures
        sampled_from(b1, stride, sampled_index(k, stride)) == sampled_from(
            b2,
            stride,
            sampled_index(k, stride),
        ),
    decreases (if sampled_index(k, stride) < b1.len() { b1.len() - sampled_index(k, stride) } else { 0 }),
{
    let from = sampled_index(k, stride);
    assert(sampled_index(k + 1, stride) == from + stride) by (nonlinear_arith)
        requires
            from == k * stride,
    ;
    if from < b1.len() {
        lemma_sampled_from_agree(b1, b2, stride, k + 1);
        assert(b1[from as int] == b2[from as int]);
    }
}

/// The identity digest reads only the strided samples: two decodes of the same length, sample
/// rate and channel count that agree at every sampled index get the same digest.
pub proof fn lemma_source_digest_reads_only_sampled_words(
    b1: Seq<u32>,
    b2: Seq<u32>,
    sample_rate: u32,
    channels: u16,
)
    requires
        b1.len() == b2.len(),
        forall|j: nat|
            #[trigger] sampled_index(j, sample_stride(b1.len())) < b1.len() ==> b1[sampled_index(
                j,
                sample_stride(b1.len()),
            ) as int] == b2[sampled_index(j, sample_stride(b1.len())) as int],
    ensures
        source_digest(b1, sample_rate, channels) == source_digest(b2, sample_rate, channels),
{
    let stride = sample_stride(b1.len());
    lemma_sampled_from_agree(b1, b2, stride, 0);
    assert(sampled_index(0, stride) == 0);
}

/// The sampling stride is the whole number of sample budgets in the stream, never less than one:
/// below two budgets it is 1 (every sample is digested), and otherwise `stride · SAMPLE_BUDGET`
/// is the largest multiple of the budget that does not exceed the length.
pub proof fn lemma_sample_stride_is_floor_of_budgets(len: nat)
    ensures
        sample_stride(len) >= 1,
        len < 2 * SAMPLE_BUDGET ==> sample_stride(len) == 1,
        len >= SAMPLE_BUDGET ==> sample_stride(len) * SAMPLE_BUDGET <= len < (sample_stride(len)
            + 1) * SAMPLE_BUDGET,
{
    let b = SAMPLE_BUDGET as nat;
    let q = len / b;
    assert(q * b <= len < (q + 1) * b) by (nonlinear_arith)
        requires
            b == 200_000,
            q == len / b,
    ;
    if len < 2 * b {
        assert(q <= 1) by (nonlinear_arith)
            requires
                q * b <= len,
                len < 2 * b,
                b == 200_000,
        ;
    }
    if len >= b {
        assert(q >= 1) by (nonlinear_arith)
            requires
                len < (q + 1) * b,
                len >= b,
                b == 200_000,
        ;
    }
}

/// At stride 1 every word from `from` on is sampled, in order.
proof fn lemma_stride_one_samples_everything(bits: Seq<u32>, from: nat)
    requires
        from <= bits.len(),
    ensures
        sampled_from(bits, 1, from) == bits.subrange(from as int, bits.len() as int),
    decreases bits.len() - from,
{
    if from < bits.len() {
        lemma_stride_one_samples_everything(bits, from + 1);
        assert(seq![bits[from as int]] + bits.subrange((from + 1) as int, bits.len() as int) =~= bits.subrange(
            from as int,
            bits.len() as int,
        ));
    } else {
        assert(bits.subrange(from as int, bits.len() as int) =~= Seq::<u32>::empty());
    }
}

/// A stream shorter than two sample budgets is digested whole: every sample's bits go in, in
/// order, after the layout header.
pub proof fn lemma_short_streams_digest_every_sample(bits: Seq<u32>, sample_rate: u32, channels: u16)
    requires
        bits.len() < 2 * SAMPLE_BUDGET,
    ensures
        digest_input(bits, sample_rate, channels) == le_bytes(sample_rate as nat, 4) + le_bytes(
            channels as nat,
            2,
        ) + le_bytes(bits.len(), 8) + word_bytes(bits),
{
    lemma_sample_stride_is_floor_of_budgets(bits.len());
    lemma_stride_one_samples_everything(bits, 0);
    assert(bits.subrange(0, bits.len() as int) =~= bits);
}

/// Fold `bytes` into the FNV-1a state `h`.
pub fn fnv_feed(h: &mut u64, bytes: &[u8])
    ensures
        *final(h) == fnv_bytes(*old(h), bytes@),
{
    let ghost target = fnv_bytes(*h, bytes@);
    let mut i: usize = 0;
    assert(bytes@.skip(0) =~= bytes@);
    while i < bytes.len()
        invariant
            i <= bytes@.len(),
            target == fnv_bytes(*h, bytes@.skip(i as int)),
        decreases bytes.len() - i,
    {
        let b = bytes[i];
        let ghost rest = bytes@.skip(i as int);
        assert(rest[0] == b);
        assert(rest.drop_first() =~= bytes@.skip(i + 1));
        *h = (*h ^ (b as u64)).wrapping_mul(FNV_PRIME);
        i = i + 1;
    }
    assert(bytes@.skip(i as int) =~= Seq::<u8>::empty());
}

/// The `n` low bytes of `x`, least significant first.
pub fn le_bytes_of(x: u64, n: usize) -> (r: Vec<u8>)
    requires
        n <= 8,
    ensures
        r@ == le_bytes(x as nat, n as nat),
{
    let mut r: Vec<u8> = Vec::new();
    let mut rest = x;
    let mut k: usize = 0;
    while k < n
        invariant
            k <= n,
            r@ + le_bytes(rest as nat, (n - k) as nat) == le_bytes(x as nat, n as nat),
        decreases n - k,
    {
        let ghost before = r@;
        r.push((rest % 256) as u8);
        assert(le_bytes(rest as nat, (n - k) as nat) == seq![(rest % 256) as u8] + le_bytes(
            (rest / 256) as nat,
            (n - k - 1) as nat,
        ));
        assert(before + le_bytes(rest as nat, (n - k) as nat) =~= r@ + le_bytes(
            (rest / 256) as nat,
            (n - k - 1) as nat,
        ));
        rest = rest / 256;
        k = k + 1;
    }
    assert(le_bytes(rest as nat, 0) =~= Seq::<u8>::empty());
    assert(r@ + Seq::<u8>::empty() =~= r@);
    r
}

/// The one-character string holding hex digit `d`.
fn hex_digit_str(d: u64) -> (r: &'static str)
    requires
        d < 16,
    ensures
        r@ == seq![hex_digit(d as nat)],
{
    proof {
        reveal_strlit("0");
        reveal_strlit("1");
        reveal_strlit("2");
        reveal_strlit("3");
        reveal_strlit("4");
        reveal_strlit("5");
        reveal_strlit("6");
        reveal_strlit("7");
        reveal_strlit("8");
        reveal_strlit("9");
        reveal_strlit("a");
        reveal_strlit("b");
        reveal_strlit("c");
        reveal_strlit("d");
        reveal_strlit("e");
        reveal_strlit("f");
    }
    if d == 0 {
        "0"
    } else if d == 1 {
        "1"
    } else if d == 2 {
        "2"
    } else if d == 3 {
        "3"
    } else if d == 4 {
        "4"
    } else if d == 5 {
        "5"
    } else if d == 6 {
        "6"
    } else if d == 7 {
        "7"
    } else if d == 8 {
        "8"
    } else if d == 9 {
        "9"
    } else if d == 10 {
        "a"
    } else if d == 11 {
        "b"
    } else if d == 12 {
        "c"
    } else if d == 13 {
        "d"
    } else if d == 14 {
        "e"
    } else {
        "f"
    }
}

/// Append the `n` low hex digits of `x` (most significant first, zero-padded) to `s`.
pub fn append_hex(s: &mut String, x: u64, n: usize)
    ensures
        final(s)@ == old(s)@ + hex_text(x as nat, n as nat),
    decreases n,
{
    if n > 0 {
        append_hex(s, x / 16, n - 1);
        let d = hex_digit_str(x % 16);
        s.append(d);
        assert(s@ =~= old(s)@ + hex_text(x as nat, n as nat));
    } else {
        assert(s@ =~= old(s)@ + hex_text(x as nat, n as nat));
    }
}

/// Stable 64-bit FNV-1a digest, as 16 lowercase hex digits, over `(sample_rate, channels,
/// sample count)` and a strided subset of the interleaved samples' bit patterns (`sample_bits`
/// holds each sample's IEEE-754 bits). Identical decodes give the same id; the stride keeps the
/// work bounded on long tracks.
pub fn source_id(sample_bits: &[u32], sample_rate: u32, channels: u16) -> (r: String)
    ensures
        r@ == hex_text(source_digest(sample_bits@, sample_rate, channels) as nat, 16),
        sample_bits@.len() < 2 * SAMPLE_BUDGET ==> r@ == hex_text(
            fnv_bytes(
                FNV_OFFSET_BASIS,
                le_bytes(sample_rate as nat, 4) + le_bytes(channels as nat, 2) + le_bytes(
                    sample_bits@.len(),
                    8,
                ) + word_bytes(sample_bits@),
            ) as nat,
            16,
        ),
{
    proof {
        if sample_bits@.len() < 2 * SAMPLE_BUDGET {
            lemma_short_streams_digest_every_sample(sample_bits@, sample_rate, channels);
        }
    }
    let len = sample_bits.len();
    let mut h: u64 = FNV_OFFSET_BASIS;
    let rate_bytes = le_bytes_of(sample_rate as u64, 4);
    fnv_feed(&mut h, rate_bytes.as_slice());
    let ch_bytes = le_bytes_of(channels as u64, 2);
    fnv_feed(&mut h, ch_bytes.as_slice());
    let len_bytes = le_bytes_of(len as u64, 8);
    fnv_feed(&mut h, len_bytes.as_slice());
    let stride = if len / SAMPLE_BUDGET == 0 {
        1
    } else {
        len / SAMPLE_BUDGET
    };
    let ghost bits = sample_bits@;
    let ghost header = le_bytes(sample_rate as nat, 4) + le_bytes(channels as nat, 2) + le_bytes(
        len as nat,
        8,
    );
    proof {
        lemma_fnv_concat(FNV_OFFSET_BASIS, le_bytes(sample_rate as nat, 4), le_bytes(channels as nat, 2));
        lemma_fnv_concat(
            FNV_OFFSET_BASIS,
            le_bytes(sample_rate as nat, 4) + le_bytes(channels as nat, 2),
            le_bytes(len as nat, 8),
        );
        lemma_fnv_concat(
            FNV_OFFSET_BASIS,
            header,
            word_bytes(sampled_from(bits, stride as nat, 0)),
        );
    }
    let ghost target = source_digest(bits, sample_rate, channels);
    let mut i: usize = 0;
    while i < len
        invariant
            len == bits.len(),
            bits == sample_bits@,
            stride >= 1,
            i <= len,
            target == fnv_bytes(h, word_bytes(sampled_from(bits, stride as nat, i as nat))),
        decreases len - i,
    {
        let word_le = le_bytes_of(sample_bits[i] as u64, 4);
        let ghost rest = sampled_from(bits, stride as nat, i as nat);
        assert(rest == seq![bits[i as int]] + sampled_from(bits, stride as nat, (i + stride) as nat));
        assert(rest[0] == bits[i as int]);
        assert(rest.drop_first() =~= sampled_from(bits, stride as nat, (i + stride) as nat));
        assert(word_bytes(rest) == le_bytes(bits[i as int] as nat, 4) + word_bytes(rest.drop_first()));
        proof {
            lemma_fnv_concat(
                h,
                le_bytes(bits[i as int] as nat, 4),
                word_bytes(sampled_from(bits, stride as nat, (i + stride) as nat)),
            );
        }
        fnv_feed(&mut h, word_le.as_slice());
        if len - i <= stride {
            assert(sampled_from(bits, stride as nat, (i + stride) as nat) =~= Seq::<u32>::empty());
            assert(sampled_from(bits, stride as nat, len as nat) =~= Seq::<u32>::empty());
            i = len;
        } else {
            i = i + stride;
        }
    }
    assert(sampled_from(bits, stride as nat, i as nat) =~= Seq::<u32>::empty());
    assert(word_bytes(Seq::<u32>::empty()) =~= Seq::<u8>::empty());
    let mut r = String::new();
    append_hex(&mut r, h, 16);
    assert(r@ =~= hex_text(h as nat, 16));
    r
}

} // verus!
