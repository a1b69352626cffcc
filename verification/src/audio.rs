//! Channel bookkeeping and the sample-rate conversion used when mixing:
//! audio sources play at 32 kHz while the output device runs at 64 kHz, so
//! each channel's buffer is upsampled by zero-stuffing before it is
//! blended. The device callback itself lives outside the library; what is
//! here is the pure buffer arithmetic.

use vstd::prelude::*;
use vstd::arithmetic::div_mod::{
    lemma_div_is_ordered, lemma_div_nonincreasing, lemma_div_plus_one, lemma_div_pos_is_pos,
    lemma_fundamental_div_mod, lemma_mod_bound, lemma_multiply_divide_lt,
};

use crate::map::div_trunc;

verus! {

/// Manages a set of channels, each with its low-pass spillover sample.
pub struct Mixer<S> {
    channels: Vec<S>,
    lp: Vec<i16>,
}

impl<S> Mixer<S> {
    /// The playing sources, in the order they were added.
    pub closed spec fn sources(self) -> Seq<S> {
        self.channels@
    }

    /// How many channels are playing.
    pub open spec fn channel_count(self) -> nat {
        self.sources().len()
    }

    /// The per-channel spillover samples.
    pub closed spec fn lp_state(self) -> Seq<i16> {
        self.lp@
    }

    /// One spillover slot per channel.
    pub closed spec fn wf(self) -> bool {
        self.channels@.len() == self.lp@.len()
    }

    /// A mixer with no channels.
    pub fn new() -> (m: Mixer<S>)
        ensures
            m.wf(),
            m.channel_count() == 0,
    {
        Mixer { channels: Vec::new(), lp: Vec::new() }
    }

    /// How many channels are playing.
    pub fn channels(&self) -> (r: usize)
        ensures
            r == self.channel_count(),
    {
        self.channels.len()
    }

    /// Start playing a source on a fresh channel; its spillover starts at
    /// zero.
    pub fn play(&mut self, source: S)
        requires
            old(self).wf(),
        ensures
            final(self).wf(),
            final(self).sources() == old(self).sources().push(source),
            final(self).lp_state() == old(self).lp_state().push(0i16),
    {
        self.channels.push(source);
        self.lp.push(0);
    }
}

/// The slot that source sample `i` lands in when a buffer of `srclen`
/// samples is stretched over `target` slots.
pub open spec fn stuffed_slot(i: int, target: int, srclen: int) -> int {
    (i * target) / srclen
}

/// Whether some source sample lands in slot `j`.
pub open spec fn fills_slot(j: int, target: int, srclen: int) -> bool {
    exists|i: int| 0 <= i < srclen && stuffed_slot(i, target, srclen) == j
}

proof fn lemma_mul_mono_audio(a: int, b: int, c: int)
    by (nonlinear_arith)
    requires
        0 <= a <= b,
        0 <= c,
    ensures
        a * c <= b * c,
{
}

proof fn lemma_mul_strict_audio(a: int, b: int, c: int)
    by (nonlinear_arith)
    requires
        0 <= a < b,
        0 < c,
    ensures
        0 <= a * c < b * c,
{
}

/// Each source sample's slot lies inside the target buffer.
proof fn lemma_slot_in_range(i: int, target: int, srclen: int)
    requires
        0 <= i < srclen,
        srclen < target,
    ensures
        0 <= stuffed_slot(i, target, srclen) < target,
{
    lemma_mul_strict_audio(i, srclen, target);
    lemma_multiply_divide_lt(i * target, srclen, target);
    lemma_div_pos_is_pos(i * target, srclen);
}

/// Later source samples land in strictly later slots, so no sample
/// overwrites another.
proof fn lemma_slot_mono(i1: int, i2: int, target: int, srclen: int)
    requires
        0 <= i1 < i2,
        1 <= srclen < target,
    ensures
        stuffed_slot(i1, target, srclen) < stuffed_slot(i2, target, srclen),
{
    lemma_mul_mono_audio(i1 + 1, i2, target);
    assert((i1 + 1) * target == i1 * target + target) by (nonlinear_arith);
    lemma_div_plus_one(i1 * target, srclen);
    lemma_div_is_ordered(srclen + i1 * target, i2 * target, srclen);
}

/// Convert a lower-frequency sample buffer into a higher-frequency buffer
/// by zero-stuffing: source sample `i` lands in slot `i * target / srclen`,
/// every slot no sample lands in is zero, and the low-pass spillover `x` is
/// handed back unchanged for the next batch.
pub fn upsample(source: &[i16], target_samples: usize, x: i16) -> (r: (Vec<i16>, i16))
    requires
        source@.len() < target_samples,
        source@.len() * target_samples <= usize::MAX,
    ensures
        r.0@.len() == target_samples,
        forall|i: int|
            0 <= i < source@.len() ==> r.0@[stuffed_slot(
                i,
                target_samples as int,
                source@.len() as int,
            )] == source@[i],
        forall|j: int|
            0 <= j < target_samples && !fills_slot(
                j,
                target_samples as int,
                source@.len() as int,
            ) ==> r.0@[j] == 0,
        r.1 == x,
{
    let ghost target = target_samples as int;
    let ghost srclen = source@.len() as int;
    let n = source.len();

    // Zero-filled target buffer.
    let mut stuffed: Vec<i16> = Vec::new();
    let mut t: usize = 0;
    while t < target_samples
        invariant
            t <= target_samples,
            stuffed@.len() == t,
            forall|j: int| 0 <= j < t ==> stuffed@[j] == 0i16,
        decreases target_samples - t,
    {
        stuffed.push(0);
        t += 1;
    }

    // Stuff each source sample into its slot.
    let mut i: usize = 0;
    while i < n
        invariant
            i <= n,
            n == source@.len(),
            n < target_samples,
            n * target_samples <= usize::MAX,
            target == target_samples as int,
            srclen == source@.len() as int,
            stuffed@.len() == target_samples,
            forall|k: int|
                0 <= k < i ==> stuffed@[stuffed_slot(k, target, srclen)] == source@[k],
            forall|j: int|
                0 <= j < target_samples && !(exists|k: int|
                    0 <= k < i && stuffed_slot(k, target, srclen) == j) ==> stuffed@[j] == 0i16,
        decreases n - i,
    {
        proof {
            lemma_slot_in_range(i as int, target, srclen);
            assert forall|k: int| 0 <= k < i implies (0 <= stuffed_slot(k, target, srclen)
                < target_samples && stuffed_slot(k, target, srclen) != stuffed_slot(
                i as int,
                target,
                srclen,
            )) by {
                lemma_slot_in_range(k, target, srclen);
                lemma_slot_mono(k, i as int, target, srclen);
            }
        }
        proof {
            lemma_mul_mono_audio(i as int, n as int, target);
        }
        let slot = (i * target_samples) / n;
        stuffed[slot] = source[i];
        i += 1;
    }

    (stuffed, x)
}

/// Interleave a left and a right channel back into one stereo buffer:
/// even slots are left, odd slots are right.
pub fn interleave(left: &Vec<i16>, right: &Vec<i16>) -> (r: Vec<i16>)
    requires
        left@.len() == right@.len(),
        2 * left@.len() <= usize::MAX,
    ensures
        r@.len() == 2 * left@.len(),
        forall|i: int| 0 <= i < left@.len() ==> r@[2 * i] == left@[i],
        forall|i: int| 0 <= i < left@.len() ==> r@[2 * i + 1] == right@[i],
{
    let n = left.len();
    let mut out: Vec<i16> = Vec::new();
    let mut i: usize = 0;
    while i < n
        invariant
            i <= n,
            n == left@.len(),
            n == right@.len(),
            2 * n <= usize::MAX,
            out@.len() == 2 * i,
            forall|k: int| 0 <= k < i ==> out@[2 * k] == left@[k],
            forall|k: int| 0 <= k < i ==> out@[2 * k + 1] == right@[k],
        decreases n - i,
    {
        out.push(left[i]);
        out.push(right[i]);
        i += 1;
    }
    out
}

fn div_trunc_i16(a: i16, b: i16) -> (r: i16)
    requires
        b >= 1,
    ensures
        r == div_trunc(a as int, b as int),
{
    proof {
        if a >= 0 {
            lemma_div_nonincreasing(a as int, b as int);
            lemma_div_pos_is_pos(a as int, b as int);
        } else {
            lemma_div_nonincreasing(-(a as int), b as int);
            lemma_div_pos_is_pos(-(a as int), b as int);
        }
    }
    if a >= 0 {
        ((a as u32) / (b as u32)) as i16
    } else {
        let m: u32 = ((-(a as i32)) as u32) / (b as u32);
        ((-(m as i32)) as i32) as i16
    }
}

/// The mixed value of one output slot over the first `k` channels: each
/// channel's sample there, divided by the total channel count, summed.
pub open spec fn mix_at(chans: Seq<Seq<i16>>, num: int, i: int, k: int) -> int
    decreases k,
{
    if k <= 0 {
        0
    } else {
        mix_at(chans, num, i, k - 1) + div_trunc(chans[k - 1][i] as int, num)
    }
}

/// Dividing every sample by the channel count caps each term, so a partial
/// mix of `k` of `num` channels stays within `k` caps of zero.
proof fn lemma_mix_at_bounds(chans: Seq<Seq<i16>>, num: int, i: int, k: int)
    requires
        1 <= num,
        0 <= k,
    ensures
        -(k * (32768int / num)) <= mix_at(chans, num, i, k) <= k * (32767int / num),
    decreases k,
{
    if k > 0 {
        lemma_mix_at_bounds(chans, num, i, k - 1);
        let s = chans[k - 1][i] as int;
        if s >= 0 {
            lemma_div_is_ordered(s, 32767int, num);
            lemma_div_pos_is_pos(s, num);
        } else {
            lemma_div_is_ordered(-s, 32768int, num);
            lemma_div_pos_is_pos(-s, num);
        }
        assert(k * (32768int / num) == (k - 1) * (32768int / num) + (32768int / num)) by (nonlinear_arith);
        assert(k * (32767int / num) == (k - 1) * (32767int / num) + (32767int / num)) by (nonlinear_arith);
    }
}

/// `num` caps never overshoot the sample range itself.
proof fn lemma_mix_caps(num: int)
    requires
        1 <= num,
    ensures
        num * (32768int / num) <= 32768,
        num * (32767int / num) <= 32767,
{
    lemma_fundamental_div_mod(32768int, num);
    lemma_mod_bound(32768int, num);
    lemma_fundamental_div_mod(32767int, num);
    lemma_mod_bound(32767int, num);
}

/// Blend equal-length channel buffers into one output buffer: each output
/// sample is the sum over all channels of that channel's sample divided by
/// the channel count. The division caps every term, so the sum never
/// leaves the sample range.
pub fn blend(channels: &Vec<Vec<i16>>, len: usize) -> (r: Vec<i16>)
    requires
        1 <= channels@.len() <= 32767,
        forall|c: int| 0 <= c < channels@.len() ==> (#[trigger] channels@[c])@.len() == len,
    ensures
        r@.len() == len,
        forall|i: int|
            0 <= i < len ==> r@[i] == mix_at(
                channels.deep_view(),
                channels@.len() as int,
                i,
                channels@.len() as int,
            ),
{
    let num_usize = channels.len();
    let num: i16 = num_usize as i16;
    let mut out: Vec<i16> = Vec::new();
    let mut i: usize = 0;
    while i < len
        invariant
            i <= len,
            1 <= channels@.len() <= 32767,
            num == channels@.len(),
            num_usize == channels@.len(),
            forall|c: int| 0 <= c < channels@.len() ==> (#[trigger] channels@[c])@.len() == len,
            out@.len() == i,
            forall|j: int|
                0 <= j < i ==> out@[j] == mix_at(
                    channels.deep_view(),
                    channels@.len() as int,
                    j,
                    channels@.len() as int,
                ),
        decreases len - i,
    {
        let ghost chans = channels.deep_view();
        let mut acc: i16 = 0;
        let mut c: usize = 0;
        while c < num_usize
            invariant
                c <= num_usize,
                i < len,
                1 <= channels@.len() <= 32767,
                num == channels@.len(),
                num_usize == channels@.len(),
                chans == channels.deep_view(),
                forall|cc: int|
                    0 <= cc < channels@.len() ==> (#[trigger] channels@[cc])@.len() == len,
                acc == mix_at(chans, num as int, i as int, c as int),
            decreases num_usize - c,
        {
            proof {
                lemma_mix_at_bounds(chans, num as int, i as int, c as int);
                lemma_mix_at_bounds(chans, num as int, i as int, c as int + 1);
                lemma_mix_caps(num as int);
                lemma_mul_mono_audio(c as int + 1, num as int, 32768int / (num as int));
                lemma_mul_mono_audio(c as int + 1, num as int, 32767int / (num as int));
                lemma_div_pos_is_pos(32768int, num as int);
                lemma_div_pos_is_pos(32767int, num as int);
            }
            let s = channels[c][i];
            let term = div_trunc_i16(s, num);
            acc = acc + term;
            c += 1;
        }
        out.push(acc);
        i += 1;
    }
    out
}
pub fn split_stereo(buffer: &[i16]) -> (r: (Vec<i16>, Vec<i16>))
    requires
        buffer@.len() % 2 == 0,
    ensures
        r.0@.len() == buffer@.len() / 2,
        r.1@.len() == buffer@.len() / 2,
        forall|i: int| 0 <= i < r.0@.len() ==> r.0@[i] == buffer@[2 * i],
        forall|i: int| 0 <= i < r.1@.len() ==> r.1@[i] == buffer@[2 * i + 1],
{
    let n = buffer.len();
    let half = n / 2;
    proof {
        vstd::arithmetic::div_mod::lemma_fundamental_div_mod(n as int, 2);
    }
    let mut left: Vec<i16> = Vec::new();
    let mut right: Vec<i16> = Vec::new();
    let mut i: usize = 0;
    while i < half
        invariant
            i <= half,
            n == buffer@.len(),
            half == buffer@.len() / 2,
            2 * half == n,
            buffer@.len() % 2 == 0,
            left@.len() == i,
            right@.len() == i,
            forall|k: int| 0 <= k < i ==> left@[k] == buffer@[2 * k],
            forall|k: int| 0 <= k < i ==> right@[k] == buffer@[2 * k + 1],
        decreases half - i,
    {
        left.push(buffer[2 * i]);
        right.push(buffer[2 * i + 1]);
        i += 1;
    }
    (left, right)
}

} // verus!
