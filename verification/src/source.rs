//! Playback view of a container: its sample codes as exact fractions between
//! minus one and one, and the duration it announces.
//!
//! A sample code is scaled by the magnitude of the extreme of its own sign:
//! the negative codes by `2^(b-1)`, the positive ones by `2^(b-1) - 1`, so
//! that both extremes land on the ends of the interval. The library hands out
//! numerator and denominator; dividing them is left to the caller.

use crate::container::{half_range, half_range_of, in_range, Lilac};
use vstd::arithmetic::div_mod::lemma_div_is_ordered;
use vstd::arithmetic::power2::{lemma2_to64, lemma_pow2_strictly_increases};
use vstd::prelude::*;

verus! {

/// A normalised sample: the fraction `numerator / denominator`.
#[derive(Clone, Copy, Debug, PartialEq, Eq, Structural)]
pub struct Normalized {
    pub numerator: i32,
    pub denominator: u32,
}

impl Normalized {
    /// The fraction lies between minus one and one, both included.
    pub open spec fn within_unit(self) -> bool {
        self.denominator > 0 && -self.denominator <= self.numerator <= self.denominator
    }

    /// The fraction is exactly zero.
    pub open spec fn is_zero(self) -> bool {
        self.denominator > 0 && self.numerator == 0
    }

    /// The fraction is exactly one.
    pub open spec fn is_one(self) -> bool {
        self.denominator > 0 && self.numerator == self.denominator
    }

    /// The fraction is exactly minus one.
    pub open spec fn is_minus_one(self) -> bool {
        self.denominator > 0 && self.numerator == -self.denominator
    }
}

/// The normalised form of a sample code at a bit depth.
pub open spec fn normalized(sample: i32, bit_depth: u32) -> Normalized {
    if sample < 0 {
        Normalized { numerator: sample, denominator: half_range(bit_depth) as u32 }
    } else if sample == 0 {
        Normalized { numerator: 0, denominator: 1 }
    } else {
        Normalized { numerator: sample, denominator: (half_range(bit_depth) - 1) as u32 }
    }
}

/// The normalised forms of a run of sample codes, in order.
pub open spec fn normalized_all(samples: Seq<i32>, bit_depth: u32) -> Seq<Normalized> {
    Seq::new(samples.len(), |i: int| normalized(samples[i], bit_depth))
}

/// The announced duration in milliseconds: the samples per channel, divided
/// by the whole number of samples per millisecond. Both divisions round down.
pub open spec fn duration_ms(samples: nat, channels: u16, sample_rate: u32) -> nat {
    samples / (channels as nat) / ((sample_rate / 1000) as nat)
}

/// Bit depths for which both scales are machine integers.
pub open spec fn scalable(bit_depth: u32) -> bool {
    1 <= bit_depth <= 32
}

/// Within the range of its bit depth a sample code is normalised to a
/// fraction between minus one and one, and zero to exactly zero.
pub proof fn lemma_normalized_within_unit(sample: i32, bit_depth: u32)
    requires
        scalable(bit_depth),
        in_range(sample, bit_depth),
    ensures
        normalized(sample, bit_depth).within_unit(),
        normalized(0, bit_depth).is_zero(),
{
    lemma_half_range_bounds(bit_depth);
}

/// The most negative sample code of a bit depth is normalised to exactly
/// minus one; the most positive one to exactly one, at any depth of two bits
/// or more. (One bit has no positive code.)
pub proof fn lemma_normalized_extremes(bit_depth: u32)
    requires
        scalable(bit_depth),
    ensures
        normalized((-half_range(bit_depth)) as i32, bit_depth).is_minus_one(),
        bit_depth >= 2 ==> normalized((half_range(bit_depth) - 1) as i32, bit_depth).is_one(),
{
    lemma_half_range_bounds(bit_depth);
    if bit_depth >= 2 {
        lemma2_to64();
        lemma_pow2_strictly_increases(0, (bit_depth - 1) as nat);
    }
}

/// With channel count and sample rate fixed, more samples never announce a
/// shorter duration.
pub proof fn lemma_duration_monotonic(fewer: nat, more: nat, channels: u16, sample_rate: u32)
    requires
        fewer <= more,
        channels >= 1,
        sample_rate >= 1000,
    ensures
        duration_ms(fewer, channels, sample_rate) <= duration_ms(more, channels, sample_rate),
{
    let per_ms = (sample_rate / 1000) as int;
    lemma_div_is_ordered(fewer as int, more as int, channels as int);
    lemma_div_is_ordered(fewer as int / channels as int, more as int / channels as int, per_ms);
}

/// `2^(b-1)` lies between 1 and `2^31` for a bit depth of 1 to 32.
pub proof fn lemma_half_range_bounds(bit_depth: u32)
    requires
        scalable(bit_depth),
    ensures
        1 <= half_range(bit_depth) <= 0x8000_0000,
{
    lemma2_to64();
    if bit_depth > 1 {
        lemma_pow2_strictly_increases(0, (bit_depth - 1) as nat);
    }
    if bit_depth < 32 {
        lemma_pow2_strictly_increases((bit_depth - 1) as nat, 31);
    }
}

/// Normalises one sample code.
pub fn normalize(sample: i32, bit_depth: u32) -> (r: Normalized)
    requires
        scalable(bit_depth),
    ensures
        r == normalized(sample, bit_depth),
        in_range(sample, bit_depth) ==> r.within_unit(),
{
    let min = half_range_of(bit_depth);
    proof {
        lemma_half_range_bounds(bit_depth);
    }
    if sample < 0 {
        Normalized { numerator: sample, denominator: min }
    } else if sample == 0 {
        Normalized { numerator: 0, denominator: 1 }
    } else {
        Normalized { numerator: sample, denominator: min - 1 }
    }
}

/// The announced duration of `samples` interleaved sample codes.
pub fn total_duration_ms(samples: usize, channels: u16, sample_rate: u32) -> (r: u64)
    requires
        channels >= 1,
        sample_rate >= 1000,
    ensures
        r == duration_ms(samples as nat, channels, sample_rate),
{
    samples as u64 / channels as u64 / (sample_rate / 1000) as u64
}

/// A forward-only run through the normalised samples of a container.
pub struct LilacSource {
    channels: u16,
    sample_rate: u32,
    bit_depth: u32,
    samples: Vec<i32>,
    position: usize,
    duration: u64,
}

impl LilacSource {
    #[verifier::type_invariant]
    spec fn inv(self) -> bool {
        &&& scalable(self.bit_depth)
        &&& self.position <= self.samples.len()
    }

    /// The samples still to come, in order.
    pub closed spec fn remaining(self) -> Seq<Normalized> {
        normalized_all(
            self.samples@.subrange(self.position as int, self.samples.len() as int),
            self.bit_depth,
        )
    }

    /// The channel count of the container.
    pub closed spec fn spec_channels(self) -> u16 {
        self.channels
    }

    /// The sample rate of the container.
    pub closed spec fn spec_sample_rate(self) -> u32 {
        self.sample_rate
    }

    /// The announced duration in milliseconds.
    pub closed spec fn spec_duration(self) -> u64 {
        self.duration
    }

    /// The number of channels.
    pub fn channels(&self) -> (r: u16)
        ensures
            r == self.spec_channels(),
    {
        self.channels
    }

    /// The sample rate in hertz.
    pub fn sample_rate(&self) -> (r: u32)
        ensures
            r == self.spec_sample_rate(),
    {
        self.sample_rate
    }

    /// The length of the current frame: never known.
    pub fn current_frame_len(&self) -> (r: Option<usize>)
        ensures
            r is None,
    {
        None
    }

    /// The total duration in milliseconds, as announced when the source was
    /// made. It does not shrink as samples are taken.
    pub fn total_duration_ms(&self) -> (r: u64)
        ensures
            r == self.spec_duration(),
    {
        self.duration
    }

    /// Takes the next sample, if one is left.
    pub fn next(&mut self) -> (r: Option<Normalized>)
        ensures
            final(self).spec_channels() == old(self).spec_channels(),
            final(self).spec_sample_rate() == old(self).spec_sample_rate(),
            final(self).spec_duration() == old(self).spec_duration(),
            match r {
                Some(n) => old(self).remaining().len() > 0 && n == old(self).remaining()[0]
                    && final(self).remaining() == old(self).remaining().drop_first(),
                None => old(self).remaining().len() == 0 && final(self).remaining() == old(
                    self,
                ).remaining(),
            },
    {
        proof {
            use_type_invariant(&*self);
        }
        if self.position < self.samples.len() {
            let n = normalize(self.samples[self.position], self.bit_depth);
            let ghost before = self.samples@.subrange(
                self.position as int,
                self.samples.len() as int,
            );
            self.position = self.position + 1;
            proof {
                let after = self.samples@.subrange(
                    self.position as int,
                    self.samples.len() as int,
                );
                assert(after =~= before.drop_first());
                assert(normalized_all(after, self.bit_depth) =~= normalized_all(
                    before,
                    self.bit_depth,
                ).drop_first());
            }
            Some(n)
        } else {
            None
        }
    }
}

impl Lilac {
    /// Whether a playback view can be made of this container: the bit depth
    /// is 1 to 32, there is a channel, and the sample rate is a kilohertz or
    /// more.
    pub open spec fn playable(&self) -> bool {
        &&& scalable(self.bit_depth)
        &&& self.channels >= 1
        &&& self.sample_rate >= 1000
    }

    /// Tests `playable`.
    pub fn is_playable(&self) -> (r: bool)
        ensures
            r == self.playable(),
    {
        1 <= self.bit_depth && self.bit_depth <= 32 && self.channels >= 1 && self.sample_rate
            >= 1000
    }

    /// Turns the container into its playback view, which takes over the
    /// sample buffer. Of a well-formed container every sample comes out
    /// between minus one and one.
    pub fn source(self) -> (r: LilacSource)
        requires
            self.playable(),
        ensures
            r.spec_channels() == self.channels,
            r.spec_sample_rate() == self.sample_rate,
            r.spec_duration() == duration_ms(self.samples@.len(), self.channels, self.sample_rate),
            r.remaining() == normalized_all(self.samples@, self.bit_depth),
            self.wf() ==> forall|i: int|
                0 <= i < r.remaining().len() ==> (#[trigger] r.remaining()[i]).within_unit(),
    {
        proof {
            if self.wf() {
                assert forall|i: int| 0 <= i < self.samples@.len() implies (#[trigger] normalized_all(
                    self.samples@,
                    self.bit_depth,
                )[i]).within_unit() by {
                    lemma_normalized_within_unit(self.samples@[i], self.bit_depth);
                }
            }
        }
        let duration = total_duration_ms(self.samples.len(), self.channels, self.sample_rate);
        assert(self.samples@.subrange(0, self.samples.len() as int) =~= self.samples@);
        LilacSource {
            channels: self.channels,
            sample_rate: self.sample_rate,
            bit_depth: self.bit_depth,
            samples: self.samples,
            position: 0,
            duration,
        }
    }
}

} // verus!
