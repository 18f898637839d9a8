//! The canonical container: metadata and interleaved integer sample codes.

use vstd::arithmetic::power2::{lemma2_to64, lemma_pow2_strictly_increases, lemma_pow2_unfold, pow2};
use vstd::prelude::*;

verus! {

/// What a container holds, as plain mathematical values.
pub struct LilacView {
    pub title: Option<Seq<char>>,
    pub artist: Option<Seq<char>>,
    pub year: Option<i32>,
    pub album: Option<Seq<char>>,
    pub track: Option<u32>,
    pub channels: u16,
    pub sample_rate: u32,
    pub bit_depth: u32,
    pub samples: Seq<i32>,
}

/// The text of an optional string.
pub open spec fn text_of(s: Option<String>) -> Option<Seq<char>> {
    match s {
        Some(t) => Some(t@),
        None => None,
    }
}

/// `2^(bit_depth - 1)`: the magnitude of the most negative sample code of a
/// bit depth.
pub open spec fn half_range(bit_depth: u32) -> int {
    pow2((bit_depth - 1) as nat) as int
}

/// Whether a sample code can be represented in `bit_depth` bits.
pub open spec fn in_range(sample: i32, bit_depth: u32) -> bool {
    -half_range(bit_depth) <= sample <= half_range(bit_depth) - 1
}

/// Whether a bit depth is one that the source formats use.
pub open spec fn native_bit_depth(bit_depth: u32) -> bool {
    bit_depth == 8 || bit_depth == 16 || bit_depth == 24 || bit_depth == 32
}

/// An audio stream in canonical form.
///
/// The sample codes are interleaved by channel. Nothing stops a caller from
/// building a container that breaks the rules of the format; `wf` states those
/// rules and `is_well_formed` tests them.
#[derive(Debug, Clone, PartialEq, Eq, Hash)]
pub struct Lilac {
    pub title: Option<String>,
    pub artist: Option<String>,
    pub year: Option<i32>,
    pub album: Option<String>,
    pub track: Option<u32>,
    pub channels: u16,
    pub sample_rate: u32,
    pub bit_depth: u32,
    pub samples: Vec<i32>,
}

impl View for Lilac {
    type V = LilacView;

    open spec fn view(&self) -> LilacView {
        LilacView {
            title: text_of(self.title),
            artist: text_of(self.artist),
            year: self.year,
            album: text_of(self.album),
            track: self.track,
            channels: self.channels,
            sample_rate: self.sample_rate,
            bit_depth: self.bit_depth,
            samples: self.samples@,
        }
    }
}

impl LilacView {
    /// The rules of the format: at least one channel, a positive sample rate,
    /// a native bit depth, whole frames only, every sample code within the
    /// range of the bit depth.
    pub open spec fn wf(self) -> bool {
        &&& self.channels >= 1
        &&& self.sample_rate > 0
        &&& native_bit_depth(self.bit_depth)
        &&& self.samples.len() % (self.channels as nat) == 0
        &&& forall|i: int|
            0 <= i < self.samples.len() ==> in_range(#[trigger] self.samples[i], self.bit_depth)
    }
}

/// The text shown for a metadata field that is absent.
pub open spec fn unknown() -> Seq<char> {
    "Unknown"@
}

/// The text shown for a metadata field.
pub open spec fn shown(field: Option<Seq<char>>) -> Seq<char> {
    match field {
        Some(t) => t,
        None => unknown(),
    }
}

/// `2^(bit_depth - 1)` as a machine integer.
pub fn half_range_of(bit_depth: u32) -> (r: u32)
    requires
        1 <= bit_depth <= 32,
    ensures
        r == half_range(bit_depth),
        r >= 1,
{
    let mut r: u32 = 1;
    let mut k: u32 = 1;
    proof {
        lemma2_to64();
    }
    while k < bit_depth
        invariant
            1 <= k <= bit_depth <= 32,
            r == pow2((k - 1) as nat),
            r >= 1,
        decreases bit_depth - k,
    {
        proof {
            lemma_pow2_unfold(k as nat);
            lemma_pow2_strictly_increases(k as nat, 32);
            lemma2_to64();
        }
        r = r * 2;
        k = k + 1;
    }
    r
}

impl Lilac {
    /// The rules of the format, stated of this container.
    pub open spec fn wf(&self) -> bool {
        self@.wf()
    }

    /// A container with the given fields.
    pub fn new(
        title: Option<String>,
        artist: Option<String>,
        year: Option<i32>,
        album: Option<String>,
        track: Option<u32>,
        channels: u16,
        sample_rate: u32,
        bit_depth: u32,
        samples: Vec<i32>,
    ) -> (r: Lilac)
        ensures
            r.title == title,
            r.artist == artist,
            r.year == year,
            r.album == album,
            r.track == track,
            r.channels == channels,
            r.sample_rate == sample_rate,
            r.bit_depth == bit_depth,
            r.samples == samples,
    {
        Lilac { title, artist, year, album, track, channels, sample_rate, bit_depth, samples }
    }

    /// The title, or `Unknown` where the container has none.
    pub fn title(&self) -> (r: &str)
        ensures
            r@ == shown(self@.title),
    {
        match &self.title {
            Some(t) => t.as_str(),
            None => "Unknown",
        }
    }

    /// The artist, or `Unknown` where the container has none.
    pub fn artist(&self) -> (r: &str)
        ensures
            r@ == shown(self@.artist),
    {
        match &self.artist {
            Some(t) => t.as_str(),
            None => "Unknown",
        }
    }

    /// The album, or `Unknown` where the container has none.
    pub fn album(&self) -> (r: &str)
        ensures
            r@ == shown(self@.album),
    {
        match &self.album {
            Some(t) => t.as_str(),
            None => "Unknown",
        }
    }

    /// Whether the container keeps the rules of the format.
    pub fn is_well_formed(&self) -> (r: bool)
        ensures
            r == self.wf(),
    {
        if self.channels == 0 || self.sample_rate == 0 {
            return false;
        }
        if !(self.bit_depth == 8 || self.bit_depth == 16 || self.bit_depth == 24
            || self.bit_depth == 32) {
            return false;
        }
        if self.samples.len() % (self.channels as usize) != 0 {
            return false;
        }
        let half = half_range_of(self.bit_depth);
        let mut i: usize = 0;
        while i < self.samples.len()
            invariant
                i <= self.samples.len(),
                half == half_range(self.bit_depth),
                forall|j: int| 0 <= j < i ==> in_range(#[trigger] self.samples@[j], self.bit_depth),
            decreases self.samples.len() - i,
        {
            let s = self.samples[i];
            let fits = -(half as i64) <= s as i64 && (s as i64) <= half as i64 - 1;
            if !fits {
                assert(!in_range(self.samples@[i as int], self.bit_depth));
                return false;
            }
            i = i + 1;
        }
        true
    }
}

} // verus!
