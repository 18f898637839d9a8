//! The WAV adapter: reading a WAV stream into a container and writing any
//! container out as WAV, sample by sample, both through `hound`.

use crate::container::{in_range, native_bit_depth, Lilac, LilacView};
use crate::error::Error;
use crate::memory::{cursor_bytes, cursor_into_bytes, cursor_over};
use vstd::prelude::*;

verus! {

/// `hound::SampleFormat`, with its variants visible.
#[verifier::external_type_specification]
pub struct ExSampleFormat(hound::SampleFormat);

/// `hound::WavSpec`, the format of a WAV stream, with its fields visible.
#[verifier::external_type_specification]
pub struct ExWavSpec(hound::WavSpec);

/// What a WAV stream holds, as plain mathematical values.
pub struct WavStreamView {
    pub channels: u16,
    pub sample_rate: u32,
    pub bits_per_sample: u16,
    pub samples: Seq<i32>,
}

/// What is read out of a WAV stream: the three numbers of its format chunk
/// and all samples of its data chunk, interleaved.
#[derive(Debug, Clone, PartialEq, Eq)]
pub struct WavStream {
    pub channels: u16,
    pub sample_rate: u32,
    pub bits_per_sample: u16,
    pub samples: Vec<i32>,
}

impl View for WavStream {
    type V = WavStreamView;

    open spec fn view(&self) -> WavStreamView {
        WavStreamView {
            channels: self.channels,
            sample_rate: self.sample_rate,
            bits_per_sample: self.bits_per_sample,
            samples: self.samples@,
        }
    }
}

/// `hound::WavReader`, a reader with the header of its stream read.
#[verifier::external_type_specification]
#[verifier::external_body]
#[verifier::reject_recursive_types(R)]
pub struct ExWavReader<R>(hound::WavReader<R>);

/// What `hound` finds at the head of a WAV stream: the format, and `audio`,
/// what the reader goes on to give.
pub struct WavOpening {
    pub channels: u16,
    pub sample_rate: u32,
    pub bits_per_sample: u16,
    pub audio: Option<Seq<i32>>,
}

/// The samples that a reader gives, as `i32`, when it is read to the end of
/// its data chunk; `None` where it stops on an error before.
pub uninterp spec fn wav_audio(reader: hound::WavReader<std::io::Cursor<Vec<u8>>>) -> Option<
    Seq<i32>,
>;

/// What `hound` finds when it opens the bytes of a WAV stream; `None` where
/// it refuses the header.
pub uninterp spec fn wav_opening(bytes: Seq<u8>) -> Option<WavOpening>;

/// The stream that the bytes hold, where `hound` reads them to the end of the
/// data chunk without an error.
pub open spec fn wav_decoding(bytes: Seq<u8>) -> Option<WavStreamView> {
    match wav_opening(bytes) {
        Some(opening) => match opening.audio {
            Some(samples) => Some(
                WavStreamView {
                    channels: opening.channels,
                    sample_rate: opening.sample_rate,
                    bits_per_sample: opening.bits_per_sample,
                    samples,
                },
            ),
            None => None,
        },
        None => None,
    }
}

/// The bytes of the WAV stream that `hound` writes for integer samples of a
/// channel count, a sample rate and a bit depth, where it takes them all.
pub uninterp spec fn wav_encoding(
    channels: u16,
    sample_rate: u32,
    bits_per_sample: u16,
    samples: Seq<i32>,
) -> Seq<u8>;

/// A `hound` writer at work on a buffer that it has borrowed.
///
/// The declaration of `WavWriter` is bound by the traits `Write` and `Seek`,
/// which Verus does not take in a declaration of an outside type. The writer
/// is therefore kept in this struct, into which Verus does not look.
#[verifier::external_body]
pub struct WavSink<'a> {
    inner: hound::WavWriter<&'a mut std::io::Cursor<Vec<u8>>>,
}

/// What a writer holds: the format that it was made for, the samples that it
/// has taken so far, in order, and `result`, the bytes that its buffer holds
/// at the moment when the writer gives the buffer back.
pub struct WavSinkView {
    pub channels: u16,
    pub sample_rate: u32,
    pub bits_per_sample: u16,
    pub taken: Seq<i32>,
    pub result: Seq<u8>,
}

/// What a writer holds.
pub uninterp spec fn wav_sink(sink: WavSink) -> WavSinkView;

/// The container that a WAV stream becomes: no metadata, the format of the
/// stream, its samples unchanged.
pub open spec fn wav_container(s: WavStreamView) -> LilacView {
    LilacView {
        title: None,
        artist: None,
        year: None,
        album: None,
        track: None,
        channels: s.channels,
        sample_rate: s.sample_rate,
        bit_depth: s.bits_per_sample as u32,
        samples: s.samples,
    }
}

/// What decoding the bytes as WAV gives: the container of the stream that
/// `hound` reads, or `Error::Wav` where it refuses the header or a sample.
pub open spec fn wav_outcome(bytes: Seq<u8>, r: Result<Lilac, Error>) -> bool {
    match wav_decoding(bytes) {
        Some(s) => r matches Ok(l) && l@ == wav_container(s),
        None => r matches Err(e) && e is Wav,
    }
}

/// The number of bytes that one sample of a bit depth takes in a WAV stream.
pub open spec fn bytes_per_sample(bits_per_sample: u16) -> int {
    (bits_per_sample + 7) / 8
}

/// The formats that `hound` can be asked to write. It works out the bytes of
/// a sample from the bit depth and divides by them and by the channel count
/// even where it goes on to refuse the bit depth, so neither may be zero. At
/// a depth that it writes, the header states the bytes of one second in 32
/// bits, and the sample rate is divided by.
pub open spec fn wav_format_fits(channels: u16, sample_rate: u32, bits_per_sample: u16) -> bool {
    &&& 1 <= bits_per_sample <= 65528
    &&& channels >= 1
    &&& native_bit_depth(bits_per_sample as u32) ==> {
        &&& sample_rate >= 1
        &&& sample_rate * bytes_per_sample(bits_per_sample) * channels <= u32::MAX
    }
}

/// How many samples a WAV stream of a bit depth has room for beside its
/// header: the header states the bytes of the whole stream in 32 bits.
pub open spec fn wav_has_room(bits_per_sample: u16, samples: nat) -> bool {
    samples * bytes_per_sample(bits_per_sample) + 60 <= u32::MAX
}

/// The formats and sizes that `hound` can be asked to write.
pub open spec fn wav_sizes_fit(
    channels: u16,
    sample_rate: u32,
    bits_per_sample: u16,
    samples: nat,
) -> bool {
    &&& wav_format_fits(channels, sample_rate, bits_per_sample)
    &&& native_bit_depth(bits_per_sample as u32) ==> wav_has_room(bits_per_sample, samples)
}

/// What `hound` writes without an error: whole frames of samples that each
/// fit the bit depth, at a depth of 8, 16, 24 or 32 bits.
pub open spec fn wav_accepts(channels: u16, bits_per_sample: u16, samples: Seq<i32>) -> bool {
    &&& native_bit_depth(bits_per_sample as u32)
    &&& channels >= 1
    &&& samples.len() % (channels as nat) == 0
    &&& forall|i: int|
        0 <= i < samples.len() ==> in_range(#[trigger] samples[i], bits_per_sample as u32)
}

/// `hound::WavReader::new` over a copy of the bytes: reads the header. Hands
/// out the reader and the format that its `spec` gives.
///
/// The contract gives the outcome its name, and says of it what `new` looks
/// to before it takes a header: that the stream has a channel, and that its
/// data chunk holds whole frames.
#[verifier::external_body]
fn wav_open(bytes: &[u8]) -> (r: Result<
    (hound::WavReader<std::io::Cursor<Vec<u8>>>, hound::WavSpec),
    hound::Error,
>)
    ensures
        match r {
            Ok((reader, spec)) => {
                &&& wav_opening(bytes@) == Some(
                    WavOpening {
                        channels: spec.channels,
                        sample_rate: spec.sample_rate,
                        bits_per_sample: spec.bits_per_sample,
                        audio: wav_audio(reader),
                    },
                )
                &&& spec.channels >= 1
                &&& wav_audio(reader) matches Some(samples) ==> samples.len() % (
                spec.channels as nat) == 0
            },
            Err(_) => wav_opening(bytes@) is None,
        },
{
    let reader = hound::WavReader::new(std::io::Cursor::new(bytes.to_vec()))?;
    let spec = reader.spec();
    Ok((reader, spec))
}

/// `hound::WavReader::samples` for `i32`, read to the end of the data chunk
/// or to the first error. The contract only gives the outcome its name.
#[verifier::external_body]
fn wav_samples(reader: hound::WavReader<std::io::Cursor<Vec<u8>>>) -> (r: Result<
    Vec<i32>,
    hound::Error,
>)
    ensures
        match r {
            Ok(samples) => wav_audio(reader) == Some(samples@),
            Err(_) => wav_audio(reader) is None,
        },
{
    let mut reader = reader;
    reader.samples::<i32>().collect()
}

/// `hound::WavWriter::new` on an empty buffer, which the writer borrows until
/// it is finalized or dropped.
///
/// The contract says that `new` takes the bit depths 8, 16, 24 and 32 and no
/// other, that the writer is made for the format given and has taken no
/// sample yet, and that the bytes which the buffer holds when it comes back
/// are those that the writer calls its result. Outside `wav_format_fits` the
/// arithmetic of `hound` overflows or divides by zero, here or when the
/// writer is dropped.
#[verifier::external_body]
fn wav_begin<'a>(buffer: &'a mut std::io::Cursor<Vec<u8>>, spec: hound::WavSpec) -> (r: Result<
    WavSink<'a>,
    hound::Error,
>)
    requires
        cursor_bytes(*old(buffer)).len() == 0,
        spec.sample_format is Int,
        wav_format_fits(spec.channels, spec.sample_rate, spec.bits_per_sample),
    ensures
        r is Ok <==> native_bit_depth(spec.bits_per_sample as u32),
        r matches Ok(sink) ==> wav_sink(sink) == (WavSinkView {
            channels: spec.channels,
            sample_rate: spec.sample_rate,
            bits_per_sample: spec.bits_per_sample,
            taken: Seq::empty(),
            result: cursor_bytes(*final(buffer)),
        }),
{
    Ok(WavSink { inner: hound::WavWriter::new(buffer, spec)? })
}

/// `hound::WavWriter::write_sample` for an `i32`.
///
/// The contract says that the writer takes a sample exactly if the sample
/// fits the bit depth, and that nothing else about the writer changes. The
/// writer counts the bytes of its data in 32 bits: there must be room for one
/// more sample.
#[verifier::external_body]
fn wav_put(sink: &mut WavSink<'_>, sample: i32) -> (r: Result<(), hound::Error>)
    requires
        wav_has_room(wav_sink(*old(sink)).bits_per_sample, wav_sink(*old(sink)).taken.len() + 1),
    ensures
        r is Ok <==> in_range(sample, wav_sink(*old(sink)).bits_per_sample as u32),
        wav_sink(*final(sink)) == (WavSinkView {
            taken: if r is Ok {
                wav_sink(*old(sink)).taken.push(sample)
            } else {
                wav_sink(*old(sink)).taken
            },
            ..wav_sink(*old(sink))
        }),
{
    sink.inner.write_sample(sample)
}

/// `hound::WavWriter::finalize`: fills in the lengths of the header and gives
/// the buffer back.
///
/// The contract says that this succeeds exactly if the samples taken make
/// whole frames, and that the result is then the WAV stream of the samples
/// taken. The channel count is divided by.
#[verifier::external_body]
fn wav_finish(sink: WavSink<'_>) -> (r: Result<(), hound::Error>)
    requires
        wav_sink(sink).channels >= 1,
    ensures
        r is Ok <==> wav_sink(sink).taken.len() % (wav_sink(sink).channels as nat) == 0,
        r is Ok ==> wav_sink(sink).result == wav_encoding(
            wav_sink(sink).channels,
            wav_sink(sink).sample_rate,
            wav_sink(sink).bits_per_sample,
            wav_sink(sink).taken,
        ),
{
    sink.inner.finalize()
}

impl Lilac {
    /// The container that a WAV stream becomes.
    pub fn from_wav_stream(stream: WavStream) -> (r: Lilac)
        ensures
            r@ == wav_container(stream@),
    {
        Lilac {
            title: None,
            artist: None,
            year: None,
            album: None,
            track: None,
            channels: stream.channels,
            sample_rate: stream.sample_rate,
            bit_depth: stream.bits_per_sample as u32,
            samples: stream.samples,
        }
    }

    /// Decodes a WAV stream. Fails with `Error::Wav` exactly where `hound`
    /// refuses the header or a sample. The container has a channel and whole
    /// frames. Its sample rate may be zero and its bit depth any that the
    /// header states: `is_well_formed` tests the rest.
    pub fn from_wav(bytes: &[u8]) -> (r: Result<Lilac, Error>)
        ensures
            wav_outcome(bytes@, r),
            r matches Ok(l) ==> l.channels >= 1 && l.samples@.len() % (l.channels as nat) == 0,
    {
        let (reader, spec) = match wav_open(bytes) {
            Ok(opened) => opened,
            Err(e) => {
                return Err(Error::Wav(e));
            },
        };
        let samples = match wav_samples(reader) {
            Ok(samples) => samples,
            Err(e) => {
                return Err(Error::Wav(e));
            },
        };
        Ok(
            Lilac::from_wav_stream(
                WavStream {
                    channels: spec.channels,
                    sample_rate: spec.sample_rate,
                    bits_per_sample: spec.bits_per_sample,
                    samples,
                },
            ),
        )
    }

    /// The bit depth as a WAV header states it: its low 16 bits.
    pub open spec fn wav_bits(&self) -> u16 {
        self.bit_depth as u16
    }

    /// Whether `to_wav` can be asked to write this container.
    pub open spec fn wav_writable(&self) -> bool {
        wav_sizes_fit(self.channels, self.sample_rate, self.wav_bits(), self.samples@.len())
    }

    /// Tests `wav_writable`.
    pub fn is_wav_writable(&self) -> (r: bool)
        ensures
            r == self.wav_writable(),
    {
        let bits = #[verifier::truncate] (self.bit_depth as u16);
        if bits == 0 || bits > 65528 || self.channels == 0 {
            return false;
        }
        if !(bits == 8 || bits == 16 || bits == 24 || bits == 32) {
            return true;
        }
        let width: u64 = ((bits + 7) / 8) as u64;
        assert(1 <= width <= 4 && width == bytes_per_sample(bits));
        if self.sample_rate == 0 || self.samples.len() > u32::MAX as usize {
            assert(self.samples@.len() * width >= self.samples@.len()) by (nonlinear_arith)
                requires
                    width >= 1,
            ;
            return false;
        }
        assert(width * self.channels <= 0x4_0000) by (nonlinear_arith)
            requires
                width <= 4,
                self.channels <= 0xFFFF,
        ;
        let frame: u64 = width * self.channels as u64;
        assert(self.sample_rate * frame <= 0xFFFF_FFFF * 0x4_0000) by (nonlinear_arith)
            requires
                self.sample_rate <= 0xFFFF_FFFF,
                frame <= 0x4_0000,
        ;
        assert(self.sample_rate * bytes_per_sample(bits) * self.channels == self.sample_rate
            * frame) by (nonlinear_arith)
            requires
                frame == bytes_per_sample(bits) * self.channels,
        ;
        let second: u64 = self.sample_rate as u64 * frame;
        assert(self.samples@.len() * width <= 0xFFFF_FFFF * 4) by (nonlinear_arith)
            requires
                self.samples@.len() <= 0xFFFF_FFFF,
                width <= 4,
        ;
        let data: u64 = self.samples.len() as u64 * width;
        second <= u32::MAX as u64 && data + 60 <= u32::MAX as u64
    }

    /// Encodes the container as a WAV stream with its own channel count,
    /// sample rate and bit depth.
    ///
    /// Succeeds exactly where the stream is made of whole frames of samples
    /// that fit a bit depth of 8, 16, 24 or 32 bits: on every well-formed
    /// container that is writable. All other writable containers fail with
    /// `Error::Wav`, at the first thing that `hound` refuses: the bit depth,
    /// then the first sample that does not fit it, then a last frame that is
    /// not whole.
    pub fn to_wav(&self) -> (r: Result<Vec<u8>, Error>)
        requires
            self.wav_writable(),
        ensures
            r is Ok <==> wav_accepts(self.channels, self.wav_bits(), self.samples@),
            r matches Ok(bytes) ==> bytes@ == wav_encoding(
                self.channels,
                self.sample_rate,
                self.wav_bits(),
                self.samples@,
            ),
            r matches Err(e) ==> e is Wav,
            self.wf() ==> r is Ok,
    {
        let spec = hound::WavSpec {
            channels: self.channels,
            sample_rate: self.sample_rate,
            bits_per_sample: #[verifier::truncate] (self.bit_depth as u16),
            sample_format: hound::SampleFormat::Int,
        };
        let mut buffer = cursor_over(Vec::new());
        let mut sink = match wav_begin(&mut buffer, spec) {
            Ok(sink) => sink,
            Err(e) => {
                return Err(Error::Wav(e));
            },
        };
        let ghost result = wav_sink(sink).result;
        let mut i: usize = 0;
        assert(self.samples@.subrange(0, 0) =~= Seq::<i32>::empty());
        while i < self.samples.len()
            invariant
                i <= self.samples.len(),
                spec.channels == self.channels,
                spec.sample_rate == self.sample_rate,
                spec.bits_per_sample == self.wav_bits(),
                native_bit_depth(spec.bits_per_sample as u32),
                wav_has_room(spec.bits_per_sample, self.samples@.len()),
                wav_sink(sink) == (WavSinkView {
                    channels: spec.channels,
                    sample_rate: spec.sample_rate,
                    bits_per_sample: spec.bits_per_sample,
                    taken: self.samples@.subrange(0, i as int),
                    result,
                }),
                forall|j: int|
                    0 <= j < i ==> in_range(#[trigger] self.samples@[j], spec.bits_per_sample as u32),
            decreases self.samples.len() - i,
        {
            proof {
                let width = bytes_per_sample(spec.bits_per_sample);
                assert((i + 1) * width <= self.samples@.len() * width) by (nonlinear_arith)
                    requires
                        i + 1 <= self.samples@.len(),
                        width >= 0,
                ;
            }
            match wav_put(&mut sink, self.samples[i]) {
                Ok(()) => {},
                Err(e) => {
                    assert(!in_range(self.samples@[i as int], self.wav_bits() as u32));
                    return Err(Error::Wav(e));
                },
            }
            assert(self.samples@.subrange(0, i as int).push(self.samples@[i as int])
                =~= self.samples@.subrange(0, i + 1));
            i = i + 1;
        }
        assert(self.samples@.subrange(0, self.samples.len() as int) =~= self.samples@);
        match wav_finish(sink) {
            Ok(()) => Ok(cursor_into_bytes(buffer)),
            Err(e) => Err(Error::Wav(e)),
        }
    }
}

} // verus!
