//! The FLAC adapter: reading a FLAC stream into a container through
//! `claxon`: first the header and the metadata blocks, then the frames.

use crate::container::{Lilac, LilacView};
use crate::error::Error;
use crate::tags::{flac_metadata, Comments, Metadata};
use vstd::prelude::*;

verus! {

/// What a FLAC stream holds, as plain mathematical values.
pub struct FlacStreamView {
    pub channels: u32,
    pub sample_rate: u32,
    pub bits_per_sample: u32,
    pub comments: Comments,
    pub samples: Seq<i32>,
}

/// What is read out of a FLAC stream: three numbers of its stream info
/// block, the comments of its Vorbis comment block as pairs of name and
/// value (none where the block is missing), and all samples, interleaved.
#[derive(Debug, Clone, PartialEq, Eq)]
pub struct FlacStream {
    pub channels: u32,
    pub sample_rate: u32,
    pub bits_per_sample: u32,
    pub comments: Vec<(String, String)>,
    pub samples: Vec<i32>,
}

impl View for FlacStream {
    type V = FlacStreamView;

    open spec fn view(&self) -> FlacStreamView {
        FlacStreamView {
            channels: self.channels,
            sample_rate: self.sample_rate,
            bits_per_sample: self.bits_per_sample,
            comments: self.comments.deep_view(),
            samples: self.samples@,
        }
    }
}

/// What a stream info block states of the format, as plain values.
pub struct FlacInfo {
    pub channels: u32,
    pub sample_rate: u32,
    pub bits_per_sample: u32,
}

/// A `claxon` reader over a FLAC stream in memory, with the header and the
/// metadata blocks of the stream read.
///
/// The declaration of `FlacReader` is bound by the trait `Read`, which Verus
/// does not take in a declaration of an outside type. The reader is therefore
/// kept in this struct, into which Verus does not look.
#[verifier::external_body]
pub struct FlacSource {
    inner: claxon::FlacReader<std::io::Cursor<Vec<u8>>>,
}

/// What `claxon` finds at the head of a FLAC stream: the format, the
/// comments, and `audio`, what the reader goes on to give.
pub struct FlacOpening {
    pub channels: u32,
    pub sample_rate: u32,
    pub bits_per_sample: u32,
    pub comments: Comments,
    pub audio: Option<Seq<i32>>,
}

/// The samples that a reader gives, interleaved, when its frames are decoded
/// to the end of the stream; `None` where it stops on an error before.
pub uninterp spec fn flac_audio(reader: FlacSource) -> Option<Seq<i32>>;

/// What `claxon` finds when it opens the bytes of a FLAC stream; `None` where
/// it refuses the header or a metadata block.
pub uninterp spec fn flac_opening(bytes: Seq<u8>) -> Option<FlacOpening>;

/// The stream that the bytes hold, where `claxon` decodes them to the end
/// without an error.
pub open spec fn flac_decoding(bytes: Seq<u8>) -> Option<FlacStreamView> {
    match flac_opening(bytes) {
        Some(opening) => match opening.audio {
            Some(samples) => Some(
                FlacStreamView {
                    channels: opening.channels,
                    sample_rate: opening.sample_rate,
                    bits_per_sample: opening.bits_per_sample,
                    comments: opening.comments,
                    samples,
                },
            ),
            None => None,
        },
        None => None,
    }
}

/// The container that a FLAC stream becomes: the metadata of its comments,
/// its format, its samples unchanged. The channel count keeps its low 16
/// bits.
pub open spec fn flac_container(s: FlacStreamView) -> LilacView {
    let m = flac_metadata(s.comments);
    LilacView {
        title: m.title,
        artist: m.artist,
        year: m.year,
        album: m.album,
        track: m.track,
        channels: s.channels as u16,
        sample_rate: s.sample_rate,
        bit_depth: s.bits_per_sample,
        samples: s.samples,
    }
}

/// What decoding the bytes as FLAC gives: the container of the stream that
/// `claxon` reads, or `Error::Flac` where it refuses the header, a metadata
/// block or a frame.
pub open spec fn flac_outcome(bytes: Seq<u8>, r: Result<Lilac, Error>) -> bool {
    match flac_decoding(bytes) {
        Some(s) => r matches Ok(l) && l@ == flac_container(s),
        None => r matches Err(e) && e is Flac,
    }
}

/// `claxon::FlacReader::new` over a copy of the bytes: reads the header and
/// the metadata blocks. Hands out the reader, three numbers of what its
/// `streaminfo` gives, and the comments that its `tags` give, in the order of
/// the stream.
///
/// The contract gives the outcome its name, and says of it what the layout of
/// the stream info block and the checks of `new` make sure of: one to eight
/// channels, a sample rate that is not zero, one to 32 bits per sample.
#[verifier::external_body]
fn flac_open(bytes: &[u8]) -> (r: Result<
    (FlacSource, FlacInfo, Vec<(String, String)>),
    claxon::Error,
>)
    ensures
        match r {
            Ok((reader, info, comments)) => {
                &&& flac_opening(bytes@) == Some(
                    FlacOpening {
                        channels: info.channels,
                        sample_rate: info.sample_rate,
                        bits_per_sample: info.bits_per_sample,
                        comments: comments.deep_view(),
                        audio: flac_audio(reader),
                    },
                )
                &&& 1 <= info.channels <= 8
                &&& info.sample_rate >= 1
                &&& 1 <= info.bits_per_sample <= 32
            },
            Err(_) => flac_opening(bytes@) is None,
        },
{
    let inner = claxon::FlacReader::new(std::io::Cursor::new(bytes.to_vec()))?;
    let s = inner.streaminfo();
    let info = FlacInfo {
        channels: s.channels,
        sample_rate: s.sample_rate,
        bits_per_sample: s.bits_per_sample,
    };
    let comments = inner.tags().map(|(name, value)| (name.to_owned(), value.to_owned())).collect();
    Ok((FlacSource { inner }, info, comments))
}

/// `claxon::FlacReader::samples`, read to the end of the stream or to the
/// first error. The contract only gives the outcome its name.
#[verifier::external_body]
fn flac_samples(reader: FlacSource) -> (r: Result<Vec<i32>, claxon::Error>)
    ensures
        match r {
            Ok(samples) => flac_audio(reader) == Some(samples@),
            Err(_) => flac_audio(reader) is None,
        },
{
    let mut reader = reader;
    reader.inner.samples().collect()
}

impl Lilac {
    /// The container that a FLAC stream becomes.
    pub fn from_flac_stream(stream: FlacStream) -> (r: Lilac)
        ensures
            r@ == flac_container(stream@),
    {
        let meta = Metadata::from_flac_comments(&stream.comments);
        Lilac {
            title: meta.title,
            artist: meta.artist,
            year: meta.year,
            album: meta.album,
            track: meta.track,
            channels: #[verifier::truncate] (stream.channels as u16),
            sample_rate: stream.sample_rate,
            bit_depth: stream.bits_per_sample,
            samples: stream.samples,
        }
    }

    /// Decodes a FLAC stream. Fails with `Error::Flac` exactly where `claxon`
    /// refuses the header, a metadata block or a frame; missing comments are
    /// no failure. The container has the one to eight channels, the sample
    /// rate and the bit depth of 1 to 32 that the stream info block states.
    ///
    /// A well-formed container is not promised: `claxon` decodes every frame
    /// by the channel count and the bit depth of the frame's own header, so
    /// the samples need neither make whole frames of the container's channel
    /// count nor fit its bit depth, and the bit depth need not be one of 8,
    /// 16, 24 and 32. `is_well_formed` tests it.
    pub fn from_flac(bytes: &[u8]) -> (r: Result<Lilac, Error>)
        ensures
            flac_outcome(bytes@, r),
            flac_decoding(bytes@) matches Some(s) ==> 1 <= s.channels <= 8 && s.sample_rate >= 1
                && 1 <= s.bits_per_sample <= 32,
            r matches Ok(l) ==> 1 <= l.channels <= 8 && l.sample_rate >= 1 && 1 <= l.bit_depth
                <= 32,
    {
        let (reader, info, comments) = match flac_open(bytes) {
            Ok(opened) => opened,
            Err(e) => {
                return Err(Error::Flac(e));
            },
        };
        let samples = match flac_samples(reader) {
            Ok(samples) => samples,
            Err(e) => {
                return Err(Error::Flac(e));
            },
        };
        Ok(
            Lilac::from_flac_stream(
                FlacStream {
                    channels: info.channels,
                    sample_rate: info.sample_rate,
                    bits_per_sample: info.bits_per_sample,
                    comments,
                    samples,
                },
            ),
        )
    }
}

} // verus!
