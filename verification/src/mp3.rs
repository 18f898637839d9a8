//! The MP3 adapter: reading an MP3 stream into a container. The metadata
//! comes out of an ID3 tag through `id3`, the audio out of the MPEG frames
//! through `minimp3`, frame by frame.
//!
//! What the frames hold is not a function of the bytes alone: the decoder
//! rounds a sample to 16 bits in a way that differs from machine to machine.
//! What a decoder gives is therefore said of the decoder, by `read_frames_of`
//! and `Lilac::from_mp3_decoder`; of the bytes only the tag is said.

use crate::container::{Lilac, LilacView};
use crate::error::Error;
use crate::pcm::{append_widened, sixteen_bit, widened};
use crate::tags::{described_by, no_metadata, Metadata, MetadataView};
use id3::TagLike;
use vstd::prelude::*;

verus! {

/// `minimp3::Decoder`, the state of a stream being decoded.
#[verifier::external_type_specification]
#[verifier::external_body]
#[verifier::reject_recursive_types(R)]
pub struct ExDecoder<R>(minimp3::Decoder<R>);

/// A decoded frame, as plain mathematical values.
pub struct FrameView {
    pub data: Seq<i16>,
    pub sample_rate: i32,
    pub channels: usize,
}

/// One decoded MPEG frame: its samples, interleaved, and the sample rate and
/// channel count that its header states.
#[derive(Debug, Clone, PartialEq, Eq)]
pub struct Mp3Frame {
    pub data: Vec<i16>,
    pub sample_rate: i32,
    pub channels: usize,
}

impl View for Mp3Frame {
    type V = FrameView;

    open spec fn view(&self) -> FrameView {
        FrameView { data: self.data@, sample_rate: self.sample_rate, channels: self.channels }
    }
}

/// A run of decoded frames, as plain mathematical values.
pub open spec fn frame_views(frames: Seq<Mp3Frame>) -> Seq<FrameView> {
    Seq::new(frames.len(), |i: int| frames[i]@)
}

/// What reading a tag gave.
pub enum TagRead {
    /// A tag, with these fields as `id3` gives them.
    Found(Metadata),
    /// No tag at all.
    Absent,
    /// Something that begins as a tag and cannot be read as one.
    Malformed(id3::Error),
}

/// What `id3` finds at the head of a stream.
pub enum TagProbe {
    /// A tag, with these fields as `id3` gives them.
    Found(MetadataView),
    /// No tag at all.
    Absent,
    /// Something that begins as a tag and cannot be read as one.
    Malformed,
}

/// What `id3` finds in the bytes of a stream.
pub uninterp spec fn id3_probe(bytes: Seq<u8>) -> TagProbe;

/// The frames that a decoder will still hand out before it stops, in the
/// process in which it runs.
pub uninterp spec fn mp3_rest(decoder: minimp3::Decoder<std::io::Cursor<Vec<u8>>>) -> Seq<
    FrameView,
>;

/// Whether a decoder, once it has handed out its frames, stops at the end of
/// its stream (`Eof`) rather than on another error.
pub uninterp spec fn mp3_clean(decoder: minimp3::Decoder<std::io::Cursor<Vec<u8>>>) -> bool;

/// The bytes of the stream that a decoder was made over.
pub uninterp spec fn mp3_source(decoder: minimp3::Decoder<std::io::Cursor<Vec<u8>>>) -> Seq<u8>;

/// What reading a decoder to its end gives: all its frames where it stops at
/// the end of its stream, `Error::Mp3` where it stops on another error.
pub open spec fn frames_read(
    given: minimp3::Decoder<std::io::Cursor<Vec<u8>>>,
    r: Result<Vec<Mp3Frame>, Error>,
) -> bool {
    if mp3_clean(given) {
        r matches Ok(frames) && frame_views(frames@) == mp3_rest(given)
    } else {
        r matches Err(e) && e is Mp3
    }
}

/// The samples of all frames, one frame after the other, as 32-bit sample
/// codes.
pub open spec fn frame_samples(frames: Seq<FrameView>) -> Seq<i32>
    decreases frames.len(),
{
    if frames.len() == 0 {
        Seq::empty()
    } else {
        frame_samples(frames.drop_last()) + widened(frames.last().data)
    }
}

/// The container that the frames of an MP3 stream become under some
/// metadata: the channel count and sample rate of the first frame, 16 bits,
/// the samples of all frames.
pub open spec fn mp3_container(meta: MetadataView, frames: Seq<FrameView>) -> LilacView {
    LilacView {
        title: meta.title,
        artist: meta.artist,
        year: meta.year,
        album: meta.album,
        track: meta.track,
        channels: frames[0].channels as u16,
        sample_rate: frames[0].sample_rate as u32,
        bit_depth: 16,
        samples: frame_samples(frames),
    }
}

/// What holds of decoding a stream whose tag is not malformed, whatever the
/// decoder gives: a container of 16-bit sample codes under the metadata of
/// the tag, or `Error::Mp3`.
pub open spec fn mp3_audio_outcome(r: Result<Lilac, Error>, meta: MetadataView) -> bool {
    match r {
        Ok(l) => described_by(l@, meta) && l.bit_depth == 16 && sixteen_bit(l.samples@),
        Err(e) => e is Mp3,
    }
}

/// What holds of decoding the bytes as MP3: `Error::Id3` exactly where a tag
/// is there and malformed; else what holds of the audio under the metadata of
/// the tag, or under none where there is no tag.
pub open spec fn mp3_outcome(bytes: Seq<u8>, r: Result<Lilac, Error>) -> bool {
    match id3_probe(bytes) {
        TagProbe::Malformed => r matches Err(e) && e is Id3,
        TagProbe::Absent => mp3_audio_outcome(r, no_metadata()),
        TagProbe::Found(m) => mp3_audio_outcome(r, m),
    }
}

/// `id3::Tag::read_from2` over the bytes, and the five fields of the tag it
/// finds: `title`, `artist`, `year`, `album`, `track`. An error of the kind
/// `NoTag` is told apart from every other error. The contract only gives the
/// outcome its name.
///
/// `id3` reserves as much memory as a frame of the tag says that it holds,
/// which may be four gibibytes, before it reads the frame. Where the machine
/// has not that much to give, the process ends there.
#[verifier::external_body]
fn id3_read(bytes: &[u8]) -> (r: TagRead)
    ensures
        match r {
            TagRead::Found(meta) => id3_probe(bytes@) == TagProbe::Found(meta@),
            TagRead::Absent => id3_probe(bytes@) == TagProbe::Absent,
            TagRead::Malformed(_) => id3_probe(bytes@) == TagProbe::Malformed,
        },
{
    match id3::Tag::read_from2(std::io::Cursor::new(bytes)) {
        Ok(tag) => TagRead::Found(
            Metadata {
                title: tag.title().map(str::to_owned),
                artist: tag.artist().map(str::to_owned),
                year: tag.year(),
                album: tag.album().map(str::to_owned),
                track: tag.track(),
            },
        ),
        Err(id3::Error { kind: id3::ErrorKind::NoTag, .. }) => TagRead::Absent,
        Err(e) => TagRead::Malformed(e),
    }
}

/// `minimp3::Decoder::new` over a copy of the bytes, read from their start.
/// Nothing is decoded yet, and nothing is said of what will be: only over
/// which bytes the decoder was made.
#[verifier::external_body]
fn mp3_decoder(bytes: &[u8]) -> (d: minimp3::Decoder<std::io::Cursor<Vec<u8>>>)
    ensures
        mp3_source(d) == bytes@,
{
    minimp3::Decoder::new(std::io::Cursor::new(bytes.to_vec()))
}

/// `minimp3::Decoder::next_frame`: decodes the next frame.
///
/// The contract says that a frame handed out is the first of those that the
/// decoder had to give in this process and leaves the others, that the
/// decoder stops when it has none to give, and that it then stops as
/// `mp3_clean` says. A stream in memory is finite and every frame uses up
/// some of it, so the frames left are one fewer after each.
#[verifier::external_body]
fn mp3_next_frame(decoder: &mut minimp3::Decoder<std::io::Cursor<Vec<u8>>>) -> (r: Result<
    Mp3Frame,
    minimp3::Error,
>)
    ensures
        mp3_source(*final(decoder)) == mp3_source(*old(decoder)),
        match r {
            Ok(f) => {
                &&& mp3_rest(*old(decoder)).len() > 0
                &&& f@ == mp3_rest(*old(decoder))[0]
                &&& mp3_rest(*final(decoder)) == mp3_rest(*old(decoder)).drop_first()
                &&& mp3_clean(*final(decoder)) == mp3_clean(*old(decoder))
            },
            Err(e) => mp3_rest(*old(decoder)).len() == 0 && (e is Eof) == mp3_clean(*old(decoder)),
        },
{
    let frame = decoder.next_frame()?;
    Ok(Mp3Frame { data: frame.data, sample_rate: frame.sample_rate, channels: frame.channels })
}

/// The metadata of a stream: the fields of its ID3 tag as `id3` gives them,
/// or none where the stream has no tag. A tag that is there and cannot be
/// read is an error.
pub fn read_tag(bytes: &[u8]) -> (r: Result<Metadata, Error>)
    ensures
        match id3_probe(bytes@) {
            TagProbe::Found(m) => r matches Ok(meta) && meta@ == m,
            TagProbe::Absent => r matches Ok(meta) && meta@ == no_metadata(),
            TagProbe::Malformed => r matches Err(e) && e is Id3,
        },
{
    match id3_read(bytes) {
        TagRead::Found(meta) => Ok(meta),
        TagRead::Absent => Ok(Metadata::empty()),
        TagRead::Malformed(e) => Err(Error::Id3(e)),
    }
}

/// Reads a decoder to its end: every frame that it gives, in order. An error
/// other than the end of the stream is passed on, and the frames read before
/// it are dropped.
pub fn read_frames_of(given: minimp3::Decoder<std::io::Cursor<Vec<u8>>>) -> (r: Result<
    Vec<Mp3Frame>,
    Error,
>)
    ensures
        frames_read(given, r),
{
    let mut decoder = given;
    let mut frames: Vec<Mp3Frame> = Vec::new();
    assert(frame_views(frames@) + mp3_rest(decoder) =~= mp3_rest(given));
    loop
        invariant
            mp3_clean(decoder) == mp3_clean(given),
            frame_views(frames@) + mp3_rest(decoder) == mp3_rest(given),
        decreases mp3_rest(decoder).len(),
    {
        let ghost before = frames@;
        let ghost left = mp3_rest(decoder);
        match mp3_next_frame(&mut decoder) {
            Ok(f) => {
                frames.push(f);
                assert(frame_views(frames@) =~= frame_views(before).push(left[0]));
                assert(frame_views(before).push(left[0]) + left.drop_first() =~= frame_views(
                    before,
                ) + left);
            },
            Err(e) => match e {
                minimp3::Error::Eof => {
                    assert(frame_views(before) + left =~= frame_views(before));
                    return Ok(frames);
                },
                _ => {
                    return Err(Error::Mp3(e));
                },
            },
        }
    }
}

impl Lilac {
    /// The container that the frames of an MP3 stream become under some
    /// metadata. A stream without a frame is at its end before it began:
    /// that is the error `Eof`.
    pub fn from_mp3_frames(meta: Metadata, frames: &Vec<Mp3Frame>) -> (r: Result<
        Lilac,
        Error,
    >)
        ensures
            frames@.len() == 0 ==> (r matches Err(Error::Mp3(cause)) && cause is Eof),
            frames@.len() > 0 ==> (r matches Ok(l) && l@ == mp3_container(
                meta@,
                frame_views(frames@),
            )),
            mp3_audio_outcome(r, meta@),
    {
        if frames.len() == 0 {
            return Err(Error::Mp3(minimp3::Error::Eof));
        }
        let channels = #[verifier::truncate] (frames[0].channels as u16);
        let sample_rate = #[verifier::truncate] (frames[0].sample_rate as u32);
        let mut samples: Vec<i32> = Vec::new();
        let mut i: usize = 0;
        assert(frame_views(frames@).subrange(0, 0) =~= Seq::empty());
        while i < frames.len()
            invariant
                i <= frames.len(),
                sixteen_bit(samples@),
                samples@ == frame_samples(frame_views(frames@).subrange(0, i as int)),
            decreases frames.len() - i,
        {
            let ghost next = frame_views(frames@).subrange(0, i + 1);
            proof {
                assert(next.drop_last() =~= frame_views(frames@).subrange(0, i as int));
                assert(next.last().data == frames@[i as int].data@);
            }
            append_widened(&mut samples, &frames[i].data);
            i = i + 1;
        }
        assert(frame_views(frames@).subrange(0, frames.len() as int) =~= frame_views(frames@));
        Ok(
            Lilac {
                title: meta.title,
                artist: meta.artist,
                year: meta.year,
                album: meta.album,
                track: meta.track,
                channels,
                sample_rate,
                bit_depth: 16,
                samples,
            },
        )
    }

    /// Reads a decoder to its end and makes a container of its frames under
    /// some metadata: of all frames, where the decoder stops at the end of
    /// its stream and has given a frame; else `Error::Mp3`.
    pub fn from_mp3_decoder(
        meta: Metadata,
        given: minimp3::Decoder<std::io::Cursor<Vec<u8>>>,
    ) -> (r: Result<Lilac, Error>)
        ensures
            if mp3_clean(given) && mp3_rest(given).len() > 0 {
                r matches Ok(l) && l@ == mp3_container(meta@, mp3_rest(given))
            } else {
                r matches Err(e) && e is Mp3
            },
            mp3_audio_outcome(r, meta@),
    {
        match read_frames_of(given) {
            Ok(frames) => Lilac::from_mp3_frames(meta, &frames),
            Err(e) => Err(e),
        }
    }

    /// Decodes an MP3 stream.
    ///
    /// A missing ID3 tag is no failure: the metadata is then absent. Fails
    /// with `Error::Id3` exactly where a tag is there and malformed, else with
    /// `Error::Mp3` where the decoder stops on an error or finds no frame.
    /// What the container holds is said, for the decoder made over the
    /// stream, by `Lilac::from_mp3_decoder`.
    pub fn from_mp3(bytes: &[u8]) -> (r: Result<Lilac, Error>)
        ensures
            mp3_outcome(bytes@, r),
    {
        let meta = match read_tag(bytes) {
            Ok(meta) => meta,
            Err(e) => {
                return Err(e);
            },
        };
        Lilac::from_mp3_decoder(meta, mp3_decoder(bytes))
    }
}

} // verus!
