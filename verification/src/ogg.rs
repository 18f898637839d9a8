//! The Ogg Vorbis adapter: reading a Vorbis stream into a container through
//! `lewton`, packet by packet.
//!
//! What the packets hold is not a function of the bytes alone: the decoder
//! works in floating point, whose functions differ from machine to machine.
//! What a reader gives is therefore said of the reader, by `read_ogg_of` and
//! `Lilac::from_ogg_reader`; of the bytes only the comments are said.
//!
//! The decoder counts samples from the granule position of every page on
//! which a packet ends, without a look at its size. `ogg_countable` says
//! which streams it can count, and `is_ogg_countable` tests it.

use crate::container::{Lilac, LilacView};
use crate::error::Error;
use crate::format::has_at;
use crate::pcm::{append_widened, sixteen_bit, widened};
use crate::tags::{described_by, ogg_metadata, Comments, Metadata};
use vstd::arithmetic::div_mod::lemma_add_mod_noop;
use vstd::prelude::*;

verus! {

/// A decoded packet, as plain mathematical values.
pub struct PacketView {
    pub samples: Seq<i16>,
    pub channels: u8,
}

/// One decoded packet: its samples, interleaved, and the channel count of the
/// identification header under which it was decoded.
#[derive(Debug, Clone, PartialEq, Eq)]
pub struct OggPacket {
    pub samples: Vec<i16>,
    pub channels: u8,
}

impl View for OggPacket {
    type V = PacketView;

    open spec fn view(&self) -> PacketView {
        PacketView { samples: self.samples@, channels: self.channels }
    }
}

impl PacketView {
    /// The packet has a channel, and every channel has as many samples as
    /// the others.
    pub open spec fn whole_frames(self) -> bool {
        self.channels >= 1 && self.samples.len() % (self.channels as nat) == 0
    }
}

/// A run of decoded packets, as plain mathematical values.
pub open spec fn packet_views(packets: Seq<OggPacket>) -> Seq<PacketView> {
    Seq::new(packets.len(), |i: int| packets[i]@)
}

/// What a Vorbis stream holds, as plain mathematical values.
pub struct OggStreamView {
    pub comments: Comments,
    pub packets: Seq<PacketView>,
    pub channels: u8,
    pub sample_rate: u32,
}

/// What is read out of a Vorbis stream that ends without an error: the
/// comments of its comment header, its decoded packets in order, and the
/// channel count and sample rate that its identification header states once
/// the last packet is read.
#[derive(Debug, Clone, PartialEq, Eq)]
pub struct OggStream {
    pub comments: Vec<(String, String)>,
    pub packets: Vec<OggPacket>,
    pub channels: u8,
    pub sample_rate: u32,
}

impl View for OggStream {
    type V = OggStreamView;

    open spec fn view(&self) -> OggStreamView {
        OggStreamView {
            comments: self.comments.deep_view(),
            packets: packet_views(self.packets@),
            channels: self.channels,
            sample_rate: self.sample_rate,
        }
    }
}

impl OggStreamView {
    /// One identification header serves the whole stream: every packet was
    /// decoded under the channel count that the stream ends with, in whole
    /// frames.
    pub open spec fn steady(self) -> bool {
        forall|i: int|
            0 <= i < self.packets.len() ==> (#[trigger] self.packets[i]).channels == self.channels
                && self.packets[i].whole_frames()
    }
}

/// A `lewton` reader over a Vorbis stream in memory, with its headers read.
///
/// The declaration of `OggStreamReader` is bound by the traits `Read` and
/// `Seek`, which Verus does not take in a declaration of an outside type. The
/// reader is therefore kept in this struct, into which Verus does not look.
#[verifier::external_body]
pub struct OggReader {
    inner: lewton::inside_ogg::OggStreamReader<std::io::Cursor<Vec<u8>>>,
}

/// The packets that a reader will still hand out before it stops, in the
/// process in which it runs.
pub uninterp spec fn ogg_rest(reader: OggReader) -> Seq<PacketView>;

/// How a reader stops once it has handed out its packets: the channel count
/// and the sample rate that the identification header states when the reader
/// runs out of packets, or `None` where the reader stops on an error.
pub uninterp spec fn ogg_end(reader: OggReader) -> Option<(u8, u32)>;

/// The comments that `lewton` finds when it opens the bytes of a Vorbis
/// stream; `None` where it refuses the headers.
pub uninterp spec fn ogg_opening(bytes: Seq<u8>) -> Option<Comments>;

/// The bytes of the stream that a reader was opened on.
pub uninterp spec fn ogg_source(reader: OggReader) -> Seq<u8>;

/// The number that eight bytes from position `at` on write, the low byte
/// first.
pub open spec fn granule_at(bytes: Seq<u8>, at: int) -> int {
    bytes[at] + 256 * (bytes[at + 1] + 256 * (bytes[at + 2] + 256 * (bytes[at + 3] + 256 * (bytes[at
        + 4] + 256 * (bytes[at + 5] + 256 * (bytes[at + 6] + 256 * bytes[at + 7]))))))
}

/// The capture pattern `OggS`, with which every page begins.
pub open spec fn capture_pattern() -> Seq<u8> {
    seq![0x4Fu8, 0x67u8, 0x67u8, 0x53u8]
}

/// The largest granule position that the decoder can count from: times the
/// largest channel count, 255, it is still the size of something in memory.
pub open spec fn granule_limit() -> int {
    (usize::MAX / 255) as int
}

/// The longest stream that the decoder can count through. It adds the
/// samples of packet after packet, no more than 8192 each, to a granule
/// position, in 64 bits.
pub open spec fn length_limit() -> int {
    0xFFFF_FFFF_FFFF
}

/// The lacing value number `k` of the page that begins at `at`. The header
/// of a page is 27 bytes long; its last byte says how many lacing values
/// follow.
pub open spec fn lacing(bytes: Seq<u8>, at: int, k: int) -> u8 {
    bytes[at + 27 + k]
}

/// Whether a packet ends on the page that begins at `at`: the header and the
/// lacing values lie within the stream, and one of the lacing values is below
/// 255. (A value of 255 says that the packet goes on.)
pub open spec fn ends_a_packet(bytes: Seq<u8>, at: int) -> bool {
    &&& at + 27 <= bytes.len()
    &&& at + 27 + bytes[at + 26] <= bytes.len()
    &&& exists|k: int| 0 <= k < bytes[at + 26] && #[trigger] lacing(bytes, at, k) != 255
}

/// The streams that the decoder can count: no longer than the limit, and
/// with no granule position above the limit on a page on which a packet
/// ends. A page states its granule position in the eight bytes from the sixth
/// after its capture pattern on; wherever the pattern stands in the stream, a
/// page may begin. The granule position of a page on which no packet ends is
/// never looked at, and may be anything.
pub open spec fn ogg_countable(bytes: Seq<u8>) -> bool {
    &&& bytes.len() <= length_limit()
    &&& forall|i: int|
        0 <= i && #[trigger] has_at(bytes, i, capture_pattern()) && ends_a_packet(bytes, i)
            ==> granule_at(bytes, i + 6) <= granule_limit()
}

/// One step of reading a Vorbis stream.
pub enum OggStep {
    /// The next packet, decoded.
    Packet(OggPacket),
    /// No packet is left. The fields are those of the identification header
    /// at this point.
    End { channels: u8, sample_rate: u32 },
    /// The stream is broken at this point.
    Failed(lewton::VorbisError),
}

/// The samples of all packets, one packet after the other, as 32-bit sample
/// codes.
pub open spec fn packet_samples(packets: Seq<PacketView>) -> Seq<i32>
    decreases packets.len(),
{
    if packets.len() == 0 {
        Seq::empty()
    } else {
        packet_samples(packets.drop_last()) + widened(packets.last().samples)
    }
}

/// The container that a Vorbis stream becomes: the metadata of its comments,
/// the format of its identification header at 16 bits, the samples of all
/// packets.
pub open spec fn ogg_container(s: OggStreamView) -> LilacView {
    let m = ogg_metadata(s.comments);
    LilacView {
        title: m.title,
        artist: m.artist,
        year: m.year,
        album: m.album,
        track: m.track,
        channels: s.channels as u16,
        sample_rate: s.sample_rate,
        bit_depth: 16,
        samples: packet_samples(s.packets),
    }
}

/// What holds of decoding the bytes as Ogg Vorbis, whatever the decoder
/// gives: `Error::Ogg` where the headers are refused; else `Error::Ogg` or a
/// container under the metadata of the comments, of 16-bit sample codes, with
/// a channel and a sample rate.
pub open spec fn ogg_outcome(bytes: Seq<u8>, r: Result<Lilac, Error>) -> bool {
    match r {
        Ok(l) => {
            &&& ogg_opening(bytes) matches Some(comments)
            &&& described_by(l@, ogg_metadata(comments))
            &&& l.channels >= 1
            &&& l.sample_rate >= 1
            &&& l.bit_depth == 16
            &&& sixteen_bit(l.samples@)
        },
        Err(e) => e is Ogg,
    }
}

/// What reading a reader to its end gives, under the comments read when it
/// was opened: the stream of all its packets and of the header at its end,
/// where it runs out of packets; `Error::Ogg` where it stops on an error.
pub open spec fn stream_read(given: OggReader, comments: Comments, r: Result<OggStream, Error>) -> bool {
    match ogg_end(given) {
        Some((channels, sample_rate)) => r matches Ok(stream) && stream@ == (OggStreamView {
            comments,
            packets: ogg_rest(given),
            channels,
            sample_rate,
        }),
        None => r matches Err(e) && e is Ogg,
    }
}

/// Where one identification header serves a whole stream, the samples of all
/// packets make whole frames.
pub proof fn lemma_steady_stream_has_whole_frames(s: OggStreamView)
    requires
        s.channels >= 1,
        s.steady(),
    ensures
        packet_samples(s.packets).len() % (s.channels as nat) == 0,
    decreases s.packets.len(),
{
    if s.packets.len() > 0 {
        let before = OggStreamView { packets: s.packets.drop_last(), ..s };
        assert forall|i: int| 0 <= i < before.packets.len() implies (
        #[trigger] before.packets[i]).channels == before.channels
            && before.packets[i].whole_frames() by {
            assert(before.packets[i] == s.packets[i]);
        }
        lemma_steady_stream_has_whole_frames(before);
        let last = s.packets[s.packets.len() - 1];
        assert(last.channels == s.channels && last.whole_frames());
        let c = s.channels as int;
        let a = packet_samples(before.packets).len() as int;
        let b = last.samples.len() as int;
        assert(widened(last.samples).len() == b);
        assert(a % c == 0);
        assert(b % c == 0);
        lemma_add_mod_noop(a, b, c);
        assert(0int % c == 0);
        assert((a + b) % c == 0);
        assert(packet_samples(s.packets).len() == a + b);
        assert(((a + b) as nat) % (c as nat) == ((a + b) % c) as nat);
    } else {
        assert(packet_samples(s.packets).len() == 0);
        assert(0nat % (s.channels as nat) == 0) by (nonlinear_arith)
            requires
                s.channels >= 1,
        ;
    }
}

/// `lewton::inside_ogg::OggStreamReader::new` over a copy of the bytes: reads
/// the three Vorbis headers. Hands out the reader and the comment list of the
/// comment header. The contract gives the comments their name and says on
/// which bytes the reader was opened.
#[verifier::external_body]
fn ogg_open(bytes: &[u8]) -> (r: Result<(OggReader, Vec<(String, String)>), lewton::VorbisError>)
    ensures
        match r {
            Ok((reader, comments)) => ogg_opening(bytes@) == Some(comments.deep_view())
                && ogg_source(reader) == bytes@,
            Err(_) => ogg_opening(bytes@) is None,
        },
{
    let inner = lewton::inside_ogg::OggStreamReader::new(std::io::Cursor::new(bytes.to_vec()))?;
    let comments = inner.comment_hdr.comment_list.clone();
    Ok((OggReader { inner }, comments))
}

/// `OggStreamReader::read_dec_packet_itl`: decodes the next audio packet. Its
/// three outcomes are told apart. With a packet goes the channel count of the
/// identification header under which it was decoded; at the end of the
/// stream the channel count and the sample rate are read off the header,
/// which a chained stream may have replaced on the way.
///
/// The contract says that a packet handed out is the first of those that the
/// reader had to give in this process and leaves the others, that the reader
/// stops when it has none to give, and that it then stops as `ogg_end` says.
/// A stream in memory is finite and every packet handed out uses up some of
/// it, so the packets left are one fewer after each. It says too that the
/// identification header states a channel and a sample rate (`lewton` takes
/// no header without), and that a packet holds as many samples of every
/// channel.
///
/// `lewton` takes the granule position of a page on which a packet ends as
/// the page states it, adds to it the samples of the packets that follow, and
/// at the end of a stream multiplies a length taken from it by the channel
/// count. On a stream that is not countable these may overflow.
#[verifier::external_body]
fn ogg_step(reader: &mut OggReader) -> (r: OggStep)
    requires
        ogg_countable(ogg_source(*old(reader))),
    ensures
        ogg_source(*final(reader)) == ogg_source(*old(reader)),
        match r {
            OggStep::Packet(p) => {
                &&& ogg_rest(*old(reader)).len() > 0
                &&& p@ == ogg_rest(*old(reader))[0]
                &&& ogg_rest(*final(reader)) == ogg_rest(*old(reader)).drop_first()
                &&& ogg_end(*final(reader)) == ogg_end(*old(reader))
                &&& p@.whole_frames()
            },
            OggStep::End { channels, sample_rate } => {
                &&& ogg_rest(*old(reader)).len() == 0
                &&& ogg_end(*old(reader)) == Some((channels, sample_rate))
                &&& channels >= 1
                &&& sample_rate >= 1
            },
            OggStep::Failed(_) => ogg_rest(*old(reader)).len() == 0 && ogg_end(*old(reader)) is None,
        },
{
    match reader.inner.read_dec_packet_itl() {
        Ok(Some(samples)) => OggStep::Packet(
            OggPacket { samples, channels: reader.inner.ident_hdr.audio_channels },
        ),
        Ok(None) => OggStep::End {
            channels: reader.inner.ident_hdr.audio_channels,
            sample_rate: reader.inner.ident_hdr.audio_sample_rate,
        },
        Err(e) => OggStep::Failed(e),
    }
}

/// The number that eight bytes from position `at` on write, the low byte
/// first.
fn granule(bytes: &[u8], at: usize) -> (r: u64)
    requires
        at + 8 <= bytes.len(),
    ensures
        r == granule_at(bytes@, at as int),
{
    let b7: u64 = bytes[at + 7] as u64;
    let b6: u64 = bytes[at + 6] as u64 + 256 * b7;
    let b5: u64 = bytes[at + 5] as u64 + 256 * b6;
    let b4: u64 = bytes[at + 4] as u64 + 256 * b5;
    let b3: u64 = bytes[at + 3] as u64 + 256 * b4;
    let b2: u64 = bytes[at + 2] as u64 + 256 * b3;
    let b1: u64 = bytes[at + 1] as u64 + 256 * b2;
    bytes[at] as u64 + 256 * b1
}

/// Tests whether a packet ends on the page that begins at `at`.
fn ends_packet(bytes: &[u8], at: usize) -> (r: bool)
    requires
        at + 14 <= bytes.len(),
    ensures
        r == ends_a_packet(bytes@, at as int),
{
    if bytes.len() - at < 27 {
        return false;
    }
    let count: usize = bytes[at + 26] as usize;
    if bytes.len() - at - 27 < count {
        return false;
    }
    let mut k: usize = 0;
    while k < count
        invariant
            at + 27 + count <= bytes.len(),
            count == bytes@[at + 26],
            k <= count,
            forall|j: int| 0 <= j < k ==> #[trigger] lacing(bytes@, at as int, j) == 255,
        decreases count - k,
    {
        if bytes[at + 27 + k] != 255 {
            assert(lacing(bytes@, at as int, k as int) != 255);
            return true;
        }
        k = k + 1;
    }
    false
}

/// Tests whether the decoder can count a stream.
pub fn is_ogg_countable(bytes: &[u8]) -> (r: bool)
    ensures
        r == ogg_countable(bytes@),
{
    if bytes.len() as u64 > 0xFFFF_FFFF_FFFF {
        return false;
    }
    if bytes.len() < 27 {
        return true;
    }
    let limit: u64 = (usize::MAX / 255) as u64;
    let last: usize = bytes.len() - 27;
    let mut i: usize = 0;
    while i <= last
        invariant
            bytes.len() <= length_limit(),
            limit == granule_limit(),
            last + 27 == bytes.len(),
            i <= last + 1,
            forall|j: int|
                0 <= j < i && #[trigger] has_at(bytes@, j, capture_pattern()) && ends_a_packet(
                    bytes@,
                    j,
                ) ==> granule_at(bytes@, j + 6) <= granule_limit(),
        decreases last + 1 - i,
    {
        let found = bytes[i] == 0x4F && bytes[i + 1] == 0x67 && bytes[i + 2] == 0x67 && bytes[i
            + 3] == 0x53;
        proof {
            let window = bytes@.subrange(i as int, i + 4);
            if found {
                assert(window =~= capture_pattern());
            } else {
                assert(window[0] == bytes@[i as int] && window[1] == bytes@[i + 1] && window[2]
                    == bytes@[i + 2] && window[3] == bytes@[i + 3]);
            }
        }
        if found && ends_packet(bytes, i) && granule(bytes, i + 6) > limit {
            assert(has_at(bytes@, i as int, capture_pattern()));
            return false;
        }
        i = i + 1;
    }
    true
}

/// Opens a Vorbis stream: reads its headers. Gives the reader and the
/// comments of the comment header, or `Error::Ogg` where `lewton` refuses the
/// headers.
pub fn open_ogg(bytes: &[u8]) -> (r: Result<(OggReader, Vec<(String, String)>), Error>)
    ensures
        match r {
            Ok((reader, comments)) => ogg_opening(bytes@) == Some(comments.deep_view())
                && ogg_source(reader) == bytes@,
            Err(e) => ogg_opening(bytes@) is None && e is Ogg,
        },
{
    match ogg_open(bytes) {
        Ok(opened) => Ok(opened),
        Err(e) => Err(Error::Ogg(e)),
    }
}

/// Reads a reader to its end: every packet that it gives, in order, and the
/// channel count and the sample rate of the header at the end. An error is
/// passed on, and the packets read before it are dropped. Every packet read
/// makes whole frames of its own channel count.
pub fn read_ogg_of(given: OggReader, comments: Vec<(String, String)>) -> (r: Result<
    OggStream,
    Error,
>)
    requires
        ogg_countable(ogg_source(given)),
    ensures
        stream_read(given, comments.deep_view(), r),
        r matches Ok(stream) ==> {
            &&& stream.channels >= 1
            &&& stream.sample_rate >= 1
            &&& forall|i: int|
                0 <= i < stream@.packets.len() ==> (#[trigger] stream@.packets[i]).whole_frames()
        },
{
    let mut reader = given;
    let mut packets: Vec<OggPacket> = Vec::new();
    assert(packet_views(packets@) + ogg_rest(reader) =~= ogg_rest(given));
    loop
        invariant
            ogg_source(reader) == ogg_source(given),
            ogg_countable(ogg_source(given)),
            ogg_end(reader) == ogg_end(given),
            packet_views(packets@) + ogg_rest(reader) == ogg_rest(given),
            forall|i: int| 0 <= i < packets@.len() ==> (#[trigger] packets@[i])@.whole_frames(),
        decreases ogg_rest(reader).len(),
    {
        let ghost before = packets@;
        let ghost left = ogg_rest(reader);
        match ogg_step(&mut reader) {
            OggStep::Packet(p) => {
                packets.push(p);
                assert(packet_views(packets@) =~= packet_views(before).push(left[0]));
                assert(packet_views(before).push(left[0]) + left.drop_first() =~= packet_views(
                    before,
                ) + left);
            },
            OggStep::End { channels, sample_rate } => {
                assert(packet_views(before) + left =~= packet_views(before));
                let stream = OggStream { comments, packets, channels, sample_rate };
                assert forall|i: int| 0 <= i < stream@.packets.len() implies (
                #[trigger] stream@.packets[i]).whole_frames() by {
                    assert(stream@.packets[i] == packets@[i]@);
                }
                return Ok(stream);
            },
            OggStep::Failed(e) => {
                return Err(Error::Ogg(e));
            },
        }
    }
}

impl Lilac {
    /// The container that a Vorbis stream becomes. Its sample codes fit 16
    /// bits; they make whole frames where one identification header serves
    /// the whole stream.
    pub fn from_ogg_stream(stream: OggStream) -> (r: Lilac)
        ensures
            r@ == ogg_container(stream@),
            sixteen_bit(r.samples@),
            stream.channels >= 1 && stream@.steady() ==> r.samples@.len() % (r.channels as nat)
                == 0,
    {
        let meta = Metadata::from_ogg_comments(&stream.comments);
        let mut samples: Vec<i32> = Vec::new();
        let mut i: usize = 0;
        assert(packet_views(stream.packets@).subrange(0, 0) =~= Seq::empty());
        while i < stream.packets.len()
            invariant
                i <= stream.packets.len(),
                sixteen_bit(samples@),
                samples@ == packet_samples(packet_views(stream.packets@).subrange(0, i as int)),
            decreases stream.packets.len() - i,
        {
            let ghost next = packet_views(stream.packets@).subrange(0, i + 1);
            proof {
                assert(next.drop_last() =~= packet_views(stream.packets@).subrange(0, i as int));
                assert(next.last().samples == stream.packets@[i as int].samples@);
            }
            append_widened(&mut samples, &stream.packets[i].samples);
            i = i + 1;
        }
        proof {
            assert(packet_views(stream.packets@).subrange(0, stream.packets.len() as int)
                =~= packet_views(stream.packets@));
            if stream.channels >= 1 && stream@.steady() {
                lemma_steady_stream_has_whole_frames(stream@);
            }
        }
        Lilac {
            title: meta.title,
            artist: meta.artist,
            year: meta.year,
            album: meta.album,
            track: meta.track,
            channels: stream.channels as u16,
            sample_rate: stream.sample_rate,
            bit_depth: 16,
            samples,
        }
    }

    /// Reads a reader to its end and makes a container of its packets under
    /// the metadata of the comments: of all packets, where the reader runs
    /// out of them; else `Error::Ogg`.
    pub fn from_ogg_reader(given: OggReader, comments: Vec<(String, String)>) -> (r: Result<
        Lilac,
        Error,
    >)
        requires
            ogg_countable(ogg_source(given)),
        ensures
            match ogg_end(given) {
                Some((channels, sample_rate)) => r matches Ok(l) && l@ == ogg_container(
                    OggStreamView {
                        comments: comments.deep_view(),
                        packets: ogg_rest(given),
                        channels,
                        sample_rate,
                    },
                ),
                None => r matches Err(e) && e is Ogg,
            },
            match r {
                Ok(l) => {
                    &&& described_by(l@, ogg_metadata(comments.deep_view()))
                    &&& l.channels >= 1
                    &&& l.sample_rate >= 1
                    &&& l.bit_depth == 16
                    &&& sixteen_bit(l.samples@)
                },
                Err(e) => e is Ogg,
            },
    {
        match read_ogg_of(given, comments) {
            Ok(stream) => Ok(Lilac::from_ogg_stream(stream)),
            Err(e) => Err(e),
        }
    }

    /// Decodes an Ogg Vorbis stream. Fails with `Error::Ogg` where `lewton`
    /// refuses the headers or a packet; missing comments are no failure. The
    /// container bears the metadata of the comments, and has a channel, a
    /// sample rate and 16 bits.
    ///
    /// Whole frames are not promised: a chained stream may change its channel
    /// count on the way, and the container bears the last. `is_well_formed`
    /// tests it. What the container holds is said, for the reader opened on
    /// the stream, by `Lilac::from_ogg_reader`.
    pub fn from_ogg(bytes: &[u8]) -> (r: Result<Lilac, Error>)
        requires
            ogg_countable(bytes@),
        ensures
            ogg_opening(bytes@) is None ==> r is Err,
            ogg_outcome(bytes@, r),
    {
        match open_ogg(bytes) {
            Ok((reader, comments)) => Lilac::from_ogg_reader(reader, comments),
            Err(e) => Err(e),
        }
    }
}

} // verus!
