//! The five formats, and how a stream is assigned to one of them: by the
//! extension of its file name where that is a known token, else by the first
//! bytes of the stream.

use crate::text::{eq_ignore_ascii_case, folded, same_ignoring_case};
use vstd::prelude::*;

verus! {

/// The formats that the library tells apart. `Lilac` is the canonical form.
#[derive(Clone, Copy, Debug, PartialEq, Eq, Structural)]
pub enum Format {
    Lilac,
    Mp3,
    Flac,
    Ogg,
    Wav,
}

/// How many leading bytes of a stream `Format::sniff` looks at: enough to
/// cover the signature that lies deepest, `WAVE` at offset 8.
pub const MAGIC_NUMBER_LEN: usize = 12;

/// Whether the bytes of `sig` stand in `p` from position `at` on.
pub open spec fn has_at(p: Seq<u8>, at: int, sig: Seq<u8>) -> bool {
    at + sig.len() <= p.len() && p.subrange(at, at + sig.len()) == sig
}

/// An MPEG frame sync (`FF FB`, `FF F3` or `FF F2`) or an `ID3` tag at the
/// start.
pub open spec fn is_mp3(p: Seq<u8>) -> bool {
    ||| has_at(p, 0, seq![0xFFu8, 0xFBu8])
    ||| has_at(p, 0, seq![0xFFu8, 0xF3u8])
    ||| has_at(p, 0, seq![0xFFu8, 0xF2u8])
    ||| has_at(p, 0, seq![0x49u8, 0x44u8, 0x33u8])
}

/// `fLaC` at the start.
pub open spec fn is_flac(p: Seq<u8>) -> bool {
    has_at(p, 0, seq![0x66u8, 0x4Cu8, 0x61u8, 0x43u8])
}

/// `OggS` at the start.
pub open spec fn is_ogg(p: Seq<u8>) -> bool {
    has_at(p, 0, seq![0x4Fu8, 0x67u8, 0x67u8, 0x53u8])
}

/// `WAVE` at offset 8, inside the RIFF chunk header.
pub open spec fn is_wav(p: Seq<u8>) -> bool {
    has_at(p, 8, seq![0x57u8, 0x41u8, 0x56u8, 0x45u8])
}

/// The format that the first bytes of a stream stand for. The signatures are
/// tried in a fixed order; a stream that bears none is taken for canonical.
pub open spec fn sniffed(p: Seq<u8>) -> Format {
    if is_mp3(p) {
        Format::Mp3
    } else if is_flac(p) {
        Format::Flac
    } else if is_ogg(p) {
        Format::Ogg
    } else if is_wav(p) {
        Format::Wav
    } else {
        Format::Lilac
    }
}

/// The extension token of a format.
pub open spec fn token(f: Format) -> Seq<char> {
    match f {
        Format::Lilac => "lilac"@,
        Format::Mp3 => "mp3"@,
        Format::Flac => "flac"@,
        Format::Ogg => "ogg"@,
        Format::Wav => "wav"@,
    }
}

/// The format that an extension names, whatever the case of its letters.
pub open spec fn hinted(ext: Seq<char>) -> Option<Format> {
    if same_ignoring_case(ext, token(Format::Lilac)) {
        Some(Format::Lilac)
    } else if same_ignoring_case(ext, token(Format::Mp3)) {
        Some(Format::Mp3)
    } else if same_ignoring_case(ext, token(Format::Flac)) {
        Some(Format::Flac)
    } else if same_ignoring_case(ext, token(Format::Ogg)) {
        Some(Format::Ogg)
    } else if same_ignoring_case(ext, token(Format::Wav)) {
        Some(Format::Wav)
    } else {
        None
    }
}

/// The format that a stream of format `f` is converted to: canonical streams
/// go to WAV, all others to the canonical form.
pub open spec fn target_of(f: Format) -> Format {
    if f == Format::Lilac {
        Format::Wav
    } else {
        Format::Lilac
    }
}

/// The extension token of every format names that format, and no other.
pub proof fn lemma_token_names_its_format(f: Format)
    ensures
        hinted(token(f)) == Some(f),
{
    reveal_strlit("lilac");
    reveal_strlit("mp3");
    reveal_strlit("flac");
    reveal_strlit("ogg");
    reveal_strlit("wav");
    let lilac = folded("lilac"@);
    let mp3 = folded("mp3"@);
    let flac = folded("flac"@);
    let ogg = folded("ogg"@);
    let wav = folded("wav"@);
    assert(lilac.len() == 5 && flac.len() == 4 && mp3.len() == 3 && ogg.len() == 3 && wav.len()
        == 3);
    assert(mp3[0] == 'm' && ogg[0] == 'o' && wav[0] == 'w');
}

/// Classifying a stream only ever looks at its first `MAGIC_NUMBER_LEN`
/// bytes: the stream and that prefix of it are classified alike.
pub proof fn lemma_sniffed_by_prefix(p: Seq<u8>)
    requires
        p.len() >= MAGIC_NUMBER_LEN,
    ensures
        sniffed(p.subrange(0, MAGIC_NUMBER_LEN as int)) == sniffed(p),
{
    let q = p.subrange(0, MAGIC_NUMBER_LEN as int);
    assert(q.subrange(0, 2) =~= p.subrange(0, 2));
    assert(q.subrange(0, 3) =~= p.subrange(0, 3));
    assert(q.subrange(0, 4) =~= p.subrange(0, 4));
    assert(q.subrange(8, 12) =~= p.subrange(8, 12));
}

/// Whether two bytes stand at the start of `p`.
fn starts_with2(p: &[u8], a: u8, b: u8) -> (r: bool)
    ensures
        r == has_at(p@, 0, seq![a, b]),
{
    if p.len() >= 2 && p[0] == a && p[1] == b {
        assert(p@.subrange(0, 2) =~= seq![a, b]);
        true
    } else {
        if p.len() >= 2 {
            assert(p@.subrange(0, 2)[0] == p@[0]);
            assert(p@.subrange(0, 2)[1] == p@[1]);
        }
        false
    }
}

/// Whether four bytes stand in `p` from position `at` on.
fn has4_at(p: &[u8], at: usize, a: u8, b: u8, c: u8, d: u8) -> (r: bool)
    requires
        at <= 8,
    ensures
        r == has_at(p@, at as int, seq![a, b, c, d]),
{
    if p.len() >= at + 4 && p[at] == a && p[at + 1] == b && p[at + 2] == c && p[at + 3] == d {
        assert(p@.subrange(at as int, at + 4) =~= seq![a, b, c, d]);
        true
    } else {
        if p.len() >= at + 4 {
            let ghost w = p@.subrange(at as int, at + 4);
            assert(w[0] == p@[at as int] && w[1] == p@[at + 1] && w[2] == p@[at + 2] && w[3]
                == p@[at + 3]);
        }
        false
    }
}

impl Format {
    /// The format named by the extension of a file name, if it is one of the
    /// tokens `lilac`, `mp3`, `flac`, `ogg`, `wav` in any case. The content of
    /// the stream is not looked at.
    pub fn from_extension(ext: &str) -> (r: Option<Format>)
        ensures
            r == hinted(ext@),
    {
        if eq_ignore_ascii_case(ext, "lilac") {
            Some(Format::Lilac)
        } else if eq_ignore_ascii_case(ext, "mp3") {
            Some(Format::Mp3)
        } else if eq_ignore_ascii_case(ext, "flac") {
            Some(Format::Flac)
        } else if eq_ignore_ascii_case(ext, "ogg") {
            Some(Format::Ogg)
        } else if eq_ignore_ascii_case(ext, "wav") {
            Some(Format::Wav)
        } else {
            None
        }
    }

    /// Classifies a stream by its first bytes. Never fails: a stream without a
    /// known signature, or too short to bear one, is canonical.
    pub fn sniff(prefix: &[u8]) -> (r: Format)
        ensures
            r == sniffed(prefix@),
    {
        if starts_with2(prefix, 0xFF, 0xFB) || starts_with2(prefix, 0xFF, 0xF3) || starts_with2(
            prefix,
            0xFF,
            0xF2,
        ) {
            return Format::Mp3;
        }
        if prefix.len() >= 3 && prefix[0] == 0x49 && prefix[1] == 0x44 && prefix[2] == 0x33 {
            assert(prefix@.subrange(0, 3) =~= seq![0x49u8, 0x44u8, 0x33u8]);
            return Format::Mp3;
        }
        proof {
            if prefix.len() >= 3 {
                let w = prefix@.subrange(0, 3);
                assert(w[0] == prefix@[0] && w[1] == prefix@[1] && w[2] == prefix@[2]);
            }
        }
        if has4_at(prefix, 0, 0x66, 0x4C, 0x61, 0x43) {
            Format::Flac
        } else if has4_at(prefix, 0, 0x4F, 0x67, 0x67, 0x53) {
            Format::Ogg
        } else if has4_at(prefix, 8, 0x57, 0x41, 0x56, 0x45) {
            Format::Wav
        } else {
            Format::Lilac
        }
    }

    /// The extension token of this format.
    pub fn extension(self) -> (r: &'static str)
        ensures
            r@ == token(self),
    {
        match self {
            Format::Lilac => "lilac",
            Format::Mp3 => "mp3",
            Format::Flac => "flac",
            Format::Ogg => "ogg",
            Format::Wav => "wav",
        }
    }

    /// The format that a stream of this format is converted to.
    pub fn target(self) -> (r: Format)
        ensures
            r == target_of(self),
    {
        match self {
            Format::Lilac => Format::Wav,
            _ => Format::Lilac,
        }
    }

    /// The extension token of the format that a stream of this format is
    /// converted to.
    pub fn output_extension(self) -> (r: &'static str)
        ensures
            r@ == token(target_of(self)),
    {
        match self {
            Format::Lilac => "wav",
            _ => "lilac",
        }
    }
}

} // verus!
