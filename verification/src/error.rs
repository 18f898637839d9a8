//! The error type of the library: one variant per underlying cause, each
//! keeping the cause it came from.
//!
//! Five of the causes are themselves called `Error` in their crates. They are
//! imported under names of their own here, where `Error` is the library's.

use claxon::Error as FlacError;
use hound::Error as WavError;
use id3::Error as Id3Error;
use minimp3::Error as Mp3Error;
use serde_json::Error as JsonError;
use vstd::prelude::*;
use vstd::std_specs::convert::FromSpecImpl;

verus! {

/// `std::io::Error`, carried through untouched.
#[verifier::external_type_specification]
#[verifier::external_body]
pub struct ExIoError(std::io::Error);

/// `serde_json::Error`, carried through untouched.
#[verifier::external_type_specification]
#[verifier::external_body]
pub struct ExJsonError(JsonError);

/// `minimp3::Error`, with its variants visible: the MP3 decoder tells the end
/// of a stream from a failure by the variant `Eof`.
#[verifier::external_type_specification]
pub struct ExMp3Error(Mp3Error);

/// `id3::Error`, carried through untouched.
#[verifier::external_type_specification]
#[verifier::external_body]
pub struct ExId3Error(Id3Error);

/// `claxon::Error`, carried through untouched.
#[verifier::external_type_specification]
#[verifier::external_body]
pub struct ExFlacError(FlacError);

/// `lewton::VorbisError`, carried through untouched.
#[verifier::external_type_specification]
#[verifier::external_body]
pub struct ExVorbisError(lewton::VorbisError);

/// `hound::Error`, carried through untouched.
#[verifier::external_type_specification]
#[verifier::external_body]
pub struct ExWavError(WavError);

/// Why an operation on a container failed.
#[derive(Debug)]
pub enum Error {
    /// Reading or writing the underlying stream failed.
    IO(std::io::Error),
    /// The canonical text form could not be parsed or produced.
    Json(serde_json::Error),
    /// The MP3 decoder failed.
    Mp3(minimp3::Error),
    /// An ID3 tag was present but malformed.
    Id3(id3::Error),
    /// The FLAC decoder failed.
    Flac(claxon::Error),
    /// The Vorbis decoder failed.
    Ogg(lewton::VorbisError),
    /// The WAV reader or writer failed.
    Wav(hound::Error),
}

impl From<std::io::Error> for Error {
    fn from(e: std::io::Error) -> (r: Error) {
        Error::IO(e)
    }
}

impl FromSpecImpl<std::io::Error> for Error {
    open spec fn obeys_from_spec() -> bool {
        true
    }

    open spec fn from_spec(e: std::io::Error) -> Error {
        Error::IO(e)
    }
}

impl From<serde_json::Error> for Error {
    fn from(e: serde_json::Error) -> (r: Error) {
        Error::Json(e)
    }
}

impl FromSpecImpl<serde_json::Error> for Error {
    open spec fn obeys_from_spec() -> bool {
        true
    }

    open spec fn from_spec(e: serde_json::Error) -> Error {
        Error::Json(e)
    }
}

impl From<minimp3::Error> for Error {
    fn from(e: minimp3::Error) -> (r: Error) {
        Error::Mp3(e)
    }
}

impl FromSpecImpl<minimp3::Error> for Error {
    open spec fn obeys_from_spec() -> bool {
        true
    }

    open spec fn from_spec(e: minimp3::Error) -> Error {
        Error::Mp3(e)
    }
}

impl From<id3::Error> for Error {
    fn from(e: id3::Error) -> (r: Error) {
        Error::Id3(e)
    }
}

impl FromSpecImpl<id3::Error> for Error {
    open spec fn obeys_from_spec() -> bool {
        true
    }

    open spec fn from_spec(e: id3::Error) -> Error {
        Error::Id3(e)
    }
}

impl From<claxon::Error> for Error {
    fn from(e: claxon::Error) -> (r: Error) {
        Error::Flac(e)
    }
}

impl FromSpecImpl<claxon::Error> for Error {
    open spec fn obeys_from_spec() -> bool {
        true
    }

    open spec fn from_spec(e: claxon::Error) -> Error {
        Error::Flac(e)
    }
}

impl From<lewton::VorbisError> for Error {
    fn from(e: lewton::VorbisError) -> (r: Error) {
        Error::Ogg(e)
    }
}

impl FromSpecImpl<lewton::VorbisError> for Error {
    open spec fn obeys_from_spec() -> bool {
        true
    }

    open spec fn from_spec(e: lewton::VorbisError) -> Error {
        Error::Ogg(e)
    }
}

impl From<hound::Error> for Error {
    fn from(e: hound::Error) -> (r: Error) {
        Error::Wav(e)
    }
}

impl FromSpecImpl<hound::Error> for Error {
    open spec fn obeys_from_spec() -> bool {
        true
    }

    open spec fn from_spec(e: hound::Error) -> Error {
        Error::Wav(e)
    }
}

} // verus!
