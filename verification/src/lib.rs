//! Audio containers: one canonical in-memory form, decoders that bring MP3,
//! FLAC, Ogg Vorbis and WAV streams into it, an encoder back to WAV, the
//! normalisation of its samples for playback, the rules by which a batch of
//! files is converted, and the controls of an interactive player.
//!
//! Every function here works on values in memory. Files, the canonical text
//! form on disk, the audio device and the terminal are the caller's business.

pub mod container;
pub mod error;
pub mod flac;
pub mod format;
pub mod memory;
pub mod mp3;
pub mod ogg;
pub mod pcm;
pub mod player;
pub mod source;
pub mod tags;
pub mod text;
pub mod transcode;
pub mod wav;

pub use container::{Lilac, LilacView};
pub use error::Error;
pub use flac::FlacStream;
pub use format::{Format, MAGIC_NUMBER_LEN};
pub use mp3::Mp3Frame;
pub use ogg::{is_ogg_countable, OggPacket, OggStream};
pub use source::{normalize, LilacSource, Normalized};
pub use tags::Metadata;
pub use transcode::{identify, output_name, Stage};
pub use wav::WavStream;
