use lilac::{Error, Lilac};

fn sample() -> Lilac {
    Lilac::new(
        Some("Song".to_string()),
        None,
        Some(1999),
        None,
        Some(3),
        1,
        44100,
        16,
        vec![-32768, 0, 32767],
    )
}

fn plain(channels: u16, sample_rate: u32, bit_depth: u32, samples: Vec<i32>) -> Lilac {
    Lilac::new(None, None, None, None, None, channels, sample_rate, bit_depth, samples)
}

#[test]
fn new_keeps_every_field() {
    let l = sample();
    assert_eq!(l.title.as_deref(), Some("Song"));
    assert_eq!(l.artist, None);
    assert_eq!(l.year, Some(1999));
    assert_eq!(l.album, None);
    assert_eq!(l.track, Some(3));
    assert_eq!(l.channels, 1);
    assert_eq!(l.sample_rate, 44100);
    assert_eq!(l.bit_depth, 16);
    assert_eq!(l.samples, vec![-32768, 0, 32767]);
}

#[test]
fn absent_fields_read_as_unknown() {
    let l = sample();
    assert_eq!(l.title(), "Song");
    assert_eq!(l.artist(), "Unknown");
    assert_eq!(l.album(), "Unknown");
}

#[test]
fn present_fields_read_as_they_are() {
    let mut l = sample();
    l.artist = Some("Artist".to_string());
    l.album = Some(String::new());
    assert_eq!(l.artist(), "Artist");
    assert_eq!(l.album(), "");
}

#[test]
fn well_formed_container_is_recognised() {
    assert!(sample().is_well_formed());
    assert!(plain(2, 48000, 24, vec![-8_388_608, 8_388_607]).is_well_formed());
    assert!(plain(1, 8000, 8, vec![-128, 127]).is_well_formed());
    assert!(plain(1, 1, 32, vec![i32::MIN, i32::MAX]).is_well_formed());
    assert!(plain(6, 44100, 16, vec![]).is_well_formed());
}

#[test]
fn container_without_channels_or_rate_is_not_well_formed() {
    assert!(!plain(0, 44100, 16, vec![]).is_well_formed());
    assert!(!plain(1, 0, 16, vec![]).is_well_formed());
}

#[test]
fn container_with_a_foreign_bit_depth_is_not_well_formed() {
    assert!(!plain(1, 44100, 0, vec![]).is_well_formed());
    assert!(!plain(1, 44100, 12, vec![]).is_well_formed());
    assert!(!plain(1, 44100, 33, vec![]).is_well_formed());
}

#[test]
fn container_with_a_broken_frame_is_not_well_formed() {
    assert!(!plain(2, 44100, 16, vec![1, 2, 3]).is_well_formed());
}

#[test]
fn container_with_a_sample_out_of_range_is_not_well_formed() {
    assert!(!plain(1, 44100, 16, vec![0, 32768]).is_well_formed());
    assert!(!plain(1, 44100, 16, vec![-32769]).is_well_formed());
    assert!(!plain(1, 44100, 8, vec![128]).is_well_formed());
    assert!(!plain(1, 44100, 24, vec![8_388_608]).is_well_formed());
}

#[test]
fn io_error_becomes_the_io_variant() {
    let cause = std::io::Error::new(std::io::ErrorKind::NotFound, "gone");
    let e: Error = cause.into();
    assert!(matches!(e, Error::IO(_)));
}

#[test]
fn json_error_becomes_the_json_variant() {
    let cause = serde_json::from_str::<serde_json::Value>("{").unwrap_err();
    let e: Error = cause.into();
    assert!(matches!(e, Error::Json(_)));
}

#[test]
fn codec_errors_become_their_variants() {
    let e: Error = minimp3::Error::Eof.into();
    assert!(matches!(e, Error::Mp3(minimp3::Error::Eof)));
    let e: Error = hound::Error::Unsupported.into();
    assert!(matches!(e, Error::Wav(hound::Error::Unsupported)));
    let e: Error = claxon::Error::Unsupported("x").into();
    assert!(matches!(e, Error::Flac(_)));
    let e: Error = id3::Error::new(id3::ErrorKind::Parsing, "x").into();
    assert!(matches!(e, Error::Id3(_)));
    let e: Error =
        lewton::VorbisError::BadHeader(lewton::header::HeaderReadError::NotVorbisHeader).into();
    assert!(matches!(e, Error::Ogg(_)));
}
