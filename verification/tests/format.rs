use lilac::{identify, Format, MAGIC_NUMBER_LEN};

fn padded(head: &[u8]) -> Vec<u8> {
    let mut bytes = head.to_vec();
    bytes.resize(MAGIC_NUMBER_LEN, 0);
    bytes
}

#[test]
fn sniffing_recognises_every_signature() {
    assert_eq!(Format::sniff(&padded(&[0xFF, 0xFB])), Format::Mp3);
    assert_eq!(Format::sniff(&padded(&[0xFF, 0xF3])), Format::Mp3);
    assert_eq!(Format::sniff(&padded(&[0xFF, 0xF2])), Format::Mp3);
    assert_eq!(Format::sniff(&padded(b"ID3")), Format::Mp3);
    assert_eq!(Format::sniff(&padded(b"fLaC")), Format::Flac);
    assert_eq!(Format::sniff(&padded(b"OggS")), Format::Ogg);
    assert_eq!(Format::sniff(b"RIFF\x24\x00\x00\x00WAVE"), Format::Wav);
}

#[test]
fn sniffing_falls_back_to_canonical() {
    assert_eq!(Format::sniff(&padded(b"{\"channels\":")), Format::Lilac);
    assert_eq!(Format::sniff(&padded(&[0xFF, 0xFA])), Format::Lilac);
    assert_eq!(Format::sniff(&padded(b"flac")), Format::Lilac);
    assert_eq!(Format::sniff(&[0u8; 12]), Format::Lilac);
    assert_eq!(Format::sniff(b"RIFF\x24\x00\x00\x00WAVX"), Format::Lilac);
}

#[test]
fn sniffing_wants_the_wave_mark_at_offset_eight() {
    assert_eq!(Format::sniff(b"WAVE\x00\x00\x00\x00\x00\x00\x00\x00"), Format::Lilac);
    assert_eq!(Format::sniff(b"\x00\x00\x00\x00WAVE\x00\x00\x00\x00"), Format::Lilac);
    assert_eq!(Format::sniff(b"\x00\x00\x00\x00\x00\x00\x00\x00WAVE"), Format::Wav);
}

#[test]
fn sniffing_tries_the_signatures_in_order() {
    assert_eq!(Format::sniff(b"ID3\x00\x00\x00\x00\x00WAVE"), Format::Mp3);
    assert_eq!(Format::sniff(b"fLaC\x00\x00\x00\x00WAVE"), Format::Flac);
    assert_eq!(Format::sniff(b"OggS\x00\x00\x00\x00WAVE"), Format::Ogg);
}

#[test]
fn sniffing_never_fails_on_short_input() {
    assert_eq!(Format::sniff(b""), Format::Lilac);
    assert_eq!(Format::sniff(&[0xFF]), Format::Lilac);
    assert_eq!(Format::sniff(&[0xFF, 0xFB]), Format::Mp3);
    assert_eq!(Format::sniff(b"ID"), Format::Lilac);
    assert_eq!(Format::sniff(b"fLa"), Format::Lilac);
    assert_eq!(Format::sniff(b"RIFF\x00\x00\x00\x00WAV"), Format::Lilac);
}

#[test]
fn sniffing_looks_at_the_first_twelve_bytes_only() {
    let mut bytes = b"fLaC".to_vec();
    bytes.extend_from_slice(&[7u8; 100]);
    assert_eq!(Format::sniff(&bytes), Format::sniff(&bytes[..MAGIC_NUMBER_LEN]));
    assert_eq!(MAGIC_NUMBER_LEN, 12);
}

#[test]
fn extension_names_its_format_in_any_case() {
    assert_eq!(Format::from_extension("lilac"), Some(Format::Lilac));
    assert_eq!(Format::from_extension("mp3"), Some(Format::Mp3));
    assert_eq!(Format::from_extension("flac"), Some(Format::Flac));
    assert_eq!(Format::from_extension("ogg"), Some(Format::Ogg));
    assert_eq!(Format::from_extension("wav"), Some(Format::Wav));
    assert_eq!(Format::from_extension("MP3"), Some(Format::Mp3));
    assert_eq!(Format::from_extension("FlaC"), Some(Format::Flac));
    assert_eq!(Format::from_extension("LILAC"), Some(Format::Lilac));
}

#[test]
fn unknown_extension_names_no_format() {
    assert_eq!(Format::from_extension(""), None);
    assert_eq!(Format::from_extension("mp4"), None);
    assert_eq!(Format::from_extension(".mp3"), None);
    assert_eq!(Format::from_extension("wave"), None);
    assert_eq!(Format::from_extension("ogg "), None);
    assert_eq!(Format::from_extension("l\u{0130}lac"), None);
}

#[test]
fn extension_tokens_read_back() {
    for f in [Format::Lilac, Format::Mp3, Format::Flac, Format::Ogg, Format::Wav] {
        assert_eq!(Format::from_extension(f.extension()), Some(f));
    }
    assert_eq!(Format::Lilac.extension(), "lilac");
    assert_eq!(Format::Mp3.extension(), "mp3");
    assert_eq!(Format::Flac.extension(), "flac");
    assert_eq!(Format::Ogg.extension(), "ogg");
    assert_eq!(Format::Wav.extension(), "wav");
}

#[test]
fn canonical_goes_to_wav_and_all_else_to_canonical() {
    assert_eq!(Format::Lilac.target(), Format::Wav);
    assert_eq!(Format::Lilac.output_extension(), "wav");
    for f in [Format::Mp3, Format::Flac, Format::Ogg, Format::Wav] {
        assert_eq!(f.target(), Format::Lilac);
        assert_eq!(f.output_extension(), "lilac");
    }
}

#[test]
fn known_extension_wins_over_content() {
    assert_eq!(identify(Some("mp3"), &padded(b"fLaC")), Format::Mp3);
    assert_eq!(identify(Some("LILAC"), &padded(b"OggS")), Format::Lilac);
}

#[test]
fn content_decides_without_a_known_extension() {
    assert_eq!(identify(None, &padded(b"fLaC")), Format::Flac);
    assert_eq!(identify(Some("bin"), &padded(b"OggS")), Format::Ogg);
    assert_eq!(identify(Some(""), &padded(b"plain text")), Format::Lilac);
}

#[test]
fn no_foreign_character_passes_for_a_letter_of_a_token() {
    let tokens = ["lilac", "mp3", "flac", "ogg", "wav"];
    for token in tokens {
        let letters: Vec<char> = token.chars().collect();
        for at in 0..letters.len() {
            for code in 0..=0xFFFFu32 {
                let Some(c) = char::from_u32(code) else {
                    continue;
                };
                if !c.is_ascii() && c.to_lowercase().eq(std::iter::once(c)) {
                    continue;
                }
                let mut changed = letters.clone();
                changed[at] = c;
                let text: String = changed.into_iter().collect();
                let lowered = text.to_lowercase();
                let expected = tokens.iter().any(|t| *t == lowered);
                assert_eq!(Format::from_extension(&text).is_some(), expected, "on {:?}", text);
            }
        }
    }
}
