use lilac::{output_name, Error, Format, Lilac, Stage};

fn described(title: Option<&str>, artist: Option<&str>, album: Option<&str>) -> Lilac {
    Lilac::new(
        title.map(str::to_string),
        artist.map(str::to_string),
        None,
        album.map(str::to_string),
        None,
        2,
        44100,
        16,
        vec![],
    )
}

#[test]
fn template_names_the_output_after_title_and_artist() {
    let l = described(Some("Song"), Some("Artist"), None);
    assert_eq!(output_name("%F (%T by %A).%E", "song", Format::Mp3, &l), "song (Song by Artist).lilac");
}

#[test]
fn default_template_swaps_the_extension() {
    let l = described(None, None, None);
    assert_eq!(output_name("%F.%E", "a", Format::Mp3, &l), "a.lilac");
    assert_eq!(output_name("%F.%E", "b", Format::Flac, &l), "b.lilac");
    assert_eq!(output_name("%F.%E", "c", Format::Ogg, &l), "c.lilac");
    assert_eq!(output_name("%F.%E", "d", Format::Wav, &l), "d.lilac");
    assert_eq!(output_name("%F.%E", "e", Format::Lilac, &l), "e.wav");
}

#[test]
fn template_knows_the_extension_of_the_input() {
    let l = described(None, None, None);
    assert_eq!(output_name("%F.%e.%E", "x", Format::Flac, &l), "x.flac.lilac");
    assert_eq!(output_name("%e/%F", "x", Format::Lilac, &l), "lilac/x");
    assert_eq!(output_name("%e", "x", Format::Mp3, &l), "mp3");
    assert_eq!(output_name("%e", "x", Format::Ogg, &l), "ogg");
    assert_eq!(output_name("%e", "x", Format::Wav, &l), "wav");
}

#[test]
fn absent_fields_are_named_unknown() {
    let l = described(None, None, None);
    assert_eq!(
        output_name("%A/%a/%T.%E", "x", Format::Ogg, &l),
        "Unknown/Unknown/Unknown.lilac"
    );
    let l = described(Some("T"), None, Some("Al"));
    assert_eq!(output_name("%A/%a/%T.%E", "x", Format::Ogg, &l), "Unknown/Al/T.lilac");
}

#[test]
fn template_without_tokens_stays_as_it_is() {
    let l = described(Some("T"), Some("A"), Some("Al"));
    assert_eq!(output_name("out.bin", "x", Format::Mp3, &l), "out.bin");
    assert_eq!(output_name("", "x", Format::Mp3, &l), "");
    assert_eq!(output_name("100%", "x", Format::Mp3, &l), "100%");
}

#[test]
fn tokens_are_replaced_one_after_the_other() {
    let l = described(Some("%A"), Some("Band"), None);
    assert_eq!(output_name("%T", "x", Format::Mp3, &l), "Band");
    assert_eq!(output_name("%F", "%E", Format::Mp3, &l), "lilac");
    let l = described(Some("T"), Some("%T"), None);
    assert_eq!(output_name("%A", "x", Format::Mp3, &l), "%T");
}

#[test]
fn every_token_is_replaced_wherever_it_stands() {
    let l = described(Some("T"), Some("A"), Some("Al"));
    assert_eq!(output_name("%F%F-%T%T-%E%E", "s", Format::Lilac, &l), "ss-TT-wavwav");
}

#[test]
fn stages_follow_each_other() {
    let mut stage = Stage::first();
    let mut seen = vec![stage];
    while !stage.is_finished() {
        stage = stage.advance(true, false);
        seen.push(stage);
    }
    assert_eq!(
        seen,
        vec![
            Stage::Opening,
            Stage::Decoding,
            Stage::Preparing,
            Stage::Encoding,
            Stage::Removing,
            Stage::Succeeded
        ]
    );
}

#[test]
fn kept_input_is_never_removed() {
    let mut stage = Stage::first();
    while !stage.is_finished() {
        assert_ne!(stage, Stage::Removing);
        stage = stage.advance(true, true);
    }
    assert_eq!(stage, Stage::Succeeded);
    assert_eq!(Stage::Encoding.advance(true, true), Stage::Succeeded);
    assert_eq!(Stage::Encoding.advance(true, false), Stage::Removing);
}

#[test]
fn failed_step_ends_the_file() {
    for stage in
        [Stage::Opening, Stage::Decoding, Stage::Preparing, Stage::Encoding, Stage::Removing]
    {
        for keep in [true, false] {
            let failed = stage.advance(false, keep);
            assert_eq!(failed, Stage::Failed);
            assert!(failed.is_finished());
            assert_eq!(failed.advance(true, keep), Stage::Failed);
        }
    }
    assert_eq!(Stage::Succeeded.advance(false, false), Stage::Succeeded);
}

#[test]
fn canonical_streams_are_left_to_the_caller() {
    assert!(Lilac::decode(Format::Lilac, b"{}").is_none());
    let (format, decoded) = Lilac::detect(b"{\"channels\": 1}");
    assert_eq!(format, Format::Lilac);
    assert!(decoded.is_none());
}

#[test]
fn every_other_format_has_its_decoder() {
    assert!(matches!(Lilac::decode(Format::Mp3, b"junk"), Some(Err(Error::Mp3(_)))));
    assert!(matches!(Lilac::decode(Format::Flac, b"junk"), Some(Err(Error::Flac(_)))));
    assert!(matches!(Lilac::decode(Format::Ogg, b"junk"), Some(Err(Error::Ogg(_)))));
    assert!(matches!(Lilac::decode(Format::Wav, b"junk"), Some(Err(Error::Wav(_)))));
}

#[test]
fn mismatched_extension_fails_in_the_wrong_decoder() {
    let wav = Lilac::new(None, None, None, None, None, 1, 8000, 16, vec![1, 2]).to_wav().unwrap();
    let format = lilac::identify(Some("flac"), &wav);
    assert_eq!(format, Format::Flac);
    assert!(matches!(Lilac::decode(format, &wav), Some(Err(Error::Flac(_)))));
}

#[test]
fn detection_decodes_what_it_recognises() {
    let before = Lilac::new(None, None, None, None, None, 1, 8000, 16, vec![1, -2, 3]);
    let wav = before.to_wav().unwrap();
    let (format, decoded) = Lilac::detect(&wav);
    assert_eq!(format, Format::Wav);
    assert_eq!(decoded.unwrap().unwrap(), before);
    let (format, decoded) = Lilac::detect(b"fLaC and then nothing of use");
    assert_eq!(format, Format::Flac);
    assert!(matches!(decoded, Some(Err(Error::Flac(_)))));
}
