use lilac::{Error, Format, Lilac};

fn container(channels: u16, bit_depth: u32, samples: Vec<i32>) -> Lilac {
    Lilac::new(None, None, None, None, None, channels, 44100, bit_depth, samples)
}

#[test]
fn wav_round_trip_keeps_format_and_samples() {
    let before = container(1, 16, vec![-32768, 0, 32767]);
    assert!(before.is_wav_writable());
    let bytes = before.to_wav().unwrap();
    assert_eq!(&bytes[0..4], b"RIFF");
    assert_eq!(&bytes[8..12], b"WAVE");
    let back = Lilac::from_wav(&bytes).unwrap();
    assert_eq!(back, before);
}

#[test]
fn wav_round_trip_of_stereo_24_bit() {
    let before = container(2, 24, vec![-8_388_608, 8_388_607, 1, -1]);
    let bytes = before.to_wav().unwrap();
    let back = Lilac::from_wav(&bytes).unwrap();
    assert_eq!(back.channels, 2);
    assert_eq!(back.sample_rate, 44100);
    assert_eq!(back.bit_depth, 24);
    assert_eq!(back.samples, vec![-8_388_608, 8_388_607, 1, -1]);
}

#[test]
fn wav_output_is_sniffed_as_wav() {
    let bytes = container(1, 8, vec![-128, 127]).to_wav().unwrap();
    assert_eq!(Format::sniff(&bytes[..lilac::MAGIC_NUMBER_LEN]), Format::Wav);
}

#[test]
fn wav_decoding_drops_no_metadata_in() {
    let bytes = container(1, 16, vec![1, 2, 3]).to_wav().unwrap();
    let back = Lilac::from_wav(&bytes).unwrap();
    assert_eq!(back.title, None);
    assert_eq!(back.artist, None);
    assert_eq!(back.year, None);
    assert_eq!(back.album, None);
    assert_eq!(back.track, None);
}

#[test]
fn wav_refuses_a_foreign_bit_depth() {
    let l = container(1, 12, vec![0]);
    assert!(l.is_wav_writable());
    assert!(matches!(l.to_wav(), Err(Error::Wav(_))));
}

#[test]
fn wav_refuses_a_sample_out_of_range() {
    let l = container(1, 8, vec![0, 200]);
    assert!(!l.is_well_formed());
    assert!(matches!(l.to_wav(), Err(Error::Wav(_))));
}

#[test]
fn wav_refuses_a_broken_last_frame() {
    let l = container(2, 16, vec![1, 2, 3]);
    assert!(matches!(l.to_wav(), Err(Error::Wav(_))));
}

#[test]
fn wav_header_limits_are_tested() {
    assert!(!container(0, 16, vec![]).is_wav_writable());
    let silent = Lilac::new(None, None, None, None, None, 1, 0, 16, vec![]);
    assert!(!silent.is_wav_writable());
    let fast = Lilac::new(None, None, None, None, None, 65535, u32::MAX, 32, vec![]);
    assert!(!fast.is_wav_writable());
    let wide = Lilac::new(None, None, None, None, None, 1, 44100, 65535, vec![]);
    assert!(!wide.is_wav_writable());
    assert!(!container(1, 0, vec![]).is_wav_writable());
    assert!(!container(1, 65536, vec![]).is_wav_writable());
    assert!(!container(0, 12, vec![]).is_wav_writable());
    assert!(container(1, 12, vec![]).is_wav_writable());
    assert!(container(1, 65536 + 16, vec![1, 2]).is_wav_writable());
}

#[test]
fn wav_header_states_the_low_bits_of_the_depth() {
    let l = container(1, 65536 + 16, vec![-32768, 32767]);
    let back = Lilac::from_wav(&l.to_wav().unwrap()).unwrap();
    assert_eq!(back.bit_depth, 16);
    assert_eq!(back.samples, vec![-32768, 32767]);
}

#[test]
fn wav_decoding_refuses_a_broken_last_frame() {
    let mut bytes = container(1, 16, vec![1, 2, 3]).to_wav().unwrap();
    bytes[22..24].copy_from_slice(&2u16.to_le_bytes());
    bytes[28..32].copy_from_slice(&(44100u32 * 4).to_le_bytes());
    bytes[32..34].copy_from_slice(&4u16.to_le_bytes());
    assert!(matches!(Lilac::from_wav(&bytes), Err(Error::Wav(_))));
    let mut whole = container(1, 16, vec![1, 2, 3, 4]).to_wav().unwrap();
    whole[22..24].copy_from_slice(&2u16.to_le_bytes());
    whole[28..32].copy_from_slice(&(44100u32 * 4).to_le_bytes());
    whole[32..34].copy_from_slice(&4u16.to_le_bytes());
    let l = Lilac::from_wav(&whole).unwrap();
    assert_eq!(l.channels, 2);
    assert_eq!(l.samples, vec![1, 2, 3, 4]);
}

#[test]
fn wav_decoding_refuses_a_stream_without_channels() {
    let mut bytes = container(1, 16, vec![]).to_wav().unwrap();
    bytes[22..24].copy_from_slice(&0u16.to_le_bytes());
    assert!(matches!(Lilac::from_wav(&bytes), Err(Error::Wav(_))));
}

#[test]
fn wav_decoding_fails_on_garbage() {
    assert!(matches!(Lilac::from_wav(b"not a wave file at all"), Err(Error::Wav(_))));
    assert!(matches!(Lilac::from_wav(b""), Err(Error::Wav(_))));
}

#[test]
fn wav_takes_the_four_native_depths_and_no_other() {
    for depth in 1..=64u32 {
        let l = container(1, depth, vec![0]);
        assert!(l.is_wav_writable());
        let native = depth == 8 || depth == 16 || depth == 24 || depth == 32;
        assert_eq!(l.to_wav().is_ok(), native, "at {} bits", depth);
    }
}

#[test]
fn wav_takes_exactly_the_samples_that_fit_the_depth() {
    for (depth, min, max) in
        [(8u32, -128i64, 127i64), (16, -32768, 32767), (24, -8_388_608, 8_388_607)]
    {
        for (sample, fits) in [(min, true), (max, true), (min - 1, false), (max + 1, false)] {
            let l = container(1, depth, vec![0, sample as i32]);
            assert_eq!(l.to_wav().is_ok(), fits, "{} at {} bits", sample, depth);
            assert_eq!(l.is_well_formed(), fits);
        }
    }
    assert!(container(1, 32, vec![i32::MIN, i32::MAX]).to_wav().is_ok());
}

#[test]
fn wav_of_a_well_formed_container_reads_back() {
    for (channels, depth, samples) in [
        (1u16, 8u32, vec![-128, 0, 127]),
        (2, 16, vec![-32768, 32767, 1, -1]),
        (3, 24, vec![-8_388_608, 0, 8_388_607]),
        (1, 32, vec![i32::MIN, i32::MAX]),
        (6, 16, vec![]),
    ] {
        let l = container(channels, depth, samples);
        assert!(l.is_well_formed());
        let back = Lilac::from_wav(&l.to_wav().unwrap()).unwrap();
        assert_eq!(back, l);
    }
}
