use lilac::source::total_duration_ms;
use lilac::{normalize, Lilac, Normalized};

fn as_float(n: Normalized) -> f32 {
    n.numerator as f32 / n.denominator as f32
}

fn plain(channels: u16, sample_rate: u32, bit_depth: u32, samples: Vec<i32>) -> Lilac {
    Lilac::new(None, None, None, None, None, channels, sample_rate, bit_depth, samples)
}

#[test]
fn extremes_are_normalised_to_the_ends_of_the_interval() {
    for (depth, min, max) in [
        (8u32, -128i32, 127i32),
        (16, -32768, 32767),
        (24, -8_388_608, 8_388_607),
        (32, i32::MIN, i32::MAX),
    ] {
        assert_eq!(as_float(normalize(min, depth)), -1.0);
        assert_eq!(as_float(normalize(max, depth)), 1.0);
        assert_eq!(as_float(normalize(0, depth)), 0.0);
    }
}

#[test]
fn negative_and_positive_codes_have_their_own_scale() {
    assert_eq!(normalize(-1, 16), Normalized { numerator: -1, denominator: 32768 });
    assert_eq!(normalize(1, 16), Normalized { numerator: 1, denominator: 32767 });
    assert_eq!(normalize(0, 16), Normalized { numerator: 0, denominator: 1 });
    assert_eq!(normalize(-64, 8), Normalized { numerator: -64, denominator: 128 });
    assert_eq!(normalize(64, 8), Normalized { numerator: 64, denominator: 127 });
    assert_eq!(normalize(i32::MIN, 32), Normalized { numerator: i32::MIN, denominator: 1 << 31 });
    assert_eq!(as_float(normalize(-64, 8)), -0.5);
}

#[test]
fn codes_in_range_stay_within_the_unit_interval() {
    for s in -128..=127 {
        let n = normalize(s, 8);
        assert!(n.denominator > 0);
        assert!(-(n.denominator as i64) <= n.numerator as i64);
        assert!(n.numerator as i64 <= n.denominator as i64);
        let f = as_float(n);
        assert!((-1.0..=1.0).contains(&f));
    }
}

#[test]
fn one_bit_has_no_positive_code() {
    assert_eq!(normalize(-1, 1), Normalized { numerator: -1, denominator: 1 });
    assert_eq!(normalize(0, 1), Normalized { numerator: 0, denominator: 1 });
}

#[test]
fn decoded_samples_come_out_normalised_in_order() {
    let l = plain(1, 44100, 16, vec![-32768, 0, 32767]);
    assert!(l.is_playable());
    let mut source = l.source();
    let mut floats = Vec::new();
    while let Some(n) = source.next() {
        floats.push(as_float(n));
    }
    assert_eq!(floats, vec![-1.0, 0.0, 1.0]);
    assert_eq!(source.next(), None);
    assert_eq!(source.next(), None);
}

#[test]
fn source_reports_the_format_of_its_container() {
    let source = plain(2, 48000, 24, vec![1, 2, 3, 4]).source();
    assert_eq!(source.channels(), 2);
    assert_eq!(source.sample_rate(), 48000);
    assert_eq!(source.current_frame_len(), None);
}

#[test]
fn duration_is_truncated_twice() {
    assert_eq!(total_duration_ms(88200, 2, 44100), 1002);
    assert_eq!(total_duration_ms(44100, 1, 44100), 1002);
    assert_eq!(total_duration_ms(48000, 1, 48000), 1000);
    assert_eq!(total_duration_ms(7, 2, 1999), 3);
    assert_eq!(total_duration_ms(0, 1, 1000), 0);
    assert_eq!(total_duration_ms(43, 1, 44100), 0);
    assert_eq!(total_duration_ms(44, 1, 44100), 1);
}

#[test]
fn duration_of_a_source_does_not_shrink_while_it_is_read() {
    let mut source = plain(1, 1000, 16, vec![0; 2500]).source();
    assert_eq!(source.total_duration_ms(), 2500);
    source.next();
    assert_eq!(source.total_duration_ms(), 2500);
}

#[test]
fn duration_never_falls_as_samples_are_added() {
    let mut last = 0;
    for n in 0..5000usize {
        let d = total_duration_ms(n, 2, 44100);
        assert!(d >= last);
        last = d;
    }
    assert_eq!(last, 56);
}

#[test]
fn playable_needs_a_channel_a_kilohertz_and_a_depth() {
    assert!(plain(1, 1000, 1, vec![]).is_playable());
    assert!(plain(1, 1000, 32, vec![]).is_playable());
    assert!(!plain(0, 44100, 16, vec![]).is_playable());
    assert!(!plain(1, 999, 16, vec![]).is_playable());
    assert!(!plain(1, 44100, 0, vec![]).is_playable());
    assert!(!plain(1, 44100, 33, vec![]).is_playable());
}
