use lilac::player::{
    layout, Command, InfoState, Input, MetadataState, Queue, Song, Stopwatch, Transport,
};
use lilac::Lilac;

const SECOND: u64 = 1_000_000_000;

fn song(name: &str, title: Option<&str>) -> Song {
    let lilac =
        Lilac::new(title.map(str::to_string), None, None, None, None, 2, 44100, 16, vec![0; 4]);
    Song { lilac, name: name.to_string() }
}

fn three_songs() -> Vec<Song> {
    vec![song("one", Some("First")), song("two", None), song("three", Some("Third"))]
}

#[test]
fn stopwatch_gathers_time_only_while_it_runs() {
    let mut w = Stopwatch::new(100);
    assert_eq!(w.time(500), 0);
    w.start(1000);
    assert_eq!(w.time(1000), 0);
    assert_eq!(w.time(1500), 500);
    w.stop(1700);
    assert_eq!(w.time(9000), 700);
    w.start(10_000);
    assert_eq!(w.time(10_300), 1000);
    w.stop(10_300);
    assert_eq!(w.time(0), 1000);
}

#[test]
fn stopwatch_ignores_a_second_start_and_a_second_stop() {
    let mut w = Stopwatch::new(0);
    w.start(10);
    w.start(50);
    assert_eq!(w.time(60), 50);
    w.stop(60);
    w.stop(100);
    assert_eq!(w.time(200), 50);
}

#[test]
fn stopwatch_reset_keeps_it_running() {
    let mut w = Stopwatch::new(0);
    w.start(0);
    w.reset(40);
    assert!(w.running);
    assert_eq!(w.time(100), 60);
    w.stop(100);
    w.reset(200);
    assert!(!w.running);
    assert_eq!(w.time(900), 0);
}

#[test]
fn stopwatch_never_overflows_or_runs_backwards() {
    let mut w = Stopwatch::new(0);
    w.start(100);
    assert_eq!(w.time(50), 0);
    w.stop(u64::MAX);
    w.start(0);
    assert_eq!(w.time(u64::MAX), u64::MAX);
}

#[test]
fn queue_moves_within_its_songs() {
    let mut q = Queue::new(three_songs());
    assert!(!q.is_empty());
    assert_eq!(q.current().idx, 0);
    assert!(!q.prev());
    assert!(q.next());
    assert!(q.next());
    assert_eq!(q.current().idx, 2);
    assert!(!q.next());
    assert_eq!(q.current().idx, 2);
    assert!(q.prev());
    assert_eq!(q.current().idx, 1);
    assert_eq!(q.current().lilac.title(), "Unknown");
}

#[test]
fn queue_lists_its_songs_by_name() {
    let q = Queue::new(three_songs());
    assert_eq!(q.files(), vec!["one", "two", "three"]);
    assert!(Queue::new(Vec::new()).is_empty());
    assert_eq!(Queue::new(Vec::new()).files(), Vec::<&str>::new());
}

#[test]
fn info_shows_the_current_song_and_the_queue() {
    let mut q = Queue::new(three_songs());
    q.next();
    let info = InfoState::read(&q);
    assert_eq!(info.queue.current, 1);
    assert_eq!(info.queue.queue, vec!["one", "two", "three"]);
    assert_eq!(info.metadata.title, "Unknown");
    assert_eq!(info.metadata.channels, 2);
    assert_eq!(info.metadata.sample_rate, 44100);
    assert_eq!(info.metadata.bit_depth, 16);
}

#[test]
fn metadata_state_shows_absent_fields_as_unknown() {
    let l = Lilac::new(Some("T".into()), None, None, Some("Al".into()), None, 1, 8000, 8, vec![]);
    let m = MetadataState::read(&l);
    assert_eq!(m.title, "T");
    assert_eq!(m.artist, "Unknown");
    assert_eq!(m.album, "Al");
    assert_eq!((m.channels, m.sample_rate, m.bit_depth), (1, 8000, 8));
}

#[test]
fn channel_counts_have_names() {
    assert_eq!(layout(1), "mono");
    assert_eq!(layout(2), "stereo");
    assert_eq!(layout(0), "polyphonic");
    assert_eq!(layout(6), "polyphonic");
}

#[test]
fn transport_starts_halted_at_full_volume() {
    let t = Transport::new(three_songs(), 1500, 0);
    assert!(!t.is_playing());
    assert_eq!(t.volume(), 100);
    assert_eq!(t.played(), 0);
    assert_eq!(t.duration(), 1500);
    assert_eq!(t.current().idx, 0);
    assert_eq!(t.info().queue.queue.len(), 3);
}

#[test]
fn toggle_plays_and_pauses() {
    let mut t = Transport::new(three_songs(), 1500, 0);
    assert_eq!(t.handle(Input::Toggle, 10), Command::Play);
    assert!(t.is_playing());
    assert_eq!(t.handle(Input::Toggle, 20), Command::Pause);
    assert!(!t.is_playing());
    assert_eq!(t.handle(Input::Tick, 500), Command::Nothing);
    assert_eq!(t.played(), 10);
}

#[test]
fn volume_stays_between_nothing_and_full() {
    let mut t = Transport::new(three_songs(), 1500, 0);
    assert_eq!(t.handle(Input::Louder, 0), Command::Nothing);
    assert_eq!(t.handle(Input::Quieter, 0), Command::Volume(99));
    assert_eq!(t.handle(Input::Louder, 0), Command::Volume(100));
    for expected in (0..100).rev() {
        assert_eq!(t.handle(Input::Quieter, 0), Command::Volume(expected));
    }
    assert_eq!(t.handle(Input::Quieter, 0), Command::Nothing);
    assert_eq!(t.volume(), 0);
}

#[test]
fn forward_loads_the_next_song_until_the_last() {
    let mut t = Transport::new(three_songs(), 1500, 0);
    assert_eq!(t.handle(Input::Forward, 0), Command::Load);
    assert_eq!(t.current().idx, 1);
    assert_eq!(t.handle(Input::Forward, 0), Command::Load);
    assert_eq!(t.handle(Input::Forward, 0), Command::Nothing);
    assert_eq!(t.current().idx, 2);
}

#[test]
fn back_restarts_a_song_that_has_played_two_seconds() {
    let mut t = Transport::new(three_songs(), 60_000, 0);
    t.handle(Input::Forward, 0);
    t.loaded(60_000, 0);
    t.handle(Input::Toggle, 0);
    assert_eq!(t.handle(Input::Back, 2 * SECOND), Command::Load);
    assert_eq!(t.current().idx, 1);
    t.loaded(60_000, 2 * SECOND);
    assert_eq!(t.handle(Input::Back, 4 * SECOND - 1), Command::Load);
    assert_eq!(t.current().idx, 0);
    t.loaded(60_000, 4 * SECOND);
    assert_eq!(t.handle(Input::Back, 4 * SECOND), Command::Load);
    assert_eq!(t.current().idx, 0);
}

#[test]
fn loading_sets_the_stopwatch_back() {
    let mut t = Transport::new(three_songs(), 1000, 0);
    t.handle(Input::Toggle, 0);
    t.handle(Input::Tick, 700);
    assert_eq!(t.played(), 700);
    t.handle(Input::Forward, 800);
    t.loaded(2000, 900);
    assert_eq!(t.played(), 0);
    assert_eq!(t.duration(), 2000);
    assert!(t.is_playing());
    t.handle(Input::Tick, 1000);
    assert_eq!(t.played(), 100);
}

#[test]
fn a_song_that_has_played_out_is_followed_by_the_next() {
    let mut t = Transport::new(three_songs(), 1000, 0);
    t.handle(Input::Toggle, 0);
    assert_eq!(t.handle(Input::Tick, SECOND - 1), Command::Nothing);
    assert_eq!(t.handle(Input::Tick, SECOND), Command::Load);
    assert_eq!(t.current().idx, 1);
    assert!(t.is_playing());
}

#[test]
fn a_halted_song_is_not_followed() {
    let mut t = Transport::new(three_songs(), 0, 0);
    assert_eq!(t.handle(Input::Tick, SECOND), Command::Nothing);
    assert_eq!(t.current().idx, 0);
}

#[test]
fn the_last_song_is_followed_by_the_first_halted() {
    let mut t = Transport::new(three_songs(), 1000, 0);
    t.handle(Input::Forward, 0);
    t.handle(Input::Forward, 0);
    t.loaded(1000, 0);
    t.handle(Input::Toggle, 0);
    assert_eq!(t.handle(Input::Tick, 2 * SECOND), Command::Load);
    assert_eq!(t.current().idx, 0);
    assert!(!t.is_playing());
}

#[test]
fn quit_and_other_keys_change_nothing() {
    let mut t = Transport::new(three_songs(), 1000, 0);
    assert_eq!(t.handle(Input::Quit, 5), Command::Quit);
    assert_eq!(t.handle(Input::Other, 5), Command::Nothing);
    assert!(!t.is_playing());
    assert_eq!(t.current().idx, 0);
    assert_eq!(t.volume(), 100);
}
