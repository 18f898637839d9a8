//! Interactive playback without the terminal and without the audio device:
//! the queue of loaded songs, the stopwatch that measures how much of a song
//! has been played, and the transport, which answers every key and every
//! tick with a command for the audio sink.
//!
//! Time is whatever clock the caller reads, counted in nanoseconds from an
//! origin of the caller's choice, and handed in with every call.

use crate::container::{shown, Lilac, LilacView};
use vstd::prelude::*;

verus! {

/// Nanoseconds in a millisecond.
pub const NANOS_PER_MILLI: u64 = 1_000_000;

/// How long into a song the key for the previous song still leads to the
/// previous song rather than back to the start of this one: two seconds.
pub const RESTART_AFTER: u64 = 2_000_000_000;

/// The loudest volume, in percent.
pub const FULL_VOLUME: u16 = 100;

/// A stopwatch that can be halted and resumed.
#[derive(Clone, Copy, Debug, PartialEq, Eq, Structural)]
pub struct Stopwatch {
    /// The time gathered in earlier runs.
    pub time: u64,
    /// When the current run began, or the watch was last reset.
    pub started: u64,
    /// Whether the watch is running.
    pub running: bool,
}

/// `a + b`, or the largest number where the sum is larger.
pub open spec fn capped_sum(a: u64, b: u64) -> u64 {
    if a + b > u64::MAX {
        u64::MAX
    } else {
        (a + b) as u64
    }
}

/// `a - b`, or zero where `b` is the larger one.
pub open spec fn span(a: u64, b: u64) -> u64 {
    if a < b {
        0
    } else {
        (a - b) as u64
    }
}

/// `a + b`, or the largest number where the sum is larger.
pub fn add_capped(a: u64, b: u64) -> (r: u64)
    ensures
        r == capped_sum(a, b),
    no_unwind
{
    if a > u64::MAX - b {
        u64::MAX
    } else {
        a + b
    }
}

/// `a - b`, or zero where `b` is the larger one.
pub fn span_of(a: u64, b: u64) -> (r: u64)
    ensures
        r == span(a, b),
    no_unwind
{
    if a < b {
        0
    } else {
        a - b
    }
}

impl Stopwatch {
    /// The time that the watch shows at `now`: what earlier runs gathered, and
    /// the length of the current run where the watch is running.
    pub open spec fn shown_at(self, now: u64) -> u64 {
        if self.running {
            capped_sum(self.time, span(now, self.started))
        } else {
            self.time
        }
    }

    /// The watch after `start` at `now`.
    pub open spec fn started_at(self, now: u64) -> Stopwatch {
        if self.running {
            self
        } else {
            Stopwatch { time: self.time, started: now, running: true }
        }
    }

    /// The watch after `stop` at `now`.
    pub open spec fn stopped_at(self, now: u64) -> Stopwatch {
        if self.running {
            Stopwatch { time: self.shown_at(now), started: self.started, running: false }
        } else {
            self
        }
    }

    /// The watch after `reset` at `now`.
    pub open spec fn reset_at(self, now: u64) -> Stopwatch {
        Stopwatch { time: 0, started: now, running: self.running }
    }

    /// A halted watch that shows zero.
    pub fn new(now: u64) -> (r: Stopwatch)
        ensures
            r == (Stopwatch { time: 0, started: now, running: false }),
    {
        Stopwatch { time: 0, started: now, running: false }
    }

    /// Lets the watch run from `now` on. A running watch is left alone.
    pub fn start(&mut self, now: u64)
        ensures
            *final(self) == old(self).started_at(now),
        no_unwind
    {
        if self.running {
            return ;
        }
        self.running = true;
        self.started = now;
    }

    /// Halts the watch at `now`; it keeps showing what it showed then. A
    /// halted watch is left alone.
    pub fn stop(&mut self, now: u64)
        ensures
            *final(self) == old(self).stopped_at(now),
        no_unwind
    {
        if !self.running {
            return ;
        }
        self.running = false;
        self.time = add_capped(self.time, span_of(now, self.started));
    }

    /// Sets the watch back to zero at `now`. A running watch keeps running.
    pub fn reset(&mut self, now: u64)
        ensures
            *final(self) == old(self).reset_at(now),
        no_unwind
    {
        self.time = 0;
        self.started = now;
    }

    /// The time that the watch shows at `now`.
    pub fn time(&self, now: u64) -> (r: u64)
        ensures
            r == self.shown_at(now),
    {
        if self.running {
            add_capped(self.time, span_of(now, self.started))
        } else {
            self.time
        }
    }
}

/// A watch never shows less at a later time than at an earlier one.
pub proof fn lemma_watch_never_runs_back(w: Stopwatch, earlier: u64, later: u64)
    requires
        earlier <= later,
    ensures
        w.shown_at(earlier) <= w.shown_at(later),
{
}

/// The name under which a channel count is shown.
pub open spec fn layout_of(channels: u16) -> Seq<char> {
    if channels == 1 {
        "mono"@
    } else if channels == 2 {
        "stereo"@
    } else {
        "polyphonic"@
    }
}

/// The name under which a channel count is shown.
pub fn layout(channels: u16) -> (r: &'static str)
    ensures
        r@ == layout_of(channels),
{
    if channels == 1 {
        "mono"
    } else if channels == 2 {
        "stereo"
    } else {
        "polyphonic"
    }
}

/// What is shown of a song besides its sound.
#[derive(Debug, Clone, PartialEq, Eq)]
pub struct MetadataState {
    pub title: String,
    pub artist: String,
    pub album: String,
    pub channels: u16,
    pub sample_rate: u32,
    pub bit_depth: u32,
}

impl MetadataState {
    /// What is shown of a container, the absent fields as `Unknown`.
    pub open spec fn shows(self, l: LilacView) -> bool {
        &&& self.title@ == shown(l.title)
        &&& self.artist@ == shown(l.artist)
        &&& self.album@ == shown(l.album)
        &&& self.channels == l.channels
        &&& self.sample_rate == l.sample_rate
        &&& self.bit_depth == l.bit_depth
    }

    /// Reads off a container what is shown of it.
    pub fn read(l: &Lilac) -> (r: MetadataState)
        ensures
            r.shows(l@),
    {
        MetadataState {
            title: l.title().to_owned(),
            artist: l.artist().to_owned(),
            album: l.album().to_owned(),
            channels: l.channels,
            sample_rate: l.sample_rate,
            bit_depth: l.bit_depth,
        }
    }
}

/// The names of the queued songs and the place of the current one.
#[derive(Debug, Clone, PartialEq, Eq)]
pub struct QueueState {
    pub queue: Vec<String>,
    pub current: usize,
}

/// What is shown beside the controls: the current song and the queue.
#[derive(Debug, Clone, PartialEq, Eq)]
pub struct InfoState {
    pub metadata: MetadataState,
    pub queue: QueueState,
}

/// A song of the queue: a container and the name under which it is listed.
pub struct Song {
    pub lilac: Lilac,
    pub name: String,
}

/// The current song of a queue and its place.
pub struct QueueEl<'a> {
    pub idx: usize,
    pub lilac: &'a Lilac,
}

/// The songs loaded for playback, in order, and a cursor on the current one.
pub struct Queue {
    songs: Vec<Song>,
    cursor: usize,
}

impl Queue {
    #[verifier::type_invariant]
    spec fn inv(self) -> bool {
        self.cursor < self.songs.len() || (self.cursor == 0 && self.songs.len() == 0)
    }

    /// The songs of the queue.
    pub closed spec fn songs(self) -> Seq<Song> {
        self.songs@
    }

    /// The place of the current song.
    pub closed spec fn cursor(self) -> nat {
        self.cursor as nat
    }

    /// A queue of the given songs with the cursor on the first.
    pub fn new(songs: Vec<Song>) -> (r: Queue)
        ensures
            r.songs() == songs@,
            r.cursor() == 0,
    {
        Queue { songs, cursor: 0 }
    }

    /// Whether the queue holds no song.
    pub fn is_empty(&self) -> (r: bool)
        ensures
            r == (self.songs().len() == 0),
    {
        self.songs.len() == 0
    }

    /// The current song and its place.
    pub fn current(&self) -> (r: QueueEl<'_>)
        requires
            self.songs().len() > 0,
        ensures
            r.idx == self.cursor(),
            *r.lilac == self.songs()[self.cursor() as int].lilac,
    {
        proof {
            use_type_invariant(self);
        }
        QueueEl { idx: self.cursor, lilac: &self.songs[self.cursor].lilac }
    }

    /// The names of all songs, in order.
    pub fn files(&self) -> (r: Vec<&str>)
        ensures
            r@.len() == self.songs().len(),
            forall|i: int| 0 <= i < r@.len() ==> (#[trigger] r@[i])@ == self.songs()[i].name@,
    {
        let mut names: Vec<&str> = Vec::new();
        let mut i: usize = 0;
        while i < self.songs.len()
            invariant
                i <= self.songs.len(),
                names@.len() == i,
                forall|j: int| 0 <= j < i ==> (#[trigger] names@[j])@ == self.songs@[j].name@,
            decreases self.songs.len() - i,
        {
            names.push(self.songs[i].name.as_str());
            i = i + 1;
        }
        names
    }

    /// Moves the cursor to the next song, if there is one, and says whether
    /// it moved.
    pub fn next(&mut self) -> (r: bool)
        requires
            old(self).songs().len() > 0,
        ensures
            final(self).songs() == old(self).songs(),
            r == (old(self).cursor() + 1 < old(self).songs().len()),
            final(self).cursor() == old(self).cursor() + (if r {
                1nat
            } else {
                0nat
            }),
        no_unwind
    {
        proof {
            use_type_invariant(&*self);
        }
        if self.cursor == self.songs.len() - 1 {
            return false;
        }
        self.cursor = self.cursor + 1;
        true
    }

    /// Moves the cursor to the song before, if there is one, and says whether
    /// it moved.
    pub fn prev(&mut self) -> (r: bool)
        ensures
            final(self).songs() == old(self).songs(),
            r == (old(self).cursor() > 0),
            final(self).cursor() == old(self).cursor() - (if r {
                1nat
            } else {
                0nat
            }),
        no_unwind
    {
        proof {
            use_type_invariant(&*self);
        }
        if self.cursor == 0 {
            return false;
        }
        self.cursor = self.cursor - 1;
        true
    }
}

impl InfoState {
    /// Reads off a queue what is shown of it: the current song, the names of
    /// all songs, and the place of the current one.
    pub fn read(q: &Queue) -> (r: InfoState)
        requires
            q.songs().len() > 0,
        ensures
            r.metadata.shows(q.songs()[q.cursor() as int].lilac@),
            r.queue.current == q.cursor(),
            r.queue.queue@.len() == q.songs().len(),
            forall|i: int|
                0 <= i < q.songs().len() ==> (#[trigger] r.queue.queue@[i])@ == q.songs()[i].name@,
    {
        let el = q.current();
        let names = q.files();
        let mut queue: Vec<String> = Vec::new();
        let mut i: usize = 0;
        while i < names.len()
            invariant
                i <= names.len(),
                queue@.len() == i,
                forall|j: int| 0 <= j < i ==> (#[trigger] queue@[j])@ == names@[j]@,
            decreases names.len() - i,
        {
            queue.push(names[i].to_owned());
            i = i + 1;
        }
        InfoState {
            metadata: MetadataState::read(el.lilac),
            queue: QueueState { queue, current: el.idx },
        }
    }
}

/// What the caller reports to the transport.
#[derive(Clone, Copy, Debug, PartialEq, Eq, Structural)]
pub enum Input {
    /// The key that starts and halts playback.
    Toggle,
    /// The key for the next song.
    Forward,
    /// The key for the previous song.
    Back,
    /// The key that raises the volume.
    Louder,
    /// The key that lowers the volume.
    Quieter,
    /// A key that ends the session.
    Quit,
    /// The clock has ticked.
    Tick,
    /// Any other key.
    Other,
}

/// What the caller is to do with the audio sink.
#[derive(Clone, Copy, Debug, PartialEq, Eq, Structural)]
pub enum Command {
    /// Nothing.
    Nothing,
    /// Let the sink play.
    Play,
    /// Halt the sink.
    Pause,
    /// Drop the sink, make a new one for the current song of the queue, and
    /// report the song's duration with `Transport::loaded`. The new sink
    /// plays or is halted as `Transport::is_playing` says.
    Load,
    /// Set the volume of the sink to this many percent.
    Volume(u16),
    /// End the session.
    Quit,
}

/// The state of the transport, as plain mathematical values.
pub struct TransportView {
    pub cursor: nat,
    pub songs: nat,
    pub watch: Stopwatch,
    pub playing: bool,
    pub played: u64,
    pub duration: u64,
    pub volume: u16,
}

/// Whether a song that has been played for `played` nanoseconds has reached
/// the duration that it announced in milliseconds.
pub open spec fn played_out(played: u64, duration: u64) -> bool {
    played >= duration * NANOS_PER_MILLI
}

/// The state after an input, and the command that answers it.
pub open spec fn answered(s: TransportView, input: Input, now: u64) -> (TransportView, Command) {
    match input {
        Input::Toggle => if s.playing {
            (TransportView { playing: false, watch: s.watch.stopped_at(now), ..s }, Command::Pause)
        } else {
            (TransportView { playing: true, watch: s.watch.started_at(now), ..s }, Command::Play)
        },
        Input::Forward => if s.cursor + 1 < s.songs {
            (TransportView { cursor: s.cursor + 1, ..s }, Command::Load)
        } else {
            (s, Command::Nothing)
        },
        Input::Back => if s.watch.shown_at(now) < RESTART_AFTER && s.cursor > 0 {
            (TransportView { cursor: (s.cursor - 1) as nat, ..s }, Command::Load)
        } else {
            (s, Command::Load)
        },
        Input::Louder => if s.volume < FULL_VOLUME {
            (
                TransportView { volume: (s.volume + 1) as u16, ..s },
                Command::Volume((s.volume + 1) as u16),
            )
        } else {
            (s, Command::Nothing)
        },
        Input::Quieter => if s.volume > 0 {
            (
                TransportView { volume: (s.volume - 1) as u16, ..s },
                Command::Volume((s.volume - 1) as u16),
            )
        } else {
            (s, Command::Nothing)
        },
        Input::Quit => (s, Command::Quit),
        Input::Other => (s, Command::Nothing),
        Input::Tick => {
            let played = s.watch.shown_at(now);
            if played_out(played, s.duration) && s.playing {
                if s.cursor + 1 < s.songs {
                    (TransportView { played, cursor: s.cursor + 1, ..s }, Command::Load)
                } else {
                    (
                        TransportView {
                            played,
                            cursor: 0,
                            playing: false,
                            watch: s.watch.stopped_at(now),
                            ..s
                        },
                        Command::Load,
                    )
                }
            } else {
                (TransportView { played, ..s }, Command::Nothing)
            }
        },
    }
}

/// The bounds of the transport: the cursor is on a song, the volume is at
/// most a hundred percent, and the stopwatch runs exactly while the song
/// plays.
pub open spec fn in_bounds(s: TransportView) -> bool {
    &&& s.cursor < s.songs
    &&& s.volume <= FULL_VOLUME
    &&& s.playing == s.watch.running
}

/// No input leads out of the bounds of the transport, and none changes the
/// number of songs.
pub proof fn lemma_answer_keeps_bounds(s: TransportView, input: Input, now: u64)
    requires
        in_bounds(s),
    ensures
        in_bounds(answered(s, input, now).0),
        answered(s, input, now).0.songs == s.songs,
{
}

/// The playback controls: which song is current, whether it plays, how much
/// of it has been played, and how loud.
pub struct Transport {
    queue: Queue,
    watch: Stopwatch,
    playing: bool,
    played: u64,
    duration: u64,
    volume: u16,
}

impl View for Transport {
    type V = TransportView;

    closed spec fn view(&self) -> TransportView {
        TransportView {
            cursor: self.queue.cursor(),
            songs: self.queue.songs().len(),
            watch: self.watch,
            playing: self.playing,
            played: self.played,
            duration: self.duration,
            volume: self.volume,
        }
    }
}

impl Transport {
    #[verifier::type_invariant]
    spec fn inv(self) -> bool {
        &&& self.queue.songs().len() > 0
        &&& self.volume <= FULL_VOLUME
    }

    /// The songs of the queue.
    pub closed spec fn songs(self) -> Seq<Song> {
        self.queue.songs()
    }

    /// The transport at the start of a session: halted on the first song of
    /// the queue, at full volume, nothing played. `duration` is the duration
    /// that the first song announces, in milliseconds.
    pub fn new(songs: Vec<Song>, duration: u64, now: u64) -> (r: Transport)
        requires
            songs@.len() > 0,
        ensures
            r.songs() == songs@,
            r@ == (TransportView {
                cursor: 0,
                songs: songs@.len(),
                watch: Stopwatch { time: 0, started: now, running: false },
                playing: false,
                played: 0,
                duration,
                volume: FULL_VOLUME,
            }),
    {
        Transport {
            queue: Queue::new(songs),
            watch: Stopwatch::new(now),
            playing: false,
            played: 0,
            duration,
            volume: FULL_VOLUME,
        }
    }

    /// Whether the current song plays.
    pub fn is_playing(&self) -> (r: bool)
        ensures
            r == self@.playing,
    {
        self.playing
    }

    /// How much of the current song had been played at the last tick, in
    /// nanoseconds.
    pub fn played(&self) -> (r: u64)
        ensures
            r == self@.played,
    {
        self.played
    }

    /// The duration that the current song announces, in milliseconds.
    pub fn duration(&self) -> (r: u64)
        ensures
            r == self@.duration,
    {
        self.duration
    }

    /// The volume in percent.
    pub fn volume(&self) -> (r: u16)
        ensures
            r == self@.volume,
            r <= FULL_VOLUME,
    {
        proof {
            use_type_invariant(self);
        }
        self.volume
    }

    /// The current song.
    pub fn current(&self) -> (r: QueueEl<'_>)
        ensures
            r.idx == self@.cursor,
            r.idx < self.songs().len(),
            *r.lilac == self.songs()[r.idx as int].lilac,
    {
        proof {
            use_type_invariant(self);
            use_type_invariant(&self.queue);
        }
        self.queue.current()
    }

    /// What is shown beside the controls.
    pub fn info(&self) -> (r: InfoState)
        ensures
            r.metadata.shows(self.songs()[self@.cursor as int].lilac@),
            r.queue.current == self@.cursor,
            r.queue.queue@.len() == self.songs().len(),
            forall|i: int|
                0 <= i < self.songs().len() ==> (#[trigger] r.queue.queue@[i])@
                    == self.songs()[i].name@,
    {
        proof {
            use_type_invariant(self);
        }
        InfoState::read(&self.queue)
    }

    /// Takes note that the sink now holds the current song from its start:
    /// nothing is played yet, the stopwatch shows zero, and the song
    /// announces `duration` milliseconds.
    pub fn loaded(&mut self, duration: u64, now: u64)
        ensures
            final(self).songs() == old(self).songs(),
            final(self)@ == (TransportView {
                played: 0,
                duration,
                watch: old(self)@.watch.reset_at(now),
                ..old(self)@
            }),
    {
        proof {
            use_type_invariant(&*self);
        }
        self.played = 0;
        self.duration = duration;
        self.watch.reset(now);
    }

    /// Answers an input at the time `now`.
    pub fn handle(&mut self, input: Input, now: u64) -> (r: Command)
        ensures
            final(self).songs() == old(self).songs(),
            (final(self)@, r) == answered(old(self)@, input, now),
    {
        proof {
            use_type_invariant(&*self);
            use_type_invariant(&self.queue);
        }
        match input {
            Input::Toggle => {
                self.playing = !self.playing;
                if self.playing {
                    self.watch.start(now);
                    Command::Play
                } else {
                    self.watch.stop(now);
                    Command::Pause
                }
            },
            Input::Forward => {
                if self.queue.next() {
                    Command::Load
                } else {
                    Command::Nothing
                }
            },
            Input::Back => {
                if self.watch.time(now) < RESTART_AFTER {
                    self.queue.prev();
                }
                Command::Load
            },
            Input::Louder => {
                if self.volume < FULL_VOLUME {
                    self.volume = self.volume + 1;
                    Command::Volume(self.volume)
                } else {
                    Command::Nothing
                }
            },
            Input::Quieter => {
                if self.volume > 0 {
                    self.volume = self.volume - 1;
                    Command::Volume(self.volume)
                } else {
                    Command::Nothing
                }
            },
            Input::Quit => Command::Quit,
            Input::Other => Command::Nothing,
            Input::Tick => {
                self.played = self.watch.time(now);
                assert(self.duration * NANOS_PER_MILLI <= 0xFFFF_FFFF_FFFF_FFFF * 1_000_000)
                    by (nonlinear_arith)
                    requires
                        self.duration <= 0xFFFF_FFFF_FFFF_FFFF,
                        NANOS_PER_MILLI == 1_000_000,
                ;
                let over = self.played as u128 >= self.duration as u128 * NANOS_PER_MILLI as u128;
                if over && self.playing {
                    if self.queue.next() {
                        Command::Load
                    } else {
                        while self.queue.prev()
                            invariant
                                self.queue.songs() == old(self).queue.songs(),
                                self.queue.songs().len() > 0,
                                self.volume <= FULL_VOLUME,
                                self.watch == old(self).watch,
                                self.playing == old(self).playing,
                                self.duration == old(self).duration,
                                self.volume == old(self).volume,
                                self.played == old(self).watch.shown_at(now),
                            decreases self.queue.cursor(),
                        {
                        }
                        self.playing = false;
                        self.watch.stop(now);
                        Command::Load
                    }
                } else {
                    Command::Nothing
                }
            },
        }
    }
}

} // verus!
