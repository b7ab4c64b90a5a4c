use std::time::Duration;
use vstd::prelude::*;

verus! {

/// Nanoseconds in one second.
pub const NANOS_PER_SEC: u64 = 1_000_000_000;

/// The length of a `Duration` in nanoseconds: what `Duration::as_nanos`
/// returns for it.
pub uninterp spec fn duration_nanos(d: Duration) -> nat;

/// `Duration::as_nanos`: the total number of nanoseconds in the duration.
pub assume_specification[ std::time::Duration::as_nanos ](d: &std::time::Duration) -> (nanos: u128)
    ensures
        nanos == duration_nanos(*d),
;

/// `Duration::as_secs`: the number of whole seconds in the duration, which
/// fits a `u64`.
pub assume_specification[ std::time::Duration::as_secs ](d: &std::time::Duration) -> (secs: u64)
    ensures
        secs == duration_nanos(*d) / (NANOS_PER_SEC as nat),
;

/// `Duration::new`: a duration of `secs` whole seconds and `nanos` further
/// nanoseconds. With `nanos` below one second nothing carries over into the
/// seconds, so the constructor cannot overflow.
pub assume_specification[ std::time::Duration::new ](secs: u64, nanos: u32) -> (d:
    std::time::Duration)
    requires
        nanos < NANOS_PER_SEC,
    ensures
        duration_nanos(d) == secs * NANOS_PER_SEC + nanos,
;

/// Where the player stands in its life cycle.
#[derive(Debug, Clone, Copy, PartialEq, Eq, Structural)]
pub enum PlaybackState {
    Stopped,
    Playing,
    Paused,
}

/// What the player reports when something happened to it.
#[derive(Debug, Clone, Copy, PartialEq, Eq, Structural)]
pub enum PlayerEvent {
    Playing,
    Paused,
    Resumed,
    Stopped,
    Error,
    VolumeChanged,
}

/// Why a track could not be started.
#[derive(Debug, Clone, Copy, PartialEq, Eq, Structural)]
pub enum PlayError {
    /// The file could not be opened.
    Open,
    /// The file was opened but its contents could not be decoded.
    Decode,
}

impl PlayError {
    /// A short description for status lines.
    pub fn message(&self) -> (text: &'static str)
        ensures
            text@ == (match *self {
                PlayError::Open => "cannot open audio file"@,
                PlayError::Decode => "cannot decode audio file"@,
            }),
    {
        match self {
            PlayError::Open => "cannot open audio file",
            PlayError::Decode => "cannot decode audio file",
        }
    }
}

/// The state after `toggle_pause`: playing and paused change places, a
/// stopped player stays stopped.
pub open spec fn toggled(state: PlaybackState) -> PlaybackState {
    match state {
        PlaybackState::Playing => PlaybackState::Paused,
        PlaybackState::Paused => PlaybackState::Playing,
        PlaybackState::Stopped => PlaybackState::Stopped,
    }
}

/// The event that `toggle_pause` raises in `state`, if any.
pub open spec fn toggle_event(state: PlaybackState) -> Option<PlayerEvent> {
    match state {
        PlaybackState::Playing => Some(PlayerEvent::Paused),
        PlaybackState::Paused => Some(PlayerEvent::Resumed),
        PlaybackState::Stopped => None,
    }
}

/// The mathematical content of an `AudioPlayer`.
pub struct PlayerModel {
    pub state: PlaybackState,
    /// Path of the loaded track, if one is loaded.
    pub path: Option<Seq<char>>,
    /// Whole seconds played of the loaded track, as last reported.
    pub position_secs: nat,
    /// Length of the loaded track as the caller gave it.
    pub duration: Duration,
}

impl PlayerModel {
    /// Nothing is loaded: no path, no elapsed time, no length.
    pub open spec fn is_reset(self) -> bool {
        &&& self.state == PlaybackState::Stopped
        &&& self.path is None
        &&& self.position_secs == 0
        &&& duration_nanos(self.duration) == 0
    }

    /// Elapsed time in nanoseconds.
    pub open spec fn position_nanos(self) -> nat {
        self.position_secs * (NANOS_PER_SEC as nat)
    }

    /// Where a forward seek by `amount` nanoseconds lands, if the player
    /// accepts it: only a target before the end of the track is accepted.
    pub open spec fn forward_target(self, amount: nat) -> Option<nat> {
        if self.position_nanos() + amount < duration_nanos(self.duration) {
            Some(self.position_nanos() + amount)
        } else {
            None
        }
    }

    /// Where a backward seek by `amount` nanoseconds lands: at the start of
    /// the track when `amount` reaches further back than that.
    pub open spec fn backward_target(self, amount: nat) -> nat {
        if self.position_nanos() >= amount {
            (self.position_nanos() - amount) as nat
        } else {
            0
        }
    }
}

/// The playback engine: which track is loaded, how long it is, how far it has
/// played and whether it is playing, paused or stopped.
///
/// Every transport operation returns the event that it raises. The event is
/// also the order to the output sink: on `Paused` the sink pauses, on
/// `Resumed` and `Playing` it plays, on `Stopped` its queue is discarded and
/// the elapsed-time counter cleared.
pub struct AudioPlayer {
    state: PlaybackState,
    current_path: Option<String>,
    position_secs: u64,
    duration: Duration,
}

impl View for AudioPlayer {
    type V = PlayerModel;

    closed spec fn view(&self) -> PlayerModel {
        PlayerModel {
            state: self.state,
            path: match self.current_path {
                Some(p) => Some(p@),
                None => None,
            },
            position_secs: self.position_secs as nat,
            duration: self.duration,
        }
    }
}

/// A whole number of seconds in nanoseconds.
fn secs_to_nanos(secs: u64) -> (nanos: u128)
    ensures
        nanos == secs as nat * (NANOS_PER_SEC as nat),
{
    (secs as u128) * 1_000_000_000u128
}

/// Builds a duration from a number of nanoseconds that is known to stay
/// within the range of `Duration`.
fn duration_from_nanos(nanos: u128) -> (d: Duration)
    requires
        nanos / (NANOS_PER_SEC as u128) <= u64::MAX,
    ensures
        duration_nanos(d) == nanos,
{
    let secs: u64 = (nanos / (NANOS_PER_SEC as u128)) as u64;
    let rest: u32 = (nanos % (NANOS_PER_SEC as u128)) as u32;
    Duration::new(secs, rest)
}

impl AudioPlayer {
    /// Position and length mean something only while a track is loaded: a
    /// stopped player has neither, nor a path.
    pub open spec fn wf(&self) -> bool {
        self@.state == PlaybackState::Stopped ==> self@.is_reset()
    }

    /// Position counts up to `u64::MAX` seconds.
    pub proof fn lemma_position_bound(&self)
        ensures
            self@.position_secs <= u64::MAX,
    {
    }

    /// A stopped player with nothing loaded.
    pub fn new() -> (player: Self)
        ensures
            player@.is_reset(),
            player.wf(),
    {
        AudioPlayer {
            state: PlaybackState::Stopped,
            current_path: None,
            position_secs: 0,
            duration: Duration::new(0, 0),
        }
    }

    /// Starts `path`, whatever the player was doing before: anything loaded
    /// is stopped first. `opened` says whether the decoder could open the
    /// file. If it could, the player is playing from the start of a track of
    /// the given `duration`; if not, the player stays stopped and the error
    /// is handed back.
    pub fn play(&mut self, path: &str, duration: Duration, opened: Result<(), PlayError>) -> (result:
        Result<PlayerEvent, PlayError>)
        ensures
            final(self).wf(),
            match opened {
                Ok(_) => {
                    &&& result == Ok::<PlayerEvent, PlayError>(PlayerEvent::Playing)
                    &&& final(self)@ == (PlayerModel {
                        state: PlaybackState::Playing,
                        path: Some(path@),
                        position_secs: 0,
                        duration: duration,
                    })
                },
                Err(e) => {
                    &&& result == Err::<PlayerEvent, PlayError>(e)
                    &&& final(self)@.is_reset()
                },
            },
    {
        self.stop();
        match opened {
            Ok(_) => {
                self.duration = duration;
                self.state = PlaybackState::Playing;
                self.current_path = Some(path.to_owned());
                Ok(PlayerEvent::Playing)
            },
            Err(e) => Err(e),
        }
    }

    /// Pauses a playing track. In any other state nothing happens.
    pub fn pause(&mut self) -> (event: Option<PlayerEvent>)
        ensures
            old(self).wf() ==> final(self).wf(),
            old(self)@.state == PlaybackState::Playing ==> {
                &&& event == Some(PlayerEvent::Paused)
                &&& final(self)@ == (PlayerModel { state: PlaybackState::Paused, ..old(self)@ })
            },
            old(self)@.state != PlaybackState::Playing ==> {
                &&& event is None
                &&& final(self)@ == old(self)@
            },
    {
        if self.state == PlaybackState::Playing {
            self.state = PlaybackState::Paused;
            Some(PlayerEvent::Paused)
        } else {
            None
        }
    }

    /// Resumes a paused track. In any other state nothing happens.
    pub fn resume(&mut self) -> (event: Option<PlayerEvent>)
        ensures
            old(self).wf() ==> final(self).wf(),
            old(self)@.state == PlaybackState::Paused ==> {
                &&& event == Some(PlayerEvent::Resumed)
                &&& final(self)@ == (PlayerModel { state: PlaybackState::Playing, ..old(self)@ })
            },
            old(self)@.state != PlaybackState::Paused ==> {
                &&& event is None
                &&& final(self)@ == old(self)@
            },
    {
        if self.state == PlaybackState::Paused {
            self.state = PlaybackState::Playing;
            Some(PlayerEvent::Resumed)
        } else {
            None
        }
    }

    /// Pauses when playing, resumes when paused, does nothing when stopped.
    pub fn toggle_pause(&mut self) -> (event: Option<PlayerEvent>)
        ensures
            old(self).wf() ==> final(self).wf(),
            event == toggle_event(old(self)@.state),
            final(self)@ == (PlayerModel { state: toggled(old(self)@.state), ..old(self)@ }),
    {
        match self.state {
            PlaybackState::Playing => self.pause(),
            PlaybackState::Paused => self.resume(),
            PlaybackState::Stopped => None,
        }
    }

    /// Stops whatever is loaded and forgets it.
    pub fn stop(&mut self) -> (event: PlayerEvent)
        ensures
            event == PlayerEvent::Stopped,
            final(self)@.is_reset(),
            final(self).wf(),
    {
        self.state = PlaybackState::Stopped;
        self.current_path = None;
        self.position_secs = 0;
        self.duration = Duration::new(0, 0);
        PlayerEvent::Stopped
    }

    /// Takes note of how the sink answered a seek to `position`. A seek that
    /// the sink turned down is reported and changes nothing.
    pub fn seek(&self, position: Duration, accepted: bool) -> (event: Option<PlayerEvent>)
        ensures
            event == (if accepted {
                None
            } else {
                Some(PlayerEvent::Error)
            }),
    {
        if accepted {
            None
        } else {
            Some(PlayerEvent::Error)
        }
    }

    /// The position to seek to for a step of `amount` forwards. A step that
    /// would reach or pass the end of the track is refused.
    pub fn seek_forward(&self, amount: Duration) -> (target: Option<Duration>)
        ensures
            match self@.forward_target(duration_nanos(amount)) {
                Some(nanos) => target is Some && duration_nanos(target->0) == nanos,
                None => target is None,
            },
            target is Some ==> duration_nanos(target->0) < duration_nanos(self@.duration),
    {
        let current: u128 = secs_to_nanos(self.position_secs);
        let step: u128 = amount.as_nanos();
        let total: u128 = self.duration.as_nanos();
        let whole_secs: u64 = self.duration.as_secs();
        if step < total && current < total - step {
            let target: u128 = current + step;
            assert(target / (NANOS_PER_SEC as u128) <= u64::MAX) by {
                assert(target < total);
                assert(total / (NANOS_PER_SEC as u128) == whole_secs);
                lemma_div_is_ordered(target, total);
            }
            Some(duration_from_nanos(target))
        } else {
            None
        }
    }

    /// The position to seek to for a step of `amount` backwards: never before
    /// the start of the track.
    pub fn seek_backward(&self, amount: Duration) -> (target: Duration)
        ensures
            duration_nanos(target) == self@.backward_target(duration_nanos(amount)),
            duration_nanos(target) <= self@.position_nanos(),
    {
        let current: u128 = secs_to_nanos(self.position_secs);
        let step: u128 = amount.as_nanos();
        if current >= step {
            let target: u128 = current - step;
            assert(target / (NANOS_PER_SEC as u128) <= u64::MAX) by {
                lemma_div_is_ordered(target, current);
                lemma_div_of_multiple(self.position_secs);
            }
            duration_from_nanos(target)
        } else {
            Duration::new(0, 0)
        }
    }

    /// Takes note of how many whole seconds the audio path has played. A
    /// stopped player has no position and ignores the report.
    pub fn update_position(&mut self, secs: u64)
        ensures
            old(self).wf() ==> final(self).wf(),
            old(self)@.state != PlaybackState::Stopped ==> final(self)@ == (PlayerModel {
                position_secs: secs as nat,
                ..old(self)@
            }),
            old(self)@.state == PlaybackState::Stopped ==> final(self)@ == old(self)@,
    {
        if self.state != PlaybackState::Stopped {
            self.position_secs = secs;
        }
    }

    pub fn state(&self) -> (state: PlaybackState)
        ensures
            state == self@.state,
    {
        self.state
    }

    /// Elapsed time of the loaded track, in whole seconds.
    pub fn position(&self) -> (position: Duration)
        ensures
            duration_nanos(position) == self@.position_nanos(),
    {
        Duration::new(self.position_secs, 0)
    }

    /// Length of the loaded track as given to `play`; zero when stopped.
    pub fn duration(&self) -> (duration: Duration)
        ensures
            duration == self@.duration,
    {
        self.duration
    }

    /// Whether the loaded track has played to its end: the sink has nothing
    /// left to play although the player was not paused or stopped.
    pub fn is_finished(&self, sink_empty: bool) -> (finished: bool)
        ensures
            finished == (sink_empty && self@.state == PlaybackState::Playing),
    {
        sink_empty && self.state == PlaybackState::Playing
    }
}

/// Division by the length of a second keeps the order.
proof fn lemma_div_is_ordered(a: u128, b: u128)
    requires
        a <= b,
    ensures
        a as int / (NANOS_PER_SEC as int) <= b as int / (NANOS_PER_SEC as int),
{
    vstd::arithmetic::div_mod::lemma_div_is_ordered(a as int, b as int, NANOS_PER_SEC as int);
}

/// A whole number of seconds, in nanoseconds, divides back to itself.
proof fn lemma_div_of_multiple(secs: u64)
    ensures
        (secs as int * NANOS_PER_SEC as int) / (NANOS_PER_SEC as int) == secs,
{
    assert((secs as int * 1_000_000_000) / 1_000_000_000 == secs) by (nonlinear_arith);
}

/// Toggling twice brings a playing or paused player back to where it was,
/// and a stopped player never leaves its state.
pub proof fn lemma_toggle_twice(state: PlaybackState)
    ensures
        toggled(toggled(state)) == state,
        toggled(toggled(PlaybackState::Playing)) == PlaybackState::Playing,
{
}

/// An accepted forward seek lands before the end of the track, and a
/// backward seek never lands before its start nor after the current position.
pub proof fn lemma_seek_targets_in_range(player: PlayerModel, amount: nat)
    ensures
        player.forward_target(amount) is Some ==> player.forward_target(amount)->0
            < duration_nanos(player.duration),
        0 <= player.backward_target(amount) <= player.position_nanos(),
{
}

/// What the wrapper around a decoded sample stream keeps count of.
pub struct TrackerModel {
    /// Samples pulled so far, all channels counted.
    pub samples_played: nat,
    pub sample_rate: nat,
    pub channels: nat,
    /// Channel of the next sample within its frame.
    pub channel_idx: nat,
}

impl TrackerModel {
    /// Interleaved samples in one second of audio.
    pub open spec fn samples_per_second(self) -> nat {
        self.sample_rate * self.channels
    }
}

/// What is to be done with one sample that went through the wrapper.
#[derive(Debug, Clone, Copy, PartialEq, Eq, Structural)]
pub struct SampleStep {
    /// The sample belongs to the first channel and goes to the spectrum's
    /// ring buffer.
    pub tap: bool,
    /// A full second of audio is complete: the elapsed-seconds counter takes
    /// this value.
    pub elapsed_secs: Option<u64>,
}

/// The bookkeeping of the wrapper that sits between the decoder and the
/// sink: it counts the samples that pass, picks the first channel's samples
/// for the spectrum and reports each completed second.
pub struct PositionTrackingSource {
    samples_played: u64,
    sample_rate: u32,
    channels: u16,
    channel_idx: u16,
}

impl View for PositionTrackingSource {
    type V = TrackerModel;

    closed spec fn view(&self) -> TrackerModel {
        TrackerModel {
            samples_played: self.samples_played as nat,
            sample_rate: self.sample_rate as nat,
            channels: self.channels as nat,
            channel_idx: self.channel_idx as nat,
        }
    }
}

impl PositionTrackingSource {
    /// The stream has at least one channel and a sample rate, and the channel
    /// index points into a frame.
    pub open spec fn wf(&self) -> bool {
        &&& self@.sample_rate > 0
        &&& self@.channels > 0
        &&& self@.channel_idx < self@.channels
    }

    /// The counters fit their machine types.
    pub proof fn lemma_bounds(&self)
        ensures
            self@.samples_played <= u64::MAX,
            self@.sample_rate <= u32::MAX,
            self@.channels <= u16::MAX,
            self@.channel_idx <= u16::MAX,
    {
    }

    /// Bookkeeping for a fresh stream of the given format.
    pub fn new(sample_rate: u32, channels: u16) -> (tracker: Self)
        ensures
            tracker@ == (TrackerModel {
                samples_played: 0,
                sample_rate: sample_rate as nat,
                channels: channels as nat,
                channel_idx: 0,
            }),
            tracker.wf() <==> sample_rate > 0 && channels > 0,
    {
        PositionTrackingSource { samples_played: 0, sample_rate, channels, channel_idx: 0 }
    }

    /// Counts one sample that was pulled from the stream and says what is to
    /// be done with it.
    pub fn next(&mut self) -> (step: SampleStep)
        requires
            old(self).wf(),
            old(self)@.samples_played < u64::MAX,
        ensures
            final(self).wf(),
            final(self)@ == (TrackerModel {
                samples_played: old(self)@.samples_played + 1,
                channel_idx: (old(self)@.channel_idx + 1) % old(self)@.channels,
                ..old(self)@
            }),
            step.tap == (old(self)@.channel_idx == 0),
            step.elapsed_secs == (if final(self)@.samples_played % final(self)@.samples_per_second()
                == 0 {
                Some((final(self)@.samples_played / final(self)@.samples_per_second()) as u64)
            } else {
                None
            }),
    {
        self.samples_played = self.samples_played + 1;
        let tap = self.channel_idx == 0;
        self.channel_idx = ((self.channel_idx as u32 + 1) % (self.channels as u32)) as u16;
        assert(0 < self.sample_rate as int * self.channels as int <= 0xffff_ffff * 0xffff)
            by (nonlinear_arith)
            requires
                0 < self.sample_rate <= 0xffff_ffff,
                0 < self.channels <= 0xffff,
        ;
        let samples_per_second: u64 = self.sample_rate as u64 * self.channels as u64;
        let elapsed_secs = if self.samples_played % samples_per_second == 0 {
            Some(self.samples_played / samples_per_second)
        } else {
            None
        };
        SampleStep { tap, elapsed_secs }
    }
}

} // verus!
