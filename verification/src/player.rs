//! The player orchestrator: current/next track handoff for gapless playback,
//! total-duration tracking, the seek-step, volume-step and speed-step
//! policies, and progress reporting.

use crate::sink::SeekError;
use crate::sink::Sink;
use crate::source::Source;
use vstd::prelude::*;

verus! {

/// No usable output device exists or negotiation with it failed.  Fatal to
/// the engine instance: surfaced by the embedding at construction, never
/// retried silently.
#[derive(Clone, Copy, PartialEq, Eq, Structural, Debug)]
pub struct DeviceError;

/// Step of the volume-up and volume-down controls, in percentage points.
pub const VOLUME_STEP: u16 = 5;

/// Step of the seek-forward and seek-backward controls, in time-units.
pub const SEEK_STEP: u64 = 5;

/// Lower bound of the stepped playback speed, in tenths.
pub const SPEED_MIN: u32 = 1;

/// Upper bound of the stepped playback speed, in tenths.
pub const SPEED_MAX: u32 = 30;

/// Fallback total duration reported while the real one is unknown.
pub const UNKNOWN_DURATION: u64 = 99;

/// What the engine is configured with at construction.
pub struct Config {
    /// Initial volume, integer percent.
    pub volume: u16,
    /// Initial playback speed, tenths of the nominal rate.
    pub speed: u32,
    /// Whether gapless decoding is requested.
    pub gapless: bool,
}

/// A playable resource after the decode edge: its identity, its precomputed
/// total duration when one is known, and the decoded source.  `source` is
/// `None` when decoding failed; such a track is unplayable, the failure is
/// per-track, and the engine simply skips it.
pub struct Track {
    /// Resource identity; two tracks are the same logical stream exactly
    /// when their identities are equal.
    pub id: u64,
    /// Total duration in time-units, when the decoder could estimate one.
    pub duration: Option<u64>,
    /// The decoded samples, or `None` after a decode failure.
    pub source: Option<Source>,
}

impl Track {
    /// A track is well formed when its decoded source, if any, is.
    pub open spec fn wf(self) -> bool {
        match self.source {
            Some(s) => s.wf(),
            None => true,
        }
    }
}

/// The stored volume after the setter clamps its argument to the percent
/// range.
pub open spec fn spec_clamp_volume(v: int) -> int {
    if v > 100 {
        100
    } else if v < 0 {
        0
    } else {
        v
    }
}

/// The stored speed after one upward step: one tenth more, capped at the
/// upper bound.
pub open spec fn spec_speed_up(s: int) -> int {
    if s + 1 > SPEED_MAX as int {
        SPEED_MAX as int
    } else {
        s + 1
    }
}

/// The stored speed after one downward step: one tenth less, floored at the
/// lower bound.
pub open spec fn spec_speed_down(s: int) -> int {
    if s - 1 < SPEED_MIN as int {
        SPEED_MIN as int
    } else {
        s - 1
    }
}

/// The forward-seek ceiling: a step never targets past `duration` less one
/// step, and never below zero.
pub open spec fn bound_fw(d: int) -> int {
    if d >= SEEK_STEP as int {
        d - SEEK_STEP as int
    } else {
        0
    }
}

/// Where one forward step from `elapsed` lands with total duration `d`.
pub open spec fn seek_fw_elapsed(elapsed: int, d: int) -> int {
    if elapsed + SEEK_STEP as int <= bound_fw(d) {
        elapsed + SEEK_STEP as int
    } else {
        bound_fw(d)
    }
}

/// Where one backward step from `elapsed` lands: one step earlier, never
/// below zero.
pub open spec fn seek_bw_elapsed(elapsed: int) -> int {
    if elapsed >= SEEK_STEP as int {
        elapsed - SEEK_STEP as int
    } else {
        0
    }
}

/// The playback control core: one sink, the remembered current and next
/// track identities for gapless handoff, and the process-lifetime volume and
/// speed settings.
pub struct Player {
    /// The sink binding the queue to the render path.
    pub sink: Sink,
    /// Total duration of the loaded track, when known.
    pub total_duration: Option<u64>,
    /// Stored volume, integer percent.
    pub volume: u16,
    /// Stored playback speed, tenths of the nominal rate.
    pub speed: u32,
    /// Whether gapless decoding is requested from the decode edge.
    pub gapless: bool,
    /// Identity of the track playing now, if any.
    pub current_item: Option<u64>,
    /// Remembered identity of the track primed to follow, if any.
    pub next_item: Option<u64>,
}

impl Player {
    /// The volume is a percentage, the speed positive, the sink well formed
    /// and carrying the same gain as the player stores.
    pub open spec fn wf(self) -> bool {
        &&& self.volume <= 100
        &&& self.speed >= 1
        &&& self.sink.wf()
        &&& self.sink.volume == self.volume
    }

    /// Whether a seek can be honoured now: a source is draining and supports
    /// repositioning.
    pub open spec fn can_seek(self) -> bool {
        self.sink.queue.sources@.len() > 0 && self.sink.queue.sources@[0].seekable
    }

    /// The progress percentage: elapsed over total, clamped into the percent
    /// range; zero while no duration is known, full once the duration is
    /// reported as zero or passed.
    pub open spec fn spec_percent(self) -> int {
        match self.total_duration {
            None => 0,
            Some(d) => if d == 0 {
                100
            } else if self.sink.elapsed as int * 100 / d as int > 100 {
                100
            } else {
                self.sink.elapsed as int * 100 / d as int
            },
        }
    }

    /// The whole player state after one forward seek step.
    pub open spec fn spec_after_seek_fw(self) -> Player {
        match self.total_duration {
            None => self,
            Some(d) => if self.can_seek() {
                Player {
                    sink: Sink {
                        elapsed: seek_fw_elapsed(self.sink.elapsed as int, d as int) as u64,
                        ..self.sink
                    },
                    ..self
                }
            } else {
                self
            },
        }
    }

    /// The whole player state after one backward seek step.
    pub open spec fn spec_after_seek_bw(self) -> Player {
        if self.can_seek() {
            Player {
                sink: Sink { elapsed: seek_bw_elapsed(self.sink.elapsed as int) as u64, ..self.sink },
                ..self
            }
        } else {
            self
        }
    }

    /// Build the engine from its configuration: empty queue, nothing
    /// remembered, the configured volume and speed applied to the sink.
    pub fn new(config: &Config) -> (r: Player)
        requires
            config.volume <= 100,
            config.speed >= 1,
        ensures
            r.wf(),
            r.volume == config.volume,
            r.speed == config.speed,
            r.gapless == config.gapless,
            r.total_duration is None,
            r.current_item is None,
            r.next_item is None,
            r.sink.queue.remaining() == Seq::<i64>::empty(),
            !r.sink.paused,
            r.sink.elapsed == 0,
            r.sink.speed == config.speed,
            r.sink.gapless == config.gapless,
    {
        let mut sink: Sink = Sink::new(config.gapless);
        sink.set_volume(config.volume);
        sink.set_speed(config.speed);
        Player {
            sink,
            total_duration: None,
            volume: config.volume,
            speed: config.speed,
            gapless: config.gapless,
            current_item: None,
            next_item: None,
        }
    }

    /// Load a track, gaplessly when it is the continuation the player was
    /// told to expect.
    ///
    /// When `current` is not the remembered next track this is a disruptive
    /// switch: playback stops (the queue is discarded, elapsed restarts),
    /// then the decoded source is queued and its duration recorded; a track
    /// whose decode failed leaves the queue empty and the engine ready for
    /// the next request.  When `current` is the remembered next track, the
    /// already-queued samples keep draining untouched — the gapless hop — and
    /// the new `next`, if decodable, is appended behind them.  Either way the
    /// player remembers `next` for the following hop.
    pub fn play(&mut self, current: Track, next: Option<Track>)
        requires
            old(self).wf(),
            current.wf(),
            (next matches Some(t) ==> t.wf()),
        ensures
            final(self).wf(),
            final(self).current_item == Some(current.id),
            final(self).next_item == (match next {
                Some(t) => Some(t.id),
                None => None::<u64>,
            }),
            final(self).volume == old(self).volume,
            final(self).speed == old(self).speed,
            final(self).gapless == old(self).gapless,
            old(self).next_item != Some(current.id) ==> {
                &&& final(self).sink.elapsed == 0
                &&& !final(self).sink.paused
                &&& match current.source {
                    Some(src) => {
                        &&& final(self).sink.queue.remaining() == src.samples@
                        &&& final(self).total_duration == current.duration
                        &&& final(self).sink.speed == old(self).speed
                    },
                    None => {
                        &&& final(self).sink.queue.remaining() == Seq::<i64>::empty()
                        &&& final(self).total_duration == old(self).total_duration
                    },
                }
            },
            old(self).next_item == Some(current.id) ==> {
                &&& final(self).sink.elapsed == old(self).sink.elapsed
                &&& final(self).sink.paused == old(self).sink.paused
                &&& final(self).total_duration == old(self).total_duration
                &&& final(self).sink.queue.remaining() == (match next {
                    Some(t) => match t.source {
                        Some(src) => old(self).sink.queue.remaining() + src.samples@,
                        None => old(self).sink.queue.remaining(),
                    },
                    None => old(self).sink.queue.remaining(),
                })
            },
    {
        let hop: bool = match self.next_item {
            Some(id) => id == current.id,
            None => false,
        };
        self.current_item = Some(current.id);
        if !hop {
            self.stop();
            match current.source {
                Some(src) => {
                    self.total_duration = current.duration;
                    let ghost samples: Seq<i64> = src.samples@;
                    self.sink.append(src);
                    self.sink.set_speed(self.speed);
                    proof {
                        assert(self.sink.queue.remaining() =~= samples);
                    }
                },
                None => {},
            }
            match next {
                Some(t) => {
                    self.next_item = Some(t.id);
                },
                None => {
                    self.next_item = None;
                },
            }
        } else {
            match next {
                Some(t) => {
                    self.next_item = Some(t.id);
                    match t.source {
                        Some(src) => {
                            self.sink.append(src);
                        },
                        None => {},
                    }
                },
                None => {
                    self.next_item = None;
                },
            }
        }
    }

    /// Load and play a track by handle, remembering the next one; the named
    /// entry point of the transport surface, with `play`'s guarantees.
    pub fn add_and_play(&mut self, current_track: Track, next_track: Option<Track>)
        requires
            old(self).wf(),
            current_track.wf(),
            (next_track matches Some(t) ==> t.wf()),
        ensures
            final(self).wf(),
            final(self).current_item == Some(current_track.id),
            final(self).next_item == (match next_track {
                Some(t) => Some(t.id),
                None => None::<u64>,
            }),
            final(self).volume == old(self).volume,
            final(self).speed == old(self).speed,
            final(self).gapless == old(self).gapless,
            old(self).next_item != Some(current_track.id) ==> {
                &&& final(self).sink.elapsed == 0
                &&& !final(self).sink.paused
                &&& match current_track.source {
                    Some(src) => {
                        &&& final(self).sink.queue.remaining() == src.samples@
                        &&& final(self).total_duration == current_track.duration
                    },
                    None => {
                        &&& final(self).sink.queue.remaining() == Seq::<i64>::empty()
                        &&& final(self).total_duration == old(self).total_duration
                    },
                }
            },
            old(self).next_item == Some(current_track.id) ==> {
                &&& final(self).sink.elapsed == old(self).sink.elapsed
                &&& final(self).total_duration == old(self).total_duration
                &&& final(self).sink.queue.remaining() == (match next_track {
                    Some(t) => match t.source {
                        Some(src) => old(self).sink.queue.remaining() + src.samples@,
                        None => old(self).sink.queue.remaining(),
                    },
                    None => old(self).sink.queue.remaining(),
                })
            },
    {
        self.play(current_track, next_track);
    }

    /// Discard playback: a fresh sink with an empty queue, elapsed restarted,
    /// the stored volume re-applied.  The remembered items, duration and
    /// settings stay.
    pub fn stop(&mut self)
        requires
            old(self).wf(),
        ensures
            final(self).wf(),
            final(self).sink.queue.remaining() == Seq::<i64>::empty(),
            final(self).sink.elapsed == 0,
            !final(self).sink.paused,
            final(self).sink.volume == old(self).volume,
            final(self).sink.gapless == old(self).gapless,
            final(self).volume == old(self).volume,
            final(self).speed == old(self).speed,
            final(self).gapless == old(self).gapless,
            final(self).total_duration == old(self).total_duration,
            final(self).current_item == old(self).current_item,
            final(self).next_item == old(self).next_item,
    {
        self.sink = Sink::new(self.gapless);
        self.sink.set_volume(self.volume);
    }

    /// Cumulative played time-units of the current track.
    pub fn elapsed(&self) -> (r: u64)
        ensures
            r == self.sink.elapsed,
    {
        self.sink.elapsed()
    }

    /// The known total duration of the loaded track.
    pub fn duration(&self) -> (r: Option<u64>)
        ensures
            r == self.total_duration,
    {
        self.total_duration
    }

    /// Reposition the current track at `time`; fails, changing nothing, when
    /// nothing seekable is draining.
    pub fn seek_to(&mut self, time: u64) -> (r: Result<(), SeekError>)
        requires
            old(self).wf(),
        ensures
            final(self).wf(),
            r is Ok <==> old(self).can_seek(),
            r is Ok ==> *final(self) == (Player {
                sink: Sink { elapsed: time, ..old(self).sink },
                ..*old(self)
            }),
            r is Err ==> *final(self) == *old(self),
    {
        self.sink.seek(time)
    }

    /// Step the playback position forward.  The step is clamped so the
    /// target never passes `duration` less one step; with no known duration,
    /// or nothing seekable draining, nothing moves.
    pub fn seek_fw(&mut self)
        requires
            old(self).wf(),
        ensures
            final(self).wf(),
            *final(self) == old(self).spec_after_seek_fw(),
    {
        match self.total_duration {
            None => {},
            Some(d) => {
                let bound: u64 = if d >= SEEK_STEP {
                    d - SEEK_STEP
                } else {
                    0
                };
                let e: u64 = self.sink.elapsed();
                let target: u64 = if e <= bound && bound - e >= SEEK_STEP {
                    e + SEEK_STEP
                } else {
                    bound
                };
                let _ = self.seek_to(target);
            },
        }
    }

    /// Step the playback position backward, never below zero; with nothing
    /// seekable draining, nothing moves.
    pub fn seek_bw(&mut self)
        requires
            old(self).wf(),
        ensures
            final(self).wf(),
            *final(self) == old(self).spec_after_seek_bw(),
    {
        let e: u64 = self.sink.elapsed();
        let target: u64 = if e >= SEEK_STEP {
            e - SEEK_STEP
        } else {
            0
        };
        let _ = self.seek_to(target);
    }

    /// Step the position forward on a positive offset, backward otherwise;
    /// the transport surface's seek entry point.  Always succeeds: an
    /// unseekable target leaves the position unchanged.
    pub fn seek(&mut self, secs: i64) -> (r: Result<(), SeekError>)
        requires
            old(self).wf(),
        ensures
            final(self).wf(),
            r is Ok,
            secs > 0 ==> *final(self) == old(self).spec_after_seek_fw(),
            secs <= 0 ==> *final(self) == old(self).spec_after_seek_bw(),
    {
        if secs > 0 {
            self.seek_fw();
            return Ok(());
        }
        self.seek_bw();
        Ok(())
    }

    /// The progress percentage, always within the percent range.
    pub fn percentage(&self) -> (r: u64)
        ensures
            r as int == self.spec_percent(),
            r <= 100,
    {
        match self.total_duration {
            None => 0,
            Some(d) => {
                if d == 0 {
                    100
                } else {
                    let p: u128 = (self.sink.elapsed() as u128) * 100 / (d as u128);
                    if p > 100 {
                        100
                    } else {
                        p as u64
                    }
                }
            },
        }
    }

    /// The progress snapshot `(percent, elapsed, total)`: derived on demand,
    /// with the percentage clamped into range and a fixed fallback total
    /// substituted while the real one is unknown.
    pub fn get_progress(&self) -> (r: (u64, u64, u64))
        ensures
            r.0 as int == self.spec_percent(),
            0 <= r.0 <= 100,
            r.1 == self.sink.elapsed,
            r.2 == (match self.total_duration {
                Some(d) => d,
                None => UNKNOWN_DURATION,
            }),
    {
        let percent: u64 = self.percentage();
        let position: u64 = self.elapsed();
        let duration: u64 = match self.total_duration {
            Some(d) => d,
            None => UNKNOWN_DURATION,
        };
        (percent, position, duration)
    }

    /// The stored volume.
    pub fn volume(&self) -> (r: i32)
        ensures
            r == self.volume as i32,
    {
        self.volume as i32
    }

    /// Store a volume, clamped into the percent range, and apply it as the
    /// sink's gain.
    pub fn set_volume(&mut self, volume: i32)
        requires
            old(self).wf(),
        ensures
            final(self).wf(),
            final(self).volume as int == spec_clamp_volume(volume as int),
            final(self).sink == (Sink { volume: final(self).volume, ..old(self).sink }),
            final(self).speed == old(self).speed,
            final(self).gapless == old(self).gapless,
            final(self).total_duration == old(self).total_duration,
            final(self).current_item == old(self).current_item,
            final(self).next_item == old(self).next_item,
    {
        let v: u16 = if volume > 100 {
            100
        } else if volume < 0 {
            0
        } else {
            volume as u16
        };
        self.volume = v;
        self.sink.set_volume(v);
    }

    /// Step the volume up by the fixed increment, clamped at full.
    pub fn volume_up(&mut self)
        requires
            old(self).wf(),
        ensures
            final(self).wf(),
            final(self).volume as int == spec_clamp_volume(old(self).volume as int
                + VOLUME_STEP as int),
            final(self).sink == (Sink { volume: final(self).volume, ..old(self).sink }),
            final(self).speed == old(self).speed,
    {
        let v: i32 = self.volume as i32 + VOLUME_STEP as i32;
        self.set_volume(v);
    }

    /// Step the volume down by the fixed increment, clamped at silent.
    pub fn volume_down(&mut self)
        requires
            old(self).wf(),
        ensures
            final(self).wf(),
            final(self).volume as int == spec_clamp_volume(old(self).volume as int
                - VOLUME_STEP as int),
            final(self).sink == (Sink { volume: final(self).volume, ..old(self).sink }),
            final(self).speed == old(self).speed,
    {
        let v: i32 = self.volume as i32 - VOLUME_STEP as i32;
        self.set_volume(v);
    }

    /// Stop advancing playback; the render path emits silence meanwhile.
    pub fn pause(&mut self)
        requires
            old(self).wf(),
        ensures
            final(self).wf(),
            *final(self) == (Player {
                sink: Sink { paused: true, ..old(self).sink },
                ..*old(self)
            }),
    {
        self.sink.pause();
    }

    /// Resume playback after a pause.
    pub fn resume(&mut self)
        requires
            old(self).wf(),
        ensures
            final(self).wf(),
            *final(self) == (Player {
                sink: Sink { paused: false, ..old(self).sink },
                ..*old(self)
            }),
    {
        self.sink.play();
    }

    /// Whether playback is paused.
    pub fn is_paused(&self) -> (r: bool)
        ensures
            r == self.sink.paused,
    {
        self.sink.is_paused()
    }

    /// Store a playback speed — the setter itself does not clamp — and apply
    /// it to the sink.
    pub fn set_speed(&mut self, speed: u32)
        requires
            old(self).wf(),
            speed >= 1,
        ensures
            final(self).wf(),
            final(self).speed == speed,
            final(self).sink == (Sink { speed, ..old(self).sink }),
            final(self).volume == old(self).volume,
            final(self).gapless == old(self).gapless,
            final(self).total_duration == old(self).total_duration,
            final(self).current_item == old(self).current_item,
            final(self).next_item == old(self).next_item,
    {
        self.speed = speed;
        self.sink.set_speed(speed);
    }

    /// Step the speed up by one tenth, capped at the upper bound.
    pub fn speed_up(&mut self)
        requires
            old(self).wf(),
        ensures
            final(self).wf(),
            final(self).speed as int == spec_speed_up(old(self).speed as int),
            final(self).sink == (Sink { speed: final(self).speed, ..old(self).sink }),
            final(self).volume == old(self).volume,
    {
        let s: u32 = if self.speed >= SPEED_MAX {
            SPEED_MAX
        } else {
            self.speed + 1
        };
        self.set_speed(s);
    }

    /// Step the speed down by one tenth, floored at the lower bound.
    pub fn speed_down(&mut self)
        requires
            old(self).wf(),
        ensures
            final(self).wf(),
            final(self).speed as int == spec_speed_down(old(self).speed as int),
            final(self).sink == (Sink { speed: final(self).speed, ..old(self).sink }),
            final(self).volume == old(self).volume,
    {
        let s: u32 = if self.speed <= SPEED_MIN {
            SPEED_MIN
        } else {
            self.speed - 1
        };
        self.set_speed(s);
    }

    /// The stored playback speed, in tenths of the nominal rate.
    pub fn speed(&self) -> (r: u32)
        ensures
            r == self.speed,
    {
        self.speed
    }

    /// Let playback progress by `dt` wall-clock time-units: the render
    /// path's cadence reaching the elapsed counter.  Frozen while paused.
    pub fn tick(&mut self, dt: u64)
        requires
            old(self).wf(),
        ensures
            final(self).wf(),
            *final(self) == (Player {
                sink: Sink { elapsed: final(self).sink.elapsed, ..old(self).sink },
                ..*old(self)
            }),
            old(self).sink.paused ==> final(self).sink.elapsed == old(self).sink.elapsed,
            !old(self).sink.paused ==> final(self).sink.elapsed as int
                == crate::sink::advanced_elapsed(
                old(self).sink.elapsed as int,
                old(self).sink.speed as int,
                dt as int,
            ),
    {
        self.sink.advance(dt)
    }
}

/// Volume law: whatever is handed to the setter, the stored volume — which
/// the getter returns — is the argument clamped into the percent range.
pub proof fn lemma_volume_clamped(v: int)
    ensures
        0 <= spec_clamp_volume(v) <= 100,
        v < 0 ==> spec_clamp_volume(v) == 0,
        v > 100 ==> spec_clamp_volume(v) == 100,
        0 <= v <= 100 ==> spec_clamp_volume(v) == v,
{
}

/// Speed law: the setter stores its argument unclamped, while one step in
/// either direction from a value already within the stepped range lands
/// within that range again.
pub proof fn lemma_speed_steps_stay_bounded(s: int)
    requires
        SPEED_MIN as int <= s <= SPEED_MAX as int,
    ensures
        SPEED_MIN as int <= spec_speed_up(s) <= SPEED_MAX as int,
        SPEED_MIN as int <= spec_speed_down(s) <= SPEED_MAX as int,
{
}

/// Forward-seek law: a forward step never lands past `duration` less one
/// step, and from that bound further steps stay exactly there.
pub proof fn lemma_seek_forward_bounded(elapsed: int, d: int)
    requires
        0 <= elapsed,
        0 <= d,
    ensures
        seek_fw_elapsed(elapsed, d) <= bound_fw(d),
        0 <= seek_fw_elapsed(elapsed, d),
        seek_fw_elapsed(seek_fw_elapsed(elapsed, d), d) <= bound_fw(d),
        seek_fw_elapsed(bound_fw(d), d) == bound_fw(d),
{
}

/// Backward-seek law: a backward step never drives the position below zero.
pub proof fn lemma_seek_backward_nonnegative(elapsed: int)
    requires
        0 <= elapsed,
    ensures
        0 <= seek_bw_elapsed(elapsed) <= elapsed,
{
}

/// Progress law: the reported percentage is within the percent range for
/// every player state, even when the duration is missing or zero.
pub proof fn lemma_percent_in_range(p: Player)
    ensures
        0 <= p.spec_percent() <= 100,
{
    match p.total_duration {
        None => {},
        Some(d) => {
            if d != 0 {
                assert(p.sink.elapsed as int * 100 >= 0) by (nonlinear_arith)
                    requires
                        p.sink.elapsed as int >= 0,
                ;
                assert(p.sink.elapsed as int * 100 / d as int >= 0);
            }
        },
    }
}

} // verus!
