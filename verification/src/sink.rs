//! The playback control facade: owns a streaming queue and its connection to
//! the render path, and exposes pause, resume, stop, volume, speed, seek and
//! elapsed-time control.

use crate::queue::after_consuming;
use crate::queue::pulled_padded;
use crate::queue::SourcesQueue;
use crate::source::Source;
use crate::AMP_MAX;
use vstd::prelude::*;

verus! {

/// The seek target cannot be honoured because the source now draining does
/// not support repositioning, or nothing is draining.  Non-fatal: the caller
/// may treat the request as a no-op.
#[derive(Clone, Copy, PartialEq, Eq, Structural, Debug)]
pub struct SeekError;

/// A sample after the linear volume gain `vol` (integer percent) is applied,
/// rounding the magnitude down.
pub open spec fn scale_sample(s: int, vol: int) -> int {
    if s >= 0 {
        (s * vol) / 100
    } else {
        -(((-s) * vol) / 100)
    }
}

/// The elapsed counter after `dt` wall-clock time-units at `speed` tenths,
/// saturating at the counter's width.
pub open spec fn advanced_elapsed(elapsed: int, speed: int, dt: int) -> int {
    let t = elapsed + (dt * speed) / 10;
    if t > u64::MAX as int {
        u64::MAX as int
    } else {
        t
    }
}

/// Apply the linear volume gain to one sample.
fn apply_gain(s: i64, vol: u16) -> (r: i64)
    requires
        -(AMP_MAX as int) <= s <= AMP_MAX as int,
        vol <= 100,
    ensures
        r as int == scale_sample(s as int, vol as int),
        -(AMP_MAX as int) <= r <= AMP_MAX as int,
{
    if s >= 0 {
        proof {
            assert((s as int) * (vol as int) <= (AMP_MAX as int) * 100) by (nonlinear_arith)
                requires
                    0 <= s <= AMP_MAX as int,
                    0 <= vol <= 100,
            ;
        }
        let p: u64 = (s as u64) * (vol as u64);
        proof {
            assert(p as int / 100 <= AMP_MAX);
        }
        (p / 100) as i64
    } else {
        let m: u64 = (-s) as u64;
        proof {
            assert((m as int) * (vol as int) <= (AMP_MAX as int) * 100) by (nonlinear_arith)
                requires
                    0 <= m <= AMP_MAX as int,
                    0 <= vol <= 100,
            ;
        }
        let p: u64 = m * (vol as u64);
        proof {
            assert(p as int / 100 <= AMP_MAX);
        }
        -((p / 100) as i64)
    }
}

/// Binds one streaming queue to the render path, with the playback controls
/// the player exposes.  Volume and speed are process-lifetime settings of the
/// sink, not of a track.
pub struct Sink {
    /// The pending sources.
    pub queue: SourcesQueue,
    /// While paused the render path emits silence and the elapsed counter is
    /// frozen; the queue is untouched.
    pub paused: bool,
    /// Linear gain in integer percent, 0 to 100.
    pub volume: u16,
    /// Playback rate in tenths of the nominal rate; 10 is nominal.
    pub speed: u32,
    /// Cumulative played time-units since the current source started.
    pub elapsed: u64,
    /// Whether gapless trimming is requested from the decoder.
    pub gapless: bool,
}

impl Sink {
    /// Well-formedness: the gain is a percentage, the rate is positive, and
    /// the queue is well formed.
    pub open spec fn wf(self) -> bool {
        &&& self.volume <= 100
        &&& self.speed >= 1
        &&& self.queue.wf()
    }

    /// A fresh sink: empty queue, playing (not paused), full volume, nominal
    /// speed, elapsed zero.
    pub fn new(gapless: bool) -> (r: Sink)
        ensures
            r.wf(),
            r.queue.remaining() == Seq::<i64>::empty(),
            !r.paused,
            r.volume == 100,
            r.speed == 10,
            r.elapsed == 0,
            r.gapless == gapless,
    {
        Sink {
            queue: SourcesQueue::new(),
            paused: false,
            volume: 100,
            speed: 10,
            elapsed: 0,
            gapless,
        }
    }

    /// Enqueue a source behind whatever is pending; everything else about
    /// the sink is untouched.
    pub fn append(&mut self, source: Source)
        requires
            old(self).wf(),
            source.wf(),
        ensures
            final(self).wf(),
            final(self).queue.remaining() == old(self).queue.remaining() + source.samples@,
            final(self).paused == old(self).paused,
            final(self).volume == old(self).volume,
            final(self).speed == old(self).speed,
            final(self).elapsed == old(self).elapsed,
            final(self).gapless == old(self).gapless,
    {
        self.queue.append(source);
    }

    /// Render `n` frames for the output device.  While paused the device
    /// keeps running but receives silence and the queue is untouched;
    /// otherwise the queued frames are handed out with the volume gain
    /// applied, padded with silence only once the queue is drained.
    pub fn pull(&mut self, n: usize) -> (r: Vec<i64>)
        requires
            old(self).wf(),
        ensures
            final(self).wf(),
            r@.len() == n,
            final(self).paused == old(self).paused,
            final(self).volume == old(self).volume,
            final(self).speed == old(self).speed,
            final(self).elapsed == old(self).elapsed,
            final(self).gapless == old(self).gapless,
            old(self).paused ==> {
                &&& final(self).queue == old(self).queue
                &&& forall|i: int| 0 <= i < n ==> r@[i] == 0i64
            },
            !old(self).paused ==> {
                &&& final(self).queue.remaining() == after_consuming(
                    old(self).queue.remaining(),
                    n as nat,
                )
                &&& forall|i: int|
                    0 <= i < n ==> #[trigger] r@[i] as int == scale_sample(
                        pulled_padded(old(self).queue.remaining(), n as nat)[i] as int,
                        old(self).volume as int,
                    )
            },
    {
        if self.paused {
            let mut out: Vec<i64> = Vec::new();
            let mut i: usize = 0;
            while i < n
                invariant
                    i <= n,
                    out@.len() == i,
                    forall|j: int| 0 <= j < i ==> out@[j] == 0i64,
                decreases n - i,
            {
                out.push(0);
                i += 1;
            }
            out
        } else {
            let raw: Vec<i64> = self.queue.pull(n);
            proof {
                crate::queue::lemma_remaining_bounded(old(self).queue);
                crate::queue::lemma_pulled_padded_bounded(old(self).queue.remaining(), n as nat);
            }
            let mut out: Vec<i64> = Vec::new();
            let mut i: usize = 0;
            while i < n
                invariant
                    self.volume <= 100,
                    raw@.len() == n,
                    raw@ == pulled_padded(old(self).queue.remaining(), n as nat),
                    forall|j: int|
                        0 <= j < n ==> -(AMP_MAX as int) <= #[trigger] raw@[j] <= AMP_MAX as int,
                    i <= n,
                    out@.len() == i,
                    forall|j: int|
                        0 <= j < i ==> #[trigger] out@[j] as int == scale_sample(
                            raw@[j] as int,
                            self.volume as int,
                        ),
                decreases n - i,
            {
                let v: i64 = apply_gain(raw[i], self.volume);
                out.push(v);
                i += 1;
            }
            out
        }
    }

    /// Advance playback by `dt` wall-clock time-units: the elapsed counter
    /// grows by the speed-scaled amount while playing and is frozen while
    /// paused.
    pub fn advance(&mut self, dt: u64)
        requires
            old(self).wf(),
        ensures
            final(self).wf(),
            *final(self) == (Sink { elapsed: final(self).elapsed, ..*old(self) }),
            old(self).paused ==> final(self).elapsed == old(self).elapsed,
            !old(self).paused ==> final(self).elapsed as int == advanced_elapsed(
                old(self).elapsed as int,
                old(self).speed as int,
                dt as int,
            ),
    {
        if !self.paused {
            proof {
                assert((dt as int) * (self.speed as int) <= (u64::MAX as int) * (
                u32::MAX as int)) by (nonlinear_arith)
                    requires
                        0 <= dt <= u64::MAX as int,
                        0 <= self.speed <= u32::MAX as int,
                ;
            }
            let scaled: u128 = (dt as u128) * (self.speed as u128) / 10;
            let total: u128 = (self.elapsed as u128) + scaled;
            if total > u64::MAX as u128 {
                self.elapsed = u64::MAX;
            } else {
                self.elapsed = total as u64;
            }
        }
    }

    /// Reposition the draining source at `target`.  Succeeds exactly when a
    /// source is draining and it supports repositioning; otherwise nothing
    /// changes and the caller may ignore the failure.
    pub fn seek(&mut self, target: u64) -> (r: Result<(), SeekError>)
        requires
            old(self).wf(),
        ensures
            final(self).wf(),
            r is Ok <==> old(self).queue.sources@.len() > 0
                && old(self).queue.sources@[0].seekable,
            r is Ok ==> *final(self) == (Sink { elapsed: target, ..*old(self) }),
            r is Err ==> *final(self) == *old(self),
    {
        if self.queue.head_seekable() {
            self.elapsed = target;
            Ok(())
        } else {
            Err(SeekError)
        }
    }

    /// Discard the queue, immediately halting audible output; the elapsed
    /// counter restarts.  Volume, speed and the pause flag keep their values:
    /// they are settings of the sink, not of a track.
    pub fn stop(&mut self)
        requires
            old(self).wf(),
        ensures
            final(self).wf(),
            final(self).queue.remaining() == Seq::<i64>::empty(),
            final(self).elapsed == 0,
            final(self).paused == old(self).paused,
            final(self).volume == old(self).volume,
            final(self).speed == old(self).speed,
            final(self).gapless == old(self).gapless,
    {
        self.queue.clear();
        self.elapsed = 0;
    }

    /// Stop advancing; the device keeps running and emits silence.
    pub fn pause(&mut self)
        requires
            old(self).wf(),
        ensures
            final(self).wf(),
            *final(self) == (Sink { paused: true, ..*old(self) }),
    {
        self.paused = true;
    }

    /// Resume advancing after a pause.
    pub fn play(&mut self)
        requires
            old(self).wf(),
        ensures
            final(self).wf(),
            *final(self) == (Sink { paused: false, ..*old(self) }),
    {
        self.paused = false;
    }

    /// Whether the sink is paused.
    pub fn is_paused(&self) -> (r: bool)
        ensures
            r == self.paused,
    {
        self.paused
    }

    /// Cumulative played time-units since the current source started.
    pub fn elapsed(&self) -> (r: u64)
        ensures
            r == self.elapsed,
    {
        self.elapsed
    }

    /// Set the linear gain, in integer percent.
    pub fn set_volume(&mut self, volume: u16)
        requires
            old(self).wf(),
            volume <= 100,
        ensures
            final(self).wf(),
            *final(self) == (Sink { volume, ..*old(self) }),
    {
        self.volume = volume;
    }

    /// Set the playback rate, in tenths of the nominal rate.
    pub fn set_speed(&mut self, speed: u32)
        requires
            old(self).wf(),
            speed >= 1,
        ensures
            final(self).wf(),
            *final(self) == (Sink { speed, ..*old(self) }),
    {
        self.speed = speed;
    }
}

} // verus!
