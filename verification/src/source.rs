//! The sample source abstraction: a finite producer of audio samples with a
//! fixed sample rate and channel layout for its lifetime.

use crate::samples_bounded;
use crate::AMP_MAX;
use vstd::prelude::*;

verus! {

/// The byte stream handed to the decoder was unrecognized or corrupt, or
/// asked for a format the engine does not support.  Per-track and non-fatal:
/// the caller treats the track as unplayable and advances.
#[derive(Clone, Copy, PartialEq, Eq, Structural, Debug)]
pub struct DecodeError;

/// A producer of audio samples, fixed at one sample rate and channel count.
/// Decoded tracks, silence padding and the empty source are all values of
/// this one shape.  A source is not restartable in place: it is consumed
/// destructively by the queue that owns it.
pub struct Source {
    /// The raw samples, interleaved by channel, in the engine's internal
    /// amplitude range.
    pub samples: Vec<i64>,
    /// Samples per channel per time-unit; at least one.
    pub sample_rate: u32,
    /// Interleaved channels; the engine works in mono or stereo.
    pub channels: u16,
    /// Whether the underlying resource supports repositioning.
    pub seekable: bool,
}

impl Source {
    /// A source is well formed when its rate and channel layout are ones the
    /// engine supports and every sample is within the amplitude range.
    pub open spec fn wf(self) -> bool {
        &&& self.sample_rate >= 1
        &&& 1 <= self.channels <= 2
        &&& samples_bounded(self.samples@)
    }

    /// Build a source from decoded samples, validating what the conversion
    /// layer relies on.  Fails exactly when the rate is zero, the channel
    /// count is unsupported, or a sample is outside the amplitude range —
    /// such data marks the decoded stream as corrupt.
    pub fn new(samples: Vec<i64>, sample_rate: u32, channels: u16, seekable: bool) -> (r: Result<
        Source,
        DecodeError,
    >)
        ensures
            r is Ok <==> sample_rate >= 1 && 1 <= channels <= 2 && samples_bounded(samples@),
            r matches Ok(s) ==> s == (Source { samples, sample_rate, channels, seekable }),
            r matches Ok(s) ==> s.wf(),
    {
        if sample_rate < 1 || channels < 1 || channels > 2 {
            return Err(DecodeError);
        }
        let mut i: usize = 0;
        while i < samples.len()
            invariant
                i <= samples@.len(),
                forall|j: int|
                    0 <= j < i ==> -(AMP_MAX as int) <= #[trigger] samples@[j] <= AMP_MAX as int,
            decreases samples@.len() - i,
        {
            if samples[i] > AMP_MAX || samples[i] < -AMP_MAX {
                return Err(DecodeError);
            }
            i += 1;
        }
        Ok(Source { samples, sample_rate, channels, seekable })
    }

    /// A run of silence: all-zero samples at the given layout.
    pub fn silence(len: usize, sample_rate: u32, channels: u16) -> (r: Result<Source, DecodeError>)
        ensures
            r is Ok <==> sample_rate >= 1 && 1 <= channels <= 2,
            r matches Ok(s) ==> {
                &&& s.wf()
                &&& s.samples@.len() == len
                &&& forall|i: int| 0 <= i < len ==> s.samples@[i] == 0
                &&& s.sample_rate == sample_rate
                &&& s.channels == channels
            },
    {
        if sample_rate < 1 || channels < 1 || channels > 2 {
            return Err(DecodeError);
        }
        let mut samples: Vec<i64> = Vec::new();
        let mut i: usize = 0;
        while i < len
            invariant
                samples@.len() == i,
                i <= len,
                forall|j: int| 0 <= j < i ==> samples@[j] == 0,
            decreases len - i,
        {
            samples.push(0);
            i += 1;
        }
        Ok(Source { samples, sample_rate, channels, seekable: true })
    }

    /// The empty source: produces nothing and is exhausted at once.
    pub fn empty() -> (r: Source)
        ensures
            r.wf(),
            r.samples@.len() == 0,
    {
        Source { samples: Vec::new(), sample_rate: 44100, channels: 2, seekable: true }
    }
}

} // verus!
