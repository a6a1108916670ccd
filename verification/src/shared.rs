use vstd::prelude::*;

use crate::ring::RingBuffer;

verus! {

/// The total-samples marker before the worker has seen the end of the
/// stream: no play-head position ever reaches it, because positions
/// saturate below it only when the stream is over.
pub const TOTAL_UNKNOWN: u64 = u64::MAX;

/// The values the decode worker and the render path share for one playback
/// session: the sample queue, the play-head position and the total-samples
/// marker.
///
/// `position` counts interleaved samples read by the render path since the
/// start of the stream; the worker overwrites it on a successful seek.
/// `total_samples` is `TOTAL_UNKNOWN` until the decoder reports the end of
/// the stream, then holds the final interleaved sample count. In the
/// running system both counters are advisory, eventually-consistent values;
/// the engine's logic is verified over this sequential view of them.
pub struct SharedState {
    pub ring: RingBuffer,
    pub position: u64,
    pub total_samples: u64,
}

impl SharedState {
    pub open spec fn wf(self) -> bool {
        self.ring.wf()
    }

    /// A fresh session: empty ring buffer of the given capacity, play-head
    /// at the start, total still unknown.
    pub fn new(capacity: usize) -> (s: SharedState)
        requires
            0 < capacity <= usize::MAX / 2,
        ensures
            s.wf(),
            s.ring@ =~= Seq::<crate::sample::Sample>::empty(),
            s.ring.capacity() == capacity,
            s.position == 0,
            s.total_samples == TOTAL_UNKNOWN,
    {
        SharedState { ring: RingBuffer::new(capacity), position: 0, total_samples: TOTAL_UNKNOWN }
    }
}

} // verus!
