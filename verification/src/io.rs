//! The compute side of reading: the retry bookkeeping that decides when a
//! packet source is truly exhausted, and the arithmetic of seek targets.
//!
//! The reads themselves — pulling packets out of a container, moving the
//! read head — belong to the container backend; what stands here is every
//! decision the read loop takes between those calls.

use vstd::prelude::*;

verus! {

/// How many consecutive empty reads are tolerated before the source is
/// declared exhausted.
pub const MAX_CONSECUTIVE_EMPTY_READS: u32 = 3;

/// Ticks per second of the engine's global time base.
pub const GLOBAL_TIME_BASE_DEN: i64 = 1_000_000;

/// Retry bookkeeping of one read call: counts consecutive empty reads so
/// that a genuinely ended stream can be told from a transient gap.
#[derive(Debug, Clone, Copy, PartialEq, Eq, Structural)]
pub struct ReadRetry {
    pub error_count: u32,
}

impl ReadRetry {
    /// Fresh bookkeeping: nothing has come up empty yet.
    pub fn new() -> (r: ReadRetry)
        ensures
            r.error_count == 0,
    {
        ReadRetry { error_count: 0 }
    }

    /// The source produced a packet for stream `stream_index`; deliver it
    /// exactly when it belongs to the wanted stream, and keep reading
    /// otherwise.
    pub fn on_packet(&self, stream_index: usize, wanted_stream_index: usize) -> (r: bool)
        ensures
            r == (stream_index == wanted_stream_index),
    {
        stream_index == wanted_stream_index
    }

    /// The source produced nothing. Give up — the stream has ended — once
    /// more than [`MAX_CONSECUTIVE_EMPTY_READS`] reads in a row came up
    /// empty.
    pub fn on_empty(&mut self) -> (r: bool)
        requires
            old(self).error_count < u32::MAX,
        ensures
            final(self).error_count == old(self).error_count + 1,
            r == (final(self).error_count > MAX_CONSECUTIVE_EMPTY_READS),
    {
        self.error_count = self.error_count + 1;
        self.error_count > MAX_CONSECUTIVE_EMPTY_READS
    }
}

/// The seek target and tolerance window for a seek to
/// `timestamp_milliseconds` from the start: the target in ticks of the
/// engine's global time base, and one second of leeway on either side.
pub fn seek_bounds(timestamp_milliseconds: i64) -> (r: (i64, i64, i64))
    requires
        -9_223_372_036_853_775 <= timestamp_milliseconds <= 9_223_372_036_853_775,
    ensures
        r.0 == timestamp_milliseconds * (GLOBAL_TIME_BASE_DEN / 1000),
        r.1 == r.0 - GLOBAL_TIME_BASE_DEN,
        r.2 == r.0 + GLOBAL_TIME_BASE_DEN,
{
    let conversion_factor: i64 = GLOBAL_TIME_BASE_DEN / 1000;
    let timestamp = timestamp_milliseconds * conversion_factor;
    (timestamp, timestamp - GLOBAL_TIME_BASE_DEN, timestamp + GLOBAL_TIME_BASE_DEN)
}

} // verus!
