//! The counters of one time window.
//!
//! Points in time are whole nanoseconds since the Unix epoch (negative before
//! it); lengths of time are whole nanoseconds.

use vstd::prelude::*;

verus! {

/// The larger of two numbers.
pub open spec fn larger(a: int, b: int) -> int {
    if a >= b {
        a
    } else {
        b
    }
}

/// A count or a sum of sizes above this value is near the ceiling of its
/// range.
pub const RESET_THRESHOLD: usize = usize::MAX - 1000;

/// A sum of processing times above this value is near the ceiling of its
/// range.
pub const TIME_RESET_THRESHOLD: u64 = u64::MAX - 1000;

/// Metrics for a specific time window (e.g., one minute).
#[derive(Debug, Clone, Copy, PartialEq, Eq)]
pub struct WindowedMetrics {
    /// Start time of this window.
    pub start_time: i64,
    /// Time of the latest message recorded in this window; the start time
    /// while there is none.
    pub end_time: i64,
    /// Number of messages received in this window.
    pub messages_received: usize,
    /// Number of messages processed in this window.
    pub messages_processed: usize,
    /// Number of messages dropped in this window.
    pub messages_dropped: usize,
    /// Number of processing errors in this window.
    pub processing_errors: usize,
    /// Total message size in this window (for averaging).
    pub total_message_size: usize,
    /// Total processing time in this window (for averaging).
    pub total_processing_time: u64,
    /// Maximum message size seen in this window.
    pub max_message_size: usize,
    /// Maximum processing time seen in this window.
    pub max_processing_time: u64,
}

impl WindowedMetrics {
    /// The window that starts at `start_time` and has recorded nothing.
    pub open spec fn empty_at(start_time: i64) -> WindowedMetrics {
        WindowedMetrics {
            start_time,
            end_time: start_time,
            messages_received: 0,
            messages_processed: 0,
            messages_dropped: 0,
            processing_errors: 0,
            total_message_size: 0,
            total_processing_time: 0,
            max_message_size: 0,
            max_processing_time: 0,
        }
    }

    /// Whether one more message of `size` bytes can be counted.
    pub open spec fn can_receive(self, size: usize) -> bool {
        &&& self.messages_received < usize::MAX
        &&& self.total_message_size + size <= usize::MAX
    }

    /// This window after a message of `size` bytes was received at
    /// `timestamp`.
    pub open spec fn with_received(self, size: usize, timestamp: i64) -> WindowedMetrics {
        WindowedMetrics {
            messages_received: (self.messages_received + 1) as usize,
            total_message_size: (self.total_message_size + size) as usize,
            max_message_size: larger(self.max_message_size as int, size as int) as usize,
            end_time: timestamp,
            ..self
        }
    }

    /// Whether one more processed message that took `processing_time` can be
    /// counted.
    pub open spec fn can_process(self, processing_time: u64) -> bool {
        &&& self.messages_processed < usize::MAX
        &&& self.total_processing_time + processing_time <= u64::MAX
    }

    /// This window after a message was processed in `processing_time`.
    pub open spec fn with_processed(self, processing_time: u64) -> WindowedMetrics {
        WindowedMetrics {
            messages_processed: (self.messages_processed + 1) as usize,
            total_processing_time: (self.total_processing_time + processing_time) as u64,
            max_processing_time: larger(
                self.max_processing_time as int,
                processing_time as int,
            ) as u64,
            ..self
        }
    }

    /// This window after one more message was dropped.
    pub open spec fn with_dropped(self) -> WindowedMetrics {
        WindowedMetrics { messages_dropped: (self.messages_dropped + 1) as usize, ..self }
    }

    /// This window after one more processing error.
    pub open spec fn with_error(self) -> WindowedMetrics {
        WindowedMetrics { processing_errors: (self.processing_errors + 1) as usize, ..self }
    }

    /// Whether one of the counts or sums is near the ceiling of its range.
    pub open spec fn near_ceiling(self) -> bool {
        ||| self.messages_received > RESET_THRESHOLD
        ||| self.messages_processed > RESET_THRESHOLD
        ||| self.messages_dropped > RESET_THRESHOLD
        ||| self.processing_errors > RESET_THRESHOLD
        ||| self.total_message_size > RESET_THRESHOLD
        ||| self.total_processing_time > TIME_RESET_THRESHOLD
    }

    /// This window with its counts and sums back at zero. The bounds in time
    /// and the two maxima stay.
    pub open spec fn with_counters_reset(self) -> WindowedMetrics {
        WindowedMetrics {
            messages_received: 0,
            messages_processed: 0,
            messages_dropped: 0,
            processing_errors: 0,
            total_message_size: 0,
            total_processing_time: 0,
            ..self
        }
    }

    /// This window, with its counts and sums reset if one of them is near the
    /// ceiling.
    pub open spec fn settled(self) -> WindowedMetrics {
        if self.near_ceiling() {
            self.with_counters_reset()
        } else {
            self
        }
    }

    /// Whether the sums fit the counts and the maxima: the sum of sizes is no
    /// more than the largest size for each message received, and the sum of
    /// processing times no more than the longest time for each message
    /// processed.
    pub open spec fn sums_within_maxima(self) -> bool {
        &&& self.total_message_size <= self.messages_received * self.max_message_size
        &&& self.total_processing_time <= self.messages_processed * self.max_processing_time
    }

    /// Whether the counts and sums are far enough from the ceiling of their
    /// ranges for one more message of `size` bytes that takes
    /// `processing_time` to be counted in full.
    pub open spec fn has_room(self, size: usize, processing_time: u64) -> bool {
        &&& self.messages_received < RESET_THRESHOLD
        &&& self.messages_processed < RESET_THRESHOLD
        &&& self.messages_dropped < RESET_THRESHOLD
        &&& self.processing_errors < RESET_THRESHOLD
        &&& self.total_message_size + size <= RESET_THRESHOLD
        &&& self.total_processing_time + processing_time <= TIME_RESET_THRESHOLD
    }

    /// Create a new window metrics instance.
    pub fn new(start_time: i64) -> (window: Self)
        ensures
            window == Self::empty_at(start_time),
    {
        WindowedMetrics {
            start_time,
            end_time: start_time,
            messages_received: 0,
            messages_processed: 0,
            messages_dropped: 0,
            processing_errors: 0,
            total_message_size: 0,
            total_processing_time: 0,
            max_message_size: 0,
            max_processing_time: 0,
        }
    }

    /// Update window with a received message.
    pub fn record_message_received(&mut self, size: usize, timestamp: i64)
        requires
            old(self).can_receive(size),
        ensures
            *final(self) == old(self).with_received(size, timestamp),
            final(self).messages_received == old(self).messages_received + 1,
            final(self).total_message_size == old(self).total_message_size + size,
    {
        self.messages_received = self.messages_received + 1;
        self.total_message_size = self.total_message_size + size;
        if size > self.max_message_size {
            self.max_message_size = size;
        }
        self.end_time = timestamp;
    }

    /// Update window with a processed message.
    pub fn record_message_processed(&mut self, processing_time: u64)
        requires
            old(self).can_process(processing_time),
        ensures
            *final(self) == old(self).with_processed(processing_time),
            final(self).messages_processed == old(self).messages_processed + 1,
            final(self).total_processing_time == old(self).total_processing_time
                + processing_time,
    {
        self.messages_processed = self.messages_processed + 1;
        self.total_processing_time = self.total_processing_time + processing_time;
        if processing_time > self.max_processing_time {
            self.max_processing_time = processing_time;
        }
    }

    /// Record a message as dropped.
    pub fn record_message_dropped(&mut self)
        requires
            old(self).messages_dropped < usize::MAX,
        ensures
            *final(self) == old(self).with_dropped(),
            final(self).messages_dropped == old(self).messages_dropped + 1,
    {
        self.messages_dropped = self.messages_dropped + 1;
    }

    /// Record a processing error.
    pub fn record_processing_error(&mut self)
        requires
            old(self).processing_errors < usize::MAX,
        ensures
            *final(self) == old(self).with_error(),
            final(self).processing_errors == old(self).processing_errors + 1,
    {
        self.processing_errors = self.processing_errors + 1;
    }

    /// Tell whether one of the counts or sums is near the ceiling of its
    /// range.
    pub fn is_near_ceiling(&self) -> (near: bool)
        ensures
            near == self.near_ceiling(),
    {
        self.messages_received > RESET_THRESHOLD || self.messages_processed > RESET_THRESHOLD
            || self.messages_dropped > RESET_THRESHOLD || self.processing_errors
            > RESET_THRESHOLD || self.total_message_size > RESET_THRESHOLD
            || self.total_processing_time > TIME_RESET_THRESHOLD
    }

    /// Put the counts and sums back to zero, keeping the bounds in time and
    /// the two maxima.
    pub fn reset_counters(&mut self)
        ensures
            *final(self) == old(self).with_counters_reset(),
    {
        self.messages_received = 0;
        self.messages_processed = 0;
        self.messages_dropped = 0;
        self.processing_errors = 0;
        self.total_message_size = 0;
        self.total_processing_time = 0;
    }
}

} // verus!
