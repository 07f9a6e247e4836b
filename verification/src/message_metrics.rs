//! Metrics aggregated over the most recent completed windows.
//!
//! Messages are counted in a current window. When a message arrives a whole
//! window length or more after the current window began, that window is
//! sealed into a ring of the last few windows and a new one begins. Every
//! figure that is read is computed from the sealed windows alone, so it never
//! changes while a window is still filling.

use crate::ring_buffer::push_bounded;
use crate::ring_buffer::RingBuffer;
use crate::windowed::WindowedMetrics;
use vstd::prelude::*;

verus! {

/// The length of one window: one minute, in nanoseconds.
pub const WINDOW_DURATION: u64 = 60_000_000_000;

/// Number of sealed windows that are kept.
pub const NUM_WINDOWS: usize = 5;

/// One second, in nanoseconds.
pub const NANOS_PER_SEC: u64 = 1_000_000_000;

/// The counts and sums of a window that are added up over windows.
#[derive(Debug, Clone, Copy, PartialEq, Eq)]
pub enum Counter {
    Received,
    Processed,
    Dropped,
    Errors,
    Size,
    ProcessingTime,
}

impl Counter {
    /// The value of this counter in `window`.
    pub open spec fn of(self, window: WindowedMetrics) -> nat {
        match self {
            Counter::Received => window.messages_received as nat,
            Counter::Processed => window.messages_processed as nat,
            Counter::Dropped => window.messages_dropped as nat,
            Counter::Errors => window.processing_errors as nat,
            Counter::Size => window.total_message_size as nat,
            Counter::ProcessingTime => window.total_processing_time as nat,
        }
    }

    fn read(self, window: &WindowedMetrics) -> (value: u64)
        ensures
            value == self.of(*window),
    {
        match self {
            Counter::Received => window.messages_received as u64,
            Counter::Processed => window.messages_processed as u64,
            Counter::Dropped => window.messages_dropped as u64,
            Counter::Errors => window.processing_errors as u64,
            Counter::Size => window.total_message_size as u64,
            Counter::ProcessingTime => window.total_processing_time,
        }
    }
}

/// The sum of one counter over `windows`.
pub open spec fn total(windows: Seq<WindowedMetrics>, counter: Counter) -> nat
    decreases windows.len(),
{
    if windows.len() == 0 {
        0
    } else {
        total(windows.drop_last(), counter) + counter.of(windows.last())
    }
}

/// The largest message size seen in `windows`; 0 if there is none.
pub open spec fn largest_size(windows: Seq<WindowedMetrics>) -> nat
    decreases windows.len(),
{
    if windows.len() == 0 {
        0
    } else {
        let rest = largest_size(windows.drop_last());
        if windows.last().max_message_size >= rest {
            windows.last().max_message_size as nat
        } else {
            rest
        }
    }
}

/// The longest processing time seen in `windows`; 0 if there is none.
pub open spec fn longest_time(windows: Seq<WindowedMetrics>) -> nat
    decreases windows.len(),
{
    if windows.len() == 0 {
        0
    } else {
        let rest = longest_time(windows.drop_last());
        if windows.last().max_processing_time >= rest {
            windows.last().max_processing_time as nat
        } else {
            rest
        }
    }
}

/// `n`, or the largest `usize` if `n` is beyond it.
pub open spec fn clamp_usize(n: nat) -> usize {
    if n > usize::MAX {
        usize::MAX
    } else {
        n as usize
    }
}

/// `n`, or the largest `u64` if `n` is beyond it.
pub open spec fn clamp_u64(n: nat) -> u64 {
    if n > u64::MAX {
        u64::MAX
    } else {
        n as u64
    }
}

/// The time from the start of the first of `windows` to the end of the last,
/// in nanoseconds. It can be negative: a window ends where its latest message
/// says.
pub open spec fn span(windows: Seq<WindowedMetrics>) -> int
    recommends
        windows.len() > 0,
{
    windows.last().end_time - windows.first().start_time
}

/// Whether `windows` give a rate: there are two of them or more, and they
/// span a second or more.
pub open spec fn has_rate(windows: Seq<WindowedMetrics>) -> bool {
    windows.len() >= 2 && span(windows) >= NANOS_PER_SEC
}

/// A rate of messages, as the count of messages and the time in which they
/// came. A span of zero stands for "no rate": the throughput is then 0.
#[derive(Debug, Clone, Copy, PartialEq, Eq)]
pub struct Throughput {
    /// Messages received.
    pub messages: usize,
    /// The time they were received in, in nanoseconds.
    pub span_nanos: u64,
}

/// What the metrics hold: the sealed windows, oldest first, and the window
/// that is filling.
pub struct MetricsState {
    pub sealed: Seq<WindowedMetrics>,
    pub current: WindowedMetrics,
}

impl WindowedMetrics {
    /// Whether a message at `timestamp` falls after this window: it comes a
    /// window length or more after the window's start.
    pub open spec fn ends_before(self, timestamp: i64) -> bool {
        timestamp - self.start_time >= WINDOW_DURATION
    }

    /// This window after a message was received, with the counts and sums
    /// reset where one of them would be near the ceiling of its range.
    pub open spec fn received_settled(self, size: usize, timestamp: i64) -> WindowedMetrics {
        if self.can_receive(size) {
            self.with_received(size, timestamp).settled()
        } else {
            self.with_received(size, timestamp).with_counters_reset()
        }
    }

    /// This window after a message was processed, with the counts and sums
    /// reset where one of them would be near the ceiling of its range.
    pub open spec fn processed_settled(self, processing_time: u64) -> WindowedMetrics {
        if self.can_process(processing_time) {
            self.with_processed(processing_time).settled()
        } else {
            self.with_processed(processing_time).with_counters_reset()
        }
    }

    /// This window after a message was dropped, with the counts and sums
    /// reset where one of them would be near the ceiling of its range.
    pub open spec fn dropped_settled(self) -> WindowedMetrics {
        if self.messages_dropped < usize::MAX {
            self.with_dropped().settled()
        } else {
            self.with_dropped().with_counters_reset()
        }
    }

    /// This window after a processing error, with the counts and sums reset
    /// where one of them would be near the ceiling of its range.
    pub open spec fn error_settled(self) -> WindowedMetrics {
        if self.processing_errors < usize::MAX {
            self.with_error().settled()
        } else {
            self.with_error().with_counters_reset()
        }
    }
}

impl MetricsState {
    /// Whether in every window, sealed or filling, the sums fit the counts
    /// and the maxima.
    pub open spec fn sums_within_maxima(self) -> bool {
        &&& self.current.sums_within_maxima()
        &&& forall|i: int|
            0 <= i < self.sealed.len() ==> (#[trigger] self.sealed[i]).sums_within_maxima()
    }

    /// The state at `now`, before any message.
    pub open spec fn initial(now: i64) -> MetricsState {
        MetricsState { sealed: Seq::empty(), current: WindowedMetrics::empty_at(now) }
    }

    /// The state after a message of `size` bytes was received at `timestamp`.
    pub open spec fn received(self, size: usize, timestamp: i64) -> MetricsState {
        if self.current.ends_before(timestamp) {
            MetricsState {
                sealed: push_bounded(self.sealed, NUM_WINDOWS as nat, self.current),
                current: WindowedMetrics::empty_at(timestamp).received_settled(size, timestamp),
            }
        } else {
            MetricsState {
                sealed: self.sealed,
                current: self.current.received_settled(size, timestamp),
            }
        }
    }

    /// The state after a message was processed in `processing_time`.
    pub open spec fn processed(self, processing_time: u64) -> MetricsState {
        MetricsState { current: self.current.processed_settled(processing_time), ..self }
    }

    /// The state after a message was dropped.
    pub open spec fn dropped(self) -> MetricsState {
        MetricsState { current: self.current.dropped_settled(), ..self }
    }

    /// The state after a processing error.
    pub open spec fn errored(self) -> MetricsState {
        MetricsState { current: self.current.error_settled(), ..self }
    }

    /// The state after one message of each of the given sizes was received,
    /// each a whole window length after the start of the window that was
    /// filling when it came.
    pub open spec fn fed_spaced(self, sizes: Seq<usize>) -> MetricsState
        decreases sizes.len(),
    {
        if sizes.len() == 0 {
            self
        } else {
            let before = self.fed_spaced(sizes.drop_last());
            before.received(sizes.last(), (before.current.start_time + WINDOW_DURATION) as i64)
        }
    }

    /// The rate of messages over the sealed windows.
    pub open spec fn throughput(self) -> Throughput {
        if has_rate(self.sealed) {
            Throughput {
                messages: clamp_usize(total(self.sealed, Counter::Received)),
                span_nanos: span(self.sealed) as u64,
            }
        } else {
            Throughput { messages: 0, span_nanos: 0 }
        }
    }

    /// The mean message size over the sealed windows; 0 without messages.
    pub open spec fn average_size(self) -> nat {
        if total(self.sealed, Counter::Received) == 0 {
            0
        } else {
            total(self.sealed, Counter::Size) / total(self.sealed, Counter::Received)
        }
    }

    /// The mean processing time over the sealed windows; 0 without processed
    /// messages.
    pub open spec fn average_time(self) -> nat {
        if total(self.sealed, Counter::Processed) == 0 {
            0
        } else {
            total(self.sealed, Counter::ProcessingTime) / total(self.sealed, Counter::Processed)
        }
    }
}

/// `n` as a `usize`, or the largest `usize` if `n` is beyond it.
fn to_usize(n: u128) -> (clamped: usize)
    ensures
        clamped == clamp_usize(n as nat),
{
    if n > usize::MAX as u128 {
        usize::MAX
    } else {
        n as usize
    }
}

/// Message processing metrics with sliding windows.
///
/// Only completed windows are included in what is read. The current window
/// (up to one window length of the most recent data) is excluded.
#[derive(Debug, Clone)]
pub struct MessageMetrics {
    current_window: WindowedMetrics,
    windows: RingBuffer<WindowedMetrics>,
}

impl View for MessageMetrics {
    type V = MetricsState;

    closed spec fn view(&self) -> MetricsState {
        MetricsState { sealed: self.windows@, current: self.current_window }
    }
}

impl MessageMetrics {
    /// The ring of sealed windows is well-formed and keeps `NUM_WINDOWS`
    /// windows, and in every window the sums fit the counts and the maxima.
    pub closed spec fn wf(&self) -> bool {
        &&& self.windows.wf()
        &&& self.windows.capacity() == NUM_WINDOWS
        &&& self@.sums_within_maxima()
    }

    /// In every window of well-formed metrics the sums fit the counts and the
    /// maxima.
    pub proof fn lemma_sums_within_maxima(&self)
        requires
            self.wf(),
        ensures
            self@.sums_within_maxima(),
    {
    }

    /// No more than `NUM_WINDOWS` windows are sealed.
    pub proof fn lemma_sealed_bounded(&self)
        requires
            self.wf(),
        ensures
            self@.sealed.len() <= NUM_WINDOWS,
    {
        self.windows.lemma_len_bounded();
    }

    /// Create a new metrics instance whose first window starts at `now`.
    pub fn new(now: i64) -> (metrics: Self)
        ensures
            metrics.wf(),
            metrics@ == MetricsState::initial(now),
    {
        MessageMetrics {
            current_window: WindowedMetrics::new(now),
            windows: RingBuffer::new(NUM_WINDOWS),
        }
    }

    /// Start over at `now`: no window is sealed, and the window that fills
    /// starts at `now` and has recorded nothing.
    pub fn reset(&mut self, now: i64)
        ensures
            final(self).wf(),
            final(self)@ == MetricsState::initial(now),
    {
        self.current_window = WindowedMetrics::new(now);
        self.windows = RingBuffer::new(NUM_WINDOWS);
    }

    /// The time that the sealed windows cover at most, in seconds.
    pub fn window_time_sec(&self) -> (seconds: u64)
        ensures
            seconds == (WINDOW_DURATION / NANOS_PER_SEC) * NUM_WINDOWS,
            seconds == 300,
    {
        (WINDOW_DURATION / NANOS_PER_SEC) * (NUM_WINDOWS as u64)
    }

    /// Reset the counts and sums of the current window if one of them is near
    /// the ceiling of its range.
    fn settle(&mut self)
        ensures
            final(self).windows == old(self).windows,
            final(self).current_window == old(self).current_window.settled(),
    {
        if self.current_window.is_near_ceiling() {
            self.current_window.reset_counters();
        }
    }

    /// Record a new message received.
    pub fn record_message_received(&mut self, size: usize, timestamp: i64)
        requires
            old(self).wf(),
        ensures
            final(self).wf(),
            final(self)@ == old(self)@.received(size, timestamp),
    {
        if timestamp as i128 - self.current_window.start_time as i128 >= WINDOW_DURATION as i128 {
            let completed: WindowedMetrics = self.current_window;
            self.current_window = WindowedMetrics::new(timestamp);
            self.windows.push(completed);
        }
        if self.current_window.messages_received < usize::MAX && size <= usize::MAX
            - self.current_window.total_message_size {
            self.current_window.record_message_received(size, timestamp);
            self.settle();
        } else {
            if size > self.current_window.max_message_size {
                self.current_window.max_message_size = size;
            }
            self.current_window.end_time = timestamp;
            self.current_window.reset_counters();
        }
        proof {
            lemma_received_keeps_sums(old(self)@, size, timestamp);
        }
    }

    /// Record a message as processed.
    pub fn record_message_processed(&mut self, processing_time: u64)
        requires
            old(self).wf(),
        ensures
            final(self).wf(),
            final(self)@ == old(self)@.processed(processing_time),
    {
        if self.current_window.messages_processed < usize::MAX && processing_time <= u64::MAX
            - self.current_window.total_processing_time {
            self.current_window.record_message_processed(processing_time);
            self.settle();
        } else {
            if processing_time > self.current_window.max_processing_time {
                self.current_window.max_processing_time = processing_time;
            }
            self.current_window.reset_counters();
        }
        proof {
            lemma_processed_keeps_sums(old(self)@, processing_time);
        }
    }

    /// Record a message as dropped.
    pub fn record_message_dropped(&mut self)
        requires
            old(self).wf(),
        ensures
            final(self).wf(),
            final(self)@ == old(self)@.dropped(),
    {
        if self.current_window.messages_dropped < usize::MAX {
            self.current_window.record_message_dropped();
            self.settle();
        } else {
            self.current_window.reset_counters();
        }
        proof {
            assert(old(self)@.current.sums_within_maxima());
            assert(old(self)@.current.with_dropped().sums_within_maxima());
            lemma_reset_keeps_sums(old(self)@.current.with_dropped());
            assert(self@.sealed == old(self)@.sealed);
        }
    }

    /// Record a processing error.
    pub fn record_processing_error(&mut self)
        requires
            old(self).wf(),
        ensures
            final(self).wf(),
            final(self)@ == old(self)@.errored(),
    {
        if self.current_window.processing_errors < usize::MAX {
            self.current_window.record_processing_error();
            self.settle();
        } else {
            self.current_window.reset_counters();
        }
        proof {
            assert(old(self)@.current.sums_within_maxima());
            assert(old(self)@.current.with_error().sums_within_maxima());
            lemma_reset_keeps_sums(old(self)@.current.with_error());
            assert(self@.sealed == old(self)@.sealed);
        }
    }

    /// The sum of one counter over the sealed windows.
    fn sum(&self, counter: Counter) -> (sum: u128)
        requires
            self.wf(),
        ensures
            sum == total(self@.sealed, counter),
    {
        let count: usize = self.windows.len();
        let mut sum: u128 = 0;
        let mut index: usize = 0;
        proof {
            self.windows.lemma_len_bounded();
        }
        while index < count
            invariant
                self.wf(),
                count == self@.sealed.len(),
                count <= NUM_WINDOWS,
                index <= count,
                sum == total(self@.sealed.take(index as int), counter),
                sum <= index * 0xffff_ffff_ffff_ffff,
            decreases count - index,
        {
            if let Some(window) = self.windows.get(index) {
                assert(self@.sealed.take(index + 1).drop_last() =~= self@.sealed.take(
                    index as int,
                ));
                sum = sum + counter.read(window) as u128;
            }
            index = index + 1;
        }
        assert(self@.sealed.take(count as int) =~= self@.sealed);
        sum
    }

    /// The end of the latest sealed window; `None` while no window is sealed.
    pub fn window_last_message_time(&self) -> (time: Option<i64>)
        requires
            self.wf(),
        ensures
            self@.sealed.len() == 0 ==> time.is_none(),
            self@.sealed.len() > 0 ==> time == Some(self@.sealed.last().end_time),
    {
        if self.windows.is_empty() {
            None
        } else {
            match self.windows.get(self.windows.len() - 1) {
                Some(window) => Some(window.end_time),
                None => None,
            }
        }
    }

    /// Get the total number of messages received across the sealed windows.
    pub fn window_messages_received(&self) -> (count: usize)
        requires
            self.wf(),
        ensures
            count == clamp_usize(total(self@.sealed, Counter::Received)),
    {
        to_usize(self.sum(Counter::Received))
    }

    /// Get the total number of messages processed across the sealed windows.
    pub fn window_messages_processed(&self) -> (count: usize)
        requires
            self.wf(),
        ensures
            count == clamp_usize(total(self@.sealed, Counter::Processed)),
    {
        to_usize(self.sum(Counter::Processed))
    }

    /// Get the total number of messages dropped across the sealed windows.
    pub fn window_messages_dropped(&self) -> (count: usize)
        requires
            self.wf(),
        ensures
            count == clamp_usize(total(self@.sealed, Counter::Dropped)),
    {
        to_usize(self.sum(Counter::Dropped))
    }

    /// Get the total number of processing errors across the sealed windows.
    pub fn window_processing_errors(&self) -> (count: usize)
        requires
            self.wf(),
        ensures
            count == clamp_usize(total(self@.sealed, Counter::Errors)),
    {
        to_usize(self.sum(Counter::Errors))
    }

    /// Get the maximum message size seen in any sealed window.
    pub fn window_max_message_size(&self) -> (size: usize)
        requires
            self.wf(),
        ensures
            size == largest_size(self@.sealed),
    {
        let count: usize = self.windows.len();
        let mut size: usize = 0;
        let mut index: usize = 0;
        while index < count
            invariant
                self.wf(),
                count == self@.sealed.len(),
                index <= count,
                size == largest_size(self@.sealed.take(index as int)),
            decreases count - index,
        {
            if let Some(window) = self.windows.get(index) {
                assert(self@.sealed.take(index + 1).drop_last() =~= self@.sealed.take(
                    index as int,
                ));
                if window.max_message_size >= size {
                    size = window.max_message_size;
                }
            }
            index = index + 1;
        }
        assert(self@.sealed.take(count as int) =~= self@.sealed);
        size
    }

    /// Get the average message size across the sealed windows.
    pub fn window_average_message_size(&self) -> (size: usize)
        requires
            self.wf(),
        ensures
            size == clamp_usize(self@.average_size()),
            size == self@.average_size(),
            size <= largest_size(self@.sealed),
    {
        let total_size: u128 = self.sum(Counter::Size);
        let total_messages: u128 = self.sum(Counter::Received);
        proof {
            lemma_average_within_maximum(self@);
        }
        if total_messages == 0 {
            return 0;
        }
        to_usize(total_size / total_messages)
    }

    /// Get the maximum processing time seen in any sealed window.
    pub fn window_max_processing_time(&self) -> (time: u64)
        requires
            self.wf(),
        ensures
            time == longest_time(self@.sealed),
    {
        let count: usize = self.windows.len();
        let mut time: u64 = 0;
        let mut index: usize = 0;
        while index < count
            invariant
                self.wf(),
                count == self@.sealed.len(),
                index <= count,
                time == longest_time(self@.sealed.take(index as int)),
            decreases count - index,
        {
            if let Some(window) = self.windows.get(index) {
                assert(self@.sealed.take(index + 1).drop_last() =~= self@.sealed.take(
                    index as int,
                ));
                if window.max_processing_time >= time {
                    time = window.max_processing_time;
                }
            }
            index = index + 1;
        }
        assert(self@.sealed.take(count as int) =~= self@.sealed);
        time
    }

    /// Get the average processing time across the sealed windows.
    pub fn window_average_processing_time(&self) -> (time: u64)
        requires
            self.wf(),
        ensures
            time == clamp_u64(self@.average_time()),
            time == self@.average_time(),
            time <= longest_time(self@.sealed),
    {
        let total_time: u128 = self.sum(Counter::ProcessingTime);
        let total_processed: u128 = self.sum(Counter::Processed);
        proof {
            lemma_average_within_maximum(self@);
        }
        if total_processed == 0 {
            return 0;
        }
        let mean: u128 = total_time / total_processed;
        if mean > u64::MAX as u128 {
            u64::MAX
        } else {
            mean as u64
        }
    }

    /// Get the combined throughput across the sealed windows: the messages
    /// received in them and the time from the start of the first to the end
    /// of the last. Both are 0 where fewer than two windows are sealed or
    /// they span less than a second.
    pub fn window_throughput(&self) -> (rate: Throughput)
        requires
            self.wf(),
        ensures
            rate == self@.throughput(),
    {
        let count: usize = self.windows.len();
        if count < 2 {
            return Throughput { messages: 0, span_nanos: 0 };
        }
        let first: Option<&WindowedMetrics> = self.windows.get(0);
        let last: Option<&WindowedMetrics> = self.windows.get(count - 1);
        match (first, last) {
            (Some(first), Some(last)) => {
                let elapsed: i128 = last.end_time as i128 - first.start_time as i128;
                if elapsed >= NANOS_PER_SEC as i128 {
                    Throughput {
                        messages: self.window_messages_received(),
                        span_nanos: elapsed as u64,
                    }
                } else {
                    Throughput { messages: 0, span_nanos: 0 }
                }
            },
            _ => Throughput { messages: 0, span_nanos: 0 },
        }
    }

    /// Reset the counts and sums of the current window if one of them is near
    /// the ceiling of its range. The sealed windows, the bounds in time and
    /// the maxima stay as they are.
    pub fn check_and_reset_if_needed(&mut self)
        requires
            old(self).wf(),
        ensures
            final(self).wf(),
            final(self)@.sealed == old(self)@.sealed,
            final(self)@.current == old(self)@.current.settled(),
    {
        self.settle();
        proof {
            lemma_reset_keeps_sums(old(self)@.current);
            assert(self@.sealed == old(self)@.sealed);
            assert(self@.current == old(self)@.current.settled());
            assert(old(self)@.current.sums_within_maxima());
            assert(self@.current.sums_within_maxima());
        }
    }
}

/// A window whose sums fit its counts and maxima keeps that when its counts
/// and sums are reset, with or without a look at the ceiling.
pub proof fn lemma_reset_keeps_sums(window: WindowedMetrics)
    ensures
        window.with_counters_reset().sums_within_maxima(),
        window.sums_within_maxima() ==> window.settled().sums_within_maxima(),
{
    let reset = window.with_counters_reset();
    assert(reset.messages_received * reset.max_message_size == 0) by (nonlinear_arith)
        requires
            reset.messages_received == 0,
    ;
    assert(reset.messages_processed * reset.max_processing_time == 0) by (nonlinear_arith)
        requires
            reset.messages_processed == 0,
    ;
}

/// One more factor of what is at least as large gives at least as much.
proof fn lemma_one_more(count: int, maximum: int, larger_maximum: int, sum: int, addend: int)
    requires
        0 <= count,
        0 <= maximum <= larger_maximum,
        sum <= count * maximum,
        addend <= larger_maximum,
    ensures
        sum + addend <= (count + 1) * larger_maximum,
{
    assert(count * maximum <= count * larger_maximum) by (nonlinear_arith)
        requires
            0 <= count,
            maximum <= larger_maximum,
    ;
    assert((count + 1) * larger_maximum == count * larger_maximum + larger_maximum)
        by (nonlinear_arith);
}

/// In a window the sums fit the counts and the maxima after a message was
/// received, if they did before.
pub proof fn lemma_window_received_keeps_sums(window: WindowedMetrics, size: usize, timestamp: i64)
    requires
        window.sums_within_maxima(),
    ensures
        window.received_settled(size, timestamp).sums_within_maxima(),
{
    let next = window.with_received(size, timestamp);
    lemma_reset_keeps_sums(next);
    if window.can_receive(size) {
        lemma_one_more(
            window.messages_received as int,
            window.max_message_size as int,
            next.max_message_size as int,
            window.total_message_size as int,
            size as int,
        );
    }
}

/// In a window the sums fit the counts and the maxima after a message was
/// processed, if they did before.
pub proof fn lemma_window_processed_keeps_sums(window: WindowedMetrics, processing_time: u64)
    requires
        window.sums_within_maxima(),
    ensures
        window.processed_settled(processing_time).sums_within_maxima(),
{
    let next = window.with_processed(processing_time);
    lemma_reset_keeps_sums(next);
    if window.can_process(processing_time) {
        lemma_one_more(
            window.messages_processed as int,
            window.max_processing_time as int,
            next.max_processing_time as int,
            window.total_processing_time as int,
            processing_time as int,
        );
    }
}

/// In every window the sums fit the counts and the maxima after a message
/// was received, if they did before.
pub proof fn lemma_received_keeps_sums(state: MetricsState, size: usize, timestamp: i64)
    requires
        state.sums_within_maxima(),
    ensures
        state.received(size, timestamp).sums_within_maxima(),
{
    let after = state.received(size, timestamp);
    if state.current.ends_before(timestamp) {
        let fresh = WindowedMetrics::empty_at(timestamp);
        lemma_reset_keeps_sums(fresh);
        assert(fresh.with_counters_reset() == fresh);
        lemma_window_received_keeps_sums(fresh, size, timestamp);
        assert forall|i: int| 0 <= i < after.sealed.len() implies (
        #[trigger] after.sealed[i]).sums_within_maxima() by {
            if state.sealed.len() < NUM_WINDOWS {
                if i < state.sealed.len() {
                    assert(after.sealed[i] == state.sealed[i]);
                }
            } else {
                if i < state.sealed.len() - 1 {
                    assert(after.sealed[i] == state.sealed[i + 1]);
                }
            }
        }
    } else {
        lemma_window_received_keeps_sums(state.current, size, timestamp);
    }
}

/// In every window the sums fit the counts and the maxima after a message
/// was processed, if they did before.
pub proof fn lemma_processed_keeps_sums(state: MetricsState, processing_time: u64)
    requires
        state.sums_within_maxima(),
    ensures
        state.processed(processing_time).sums_within_maxima(),
{
    lemma_window_processed_keeps_sums(state.current, processing_time);
}

/// Over windows in each of which the sums fit the counts and the maxima, the
/// sum of sizes is no more than the largest size for each message received,
/// and the sum of processing times no more than the longest time for each
/// message processed.
pub proof fn lemma_totals_within_maxima(windows: Seq<WindowedMetrics>)
    requires
        forall|i: int| 0 <= i < windows.len() ==> (#[trigger] windows[i]).sums_within_maxima(),
    ensures
        total(windows, Counter::Size) <= total(windows, Counter::Received) * largest_size(
            windows,
        ),
        total(windows, Counter::ProcessingTime) <= total(windows, Counter::Processed)
            * longest_time(windows),
    decreases windows.len(),
{
    if windows.len() == 0 {
        assert(0nat * largest_size(windows) == 0) by (nonlinear_arith);
        assert(0nat * longest_time(windows) == 0) by (nonlinear_arith);
    } else {
        let rest = windows.drop_last();
        let last = windows.last();
        assert forall|i: int| 0 <= i < rest.len() implies (#[trigger] rest[i]).sums_within_maxima() by {
            assert(rest[i] == windows[i]);
        }
        lemma_totals_within_maxima(rest);
        lemma_sum_of_two(
            total(rest, Counter::Size) as int,
            total(rest, Counter::Received) as int,
            largest_size(rest) as int,
            last.total_message_size as int,
            last.messages_received as int,
            last.max_message_size as int,
            largest_size(windows) as int,
        );
        lemma_sum_of_two(
            total(rest, Counter::ProcessingTime) as int,
            total(rest, Counter::Processed) as int,
            longest_time(rest) as int,
            last.total_processing_time as int,
            last.messages_processed as int,
            last.max_processing_time as int,
            longest_time(windows) as int,
        );
    }
}

/// Two sums that are each within their count times their maximum are
/// together within the sum of the counts times what is no less than either
/// maximum.
proof fn lemma_sum_of_two(
    sum: int,
    count: int,
    maximum: int,
    other_sum: int,
    other_count: int,
    other_maximum: int,
    both: int,
)
    requires
        0 <= count,
        0 <= other_count,
        sum <= count * maximum,
        other_sum <= other_count * other_maximum,
        maximum <= both,
        other_maximum <= both,
    ensures
        sum + other_sum <= (count + other_count) * both,
{
    assert(count * maximum <= count * both) by (nonlinear_arith)
        requires
            0 <= count,
            maximum <= both,
    ;
    assert(other_count * other_maximum <= other_count * both) by (nonlinear_arith)
        requires
            0 <= other_count,
            other_maximum <= both,
    ;
    assert((count + other_count) * both == count * both + other_count * both)
        by (nonlinear_arith);
}

/// The mean message size over the sealed windows is no more than the
/// largest message size in them, and the mean processing time no more than
/// the longest.
pub proof fn lemma_average_within_maximum(state: MetricsState)
    requires
        state.sums_within_maxima(),
    ensures
        state.average_size() <= largest_size(state.sealed),
        state.average_time() <= longest_time(state.sealed),
        largest_size(state.sealed) <= usize::MAX,
        longest_time(state.sealed) <= u64::MAX,
{
    lemma_totals_within_maxima(state.sealed);
    lemma_maxima_in_range(state.sealed);
    let received = total(state.sealed, Counter::Received) as int;
    let sizes = total(state.sealed, Counter::Size) as int;
    let largest = largest_size(state.sealed) as int;
    if received > 0 {
        assert(sizes / received <= largest) by (nonlinear_arith)
            requires
                received > 0,
                0 <= sizes <= received * largest,
        ;
    }
    let processed = total(state.sealed, Counter::Processed) as int;
    let times = total(state.sealed, Counter::ProcessingTime) as int;
    let longest = longest_time(state.sealed) as int;
    if processed > 0 {
        assert(times / processed <= longest) by (nonlinear_arith)
            requires
                processed > 0,
                0 <= times <= processed * longest,
        ;
    }
}

/// The largest size and the longest time over windows are within the range
/// of the numbers they are held in.
proof fn lemma_maxima_in_range(windows: Seq<WindowedMetrics>)
    ensures
        largest_size(windows) <= usize::MAX,
        longest_time(windows) <= u64::MAX,
    decreases windows.len(),
{
    if windows.len() > 0 {
        lemma_maxima_in_range(windows.drop_last());
    }
}

/// The throughput needs a span of time across two sealed windows or more:
/// with fewer it is 0. With more it is the messages received in the sealed
/// windows over the time from the start of the first to the end of the last,
/// so that 240 messages in two windows that span 120 seconds are 2 messages
/// per second.
pub proof fn lemma_throughput(state: MetricsState)
    ensures
        state.sealed.len() < 2 ==> state.throughput() == (Throughput {
            messages: 0,
            span_nanos: 0,
        }),
        has_rate(state.sealed) ==> state.throughput().messages == clamp_usize(
            total(state.sealed, Counter::Received),
        ) && state.throughput().span_nanos == span(state.sealed),
        state.sealed.len() == 2 && span(state.sealed) == 120 * NANOS_PER_SEC && total(
            state.sealed,
            Counter::Received,
        ) == 240 ==> state.throughput().messages * NANOS_PER_SEC == 2
            * state.throughput().span_nanos,
{
}

/// Windows that each count at most one message count no more messages than
/// there are windows, and one fewer if the first of them counts none.
proof fn lemma_total_of_single_messages(windows: Seq<WindowedMetrics>)
    requires
        forall|i: int| 0 <= i < windows.len() ==> (#[trigger] windows[i]).messages_received <= 1,
    ensures
        total(windows, Counter::Received) <= windows.len(),
        windows.len() > 0 && windows[0].messages_received == 0 ==> total(
            windows,
            Counter::Received,
        ) + 1 <= windows.len(),
    decreases windows.len(),
{
    if windows.len() > 0 {
        let rest = windows.drop_last();
        assert forall|i: int| 0 <= i < rest.len() implies (#[trigger] rest[i]).messages_received
            <= 1 by {
            assert(rest[i] == windows[i]);
        }
        lemma_total_of_single_messages(rest);
        if rest.len() > 0 {
            assert(rest[0] == windows[0]);
        }
    }
}

/// Messages that come a window length apart seal one window each: after `k`
/// of them, the smaller of `k` and `NUM_WINDOWS` windows are sealed. The
/// latest message is in the window that is still filling, so the sealed
/// windows, from which everything is read, count fewer than `k` messages.
pub proof fn lemma_spaced_messages_seal_windows(start: i64, sizes: Seq<usize>)
    requires
        start + sizes.len() * WINDOW_DURATION <= i64::MAX,
    ensures
        ({
            let fed = MetricsState::initial(start).fed_spaced(sizes);
            &&& fed.sealed.len() == if sizes.len() <= NUM_WINDOWS {
                sizes.len()
            } else {
                NUM_WINDOWS as nat
            }
            &&& fed.current.start_time == start + sizes.len() * WINDOW_DURATION
            &&& sizes.len() > 0 ==> fed.current == WindowedMetrics::empty_at(
                fed.current.start_time,
            ).received_settled(sizes.last(), fed.current.start_time)
            &&& sizes.len() > 0 ==> total(fed.sealed, Counter::Received) < sizes.len()
            &&& forall|i: int|
                0 <= i < fed.sealed.len() ==> (#[trigger] fed.sealed[i]).messages_received <= 1
            &&& 0 < sizes.len() <= NUM_WINDOWS ==> fed.sealed[0] == WindowedMetrics::empty_at(start)
        }),
    decreases sizes.len(),
{
    let fed = MetricsState::initial(start).fed_spaced(sizes);
    if sizes.len() > 0 {
        let earlier = sizes.drop_last();
        assert(earlier.len() * WINDOW_DURATION <= sizes.len() * WINDOW_DURATION);
        lemma_spaced_messages_seal_windows(start, earlier);
        let before = MetricsState::initial(start).fed_spaced(earlier);
        let timestamp = (before.current.start_time + WINDOW_DURATION) as i64;
        assert(before.current.start_time + WINDOW_DURATION == start + sizes.len()
            * WINDOW_DURATION);
        assert(before.current.ends_before(timestamp));
        assert(fed == before.received(sizes.last(), timestamp));
        assert(fed.sealed == push_bounded(before.sealed, NUM_WINDOWS as nat, before.current));
        assert(before.current.messages_received <= 1);
        assert forall|i: int| 0 <= i < fed.sealed.len() implies (
        #[trigger] fed.sealed[i]).messages_received <= 1 by {
            if before.sealed.len() < NUM_WINDOWS {
                if i < before.sealed.len() {
                    assert(fed.sealed[i] == before.sealed[i]);
                }
            } else {
                if i < before.sealed.len() - 1 {
                    assert(fed.sealed[i] == before.sealed[i + 1]);
                }
            }
        }
        lemma_total_of_single_messages(fed.sealed);
        if sizes.len() <= NUM_WINDOWS {
            if earlier.len() > 0 {
                assert(fed.sealed[0] == before.sealed[0]);
            }
        }
    }
}

} // verus!
