use mqtt_subscriber::message_metrics::MessageMetrics;
use mqtt_subscriber::message_metrics::Throughput;
use mqtt_subscriber::message_metrics::NUM_WINDOWS;
use mqtt_subscriber::message_metrics::WINDOW_DURATION;

const SECOND: i64 = 1_000_000_000;
const WINDOW: i64 = WINDOW_DURATION as i64;

fn rate(throughput: Throughput) -> f64 {
    if throughput.span_nanos == 0 {
        0.0
    } else {
        throughput.messages as f64 / (throughput.span_nanos as f64 / 1e9)
    }
}

#[test]
fn constants_are_a_minute_and_five_windows() {
    assert_eq!(WINDOW_DURATION, 60_000_000_000);
    assert_eq!(NUM_WINDOWS, 5);
    assert_eq!(MessageMetrics::new(0).window_time_sec(), 300);
}

#[test]
fn fresh_metrics_read_as_zero() {
    let metrics = MessageMetrics::new(1_000);
    assert_eq!(metrics.window_messages_received(), 0);
    assert_eq!(metrics.window_messages_processed(), 0);
    assert_eq!(metrics.window_messages_dropped(), 0);
    assert_eq!(metrics.window_processing_errors(), 0);
    assert_eq!(metrics.window_max_message_size(), 0);
    assert_eq!(metrics.window_average_message_size(), 0);
    assert_eq!(metrics.window_max_processing_time(), 0);
    assert_eq!(metrics.window_average_processing_time(), 0);
    assert_eq!(metrics.window_last_message_time(), None);
    assert_eq!(metrics.window_throughput(), Throughput { messages: 0, span_nanos: 0 });
}

#[test]
fn current_window_is_excluded_from_reads() {
    let mut metrics = MessageMetrics::new(0);
    metrics.record_message_received(120, SECOND);
    metrics.record_message_processed(5_000);
    metrics.record_message_dropped();
    metrics.record_processing_error();
    assert_eq!(metrics.window_messages_received(), 0);
    assert_eq!(metrics.window_messages_processed(), 0);
    assert_eq!(metrics.window_messages_dropped(), 0);
    assert_eq!(metrics.window_processing_errors(), 0);
    assert_eq!(metrics.window_max_message_size(), 0);
    assert_eq!(metrics.window_max_processing_time(), 0);
    assert_eq!(metrics.window_last_message_time(), None);
    metrics.record_message_received(10, WINDOW);
    assert_eq!(metrics.window_messages_received(), 1);
    assert_eq!(metrics.window_messages_processed(), 1);
    assert_eq!(metrics.window_messages_dropped(), 1);
    assert_eq!(metrics.window_processing_errors(), 1);
    assert_eq!(metrics.window_max_message_size(), 120);
    assert_eq!(metrics.window_average_message_size(), 120);
    assert_eq!(metrics.window_max_processing_time(), 5_000);
    assert_eq!(metrics.window_average_processing_time(), 5_000);
    assert_eq!(metrics.window_last_message_time(), Some(SECOND));
}

#[test]
fn window_rotates_exactly_at_its_length() {
    let mut metrics = MessageMetrics::new(0);
    metrics.record_message_received(1, WINDOW - 1);
    assert_eq!(metrics.window_last_message_time(), None);
    metrics.record_message_received(1, WINDOW);
    assert_eq!(metrics.window_last_message_time(), Some(WINDOW - 1));
    assert_eq!(metrics.window_messages_received(), 1);
}

#[test]
fn message_from_the_past_does_not_rotate() {
    let mut metrics = MessageMetrics::new(10 * WINDOW);
    metrics.record_message_received(1, 0);
    assert_eq!(metrics.window_last_message_time(), None);
    metrics.record_message_received(1, 11 * WINDOW);
    assert_eq!(metrics.window_messages_received(), 1);
    assert_eq!(metrics.window_last_message_time(), Some(0));
}

#[test]
fn spaced_messages_seal_min_k_n_windows() {
    for k in 0..12usize {
        let mut metrics = MessageMetrics::new(0);
        for step in 1..=k {
            metrics.record_message_received(100 + step, step as i64 * WINDOW);
        }
        let sealed = if k < NUM_WINDOWS { k } else { NUM_WINDOWS };
        let counted = if k == 0 {
            0
        } else if k - 1 < NUM_WINDOWS {
            k - 1
        } else {
            NUM_WINDOWS
        };
        assert_eq!(metrics.window_messages_received(), counted);
        if sealed == 0 {
            assert_eq!(metrics.window_last_message_time(), None);
            assert_eq!(metrics.window_max_message_size(), 0);
        } else if k == 1 {
            assert_eq!(metrics.window_last_message_time(), Some(0));
            assert_eq!(metrics.window_max_message_size(), 0);
        } else {
            assert_eq!(metrics.window_last_message_time(), Some((k as i64 - 1) * WINDOW));
            assert_eq!(metrics.window_max_message_size(), 100 + k - 1);
        }
    }
}

#[test]
fn throughput_with_one_sealed_window_is_zero() {
    let mut metrics = MessageMetrics::new(0);
    for second in 0..60 {
        metrics.record_message_received(10, second * SECOND);
    }
    metrics.record_message_received(10, WINDOW);
    assert_eq!(metrics.window_messages_received(), 60);
    let throughput = metrics.window_throughput();
    assert_eq!(throughput, Throughput { messages: 0, span_nanos: 0 });
    assert_eq!(rate(throughput), 0.0);
}

#[test]
fn throughput_over_two_windows_spanning_120s_with_240_messages_is_two() {
    let mut metrics = MessageMetrics::new(0);
    for step in 0..120 {
        metrics.record_message_received(10, step * SECOND / 2);
    }
    for step in 0..119 {
        metrics.record_message_received(10, 70 * SECOND + step * SECOND / 3);
    }
    metrics.record_message_received(10, 120 * SECOND);
    assert_eq!(metrics.window_throughput(), Throughput { messages: 0, span_nanos: 0 });
    metrics.record_message_received(10, 200 * SECOND);
    assert_eq!(metrics.window_messages_received(), 240);
    let throughput = metrics.window_throughput();
    assert_eq!(throughput, Throughput { messages: 240, span_nanos: 120_000_000_000 });
    assert_eq!(rate(throughput), 2.0);
}

#[test]
fn throughput_is_zero_when_windows_span_less_than_a_second() {
    let mut metrics = MessageMetrics::new(5 * WINDOW);
    metrics.record_message_received(1, 6 * WINDOW);
    metrics.record_message_received(1, 0);
    metrics.record_message_received(1, 7 * WINDOW);
    assert_eq!(metrics.window_messages_received(), 2);
    assert_eq!(metrics.window_last_message_time(), Some(0));
    assert_eq!(metrics.window_throughput(), Throughput { messages: 0, span_nanos: 0 });
}

#[test]
fn averages_are_whole_quotients() {
    let mut metrics = MessageMetrics::new(0);
    metrics.record_message_received(10, 1);
    metrics.record_message_received(15, 2);
    metrics.record_message_processed(100);
    metrics.record_message_received(30, WINDOW);
    metrics.record_message_processed(301);
    metrics.record_message_processed(2);
    metrics.record_message_received(1, 2 * WINDOW);
    assert_eq!(metrics.window_messages_received(), 3);
    assert_eq!(metrics.window_average_message_size(), 18);
    assert_eq!(metrics.window_max_message_size(), 30);
    assert_eq!(metrics.window_messages_processed(), 3);
    assert_eq!(metrics.window_average_processing_time(), 134);
    assert_eq!(metrics.window_max_processing_time(), 301);
}

#[test]
fn oldest_window_leaves_the_totals() {
    let mut metrics = MessageMetrics::new(0);
    for _ in 0..7 {
        metrics.record_message_received(1000, 1);
    }
    for step in 1..=5 {
        metrics.record_message_received(1, step * WINDOW);
    }
    assert_eq!(metrics.window_messages_received(), 7 + 4);
    assert_eq!(metrics.window_max_message_size(), 1000);
    metrics.record_message_received(1, 6 * WINDOW);
    assert_eq!(metrics.window_messages_received(), 5);
    assert_eq!(metrics.window_max_message_size(), 1);
}

#[test]
fn oversized_message_resets_counters_and_keeps_maximum() {
    let mut metrics = MessageMetrics::new(0);
    metrics.record_message_received(10, 1);
    metrics.record_message_processed(7);
    metrics.record_message_dropped();
    metrics.record_message_received(usize::MAX, 2);
    metrics.record_message_received(3, WINDOW);
    assert_eq!(metrics.window_messages_received(), 0);
    assert_eq!(metrics.window_messages_processed(), 0);
    assert_eq!(metrics.window_messages_dropped(), 0);
    assert_eq!(metrics.window_average_message_size(), 0);
    assert_eq!(metrics.window_max_message_size(), usize::MAX);
    assert_eq!(metrics.window_max_processing_time(), 7);
    assert_eq!(metrics.window_last_message_time(), Some(2));
}

#[test]
fn processing_time_near_ceiling_resets_counters() {
    let mut metrics = MessageMetrics::new(0);
    metrics.record_message_received(10, 1);
    metrics.record_message_processed(u64::MAX - 1000);
    metrics.record_message_received(10, 2);
    metrics.record_message_processed(1);
    metrics.record_message_received(10, WINDOW);
    assert_eq!(metrics.window_messages_received(), 0);
    assert_eq!(metrics.window_messages_processed(), 0);
    assert_eq!(metrics.window_max_processing_time(), u64::MAX - 1000);
    assert_eq!(metrics.window_max_message_size(), 10);
}

#[test]
fn check_and_reset_leaves_settled_metrics_alone() {
    let mut metrics = MessageMetrics::new(0);
    metrics.record_message_received(10, 1);
    metrics.check_and_reset_if_needed();
    metrics.record_message_received(10, WINDOW);
    assert_eq!(metrics.window_messages_received(), 1);
    assert_eq!(metrics.window_average_message_size(), 10);
}

#[test]
fn averages_never_exceed_maxima() {
    let mut metrics = MessageMetrics::new(0);
    let sizes = [0usize, 1, 7, 1000, 3, usize::MAX / 2, 5, 5, 9];
    for (step, size) in sizes.iter().enumerate() {
        let at = step as i64 * WINDOW / 2;
        metrics.record_message_received(*size, at);
        metrics.record_message_processed(step as u64 * 17 + 1);
        assert!(metrics.window_average_message_size() <= metrics.window_max_message_size());
        assert!(metrics.window_average_processing_time() <= metrics.window_max_processing_time());
    }
    assert_eq!(metrics.window_messages_received(), 8);
}

#[test]
fn reset_starts_over() {
    let mut metrics = MessageMetrics::new(0);
    metrics.record_message_received(10, 1);
    metrics.record_message_received(10, WINDOW);
    assert_eq!(metrics.window_messages_received(), 1);
    metrics.reset(5 * WINDOW);
    assert_eq!(metrics.window_messages_received(), 0);
    assert_eq!(metrics.window_last_message_time(), None);
    metrics.record_message_received(3, 5 * WINDOW + 1);
    metrics.record_message_received(3, 6 * WINDOW);
    assert_eq!(metrics.window_messages_received(), 1);
    assert_eq!(metrics.window_last_message_time(), Some(5 * WINDOW + 1));
}
