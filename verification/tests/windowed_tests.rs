use mqtt_subscriber::windowed::WindowedMetrics;
use mqtt_subscriber::windowed::RESET_THRESHOLD;
use mqtt_subscriber::windowed::TIME_RESET_THRESHOLD;

#[test]
fn new_window_has_recorded_nothing() {
    let window = WindowedMetrics::new(42);
    assert_eq!(window.start_time, 42);
    assert_eq!(window.end_time, 42);
    assert_eq!(window.messages_received, 0);
    assert_eq!(window.messages_processed, 0);
    assert_eq!(window.messages_dropped, 0);
    assert_eq!(window.processing_errors, 0);
    assert_eq!(window.total_message_size, 0);
    assert_eq!(window.total_processing_time, 0);
    assert_eq!(window.max_message_size, 0);
    assert_eq!(window.max_processing_time, 0);
}

#[test]
fn received_messages_are_counted_and_sized() {
    let mut window = WindowedMetrics::new(0);
    window.record_message_received(100, 5);
    window.record_message_received(300, 9);
    window.record_message_received(200, 7);
    assert_eq!(window.messages_received, 3);
    assert_eq!(window.total_message_size, 600);
    assert_eq!(window.max_message_size, 300);
    assert_eq!(window.end_time, 7);
    assert_eq!(window.start_time, 0);
}

#[test]
fn processed_messages_are_counted_and_timed() {
    let mut window = WindowedMetrics::new(0);
    window.record_message_processed(1_000);
    window.record_message_processed(5_000);
    window.record_message_processed(3_000);
    assert_eq!(window.messages_processed, 3);
    assert_eq!(window.total_processing_time, 9_000);
    assert_eq!(window.max_processing_time, 5_000);
    assert_eq!(window.messages_received, 0);
}

#[test]
fn drops_and_errors_are_counted_apart() {
    let mut window = WindowedMetrics::new(0);
    window.record_message_dropped();
    window.record_message_dropped();
    window.record_processing_error();
    assert_eq!(window.messages_dropped, 2);
    assert_eq!(window.processing_errors, 1);
}

#[test]
fn window_near_ceiling_is_told() {
    let mut window = WindowedMetrics::new(0);
    assert!(!window.is_near_ceiling());
    window.messages_received = RESET_THRESHOLD;
    assert!(!window.is_near_ceiling());
    window.messages_received = RESET_THRESHOLD + 1;
    assert!(window.is_near_ceiling());
    window.messages_received = 0;
    window.total_processing_time = TIME_RESET_THRESHOLD + 1;
    assert!(window.is_near_ceiling());
    window.total_processing_time = 0;
    window.processing_errors = usize::MAX;
    assert!(window.is_near_ceiling());
}

#[test]
fn reset_keeps_times_and_maxima() {
    let mut window = WindowedMetrics::new(10);
    window.record_message_received(64, 20);
    window.record_message_processed(7);
    window.record_message_dropped();
    window.record_processing_error();
    window.reset_counters();
    assert_eq!(window.messages_received, 0);
    assert_eq!(window.messages_processed, 0);
    assert_eq!(window.messages_dropped, 0);
    assert_eq!(window.processing_errors, 0);
    assert_eq!(window.total_message_size, 0);
    assert_eq!(window.total_processing_time, 0);
    assert_eq!(window.start_time, 10);
    assert_eq!(window.end_time, 20);
    assert_eq!(window.max_message_size, 64);
    assert_eq!(window.max_processing_time, 7);
}
