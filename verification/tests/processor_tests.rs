use mqtt_subscriber::message_metrics::MessageMetrics;
use mqtt_subscriber::message_metrics::WINDOW_DURATION;
use mqtt_subscriber::models::MqttMessage;
use mqtt_subscriber::processor::hand_off;
use mqtt_subscriber::processor::handle_event;
use mqtt_subscriber::processor::process_message;
use mqtt_subscriber::processor::record_arrival;
use mqtt_subscriber::processor::record_handoff_failure;
use mqtt_subscriber::processor::record_outcome;
use mqtt_subscriber::processor::Admission;
use mqtt_subscriber::processor::InboundEvent;
use mqtt_subscriber::processor::PollAction;
use mqtt_subscriber::processor::PROCESSING_SLOTS;
use mqtt_subscriber::producer::Handshake;
use mqtt_subscriber::producer::KafkaProducer;
use mqtt_subscriber::producer::SinkError;
use mqtt_subscriber::producer::Unavailable;
use mqtt_subscriber::subscriber::ConnectionState;
use mqtt_subscriber::subscriber::LinkOutcome;
use mqtt_subscriber::subscriber::MqttSubscriber;
use mqtt_subscriber::subscriber::QoS;
use mqtt_subscriber::subscriber::SubscribeStep;

const WINDOW: i64 = WINDOW_DURATION as i64;

fn sink(connected: bool) -> KafkaProducer {
    KafkaProducer::new(
        "localhost:9092",
        "smartlab-data",
        "smartlab-subscriber-metrics",
        Handshake { connected, available_topics: vec!["smartlab-data".to_string()] },
    )
}

fn message(size: usize, timestamp: i64) -> MqttMessage {
    MqttMessage {
        topic: "sensors/temp".to_string(),
        payload: vec![7u8; size],
        qos: QoS::AtMostOnce,
        retain: false,
        received_at: 1,
        timestamp,
    }
}

fn counts(metrics: &MessageMetrics) -> (usize, usize, usize, usize) {
    (
        metrics.window_messages_received(),
        metrics.window_messages_processed(),
        metrics.window_messages_dropped(),
        metrics.window_processing_errors(),
    )
}

#[test]
fn publish_becomes_an_envelope() {
    let mut subscriber = MqttSubscriber::new(QoS::AtMostOnce);
    let action = handle_event(
        &mut subscriber,
        InboundEvent::Publish {
            topic: "sensors/temp".to_string(),
            payload: vec![1, 2, 3],
            qos: QoS::ExactlyOnce,
            retain: true,
        },
        77,
        1_700_000_000_000_000_000,
    );
    assert_eq!(
        action,
        PollAction::Dispatch(MqttMessage {
            topic: "sensors/temp".to_string(),
            payload: vec![1, 2, 3],
            qos: QoS::ExactlyOnce,
            retain: true,
            received_at: 77,
            timestamp: 1_700_000_000_000_000_000,
        })
    );
    assert!(!subscriber.is_connected());
}

#[test]
fn acknowledgement_raises_health_and_error_asks_for_reconnect() {
    let mut subscriber = MqttSubscriber::new(QoS::AtMostOnce);
    subscriber.subscribe("a");
    subscriber.subscribe_completed("a", LinkOutcome::Subscribed);
    assert_eq!(handle_event(&mut subscriber, InboundEvent::ConnAck, 0, 0), PollAction::Continue);
    assert!(subscriber.is_connected());
    assert_eq!(
        handle_event(&mut subscriber, InboundEvent::Error, 0, 0),
        PollAction::Reconnect { delay_secs: 5 }
    );
    assert!(!subscriber.is_connected());
    assert_eq!(subscriber.connection_state(), ConnectionState::Reconnecting);
    assert_eq!(subscriber.resubscribe_to_topics(), vec!["a".to_string()]);
    assert_eq!(handle_event(&mut subscriber, InboundEvent::Incoming, 0, 0), PollAction::Continue);
    assert_eq!(handle_event(&mut subscriber, InboundEvent::Outgoing, 0, 0), PollAction::Continue);
    assert!(!subscriber.is_connected());
    assert_eq!(handle_event(&mut subscriber, InboundEvent::ConnAck, 0, 0), PollAction::Continue);
    assert_eq!(subscriber.connection_state(), ConnectionState::Connected);
}

#[test]
fn end_to_end_delivered_message_is_counted_once() {
    let mut subscriber = MqttSubscriber::new(QoS::AtMostOnce);
    let mut metrics = MessageMetrics::new(0);
    let mut producer = sink(true);
    assert_eq!(subscriber.subscribe("sensors/temp"), SubscribeStep::Connect);
    assert!(subscriber.subscribe_completed("sensors/temp", LinkOutcome::Subscribed).result.is_ok());
    let at = 5_000_000_000;
    let action = handle_event(
        &mut subscriber,
        InboundEvent::Publish {
            topic: "sensors/temp".to_string(),
            payload: vec![1u8; 120],
            qos: QoS::AtMostOnce,
            retain: false,
        },
        1,
        at,
    );
    let envelope = match action {
        PollAction::Dispatch(envelope) => envelope,
        _ => panic!("a publish is dispatched"),
    };
    record_arrival(&mut metrics, &envelope);
    let record = process_message(&envelope, &producer).unwrap();
    assert_eq!(record.topic, "smartlab-data");
    assert_eq!(record.payload, vec![1u8; 120]);
    assert_eq!(producer.on_send_result(true), Ok(()));
    record_outcome(&mut metrics, true, 2_500);
    assert_eq!(counts(&metrics), (0, 0, 0, 0));
    metrics.record_message_received(1, at + WINDOW);
    assert_eq!(counts(&metrics), (1, 1, 0, 0));
    assert!(metrics.window_max_message_size() >= 120);
    assert_eq!(metrics.window_max_message_size(), 120);
    assert_eq!(metrics.window_max_processing_time(), 2_500);
}

#[test]
fn end_to_end_failed_message_is_counted_as_error_and_drop() {
    let mut metrics = MessageMetrics::new(0);
    let mut producer = sink(true);
    let envelope = message(120, 5);
    record_arrival(&mut metrics, &envelope);
    assert!(process_message(&envelope, &producer).is_ok());
    assert_eq!(producer.on_send_result(false), Err(SinkError::SinkSendFailure));
    record_outcome(&mut metrics, false, 9);
    metrics.record_message_received(1, WINDOW);
    assert_eq!(counts(&metrics), (1, 1, 1, 1));
    let next = message(10, WINDOW + 1);
    record_arrival(&mut metrics, &next);
    assert_eq!(
        process_message(&next, &producer),
        Err(SinkError::SinkUnavailable(Unavailable::KnownDisconnected))
    );
    record_outcome(&mut metrics, false, 1);
    metrics.record_message_received(1, 2 * WINDOW);
    assert_eq!(counts(&metrics), (3, 2, 2, 2));
}

#[test]
fn handoff_failure_is_received_and_dropped() {
    let mut metrics = MessageMetrics::new(0);
    record_handoff_failure(&mut metrics, &message(50, 3));
    record_handoff_failure(&mut metrics, &message(70, 4));
    metrics.record_message_received(1, WINDOW);
    assert_eq!(counts(&metrics), (2, 0, 2, 0));
    assert_eq!(metrics.window_max_message_size(), 70);
    assert_eq!(metrics.window_average_message_size(), 60);
}

#[test]
fn unknown_sensor_topic_turns_message_away() {
    let producer = KafkaProducer::new(
        "b",
        "missing",
        "m",
        Handshake { connected: true, available_topics: vec!["m".to_string()] },
    );
    assert_eq!(
        process_message(&message(1, 0), &producer),
        Err(SinkError::SinkUnavailable(Unavailable::UnknownTopic))
    );
}

#[test]
fn saturated_processing_drops_and_counts() {
    assert_eq!(PROCESSING_SLOTS, 100);
    let mut admission = Admission::new(2);
    let mut metrics = MessageMetrics::new(0);
    assert_eq!(hand_off(&mut admission, &mut metrics, message(10, 1)), Some(message(10, 1)));
    assert_eq!(hand_off(&mut admission, &mut metrics, message(20, 2)), Some(message(20, 2)));
    assert_eq!(admission.processing(), 2);
    assert_eq!(hand_off(&mut admission, &mut metrics, message(30, 3)), None);
    assert_eq!(admission.processing(), 2);
    admission.release();
    assert_eq!(admission.processing(), 1);
    assert_eq!(hand_off(&mut admission, &mut metrics, message(40, 4)), Some(message(40, 4)));
    metrics.record_message_received(1, WINDOW);
    assert_eq!(counts(&metrics), (1, 0, 1, 0));
    assert_eq!(metrics.window_max_message_size(), 30);
}

#[test]
fn admission_without_slots_drops_everything() {
    let mut admission = Admission::new(0);
    let mut metrics = MessageMetrics::new(0);
    assert_eq!(hand_off(&mut admission, &mut metrics, message(5, 1)), None);
    admission.release();
    assert_eq!(admission.processing(), 0);
    assert_eq!(hand_off(&mut admission, &mut metrics, message(5, 2)), None);
    metrics.record_message_received(1, WINDOW);
    assert_eq!(counts(&metrics), (2, 0, 2, 0));
}
