use mqtt_subscriber::api::format_timestamp;
use mqtt_subscriber::api::get_metrics;
use mqtt_subscriber::api::get_topics;
use mqtt_subscriber::api::health_check;
use mqtt_subscriber::api::metrics_response;
use mqtt_subscriber::api::subscribe_to_topic;
use mqtt_subscriber::api::unsubscribe_from_topic;
use mqtt_subscriber::api::ApiResponse;
use mqtt_subscriber::api::MetricsResponse;
use mqtt_subscriber::api::SubscribeRequest;
use mqtt_subscriber::api::INTERNAL_SERVER_ERROR;
use mqtt_subscriber::message_metrics::MessageMetrics;
use mqtt_subscriber::message_metrics::Throughput;
use mqtt_subscriber::message_metrics::WINDOW_DURATION;
use mqtt_subscriber::models::SensorData;
use mqtt_subscriber::subscriber::LinkOutcome;
use mqtt_subscriber::subscriber::MqttSubscriber;
use mqtt_subscriber::subscriber::QoS;
use mqtt_subscriber::subscriber::SubscriptionError;

const WINDOW: i64 = WINDOW_DURATION as i64;

#[test]
fn health_check_text() {
    assert_eq!(health_check(), "MQTT Subscriber is running");
}

#[test]
fn timestamps_are_written_as_iso_8601_utc() {
    assert_eq!(format_timestamp(0), "1970-01-01T00:00:00.000Z");
    assert_eq!(format_timestamp(1_431_648_000_000_000_000), "2015-05-15T00:00:00.000Z");
    assert_eq!(format_timestamp(1_662_921_288_123_456_789), "2022-09-11T18:34:48.123Z");
    assert_eq!(format_timestamp(-1), "1969-12-31T23:59:59.999Z");
    assert_eq!(format_timestamp(999_999), "1970-01-01T00:00:00.000Z");
    assert_eq!(format_timestamp(i64::MAX), "2262-04-11T23:47:16.854Z");
    assert_eq!(format_timestamp(i64::MIN), "1677-09-21T00:12:43.145Z");
}

#[test]
fn subscribe_answers() {
    assert_eq!(
        subscribe_to_topic("sensors/temp", Ok(())),
        Ok(ApiResponse { success: true, message: "Subscribed to topic: sensors/temp".to_string() })
    );
    assert_eq!(
        subscribe_to_topic("sensors/temp", Err(SubscriptionError::SubscribeRejected)),
        Err(500)
    );
    assert_eq!(
        subscribe_to_topic("t", Err(SubscriptionError::ConnectionFailed)),
        Err(INTERNAL_SERVER_ERROR)
    );
    assert_eq!(subscribe_to_topic("", Ok(())).unwrap().message, "Subscribed to topic: ");
}

#[test]
fn unsubscribe_answers() {
    assert_eq!(
        unsubscribe_from_topic("a/b", Ok(())),
        Ok(ApiResponse { success: true, message: "Unsubscribed from topic: a/b".to_string() })
    );
    assert_eq!(
        unsubscribe_from_topic("a/b", Err(SubscriptionError::UnsubscribeRejected)),
        Err(500)
    );
}

#[test]
fn topics_answer_lists_tracked_topics() {
    let request = SubscribeRequest { topic: "sensors/temp".to_string() };
    let mut subscriber = MqttSubscriber::new(QoS::AtMostOnce);
    assert!(get_topics(&subscriber).topics.is_empty());
    subscriber.subscribe(&request.topic);
    subscriber.subscribe_completed(&request.topic, LinkOutcome::Subscribed);
    assert_eq!(get_topics(&subscriber).topics, vec!["sensors/temp".to_string()]);
}

#[test]
fn metrics_answer_without_sealed_windows_is_empty() {
    let mut metrics = MessageMetrics::new(0);
    metrics.record_message_received(10, 1);
    assert_eq!(
        get_metrics(&metrics, 3),
        MetricsResponse {
            window_time_sec: 300,
            messages_received: 0,
            messages_processed: 0,
            messages_dropped: 0,
            processing_errors: 0,
            active_topics: 3,
            throughput: Throughput { messages: 0, span_nanos: 0 },
            average_message_size: 0,
            max_message_size: 0,
            average_processing_time: 0,
            max_processing_time: 0,
            last_message_time: None,
        }
    );
}

#[test]
fn metrics_answer_reports_sealed_windows() {
    let start = 1_431_648_000_000_000_000;
    let mut metrics = MessageMetrics::new(start);
    metrics.record_message_received(100, start + 1_000_000_000);
    metrics.record_message_received(50, start + 2_500_000_000);
    metrics.record_message_processed(4_000_000);
    metrics.record_message_processed(1_000_000);
    metrics.record_processing_error();
    metrics.record_message_dropped();
    metrics.record_message_received(30, start + WINDOW);
    metrics.record_message_processed(1_000_000);
    metrics.record_message_received(30, start + WINDOW + 30_000_000_000);
    metrics.record_message_received(1, start + 3 * WINDOW);
    let expected = MetricsResponse {
        window_time_sec: 300,
        messages_received: 4,
        messages_processed: 3,
        messages_dropped: 1,
        processing_errors: 1,
        active_topics: 2,
        throughput: Throughput { messages: 4, span_nanos: 90_000_000_000 },
        average_message_size: 52,
        max_message_size: 100,
        average_processing_time: 2_000_000,
        max_processing_time: 4_000_000,
        last_message_time: Some("2015-05-15T00:01:30.000Z".to_string()),
    };
    assert_eq!(get_metrics(&metrics, 2), expected);
    let given = metrics_response(&metrics, 2, Some("text".to_string()));
    assert_eq!(given.last_message_time, Some("text".to_string()));
    assert_eq!(given.messages_received, 4);
    assert_eq!(metrics_response(&metrics, 0, None).last_message_time, None);
}

#[test]
fn sensor_data_holds_its_fields() {
    let data = SensorData {
        sensor_id: "s-1".to_string(),
        message: "21.5".to_string(),
        sensor_timestamp: 1_700_000_000_000_000_000,
    };
    assert_eq!(data.clone(), data);
    assert_eq!(data.sensor_id, "s-1");
}

#[test]
fn unsubscribe_from_untracked_topic_is_answered_with_success() {
    let subscriber = MqttSubscriber::new(QoS::AtMostOnce);
    let result = subscriber.unsubscribe("nowhere").result().unwrap();
    assert_eq!(
        unsubscribe_from_topic("nowhere", result),
        Ok(ApiResponse { success: true, message: "Unsubscribed from topic: nowhere".to_string() })
    );
    assert!(get_topics(&subscriber).topics.is_empty());
}
