//! What the administrative interface takes and gives.
//!
//! Each request maps onto one operation of the bridge. What is answered is
//! made here from how the operation went: an acknowledgement where it
//! succeeded, a status code where it failed.

use crate::message_metrics::Counter;
use crate::message_metrics::MessageMetrics;
use crate::message_metrics::MetricsState;
use crate::message_metrics::Throughput;
use crate::message_metrics::clamp_u64;
use crate::message_metrics::clamp_usize;
use crate::message_metrics::largest_size;
use crate::message_metrics::longest_time;
use crate::message_metrics::total;
use crate::subscriber::MqttSubscriber;
use crate::subscriber::SubscriptionError;
use vstd::prelude::*;
use vstd::string::StringExecFns;

verus! {

/// The status code that is answered when an operation failed.
pub const INTERNAL_SERVER_ERROR: u16 = 500;

/// Request for subscribing to a topic.
#[derive(Debug, Clone, PartialEq, Eq)]
pub struct SubscribeRequest {
    /// Topic to subscribe to.
    pub topic: String,
}

/// Standard response.
#[derive(Debug, Clone, PartialEq, Eq)]
pub struct ApiResponse {
    /// Whether the operation was successful.
    pub success: bool,
    /// Response message.
    pub message: String,
}

/// Response for the topics endpoint.
#[derive(Debug, Clone, PartialEq, Eq)]
pub struct TopicsResponse {
    /// List of subscribed topics.
    pub topics: Vec<String>,
}

/// Response for the metrics endpoint. Every figure but the number of active
/// topics is taken from the sealed windows alone.
#[derive(Debug, Clone, PartialEq, Eq)]
pub struct MetricsResponse {
    /// The time that the sealed windows cover at most, in seconds.
    pub window_time_sec: u64,
    /// Total number of messages received.
    pub messages_received: usize,
    /// Total number of messages processed.
    pub messages_processed: usize,
    /// Number of messages dropped.
    pub messages_dropped: usize,
    /// Number of processing errors.
    pub processing_errors: usize,
    /// Number of active topics.
    pub active_topics: usize,
    /// Messages and the time they came in; their quotient is the throughput.
    pub throughput: Throughput,
    /// Average message size in bytes.
    pub average_message_size: usize,
    /// Maximum message size in bytes.
    pub max_message_size: usize,
    /// Average message processing time in nanoseconds.
    pub average_processing_time: u64,
    /// Maximum processing time in nanoseconds.
    pub max_processing_time: u64,
    /// End of the latest sealed window as ISO 8601 text, if there is one.
    pub last_message_time: Option<String>,
}

/// The pattern in which a point in time is written: ISO 8601 with
/// milliseconds, in UTC.
pub open spec fn timestamp_pattern() -> Seq<char> {
    "%Y-%m-%dT%H:%M:%S%.3fZ"@
}

/// The text that `chrono` writes for the point in time `nanos` nanoseconds
/// from the Unix epoch, in UTC, after `pattern`.
pub uninterp spec fn utc_timestamp_text(nanos: i64, pattern: Seq<char>) -> Seq<char>;

/// Calls `chrono::DateTime::from_timestamp_nanos`, then `format` with the
/// pattern and `to_string` on what that gave. Trusted: the text depends on
/// the point in time and the pattern alone. The one pattern that is let
/// through is well-formed, so writing the text does not fail.
#[verifier::external_body]
fn format_utc_timestamp(nanos: i64, pattern: &str) -> (text: String)
    requires
        pattern@ == timestamp_pattern(),
    ensures
        text@ == utc_timestamp_text(nanos, pattern@),
{
    chrono::DateTime::from_timestamp_nanos(nanos).format(pattern).to_string()
}

/// Write a point in time, given in nanoseconds since the Unix epoch, as
/// ISO 8601 text with milliseconds, in UTC.
pub fn format_timestamp(nanos: i64) -> (text: String)
    ensures
        text@ == utc_timestamp_text(nanos, timestamp_pattern()),
{
    format_utc_timestamp(nanos, "%Y-%m-%dT%H:%M:%S%.3fZ")
}

impl MetricsResponse {
    /// Whether the figures of this response are those of `state` with
    /// `active_topics` topics tracked. The text of the last message time is
    /// left aside.
    pub open spec fn reports(self, state: MetricsState, active_topics: usize) -> bool {
        &&& self.window_time_sec == 300
        &&& self.messages_received == clamp_usize(total(state.sealed, Counter::Received))
        &&& self.messages_processed == clamp_usize(total(state.sealed, Counter::Processed))
        &&& self.messages_dropped == clamp_usize(total(state.sealed, Counter::Dropped))
        &&& self.processing_errors == clamp_usize(total(state.sealed, Counter::Errors))
        &&& self.active_topics == active_topics
        &&& self.throughput == state.throughput()
        &&& self.average_message_size == clamp_usize(state.average_size())
        &&& self.max_message_size == largest_size(state.sealed)
        &&& self.average_processing_time == clamp_u64(state.average_time())
        &&& self.max_processing_time == longest_time(state.sealed)
    }
}

/// Health check: the text that says the service runs.
pub fn health_check() -> (text: &'static str)
    ensures
        text@ == "MQTT Subscriber is running"@,
{
    "MQTT Subscriber is running"
}

/// Get a list of all subscribed topics.
pub fn get_topics(subscriber: &MqttSubscriber) -> (response: TopicsResponse)
    requires
        subscriber.wf(),
    ensures
        response.topics.deep_view().no_duplicates(),
        response.topics.deep_view().to_set() == subscriber@.topics,
{
    TopicsResponse { topics: subscriber.get_topics() }
}

/// Answer a subscribe to `topic` that ended in `result`.
pub fn subscribe_to_topic(topic: &str, result: Result<(), SubscriptionError>) -> (response: Result<
    ApiResponse,
    u16,
>)
    ensures
        match result {
            Ok(_) => response matches Ok(answer) && answer.success && answer.message@
                == "Subscribed to topic: "@ + topic@,
            Err(_) => response == Err::<ApiResponse, u16>(INTERNAL_SERVER_ERROR),
        },
{
    match result {
        Ok(_) => {
            let mut message: String = "Subscribed to topic: ".to_owned();
            message.append(topic);
            Ok(ApiResponse { success: true, message })
        },
        Err(_) => Err(INTERNAL_SERVER_ERROR),
    }
}

/// Answer an unsubscribe from `topic` that ended in `result`.
pub fn unsubscribe_from_topic(topic: &str, result: Result<(), SubscriptionError>) -> (response:
    Result<ApiResponse, u16>)
    ensures
        match result {
            Ok(_) => response matches Ok(answer) && answer.success && answer.message@
                == "Unsubscribed from topic: "@ + topic@,
            Err(_) => response == Err::<ApiResponse, u16>(INTERNAL_SERVER_ERROR),
        },
{
    match result {
        Ok(_) => {
            let mut message: String = "Unsubscribed from topic: ".to_owned();
            message.append(topic);
            Ok(ApiResponse { success: true, message })
        },
        Err(_) => Err(INTERNAL_SERVER_ERROR),
    }
}

/// Make the metrics response from the sealed windows, the number of tracked
/// topics and the text of the last message time.
pub fn metrics_response(
    metrics: &MessageMetrics,
    active_topics: usize,
    last_message_time: Option<String>,
) -> (response: MetricsResponse)
    requires
        metrics.wf(),
    ensures
        response.reports(metrics@, active_topics),
        response.last_message_time == last_message_time,
{
    MetricsResponse {
        window_time_sec: metrics.window_time_sec(),
        messages_received: metrics.window_messages_received(),
        messages_processed: metrics.window_messages_processed(),
        messages_dropped: metrics.window_messages_dropped(),
        processing_errors: metrics.window_processing_errors(),
        active_topics,
        throughput: metrics.window_throughput(),
        average_message_size: metrics.window_average_message_size(),
        max_message_size: metrics.window_max_message_size(),
        average_processing_time: metrics.window_average_processing_time(),
        max_processing_time: metrics.window_max_processing_time(),
        last_message_time,
    }
}

/// Get service metrics. The figures come from the sealed windows alone, so
/// they are at most one window length old. The last message time is the end
/// of the latest sealed window, written as ISO 8601 text, and absent while no
/// window is sealed.
pub fn get_metrics(metrics: &MessageMetrics, active_topics: usize) -> (response: MetricsResponse)
    requires
        metrics.wf(),
    ensures
        response.reports(metrics@, active_topics),
        match response.last_message_time {
            Some(text) => metrics@.sealed.len() > 0 && text@ == utc_timestamp_text(
                metrics@.sealed.last().end_time,
                timestamp_pattern(),
            ),
            None => metrics@.sealed.len() == 0,
        },
{
    let last_message_time: Option<String> = match metrics.window_last_message_time() {
        Some(time) => Some(format_timestamp(time)),
        None => None,
    };
    metrics_response(metrics, active_topics, last_message_time)
}

} // verus!
