//! The inbound path: from what the transport delivers to what is counted.
//!
//! The loop that polls the transport asks `handle_event` what each event
//! means. A published message becomes an envelope, and `hand_off` decides
//! at once whether a processing unit may take it: admission is bounded, and a
//! message that finds processing saturated is dropped and counted as such, so
//! that polling never waits. A processing unit counts the message as
//! received, asks the sink for the record to send, and counts how that ended.
//! Each envelope is counted as received once, and once as processed or as
//! dropped at the handoff.

use crate::message_metrics::MessageMetrics;
use crate::message_metrics::MetricsState;
use crate::models::MqttMessage;
use crate::producer::KafkaProducer;
use crate::producer::OutboundRecord;
use crate::producer::SinkError;
use crate::subscriber::MqttSubscriber;
use crate::subscriber::QoS;
use crate::subscriber::RECONNECT_DELAY_SECS;
use crate::windowed::WindowedMetrics;
use vstd::prelude::*;

verus! {

/// What one poll of the transport gave.
#[derive(Debug, Clone, PartialEq, Eq)]
pub enum InboundEvent {
    /// A message was published on a subscribed topic.
    Publish { topic: String, payload: Vec<u8>, qos: QoS, retain: bool },
    /// The broker acknowledged the connection.
    ConnAck,
    /// Another packet came from the broker.
    Incoming,
    /// A packet went out to the broker.
    Outgoing,
    /// The transport failed.
    Error,
}

/// What the polling loop has to do about an event.
#[derive(Debug, Clone, PartialEq, Eq)]
pub enum PollAction {
    /// Hand the message to a processing unit without waiting.
    Dispatch(MqttMessage),
    /// Go on polling.
    Continue,
    /// Wait `delay_secs` seconds, subscribe again to every tracked topic,
    /// then go on polling.
    Reconnect { delay_secs: u64 },
}

/// Decide what an event from the transport means. A published message is
/// put into an envelope with the two times given. An acknowledgement raises
/// the health flag. A transport error lowers it and asks for a reconnect
/// after the fixed delay; it is never fatal. Nothing else changes anything.
pub fn handle_event(
    subscriber: &mut MqttSubscriber,
    event: InboundEvent,
    received_at: u64,
    timestamp: i64,
) -> (action: PollAction)
    requires
        old(subscriber).wf(),
    ensures
        final(subscriber).wf(),
        match event {
            InboundEvent::Publish { topic, payload, qos, retain } => {
                &&& final(subscriber)@ == old(subscriber)@
                &&& action == PollAction::Dispatch(
                    MqttMessage { topic, payload, qos, retain, received_at, timestamp },
                )
            },
            InboundEvent::ConnAck => {
                &&& final(subscriber)@ == old(subscriber)@.with_status(true)
                &&& action == PollAction::Continue
            },
            InboundEvent::Error => {
                &&& final(subscriber)@ == old(subscriber)@.with_status(false)
                &&& action == (PollAction::Reconnect { delay_secs: RECONNECT_DELAY_SECS })
            },
            _ => {
                &&& final(subscriber)@ == old(subscriber)@
                &&& action == PollAction::Continue
            },
        },
{
    match event {
        InboundEvent::Publish { topic, payload, qos, retain } => PollAction::Dispatch(
            MqttMessage { topic, payload, qos, retain, received_at, timestamp },
        ),
        InboundEvent::ConnAck => {
            subscriber.update_connection_status(true);
            PollAction::Continue
        },
        InboundEvent::Error => {
            subscriber.update_connection_status(false);
            PollAction::Reconnect { delay_secs: RECONNECT_DELAY_SECS }
        },
        InboundEvent::Incoming => PollAction::Continue,
        InboundEvent::Outgoing => PollAction::Continue,
    }
}

impl MetricsState {
    /// The state after a message could not be handed to a processing unit:
    /// it is counted as received and as dropped.
    pub open spec fn dropped_at_handoff(self, size: usize, timestamp: i64) -> MetricsState {
        self.received(size, timestamp).dropped()
    }

    /// The state after a processing unit is done with a message: it is
    /// counted as processed, and as an error and as dropped too where it was
    /// not delivered.
    pub open spec fn outcome_recorded(self, delivered: bool, processing_time: u64) -> MetricsState {
        if delivered {
            self.processed(processing_time)
        } else {
            self.processed(processing_time).errored().dropped()
        }
    }
}

/// How many messages may be in processing at once unless told otherwise.
pub const PROCESSING_SLOTS: usize = 100;

/// The bounded admission to processing: no more than `capacity` messages are
/// in processing at once.
#[derive(Debug, Clone, Copy, PartialEq, Eq)]
pub struct Admission {
    capacity: usize,
    in_flight: usize,
}

impl Admission {
    /// The largest number of messages in processing at once.
    pub closed spec fn capacity(&self) -> nat {
        self.capacity as nat
    }

    /// The number of messages in processing.
    pub closed spec fn in_flight(&self) -> nat {
        self.in_flight as nat
    }

    /// No more messages are in processing than may be.
    pub open spec fn wf(&self) -> bool {
        self.in_flight() <= self.capacity()
    }

    /// Whether one more message can be taken in at once.
    pub open spec fn has_room(&self) -> bool {
        self.in_flight() < self.capacity()
    }

    /// An admission with nothing in processing.
    pub fn new(capacity: usize) -> (admission: Self)
        ensures
            admission.wf(),
            admission.capacity() == capacity,
            admission.in_flight() == 0,
    {
        Admission { capacity, in_flight: 0 }
    }

    /// Tell how many messages are in processing.
    pub fn processing(&self) -> (count: usize)
        ensures
            count == self.in_flight(),
    {
        self.in_flight
    }

    /// A processing unit is done with its message.
    pub fn release(&mut self)
        ensures
            final(self).capacity() == old(self).capacity(),
            final(self).in_flight() == if old(self).in_flight() > 0 {
                old(self).in_flight() - 1
            } else {
                0
            },
            old(self).wf() ==> final(self).wf(),
    {
        if self.in_flight > 0 {
            self.in_flight = self.in_flight - 1;
        }
    }
}

/// Hand a message over to processing without waiting. While there is room
/// the message is given back for a processing unit to take, and counts as in
/// processing until it is released. Where processing is saturated the message
/// is dropped: it is counted as received and as dropped, and nothing is
/// given back.
pub fn hand_off(admission: &mut Admission, metrics: &mut MessageMetrics, message: MqttMessage) -> (
    admitted: Option<MqttMessage>)
    requires
        old(metrics).wf(),
    ensures
        final(metrics).wf(),
        old(admission).wf() ==> final(admission).wf(),
        final(admission).capacity() == old(admission).capacity(),
        old(admission).has_room() ==> {
            &&& admitted == Some(message)
            &&& final(admission).in_flight() == old(admission).in_flight() + 1
            &&& final(metrics)@ == old(metrics)@
        },
        !old(admission).has_room() ==> {
            &&& admitted.is_none()
            &&& final(admission).in_flight() == old(admission).in_flight()
            &&& final(metrics)@ == old(metrics)@.dropped_at_handoff(
                message.payload@.len() as usize,
                message.timestamp,
            )
        },
{
    if admission.in_flight < admission.capacity {
        admission.in_flight = admission.in_flight + 1;
        Some(message)
    } else {
        record_handoff_failure(metrics, &message);
        None
    }
}

/// Count a message that could not be handed to a processing unit: it was
/// received, and it is dropped.
pub fn record_handoff_failure(metrics: &mut MessageMetrics, message: &MqttMessage)
    requires
        old(metrics).wf(),
    ensures
        final(metrics).wf(),
        final(metrics)@ == old(metrics)@.dropped_at_handoff(
            message.payload@.len() as usize,
            message.timestamp,
        ),
{
    metrics.record_message_received(message.payload.len(), message.timestamp);
    metrics.record_message_dropped();
}

/// First step of a processing unit: count the message as received, with its
/// size and the time it came in.
pub fn record_arrival(metrics: &mut MessageMetrics, message: &MqttMessage)
    requires
        old(metrics).wf(),
    ensures
        final(metrics).wf(),
        final(metrics)@ == old(metrics)@.received(
            message.payload@.len() as usize,
            message.timestamp,
        ),
{
    metrics.record_message_received(message.payload.len(), message.timestamp);
}

/// Process a single message: ask the sink for the record that forwards the
/// payload as sensor data. The sink turns it away without a try where it is
/// known to be down or does not know the topic.
pub fn process_message(message: &MqttMessage, kafka_producer: &KafkaProducer) -> (record: Result<
    OutboundRecord,
    SinkError,
>)
    ensures
        match kafka_producer@.refusal(kafka_producer@.sensor_data_topic) {
            Some(reason) => record == Err::<OutboundRecord, SinkError>(
                SinkError::SinkUnavailable(reason),
            ),
            None => record matches Ok(made) && made.topic@ == kafka_producer@.sensor_data_topic
                && made.key@ == kafka_producer@.sensor_data_topic && made.payload@
                == message.payload@,
        },
{
    kafka_producer.send_sensor_data(message.payload.as_slice())
}

/// Last step of a processing unit: count the message as processed with the
/// time that took, and, where it was not delivered, as an error and as
/// dropped.
pub fn record_outcome(metrics: &mut MessageMetrics, delivered: bool, processing_time: u64)
    requires
        old(metrics).wf(),
    ensures
        final(metrics).wf(),
        final(metrics)@ == old(metrics)@.outcome_recorded(delivered, processing_time),
{
    metrics.record_message_processed(processing_time);
    if !delivered {
        metrics.record_processing_error();
        metrics.record_message_dropped();
    }
}

/// Each message is counted once. While the counts are away from the ceiling
/// of their range, a message that is received and then processed adds exactly
/// one to the received count and one to the processed count of the window it
/// falls into; it adds one to the dropped count and one to the error count if
/// it was not delivered, and nothing to them if it was. The sealed windows
/// change only by the window that the message closes.
pub proof fn lemma_counted_once(
    state: MetricsState,
    size: usize,
    timestamp: i64,
    delivered: bool,
    processing_time: u64,
)
    requires
        state.current.has_room(size, processing_time),
    ensures
        ({
            let window = if state.current.ends_before(timestamp) {
                WindowedMetrics::empty_at(timestamp)
            } else {
                state.current
            };
            let after = state.received(size, timestamp).outcome_recorded(
                delivered,
                processing_time,
            );
            &&& after.sealed == state.received(size, timestamp).sealed
            &&& after.current.messages_received == window.messages_received + 1
            &&& after.current.messages_processed == window.messages_processed + 1
            &&& after.current.messages_dropped == window.messages_dropped + if delivered {
                0int
            } else {
                1int
            }
            &&& after.current.processing_errors == window.processing_errors + if delivered {
                0int
            } else {
                1int
            }
            &&& after.current.total_message_size == window.total_message_size + size
            &&& after.current.max_message_size >= size
        }),
{
}

/// A message that could not be handed over is counted as received once and
/// as dropped once, and never as processed.
pub proof fn lemma_dropped_once(state: MetricsState, size: usize, timestamp: i64)
    requires
        state.current.has_room(size, 0),
    ensures
        ({
            let window = if state.current.ends_before(timestamp) {
                WindowedMetrics::empty_at(timestamp)
            } else {
                state.current
            };
            let after = state.dropped_at_handoff(size, timestamp);
            &&& after.current.messages_received == window.messages_received + 1
            &&& after.current.messages_dropped == window.messages_dropped + 1
            &&& after.current.messages_processed == window.messages_processed
            &&& after.current.processing_errors == window.processing_errors
        }),
{
}

} // verus!
