//! Shared data models.

use crate::subscriber::QoS;
use vstd::prelude::*;

verus! {

/// A message from the broker, with what was noted when it came in.
#[derive(Debug, Clone, PartialEq, Eq)]
pub struct MqttMessage {
    pub topic: String,
    pub payload: Vec<u8>,
    pub qos: QoS,
    pub retain: bool,
    /// When the message came in, in nanoseconds of a clock that never goes
    /// back.
    pub received_at: u64,
    /// When the message came in, in nanoseconds since the Unix epoch.
    pub timestamp: i64,
}

/// A reading of a sensor.
#[derive(Debug, Clone, PartialEq, Eq)]
pub struct SensorData {
    pub sensor_id: String,
    pub message: String,
    /// When the reading was taken, in nanoseconds since the Unix epoch.
    pub sensor_timestamp: i64,
}

} // verus!
