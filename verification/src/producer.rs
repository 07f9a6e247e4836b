//! The downstream sink: what is known of its health, and what may be sent.
//!
//! The sink keeps a flag that says whether the downstream system was reachable
//! when it was last tried, a delay that grows while it is not, and the names
//! of the downstream topics that existed when the sink was made. A record is
//! handed out for sending only while the flag is up and the topic is among
//! those names. The caller sends the record and reports how that went.

use vstd::prelude::*;
use vstd::pervasive::unreached;
use vstd::slice::slice_to_vec;

verus! {

/// The reconnect delay after a successful health check, in milliseconds.
pub const BACKOFF_FLOOR_MS: u64 = 1000;

/// The longest reconnect delay, in milliseconds.
pub const BACKOFF_CAP_MS: u64 = 60000;

/// Seconds between two health checks.
pub const HEALTH_CHECK_INTERVAL_SECS: u64 = 30;

/// Seconds within which one send has to complete.
pub const SEND_TIMEOUT_SECS: u64 = 1;

/// How often the first connection is tried.
pub const HANDSHAKE_ATTEMPTS: u32 = 5;

/// Why the sink did not take a record.
#[derive(Debug, Clone, Copy, PartialEq, Eq)]
pub enum Unavailable {
    /// The sink is known to be disconnected.
    KnownDisconnected,
    /// The topic was not there when the sink was made.
    UnknownTopic,
}

/// What can go wrong when a record is given to the sink.
#[derive(Debug, Clone, Copy, PartialEq, Eq)]
pub enum SinkError {
    /// Nothing was tried: the record was turned away from cached state.
    SinkUnavailable(Unavailable),
    /// The record was sent and the send failed or timed out.
    SinkSendFailure,
}

/// A record that is ready to be sent downstream.
#[derive(Debug, Clone, PartialEq, Eq)]
pub struct OutboundRecord {
    pub topic: String,
    pub key: String,
    pub payload: Vec<u8>,
}

/// How the first connection to the downstream system went.
#[derive(Debug, Clone, PartialEq, Eq)]
pub struct Handshake {
    /// Whether the downstream system answered.
    pub connected: bool,
    /// The names of the topics it reported.
    pub available_topics: Vec<String>,
}

/// What to do after a failed attempt at the first connection.
#[derive(Debug, Clone, Copy, PartialEq, Eq)]
pub enum HandshakeStep {
    /// Wait `backoff_secs` seconds, then make attempt number `attempt`
    /// (counted from 0).
    Retry { attempt: u32, backoff_secs: u64 },
    /// Make the sink in the disconnected state.
    GiveUp,
}

/// 2 to the power of `exponent`.
pub open spec fn power_of_two(exponent: nat) -> nat
    decreases exponent,
{
    if exponent == 0 {
        1
    } else {
        2 * power_of_two((exponent - 1) as nat)
    }
}

/// Seconds to wait before attempt number `attempt` at the first connection:
/// 2 to the power of `attempt`, and no more than 64.
pub open spec fn handshake_backoff(attempt: nat) -> nat {
    if attempt < 6 {
        power_of_two(attempt)
    } else {
        64
    }
}

/// The reconnect delay that follows `backoff_ms` when a health check fails.
pub open spec fn next_backoff(backoff_ms: u64) -> u64 {
    if 2 * backoff_ms <= BACKOFF_CAP_MS {
        (2 * backoff_ms) as u64
    } else {
        BACKOFF_CAP_MS
    }
}

/// The decimal digits of `n`, as ASCII bytes.
pub open spec fn decimal_digits(n: nat) -> Seq<u8>
    decreases n,
{
    if n < 10 {
        seq![(48 + n) as u8]
    } else {
        decimal_digits(n / 10).push((48 + n % 10) as u8)
    }
}

/// The numbers of `data` in decimal, with a comma between two of them.
pub open spec fn json_numbers(data: Seq<u8>) -> Seq<u8>
    decreases data.len(),
{
    if data.len() == 0 {
        Seq::empty()
    } else if data.len() == 1 {
        decimal_digits(data[0] as nat)
    } else {
        json_numbers(data.drop_last()) + seq![44u8] + decimal_digits(data.last() as nat)
    }
}

/// The JSON text for `data` as an array of numbers, without white space:
/// `[1,2,3]`.
pub open spec fn json_byte_array(data: Seq<u8>) -> Seq<u8> {
    seq![91u8] + json_numbers(data) + seq![93u8]
}

/// The error of `serde_json`, taken as it is: nothing is known of what it
/// holds.
#[verifier::external_type_specification]
#[verifier::external_body]
pub struct ExJsonError(serde_json::Error);

/// Calls `serde_json::to_string` on a slice of bytes and hands back the bytes
/// of the text. Trusted: the call succeeds, and the text is the compact JSON
/// array of the bytes as numbers. It succeeds because the text is written
/// into memory, a slice of bytes is written as a sequence of numbers, and
/// neither of the two can fail.
#[verifier::external_body]
fn json_text_of_bytes(data: &[u8]) -> (encoded: Result<Vec<u8>, serde_json::Error>)
    ensures
        encoded is Ok,
        encoded matches Ok(bytes) ==> bytes@ == json_byte_array(data@),
{
    match serde_json::to_string(data) {
        Ok(text) => Ok(text.into_bytes()),
        Err(error) => Err(error),
    }
}

/// Seconds to wait before attempt number `attempt` at the first connection.
pub fn handshake_backoff_secs(attempt: u32) -> (seconds: u64)
    ensures
        seconds == handshake_backoff(attempt as nat),
        1 <= seconds <= 64,
{
    let steps: u32 = if attempt < 6 {
        attempt
    } else {
        6
    };
    let mut seconds: u64 = 1;
    let mut done: u32 = 0;
    while done < steps
        invariant
            done <= steps <= 6,
            seconds == power_of_two(done as nat),
        decreases steps - done,
    {
        proof {
            lemma_power_of_two_grows(done as nat, 5);
            assert(power_of_two(5) == 32) by {
                reveal_with_fuel(power_of_two, 6);
            }
        }
        seconds = seconds * 2;
        done = done + 1;
    }
    proof {
        lemma_power_of_two_grows(steps as nat, 6);
        assert(power_of_two(6) == 64) by {
            reveal_with_fuel(power_of_two, 7);
        }
    }
    seconds
}

/// A larger exponent gives no smaller power.
pub proof fn lemma_power_of_two_grows(smaller: nat, larger: nat)
    requires
        smaller <= larger,
    ensures
        power_of_two(smaller) <= power_of_two(larger),
        power_of_two(smaller) >= 1,
    decreases larger,
{
    if smaller < larger {
        lemma_power_of_two_grows(smaller, (larger - 1) as nat);
    } else if smaller > 0 {
        lemma_power_of_two_grows((smaller - 1) as nat, (larger - 1) as nat);
    }
}

/// Decide what follows the failure of attempt number `attempt` (counted from
/// 0) when `max_attempts` attempts are allowed in all: another attempt after
/// a growing delay, or none.
pub fn after_failed_attempt(attempt: u32, max_attempts: u32) -> (step: HandshakeStep)
    ensures
        attempt + 1 < max_attempts ==> step == (HandshakeStep::Retry {
            attempt: (attempt + 1) as u32,
            backoff_secs: handshake_backoff((attempt + 1) as nat) as u64,
        }),
        attempt + 1 >= max_attempts ==> step == HandshakeStep::GiveUp,
{
    if attempt < max_attempts && attempt + 1 < max_attempts {
        HandshakeStep::Retry {
            attempt: attempt + 1,
            backoff_secs: handshake_backoff_secs(attempt + 1),
        }
    } else {
        HandshakeStep::GiveUp
    }
}

impl Handshake {
    /// The outcome when every attempt failed: the sink is made all the same,
    /// disconnected and without any topic.
    pub fn failed() -> (handshake: Handshake)
        ensures
            !handshake.connected,
            handshake.available_topics@.len() == 0,
    {
        Handshake { connected: false, available_topics: Vec::new() }
    }
}

/// What the sink knows.
pub struct SinkState {
    /// Whether the downstream system was reachable when last tried.
    pub connected: bool,
    /// The reconnect delay, in milliseconds.
    pub backoff_ms: u64,
    /// The names of the downstream topics that existed when the sink was
    /// made.
    pub available_topics: Seq<Seq<char>>,
    /// The address of the downstream system.
    pub bootstrap_servers: Seq<char>,
    /// The topic that sensor data goes to.
    pub sensor_data_topic: Seq<char>,
    /// The topic that service metrics go to.
    pub service_metrics_topic: Seq<char>,
}

impl SinkState {
    /// Why a record for `topic` is turned away without a try, if it is.
    pub open spec fn refusal(self, topic: Seq<char>) -> Option<Unavailable> {
        if !self.connected {
            Some(Unavailable::KnownDisconnected)
        } else if !self.available_topics.contains(topic) {
            Some(Unavailable::UnknownTopic)
        } else {
            None
        }
    }

    /// The state after a health check that found the downstream system
    /// reachable or not.
    pub open spec fn health_checked(self, reachable: bool) -> SinkState {
        if reachable {
            SinkState { connected: true, backoff_ms: BACKOFF_FLOOR_MS, ..self }
        } else {
            SinkState { connected: false, backoff_ms: next_backoff(self.backoff_ms), ..self }
        }
    }

    /// The state after a send that was delivered or not.
    pub open spec fn sent(self, delivered: bool) -> SinkState {
        SinkState { connected: delivered, ..self }
    }

    /// The state after `failures` failed health checks in a row.
    pub open spec fn failed_checks(self, failures: nat) -> SinkState
        decreases failures,
    {
        if failures == 0 {
            self
        } else {
            self.failed_checks((failures - 1) as nat).health_checked(false)
        }
    }
}

/// The sink that forwards messages to the downstream system.
#[derive(Debug, Clone)]
pub struct KafkaProducer {
    bootstrap_servers: String,
    connection_status: bool,
    available_topics: Vec<String>,
    sensor_data_topic: String,
    service_metrics_topic: String,
    reconnect_backoff_ms: u64,
}

impl View for KafkaProducer {
    type V = SinkState;

    closed spec fn view(&self) -> SinkState {
        SinkState {
            connected: self.connection_status,
            backoff_ms: self.reconnect_backoff_ms,
            available_topics: self.available_topics.deep_view(),
            bootstrap_servers: self.bootstrap_servers@,
            sensor_data_topic: self.sensor_data_topic@,
            service_metrics_topic: self.service_metrics_topic@,
        }
    }
}

impl KafkaProducer {
    /// The reconnect delay lies between its floor and its cap.
    pub open spec fn wf(&self) -> bool {
        BACKOFF_FLOOR_MS <= self@.backoff_ms <= BACKOFF_CAP_MS
    }

    /// Create the sink from the outcome of the first connection. The names
    /// of the topics are kept as they are and never refreshed.
    pub fn new(
        bootstrap_servers: &str,
        sensor_data_topic: &str,
        service_metrics_topic: &str,
        handshake: Handshake,
    ) -> (producer: Self)
        ensures
            producer.wf(),
            producer@ == (SinkState {
                connected: handshake.connected,
                backoff_ms: BACKOFF_FLOOR_MS,
                available_topics: handshake.available_topics.deep_view(),
                bootstrap_servers: bootstrap_servers@,
                sensor_data_topic: sensor_data_topic@,
                service_metrics_topic: service_metrics_topic@,
            }),
    {
        KafkaProducer {
            bootstrap_servers: bootstrap_servers.to_owned(),
            connection_status: handshake.connected,
            available_topics: handshake.available_topics,
            sensor_data_topic: sensor_data_topic.to_owned(),
            service_metrics_topic: service_metrics_topic.to_owned(),
            reconnect_backoff_ms: BACKOFF_FLOOR_MS,
        }
    }

    /// Check if the sink is connected, by the cached flag.
    pub fn is_connected(&self) -> (connected: bool)
        ensures
            connected == self@.connected,
    {
        self.connection_status
    }

    /// The current reconnect delay in milliseconds.
    pub fn reconnect_backoff_ms(&self) -> (backoff: u64)
        ensures
            backoff == self@.backoff_ms,
    {
        self.reconnect_backoff_ms
    }

    /// The address of the downstream system.
    pub fn bootstrap_servers(&self) -> (address: &String)
        ensures
            address@ == self@.bootstrap_servers,
    {
        &self.bootstrap_servers
    }

    /// Take in the result of a health check: a reachable system raises the
    /// flag and puts the delay back to its floor, an unreachable one lowers
    /// the flag and doubles the delay up to its cap.
    pub fn on_health_check(&mut self, reachable: bool)
        ensures
            final(self)@ == old(self)@.health_checked(reachable),
            old(self).wf() ==> final(self).wf(),
    {
        if reachable {
            self.connection_status = true;
            self.reconnect_backoff_ms = BACKOFF_FLOOR_MS;
        } else {
            self.connection_status = false;
            self.reconnect_backoff_ms = if self.reconnect_backoff_ms <= BACKOFF_CAP_MS / 2 {
                self.reconnect_backoff_ms * 2
            } else {
                BACKOFF_CAP_MS
            };
        }
    }

    /// Whether `topic` was there when the sink was made.
    fn knows_topic(&self, topic: &str) -> (known: bool)
        ensures
            known == self@.available_topics.contains(topic@),
    {
        let name: String = topic.to_owned();
        let mut index: usize = 0;
        while index < self.available_topics.len()
            invariant
                name@ == topic@,
                index <= self.available_topics@.len(),
                forall|i: int| 0 <= i < index ==> self@.available_topics[i] != topic@,
            decreases self.available_topics@.len() - index,
        {
            if self.available_topics[index] == name {
                assert(self@.available_topics[index as int] == topic@);
                return true;
            }
            index = index + 1;
        }
        false
    }

    /// Why a record for `topic` is turned away without a try, if it is:
    /// first because the sink is known to be disconnected, then because the
    /// topic was not there when the sink was made.
    pub fn refusal(&self, topic: &str) -> (reason: Option<Unavailable>)
        ensures
            reason == self@.refusal(topic@),
    {
        if !self.connection_status {
            Some(Unavailable::KnownDisconnected)
        } else if !self.knows_topic(topic) {
            Some(Unavailable::UnknownTopic)
        } else {
            None
        }
    }

    /// Make the record for `payload` on `topic`, or turn it away where the
    /// cached state says so. Nothing is sent and nothing changes.
    pub fn send_to_topic(&self, topic: &str, key: &str, payload: Vec<u8>) -> (record: Result<
        OutboundRecord,
        SinkError,
    >)
        ensures
            match self@.refusal(topic@) {
                Some(reason) => record == Err::<OutboundRecord, SinkError>(
                    SinkError::SinkUnavailable(reason),
                ),
                None => record matches Ok(made) && made.topic@ == topic@ && made.key@ == key@
                    && made.payload@ == payload@,
            },
    {
        match self.refusal(topic) {
            Some(reason) => Err(SinkError::SinkUnavailable(reason)),
            None => Ok(OutboundRecord { topic: topic.to_owned(), key: key.to_owned(), payload }),
        }
    }

    /// Make the record that carries `data` to the sensor data topic, keyed by
    /// the topic's name, or turn it away as `send_to_topic` does.
    pub fn send_sensor_data(&self, data: &[u8]) -> (record: Result<OutboundRecord, SinkError>)
        ensures
            match self@.refusal(self@.sensor_data_topic) {
                Some(reason) => record == Err::<OutboundRecord, SinkError>(
                    SinkError::SinkUnavailable(reason),
                ),
                None => record matches Ok(made) && made.topic@ == self@.sensor_data_topic
                    && made.key@ == self@.sensor_data_topic && made.payload@ == data@,
            },
    {
        self.send_to_topic(
            self.sensor_data_topic.as_str(),
            self.sensor_data_topic.as_str(),
            slice_to_vec(data),
        )
    }

    /// Make the record that carries `data`, written as a JSON array of
    /// numbers, to the service metrics topic, keyed by the topic's name, or
    /// turn it away as `send_to_topic` does.
    pub fn send_service_metrics(&self, data: &[u8]) -> (record: Result<OutboundRecord, SinkError>)
        ensures
            match self@.refusal(self@.service_metrics_topic) {
                Some(reason) => record == Err::<OutboundRecord, SinkError>(
                    SinkError::SinkUnavailable(reason),
                ),
                None => record matches Ok(made) && made.topic@ == self@.service_metrics_topic
                    && made.key@ == self@.service_metrics_topic && made.payload@
                    == json_byte_array(data@),
            },
    {
        match json_text_of_bytes(data) {
            Ok(payload) => self.send_to_topic(
                self.service_metrics_topic.as_str(),
                self.service_metrics_topic.as_str(),
                payload,
            ),
            Err(_) => unreached(),
        }
    }

    /// Take in the result of a send: a delivered record raises the flag, a
    /// failed send lowers it and is reported.
    pub fn on_send_result(&mut self, delivered: bool) -> (result: Result<(), SinkError>)
        ensures
            final(self)@ == old(self)@.sent(delivered),
            old(self).wf() ==> final(self).wf(),
            delivered ==> result == Ok::<(), SinkError>(()),
            !delivered ==> result == Err::<(), SinkError>(SinkError::SinkSendFailure),
    {
        self.connection_status = delivered;
        if delivered {
            Ok(())
        } else {
            Err(SinkError::SinkSendFailure)
        }
    }
}

/// While health checks fail, the reconnect delay doubles from its floor until
/// it reaches its cap, and the sink counts as disconnected; one health check
/// that succeeds puts the delay back to its floor.
pub proof fn lemma_backoff_sequence(state: SinkState, failures: nat)
    requires
        state.backoff_ms == BACKOFF_FLOOR_MS,
    ensures
        state.failed_checks(failures).backoff_ms == if BACKOFF_FLOOR_MS * power_of_two(failures)
            <= BACKOFF_CAP_MS {
            BACKOFF_FLOOR_MS * power_of_two(failures)
        } else {
            BACKOFF_CAP_MS as int
        },
        BACKOFF_FLOOR_MS <= state.failed_checks(failures).backoff_ms <= BACKOFF_CAP_MS,
        failures > 0 ==> !state.failed_checks(failures).connected,
        state.failed_checks(failures).health_checked(true).backoff_ms == BACKOFF_FLOOR_MS,
        state.failed_checks(failures).health_checked(true).connected,
    decreases failures,
{
    if failures > 0 {
        lemma_backoff_sequence(state, (failures - 1) as nat);
        lemma_power_of_two_grows(0, (failures - 1) as nat);
    }
}

} // verus!
