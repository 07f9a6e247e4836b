//! Configuration of the bridge, read from a captured environment.
//!
//! The environment is handed in as the list of its variables, each a name
//! and a value, and the time as seconds since the Unix epoch. Every setting
//! has a default that is used where the variable is missing or its value
//! cannot be read as what is asked for.

use crate::subscriber::QoS;
use vstd::prelude::*;
use vstd::string::StringExecFns;

verus! {

/// How to reach the upstream broker.
#[derive(Debug, Clone, PartialEq, Eq)]
pub struct BrokerOptions {
    /// The name under which the bridge connects.
    pub client_id: String,
    /// The broker's host name.
    pub broker: String,
    /// The broker's port.
    pub port: u16,
    /// Seconds without traffic after which a ping is sent.
    pub keep_alive_secs: u64,
    /// User name and password, if the bridge is to log in.
    pub credentials: Option<(String, String)>,
}

/// Upstream configuration.
#[derive(Debug, Clone, PartialEq, Eq)]
pub struct MqttConfig {
    pub mqtt_options: BrokerOptions,
    pub mqtt_qos: QoS,
}

/// Configuration of the administrative interface.
#[derive(Debug, Clone, Copy, PartialEq, Eq)]
pub struct ApiConfig {
    pub port: u16,
}

/// Downstream configuration.
#[derive(Debug, Clone, PartialEq, Eq)]
pub struct KafkaConfig {
    pub broker: String,
    pub topic_sensor_data: String,
    pub topic_service_metrics: String,
}

/// Service configuration.
#[derive(Debug, Clone, PartialEq, Eq)]
pub struct Config {
    pub mqtt: MqttConfig,
    pub api: ApiConfig,
    pub kafka: KafkaConfig,
}

/// The value of the first variable named `key`, if there is one.
pub open spec fn lookup(env: Seq<(String, String)>, key: Seq<char>) -> Option<Seq<char>>
    decreases env.len(),
{
    if env.len() == 0 {
        None
    } else if env[0].0@ == key {
        Some(env[0].1@)
    } else {
        lookup(env.drop_first(), key)
    }
}

/// The value of the first variable named `key`, or `default` without one.
pub open spec fn setting(env: Seq<(String, String)>, key: Seq<char>, default: Seq<char>) -> Seq<
    char,
> {
    match lookup(env, key) {
        Some(value) => value,
        None => default,
    }
}

/// Whether `c` is one of the digits `0` to `9`.
pub open spec fn is_digit(c: char) -> bool {
    '0' <= c <= '9'
}

/// The number that the digit `c` stands for; 0 for any other character.
pub open spec fn digit_value(c: char) -> nat {
    if is_digit(c) {
        (c as u32 - 48) as nat
    } else {
        0
    }
}

/// The number that `digits` reads as in decimal.
pub open spec fn digits_value(digits: Seq<char>) -> nat
    decreases digits.len(),
{
    if digits.len() == 0 {
        0
    } else {
        digits_value(digits.drop_last()) * 10 + digit_value(digits.last())
    }
}

/// Whether every character of `digits` is a digit.
pub open spec fn all_digits(digits: Seq<char>) -> bool {
    forall|i: int| 0 <= i < digits.len() ==> is_digit(#[trigger] digits[i])
}

/// `text` without the plus sign that may stand at its front.
pub open spec fn without_sign(text: Seq<char>) -> Seq<char> {
    if text.len() > 0 && text[0] == '+' {
        text.drop_first()
    } else {
        text
    }
}

/// The number no greater than `max` that `text` reads as: an optional plus
/// sign, then one digit or more and nothing else. There is none where the
/// text has another shape or the number is greater than `max`.
pub open spec fn parse_unsigned(text: Seq<char>, max: nat) -> Option<nat> {
    let digits = without_sign(text);
    if digits.len() > 0 && all_digits(digits) && digits_value(digits) <= max {
        Some(digits_value(digits))
    } else {
        None
    }
}

/// `text` read as a number no greater than `max`, or `default` where it
/// cannot be read so.
pub open spec fn number_or(text: Seq<char>, max: nat, default: nat) -> nat {
    match parse_unsigned(text, max) {
        Some(value) => value,
        None => default,
    }
}

/// The delivery guarantee that `text` asks for: `1` and `2` ask for the
/// stronger ones, anything else for the weakest.
pub open spec fn qos_setting(text: Seq<char>) -> QoS {
    if text == "1"@ {
        QoS::AtLeastOnce
    } else if text == "2"@ {
        QoS::ExactlyOnce
    } else {
        QoS::AtMostOnce
    }
}

/// The character for the digit `digit`.
pub open spec fn digit_char(digit: nat) -> char {
    (48 + digit) as u8 as char
}

/// `n` written in decimal.
pub open spec fn decimal_text(n: nat) -> Seq<char>
    decreases n,
{
    if n < 10 {
        seq![digit_char(n)]
    } else {
        decimal_text(n / 10).push(digit_char(n % 10))
    }
}

/// The name under which the bridge connects when it starts at `now_secs`.
pub open spec fn client_id_at(now_secs: u64) -> Seq<char> {
    "mqtt-subscriber-"@ + decimal_text(now_secs as nat)
}

/// The credentials to log in with: none without a user name.
pub open spec fn credentials_setting(username: Seq<char>, password: Seq<char>) -> Option<
    (Seq<char>, Seq<char>),
> {
    if username.len() == 0 {
        None
    } else {
        Some((username, password))
    }
}

/// A front part of a text in digits reads as no greater a number than the
/// whole.
proof fn lemma_digits_value_grows(digits: Seq<char>, count: int)
    requires
        0 <= count <= digits.len(),
    ensures
        digits_value(digits.take(count)) <= digits_value(digits),
    decreases digits.len() - count,
{
    if count < digits.len() {
        lemma_digits_value_grows(digits, count + 1);
        assert(digits.take(count + 1).drop_last() =~= digits.take(count));
    } else {
        assert(digits.take(count) =~= digits);
    }
}

/// Get the value of a variable of the environment or return a default value.
pub fn get_env_or_default(env: &Vec<(String, String)>, key: &str, default: &str) -> (value:
    String)
    ensures
        value@ == setting(env@, key@, default@),
{
    let name: String = key.to_owned();
    let mut index: usize = 0;
    assert(env@.skip(0) =~= env@);
    while index < env.len()
        invariant
            name@ == key@,
            index <= env@.len(),
            lookup(env@, key@) == lookup(env@.skip(index as int), key@),
        decreases env@.len() - index,
    {
        assert(env@.skip(index as int).drop_first() =~= env@.skip(index + 1));
        if env[index].0 == name {
            return env[index].1.clone();
        }
        index = index + 1;
    }
    default.to_owned()
}

/// Read `text` as a number no greater than `max`.
pub fn parse_number(text: &str, max: u64) -> (value: Option<u64>)
    ensures
        value == match parse_unsigned(text@, max as nat) {
            Some(number) => Some(number as u64),
            None => None,
        },
{
    let length: usize = text.unicode_len();
    let start: usize = if length > 0 && text.get_char(0) == '+' {
        1
    } else {
        0
    };
    if start == length {
        return None;
    }
    let ghost digits = without_sign(text@);
    assert(digits =~= text@.skip(start as int));
    let mut number: u64 = 0;
    let mut index: usize = start;
    while index < length
        invariant
            start <= index <= length,
            length == text@.len(),
            digits == text@.skip(start as int),
            digits == without_sign(text@),
            all_digits(digits.take(index - start)),
            number == digits_value(digits.take(index - start)),
            number <= max,
        decreases length - index,
    {
        let c: char = text.get_char(index);
        let ghost front = digits.take(index - start + 1);
        assert(front.drop_last() =~= digits.take(index - start));
        assert(digits[index - start] == c);
        assert(front.last() == c);
        if !(c >= '0' && c <= '9') {
            assert(!is_digit(digits[index - start]));
            assert(!all_digits(digits));
            return None;
        }
        let digit: u64 = (c as u32 - 48) as u64;
        assert(digits_value(front) == number * 10 + digit);
        if digit > max || number > (max - digit) / 10 {
            proof {
                lemma_digits_value_grows(digits, index - start + 1);
                assert(digits_value(front) > max);
            }
            return None;
        }
        number = number * 10 + digit;
        index = index + 1;
        assert forall|i: int| 0 <= i < front.len() implies is_digit(#[trigger] front[i]) by {
            if i < front.len() - 1 {
                assert(front[i] == digits.take(index - start - 1)[i]);
            }
        }
    }
    assert(digits.take(index - start) =~= digits);
    Some(number)
}

/// The text for one digit.
fn digit_text(digit: u64) -> (text: &'static str)
    requires
        digit < 10,
    ensures
        text@ == seq![digit_char(digit as nat)],
{
    proof {
        reveal_strlit("0");
        reveal_strlit("1");
        reveal_strlit("2");
        reveal_strlit("3");
        reveal_strlit("4");
        reveal_strlit("5");
        reveal_strlit("6");
        reveal_strlit("7");
        reveal_strlit("8");
        reveal_strlit("9");
    }
    let text: &'static str = match digit {
        0 => "0",
        1 => "1",
        2 => "2",
        3 => "3",
        4 => "4",
        5 => "5",
        6 => "6",
        7 => "7",
        8 => "8",
        _ => "9",
    };
    assert(text@ =~= seq![digit_char(digit as nat)]);
    text
}

/// Write `n` in decimal.
pub fn decimal_string(n: u64) -> (text: String)
    ensures
        text@ == decimal_text(n as nat),
    decreases n,
{
    if n < 10 {
        digit_text(n).to_owned()
    } else {
        let mut text: String = decimal_string(n / 10);
        text.append(digit_text(n % 10));
        text
    }
}

/// Whether two texts are the same.
fn same_text(left: &str, right: &str) -> (same: bool)
    ensures
        same == (left@ == right@),
{
    left.to_owned() == right.to_owned()
}

/// Load the upstream configuration from the environment. `now_secs` is the
/// time in seconds since the Unix epoch; it makes the client's name.
pub fn load_mqtt_configs(env: &Vec<(String, String)>, now_secs: u64) -> (config: MqttConfig)
    ensures
        config.mqtt_options.broker@ == setting(
            env@,
            "MQTT_BROKER"@,
            "xrdevmqtt.edu.metropolia.fi"@,
        ),
        config.mqtt_options.port == number_or(setting(env@, "MQTT_PORT"@, "1883"@), 65535, 1883),
        config.mqtt_options.keep_alive_secs == number_or(
            setting(env@, "MQTT_KEEP_ALIVE"@, "60"@),
            u64::MAX as nat,
            60,
        ),
        config.mqtt_options.client_id@ == client_id_at(now_secs),
        match credentials_setting(
            setting(env@, "MQTT_USERNAME"@, ""@),
            setting(env@, "MQTT_PASSWORD"@, ""@),
        ) {
            Some((username, password)) => config.mqtt_options.credentials matches Some(given)
                && given.0@ == username && given.1@ == password,
            None => config.mqtt_options.credentials.is_none(),
        },
        config.mqtt_qos == qos_setting(setting(env@, "MQTT_QOS"@, "0"@)),
{
    let broker: String = get_env_or_default(env, "MQTT_BROKER", "xrdevmqtt.edu.metropolia.fi");
    let port_text: String = get_env_or_default(env, "MQTT_PORT", "1883");
    let port: u16 = match parse_number(port_text.as_str(), 65535) {
        Some(port) => port as u16,
        None => 1883,
    };
    let username: String = get_env_or_default(env, "MQTT_USERNAME", "");
    let password: String = get_env_or_default(env, "MQTT_PASSWORD", "");
    let qos_text: String = get_env_or_default(env, "MQTT_QOS", "0");
    let mqtt_qos: QoS = if same_text(qos_text.as_str(), "1") {
        QoS::AtLeastOnce
    } else if same_text(qos_text.as_str(), "2") {
        QoS::ExactlyOnce
    } else {
        QoS::AtMostOnce
    };
    let keep_alive_text: String = get_env_or_default(env, "MQTT_KEEP_ALIVE", "60");
    let keep_alive_secs: u64 = match parse_number(keep_alive_text.as_str(), u64::MAX) {
        Some(seconds) => seconds,
        None => 60,
    };
    let mut client_id: String = "mqtt-subscriber-".to_owned();
    let stamp: String = decimal_string(now_secs);
    client_id.append(stamp.as_str());
    let credentials: Option<(String, String)> = if username.as_str().unicode_len() == 0 {
        None
    } else {
        Some((username, password))
    };
    MqttConfig {
        mqtt_options: BrokerOptions { client_id, broker, port, keep_alive_secs, credentials },
        mqtt_qos,
    }
}

/// Load the configuration of the administrative interface from the
/// environment.
pub fn load_api_configs(env: &Vec<(String, String)>) -> (config: ApiConfig)
    ensures
        config.port == number_or(setting(env@, "API_PORT"@, "3000"@), 65535, 3000),
{
    let port_text: String = get_env_or_default(env, "API_PORT", "3000");
    let port: u16 = match parse_number(port_text.as_str(), 65535) {
        Some(port) => port as u16,
        None => 3000,
    };
    ApiConfig { port }
}

/// Load the downstream configuration from the environment.
pub fn load_kafka_configs(env: &Vec<(String, String)>) -> (config: KafkaConfig)
    ensures
        config.broker@ == setting(env@, "KAFKA_BROKER"@, "localhost:9092"@),
        config.topic_sensor_data@ == setting(env@, "KAFKA_TOPIC_SENSOR_DATA"@, "smartlab-data"@),
        config.topic_service_metrics@ == setting(
            env@,
            "KAFKA_TOPIC_SERVICE_METRICS"@,
            "smartlab-subscriber-metrics"@,
        ),
{
    KafkaConfig {
        broker: get_env_or_default(env, "KAFKA_BROKER", "localhost:9092"),
        topic_sensor_data: get_env_or_default(env, "KAFKA_TOPIC_SENSOR_DATA", "smartlab-data"),
        topic_service_metrics: get_env_or_default(
            env,
            "KAFKA_TOPIC_SERVICE_METRICS",
            "smartlab-subscriber-metrics",
        ),
    }
}

/// Load the whole configuration from the environment.
pub fn load_config(env: &Vec<(String, String)>, now_secs: u64) -> (config: Config)
    ensures
        config.mqtt.mqtt_options.broker@ == setting(
            env@,
            "MQTT_BROKER"@,
            "xrdevmqtt.edu.metropolia.fi"@,
        ),
        config.mqtt.mqtt_options.port == number_or(
            setting(env@, "MQTT_PORT"@, "1883"@),
            65535,
            1883,
        ),
        config.mqtt.mqtt_options.keep_alive_secs == number_or(
            setting(env@, "MQTT_KEEP_ALIVE"@, "60"@),
            u64::MAX as nat,
            60,
        ),
        config.mqtt.mqtt_options.client_id@ == client_id_at(now_secs),
        match credentials_setting(
            setting(env@, "MQTT_USERNAME"@, ""@),
            setting(env@, "MQTT_PASSWORD"@, ""@),
        ) {
            Some((username, password)) => config.mqtt.mqtt_options.credentials matches Some(given)
                && given.0@ == username && given.1@ == password,
            None => config.mqtt.mqtt_options.credentials.is_none(),
        },
        config.mqtt.mqtt_qos == qos_setting(setting(env@, "MQTT_QOS"@, "0"@)),
        config.api.port == number_or(setting(env@, "API_PORT"@, "3000"@), 65535, 3000),
        config.kafka.broker@ == setting(env@, "KAFKA_BROKER"@, "localhost:9092"@),
        config.kafka.topic_sensor_data@ == setting(
            env@,
            "KAFKA_TOPIC_SENSOR_DATA"@,
            "smartlab-data"@,
        ),
        config.kafka.topic_service_metrics@ == setting(
            env@,
            "KAFKA_TOPIC_SERVICE_METRICS"@,
            "smartlab-subscriber-metrics"@,
        ),
{
    Config {
        mqtt: load_mqtt_configs(env, now_secs),
        api: load_api_configs(env),
        kafka: load_kafka_configs(env),
    }
}

} // verus!
