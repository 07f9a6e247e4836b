//! The connection lifecycle manager: tracked topics and the upstream link.
//!
//! The manager owns the set of tracked topics and knows whether an upstream
//! connection stands. It never talks to the broker itself. Each operation has
//! two halves: the first decides what has to be asked of the broker, the
//! second takes in how that went. Between operations a connection stands
//! exactly while a topic is tracked.

use crate::topic_set::TopicSet;
use vstd::prelude::*;

verus! {

/// Seconds to wait after a transport error before the tracked topics are
/// subscribed to again.
pub const RECONNECT_DELAY_SECS: u64 = 5;

/// The delivery guarantee asked of the broker.
#[derive(Debug, Clone, Copy, PartialEq, Eq)]
pub enum QoS {
    AtMostOnce,
    AtLeastOnce,
    ExactlyOnce,
}

/// Where the upstream connection stands.
#[derive(Debug, Clone, Copy, PartialEq, Eq)]
pub enum ConnectionState {
    /// There is no connection.
    Disconnected,
    /// The first topic is tracked and the connection is being made.
    Connecting,
    /// The connection stands.
    Connected,
    /// The transport failed; the tracked topics are about to be subscribed
    /// to again.
    Reconnecting,
}

/// Why a subscribe or unsubscribe failed.
#[derive(Debug, Clone, Copy, PartialEq, Eq)]
pub enum SubscriptionError {
    /// The connection could not be made.
    ConnectionFailed,
    /// The broker did not take the subscribe.
    SubscribeRejected,
    /// The broker did not take the unsubscribe.
    UnsubscribeRejected,
}

/// What a subscribe asks of the caller.
#[derive(Debug, Clone, Copy, PartialEq, Eq)]
pub enum SubscribeStep {
    /// The topic is tracked already: nothing to do, the subscribe succeeded.
    AlreadySubscribed,
    /// Make the connection, then subscribe to the topic on it.
    Connect,
    /// Subscribe to the topic on the connection that stands.
    Subscribe,
}

/// What an unsubscribe asks of the caller.
#[derive(Debug, Clone, Copy, PartialEq, Eq)]
pub enum UnsubscribeStep {
    /// The topic is not tracked: nothing to do, the unsubscribe succeeded.
    NotSubscribed,
    /// Unsubscribe from the topic on the connection.
    Unsubscribe,
}

/// How the work that a subscribe asked for went.
#[derive(Debug, Clone, Copy, PartialEq, Eq)]
pub enum LinkOutcome {
    /// The broker took the subscribe.
    Subscribed,
    /// The connection could not be made.
    ConnectFailed,
    /// The broker did not take the subscribe.
    Rejected,
}

/// What an operation came to.
#[derive(Debug, Clone, Copy, PartialEq, Eq)]
pub struct Completion {
    /// What the caller of the operation is told.
    pub result: Result<(), SubscriptionError>,
    /// Whether a connection that was made has to be torn down: the last
    /// topic is gone.
    pub teardown: bool,
}

/// What the manager holds.
pub struct SubscriberState {
    /// The tracked topics.
    pub topics: Set<Seq<char>>,
    /// Where the upstream connection stands.
    pub link: ConnectionState,
    /// The health flag: up after the broker acknowledged a connection, down
    /// after a transport error.
    pub healthy: bool,
    /// The delivery guarantee that subscribes ask for.
    pub qos: QoS,
}

/// An attempt to subscribe or unsubscribe, with how the broker's side of it
/// goes if it is asked.
pub enum Operation {
    Subscribe { topic: Seq<char>, outcome: LinkOutcome },
    Unsubscribe { topic: Seq<char>, accepted: bool },
}

impl LinkOutcome {
    /// What the caller of the subscribe is told.
    pub open spec fn result(self) -> Result<(), SubscriptionError> {
        match self {
            LinkOutcome::Subscribed => Ok(()),
            LinkOutcome::ConnectFailed => Err(SubscriptionError::ConnectionFailed),
            LinkOutcome::Rejected => Err(SubscriptionError::SubscribeRejected),
        }
    }
}

impl SubscribeStep {
    /// What the caller of the subscribe is told at once: success where the
    /// topic is tracked already, nothing yet where the broker has to be
    /// asked.
    pub open spec fn settled(self) -> Option<Result<(), SubscriptionError>> {
        match self {
            SubscribeStep::AlreadySubscribed => Some(Ok(())),
            SubscribeStep::Connect => None,
            SubscribeStep::Subscribe => None,
        }
    }

    /// Tell what the caller of the subscribe is told at once, if the step
    /// asks for no work.
    pub fn result(self) -> (result: Option<Result<(), SubscriptionError>>)
        ensures
            result == self.settled(),
    {
        match self {
            SubscribeStep::AlreadySubscribed => Some(Ok(())),
            SubscribeStep::Connect => None,
            SubscribeStep::Subscribe => None,
        }
    }
}

impl UnsubscribeStep {
    /// What the caller of the unsubscribe is told at once: success where the
    /// topic is not tracked, nothing yet where the broker has to be asked.
    pub open spec fn settled(self) -> Option<Result<(), SubscriptionError>> {
        match self {
            UnsubscribeStep::NotSubscribed => Some(Ok(())),
            UnsubscribeStep::Unsubscribe => None,
        }
    }

    /// Tell what the caller of the unsubscribe is told at once, if the step
    /// asks for no work.
    pub fn result(self) -> (result: Option<Result<(), SubscriptionError>>)
        ensures
            result == self.settled(),
    {
        match self {
            UnsubscribeStep::NotSubscribed => Some(Ok(())),
            UnsubscribeStep::Unsubscribe => None,
        }
    }
}

impl SubscriberState {
    /// The set of topics is finite, and there is no connection exactly when
    /// no topic is tracked.
    pub open spec fn wf(self) -> bool {
        &&& self.topics.finite()
        &&& self.link is Disconnected <==> self.topics.is_empty()
    }

    /// The state is one of the two in which the manager rests between
    /// operations.
    pub open spec fn at_rest(self) -> bool {
        self.link is Connected || self.link is Disconnected
    }

    /// The state in which a manager begins.
    pub open spec fn initial(qos: QoS) -> SubscriberState {
        SubscriberState {
            topics: Set::empty(),
            link: ConnectionState::Disconnected,
            healthy: false,
            qos,
        }
    }

    /// What a subscribe to `topic` asks of the caller.
    pub open spec fn subscribe_step(self, topic: Seq<char>) -> SubscribeStep {
        if self.topics.contains(topic) {
            SubscribeStep::AlreadySubscribed
        } else if self.link is Disconnected {
            SubscribeStep::Connect
        } else {
            SubscribeStep::Subscribe
        }
    }

    /// The state after the first half of a subscribe to `topic`: the topic
    /// is tracked before anything is asked of the broker.
    pub open spec fn subscribe(self, topic: Seq<char>) -> SubscriberState {
        match self.subscribe_step(topic) {
            SubscribeStep::AlreadySubscribed => self,
            SubscribeStep::Connect => SubscriberState {
                topics: self.topics.insert(topic),
                link: ConnectionState::Connecting,
                ..self
            },
            SubscribeStep::Subscribe => SubscriberState {
                topics: self.topics.insert(topic),
                ..self
            },
        }
    }

    /// The state after the second half of a subscribe to `topic`. Success
    /// settles the connection. Failure takes the topic out again, and with
    /// the last topic the connection goes.
    pub open spec fn subscribe_completed(
        self,
        topic: Seq<char>,
        outcome: LinkOutcome,
    ) -> SubscriberState {
        if outcome is Subscribed {
            if self.link is Connecting {
                SubscriberState { link: ConnectionState::Connected, ..self }
            } else {
                self
            }
        } else {
            self.without(topic)
        }
    }

    /// The state with `topic` taken out; with the last topic the connection
    /// goes.
    pub open spec fn without(self, topic: Seq<char>) -> SubscriberState {
        let topics = self.topics.remove(topic);
        SubscriberState {
            topics,
            link: if topics.is_empty() {
                ConnectionState::Disconnected
            } else {
                self.link
            },
            ..self
        }
    }

    /// Whether a connection that was made has to be torn down when `topic`
    /// is taken out.
    pub open spec fn loses_connection(self, topic: Seq<char>) -> bool {
        !(self.link is Disconnected) && self.topics.remove(topic).is_empty()
    }

    /// What an unsubscribe from `topic` asks of the caller.
    pub open spec fn unsubscribe_step(self, topic: Seq<char>) -> UnsubscribeStep {
        if self.topics.contains(topic) {
            UnsubscribeStep::Unsubscribe
        } else {
            UnsubscribeStep::NotSubscribed
        }
    }

    /// The state after the second half of an unsubscribe from `topic`.
    pub open spec fn unsubscribe_completed(self, topic: Seq<char>, accepted: bool) -> SubscriberState {
        if accepted {
            self.without(topic)
        } else {
            self
        }
    }

    /// The state after the health flag was set to `status`: a transport
    /// error takes a standing connection to reconnecting, an acknowledgement
    /// from the broker takes it back.
    pub open spec fn with_status(self, status: bool) -> SubscriberState {
        SubscriberState {
            healthy: status,
            link: if status && self.link is Reconnecting {
                ConnectionState::Connected
            } else if !status && self.link is Connected {
                ConnectionState::Reconnecting
            } else {
                self.link
            },
            ..self
        }
    }

    /// Whether the operation succeeds when it is made in this state.
    pub open spec fn succeeds(self, operation: Operation) -> bool {
        match operation {
            Operation::Subscribe { topic, outcome } => self.topics.contains(topic)
                || outcome is Subscribed,
            Operation::Unsubscribe { topic, accepted } => !self.topics.contains(topic)
                || accepted,
        }
    }

    /// The state after both halves of the operation.
    pub open spec fn perform(self, operation: Operation) -> SubscriberState {
        match operation {
            Operation::Subscribe { topic, outcome } => if self.topics.contains(topic) {
                self
            } else {
                self.subscribe(topic).subscribe_completed(topic, outcome)
            },
            Operation::Unsubscribe { topic, accepted } => if self.topics.contains(topic) {
                self.unsubscribe_completed(topic, accepted)
            } else {
                self
            },
        }
    }

    /// The state after the operations were made one after the other.
    pub open spec fn run(self, operations: Seq<Operation>) -> SubscriberState
        decreases operations.len(),
    {
        if operations.len() == 0 {
            self
        } else {
            self.run(operations.drop_last()).perform(operations.last())
        }
    }

    /// The topics that are tracked when only those of the operations that
    /// succeed are counted: a subscribe that succeeds adds its topic, an
    /// unsubscribe that succeeds removes its topic, and one that fails
    /// changes nothing.
    pub open spec fn net_effect(self, operations: Seq<Operation>) -> Set<Seq<char>>
        decreases operations.len(),
    {
        if operations.len() == 0 {
            self.topics
        } else {
            let before = self.net_effect(operations.drop_last());
            if self.run(operations.drop_last()).succeeds(operations.last()) {
                match operations.last() {
                    Operation::Subscribe { topic, .. } => before.insert(topic),
                    Operation::Unsubscribe { topic, .. } => before.remove(topic),
                }
            } else {
                before
            }
        }
    }
}

/// The manager of tracked topics and of the upstream connection.
#[derive(Debug, Clone)]
pub struct MqttSubscriber {
    topics: TopicSet,
    mqtt_qos: QoS,
    is_connected: bool,
    link: ConnectionState,
}

impl View for MqttSubscriber {
    type V = SubscriberState;

    closed spec fn view(&self) -> SubscriberState {
        SubscriberState {
            topics: self.topics@,
            link: self.link,
            healthy: self.is_connected,
            qos: self.mqtt_qos,
        }
    }
}

impl MqttSubscriber {
    /// No topic is held twice, and what is held is a valid state.
    pub closed spec fn wf(&self) -> bool {
        &&& self.topics.wf()
        &&& self@.wf()
    }

    /// What a well-formed manager holds is a valid state.
    pub proof fn lemma_state_valid(&self)
        requires
            self.wf(),
        ensures
            self@.wf(),
    {
    }

    /// Create a manager that tracks nothing and has no connection.
    pub fn new(mqtt_qos: QoS) -> (subscriber: Self)
        ensures
            subscriber.wf(),
            subscriber@ == SubscriberState::initial(mqtt_qos),
    {
        MqttSubscriber {
            topics: TopicSet::new(),
            mqtt_qos,
            is_connected: false,
            link: ConnectionState::Disconnected,
        }
    }

    /// Check the health flag of the upstream connection.
    pub fn is_connected(&self) -> (healthy: bool)
        ensures
            healthy == self@.healthy,
    {
        self.is_connected
    }

    /// The delivery guarantee that subscribes ask for.
    pub fn qos(&self) -> (qos: QoS)
        ensures
            qos == self@.qos,
    {
        self.mqtt_qos
    }

    /// Where the upstream connection stands.
    pub fn connection_state(&self) -> (link: ConnectionState)
        ensures
            link == self@.link,
    {
        self.link
    }

    /// Update the health flag: up when the broker acknowledged a connection,
    /// down on a transport error.
    pub fn update_connection_status(&mut self, status: bool)
        requires
            old(self).wf(),
        ensures
            final(self).wf(),
            final(self)@ == old(self)@.with_status(status),
    {
        self.is_connected = status;
        match self.link {
            ConnectionState::Reconnecting => {
                if status {
                    self.link = ConnectionState::Connected;
                }
            },
            ConnectionState::Connected => {
                if !status {
                    self.link = ConnectionState::Reconnecting;
                }
            },
            _ => {},
        }
    }

    /// First half of a subscribe. A topic that is tracked already needs
    /// nothing. A new topic is tracked at once, before the broker is asked,
    /// so that a reconnect in between subscribes to it too; the step says
    /// whether a connection has to be made first.
    pub fn subscribe(&mut self, topic: &str) -> (step: SubscribeStep)
        requires
            old(self).wf(),
        ensures
            final(self).wf(),
            step == old(self)@.subscribe_step(topic@),
            final(self)@ == old(self)@.subscribe(topic@),
    {
        if self.topics.contains(topic) {
            return SubscribeStep::AlreadySubscribed;
        }
        proof {
            self.topics.lemma_finite();
        }
        self.topics.insert(topic);
        match self.link {
            ConnectionState::Disconnected => {
                self.link = ConnectionState::Connecting;
                SubscribeStep::Connect
            },
            _ => SubscribeStep::Subscribe,
        }
    }

    /// Take `topic` out of the tracked set; tell whether a connection has to
    /// be torn down because the set is now empty.
    fn forget(&mut self, topic: &str) -> (teardown: bool)
        requires
            old(self).wf(),
        ensures
            final(self).wf(),
            final(self)@ == old(self)@.without(topic@),
            teardown == old(self)@.loses_connection(topic@),
    {
        self.topics.remove(topic);
        proof {
            self.topics.lemma_finite();
        }
        if self.topics.is_empty() {
            let teardown: bool = match self.link {
                ConnectionState::Disconnected => false,
                _ => true,
            };
            self.link = ConnectionState::Disconnected;
            teardown
        } else {
            false
        }
    }

    /// Second half of a subscribe that asked for work: take in how it went.
    /// On failure the topic is taken out again before the error is handed
    /// back, and the connection is given up if no topic is left. A
    /// connection that was made for a subscribe that the broker then
    /// rejected has to be torn down.
    pub fn subscribe_completed(&mut self, topic: &str, outcome: LinkOutcome) -> (completion:
        Completion)
        requires
            old(self).wf(),
        ensures
            final(self).wf(),
            final(self)@ == old(self)@.subscribe_completed(topic@, outcome),
            completion.result == outcome.result(),
            completion.teardown == (outcome is Rejected && old(self)@.loses_connection(topic@)),
    {
        match outcome {
            LinkOutcome::Subscribed => {
                match self.link {
                    ConnectionState::Connecting => {
                        self.link = ConnectionState::Connected;
                    },
                    _ => {},
                }
                Completion { result: Ok(()), teardown: false }
            },
            LinkOutcome::ConnectFailed => {
                self.forget(topic);
                Completion { result: Err(SubscriptionError::ConnectionFailed), teardown: false }
            },
            LinkOutcome::Rejected => {
                let teardown: bool = self.forget(topic);
                Completion { result: Err(SubscriptionError::SubscribeRejected), teardown }
            },
        }
    }

    /// First half of an unsubscribe: a topic that is not tracked needs
    /// nothing; for a tracked one the broker has to be asked. Nothing
    /// changes yet.
    pub fn unsubscribe(&self, topic: &str) -> (step: UnsubscribeStep)
        ensures
            step == self@.unsubscribe_step(topic@),
    {
        if self.topics.contains(topic) {
            UnsubscribeStep::Unsubscribe
        } else {
            UnsubscribeStep::NotSubscribed
        }
    }

    /// Second half of an unsubscribe that asked for work. If the broker
    /// took it, the topic is taken out, and the connection is given up if no
    /// topic is left. If it did not, everything stays.
    pub fn unsubscribe_completed(&mut self, topic: &str, accepted: bool) -> (completion:
        Completion)
        requires
            old(self).wf(),
        ensures
            final(self).wf(),
            final(self)@ == old(self)@.unsubscribe_completed(topic@, accepted),
            accepted ==> completion.result == Ok::<(), SubscriptionError>(()),
            !accepted ==> completion.result == Err::<(), SubscriptionError>(
                SubscriptionError::UnsubscribeRejected,
            ),
            completion.teardown == (accepted && old(self)@.loses_connection(topic@)),
    {
        if accepted {
            let teardown: bool = self.forget(topic);
            Completion { result: Ok(()), teardown }
        } else {
            Completion { result: Err(SubscriptionError::UnsubscribeRejected), teardown: false }
        }
    }

    /// Get a list of all subscribed topics, each once.
    pub fn get_topics(&self) -> (topics: Vec<String>)
        requires
            self.wf(),
        ensures
            topics.deep_view().no_duplicates(),
            topics.deep_view().to_set() == self@.topics,
            topics@.len() == self@.topics.len(),
    {
        self.topics.to_vec()
    }

    /// The topics to subscribe to again after a transport error: every
    /// tracked topic, each once. The set of tracked topics alone says what
    /// the broker is to know; nothing of what it knew before counts.
    pub fn resubscribe_to_topics(&self) -> (topics: Vec<String>)
        requires
            self.wf(),
        ensures
            topics.deep_view().no_duplicates(),
            topics.deep_view().to_set() == self@.topics,
            topics@.len() == self@.topics.len(),
    {
        self.get_topics()
    }
}

/// An operation that fails leaves no trace: the state is what it was. One
/// that succeeds changes the tracked topics by its own topic and nothing
/// else. Either way a valid state stays valid.
pub proof fn lemma_operation_effect(state: SubscriberState, operation: Operation)
    requires
        state.wf(),
    ensures
        state.perform(operation).wf(),
        !state.succeeds(operation) ==> state.perform(operation) == state,
        state.succeeds(operation) ==> state.perform(operation).topics == match operation {
            Operation::Subscribe { topic, .. } => state.topics.insert(topic),
            Operation::Unsubscribe { topic, .. } => state.topics.remove(topic),
        },
{
    match operation {
        Operation::Subscribe { topic, outcome } => {
            assert(state.topics.insert(topic).contains(topic));
            if state.topics.contains(topic) {
                assert(state.topics.insert(topic) =~= state.topics);
            } else {
                assert(state.topics.insert(topic).remove(topic) =~= state.topics);
            }
        },
        Operation::Unsubscribe { topic, accepted } => {
            if !state.topics.contains(topic) {
                assert(state.topics.remove(topic) =~= state.topics);
            }
        },
    }
}

/// Subscribing to a tracked topic and unsubscribing from one that is not
/// tracked succeed and change nothing, whatever the broker would say.
pub proof fn lemma_idempotent(state: SubscriberState, operation: Operation)
    requires
        match operation {
            Operation::Subscribe { topic, .. } => state.topics.contains(topic),
            Operation::Unsubscribe { topic, .. } => !state.topics.contains(topic),
        },
    ensures
        state.succeeds(operation),
        state.perform(operation) == state,
{
}

/// A subscribe to a tracked topic and an unsubscribe from one that is not
/// tracked are answered with success at once, nothing is asked of the broker,
/// and the state is what it was.
pub proof fn lemma_no_op_succeeds(state: SubscriberState, topic: Seq<char>)
    ensures
        state.topics.contains(topic) ==> state.subscribe_step(topic).settled() == Some(
            Ok::<(), SubscriptionError>(()),
        ) && state.subscribe(topic) == state,
        !state.topics.contains(topic) ==> state.unsubscribe_step(topic).settled() == Some(
            Ok::<(), SubscriptionError>(()),
        ),
        state.topics.contains(topic) <==> state.unsubscribe_step(topic).settled().is_none(),
        state.topics.contains(topic) <==> state.subscribe_step(topic).settled().is_some(),
{
}

/// For any sequence of subscribe and unsubscribe operations, the tracked
/// topics are exactly the net effect of those that succeeded: the ones that
/// failed leave no trace.
pub proof fn lemma_net_effect(state: SubscriberState, operations: Seq<Operation>)
    requires
        state.wf(),
    ensures
        state.run(operations).wf(),
        state.run(operations).topics == state.net_effect(operations),
    decreases operations.len(),
{
    if operations.len() > 0 {
        lemma_net_effect(state, operations.drop_last());
        lemma_operation_effect(state.run(operations.drop_last()), operations.last());
    }
}

/// Between operations a connection stands exactly while a topic is tracked:
/// an operation on a valid state at rest ends in a valid state at rest, in
/// which the connection stands if and only if the set of topics is not empty.
pub proof fn lemma_connection_iff_topics(state: SubscriberState, operation: Operation)
    requires
        state.wf(),
        state.at_rest(),
    ensures
        state.perform(operation).wf(),
        state.perform(operation).at_rest(),
        state.perform(operation).link is Connected <==> !state.perform(operation).topics.is_empty(),
{
    lemma_operation_effect(state, operation);
    match operation {
        Operation::Subscribe { topic, outcome } => {
            assert(state.topics.insert(topic).contains(topic));
            if !state.topics.contains(topic) {
                assert(state.topics.insert(topic).remove(topic) =~= state.topics);
            }
        },
        Operation::Unsubscribe { topic, accepted } => {},
    }
}

/// After any sequence of operations that began at rest, the manager is at
/// rest again, and a connection stands if and only if a topic is tracked.
pub proof fn lemma_connection_iff_topics_throughout(
    state: SubscriberState,
    operations: Seq<Operation>,
)
    requires
        state.wf(),
        state.at_rest(),
    ensures
        state.run(operations).wf(),
        state.run(operations).at_rest(),
        state.run(operations).link is Connected <==> !state.run(operations).topics.is_empty(),
    decreases operations.len(),
{
    if operations.len() > 0 {
        lemma_connection_iff_topics_throughout(state, operations.drop_last());
        lemma_connection_iff_topics(state.run(operations.drop_last()), operations.last());
    }
}

} // verus!
