//! What the admin operations take and give.
use vstd::prelude::*;

use crate::endpoint::optional_text;
use crate::json::{Json, JsonSpec};

verus! {

/// A kind of message queue.
#[derive(Clone, Copy, Debug, PartialEq, Eq, Structural)]
pub enum MqSystemKind {
    /// NATS, with or without JetStream.
    Nats,
}

/// What an adapter can do.
#[derive(Clone, Copy, Debug, PartialEq, Eq, Structural)]
pub struct MqCapabilities {
    /// Whether subscriptions can be listed and deleted.
    pub supports_subscriptions: bool,
    /// Whether subscriptions can be created.
    pub supports_create_subscription: bool,
    /// Whether messages can be sent.
    pub supports_send_message: bool,
}

/// What is known of a server.
#[derive(Debug, PartialEq, Eq)]
pub struct MqClusterInfo {
    /// The kind of message queue.
    pub system_kind: MqSystemKind,
    /// The version of the server.
    pub server_version: Option<String>,
    /// What the server offers, in short.
    pub resolved_profile: String,
    /// How the version was found.
    pub version_detection: String,
    /// What the adapter can do with the server.
    pub capabilities: MqCapabilities,
    /// Details.
    pub extra: Json,
}

/// The content of a [`MqClusterInfo`].
pub struct MqClusterInfoSpec {
    /// The kind of message queue.
    pub system_kind: MqSystemKind,
    /// The version of the server.
    pub server_version: Option<Seq<char>>,
    /// What the server offers, in short.
    pub resolved_profile: Seq<char>,
    /// How the version was found.
    pub version_detection: Seq<char>,
    /// What the adapter can do with the server.
    pub capabilities: MqCapabilities,
    /// Details.
    pub extra: JsonSpec,
}

impl View for MqClusterInfo {
    type V = MqClusterInfoSpec;

    open spec fn view(&self) -> MqClusterInfoSpec {
        MqClusterInfoSpec {
            system_kind: self.system_kind,
            server_version: optional_text(self.server_version),
            resolved_profile: self.resolved_profile@,
            version_detection: self.version_detection@,
            capabilities: self.capabilities,
            extra: self.extra@,
        }
    }
}

/// A topic, which is a JetStream stream.
#[derive(Debug, PartialEq, Eq)]
pub struct TopicInfo {
    /// Full name.
    pub name: String,
    /// Name without what it is in.
    pub short_name: String,
    /// Whether messages are kept.
    pub persistent: bool,
    /// How many messages there are.
    pub message_count: Option<i64>,
    /// How many consumers there are.
    pub consumer_count: Option<i64>,
    /// The kind of topic.
    pub state: Option<String>,
}

/// The content of a [`TopicInfo`].
pub struct TopicInfoSpec {
    /// Full name.
    pub name: Seq<char>,
    /// Name without what it is in.
    pub short_name: Seq<char>,
    /// Whether messages are kept.
    pub persistent: bool,
    /// How many messages there are.
    pub message_count: Option<i64>,
    /// How many consumers there are.
    pub consumer_count: Option<i64>,
    /// The kind of topic.
    pub state: Option<Seq<char>>,
}

impl View for TopicInfo {
    type V = TopicInfoSpec;

    open spec fn view(&self) -> TopicInfoSpec {
        TopicInfoSpec {
            name: self.name@,
            short_name: self.short_name@,
            persistent: self.persistent,
            message_count: self.message_count,
            consumer_count: self.consumer_count,
            state: optional_text(self.state),
        }
    }
}

/// The state of a topic.
#[derive(Debug, PartialEq, Eq)]
pub struct TopicStats {
    /// Bytes in store.
    pub storage_size: i64,
    /// Bytes that wait to be consumed.
    pub backlog_size: i64,
    /// Messages that came in.
    pub msg_in_counter: i64,
    /// How many subscriptions there are.
    pub subscription_count: u32,
    /// Whether nothing is known of rates.
    pub rates_unavailable: bool,
    /// What the server said.
    pub raw: Json,
}

/// The content of a [`TopicStats`].
pub struct TopicStatsSpec {
    /// Bytes in store.
    pub storage_size: i64,
    /// Bytes that wait to be consumed.
    pub backlog_size: i64,
    /// Messages that came in.
    pub msg_in_counter: i64,
    /// How many subscriptions there are.
    pub subscription_count: u32,
    /// Whether nothing is known of rates.
    pub rates_unavailable: bool,
    /// What the server said.
    pub raw: JsonSpec,
}

impl View for TopicStats {
    type V = TopicStatsSpec;

    open spec fn view(&self) -> TopicStatsSpec {
        TopicStatsSpec {
            storage_size: self.storage_size,
            backlog_size: self.backlog_size,
            msg_in_counter: self.msg_in_counter,
            subscription_count: self.subscription_count,
            rates_unavailable: self.rates_unavailable,
            raw: self.raw@,
        }
    }
}

/// A subscription, which is a JetStream consumer.
#[derive(Debug, PartialEq, Eq)]
pub struct SubscriptionInfo {
    /// Name.
    pub name: String,
    /// `push` or `pull`.
    pub sub_type: String,
    /// Messages that wait to be delivered or acknowledged.
    pub msg_backlog: i64,
    /// Whether the backlog is unknown.
    pub backlog_unavailable: Option<bool>,
}

/// The content of a [`SubscriptionInfo`].
pub struct SubscriptionInfoSpec {
    /// Name.
    pub name: Seq<char>,
    /// `push` or `pull`.
    pub sub_type: Seq<char>,
    /// Messages that wait to be delivered or acknowledged.
    pub msg_backlog: i64,
    /// Whether the backlog is unknown.
    pub backlog_unavailable: Option<bool>,
}

impl View for SubscriptionInfo {
    type V = SubscriptionInfoSpec;

    open spec fn view(&self) -> SubscriptionInfoSpec {
        SubscriptionInfoSpec {
            name: self.name@,
            sub_type: self.sub_type@,
            msg_backlog: self.msg_backlog,
            backlog_unavailable: self.backlog_unavailable,
        }
    }
}

/// A consumer of a subscription.
#[derive(Debug, PartialEq, Eq)]
pub struct ConsumerInfo {
    /// Name.
    pub consumer_name: String,
    /// Messages that it can still take.
    pub available_permits: i64,
    /// What it is.
    pub client_version: String,
}

/// The content of a [`ConsumerInfo`].
pub struct ConsumerInfoSpec {
    /// Name.
    pub consumer_name: Seq<char>,
    /// Messages that it can still take.
    pub available_permits: i64,
    /// What it is.
    pub client_version: Seq<char>,
}

impl View for ConsumerInfo {
    type V = ConsumerInfoSpec;

    open spec fn view(&self) -> ConsumerInfoSpec {
        ConsumerInfoSpec {
            consumer_name: self.consumer_name@,
            available_permits: self.available_permits,
            client_version: self.client_version@,
        }
    }
}

/// What waits to be consumed.
#[derive(Clone, Copy, Debug, PartialEq, Eq, Structural)]
pub struct BacklogStats {
    /// Messages.
    pub msg_backlog: i64,
    /// Bytes.
    pub backlog_size: i64,
}

/// A server of a cluster.
#[derive(Debug, PartialEq, Eq)]
pub struct BrokerNode {
    /// Number.
    pub id: i32,
    /// Host name or address.
    pub host: String,
    /// Port.
    pub port: i32,
    /// Name.
    pub broker_name: Option<String>,
    /// Its part in the cluster.
    pub role: Option<String>,
}

/// The content of a [`BrokerNode`].
pub struct BrokerNodeSpec {
    /// Number.
    pub id: i32,
    /// Host name or address.
    pub host: Seq<char>,
    /// Port.
    pub port: i32,
    /// Name.
    pub broker_name: Option<Seq<char>>,
    /// Its part in the cluster.
    pub role: Option<Seq<char>>,
}

impl View for BrokerNode {
    type V = BrokerNodeSpec;

    open spec fn view(&self) -> BrokerNodeSpec {
        BrokerNodeSpec {
            id: self.id,
            host: self.host@,
            port: self.port,
            broker_name: optional_text(self.broker_name),
            role: optional_text(self.role),
        }
    }
}

/// A cluster.
#[derive(Debug, PartialEq, Eq)]
pub struct ClusterInfo {
    /// Name.
    pub cluster_id: Option<String>,
    /// How many servers are known.
    pub broker_count: i32,
    /// The servers that are known.
    pub brokers: Vec<BrokerNode>,
    /// What the server said.
    pub raw: Json,
}

/// The content of a [`ClusterInfo`].
pub struct ClusterInfoSpec {
    /// Name.
    pub cluster_id: Option<Seq<char>>,
    /// How many servers are known.
    pub broker_count: i32,
    /// The servers that are known.
    pub brokers: Seq<BrokerNodeSpec>,
    /// What the server said.
    pub raw: JsonSpec,
}

impl View for ClusterInfo {
    type V = ClusterInfoSpec;

    open spec fn view(&self) -> ClusterInfoSpec {
        ClusterInfoSpec {
            cluster_id: optional_text(self.cluster_id),
            broker_count: self.broker_count,
            brokers: Seq::new(self.brokers@.len(), |i: int| self.brokers@[i]@),
            raw: self.raw@,
        }
    }
}

/// Where a new subscription starts.
#[derive(Debug, PartialEq, Eq)]
pub enum ResetPosition {
    /// At the first message that is kept.
    Earliest,
    /// At the next message that comes.
    Latest,
    /// Anywhere else.
    Other(String),
}

/// A message to send.
#[derive(Debug, PartialEq, Eq)]
pub struct SendMessageRequest {
    /// A stream, or a subject.
    pub topic: String,
    /// The payload in base64.
    pub payload_base64: String,
    /// Headers by name, in the order in which they are sent. No name occurs twice
    /// ([`crate::wire::has_distinct_names`]).
    pub headers: Vec<(String, String)>,
}

/// Where a message went.
#[derive(Debug, PartialEq, Eq)]
pub struct SendMessageResponse {
    /// The subject that it was published on.
    pub topic: String,
    /// Always zero: streams are not partitioned.
    pub partition: i32,
    /// Its place in the stream, zero where it went to none.
    pub offset: i64,
    /// When it was stored.
    pub timestamp: Option<i64>,
}

/// The content of a [`SendMessageResponse`].
pub struct SendMessageResponseSpec {
    /// The subject that it was published on.
    pub topic: Seq<char>,
    /// Always zero: streams are not partitioned.
    pub partition: i32,
    /// Its place in the stream, zero where it went to none.
    pub offset: i64,
    /// When it was stored.
    pub timestamp: Option<i64>,
}

impl View for SendMessageResponse {
    type V = SendMessageResponseSpec;

    open spec fn view(&self) -> SendMessageResponseSpec {
        SendMessageResponseSpec {
            topic: self.topic@,
            partition: self.partition,
            offset: self.offset,
            timestamp: self.timestamp,
        }
    }
}

} // verus!
