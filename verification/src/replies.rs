//! What the replies of a server say of streams, consumers and the server itself.
use vstd::prelude::*;

use crate::codec::{json_of_slice, parse_slice, read_spec};
use crate::endpoint::{optional_text, DEFAULT_NATS_PORT};
use crate::jetstream::{jetstream_error, reported_error};
use crate::json::{entries_spec, i64_of, items_spec, json_spec, text_of, u64_of, Json, JsonSpec};
use crate::text::owned;
use crate::types::{
    BacklogStats, BrokerNode, BrokerNodeSpec, ClusterInfo, ClusterInfoSpec, ConsumerInfo,
    ConsumerInfoSpec, MqCapabilities, MqClusterInfo, MqClusterInfoSpec, MqSystemKind,
    SubscriptionInfo, SubscriptionInfoSpec, TopicInfo, TopicInfoSpec, TopicStats, TopicStatsSpec,
};

verus! {

/// What the adapter can do, with JetStream or without it.
pub open spec fn capabilities_of(jetstream: bool) -> MqCapabilities {
    MqCapabilities {
        supports_subscriptions: jetstream,
        supports_create_subscription: jetstream,
        supports_send_message: true,
    }
}

/// What the adapter can do, with JetStream or without it.
pub fn nats_capabilities(jetstream: bool) -> (r: MqCapabilities)
    ensures
        r == capabilities_of(jetstream),
{
    MqCapabilities {
        supports_subscriptions: jetstream,
        supports_create_subscription: jetstream,
        supports_send_message: true,
    }
}

/// `a`, else `b`, else the empty text.
pub open spec fn first_text(a: Option<Seq<char>>, b: Option<Seq<char>>) -> Seq<char> {
    match (a, b) {
        (Some(text), _) => text,
        (None, Some(text)) => text,
        (None, None) => Seq::empty(),
    }
}

/// The integer that was found, else zero.
pub open spec fn or_zero(n: Option<i64>) -> i64 {
    match n {
        Some(n) => n,
        None => 0,
    }
}

/// The integer that was found, else zero.
fn number_or_zero(n: Option<i64>) -> (r: i64)
    ensures
        r == or_zero(n),
{
    match n {
        Some(n) => n,
        None => 0,
    }
}

/// The integer nearest to `a + b`.
pub open spec fn clamped_sum(a: i64, b: i64) -> i64 {
    if a + b > i64::MAX {
        i64::MAX
    } else if a + b < i64::MIN {
        i64::MIN
    } else {
        (a + b) as i64
    }
}

/// The integer nearest to `a + b`.
fn saturating_sum(a: i64, b: i64) -> (r: i64)
    ensures
        r == clamped_sum(a, b),
{
    let sum: i128 = a as i128 + b as i128;
    if sum > i64::MAX as i128 {
        i64::MAX
    } else if sum < i64::MIN as i128 {
        i64::MIN
    } else {
        sum as i64
    }
}

/// The text that was found, else another that was found, else the empty text.
fn text_or(a: Option<&str>, b: Option<&str>) -> (r: String)
    ensures
        r@ == first_text(found_text(a), found_text(b)),
{
    match a {
        Some(text) => owned(text),
        None => match b {
            Some(text) => owned(text),
            None => String::new(),
        },
    }
}

/// The content of a text that was found.
pub open spec fn found_text(text: Option<&str>) -> Option<Seq<char>> {
    match text {
        Some(text) => Some(text@),
        None => None,
    }
}

/// A text that was found, as a string of its own.
fn owned_text(text: Option<&str>) -> (r: Option<String>)
    ensures
        optional_text(r) == found_text(text),
{
    match text {
        Some(text) => Some(owned(text)),
        None => None,
    }
}

/// The topic that the state of a stream describes.
pub open spec fn topic_info_of(info: JsonSpec) -> TopicInfoSpec {
    let name = first_text(text_of(info.pointer("config"@, "name"@)), text_of(info.get("name"@)));
    TopicInfoSpec {
        name,
        short_name: name,
        persistent: true,
        message_count: i64_of(info.pointer("state"@, "messages"@)),
        consumer_count: i64_of(info.pointer("state"@, "consumer_count"@)),
        state: Some("stream"@),
    }
}

/// The topic that the state of a stream describes.
pub fn stream_to_topic_info(value: &Json) -> (r: TopicInfo)
    ensures
        r@ == topic_info_of(value@),
{
    let name: String = text_or(value.text_under("config", "name"), value.text_at("name"));
    TopicInfo {
        short_name: owned(name.as_str()),
        name,
        persistent: true,
        message_count: value.i64_under("state", "messages"),
        consumer_count: value.i64_under("state", "consumer_count"),
        state: Some(owned("stream")),
    }
}

/// The messages of a consumer that are to be delivered or acknowledged.
pub open spec fn consumer_backlog_of(info: JsonSpec) -> i64 {
    clamped_sum(
        or_zero(i64_of(info.get("num_pending"@))),
        or_zero(i64_of(info.get("num_ack_pending"@))),
    )
}

/// The subscription that the state of a consumer describes.
pub open spec fn subscription_of(info: JsonSpec) -> SubscriptionInfoSpec {
    SubscriptionInfoSpec {
        name: first_text(
            text_of(info.get("name"@)),
            text_of(info.pointer("config"@, "durable_name"@)),
        ),
        sub_type: if text_of(info.pointer("config"@, "deliver_subject"@)) is Some {
            "push"@
        } else {
            "pull"@
        },
        msg_backlog: consumer_backlog_of(info),
        backlog_unavailable: Some(false),
    }
}

/// The subscription that the state of a consumer describes.
pub fn consumer_to_subscription(value: &Json) -> (r: SubscriptionInfo)
    ensures
        r@ == subscription_of(value@),
{
    let name: String = text_or(value.text_at("name"), value.text_under("config", "durable_name"));
    let pending: i64 = number_or_zero(value.i64_at("num_pending"));
    let ack_pending: i64 = number_or_zero(value.i64_at("num_ack_pending"));
    let sub_type: &str = match value.text_under("config", "deliver_subject") {
        Some(_) => "push",
        None => "pull",
    };
    SubscriptionInfo {
        name,
        sub_type: owned(sub_type),
        msg_backlog: saturating_sum(pending, ack_pending),
        backlog_unavailable: Some(false),
    }
}

/// The contents of a list of topics.
pub open spec fn topic_views(topics: Seq<TopicInfo>) -> Seq<TopicInfoSpec> {
    Seq::new(topics.len(), |i: int| topics[i]@)
}

/// The topics that a listing of streams describes, in its order.
pub open spec fn topics_of(values: Seq<JsonSpec>) -> Seq<TopicInfoSpec> {
    Seq::new(values.len(), |i: int| topic_info_of(values[i]))
}

/// The contents of a list of subscriptions.
pub open spec fn subscription_views(subscriptions: Seq<SubscriptionInfo>) -> Seq<
    SubscriptionInfoSpec,
> {
    Seq::new(subscriptions.len(), |i: int| subscriptions[i]@)
}

/// The subscriptions that a listing of consumers describes, in its order.
pub open spec fn subscriptions_of(values: Seq<JsonSpec>) -> Seq<SubscriptionInfoSpec> {
    Seq::new(values.len(), |i: int| subscription_of(values[i]))
}

/// The topics that a listing of streams describes, in its order.
pub fn topics_of_streams(values: &Vec<Json>) -> (r: Vec<TopicInfo>)
    ensures
        topic_views(r@) == topics_of(items_spec(values@)),
        r@.len() == values@.len(),
        forall|i: int| 0 <= i < values@.len() ==> (#[trigger] r@[i])@ == topic_info_of(values@[i]@),
{
    let mut topics: Vec<TopicInfo> = Vec::new();
    let mut i: usize = 0;
    while i < values.len()
        invariant
            i <= values@.len(),
            topics@.len() == i,
            forall|j: int| 0 <= j < i ==> (#[trigger] topics@[j])@ == topic_info_of(values@[j]@),
        decreases values@.len() - i,
    {
        topics.push(stream_to_topic_info(&values[i]));
        i += 1;
    }
    assert(topic_views(topics@) =~= topics_of(items_spec(values@)));
    topics
}

/// The subscriptions that a listing of consumers describes, in its order.
pub fn subscriptions_of_consumers(values: &Vec<Json>) -> (r: Vec<SubscriptionInfo>)
    ensures
        subscription_views(r@) == subscriptions_of(items_spec(values@)),
        r@.len() == values@.len(),
        forall|i: int|
            0 <= i < values@.len() ==> (#[trigger] r@[i])@ == subscription_of(values@[i]@),
{
    let mut subscriptions: Vec<SubscriptionInfo> = Vec::new();
    let mut i: usize = 0;
    while i < values.len()
        invariant
            i <= values@.len(),
            subscriptions@.len() == i,
            forall|j: int|
                0 <= j < i ==> (#[trigger] subscriptions@[j])@ == subscription_of(values@[j]@),
        decreases values@.len() - i,
    {
        subscriptions.push(consumer_to_subscription(&values[i]));
        i += 1;
    }
    assert(subscription_views(subscriptions@) =~= subscriptions_of(items_spec(values@)));
    subscriptions
}

/// The lower half of an integer.
pub open spec fn low_half(n: u64) -> u32 {
    (n % 0x1_0000_0000) as u32
}

/// The statistics that the state of a stream gives.
pub open spec fn topic_stats_of(info: JsonSpec) -> TopicStatsSpec {
    let bytes = or_zero(i64_of(info.pointer("state"@, "bytes"@)));
    TopicStatsSpec {
        storage_size: bytes,
        backlog_size: bytes,
        msg_in_counter: or_zero(i64_of(info.pointer("state"@, "messages"@))),
        subscription_count: low_half(
            match u64_of(info.pointer("state"@, "consumer_count"@)) {
                Some(count) => count,
                None => 0,
            },
        ),
        rates_unavailable: true,
        raw: info,
    }
}

/// The statistics that the state of a stream gives.
pub fn topic_stats(info: Json) -> (r: TopicStats)
    ensures
        r@ == topic_stats_of(info@),
{
    let messages: i64 = number_or_zero(info.i64_under("state", "messages"));
    let bytes: i64 = number_or_zero(info.i64_under("state", "bytes"));
    let consumers: u64 = match info.u64_under("state", "consumer_count") {
        Some(count) => count,
        None => 0,
    };
    let subscription_count: u32 = (consumers % 0x1_0000_0000) as u32;
    TopicStats {
        storage_size: bytes,
        backlog_size: bytes,
        msg_in_counter: messages,
        subscription_count,
        rates_unavailable: true,
        raw: info,
    }
}

/// The one consumer that stands for the subscription `sub`, whose state is `info`.
pub open spec fn consumer_of(sub: Seq<char>, info: JsonSpec) -> ConsumerInfoSpec {
    ConsumerInfoSpec {
        consumer_name: sub,
        available_permits: or_zero(i64_of(info.get("num_pending"@))),
        client_version: "NATS JetStream"@,
    }
}

/// The consumers of the subscription `sub`, whose state is `info`: one that stands for it.
pub fn consumers_of_subscription(sub: &str, info: &Json) -> (r: Vec<ConsumerInfo>)
    ensures
        r@.len() == 1,
        r@[0]@ == consumer_of(sub@, info@),
{
    let mut consumers: Vec<ConsumerInfo> = Vec::new();
    consumers.push(
        ConsumerInfo {
            consumer_name: owned(sub),
            available_permits: number_or_zero(info.i64_at("num_pending")),
            client_version: owned("NATS JetStream"),
        },
    );
    consumers
}

/// The backlog of the consumer whose state is `info`: how many bytes it has is not known.
pub open spec fn consumer_backlog_stats(info: JsonSpec) -> BacklogStats {
    BacklogStats { msg_backlog: consumer_backlog_of(info), backlog_size: 0 }
}

/// The backlog of the consumer whose state is `info`.
pub fn consumer_backlog(info: &Json) -> (r: BacklogStats)
    ensures
        r == consumer_backlog_stats(info@),
        r == (BacklogStats { msg_backlog: consumer_backlog_of(info@), backlog_size: 0 }),
{
    let pending: i64 = number_or_zero(info.i64_at("num_pending"));
    let ack_pending: i64 = number_or_zero(info.i64_at("num_ack_pending"));
    BacklogStats { msg_backlog: saturating_sum(pending, ack_pending), backlog_size: 0 }
}

/// The backlog of the stream whose state is `info`.
pub open spec fn stream_backlog_of(info: JsonSpec) -> BacklogStats {
    BacklogStats {
        msg_backlog: or_zero(i64_of(info.pointer("state"@, "messages"@))),
        backlog_size: or_zero(i64_of(info.pointer("state"@, "bytes"@))),
    }
}

/// The backlog of the stream whose state is `info`.
pub fn stream_backlog(info: &Json) -> (r: BacklogStats)
    ensures
        r == stream_backlog_of(info@),
{
    BacklogStats {
        msg_backlog: number_or_zero(info.i64_under("state", "messages")),
        backlog_size: number_or_zero(info.i64_under("state", "bytes")),
    }
}

/// The integer that the lower half of `n` is in two's complement.
pub open spec fn low_signed_half(n: i64) -> i32 {
    let low = n as int % 0x1_0000_0000;
    if low < 0x8000_0000 {
        low as i32
    } else {
        (low - 0x1_0000_0000) as i32
    }
}

/// The integer that the lower half of `n` is in two's complement.
fn signed_half(n: i64) -> (r: i32)
    ensures
        r == low_signed_half(n),
{
    let r: i32 = #[verifier::truncate]
    (n as i32);
    assert(r == low_signed_half(n)) by {
        assert((n as i32) - n == 0x1_0000_0000 * (((n as i32) - n) / 0x1_0000_0000))
            by (bit_vector);
    }
    r
}

/// `a`, else `b`.
pub open spec fn either_text(a: Option<Seq<char>>, b: Option<Seq<char>>) -> Option<Seq<char>> {
    if a is Some {
        a
    } else {
        b
    }
}

/// The cluster that a server describes, of which it is the only member that is known.
pub open spec fn cluster_info_of(info: JsonSpec) -> ClusterInfoSpec {
    ClusterInfoSpec {
        cluster_id: text_of(info.get("cluster"@)),
        broker_count: 1,
        brokers: seq![
            BrokerNodeSpec {
                id: 0,
                host: first_text(text_of(info.get("host"@)), None),
                port: low_signed_half(
                    match i64_of(info.get("port"@)) {
                        Some(port) => port,
                        None => DEFAULT_NATS_PORT as i64,
                    },
                ),
                broker_name: either_text(
                    text_of(info.get("server_name"@)),
                    text_of(info.get("server_id"@)),
                ),
                role: Some("server"@),
            },
        ],
        raw: info,
    }
}

/// The cluster that a server describes in what it says of itself.
pub fn cluster_info(info: Json) -> (r: ClusterInfo)
    ensures
        r@ == cluster_info_of(info@),
{
    let host: String = text_or(info.text_at("host"), None);
    let port: i64 = match info.i64_at("port") {
        Some(port) => port,
        None => DEFAULT_NATS_PORT as i64,
    };
    let name: Option<String> = match info.text_at("server_name") {
        Some(name) => Some(owned(name)),
        None => owned_text(info.text_at("server_id")),
    };
    let cluster_id: Option<String> = owned_text(info.text_at("cluster"));
    let mut brokers: Vec<BrokerNode> = Vec::new();
    brokers.push(
        BrokerNode {
            id: 0,
            host,
            port: signed_half(port),
            broker_name: name,
            role: Some(owned("server")),
        },
    );
    let r: ClusterInfo = ClusterInfo { cluster_id, broker_count: 1, brokers, raw: info };
    assert(r@.brokers =~= cluster_info_of(info@).brokers);
    r
}

/// The state of the JetStream account, where the server has one: `document` is what the reply to
/// the request for it was read as.
pub open spec fn account_of(document: Result<JsonSpec, Seq<char>>) -> Option<JsonSpec> {
    match document {
        Ok(account) => if reported_error(account) is None {
            Some(account)
        } else {
            None
        },
        Err(_) => None,
    }
}

/// The content of a document that was found.
pub open spec fn found_document(document: Option<Json>) -> Option<JsonSpec> {
    match document {
        Some(document) => Some(document@),
        None => None,
    }
}

/// The state of the JetStream account, where the server has one: `document` is what the reply to
/// the request for it was read as.
pub fn accept_account(document: Result<Json, String>) -> (r: Option<Json>)
    ensures
        found_document(r) == account_of(read_spec(document)),
{
    match document {
        Ok(account) => match jetstream_error(&account) {
            Some(_) => None,
            None => Some(account),
        },
        Err(_) => None,
    }
}

/// The state of the JetStream account, where the server has one: `response` is the reply to the
/// request for it, where one came.
pub fn read_account(response: Result<Vec<u8>, String>) -> (r: Option<Json>)
    ensures
        found_document(r) == (match response {
            Ok(bytes) => account_of(json_of_slice(bytes@)),
            Err(_) => None,
        }),
{
    match response {
        Ok(bytes) => accept_account(parse_slice(bytes.as_slice())),
        Err(_) => None,
    }
}

/// What is known of a server that says `info` of itself and has the JetStream account `account`.
pub open spec fn probed_info_of(info: JsonSpec, account: Option<JsonSpec>) -> MqClusterInfoSpec {
    MqClusterInfoSpec {
        system_kind: MqSystemKind::Nats,
        server_version: text_of(info.get("version"@)),
        resolved_profile: if account is Some {
            "nats-core+jetstream"@
        } else {
            "nats-core"@
        },
        version_detection: "probed"@,
        capabilities: capabilities_of(account is Some),
        extra: JsonSpec::Object(
            Map::empty().insert("server"@, info).insert(
                "jetstream"@,
                JsonSpec::Bool(account is Some),
            ).insert(
                "jetstreamAccount"@,
                match account {
                    Some(account) => account,
                    None => JsonSpec::Null,
                },
            ),
        ),
    }
}

/// What is known of a server that says `info` of itself and has the JetStream account `account`.
pub fn probed_info(info: Json, account: Option<Json>) -> (r: MqClusterInfo)
    ensures
        r@ == probed_info_of(info@, found_document(account)),
{
    let jetstream: bool = account.is_some();
    let server_version: Option<String> = owned_text(info.text_at("version"));
    let profile: &str = if jetstream {
        "nats-core+jetstream"
    } else {
        "nats-core"
    };
    let ghost account_contents = found_document(account);
    let details: Json = match account {
        Some(account) => account,
        None => Json::Null,
    };
    let mut entries: Vec<(String, Json)> = Vec::new();
    entries.push((owned("server"), info));
    let ghost first = entries@;
    entries.push((owned("jetstream"), Json::Bool(jetstream)));
    let ghost second = entries@;
    entries.push((owned("jetstreamAccount"), details));
    proof {
        let one = Map::empty().insert("server"@, info@);
        assert(first.drop_last() =~= Seq::empty());
        assert(entries_spec(first.drop_last()) == Map::<Seq<char>, JsonSpec>::empty());
        assert(entries_spec(first) == one);
        assert(second.drop_last() =~= first);
        assert(json_spec(second.last().1) == JsonSpec::Bool(jetstream));
        assert(entries_spec(second) == one.insert("jetstream"@, JsonSpec::Bool(jetstream)));
        assert(entries@.drop_last() =~= second);
        assert(json_spec(details) == (match account_contents {
            Some(account) => account,
            None => JsonSpec::Null,
        }));
        assert(entries_spec(entries@) == probed_info_of(info@, account_contents).extra->Object_0);
    }
    MqClusterInfo {
        system_kind: MqSystemKind::Nats,
        server_version,
        resolved_profile: owned(profile),
        version_detection: owned("probed"),
        capabilities: nats_capabilities(jetstream),
        extra: Json::Object(entries),
    }
}

} // verus!
