//! Laws of what is reported of streams, consumers and servers: which field of a reply each value
//! comes from.
use vstd::prelude::*;

use crate::json::{u64_of, JsonSpec};
use crate::laws::documents::{
    at, below, is_number, is_text, law_fields_are_found, law_values_are_read_as_they_are, no_number,
    no_text,
};
use crate::replies::{
    account_of, capabilities_of, cluster_info_of, consumer_backlog_of, consumer_backlog_stats,
    consumer_of, probed_info_of, stream_backlog_of, subscription_of, subscription_views,
    subscriptions_of, topic_info_of, topic_stats_of, topic_views, topics_of,
};
use crate::types::{MqSystemKind, SubscriptionInfo, TopicInfo};

verus! {

/// Whether `held` has no integer that an `i64` can hold.
pub open spec fn no_i64(held: Option<JsonSpec>) -> bool {
    no_number(held, i64::MIN as int, i64::MAX as int)
}

/// The name of a topic is that in the configuration of its stream, else that of the stream, else
/// nothing. Its counts are those of the state of the stream, where the state has them.
pub proof fn law_topic_of_a_stream(info: JsonSpec, text: Seq<char>, n: i64)
    ensures
        is_text(below(info, "config"@, "name"@), text) ==> topic_info_of(info).name == text,
        no_text(below(info, "config"@, "name"@)) && is_text(at(info, "name"@), text)
            ==> topic_info_of(info).name == text,
        no_text(below(info, "config"@, "name"@)) && no_text(at(info, "name"@)) ==> topic_info_of(
            info,
        ).name.len() == 0,
        topic_info_of(info).short_name == topic_info_of(info).name,
        topic_info_of(info).persistent,
        topic_info_of(info).state == Some("stream"@),
        is_number(below(info, "state"@, "messages"@), n as int) ==> topic_info_of(info).message_count
            == Some(n),
        no_i64(below(info, "state"@, "messages"@)) ==> topic_info_of(info).message_count is None,
        is_number(below(info, "state"@, "consumer_count"@), n as int) ==> topic_info_of(
            info,
        ).consumer_count == Some(n),
        no_i64(below(info, "state"@, "consumer_count"@)) ==> topic_info_of(info).consumer_count is None,
{
    law_fields_are_found(info, "config"@, "name"@);
    law_fields_are_found(info, "name"@, "name"@);
    law_fields_are_found(info, "state"@, "messages"@);
    law_fields_are_found(info, "state"@, "consumer_count"@);
    law_values_are_read_as_they_are(below(info, "state"@, "messages"@), text, n as int);
    law_values_are_read_as_they_are(below(info, "state"@, "consumer_count"@), text, n as int);
}

/// The statistics of a topic are those of the state of its stream: the messages, the bytes and the
/// consumers, zero where the state has no such number. The consumers are counted modulo the range of
/// a `u32`, which is as they are where they fit.
pub proof fn law_statistics_of_a_stream(info: JsonSpec, n: int)
    ensures
        is_number(below(info, "state"@, "consumer_count"@), n) && 0 <= n <= u32::MAX && !(below(
            info,
            "state"@,
            "consumer_count"@,
        )->0 is Negative) ==> topic_stats_of(info).subscription_count == n,
        is_number(below(info, "state"@, "consumer_count"@), n) && 0 <= n && !(below(
            info,
            "state"@,
            "consumer_count"@,
        )->0 is Negative) ==> topic_stats_of(info).subscription_count == n % 0x1_0000_0000,
        no_number(below(info, "state"@, "consumer_count"@), 0, u64::MAX as int) ==> topic_stats_of(
            info,
        ).subscription_count == 0,
        is_number(below(info, "state"@, "messages"@), n) && i64::MIN <= n <= i64::MAX
            ==> topic_stats_of(info).msg_in_counter == n,
        no_i64(below(info, "state"@, "messages"@)) ==> topic_stats_of(info).msg_in_counter == 0,
        is_number(below(info, "state"@, "bytes"@), n) && i64::MIN <= n <= i64::MAX
            ==> topic_stats_of(info).storage_size == n && topic_stats_of(info).backlog_size == n,
        no_i64(below(info, "state"@, "bytes"@)) ==> topic_stats_of(info).storage_size == 0
            && topic_stats_of(info).backlog_size == 0,
        topic_stats_of(info).rates_unavailable,
        topic_stats_of(info).raw == info,
{
    let consumers = below(info, "state"@, "consumer_count"@);
    law_fields_are_found(info, "state"@, "messages"@);
    law_fields_are_found(info, "state"@, "bytes"@);
    law_fields_are_found(info, "state"@, "consumer_count"@);
    law_values_are_read_as_they_are(below(info, "state"@, "messages"@), Seq::empty(), n);
    law_values_are_read_as_they_are(below(info, "state"@, "bytes"@), Seq::empty(), n);
    law_values_are_read_as_they_are(consumers, Seq::empty(), n);
    if no_number(consumers, 0, u64::MAX as int) {
        if let Some(m) = u64_of(consumers) {
            assert(is_number(consumers, m as int));
        }
    }
}

/// Each statistic of a topic depends on its own field of the state of the stream alone.
pub proof fn law_statistics_depend_on_their_fields(a: JsonSpec, b: JsonSpec)
    ensures
        below(a, "state"@, "consumer_count"@) == below(b, "state"@, "consumer_count"@)
            ==> topic_stats_of(a).subscription_count == topic_stats_of(b).subscription_count,
        below(a, "state"@, "messages"@) == below(b, "state"@, "messages"@) ==> topic_stats_of(
            a,
        ).msg_in_counter == topic_stats_of(b).msg_in_counter && topic_info_of(a).message_count
            == topic_info_of(b).message_count,
        below(a, "state"@, "bytes"@) == below(b, "state"@, "bytes"@) ==> topic_stats_of(
            a,
        ).storage_size == topic_stats_of(b).storage_size,
{
    law_fields_are_found(a, "state"@, "messages"@);
    law_fields_are_found(a, "state"@, "bytes"@);
    law_fields_are_found(a, "state"@, "consumer_count"@);
    law_fields_are_found(b, "state"@, "messages"@);
    law_fields_are_found(b, "state"@, "bytes"@);
    law_fields_are_found(b, "state"@, "consumer_count"@);
}

/// The backlog of a stream is the messages and the bytes of its state, zero where it has no such
/// number.
pub proof fn law_backlog_of_a_stream(info: JsonSpec, n: i64)
    ensures
        is_number(below(info, "state"@, "messages"@), n as int) ==> stream_backlog_of(
            info,
        ).msg_backlog == n,
        no_i64(below(info, "state"@, "messages"@)) ==> stream_backlog_of(info).msg_backlog == 0,
        is_number(below(info, "state"@, "bytes"@), n as int) ==> stream_backlog_of(info).backlog_size
            == n,
        no_i64(below(info, "state"@, "bytes"@)) ==> stream_backlog_of(info).backlog_size == 0,
{
    law_fields_are_found(info, "state"@, "messages"@);
    law_fields_are_found(info, "state"@, "bytes"@);
    law_values_are_read_as_they_are(below(info, "state"@, "messages"@), Seq::empty(), n as int);
    law_values_are_read_as_they_are(below(info, "state"@, "bytes"@), Seq::empty(), n as int);
}

/// Whether `held` counts as `n`: it is that integer, or `n` is zero and it is no integer that an
/// `i64` can hold.
pub open spec fn counts_as(held: Option<JsonSpec>, n: i64) -> bool {
    is_number(held, n as int) || no_i64(held) && n == 0
}

/// The backlog of a consumer is the messages that are to be delivered and those that are to be
/// acknowledged, together, as far as an `i64` can hold them.
pub proof fn law_backlog_of_a_consumer(info: JsonSpec, pending: i64, unacknowledged: i64)
    requires
        counts_as(at(info, "num_pending"@), pending),
        counts_as(at(info, "num_ack_pending"@), unacknowledged),
    ensures
        i64::MIN <= pending + unacknowledged <= i64::MAX ==> consumer_backlog_of(info) == pending
            + unacknowledged,
        pending + unacknowledged > i64::MAX ==> consumer_backlog_of(info) == i64::MAX,
        pending + unacknowledged < i64::MIN ==> consumer_backlog_of(info) == i64::MIN,
        subscription_of(info).msg_backlog == consumer_backlog_of(info),
        consumer_backlog_stats(info).msg_backlog == consumer_backlog_of(info),
        consumer_backlog_stats(info).backlog_size == 0,
{
    law_fields_are_found(info, "num_pending"@, "num_pending"@);
    law_fields_are_found(info, "num_ack_pending"@, "num_ack_pending"@);
    law_values_are_read_as_they_are(at(info, "num_pending"@), Seq::empty(), pending as int);
    law_values_are_read_as_they_are(
        at(info, "num_ack_pending"@),
        Seq::empty(),
        unacknowledged as int,
    );
}

/// The name of a subscription is that of its consumer, else its durable name, else nothing. A
/// consumer with a subject to deliver to is a push consumer, any other is a pull consumer.
pub proof fn law_subscription_of_a_consumer(info: JsonSpec, text: Seq<char>)
    ensures
        is_text(at(info, "name"@), text) ==> subscription_of(info).name == text,
        no_text(at(info, "name"@)) && is_text(below(info, "config"@, "durable_name"@), text)
            ==> subscription_of(info).name == text,
        no_text(at(info, "name"@)) && no_text(below(info, "config"@, "durable_name"@))
            ==> subscription_of(info).name.len() == 0,
        is_text(below(info, "config"@, "deliver_subject"@), text) ==> subscription_of(info).sub_type
            == "push"@,
        no_text(below(info, "config"@, "deliver_subject"@)) ==> subscription_of(info).sub_type
            == "pull"@,
        subscription_of(info).backlog_unavailable == Some(false),
{
    law_fields_are_found(info, "name"@, "name"@);
    law_fields_are_found(info, "config"@, "durable_name"@);
    law_fields_are_found(info, "config"@, "deliver_subject"@);
}

/// The consumer that stands for a subscription has its name, and may take as many messages as are to
/// be delivered.
pub proof fn law_consumer_of_a_subscription(sub: Seq<char>, info: JsonSpec, pending: i64)
    ensures
        consumer_of(sub, info).consumer_name == sub,
        consumer_of(sub, info).client_version == "NATS JetStream"@,
        counts_as(at(info, "num_pending"@), pending) ==> consumer_of(sub, info).available_permits
            == pending,
{
    law_fields_are_found(info, "num_pending"@, "num_pending"@);
    law_values_are_read_as_they_are(at(info, "num_pending"@), Seq::empty(), pending as int);
}

/// A cluster is one server: its host, its port modulo the range of an `i32`, which is as it is where
/// it fits, 4222 where it names none, and its name, else its number.
pub proof fn law_cluster_of_a_server(info: JsonSpec, text: Seq<char>, n: i64)
    ensures
        cluster_info_of(info).broker_count == 1,
        cluster_info_of(info).brokers.len() == 1,
        cluster_info_of(info).raw == info,
        cluster_info_of(info).brokers[0].id == 0,
        cluster_info_of(info).brokers[0].role == Some("server"@),
        is_text(at(info, "cluster"@), text) ==> cluster_info_of(info).cluster_id == Some(text),
        no_text(at(info, "cluster"@)) ==> cluster_info_of(info).cluster_id is None,
        is_text(at(info, "host"@), text) ==> cluster_info_of(info).brokers[0].host == text,
        no_text(at(info, "host"@)) ==> cluster_info_of(info).brokers[0].host.len() == 0,
        is_number(at(info, "port"@), n as int) && i32::MIN <= n <= i32::MAX ==> cluster_info_of(
            info,
        ).brokers[0].port == n,
        is_number(at(info, "port"@), n as int) ==> (cluster_info_of(info).brokers[0].port - n)
            % 0x1_0000_0000 == 0,
        no_i64(at(info, "port"@)) ==> cluster_info_of(info).brokers[0].port == 4222,
        is_text(at(info, "server_name"@), text) ==> cluster_info_of(info).brokers[0].broker_name
            == Some(text),
        no_text(at(info, "server_name"@)) && is_text(at(info, "server_id"@), text)
            ==> cluster_info_of(info).brokers[0].broker_name == Some(text),
        no_text(at(info, "server_name"@)) && no_text(at(info, "server_id"@)) ==> cluster_info_of(
            info,
        ).brokers[0].broker_name is None,
{
    law_fields_are_found(info, "cluster"@, "cluster"@);
    law_fields_are_found(info, "host"@, "host"@);
    law_fields_are_found(info, "port"@, "port"@);
    law_fields_are_found(info, "server_name"@, "server_name"@);
    law_fields_are_found(info, "server_id"@, "server_id"@);
    law_values_are_read_as_they_are(at(info, "port"@), text, n as int);
}

/// A server has a JetStream account where the reply to the request for it was read and has no field
/// `error`, whatever else it holds.
pub proof fn law_account_of_a_server(document: JsonSpec, error: Seq<char>)
    ensures
        at(document, "error"@) is None ==> account_of(Ok(document)) == Some(document),
        at(document, "error"@) is Some ==> account_of(Ok(document)) is None,
        account_of(Err(error)) is None,
{
    law_fields_are_found(document, "error"@, "error"@);
}

/// What is known of a server tells its version, whether it has a JetStream account, what it said of
/// itself and the account.
pub proof fn law_probed_server(info: JsonSpec, account: JsonSpec, text: Seq<char>)
    ensures
        is_text(at(info, "version"@), text) ==> probed_info_of(info, None).server_version == Some(
            text,
        ) && probed_info_of(info, Some(account)).server_version == Some(text),
        no_text(at(info, "version"@)) ==> probed_info_of(info, None).server_version is None
            && probed_info_of(info, Some(account)).server_version is None,
        probed_info_of(info, None).system_kind == MqSystemKind::Nats,
        probed_info_of(info, Some(account)).system_kind == MqSystemKind::Nats,
        probed_info_of(info, None).resolved_profile == "nats-core"@,
        probed_info_of(info, Some(account)).resolved_profile == "nats-core+jetstream"@,
        probed_info_of(info, None).version_detection == "probed"@,
        probed_info_of(info, Some(account)).version_detection == "probed"@,
        probed_info_of(info, None).capabilities == capabilities_of(false),
        probed_info_of(info, Some(account)).capabilities == capabilities_of(true),
        at(probed_info_of(info, None).extra, "server"@) == Some(info),
        at(probed_info_of(info, Some(account)).extra, "server"@) == Some(info),
        at(probed_info_of(info, None).extra, "jetstream"@) == Some(JsonSpec::Bool(false)),
        at(probed_info_of(info, Some(account)).extra, "jetstream"@) == Some(JsonSpec::Bool(true)),
        at(probed_info_of(info, None).extra, "jetstreamAccount"@) == Some(JsonSpec::Null),
        at(probed_info_of(info, Some(account)).extra, "jetstreamAccount"@) == Some(account),
        forall|key: Seq<char>|
            key != "server"@ && key != "jetstream"@ && key != "jetstreamAccount"@ ==> (#[trigger] at(
                probed_info_of(info, None).extra,
                key,
            )) is None,
        forall|key: Seq<char>|
            key != "server"@ && key != "jetstream"@ && key != "jetstreamAccount"@ ==> (#[trigger] at(
                probed_info_of(info, Some(account)).extra,
                key,
            )) is None,
{
    reveal_strlit("server");
    reveal_strlit("jetstream");
    reveal_strlit("jetstreamAccount");
    assert("server"@.len() == 6 && "jetstream"@.len() == 9 && "jetstreamAccount"@.len() == 16);
    law_fields_are_found(info, "version"@, "version"@);
}

/// A listing is reported whole: one topic for each stream and one subscription for each consumer, in
/// its order.
pub proof fn law_listings_are_reported_whole(
    values: Seq<JsonSpec>,
    topics: Seq<TopicInfo>,
    subscriptions: Seq<SubscriptionInfo>,
)
    ensures
        topics_of(values).len() == values.len(),
        forall|i: int|
            0 <= i < values.len() ==> #[trigger] topics_of(values)[i] == topic_info_of(values[i]),
        subscriptions_of(values).len() == values.len(),
        forall|i: int|
            0 <= i < values.len() ==> #[trigger] subscriptions_of(values)[i] == subscription_of(
                values[i],
            ),
        topic_views(topics).len() == topics.len(),
        forall|i: int| 0 <= i < topics.len() ==> #[trigger] topic_views(topics)[i] == topics[i]@,
        subscription_views(subscriptions).len() == subscriptions.len(),
        forall|i: int|
            0 <= i < subscriptions.len() ==> #[trigger] subscription_views(subscriptions)[i]
                == subscriptions[i]@,
{
}

/// Messages can be sent with JetStream and without it; subscriptions need it.
pub proof fn law_capabilities(jetstream: bool)
    ensures
        capabilities_of(jetstream).supports_send_message,
        capabilities_of(jetstream).supports_subscriptions == jetstream,
        capabilities_of(jetstream).supports_create_subscription == jetstream,
{
}

} // verus!
