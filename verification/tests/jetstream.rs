use nats_admin::codec::{parse_slice, parse_str};
use nats_admin::jetstream::{
    accept_reply, account_info_request, consumer_info_request, create_subscription_request,
    create_topic_request, delete_subscription_request, delete_topic_request, ensure_jetstream_ok,
    jetstream_error, js_request_from_bytes, read_raw_reply, read_reply, stream_info_request,
    JsRequest, Listing, PageStep,
};
use nats_admin::json::Json;
use nats_admin::replies::{
    accept_account, cluster_info, consumer_backlog, consumer_to_subscription,
    consumers_of_subscription, probed_info, read_account, stream_backlog, stream_to_topic_info,
    subscriptions_of_consumers, topic_stats, topics_of_streams,
};
use nats_admin::types::{BacklogStats, MqSystemKind, ResetPosition};

fn document(text: &str) -> Json {
    parse_str(text).unwrap()
}

fn assert_request(request: Result<JsRequest, String>, subject: &str, payload: &str) {
    let request = request.unwrap();
    assert_eq!(request.subject, subject);
    assert_eq!(String::from_utf8(request.payload).unwrap(), payload);
}

#[test]
fn requests_have_subject_and_payload() {
    assert_request(account_info_request(), "$JS.API.INFO", "{}");
    assert_request(stream_info_request("S"), "$JS.API.STREAM.INFO.S", "{}");
    assert_request(consumer_info_request("S", "C"), "$JS.API.CONSUMER.INFO.S.C", "{}");
    assert_request(
        create_topic_request(" S ", None),
        "$JS.API.STREAM.CREATE.S",
        "{\"name\":\"S\",\"subjects\":[\"S\"]}",
    );
    assert_request(
        create_topic_request("S", Some(1)),
        "$JS.API.STREAM.CREATE.S",
        "{\"name\":\"S\",\"subjects\":[\"S\"]}",
    );
    assert_request(
        create_topic_request("S", Some(0)),
        "$JS.API.STREAM.CREATE.S",
        "{\"name\":\"S\",\"subjects\":[\"S\"]}",
    );
    assert_request(delete_topic_request("S\n"), "$JS.API.STREAM.DELETE.S", "{}");
    assert_request(
        create_subscription_request(" S", "C", &ResetPosition::Earliest),
        "$JS.API.CONSUMER.CREATE.S.C",
        "{\"config\":{\"ack_policy\":\"explicit\",\"deliver_policy\":\"all\",\"durable_name\":\"C\",\"name\":\"C\",\"replay_policy\":\"instant\"},\"stream_name\":\"S\"}",
    );
    assert_request(
        create_subscription_request("S", "C", &ResetPosition::Latest),
        "$JS.API.CONSUMER.CREATE.S.C",
        "{\"config\":{\"ack_policy\":\"explicit\",\"deliver_policy\":\"new\",\"durable_name\":\"C\",\"name\":\"C\",\"replay_policy\":\"instant\"},\"stream_name\":\"S\"}",
    );
    assert_request(
        delete_subscription_request("S ", "C"),
        "$JS.API.CONSUMER.DELETE.S.C",
        "{\"name\":\"C\",\"stream_name\":\"S\"}",
    );
}

#[test]
fn requests_are_refused() {
    let empty = "NATS stream name is empty";
    assert_eq!(stream_info_request(" ").unwrap_err(), empty);
    assert_eq!(consumer_info_request("", "").unwrap_err(), empty);
    assert_eq!(consumer_info_request("S", "").unwrap_err(), "NATS consumer name is empty");
    assert_eq!(create_topic_request("", Some(1)).unwrap_err(), empty);
    assert_eq!(
        create_topic_request("", Some(2)).unwrap_err(),
        "NATS JetStream streams are not partitioned"
    );
    assert_eq!(delete_topic_request("").unwrap_err(), empty);
    let other = ResetPosition::Other("timestamp".to_string());
    assert_eq!(create_subscription_request("", "C", &other).unwrap_err(), empty);
    assert_eq!(
        create_subscription_request("S", "C", &other).unwrap_err(),
        "NATS consumer creation currently supports earliest/latest start positions"
    );
    assert_eq!(
        delete_subscription_request("S", "a.b").unwrap_err(),
        "NATS consumer name 'a.b' contains characters that cannot be used in a JetStream API token"
    );
    assert_eq!(
        js_request_from_bytes("s".to_string(), Err("why".to_string())).unwrap_err(),
        "Failed to encode JetStream request: why"
    );
}

#[test]
fn reported_errors_are_found() {
    assert_eq!(jetstream_error(&document("{}")), None);
    assert_eq!(jetstream_error(&document("[]")), None);
    assert_eq!(
        jetstream_error(&document("{\"error\":{\"code\":404,\"description\":\"gone\"}}")),
        Some((404, "gone".to_string()))
    );
    let unknown = Some((500, "unknown JetStream error".to_string()));
    assert_eq!(jetstream_error(&document("{\"error\":null}")), unknown);
    assert_eq!(
        jetstream_error(&document("{\"error\":{\"code\":-1,\"description\":7}}")),
        unknown
    );
}

#[test]
fn reported_errors_are_refused() {
    let fine = document("{\"a\":1}");
    assert_eq!(ensure_jetstream_ok(fine.clone()).unwrap(), fine);
    assert_eq!(
        ensure_jetstream_ok(document("{\"error\":{\"code\":503,\"description\":\"down\"}}"))
            .unwrap_err(),
        "JetStream error 503: down"
    );
}

#[test]
fn replies_are_read() {
    assert_eq!(read_reply("s", b"{\"a\":1}").unwrap(), document("{\"a\":1}"));
    assert_eq!(
        read_reply("s", b"{\"error\":{}}").unwrap_err(),
        "JetStream error 500: unknown JetStream error"
    );
    assert_eq!(read_raw_reply("s", b"{\"error\":{}}").unwrap(), document("{\"error\":{}}"));
    assert_eq!(
        read_raw_reply("$JS.X", b"").unwrap_err(),
        "Invalid JetStream response from $JS.X: EOF while parsing a value at line 1 column 0"
    );
    assert_eq!(
        accept_reply("s", Err("odd".to_string())).unwrap_err(),
        "Invalid JetStream response from s: odd"
    );
}

fn next(step: Result<PageStep, String>) -> Listing {
    match step.unwrap() {
        PageStep::More(listing) => listing,
        PageStep::Done(_) => panic!("the listing is complete"),
    }
}

fn items(step: Result<PageStep, String>) -> Vec<Json> {
    match step.unwrap() {
        PageStep::More(_) => panic!("the listing is not complete"),
        PageStep::Done(items) => items,
    }
}

#[test]
fn listings_are_fetched_page_by_page() {
    let listing = Listing::streams();
    assert_request(listing.page_request(), "$JS.API.STREAM.LIST", "{\"offset\":0}");
    let listing = next(listing.read_page(b"{\"total\":3,\"streams\":[1,2]}"));
    assert_request(listing.page_request(), "$JS.API.STREAM.LIST", "{\"offset\":2}");
    assert_eq!(
        items(listing.read_page(b"{\"total\":3,\"streams\":[3]}")),
        vec![Json::Unsigned(1), Json::Unsigned(2), Json::Unsigned(3)]
    );
}

#[test]
fn listings_of_consumers_name_their_stream() {
    let listing = Listing::consumers("S").unwrap();
    assert_request(listing.page_request(), "$JS.API.CONSUMER.LIST.S", "{\"offset\":0}");
    assert_eq!(
        items(listing.read_page(b"{\"consumers\":[true]}")),
        vec![Json::Bool(true)]
    );
    assert_eq!(Listing::consumers("").unwrap_err(), "NATS stream name is empty");
}

#[test]
fn listings_end() {
    let nothing = items(Listing::streams().read_page(b"{\"total\":9}"));
    assert!(nothing.is_empty());
    let nothing = items(Listing::streams().read_page(b"{\"total\":9,\"streams\":7}"));
    assert!(nothing.is_empty());
    let listing = next(Listing::streams().read_page(b"{\"total\":9,\"streams\":[1]}"));
    assert_eq!(items(listing.read_page(b"{\"total\":9,\"streams\":[]}")).len(), 1);
    let more = items(Listing::streams().read_page(b"{\"total\":1,\"streams\":[1,2]}"));
    assert_eq!(more.len(), 2);
    assert_eq!(
        Listing::streams().read_page(b"{\"error\":{\"code\":1}}").unwrap_err(),
        "JetStream error 1: unknown JetStream error"
    );
    assert_eq!(
        Listing::streams().accept_page(Err("odd".to_string())).unwrap_err(),
        "Invalid JetStream response from $JS.API.STREAM.LIST: odd"
    );
}

#[test]
fn streams_are_topics() {
    let stream = document(
        "{\"config\":{\"name\":\"S\"},\"name\":\"T\",\"state\":{\"messages\":5,\"consumer_count\":2}}",
    );
    let topic = stream_to_topic_info(&stream);
    assert_eq!(topic.name, "S");
    assert_eq!(topic.short_name, "S");
    assert!(topic.persistent);
    assert_eq!(topic.message_count, Some(5));
    assert_eq!(topic.consumer_count, Some(2));
    assert_eq!(topic.state, Some("stream".to_string()));
    assert_eq!(stream_to_topic_info(&document("{\"name\":\"T\"}")).name, "T");
    let bare = stream_to_topic_info(&Json::Null);
    assert_eq!((bare.name.as_str(), bare.message_count), ("", None));
    let topics = topics_of_streams(&vec![stream.clone(), Json::Null]);
    assert_eq!(topics, vec![stream_to_topic_info(&stream), bare]);
}

#[test]
fn consumers_are_subscriptions() {
    let consumer = document(
        "{\"name\":\"C\",\"config\":{\"durable_name\":\"D\",\"deliver_subject\":\"x\"},\"num_pending\":3,\"num_ack_pending\":4}",
    );
    let subscription = consumer_to_subscription(&consumer);
    assert_eq!(subscription.name, "C");
    assert_eq!(subscription.sub_type, "push");
    assert_eq!(subscription.msg_backlog, 7);
    assert_eq!(subscription.backlog_unavailable, Some(false));
    let pull = consumer_to_subscription(&document("{\"config\":{\"durable_name\":\"D\"}}"));
    assert_eq!((pull.name.as_str(), pull.sub_type.as_str()), ("D", "pull"));
    assert_eq!(pull.msg_backlog, 0);
    let subscriptions = subscriptions_of_consumers(&vec![consumer.clone()]);
    assert_eq!(subscriptions, vec![subscription]);
    let consumers = consumers_of_subscription("sub", &consumer);
    assert_eq!(consumers.len(), 1);
    assert_eq!(consumers[0].consumer_name, "sub");
    assert_eq!(consumers[0].available_permits, 3);
    assert_eq!(consumers[0].client_version, "NATS JetStream");
}

#[test]
fn backlogs_do_not_overflow() {
    let most = document(
        "{\"num_pending\":9223372036854775807,\"num_ack_pending\":1}",
    );
    assert_eq!(
        consumer_backlog(&most),
        BacklogStats { msg_backlog: i64::MAX, backlog_size: 0 }
    );
    let least = document(
        "{\"num_pending\":-9223372036854775808,\"num_ack_pending\":-1}",
    );
    assert_eq!(consumer_to_subscription(&least).msg_backlog, i64::MIN);
    assert_eq!(
        stream_backlog(&document("{\"state\":{\"messages\":2,\"bytes\":30}}")),
        BacklogStats { msg_backlog: 2, backlog_size: 30 }
    );
    assert_eq!(
        stream_backlog(&Json::Null),
        BacklogStats { msg_backlog: 0, backlog_size: 0 }
    );
}

#[test]
fn stream_state_gives_statistics() {
    let info = document(
        "{\"state\":{\"messages\":2,\"bytes\":30,\"consumer_count\":4294967298}}",
    );
    let stats = topic_stats(info.clone());
    assert_eq!(stats.storage_size, 30);
    assert_eq!(stats.backlog_size, 30);
    assert_eq!(stats.msg_in_counter, 2);
    assert_eq!(stats.subscription_count, 2);
    assert!(stats.rates_unavailable);
    assert_eq!(stats.raw, info);
}

#[test]
fn server_describes_its_cluster() {
    let info = document(
        "{\"host\":\"h\",\"port\":4300,\"server_name\":\"n\",\"server_id\":\"i\",\"cluster\":\"c\"}",
    );
    let cluster = cluster_info(info.clone());
    assert_eq!(cluster.cluster_id, Some("c".to_string()));
    assert_eq!(cluster.broker_count, 1);
    assert_eq!(cluster.brokers.len(), 1);
    assert_eq!(cluster.brokers[0].id, 0);
    assert_eq!(cluster.brokers[0].host, "h");
    assert_eq!(cluster.brokers[0].port, 4300);
    assert_eq!(cluster.brokers[0].broker_name, Some("n".to_string()));
    assert_eq!(cluster.brokers[0].role, Some("server".to_string()));
    assert_eq!(cluster.raw, info);
    let bare = cluster_info(document("{\"server_id\":\"i\"}"));
    assert_eq!(bare.cluster_id, None);
    assert_eq!(bare.brokers[0].host, "");
    assert_eq!(bare.brokers[0].port, 4222);
    assert_eq!(bare.brokers[0].broker_name, Some("i".to_string()));
}

#[test]
fn ports_are_cut_to_their_type() {
    for port in [0i64, 1, -1, 2147483647, 2147483648, 4294967296, -2147483649, i64::MIN, i64::MAX] {
        let info = document(&format!("{{\"port\":{}}}", port));
        assert_eq!(cluster_info(info).brokers[0].port, port as i32);
    }
}

#[test]
fn server_is_probed() {
    let info = document("{\"version\":\"2.10\"}");
    let account = read_account(Ok(b"{\"memory\":1}".to_vec()));
    let probed = probed_info(info.clone(), account);
    assert_eq!(probed.system_kind, MqSystemKind::Nats);
    assert_eq!(probed.server_version, Some("2.10".to_string()));
    assert_eq!(probed.resolved_profile, "nats-core+jetstream");
    assert_eq!(probed.version_detection, "probed");
    assert!(probed.capabilities.supports_subscriptions);
    assert_eq!(probed.extra.get("server"), Some(&info));
    assert_eq!(probed.extra.get("jetstream"), Some(&Json::Bool(true)));
    assert_eq!(
        probed.extra.get("jetstreamAccount"),
        Some(&document("{\"memory\":1}"))
    );
    let probed = probed_info(Json::Null, None);
    assert_eq!(probed.server_version, None);
    assert_eq!(probed.resolved_profile, "nats-core");
    assert!(!probed.capabilities.supports_subscriptions);
    assert_eq!(probed.extra.get("jetstream"), Some(&Json::Bool(false)));
    assert_eq!(probed.extra.get("jetstreamAccount"), Some(&Json::Null));
}

#[test]
fn missing_accounts_are_no_failure() {
    assert_eq!(read_account(Err("no responders".to_string())), None);
    assert_eq!(read_account(Ok(b"{".to_vec())), None);
    assert_eq!(read_account(Ok(b"{\"error\":{}}".to_vec())), None);
    assert_eq!(accept_account(parse_slice(b"{}")), Some(document("{}")));
}
