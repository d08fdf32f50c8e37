use nats_admin::codec::parse_str;
use nats_admin::json::Json;
use nats_admin::send::{
    accept_acknowledgement, accept_message, accept_stream_info, prepare_message,
    read_acknowledgement, Outgoing, SendStep,
};
use nats_admin::types::SendMessageRequest;

fn request(topic: &str, payload: &str) -> SendMessageRequest {
    SendMessageRequest {
        topic: topic.to_string(),
        payload_base64: payload.to_string(),
        headers: vec![("A".to_string(), "1".to_string())],
    }
}

fn message(topic: &str) -> Outgoing {
    prepare_message(request(topic, "aGVsbG8=")).unwrap()
}

#[test]
fn messages_are_prepared() {
    let message = message(" ORDERS\n");
    assert_eq!(message.target, "ORDERS");
    assert_eq!(message.payload, b"hello".to_vec());
    assert_eq!(message.headers, vec![("A".to_string(), "1".to_string())]);
}

#[test]
fn messages_that_cannot_be_sent_are_refused() {
    assert_eq!(
        prepare_message(request("", "****")).unwrap_err(),
        "Invalid base64 NATS payload: Invalid symbol 42, offset 0."
    );
    assert_eq!(
        prepare_message(request(" ", "")).unwrap_err(),
        "NATS publish subject is empty"
    );
    assert_eq!(
        accept_message(Err("odd".to_string()), "a", vec![]).unwrap_err(),
        "Invalid base64 NATS payload: odd"
    );
}

#[test]
fn a_stream_is_looked_for_first() {
    match message("ORDERS").begin().unwrap() {
        SendStep::AskStream(ask) => {
            assert_eq!(ask.subject, "$JS.API.STREAM.INFO.ORDERS");
            assert_eq!(ask.payload, b"{}".to_vec());
        }
        _ => panic!("the stream is not looked for"),
    }
    assert_eq!(message("orders.new").begin().unwrap(), SendStep::Publish);
}

#[test]
fn a_message_reaches_its_stream() {
    let message = message("ORDERS");
    assert_eq!(
        message.read_stream(b"{\"config\":{\"subjects\":[\"orders.>\",\"direct\"]}}").unwrap(),
        SendStep::Request("direct".to_string())
    );
    assert_eq!(
        message.read_stream(b"{\"config\":{\"subjects\":[\"*\"]}}").unwrap(),
        SendStep::Request("ORDERS".to_string())
    );
}

#[test]
fn a_missing_stream_means_publishing() {
    let message = message("ORDERS");
    assert_eq!(
        message.read_stream(b"{\"error\":{\"code\":404}}").unwrap(),
        SendStep::Publish
    );
    assert_eq!(message.continue_with(Ok(None)).unwrap(), SendStep::Publish);
    let response = message.published();
    assert_eq!(response.topic, "ORDERS");
    assert_eq!(response.partition, 0);
    assert_eq!(response.offset, 0);
    assert_eq!(response.timestamp, None);
}

#[test]
fn other_failures_stop_a_message() {
    let message = message("ORDERS");
    assert_eq!(
        message.read_stream(b"{\"error\":{\"code\":500,\"description\":\"x\"}}").unwrap_err(),
        "JetStream error 500: x"
    );
    assert_eq!(
        message.accept_stream(Err("odd".to_string())).unwrap_err(),
        "Invalid JetStream response from $JS.API.STREAM.INFO.ORDERS: odd"
    );
    assert_eq!(
        message.read_stream(b"{\"config\":{\"subjects\":[\"a..b\"]}}").unwrap_err(),
        "NATS publish subject 'a..b' contains an empty token"
    );
    assert!(message
        .read_stream(b"{}")
        .unwrap_err()
        .starts_with("JetStream stream 'ORDERS' only has wildcard subjects."));
    assert_eq!(accept_stream_info("S", Ok(Json::Null)).unwrap(), Some(Json::Null));
}

#[test]
fn acknowledgements_are_read() {
    let response = read_acknowledgement("s".to_string(), b"{\"seq\":42}").unwrap();
    assert_eq!(response.topic, "s");
    assert_eq!(response.partition, 0);
    assert_eq!(response.offset, 42);
    assert_eq!(response.timestamp, None);
    let response = read_acknowledgement("s".to_string(), b"{\"seq\":\"x\"}").unwrap();
    assert_eq!(response.offset, 0);
    assert_eq!(
        read_acknowledgement("s".to_string(), b"{\"error\":{\"code\":1}}").unwrap_err(),
        "JetStream error 1: unknown JetStream error"
    );
    assert_eq!(
        read_acknowledgement("s".to_string(), b"+").unwrap_err(),
        "Invalid JetStream publish acknowledgement: expected value at line 1 column 1"
    );
    assert_eq!(
        accept_acknowledgement("s".to_string(), parse_str("{\"seq\":-3}")).unwrap().offset,
        -3
    );
}
