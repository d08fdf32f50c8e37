use nats_admin::json::Json;
use nats_admin::subject::{
    stream_publish_subject, subject_matches, validate_publish_subject, validate_resource_name,
};

fn text(value: &str) -> Json {
    Json::Text(value.to_string())
}

fn object(entries: Vec<(&str, Json)>) -> Json {
    let mut fields = Vec::new();
    for (key, value) in entries {
        fields.push((key.to_string(), value));
    }
    Json::Object(fields)
}

fn stream_bound_to(subjects: Vec<Json>) -> Json {
    object(vec![("config", object(vec![("subjects", Json::Array(subjects))]))])
}

#[test]
fn subject_matching_supports_nats_wildcards() {
    assert!(subject_matches("device.*.state", "device.a.state"));
    assert!(subject_matches("device.>", "device.a.state"));
    assert!(!subject_matches("device.*.state", "device.a.b.state"));
}

#[test]
fn stream_publish_target_prefers_a_concrete_subject() {
    let info = object(vec![(
        "config",
        object(vec![
            ("name", text("EVENTS")),
            ("subjects", Json::Array(vec![text("events.>"), text("events.direct")])),
        ]),
    )]);
    assert_eq!(stream_publish_subject(&info, "EVENTS").unwrap(), "events.direct");
}

#[test]
fn subject_matches_itself() {
    for subject in ["a", "a.b", "a.*.b", "a.>", "", ".", "*", ">"] {
        assert!(subject_matches(subject, subject));
    }
}

#[test]
fn plain_pattern_matches_only_itself() {
    assert!(subject_matches("a.b", "a.b"));
    assert!(!subject_matches("a.b", "a.c"));
    assert!(!subject_matches("a.b", "a"));
    assert!(!subject_matches("a", "a.b"));
    assert!(!subject_matches("a*", "ab"));
}

#[test]
fn star_stands_for_one_token() {
    assert!(subject_matches("*", "a"));
    assert!(subject_matches("*", ""));
    assert!(!subject_matches("*", "a.b"));
    assert!(subject_matches("*.b", "a.b"));
    assert!(!subject_matches("a.*", "a"));
}

#[test]
fn tail_stands_for_what_is_left() {
    assert!(subject_matches(">", "a.b.c"));
    assert!(subject_matches("a.>", "a.b"));
    assert!(subject_matches("a.>", "a"));
    assert!(!subject_matches("a.>", "b.a"));
    assert!(subject_matches("a.>.z", "a.b.c"));
}

#[test]
fn stream_name_is_used_where_the_stream_is_bound_to_it() {
    let info = stream_bound_to(vec![text("direct"), text("ORD*"), text("*")]);
    assert_eq!(stream_publish_subject(&info, "ORDERS").unwrap(), "ORDERS");
}

#[test]
fn what_is_no_string_is_no_subject() {
    let info = stream_bound_to(vec![Json::Unsigned(7), Json::Null, text("orders.new")]);
    assert_eq!(stream_publish_subject(&info, "ORDERS").unwrap(), "orders.new");
}

#[test]
fn stream_with_wildcards_only_has_no_target() {
    let expected = "JetStream stream 'S' only has wildcard subjects. Enter a concrete NATS subject in the message target field.";
    let info = stream_bound_to(vec![text("a.*"), text("b.>")]);
    assert_eq!(stream_publish_subject(&info, "S").unwrap_err(), expected);
    assert_eq!(stream_publish_subject(&Json::Null, "S").unwrap_err(), expected);
}

#[test]
fn resource_names_are_checked() {
    assert_eq!(validate_resource_name("ORDERS", "stream"), Ok(()));
    assert_eq!(validate_resource_name("  ORDERS\n", "stream"), Ok(()));
    assert_eq!(
        validate_resource_name(" \t", "consumer"),
        Err("NATS consumer name is empty".to_string())
    );
    for bad in ["a.b", "a*", ">", "a/b", "a\\b", "a b", "a\u{3000}b"] {
        let expected = format!(
            "NATS stream name '{}' contains characters that cannot be used in a JetStream API token",
            bad
        );
        assert_eq!(validate_resource_name(bad, "stream"), Err(expected));
    }
}

#[test]
fn publish_subjects_are_checked() {
    assert_eq!(validate_publish_subject("a.b.c"), Ok(()));
    assert_eq!(validate_publish_subject(" a "), Ok(()));
    assert_eq!(
        validate_publish_subject("  "),
        Err("NATS publish subject is empty".to_string())
    );
    for bad in ["a b", "a.*", "a.>", "a\u{85}b"] {
        assert_eq!(
            validate_publish_subject(bad),
            Err(format!("NATS publish subject '{}' is invalid", bad))
        );
    }
    for bad in [".a", "a.", "a..b", "."] {
        assert_eq!(
            validate_publish_subject(bad),
            Err(format!("NATS publish subject '{}' contains an empty token", bad))
        );
    }
}

#[test]
fn publish_target_is_bound() {
    let info = stream_bound_to(vec![text("x.>"), text("y.z")]);
    let target = stream_publish_subject(&info, "S").unwrap();
    assert!(subject_matches("y.z", &target));
}

#[test]
fn api_subjects_and_inboxes_are_valid() {
    for subject in [
        "$JS.API.INFO",
        "$JS.API.STREAM.LIST",
        "$JS.API.STREAM.INFO.ORDERS",
        "$JS.API.STREAM.CREATE.ORDERS",
        "$JS.API.STREAM.DELETE.ORDERS",
        "$JS.API.CONSUMER.LIST.ORDERS",
        "$JS.API.CONSUMER.INFO.ORDERS.worker",
        "$JS.API.CONSUMER.CREATE.ORDERS.worker",
        "$JS.API.CONSUMER.DELETE.ORDERS.worker",
        "_INBOX.DBX.0123456789ab4def8123456789abcdef",
    ] {
        assert_eq!(validate_publish_subject(subject), Ok(()));
    }
}
