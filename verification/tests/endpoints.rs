use nats_admin::admin::{dial_failure, NatsAdmin, Unsupported};
use nats_admin::config::{ConnectOverride, MqAdminConfig, MqAuth, Timeout};
use nats_admin::endpoint::{
    configured_server_list, endpoint_from_url, nats_endpoints, parse_nats_endpoint, split_server_list, NatsEndpoint,
    UrlParts,
};
use nats_admin::json::Json;
use nats_admin::replies::nats_capabilities;
use nats_admin::types::{MqCapabilities, MqSystemKind};

fn config() -> MqAdminConfig {
    MqAdminConfig {
        admin_url: "nats://one:1, two".to_string(),
        auth: MqAuth::Anonymous,
        connect_override: None,
        socks_proxy: None,
        tls_skip_verify: false,
        connect_timeout: Timeout::from_secs(5),
        rpc_timeout: None,
        extra: Json::Null,
    }
}

fn with_servers(servers: Json) -> MqAdminConfig {
    let mut config = config();
    config.extra = Json::Object(vec![("servers".to_string(), servers)]);
    config
}

fn displays(endpoints: &Vec<NatsEndpoint>) -> Vec<&str> {
    let mut out = Vec::new();
    for endpoint in endpoints {
        out.push(endpoint.display.as_str());
    }
    out
}

fn text(value: &str) -> Json {
    Json::Text(value.to_string())
}

#[test]
fn parses_server_lists_and_default_port() {
    let endpoint = parse_nats_endpoint("127.0.0.1").expect("endpoint");
    assert_eq!(endpoint.host, "127.0.0.1");
    assert_eq!(endpoint.port, 4222);
    assert_eq!(split_server_list("a:4222, b:4223\nc:4224").len(), 3);
}

#[test]
fn server_lists_are_split_at_each_separator() {
    assert_eq!(split_server_list("a:4222, b:4223\nc:4224"), vec!["a:4222", "b:4223", "c:4224"]);
    assert_eq!(split_server_list(" a ;;\r\n, b"), vec!["a", "b"]);
    assert!(split_server_list(" ,;\n ").is_empty());
    assert!(split_server_list("").is_empty());
}

#[test]
fn server_lists_add_up() {
    let mut both = split_server_list("a, b");
    both.append(&mut split_server_list(" c"));
    assert_eq!(split_server_list("a, b; c"), both);
}

#[test]
fn endpoints_have_host_port_and_display() {
    let endpoint = parse_nats_endpoint("nats://example.com:4333").unwrap();
    assert_eq!(endpoint.host, "example.com");
    assert_eq!(endpoint.port, 4333);
    assert_eq!(endpoint.display, "nats://example.com:4333");
    let copy = endpoint.clone();
    assert_eq!(copy, endpoint);
    let endpoint = parse_nats_endpoint("[::1]:9").unwrap();
    assert_eq!(endpoint.host, "[::1]");
    assert_eq!(endpoint.port, 9);
    assert_eq!(endpoint.display, "[::1]:9");
}

#[test]
fn unusable_servers_are_refused() {
    assert_eq!(
        parse_nats_endpoint("tls://h").unwrap_err(),
        "NATS server 'tls://h' uses unsupported scheme 'tls'; the first native adapter release supports nats:// TCP endpoints"
    );
    let credentials =
        "Put NATS credentials in the DBX authentication fields instead of the server URL";
    assert_eq!(parse_nats_endpoint("user@h").unwrap_err(), credentials);
    assert_eq!(parse_nats_endpoint("nats://:secret@h").unwrap_err(), credentials);
    assert_eq!(
        parse_nats_endpoint("h:99999").unwrap_err(),
        "Invalid NATS server 'h:99999': invalid port number"
    );
    assert_eq!(
        parse_nats_endpoint("nats:a://b").unwrap_err(),
        "NATS server 'nats:a://b' has no host"
    );
}

#[test]
fn endpoint_follows_from_the_parts_of_its_url() {
    let parts = UrlParts {
        scheme: "nats".to_string(),
        username: String::new(),
        password: None,
        host: Some("h".to_string()),
        port: None,
    };
    let endpoint = endpoint_from_url("shown", Ok(parts)).unwrap();
    assert_eq!((endpoint.host.as_str(), endpoint.port), ("h", 4222));
    assert_eq!(endpoint.display, "shown");
    assert_eq!(
        endpoint_from_url("x", Err("bad".to_string())).unwrap_err(),
        "Invalid NATS server 'x': bad"
    );
}

#[test]
fn override_comes_first() {
    let mut config = with_servers(Json::Bool(true));
    config.connect_override = Some(ConnectOverride { host: "tunnel".to_string(), port: 7 });
    let endpoints = nats_endpoints(&config).unwrap();
    assert_eq!(endpoints.len(), 1);
    assert_eq!(endpoints[0].host, "tunnel");
    assert_eq!(endpoints[0].port, 7);
    assert_eq!(endpoints[0].display, "tunnel:7");
}

#[test]
fn settings_come_before_the_url() {
    let endpoints = nats_endpoints(&with_servers(text("x, y:5"))).unwrap();
    assert_eq!(displays(&endpoints), vec!["x", "y:5"]);
    let array = Json::Array(vec![text("x;y:5"), Json::Unsigned(3), text("z")]);
    let endpoints = nats_endpoints(&with_servers(array)).unwrap();
    assert_eq!(displays(&endpoints), vec!["x", "y:5", "z"]);
    let endpoints = nats_endpoints(&with_servers(text(" ; "))).unwrap();
    assert_eq!(displays(&endpoints), vec!["nats://one:1", "two"]);
    let endpoints = nats_endpoints(&with_servers(Json::Array(vec![]))).unwrap();
    assert_eq!(displays(&endpoints), vec!["nats://one:1", "two"]);
    assert_eq!(endpoints[0].port, 1);
    assert_eq!(endpoints[1].port, 4222);
}

#[test]
fn array_names_what_its_text_names() {
    let array = Json::Array(vec![text("a; b"), text("c")]);
    let from_array = nats_endpoints(&with_servers(array)).unwrap();
    let from_text = nats_endpoints(&with_servers(text("a; b,c"))).unwrap();
    assert_eq!(from_array, from_text);
}

#[test]
fn configurations_without_servers_are_refused() {
    assert_eq!(
        nats_endpoints(&with_servers(Json::Null)).unwrap_err(),
        "NATS extra.servers must be a string or string array"
    );
    let mut config = config();
    config.admin_url = " \n".to_string();
    assert_eq!(nats_endpoints(&config).unwrap_err(), "NATS server list is empty");
    config.admin_url = ",".to_string();
    assert_eq!(nats_endpoints(&config).unwrap_err(), "NATS server list is empty");
    config.admin_url = "ok, http://h, user@h".to_string();
    assert!(nats_endpoints(&config).unwrap_err().starts_with("NATS server 'http://h' uses"));
}

#[test]
fn admin_needs_a_usable_configuration() {
    let mut unusable = config();
    unusable.tls_skip_verify = true;
    unusable.socks_proxy = Some("proxy".to_string());
    assert_eq!(
        NatsAdmin::new(unusable).unwrap_err(),
        "NATS TLS skip verification is not supported by the native adapter yet"
    );
    let mut unusable = config();
    unusable.socks_proxy = Some("proxy".to_string());
    assert_eq!(
        NatsAdmin::new(unusable).unwrap_err(),
        "NATS SOCKS proxy transport is not supported by the native adapter yet"
    );
    let mut unusable = config();
    unusable.admin_url = String::new();
    assert_eq!(NatsAdmin::new(unusable).unwrap_err(), "NATS server list is empty");
}

#[test]
fn admin_waits_as_configured() {
    let admin = NatsAdmin::new(config()).unwrap();
    assert_eq!(admin.request_timeout(), Timeout { secs: 3600, nanos: 0 });
    let mut limited = config();
    limited.rpc_timeout = Some(Timeout { secs: 2, nanos: 500 });
    let admin = NatsAdmin::new(limited).unwrap();
    assert_eq!(admin.request_timeout(), Timeout { secs: 2, nanos: 500 });
    assert_eq!(admin.configuration().connect_timeout, Timeout { secs: 5, nanos: 0 });
}

#[test]
fn admin_tries_one_server_after_the_other() {
    let admin = NatsAdmin::new(config()).unwrap();
    let mut failures: Vec<String> = Vec::new();
    let first = admin.next_endpoint(&failures).unwrap().clone();
    assert_eq!(first.display, "nats://one:1");
    failures.push(dial_failure(&first, "refused"));
    let second = admin.next_endpoint(&failures).unwrap().clone();
    assert_eq!(second.display, "two");
    failures.push(dial_failure(&second, "timed out"));
    assert_eq!(
        admin.next_endpoint(&failures).unwrap_err(),
        "Failed to connect to NATS: nats://one:1: refused; two: timed out"
    );
}

#[test]
fn capabilities_depend_on_jetstream() {
    let admin = NatsAdmin::new(config()).unwrap();
    assert_eq!(admin.system_kind(), MqSystemKind::Nats);
    assert_eq!(admin.capabilities(), nats_capabilities(true));
    assert_eq!(
        nats_capabilities(true),
        MqCapabilities {
            supports_subscriptions: true,
            supports_create_subscription: true,
            supports_send_message: true,
        }
    );
    assert_eq!(
        nats_capabilities(false),
        MqCapabilities {
            supports_subscriptions: false,
            supports_create_subscription: false,
            supports_send_message: true,
        }
    );
}

#[test]
fn unsupported_operations_say_so() {
    let expected = vec![
        (Unsupported::GetTenant, "NATS does not use the DBX tenant model"),
        (Unsupported::ManageTenant, "NATS tenant management is not supported"),
        (Unsupported::ManageNamespace, "NATS namespace management is not supported"),
        (Unsupported::NamespacePolicies, "NATS namespace policies are not supported"),
        (Unsupported::UpdatePartitions, "NATS JetStream streams are not partitioned"),
        (Unsupported::SkipMessages, "NATS skip messages is not supported in this adapter release"),
        (
            Unsupported::ResetCursor,
            "NATS consumer cursor reset is not supported in this adapter release",
        ),
        (
            Unsupported::ClearBacklog,
            "NATS consumer backlog clearing is not supported in this adapter release",
        ),
        (
            Unsupported::PeekMessages,
            "NATS message peeking is not supported in this adapter release",
        ),
        (
            Unsupported::ExpireMessages,
            "NATS consumer message expiry is not supported in this adapter release",
        ),
        (Unsupported::UnloadTopic, "NATS stream unload is not supported"),
        (Unsupported::PublishRate, "NATS publish rate policy is not supported"),
        (Unsupported::DispatchRate, "NATS dispatch rate policy is not supported"),
        (Unsupported::SubscribeRate, "NATS subscribe rate policy is not supported"),
        (Unsupported::BacklogQuota, "NATS backlog quota policy is not supported"),
        (
            Unsupported::Retention,
            "NATS retention editing is not supported in this adapter release",
        ),
        (
            Unsupported::EffectivePolicies,
            "NATS policy inspection is not supported in this adapter release",
        ),
        (Unsupported::EditPermission, "NATS account permission editing is not supported"),
        (Unsupported::ListPermissions, "NATS account permission listing is not supported"),
        (Unsupported::RawRequest, "NATS raw admin requests are not exposed by this adapter"),
    ];
    for (operation, message) in expected {
        assert_eq!(operation.message(), message);
    }
}

#[test]
fn configured_servers_are_listed() {
    let none = Json::Null;
    assert_eq!(configured_server_list(&none, " a ; b").unwrap(), vec!["a", "b"]);
    let extra = Json::Object(vec![("servers".to_string(), text("x"))]);
    assert_eq!(configured_server_list(&extra, "a").unwrap(), vec!["x"]);
    assert_eq!(configured_server_list(&none, "").unwrap_err(), "NATS server list is empty");
}
