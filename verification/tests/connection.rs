use nats_admin::codec::{parse_slice, parse_str};
use nats_admin::config::{MqAuth, Timeout};
use nats_admin::connection::{
    answer_first_line, answer_greeting, connect_bytes, effective_read_timeout, flush_command, parse_hmsg,
    parse_msg, publish_command, received_line, request_frame, Delivery, Heard, NatsConnection,
    PongStep, RequestStep,
};
use nats_admin::json::Json;
use nats_admin::wire::append_publish_command;

const CRLF: [u8; 2] = [13, 10];

fn headers(list: Vec<(&str, &str)>) -> Vec<(String, String)> {
    let mut out = Vec::new();
    for (name, value) in list {
        out.push((name.to_string(), value.to_string()));
    }
    out
}

fn connection() -> NatsConnection {
    answer_greeting(Ok(Json::Null), &MqAuth::Anonymous, "1").unwrap().0
}

fn text_of(bytes: Vec<u8>) -> String {
    String::from_utf8(bytes).unwrap()
}

#[test]
fn publish_commands_are_written() {
    let mut out = b"before".to_vec();
    append_publish_command(&mut out, "a.b", None, b"hi", &headers(vec![])).unwrap();
    append_publish_command(&mut out, "c", Some("r"), b"", &headers(vec![])).unwrap();
    assert_eq!(text_of(out), "beforePUB a.b 2\r\nhi\r\nPUB c r 0\r\n\r\n");
}

#[test]
fn publish_commands_carry_headers() {
    let mut out = Vec::new();
    append_publish_command(&mut out, "a", None, b"hi", &headers(vec![("A", "1")])).unwrap();
    assert_eq!(text_of(out), "HPUB a 18 20\r\nNATS/1.0\r\nA: 1\r\n\r\nhi\r\n");
    let mut out = Vec::new();
    let list = headers(vec![(" K ", " \u{fc} "), ("L", "")]);
    append_publish_command(&mut out, "a", Some("r"), b"x", &list).unwrap();
    assert_eq!(
        text_of(out),
        "HPUB a r 26 27\r\nNATS/1.0\r\nK:  \u{fc} \r\nL: \r\n\r\nx\r\n"
    );
}

#[test]
fn headers_that_cannot_be_sent_are_refused() {
    for (name, value) in [
        ("", "v"),
        (" ", "v"),
        ("a:b", "v"),
        ("a\r", "v"),
        ("a\nb", "v"),
        ("a", "v\r"),
        ("a", "\nv"),
    ] {
        let mut out = b"kept".to_vec();
        let list = headers(vec![("ok", "v"), (name, value)]);
        let error = append_publish_command(&mut out, "s", None, b"p", &list).unwrap_err();
        assert_eq!(error, format!("Invalid NATS header: {}", name));
        assert_eq!(out, b"kept".to_vec());
    }
}

#[test]
fn header_order_does_not_matter_for_the_size() {
    let mut one = Vec::new();
    let mut two = Vec::new();
    append_publish_command(&mut one, "s", None, b"", &headers(vec![("A", "1"), ("BB", "22")]))
        .unwrap();
    append_publish_command(&mut two, "s", None, b"", &headers(vec![("BB", "22"), ("A", "1")]))
        .unwrap();
    assert_eq!(one.len(), two.len());
    assert_eq!(&one[..14], &two[..14]);
}

#[test]
fn reads_never_wait_for_no_time() {
    assert_eq!(
        effective_read_timeout(Timeout { secs: 0, nanos: 0 }),
        Timeout { secs: 30, nanos: 0 }
    );
    assert_eq!(
        effective_read_timeout(Timeout { secs: 0, nanos: 1 }),
        Timeout { secs: 0, nanos: 1 }
    );
}

#[test]
fn lines_lose_their_end() {
    assert_eq!(received_line(6, "PONG\r\n").unwrap(), "PONG");
    assert_eq!(received_line(3, " \n\r").unwrap(), " ");
    assert_eq!(received_line(0, "").unwrap_err(), "NATS connection closed by server");
}

#[test]
fn greeting_is_answered() {
    let line = "INFO {\"server_id\":\"S\",\"tls_required\":false}";
    let (connection, command) = answer_first_line(line, &MqAuth::Anonymous, "1.2.3").unwrap();
    assert_eq!(
        text_of(command),
        "CONNECT {\"echo\":true,\"headers\":true,\"lang\":\"rust\",\"name\":\"DBX\",\"no_responders\":true,\"pedantic\":false,\"protocol\":1,\"tls_required\":false,\"verbose\":false,\"version\":\"1.2.3\"}\r\nPING\r\n"
    );
    assert_eq!(connection.info.text_at("server_id"), Some("S"));
    assert_eq!(connection.next_sid, 0);
}

#[test]
fn credentials_are_sent_as_configured() {
    let auth = MqAuth::Token { token: "t\"\n".to_string() };
    let (_, command) = answer_first_line("INFO {}", &auth, "1").unwrap();
    let command = text_of(command);
    assert!(command.contains("\"auth_token\":\"t\\\"\\n\""));
    assert!(!command.contains("\"user\""));
    let auth = MqAuth::Basic { username: "u".to_string(), password: "p".to_string() };
    let (_, command) = answer_first_line("INFO {}", &auth, "1").unwrap();
    let command = text_of(command);
    assert!(command.contains("\"pass\":\"p\""));
    assert!(command.contains("\"user\":\"u\""));
    assert!(!command.contains("\"auth_token\""));
    for auth in [MqAuth::ApiKey, MqAuth::OAuth2] {
        assert_eq!(
            answer_first_line("INFO {}", &auth, "1").unwrap_err(),
            "NATS supports DBX auth modes none, token, and basic in this adapter release"
        );
    }
}

#[test]
fn unusable_greetings_are_refused() {
    let auth = MqAuth::Anonymous;
    assert_eq!(
        answer_first_line("HELLO", &auth, "1").unwrap_err(),
        "Expected NATS INFO greeting, received: HELLO"
    );
    assert_eq!(
        answer_first_line("INFO {", &auth, "1").unwrap_err(),
        "Invalid NATS INFO greeting: EOF while parsing an object at line 1 column 1"
    );
    assert_eq!(
        answer_first_line("INFO {\"tls_required\":true}", &auth, "1").unwrap_err(),
        "This NATS server requires TLS; TLS endpoints are not supported by the first native adapter release"
    );
    assert!(answer_first_line("INFO {\"tls_required\":1}", &auth, "1").is_ok());
    assert_eq!(
        answer_greeting(Err("odd".to_string()), &auth, "1").unwrap_err(),
        "Invalid NATS INFO greeting: odd"
    );
}

#[test]
fn lines_of_any_time_are_heard() {
    let mut connection = connection();
    assert_eq!(connection.hear("PING"), Heard::Ping);
    assert_eq!(connection.hear("+OK"), Heard::Noted);
    assert_eq!(connection.hear("INFO {\"port\":1}"), Heard::Noted);
    assert_eq!(connection.info.i64_at("port"), Some(1));
    assert_eq!(
        connection.hear("INFO x"),
        Heard::Failed(
            "Invalid async NATS INFO: expected value at line 1 column 1".to_string()
        )
    );
    assert_eq!(connection.info.i64_at("port"), Some(1));
    assert_eq!(
        connection.hear("-ERR 'Authorization Violation'"),
        Heard::Failed("NATS server error: Authorization Violation".to_string())
    );
    assert_eq!(connection.hear("-ERR"), Heard::Failed("NATS server error: ".to_string()));
    assert_eq!(connection.hear("PING "), Heard::Other);
    assert_eq!(
        connection.note_info(Err("why".to_string())),
        Err("Invalid async NATS INFO: why".to_string())
    );
}

#[test]
fn pong_is_waited_for() {
    let mut connection = connection();
    assert_eq!(flush_command(), b"PING\r\n".to_vec());
    assert_eq!(connection.pong_line("PING"), PongStep::Send(b"PONG\r\n".to_vec()));
    assert_eq!(connection.pong_line("+OK"), PongStep::ReadLine);
    assert_eq!(connection.pong_line("MSG a 1 0"), PongStep::ReadLine);
    assert_eq!(connection.pong_line("INFO {}"), PongStep::ReadLine);
    assert_eq!(
        connection.pong_line("-ERR ' x '"),
        PongStep::Failed("NATS server error:  x ".to_string())
    );
    assert_eq!(connection.pong_line("PONG"), PongStep::Done);
}

#[test]
fn requests_are_written() {
    let mut connection = connection();
    let (sid, command) =
        connection.begin_request_with("tok", "a.b", b"hi", &headers(vec![])).unwrap();
    assert_eq!(sid, 1);
    assert_eq!(
        text_of(command),
        "SUB _INBOX.DBX.tok 1\r\nUNSUB 1 1\r\nPUB a.b _INBOX.DBX.tok 2\r\nhi\r\n"
    );
    let list = headers(vec![("A", "1")]);
    let (sid, command) = connection.begin_request_with("tok", "a", b"", &list).unwrap();
    assert_eq!(sid, 2);
    assert_eq!(
        text_of(command),
        "SUB _INBOX.DBX.tok 2\r\nUNSUB 2 1\r\nHPUB a _INBOX.DBX.tok 18 18\r\nNATS/1.0\r\nA: 1\r\n\r\n\r\n"
    );
}

#[test]
fn every_request_has_its_number() {
    let mut connection = connection();
    let none = headers(vec![]);
    assert_eq!(
        connection.begin_request_with("t", "a..b", b"", &none).unwrap_err(),
        "NATS publish subject 'a..b' contains an empty token"
    );
    assert_eq!(connection.next_sid, 0);
    let bad = headers(vec![("a:b", "")]);
    assert_eq!(
        connection.begin_request_with("t", "a", b"", &bad).unwrap_err(),
        "Invalid NATS header: a:b"
    );
    assert_eq!(connection.next_sid, 1);
    assert_eq!(connection.begin_request_with("t", "a", b"", &none).unwrap().0, 2);
    connection.next_sid = u64::MAX - 1;
    assert_eq!(connection.begin_request_with("t", "a", b"", &none).unwrap().0, u64::MAX);
    assert_eq!(connection.begin_request_with("t", "a", b"", &none).unwrap().0, u64::MAX);
}

#[test]
fn requests_have_inboxes_of_their_own() {
    let mut connection = connection();
    let none = headers(vec![]);
    let mut inboxes = Vec::new();
    for number in 1..4u64 {
        let (sid, command) = connection.begin_request("a", b"", &none).unwrap();
        assert_eq!(sid, number);
        let command = text_of(command);
        let inbox = command["SUB ".len()..].split(' ').next().unwrap().to_string();
        let token = inbox.strip_prefix("_INBOX.DBX.").unwrap();
        assert_eq!(token.len(), 32);
        assert!(token.chars().all(|c| c.is_ascii_digit() || ('a'..='f').contains(&c)));
        assert_eq!(&token[12..13], "4");
        assert!("89ab".contains(&token[16..17]));
        assert_eq!(
            command,
            format!("SUB {0} {1}\r\nUNSUB {1} 1\r\nPUB a {0} 0\r\n\r\n", inbox, number)
        );
        assert!(!inboxes.contains(&inbox));
        inboxes.push(inbox);
    }
}

#[test]
fn message_lines_are_understood() {
    let delivery = Delivery { sid: 9, header_size: None, size: 11 };
    assert_eq!(parse_msg("MSG a.b 9 11"), Ok(delivery));
    assert_eq!(parse_msg("MSG a.b 9 reply 11"), Ok(delivery));
    let delivery = Delivery { sid: 9, header_size: Some(3), size: 11 };
    assert_eq!(parse_hmsg("HMSG a.b 9 3 11"), Ok(delivery));
    assert_eq!(parse_hmsg("HMSG a.b 9 reply 3 11"), Ok(delivery));
}

#[test]
fn broken_message_lines_are_refused() {
    let mut connection = connection();
    for (line, error) in [
        ("MSG a 1", "Invalid NATS MSG header: MSG a 1"),
        ("MSG a 1 2 3 4", "Invalid NATS MSG header: MSG a 1 2 3 4"),
        ("MSG a x 2", "Invalid NATS SID in: MSG a x 2"),
        ("MSG a 1 x", "Invalid NATS message size in: MSG a 1 x"),
        ("HMSG a 1 2", "Invalid NATS HMSG header: HMSG a 1 2"),
        ("HMSG a x 2 3", "Invalid NATS SID in: HMSG a x 2 3"),
        ("HMSG a 1 x 3", "Invalid NATS header size in: HMSG a 1 x 3"),
        ("HMSG a 1 2 x", "Invalid NATS total size in: HMSG a 1 2 x"),
    ] {
        assert_eq!(
            connection.request_line(line),
            RequestStep::Done(Err(error.to_string()))
        );
    }
}

#[test]
fn request_lines_lead_on() {
    let mut connection = connection();
    assert_eq!(connection.request_line("PING"), RequestStep::Send(b"PONG\r\n".to_vec()));
    assert_eq!(connection.request_line("PONG"), RequestStep::ReadLine);
    assert_eq!(connection.request_line("+OK"), RequestStep::ReadLine);
    assert_eq!(connection.request_line("INFO {\"a\":1}"), RequestStep::ReadLine);
    assert_eq!(connection.info.u64_at("a"), Some(1));
    assert_eq!(
        connection.request_line("-ERR 'x'"),
        RequestStep::Done(Err("NATS server error: x".to_string()))
    );
    assert_eq!(
        connection.request_line("MSG a 1 2"),
        RequestStep::ReadFrame(Delivery { sid: 1, header_size: None, size: 2 })
    );
    assert_eq!(
        connection.request_line("HMSG a 1 2 3"),
        RequestStep::ReadFrame(Delivery { sid: 1, header_size: Some(2), size: 3 })
    );
}

#[test]
fn replies_come_back() {
    let plain = Delivery { sid: 1, header_size: None, size: 2 };
    assert_eq!(request_frame(1, plain, b"hi", CRLF), RequestStep::Done(Ok(b"hi".to_vec())));
    assert_eq!(request_frame(2, plain, b"hi", CRLF), RequestStep::ReadLine);
    assert_eq!(
        request_frame(2, plain, b"hi", [10, 13]),
        RequestStep::Done(Err("Invalid NATS payload terminator".to_string()))
    );
    let frame = b"NATS/1.0\r\nA: 1\r\n\r\nhi";
    let with_headers = Delivery { sid: 1, header_size: Some(18), size: 20 };
    assert_eq!(
        request_frame(1, with_headers, frame, CRLF),
        RequestStep::Done(Ok(b"hi".to_vec()))
    );
    let too_long = Delivery { sid: 1, header_size: Some(21), size: 20 };
    assert_eq!(
        request_frame(1, too_long, frame, CRLF),
        RequestStep::Done(Err("Invalid NATS HMSG header length".to_string()))
    );
    assert_eq!(request_frame(2, too_long, frame, CRLF), RequestStep::ReadLine);
}

#[test]
fn requests_without_responders_fail() {
    let frame = b"NATS/1.0 503\r\n\r\n";
    let status = Delivery { sid: 1, header_size: Some(16), size: 16 };
    assert_eq!(
        request_frame(1, status, frame, CRLF),
        RequestStep::Done(Err(
            "NATS request has no responders (JetStream may be disabled)".to_string()
        ))
    );
    let cut = Delivery { sid: 1, header_size: Some(11), size: 16 };
    assert_eq!(
        request_frame(1, cut, frame, CRLF),
        RequestStep::Done(Ok(b"3\r\n\r\n".to_vec()))
    );
}

#[test]
fn messages_are_published() {
    let none = headers(vec![]);
    assert_eq!(publish_command("a", b"x", &none).unwrap(), b"PUB a 1\r\nx\r\n".to_vec());
    assert_eq!(
        publish_command("a.*", b"x", &none).unwrap_err(),
        "NATS publish subject 'a.*' is invalid"
    );
    assert_eq!(
        publish_command("a", b"x", &headers(vec![("", "")])).unwrap_err(),
        "Invalid NATS header: "
    );
}

#[test]
fn documents_are_read() {
    let text = "{\"a\":[null,true,18446744073709551615,-7,1.5,\"x\"],\"b\":{\"c\":2}}";
    let document = parse_str(text).unwrap();
    assert_eq!(parse_slice(text.as_bytes()).unwrap(), document);
    let items = document.get("a").unwrap().as_array().unwrap();
    assert_eq!(
        items,
        &vec![
            Json::Null,
            Json::Bool(true),
            Json::Unsigned(u64::MAX),
            Json::Negative(-7),
            Json::Fraction("1.5".to_string()),
            Json::Text("x".to_string()),
        ]
    );
    assert_eq!(items[2].as_i64(), None);
    assert_eq!(items[3].as_i64(), Some(-7));
    assert_eq!(items[3].as_u64(), None);
    assert_eq!(items[4].as_i64(), None);
    assert_eq!(document.u64_under("b", "c"), Some(2));
    assert_eq!(document.clone(), document);
    assert_eq!(parse_str("{\"k\":1,\"k\":2}").unwrap().u64_at("k"), Some(2));
    assert_eq!(
        parse_slice(b"[1,").unwrap_err(),
        "EOF while parsing a value at line 1 column 3"
    );
}

#[test]
fn later_entries_count() {
    let document = Json::Object(vec![
        ("k".to_string(), Json::Unsigned(1)),
        ("k".to_string(), Json::Unsigned(2)),
    ]);
    assert_eq!(document.u64_at("k"), Some(2));
    assert_eq!(document.u64_at("x"), None);
}

#[test]
fn requests_get_their_reply_whatever_comes_before() {
    let mut connection = connection();
    let (sid, _) = connection.begin_request_with("t", "a", b"", &headers(vec![])).unwrap();
    let mut answered = 0;
    for line in ["+OK", "PING", "INFO {}", "noise", "PONG"] {
        match connection.request_line(line) {
            RequestStep::Send(bytes) => {
                assert_eq!(bytes, b"PONG\r\n".to_vec());
                answered += 1;
            }
            step => assert_eq!(step, RequestStep::ReadLine),
        }
    }
    assert_eq!(answered, 1);
    match connection.request_line("MSG other 77 3") {
        RequestStep::ReadFrame(delivery) => {
            assert_eq!(request_frame(sid, delivery, b"abc", CRLF), RequestStep::ReadLine);
        }
        step => panic!("{:?}", step),
    }
    match connection.request_line("MSG _INBOX.DBX.t 1 5") {
        RequestStep::ReadFrame(delivery) => {
            assert_eq!(delivery.size, 5);
            assert_eq!(
                request_frame(sid, delivery, b"reply", CRLF),
                RequestStep::Done(Ok(b"reply".to_vec()))
            );
        }
        step => panic!("{:?}", step),
    }
}

#[test]
fn announcements_have_their_fields() {
    let command = publish_command("a.b", b"12345", &headers(vec![("K", "v")])).unwrap();
    let command = text_of(command);
    let line = command.lines().next().unwrap();
    let fields: Vec<&str> = line.split_whitespace().collect();
    assert_eq!(fields, vec!["HPUB", "a.b", "18", "23"]);
    let block: usize = fields[2].parse().unwrap();
    let total: usize = fields[3].parse().unwrap();
    let frame = &command[line.len() + 2..command.len() - 2];
    assert_eq!(frame.len(), total);
    assert_eq!(&frame[block..], "12345");
}

#[test]
fn connect_command_holds_the_printed_options() {
    assert_eq!(text_of(connect_bytes("{\"a\":1}")), "CONNECT {\"a\":1}\r\nPING\r\n");
}

#[test]
fn invalid_subjects_use_up_no_number() {
    let mut connection = connection();
    let bad = headers(vec![("", "")]);
    assert_eq!(
        connection.begin_request(" ", b"", &bad).unwrap_err(),
        "NATS publish subject is empty"
    );
    assert_eq!(connection.next_sid, 0);
    assert_eq!(
        connection.begin_request("a", b"", &bad).unwrap_err(),
        "Invalid NATS header: "
    );
    assert_eq!(connection.next_sid, 1);
}

#[test]
fn requests_end_with_the_first_outcome() {
    let mut connection = connection();
    let (sid, _) = connection.begin_request_with("t", "a", b"", &headers(vec![])).unwrap();
    let mut sent: Vec<Vec<u8>> = Vec::new();
    for line in ["PING", "INFO {\"n\":1}", "PING", "INFO {\"n\":2}"] {
        if let RequestStep::Send(bytes) = connection.request_line(line) {
            sent.push(bytes);
        }
    }
    assert_eq!(sent, vec![b"PONG\r\n".to_vec(), b"PONG\r\n".to_vec()]);
    match connection.request_line("HMSG _INBOX.DBX.t 1 18 23") {
        RequestStep::ReadFrame(delivery) => assert_eq!(
            request_frame(sid, delivery, b"NATS/1.0\r\nA: 1\r\n\r\nreply", CRLF),
            RequestStep::Done(Ok(b"reply".to_vec()))
        ),
        step => panic!("{:?}", step),
    }
    assert_eq!(connection.info.u64_at("n"), Some(2));
    assert_eq!(
        connection.request_line("-ERR 'Permissions Violation'"),
        RequestStep::Done(Err("NATS server error: Permissions Violation".to_string()))
    );
    assert_eq!(connection.info.u64_at("n"), Some(2));
}

#[test]
fn waits_end_with_the_first_failure() {
    let mut connection = connection();
    let mut sent = 0;
    for line in ["PING", "INFO {\"n\":7}", "+OK", "PING"] {
        match connection.pong_line(line) {
            PongStep::Send(bytes) => {
                assert_eq!(bytes, b"PONG\r\n".to_vec());
                sent += 1;
            }
            step => assert_eq!(step, PongStep::ReadLine),
        }
    }
    assert_eq!(sent, 2);
    assert_eq!(
        connection.pong_line("-ERR 'x'"),
        PongStep::Failed("NATS server error: x".to_string())
    );
    assert_eq!(
        connection.pong_line("INFO ?"),
        PongStep::Failed("Invalid async NATS INFO: expected value at line 1 column 1".to_string())
    );
    assert_eq!(connection.info.u64_at("n"), Some(7));
}
