//! The protocol of a connection: the greeting, the lines that a server sends, and the exchange that
//! makes up a request.
//!
//! Nothing here reads or writes a socket. Each function takes what was received and says what to do
//! next.
use vstd::prelude::*;
use vstd::utf8::encode_utf8;

use crate::codec::{
    bool_value, empty_object, json_of_str, json_text, number_value, parse_str, read_spec, set_field,
    text_value, value_contents, value_text,
};
use crate::config::{MqAuth, Timeout, DEFAULT_REQUEST_TIMEOUT_SECS};
use crate::json::{Json, JsonSpec};
use crate::subject::{publish_subject_error, text_outcome, validate_publish_subject};
use crate::text::{
    after, begins_with, decimal, decimal_text, owned, parse_u64, parse_usize, parsed_decimal,
    same_text, split_whitespace, starts_with, strip, strip_end, strip_end_of, strip_of,
    strip_prefix, texts, trim, trimmed, words, CharClass,
};
use crate::wire::{
    append_publish_command, crlf, extend, has_line_end, header_texts, headers_error, publish_bytes,
};

verus! {

/// What a client knows of its connection.
#[derive(Debug)]
pub struct NatsConnection {
    /// What the server last said of itself.
    pub info: Json,
    /// The subscription number of the last request, zero before the first.
    pub next_sid: u64,
}

/// How long a read is waited for on a connection that was made with `requested`.
pub open spec fn read_timeout_of(requested: Timeout) -> Timeout {
    if requested.is_zero_spec() {
        Timeout { secs: DEFAULT_REQUEST_TIMEOUT_SECS, nanos: 0 }
    } else {
        requested
    }
}

/// How long a read is waited for on a connection that was made with `requested`.
pub fn effective_read_timeout(requested: Timeout) -> (r: Timeout)
    ensures
        r == (if requested.is_zero_spec() {
            Timeout { secs: DEFAULT_REQUEST_TIMEOUT_SECS, nanos: 0 }
        } else {
            requested
        }),
        r == read_timeout_of(requested),
        !r.is_zero_spec(),
{
    if requested.is_zero() {
        Timeout::from_secs(DEFAULT_REQUEST_TIMEOUT_SECS)
    } else {
        requested
    }
}

/// A line as it was read: `count` bytes, none where the server closed the connection.
pub open spec fn line_of(count: usize, line: Seq<char>) -> Result<Seq<char>, Seq<char>> {
    if count == 0 {
        Err("NATS connection closed by server"@)
    } else {
        Ok(strip_end(line, CharClass::LineEnd))
    }
}

/// A line as it was read: `count` bytes, none where the server closed the connection.
pub fn received_line(count: usize, line: &str) -> (r: Result<String, String>)
    ensures
        text_outcome(r) == line_of(count, line@),
        match r {
            Ok(text) => count > 0 && text@ == strip_end(line@, CharClass::LineEnd),
            Err(text) => count == 0 && text@ == "NATS connection closed by server"@,
        },
{
    if count == 0 {
        return Err(owned("NATS connection closed by server"));
    }
    Ok(owned(strip_end_of(line, CharClass::LineEnd)))
}

/// The options that every client sends.
pub open spec fn client_options(version: Seq<char>) -> Map<Seq<char>, JsonSpec> {
    Map::empty().insert("verbose"@, JsonSpec::Bool(false)).insert(
        "pedantic"@,
        JsonSpec::Bool(false),
    ).insert("tls_required"@, JsonSpec::Bool(false)).insert("name"@, JsonSpec::Text("DBX"@)).insert(
        "lang"@,
        JsonSpec::Text("rust"@),
    ).insert("version"@, JsonSpec::Text(version)).insert("protocol"@, JsonSpec::Unsigned(1)).insert(
        "echo"@,
        JsonSpec::Bool(true),
    ).insert("headers"@, JsonSpec::Bool(true)).insert("no_responders"@, JsonSpec::Bool(true))
}

/// The options with which a client connects, where its way to prove who it is can be used.
pub open spec fn connect_options(version: Seq<char>, auth: MqAuth) -> Option<
    Map<Seq<char>, JsonSpec>,
> {
    let options = client_options(version);
    match auth {
        MqAuth::Anonymous => Some(options),
        MqAuth::Token { token } => Some(options.insert("auth_token"@, JsonSpec::Text(token@))),
        MqAuth::Basic { username, password } => Some(
            options.insert("user"@, JsonSpec::Text(username@)).insert(
                "pass"@,
                JsonSpec::Text(password@),
            ),
        ),
        MqAuth::ApiKey => None,
        MqAuth::OAuth2 => None,
    }
}

/// The command with which a client connects, where its options are printed as `text`. A `PING` comes
/// behind it.
pub open spec fn connect_lines(text: Seq<char>) -> Seq<char> {
    "CONNECT "@ + text + "\r\nPING\r\n"@
}

/// The command with which a client connects.
pub open spec fn connect_command(options: Map<Seq<char>, JsonSpec>) -> Seq<char> {
    connect_lines(json_text(JsonSpec::Object(options)))
}

/// Whether the options are written without a line end, so that they are one line of the protocol.
pub open spec fn stands_on_one_line(options: Option<Map<Seq<char>, JsonSpec>>) -> bool {
    options matches Some(fields) && !has_line_end(json_text(JsonSpec::Object(fields)))
}

/// What comes of a greeting in which the server says `info` of itself.
pub open spec fn greeting_outcome(
    info: Result<JsonSpec, Seq<char>>,
    version: Seq<char>,
    auth: MqAuth,
) -> Result<(JsonSpec, Seq<char>), Seq<char>> {
    match info {
        Err(error) => Err("Invalid NATS INFO greeting: "@ + error),
        Ok(document) => if tls_required(document) {
            Err(
                "This NATS server requires TLS; TLS endpoints are not supported by the first native adapter release"@,
            )
        } else {
            match connect_options(version, auth) {
                None => Err(
                    "NATS supports DBX auth modes none, token, and basic in this adapter release"@,
                ),
                Some(options) => Ok((document, connect_command(options))),
            }
        },
    }
}

/// Whether a server demands TLS.
pub open spec fn tls_required(info: JsonSpec) -> bool {
    info.get("tls_required"@) == Some(JsonSpec::Bool(true))
}

/// What comes of the first line that a server sends.
pub open spec fn first_line_outcome(line: Seq<char>, version: Seq<char>, auth: MqAuth) -> Result<
    (JsonSpec, Seq<char>),
    Seq<char>,
> {
    if begins_with(line, "INFO "@) {
        greeting_outcome(json_of_str(after(line, "INFO "@.len() as int)), version, auth)
    } else {
        Err("Expected NATS INFO greeting, received: "@ + line)
    }
}

/// Whether `r` is the connection and the command that `outcome` says, or its error.
pub open spec fn is_greeting_outcome(
    r: Result<(NatsConnection, Vec<u8>), String>,
    outcome: Result<(JsonSpec, Seq<char>), Seq<char>>,
) -> bool {
    match r {
        Ok((connection, command)) => outcome matches Ok((info, text)) && connection.info@ == info
            && connection.next_sid == 0 && command@ == encode_utf8(text),
        Err(error) => outcome == Err::<(JsonSpec, Seq<char>), Seq<char>>(error@),
    }
}

/// The options that every client sends.
fn client_options_value(version: &str) -> (r: serde_json::Value)
    ensures
        value_contents(r) == JsonSpec::Object(client_options(version@)),
{
    let mut options: serde_json::Value = empty_object();
    set_field(&mut options, "verbose", bool_value(false));
    set_field(&mut options, "pedantic", bool_value(false));
    set_field(&mut options, "tls_required", bool_value(false));
    set_field(&mut options, "name", text_value("DBX"));
    set_field(&mut options, "lang", text_value("rust"));
    set_field(&mut options, "version", text_value(version));
    set_field(&mut options, "protocol", number_value(1));
    set_field(&mut options, "echo", bool_value(true));
    set_field(&mut options, "headers", bool_value(true));
    set_field(&mut options, "no_responders", bool_value(true));
    options
}

/// The command with which a client connects, where its options are printed as `text`. A `PING` comes
/// behind it.
pub fn connect_bytes(text: &str) -> (r: Vec<u8>)
    ensures
        r@ == encode_utf8(connect_lines(text@)),
{
    let mut command: String = owned("CONNECT ");
    command.append(text);
    command.append("\r\nPING\r\n");
    bytes_of(command.as_str())
}

/// Answers a greeting in which the server says `info` of itself: the connection, and the command to
/// send. After that command, [`NatsConnection::pong_line`] tells when the connection is ready.
pub fn answer_greeting(info: Result<Json, String>, auth: &MqAuth, version: &str) -> (r: Result<
    (NatsConnection, Vec<u8>),
    String,
>)
    ensures
        is_greeting_outcome(r, greeting_outcome(read_spec(info), version@, *auth)),
        r is Ok ==> stands_on_one_line(connect_options(version@, *auth)),
{
    let info: Json = match info {
        Ok(document) => document,
        Err(error) => {
            let mut text: String = owned("Invalid NATS INFO greeting: ");
            text.append(error.as_str());
            return Err(text);
        },
    };
    if let Some(field) = info.get("tls_required") {
        if let Some(true) = field.as_bool() {
            return Err(
                owned(
                    "This NATS server requires TLS; TLS endpoints are not supported by the first native adapter release",
                ),
            );
        }
    }
    let mut options: serde_json::Value = client_options_value(version);
    match auth {
        MqAuth::Anonymous => {},
        MqAuth::Token { token } => {
            set_field(&mut options, "auth_token", text_value(token.as_str()));
        },
        MqAuth::Basic { username, password } => {
            set_field(&mut options, "user", text_value(username.as_str()));
            set_field(&mut options, "pass", text_value(password.as_str()));
        },
        MqAuth::ApiKey | MqAuth::OAuth2 => {
            return Err(
                owned(
                    "NATS supports DBX auth modes none, token, and basic in this adapter release",
                ),
            );
        },
    }
    let command: Vec<u8> = connect_bytes(value_text(&options).as_str());
    Ok((NatsConnection { info, next_sid: 0 }, command))
}

/// Answers the first line that a server sends, its greeting.
pub fn answer_first_line(line: &str, auth: &MqAuth, version: &str) -> (r: Result<
    (NatsConnection, Vec<u8>),
    String,
>)
    ensures
        is_greeting_outcome(r, first_line_outcome(line@, version@, *auth)),
        r is Ok ==> stands_on_one_line(connect_options(version@, *auth)),
{
    match strip_prefix(line, "INFO ") {
        Some(info) => answer_greeting(parse_str(info), auth, version),
        None => {
            let mut text: String = owned("Expected NATS INFO greeting, received: ");
            text.append(line);
            Err(text)
        },
    }
}

/// What a line means that can come at any time.
pub enum HeardSpec {
    /// The server asks for a sign of life.
    Ping,
    /// Nothing is to be done.
    Noted,
    /// The connection cannot be used any more.
    Failed(Seq<char>),
    /// The line is of another kind.
    Other,
}

/// What comes of the server saying `info` of itself anew.
pub open spec fn info_error(info: Result<JsonSpec, Seq<char>>) -> Option<Seq<char>> {
    match info {
        Ok(_) => None,
        Err(error) => Some("Invalid async NATS INFO: "@ + error),
    }
}

/// What the server reports after `-ERR`.
pub open spec fn server_error(report: Seq<char>) -> Seq<char> {
    "NATS server error: "@ + strip(trimmed(report), CharClass::Quote)
}

/// What `line` means, if it is one that can come at any time.
pub open spec fn heard(line: Seq<char>) -> HeardSpec {
    if line == "PING"@ {
        HeardSpec::Ping
    } else if line == "+OK"@ {
        HeardSpec::Noted
    } else if begins_with(line, "INFO "@) {
        match info_error(json_of_str(after(line, "INFO "@.len() as int))) {
            None => HeardSpec::Noted,
            Some(error) => HeardSpec::Failed(error),
        }
    } else if begins_with(line, "-ERR"@) {
        HeardSpec::Failed(server_error(after(line, "-ERR"@.len() as int)))
    } else {
        HeardSpec::Other
    }
}

/// What the server is known to say of itself once `line` was received.
pub open spec fn info_after(line: Seq<char>, info: JsonSpec) -> JsonSpec {
    if begins_with(line, "INFO "@) {
        match json_of_str(after(line, "INFO "@.len() as int)) {
            Ok(document) => document,
            Err(_) => info,
        }
    } else {
        info
    }
}

/// What a line means that can come at any time.
#[derive(Debug, PartialEq, Eq)]
pub enum Heard {
    /// The server asks for a sign of life.
    Ping,
    /// Nothing is to be done.
    Noted,
    /// The connection cannot be used any more.
    Failed(String),
    /// The line is of another kind.
    Other,
}

impl View for Heard {
    type V = HeardSpec;

    open spec fn view(&self) -> HeardSpec {
        match self {
            Heard::Ping => HeardSpec::Ping,
            Heard::Noted => HeardSpec::Noted,
            Heard::Failed(text) => HeardSpec::Failed(text@),
            Heard::Other => HeardSpec::Other,
        }
    }
}

/// What to do while the answer to a `PING` is waited for.
#[derive(Debug, PartialEq, Eq)]
pub enum PongStep {
    /// The answer came.
    Done,
    /// Send the bytes, then read the next line.
    Send(Vec<u8>),
    /// Read the next line.
    ReadLine,
    /// Give up.
    Failed(String),
}

/// What to do while the answer to a `PING` is waited for.
pub enum PongSpec {
    /// The answer came.
    Done,
    /// Send the bytes, then read the next line.
    Send(Seq<u8>),
    /// Read the next line.
    ReadLine,
    /// Give up.
    Failed(Seq<char>),
}

impl View for PongStep {
    type V = PongSpec;

    open spec fn view(&self) -> PongSpec {
        match self {
            PongStep::Done => PongSpec::Done,
            PongStep::Send(bytes) => PongSpec::Send(bytes@),
            PongStep::ReadLine => PongSpec::ReadLine,
            PongStep::Failed(text) => PongSpec::Failed(text@),
        }
    }
}

/// What to do on `line` while the answer to a `PING` is waited for.
pub open spec fn pong_step(line: Seq<char>) -> PongSpec {
    if line == "PONG"@ {
        PongSpec::Done
    } else {
        match heard(line) {
            HeardSpec::Ping => PongSpec::Send(encode_utf8("PONG\r\n"@)),
            HeardSpec::Noted => PongSpec::ReadLine,
            HeardSpec::Failed(error) => PongSpec::Failed(error),
            HeardSpec::Other => PongSpec::ReadLine,
        }
    }
}

/// A message that a line announces.
#[derive(Clone, Copy, Debug, PartialEq, Eq, Structural)]
pub struct Delivery {
    /// The subscription for which it comes.
    pub sid: u64,
    /// The size of the headers in front of the payload, where there are any.
    pub header_size: Option<usize>,
    /// The size of the headers and the payload.
    pub size: usize,
}

/// The message that a `MSG` line announces.
pub open spec fn msg_delivery(line: Seq<char>) -> Result<Delivery, Seq<char>> {
    let fields = words(line);
    if fields.len() != 4 && fields.len() != 5 {
        Err("Invalid NATS MSG header: "@ + line)
    } else {
        match parsed_decimal(fields[2], u64::MAX as nat) {
            None => Err("Invalid NATS SID in: "@ + line),
            Some(sid) => match parsed_decimal(fields.last(), usize::MAX as nat) {
                None => Err("Invalid NATS message size in: "@ + line),
                Some(size) => Ok(
                    Delivery { sid: sid as u64, header_size: None, size: size as usize },
                ),
            },
        }
    }
}

/// The message that an `HMSG` line announces.
pub open spec fn hmsg_delivery(line: Seq<char>) -> Result<Delivery, Seq<char>> {
    let fields = words(line);
    if fields.len() != 5 && fields.len() != 6 {
        Err("Invalid NATS HMSG header: "@ + line)
    } else {
        match parsed_decimal(fields[2], u64::MAX as nat) {
            None => Err("Invalid NATS SID in: "@ + line),
            Some(sid) => match parsed_decimal(fields[fields.len() - 2], usize::MAX as nat) {
                None => Err("Invalid NATS header size in: "@ + line),
                Some(header_size) => match parsed_decimal(fields.last(), usize::MAX as nat) {
                    None => Err("Invalid NATS total size in: "@ + line),
                    Some(size) => Ok(
                        Delivery {
                            sid: sid as u64,
                            header_size: Some(header_size as usize),
                            size: size as usize,
                        },
                    ),
                },
            },
        }
    }
}

/// What to do while the reply to a request is waited for.
#[derive(Debug, PartialEq, Eq)]
pub enum RequestStep {
    /// Read the next line.
    ReadLine,
    /// Send the bytes, then read the next line.
    Send(Vec<u8>),
    /// Read as many bytes as the message has, and the two bytes behind it.
    ReadFrame(Delivery),
    /// The reply came, or never will.
    Done(Result<Vec<u8>, String>),
}

/// What to do while the reply to a request is waited for.
pub enum RequestSpec {
    /// Read the next line.
    ReadLine,
    /// Send the bytes, then read the next line.
    Send(Seq<u8>),
    /// Read as many bytes as the message has, and the two bytes behind it.
    ReadFrame(Delivery),
    /// The reply came, or never will.
    Done(Result<Seq<u8>, Seq<char>>),
}

/// The bytes of a reply, or the text of the error.
pub open spec fn bytes_outcome(r: Result<Vec<u8>, String>) -> Result<Seq<u8>, Seq<char>> {
    match r {
        Ok(bytes) => Ok(bytes@),
        Err(text) => Err(text@),
    }
}

impl View for RequestStep {
    type V = RequestSpec;

    open spec fn view(&self) -> RequestSpec {
        match self {
            RequestStep::ReadLine => RequestSpec::ReadLine,
            RequestStep::Send(bytes) => RequestSpec::Send(bytes@),
            RequestStep::ReadFrame(delivery) => RequestSpec::ReadFrame(*delivery),
            RequestStep::Done(reply) => RequestSpec::Done(bytes_outcome(*reply)),
        }
    }
}

/// What to do about a message that a line announces.
pub open spec fn delivery_step(delivery: Result<Delivery, Seq<char>>) -> RequestSpec {
    match delivery {
        Ok(delivery) => RequestSpec::ReadFrame(delivery),
        Err(error) => RequestSpec::Done(Err(error)),
    }
}

/// What to do on `line` while the reply to a request is waited for.
pub open spec fn request_line_step(line: Seq<char>) -> RequestSpec {
    match heard(line) {
        HeardSpec::Ping => RequestSpec::Send(encode_utf8("PONG\r\n"@)),
        HeardSpec::Noted => RequestSpec::ReadLine,
        HeardSpec::Failed(error) => RequestSpec::Done(Err(error)),
        HeardSpec::Other => if begins_with(line, "MSG "@) {
            delivery_step(msg_delivery(line))
        } else if begins_with(line, "HMSG "@) {
            delivery_step(hmsg_delivery(line))
        } else {
            RequestSpec::ReadLine
        },
    }
}

/// Whether `bytes` begins with `prefix`.
pub open spec fn bytes_begin_with(bytes: Seq<u8>, prefix: Seq<u8>) -> bool {
    prefix.len() <= bytes.len() && bytes.subrange(0, prefix.len() as int) == prefix
}

/// What to do once the message `delivery` was read as `frame` and `terminator`, while the reply for
/// the subscription `sid` is waited for.
pub open spec fn request_frame_step(
    sid: u64,
    delivery: Delivery,
    frame: Seq<u8>,
    terminator: Seq<u8>,
) -> RequestSpec {
    if terminator != crlf() {
        RequestSpec::Done(Err("Invalid NATS payload terminator"@))
    } else if delivery.sid != sid {
        RequestSpec::ReadLine
    } else {
        match delivery.header_size {
            None => RequestSpec::Done(Ok(frame)),
            Some(header_size) => if header_size > frame.len() {
                RequestSpec::Done(Err("Invalid NATS HMSG header length"@))
            } else if bytes_begin_with(
                frame.subrange(0, header_size as int),
                encode_utf8("NATS/1.0 503"@),
            ) {
                RequestSpec::Done(
                    Err("NATS request has no responders (JetStream may be disabled)"@),
                )
            } else {
                RequestSpec::Done(Ok(frame.subrange(header_size as int, frame.len() as int)))
            },
        }
    }
}

/// The bytes of a text.
fn bytes_of(text: &str) -> (r: Vec<u8>)
    ensures
        r@ == encode_utf8(text@),
{
    let mut out: Vec<u8> = Vec::new();
    extend(&mut out, text.as_bytes());
    assert(out@ =~= encode_utf8(text@));
    out
}

/// The text `prefix` followed by `rest`.
fn message(prefix: &str, rest: &str) -> (r: String)
    ensures
        r@ == prefix@ + rest@,
{
    let mut text: String = owned(prefix);
    text.append(rest);
    text
}

/// The message that a `MSG` line announces.
pub fn parse_msg(line: &str) -> (r: Result<Delivery, String>)
    ensures
        match r {
            Ok(delivery) => msg_delivery(line@) == Ok::<Delivery, Seq<char>>(delivery),
            Err(text) => msg_delivery(line@) == Err::<Delivery, Seq<char>>(text@),
        },
{
    let fields = split_whitespace(line);
    let n: usize = fields.len();
    assert(texts(fields@) == words(line@));
    if n != 4 && n != 5 {
        return Err(message("Invalid NATS MSG header: ", line));
    }
    assert(words(line@)[2] == fields@[2]@);
    assert(words(line@).last() == fields@[n - 1]@);
    let sid: u64 = match parse_u64(fields[2]) {
        Some(sid) => sid,
        None => return Err(message("Invalid NATS SID in: ", line)),
    };
    let size: usize = match parse_usize(fields[n - 1]) {
        Some(size) => size,
        None => return Err(message("Invalid NATS message size in: ", line)),
    };
    Ok(Delivery { sid, header_size: None, size })
}

/// The message that an `HMSG` line announces.
pub fn parse_hmsg(line: &str) -> (r: Result<Delivery, String>)
    ensures
        match r {
            Ok(delivery) => hmsg_delivery(line@) == Ok::<Delivery, Seq<char>>(delivery),
            Err(text) => hmsg_delivery(line@) == Err::<Delivery, Seq<char>>(text@),
        },
{
    let fields = split_whitespace(line);
    let n: usize = fields.len();
    assert(texts(fields@) == words(line@));
    if n != 5 && n != 6 {
        return Err(message("Invalid NATS HMSG header: ", line));
    }
    assert(words(line@)[2] == fields@[2]@);
    assert(words(line@)[n - 2] == fields@[n - 2]@);
    assert(words(line@).last() == fields@[n - 1]@);
    let sid: u64 = match parse_u64(fields[2]) {
        Some(sid) => sid,
        None => return Err(message("Invalid NATS SID in: ", line)),
    };
    let header_size: usize = match parse_usize(fields[n - 2]) {
        Some(size) => size,
        None => return Err(message("Invalid NATS header size in: ", line)),
    };
    let size: usize = match parse_usize(fields[n - 1]) {
        Some(size) => size,
        None => return Err(message("Invalid NATS total size in: ", line)),
    };
    Ok(Delivery { sid, header_size: Some(header_size), size })
}

/// Whether `bytes` begins with `prefix`.
fn begin_with(bytes: &[u8], prefix: &[u8]) -> (r: bool)
    ensures
        r == bytes_begin_with(bytes@, prefix@),
{
    if prefix.len() > bytes.len() {
        return false;
    }
    let mut i: usize = 0;
    while i < prefix.len()
        invariant
            i <= prefix@.len() <= bytes@.len(),
            forall|j: int| 0 <= j < i ==> bytes@[j] == prefix@[j],
        decreases prefix@.len() - i,
    {
        if bytes[i] != prefix[i] {
            assert(bytes@.subrange(0, prefix@.len() as int)[i as int] != prefix@[i as int]);
            return false;
        }
        i += 1;
    }
    assert(bytes@.subrange(0, prefix@.len() as int) =~= prefix@);
    true
}

/// What to do once the message `delivery` was read as `frame` and the two bytes behind it, while the
/// reply for the subscription `sid` is waited for.
pub fn request_frame(sid: u64, delivery: Delivery, frame: &[u8], terminator: [u8; 2]) -> (r:
    RequestStep)
    ensures
        r@ == request_frame_step(sid, delivery, frame@, terminator@),
{
    if terminator[0] != 13u8 || terminator[1] != 10u8 {
        assert(terminator@ != crlf()) by {
            assert(crlf()[0] == 13u8 && crlf()[1] == 10u8);
        }
        return RequestStep::Done(Err(owned("Invalid NATS payload terminator")));
    }
    assert(terminator@ =~= crlf());
    if delivery.sid != sid {
        return RequestStep::ReadLine;
    }
    let header_size: usize = match delivery.header_size {
        None => {
            let mut body: Vec<u8> = Vec::new();
            extend(&mut body, frame);
            assert(body@ =~= frame@);
            return RequestStep::Done(Ok(body));
        },
        Some(size) => size,
    };
    if header_size > frame.len() {
        return RequestStep::Done(Err(owned("Invalid NATS HMSG header length")));
    }
    let header = vstd::slice::slice_subrange(frame, 0, header_size);
    if begin_with(header, "NATS/1.0 503".as_bytes()) {
        return RequestStep::Done(
            Err(owned("NATS request has no responders (JetStream may be disabled)")),
        );
    }
    let mut body: Vec<u8> = Vec::new();
    extend(&mut body, vstd::slice::slice_subrange(frame, header_size, frame.len()));
    assert(body@ =~= frame@.subrange(header_size as int, frame@.len() as int));
    RequestStep::Done(Ok(body))
}

impl NatsConnection {
    /// Takes note of what the server says of itself.
    pub fn note_info(&mut self, info: Result<Json, String>) -> (r: Result<(), String>)
        ensures
            final(self).next_sid == old(self).next_sid,
            match r {
                Ok(_) => info_error(read_spec(info)) is None && read_spec(info) == Ok::<
                    JsonSpec,
                    Seq<char>,
                >(final(self).info@),
                Err(text) => info_error(read_spec(info)) == Some(text@) && final(self).info@
                    == old(self).info@,
            },
    {
        match info {
            Ok(document) => {
                self.info = document;
                Ok(())
            },
            Err(error) => Err(message("Invalid async NATS INFO: ", error.as_str())),
        }
    }

    /// Takes note of a line that can come at any time.
    pub fn hear(&mut self, line: &str) -> (r: Heard)
        ensures
            r@ == heard(line@),
            final(self).info@ == info_after(line@, old(self).info@),
            final(self).next_sid == old(self).next_sid,
    {
        proof {
            reveal_strlit("PING");
            reveal_strlit("+OK");
            reveal_strlit("INFO ");
            assert("PING"@[0] != "INFO "@[0] && "+OK"@[0] != "INFO "@[0]);
            assert(begins_with(line@, "INFO "@) ==> line@[0] == "INFO "@[0]) by {
                if begins_with(line@, "INFO "@) {
                    assert(line@.subrange(0, "INFO "@.len() as int)[0] == line@[0]);
                }
            }
        }
        if same_text(line, "PING") {
            return Heard::Ping;
        }
        if same_text(line, "+OK") {
            return Heard::Noted;
        }
        if let Some(info) = strip_prefix(line, "INFO ") {
            return match self.note_info(parse_str(info)) {
                Ok(_) => Heard::Noted,
                Err(error) => Heard::Failed(error),
            };
        }
        if let Some(report) = strip_prefix(line, "-ERR") {
            return Heard::Failed(
                message("NATS server error: ", strip_of(trim(report), CharClass::Quote)),
            );
        }
        Heard::Other
    }

    /// What to do on `line` while the answer to a `PING` is waited for.
    pub fn pong_line(&mut self, line: &str) -> (r: PongStep)
        ensures
            r@ == pong_step(line@),
            final(self).info@ == info_after(line@, old(self).info@),
            final(self).next_sid == old(self).next_sid,
    {
        if same_text(line, "PONG") {
            proof {
                reveal_strlit("PONG");
                reveal_strlit("INFO ");
                assert(!begins_with(line@, "INFO "@));
            }
            return PongStep::Done;
        }
        match self.hear(line) {
            Heard::Ping => PongStep::Send(bytes_of("PONG\r\n")),
            Heard::Noted => PongStep::ReadLine,
            Heard::Failed(error) => PongStep::Failed(error),
            Heard::Other => PongStep::ReadLine,
        }
    }

    /// What to do on `line` while the reply to a request is waited for.
    pub fn request_line(&mut self, line: &str) -> (r: RequestStep)
        ensures
            r@ == request_line_step(line@),
            final(self).info@ == info_after(line@, old(self).info@),
            final(self).next_sid == old(self).next_sid,
    {
        match self.hear(line) {
            Heard::Ping => RequestStep::Send(bytes_of("PONG\r\n")),
            Heard::Noted => RequestStep::ReadLine,
            Heard::Failed(error) => RequestStep::Done(Err(error)),
            Heard::Other => {
                let delivery: Result<Delivery, String> = if starts_with(line, "MSG ") {
                    parse_msg(line)
                } else if starts_with(line, "HMSG ") {
                    parse_hmsg(line)
                } else {
                    return RequestStep::ReadLine;
                };
                match delivery {
                    Ok(delivery) => RequestStep::ReadFrame(delivery),
                    Err(error) => RequestStep::Done(Err(error)),
                }
            },
        }
    }

    /// Starts a request whose replies go to an inbox that ends in `token`: the number of its
    /// subscription, and the command to send. The number is used up once the subject is found valid.
    pub fn begin_request_with(
        &mut self,
        token: &str,
        subject: &str,
        payload: &[u8],
        headers: &Vec<(String, String)>,
    ) -> (r: Result<(u64, Vec<u8>), String>)
        ensures
            final(self).info == old(self).info,
            final(self).next_sid == sid_after(old(self).next_sid, subject@),
            request_start_outcome(r) == request_start(
                old(self).next_sid,
                token@,
                subject@,
                payload@,
                header_texts(headers@),
            ),
    {
        match validate_publish_subject(subject) {
            Ok(_) => {},
            Err(error) => return Err(error),
        }
        self.next_sid = self.next_sid.saturating_add(1);
        let sid: u64 = self.next_sid;
        let inbox: String = message("_INBOX.DBX.", token);
        let number: String = decimal_text(sid);
        let mut lines: String = owned("SUB ");
        lines.append(inbox.as_str());
        lines.append(" ");
        lines.append(number.as_str());
        lines.append("\r\nUNSUB ");
        lines.append(number.as_str());
        lines.append(" 1\r\n");
        let mut command: Vec<u8> = bytes_of(lines.as_str());
        match append_publish_command(&mut command, subject, Some(inbox.as_str()), payload, headers) {
            Ok(_) => Ok((sid, command)),
            Err(error) => Err(error),
        }
    }

    /// Starts a request whose replies go to a new inbox: the number of its subscription, and the
    /// command to send. The inbox is drawn once the subject is found valid.
    pub fn begin_request(
        &mut self,
        subject: &str,
        payload: &[u8],
        headers: &Vec<(String, String)>,
    ) -> (r: Result<(u64, Vec<u8>), String>)
        ensures
            final(self).info == old(self).info,
            final(self).next_sid == sid_after(old(self).next_sid, subject@),
            match publish_subject_error(subject@) {
                Some(error) => request_start_outcome(r) == Err::<(u64, Seq<u8>), Seq<char>>(error),
                None => exists|token: Seq<char>| #[trigger]
                    is_inbox_token(token) && request_start_outcome(r) == request_start(
                        old(self).next_sid,
                        token,
                        subject@,
                        payload@,
                        header_texts(headers@),
                    ),
            },
    {
        match validate_publish_subject(subject) {
            Ok(_) => {},
            Err(error) => return Err(error),
        }
        let token: String = new_inbox_token();
        self.begin_request_with(token.as_str(), subject, payload, headers)
    }
}

/// The number of the subscription that follows `sid`.
pub open spec fn following_sid(sid: u64) -> u64 {
    if sid < u64::MAX {
        (sid + 1) as u64
    } else {
        sid
    }
}

/// The number of the last subscription once a request on `subject` was started.
pub open spec fn sid_after(sid: u64, subject: Seq<char>) -> u64 {
    if publish_subject_error(subject) is None {
        following_sid(sid)
    } else {
        sid
    }
}

/// The subject to which the replies to a request go.
pub open spec fn inbox_subject(token: Seq<char>) -> Seq<char> {
    "_INBOX.DBX."@ + token
}

/// The commands that subscribe to an inbox for one message.
pub open spec fn subscribe_lines(token: Seq<char>, sid: u64) -> Seq<char> {
    "SUB "@ + inbox_subject(token) + " "@ + decimal(sid as nat) + "\r\nUNSUB "@ + decimal(
        sid as nat,
    ) + " 1\r\n"@
}

/// The commands that make a request.
pub open spec fn request_bytes(
    sid: u64,
    token: Seq<char>,
    subject: Seq<char>,
    payload: Seq<u8>,
    headers: Seq<(Seq<char>, Seq<char>)>,
) -> Seq<u8> {
    encode_utf8(subscribe_lines(token, sid)) + publish_bytes(
        subject,
        Some(inbox_subject(token)),
        payload,
        headers,
    )
}

/// What comes of starting a request on a connection whose last subscription is `last_sid`.
pub open spec fn request_start(
    last_sid: u64,
    token: Seq<char>,
    subject: Seq<char>,
    payload: Seq<u8>,
    headers: Seq<(Seq<char>, Seq<char>)>,
) -> Result<(u64, Seq<u8>), Seq<char>> {
    match publish_subject_error(subject) {
        Some(error) => Err(error),
        None => match headers_error(headers) {
            Some(error) => Err(error),
            None => Ok(
                (
                    following_sid(last_sid),
                    request_bytes(following_sid(last_sid), token, subject, payload, headers),
                ),
            ),
        },
    }
}

/// The number and the bytes of a request that was started, or the text of the error.
pub open spec fn request_start_outcome(r: Result<(u64, Vec<u8>), String>) -> Result<
    (u64, Seq<u8>),
    Seq<char>,
> {
    match r {
        Ok((sid, command)) => Ok((sid, command@)),
        Err(text) => Err(text@),
    }
}

/// Whether `c` is a hexadecimal digit in lower case.
pub open spec fn is_lower_hex(c: char) -> bool {
    '0' <= c <= '9' || 'a' <= c <= 'f'
}

/// Whether `s` is a random UUID, written as 32 hexadecimal digits.
pub open spec fn is_inbox_token(s: Seq<char>) -> bool {
    &&& s.len() == 32
    &&& forall|i: int| 0 <= i < s.len() ==> is_lower_hex(#[trigger] s[i])
    &&& s[12] == '4'
    &&& s[16] == '8' || s[16] == '9' || s[16] == 'a' || s[16] == 'b'
}

/// Calls `uuid::Uuid::new_v4` and displays the UUID with `simple`.
///
/// Trusted: what comes is 32 hexadecimal digits in lower case, with the version and the variant of a
/// random UUID in their places. Which ones is left to chance. It panics where the system gives no
/// random bytes.
#[verifier::external_body]
fn new_inbox_token() -> (r: String)
    ensures
        is_inbox_token(r@),
{
    uuid::Uuid::new_v4().simple().to_string()
}

/// The command that publishes a message without asking for a reply, or what is wrong with it.
pub open spec fn publish_start(
    subject: Seq<char>,
    payload: Seq<u8>,
    headers: Seq<(Seq<char>, Seq<char>)>,
) -> Result<Seq<u8>, Seq<char>> {
    match publish_subject_error(subject) {
        Some(error) => Err(error),
        None => match headers_error(headers) {
            Some(error) => Err(error),
            None => Ok(publish_bytes(subject, None, payload, headers)),
        },
    }
}

/// The command that publishes a message without asking for a reply. Once it was sent,
/// [`flush_command`] and [`NatsConnection::pong_line`] tell when the server has it.
pub fn publish_command(subject: &str, payload: &[u8], headers: &Vec<(String, String)>) -> (r: Result<
    Vec<u8>,
    String,
>)
    ensures
        bytes_outcome(r) == publish_start(subject@, payload@, header_texts(headers@)),
{
    match validate_publish_subject(subject) {
        Ok(_) => {},
        Err(error) => return Err(error),
    }
    let mut command: Vec<u8> = Vec::new();
    match append_publish_command(&mut command, subject, None, payload, headers) {
        Ok(_) => {
            assert(command@ =~= publish_bytes(subject@, None, payload@, header_texts(headers@)));
            Ok(command)
        },
        Err(error) => Err(error),
    }
}

/// The command that asks the server for a sign of life.
pub fn flush_command() -> (r: Vec<u8>)
    ensures
        r@ == encode_utf8("PING\r\n"@),
{
    bytes_of("PING\r\n")
}

} // verus!
