//! Laws of the greeting, the lines that a server sends and the messages that it announces.
use vstd::prelude::*;
use vstd::utf8::{encode_utf8, is_ascii_chars, is_ascii_chars_encode_utf8};

use crate::codec::{json_of_str, json_text};
use crate::config::MqAuth;
use crate::connection::{
    client_options, connect_lines, connect_options, first_line_outcome, greeting_outcome, heard,
    info_after, line_of, pong_step, request_frame_step, request_line_step, server_error, Delivery,
    HeardSpec, PongSpec, RequestSpec,
};
use crate::json::JsonSpec;
use crate::laws::documents::{at, law_fields_are_found};
use crate::laws::text::law_line_loses_its_end;
use crate::text::{
    after, begins_with, parsed_decimal, strip_end, strip_start, trimmed, words, CharClass,
};

verus! {

/// The greeting of a server is a line that begins with `INFO`, then what the server says of itself.
/// Any other first line is refused, and so is what cannot be read.
pub proof fn law_greeting_says_what_the_server_is(
    text: Seq<char>,
    line: Seq<char>,
    version: Seq<char>,
    auth: MqAuth,
    error: Seq<char>,
)
    ensures
        first_line_outcome("INFO "@ + text, version, auth) == greeting_outcome(
            json_of_str(text),
            version,
            auth,
        ),
        !begins_with(line, "INFO "@) ==> first_line_outcome(line, version, auth) == Err::<
            (JsonSpec, Seq<char>),
            Seq<char>,
        >("Expected NATS INFO greeting, received: "@ + line),
        greeting_outcome(Err(error), version, auth) == Err::<(JsonSpec, Seq<char>), Seq<char>>(
            "Invalid NATS INFO greeting: "@ + error,
        ),
{
    lemma_info_line(text);
}

/// A server that does not demand TLS is answered with the options of the client, where these can be
/// had for its way to prove who it is, and what it says of itself is kept as it is.
pub proof fn law_greeting_is_answered(info: JsonSpec, version: Seq<char>, auth: MqAuth)
    ensures
        at(info, "tls_required"@) == Some(JsonSpec::Bool(true)) ==> greeting_outcome(
            Ok(info),
            version,
            auth,
        ) == Err::<(JsonSpec, Seq<char>), Seq<char>>(
            "This NATS server requires TLS; TLS endpoints are not supported by the first native adapter release"@,
        ),
        at(info, "tls_required"@) != Some(JsonSpec::Bool(true)) ==> (connect_options(
            version,
            auth,
        ) matches Some(options) ==> greeting_outcome(Ok(info), version, auth) == Ok::<
            (JsonSpec, Seq<char>),
            Seq<char>,
        >(
            (
                info,
                "CONNECT "@ + json_text(JsonSpec::Object(options)) + "\r\n"@ + "PING"@ + "\r\n"@,
            ),
        )),
        at(info, "tls_required"@) != Some(JsonSpec::Bool(true)) && connect_options(
            version,
            auth,
        ) is None ==> greeting_outcome(Ok(info), version, auth) == Err::<
            (JsonSpec, Seq<char>),
            Seq<char>,
        >("NATS supports DBX auth modes none, token, and basic in this adapter release"@),
        connect_options(version, auth) is None <==> auth is ApiKey || auth is OAuth2,
{
    law_fields_are_found(info, "tls_required"@, "tls_required"@);
    reveal_strlit("\r\n");
    reveal_strlit("PING");
    reveal_strlit("\r\nPING\r\n");
    assert("\r\nPING\r\n"@ =~= "\r\n"@ + "PING"@ + "\r\n"@);
    if let Some(options) = connect_options(version, auth) {
        let text = json_text(JsonSpec::Object(options));
        assert(connect_lines(text) =~= "CONNECT "@ + text + "\r\n"@ + "PING"@ + "\r\n"@);
    }
}

/// A client says of itself what it is, that it understands headers and wants to be told where nobody
/// answers, and that it wants neither confirmations nor TLS.
pub proof fn law_what_a_client_says_of_itself(version: Seq<char>)
    ensures
        ({
            let client = JsonSpec::Object(client_options(version));
            &&& at(client, "verbose"@) == Some(JsonSpec::Bool(false))
            &&& at(client, "pedantic"@) == Some(JsonSpec::Bool(false))
            &&& at(client, "tls_required"@) == Some(JsonSpec::Bool(false))
            &&& at(client, "name"@) == Some(JsonSpec::Text("DBX"@))
            &&& at(client, "lang"@) == Some(JsonSpec::Text("rust"@))
            &&& at(client, "version"@) == Some(JsonSpec::Text(version))
            &&& at(client, "protocol"@) == Some(JsonSpec::Unsigned(1))
            &&& at(client, "echo"@) == Some(JsonSpec::Bool(true))
            &&& at(client, "headers"@) == Some(JsonSpec::Bool(true))
            &&& at(client, "no_responders"@) == Some(JsonSpec::Bool(true))
        }),
        forall|key: Seq<char>| #[trigger]
            at(JsonSpec::Object(client_options(version)), key) is Some ==> key == "verbose"@ || key
                == "pedantic"@ || key == "tls_required"@ || key == "name"@ || key == "lang"@ || key
                == "version"@ || key == "protocol"@ || key == "echo"@ || key == "headers"@ || key
                == "no_responders"@,
{
    reveal_strlit("verbose");
    reveal_strlit("pedantic");
    reveal_strlit("tls_required");
    reveal_strlit("name");
    reveal_strlit("lang");
    reveal_strlit("version");
    reveal_strlit("protocol");
    reveal_strlit("echo");
    reveal_strlit("headers");
    reveal_strlit("no_responders");
    assert("verbose"@[0] == 'v' && "verbose"@[3] == 'b');
    assert("pedantic"@[0] == 'p' && "pedantic"@[1] == 'e');
    assert("tls_required"@[0] == 't');
    assert("name"@[0] == 'n' && "name"@[1] == 'a');
    assert("lang"@[0] == 'l');
    assert("version"@[0] == 'v' && "version"@[3] == 's');
    assert("protocol"@[0] == 'p' && "protocol"@[1] == 'r');
    assert("echo"@[0] == 'e');
    assert("headers"@[0] == 'h');
    assert("no_responders"@[0] == 'n' && "no_responders"@[1] == 'o');
}

/// To what it says of itself a client adds its token, or its name and its password, and nothing else.
pub proof fn law_credentials_are_added(version: Seq<char>, auth: MqAuth, key: Seq<char>)
    ensures
        connect_options(version, auth) matches Some(options) ==> (key != "auth_token"@ && key
            != "user"@ && key != "pass"@ ==> at(JsonSpec::Object(options), key) == at(
            JsonSpec::Object(client_options(version)),
            key,
        )),
{
}

/// A line is what was read without the carriage returns and line feeds at its end. Where nothing was
/// read, the server has closed the connection.
pub proof fn law_lines_are_read_without_their_end(body: Seq<char>, end: Seq<char>, count: usize)
    requires
        forall|i: int| 0 <= i < end.len() ==> #[trigger] end[i] == '\r' || end[i] == '\n',
        body.len() > 0 ==> body.last() != '\r' && body.last() != '\n',
    ensures
        count > 0 ==> line_of(count, body + end) == Ok::<Seq<char>, Seq<char>>(body),
        line_of(0, body + end) == Err::<Seq<char>, Seq<char>>("NATS connection closed by server"@),
{
    law_line_loses_its_end(body, end);
}

/// What follows `INFO` in a line.
proof fn lemma_info_line(text: Seq<char>)
    ensures
        begins_with("INFO "@ + text, "INFO "@),
        after("INFO "@ + text, "INFO "@.len() as int) == text,
        "INFO "@ + text != "PING"@,
        "INFO "@ + text != "PONG"@,
        "INFO "@ + text != "+OK"@,
{
    reveal_strlit("INFO ");
    reveal_strlit("PING");
    reveal_strlit("PONG");
    reveal_strlit("+OK");
    let line = "INFO "@ + text;
    assert(line.subrange(0, "INFO "@.len() as int) =~= "INFO "@);
    assert(after(line, "INFO "@.len() as int) =~= text);
    assert(line[0] == 'I');
    assert("PING"@[0] == 'P' && "PONG"@[0] == 'P' && "+OK"@[0] == '+');
}

/// What a server says of itself at any time is kept as it is, and nothing else is done about it. What
/// cannot be read fails, and leaves what was known.
pub proof fn law_server_speaks_of_itself_at_any_time(
    text: Seq<char>,
    known: JsonSpec,
    document: JsonSpec,
    error: Seq<char>,
)
    ensures
        json_of_str(text) == Ok::<JsonSpec, Seq<char>>(document) ==> {
            &&& request_line_step("INFO "@ + text) == RequestSpec::ReadLine
            &&& pong_step("INFO "@ + text) == PongSpec::ReadLine
            &&& info_after("INFO "@ + text, known) == document
        },
        json_of_str(text) == Err::<JsonSpec, Seq<char>>(error) ==> {
            &&& request_line_step("INFO "@ + text) == RequestSpec::Done(
                Err("Invalid async NATS INFO: "@ + error),
            )
            &&& pong_step("INFO "@ + text) == PongSpec::Failed("Invalid async NATS INFO: "@ + error)
            &&& info_after("INFO "@ + text, known) == known
        },
{
    lemma_info_line(text);
}

/// Confirmations and lines of other kinds are passed over. `PONG` is the answer to a `PING` and means
/// nothing to a request.
pub proof fn law_other_lines_are_passed_over(line: Seq<char>)
    requires
        line.len() > 0,
        line[0] != 'P' && line[0] != '+' && line[0] != 'I' && line[0] != '-' && line[0] != 'M'
            && line[0] != 'H',
    ensures
        request_line_step(line) == RequestSpec::ReadLine,
        pong_step(line) == PongSpec::ReadLine,
        request_line_step("+OK"@) == RequestSpec::ReadLine,
        pong_step("+OK"@) == PongSpec::ReadLine,
        request_line_step("PONG"@) == RequestSpec::ReadLine,
        pong_step("PONG"@) == PongSpec::Done,
{
    reveal_strlit("PING");
    reveal_strlit("PONG");
    reveal_strlit("+OK");
    reveal_strlit("INFO ");
    reveal_strlit("-ERR");
    reveal_strlit("MSG ");
    reveal_strlit("HMSG ");
    assert("PING"@[0] == 'P' && "PING"@[1] == 'I' && "PONG"@[0] == 'P' && "PONG"@[1] == 'O' && "+OK"@[0]
        == '+');
    lemma_other_prefix(line);
    lemma_other_prefix("PONG"@);
    lemma_other_prefix("+OK"@);
}

/// A line that begins otherwise begins with none of the words of the protocol.
proof fn lemma_other_prefix(line: Seq<char>)
    requires
        line.len() > 0,
        line[0] != 'I' && line[0] != '-' && line[0] != 'M' && line[0] != 'H',
    ensures
        !begins_with(line, "INFO "@),
        !begins_with(line, "-ERR"@),
        !begins_with(line, "MSG "@),
        !begins_with(line, "HMSG "@),
{
    reveal_strlit("INFO ");
    reveal_strlit("-ERR");
    reveal_strlit("MSG ");
    reveal_strlit("HMSG ");
    if begins_with(line, "INFO "@) {
        assert(line.subrange(0, 5)[0] == line[0]);
    }
    if begins_with(line, "-ERR"@) {
        assert(line.subrange(0, 4)[0] == line[0]);
    }
    if begins_with(line, "MSG "@) {
        assert(line.subrange(0, 4)[0] == line[0]);
    }
    if begins_with(line, "HMSG "@) {
        assert(line.subrange(0, 5)[0] == line[0]);
    }
}

/// An error that a server reports is told without the white space and the quotes around it.
pub proof fn law_reported_error_is_told(text: Seq<char>)
    requires
        text.len() > 0,
        !CharClass::Space.holds(text[0]) && !CharClass::Space.holds(text.last()),
        text[0] != '\'' && text.last() != '\'',
    ensures
        server_error(seq![' ', '\''] + text + seq!['\'']) == "NATS server error: "@ + text,
        server_error(text) == "NATS server error: "@ + text,
{
    let quoted = seq!['\''] + text + seq!['\''];
    let report = seq![' ', '\''] + text + seq!['\''];
    assert(report.drop_first() =~= quoted);
    assert(quoted[0] == '\'' && quoted.last() == '\'');
    assert(strip_start(quoted, CharClass::Space) == quoted);
    assert(strip_start(report, CharClass::Space) == quoted);
    assert(strip_end(quoted, CharClass::Space) == quoted);
    assert(trimmed(report) == quoted);
    let opened = text + seq!['\''];
    assert(quoted.drop_first() =~= opened);
    assert(opened[0] == text[0]);
    assert(strip_start(opened, CharClass::Quote) == opened);
    assert(strip_start(quoted, CharClass::Quote) == opened);
    assert(opened.drop_last() =~= text);
    assert(opened.last() == '\'');
    assert(strip_end(text, CharClass::Quote) == text);
    assert(strip_end(opened, CharClass::Quote) == text);
    assert(trimmed(text) == text);
    assert(strip_start(text, CharClass::Quote) == text);
}

/// A message is read next only where a line announces it: a `MSG` line of four or five fields, or an
/// `HMSG` line of five or six, whose third field is the number of the subscription and whose last
/// fields are the sizes.
pub proof fn law_only_announced_messages_are_read(line: Seq<char>)
    ensures
        request_line_step(line) matches RequestSpec::ReadFrame(delivery) ==> {
            let fields = words(line);
            &&& parsed_decimal(fields[2], u64::MAX as nat) == Some(delivery.sid as nat)
            &&& parsed_decimal(fields.last(), usize::MAX as nat) == Some(delivery.size as nat)
            &&& match delivery.header_size {
                None => begins_with(line, "MSG "@) && 4 <= fields.len() <= 5,
                Some(header_size) => begins_with(line, "HMSG "@) && 5 <= fields.len() <= 6
                    && parsed_decimal(fields[fields.len() - 2], usize::MAX as nat) == Some(
                    header_size as nat,
                ),
            }
        },
{
}

/// A line that begins as an announcement, and has a field too few or too many or one that is no
/// number, ends the request with an error that quotes the line.
pub proof fn law_broken_announcements_are_quoted(line: Seq<char>)
    requires
        begins_with(line, "MSG "@) || begins_with(line, "HMSG "@),
        !(request_line_step(line) is ReadFrame),
    ensures
        request_line_step(line) matches RequestSpec::Done(Err(error)) && exists|before: Seq<char>|
            error == #[trigger] (before + line),
{
    reveal_strlit("PING");
    reveal_strlit("+OK");
    reveal_strlit("INFO ");
    reveal_strlit("-ERR");
    reveal_strlit("MSG ");
    reveal_strlit("HMSG ");
    if begins_with(line, "MSG "@) {
        assert(line.subrange(0, 4)[0] == line[0]);
    }
    if begins_with(line, "HMSG "@) {
        assert(line.subrange(0, 5)[0] == line[0]);
    }
    assert("PING"@[0] == 'P' && "+OK"@[0] == '+');
    if begins_with(line, "INFO "@) {
        assert(line.subrange(0, 5)[0] == line[0]);
    }
    if begins_with(line, "-ERR"@) {
        assert(line.subrange(0, 4)[0] == line[0]);
    }
    assert(heard(line) == HeardSpec::Other);
}

/// The status of a message that nobody answered, as it begins its headers.
pub open spec fn no_responders_status() -> Seq<u8> {
    seq![78u8, 65u8, 84u8, 83u8, 47u8, 49u8, 46u8, 48u8, 32u8, 53u8, 48u8, 51u8]
}

/// A message for another subscription is passed over, and one for the request is its reply: all of it
/// without headers, else all that comes behind the headers, unless they are longer than the message
/// or begin with the status of a message that nobody answered. Without a carriage return and a line
/// feed behind it, a message ends the request.
pub proof fn law_messages_are_taken_whole(
    sid: u64,
    delivery: Delivery,
    headers: Seq<u8>,
    payload: Seq<u8>,
    terminator: Seq<u8>,
)
    ensures
        ({
            let end = seq![13u8, 10u8];
            let own = Delivery { sid, header_size: None, size: delivery.size };
            let with_headers = Delivery {
                sid,
                header_size: Some(headers.len() as usize),
                size: delivery.size,
            };
            &&& terminator != end ==> request_frame_step(sid, delivery, payload, terminator)
                == RequestSpec::Done(Err("Invalid NATS payload terminator"@))
            &&& delivery.sid != sid ==> request_frame_step(sid, delivery, payload, end)
                == RequestSpec::ReadLine
            &&& request_frame_step(sid, own, payload, end) == RequestSpec::Done(Ok(payload))
            &&& headers.len() <= usize::MAX && !(headers.len() >= 12 && headers.take(12)
                == no_responders_status()) ==> request_frame_step(
                sid,
                with_headers,
                headers + payload,
                end,
            ) == RequestSpec::Done(Ok(payload))
            &&& headers.len() <= usize::MAX && headers.len() >= 12 && headers.take(12)
                == no_responders_status() ==> request_frame_step(
                sid,
                with_headers,
                headers + payload,
                end,
            ) == RequestSpec::Done(
                Err("NATS request has no responders (JetStream may be disabled)"@),
            )
            &&& payload.len() < headers.len() <= usize::MAX ==> request_frame_step(
                sid,
                with_headers,
                payload,
                end,
            ) == RequestSpec::Done(Err("Invalid NATS HMSG header length"@))
        }),
{
    reveal_strlit("NATS/1.0 503");
    let status = "NATS/1.0 503"@;
    assert(is_ascii_chars(status));
    is_ascii_chars_encode_utf8(status);
    assert(encode_utf8(status) =~= no_responders_status());
    let frame = headers + payload;
    assert(frame.subrange(0, headers.len() as int) =~= headers);
    assert(frame.subrange(headers.len() as int, frame.len() as int) =~= payload);
    if headers.len() >= 12 {
        assert(headers.subrange(0, 12) =~= headers.take(12));
    }
}

} // verus!
