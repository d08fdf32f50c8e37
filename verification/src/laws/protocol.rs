//! Laws of the commands that a client sends and the lines that a server sends.
use vstd::prelude::*;
use vstd::utf8::{encode_utf8, is_ascii_chars, is_ascii_chars_encode_utf8};

use crate::config::MqAuth;
use crate::connection::{
    bytes_begin_with, connect_options, heard, inbox_subject, is_inbox_token, request_frame_step,
    request_line_step, sid_after, subscribe_lines, Delivery, HeardSpec, RequestSpec,
};
use crate::json::JsonSpec;
use crate::laws::subjects::{law_inbox_is_valid, lemma_published_on};
use crate::laws::text::{is_free_of, law_bytes_of_two, law_words_of_two, lemma_one_word};
use crate::subject::publish_subject_error;
use crate::text::{
    begins_with, decimal, is_digit, law_decimal_round_trip, lemma_decimal, parsed_decimal, trimmed,
    words, CharClass,
};
use crate::wire::{
    crlf, has_distinct_names, has_line_end, header_block, header_lines, headers_error, hpub_line,
    is_valid_header, pub_line, reply_field,
};

verus! {

/// Whether `s` can stand as one field of a line: it has no white space, and is not empty.
pub open spec fn is_field(s: Seq<char>) -> bool {
    s.len() > 0 && is_free_of(s, CharClass::Space)
}

/// Whether the subject to which replies go can stand as one field of a line, where there is one.
pub open spec fn is_reply_field(reply: Option<Seq<char>>) -> bool {
    reply matches Some(subject) ==> is_field(subject)
}

/// The field of the subject to which replies go.
pub open spec fn reply_fields(reply: Option<Seq<char>>) -> Seq<Seq<char>> {
    match reply {
        Some(subject) => seq![subject],
        None => Seq::empty(),
    }
}

/// Whether `s` is one line, with its end.
pub open spec fn is_one_line(s: Seq<char>) -> bool {
    &&& s.len() >= 2
    &&& s.skip(s.len() - 2) == "\r\n"@
    &&& !has_line_end(s.take(s.len() - 2))
}

/// A number in decimal is a field.
proof fn lemma_decimal_field(n: nat)
    ensures
        is_field(decimal(n)),
{
    lemma_decimal(n);
    let d = decimal(n);
    assert forall|i: int| 0 <= i < d.len() implies !CharClass::Space.holds(#[trigger] d[i]) by {
        assert(is_digit(d[i]));
    }
}

/// The words of a field with a space and more behind it.
proof fn lemma_leading_field(field: Seq<char>, rest: Seq<char>)
    requires
        is_field(field),
    ensures
        words(field + " "@ + rest) == seq![field] + words(rest),
{
    reveal_strlit(" ");
    lemma_one_word(field);
    law_words_of_two(field, ' ', rest);
    assert(field + " "@ + rest =~= field.push(' ') + rest);
}

/// The words of a field with a line end behind it.
proof fn lemma_last_field(field: Seq<char>)
    requires
        is_field(field),
    ensures
        words(field + "\r\n"@) == seq![field],
{
    reveal_strlit("\r\n");
    let none = Seq::<char>::empty();
    lemma_one_word(field);
    lemma_one_word(none);
    law_words_of_two(none, '\n', none);
    law_words_of_two(field, '\r', none.push('\n') + none);
    assert(field + "\r\n"@ =~= field.push('\r') + (none.push('\n') + none));
    assert(words(field + "\r\n"@) =~= seq![field]);
}

/// A field has no line end.
proof fn lemma_field_has_no_line_end(field: Seq<char>)
    requires
        is_field(field),
    ensures
        !has_line_end(field),
{
    if field.contains('\r') {
        let i = choose|i: int| 0 <= i < field.len() && field[i] == '\r';
        assert(CharClass::Space.holds(field[i]));
    }
    if field.contains('\n') {
        let i = choose|i: int| 0 <= i < field.len() && field[i] == '\n';
        assert(CharClass::Space.holds(field[i]));
    }
}

/// Two texts without a line end have none in a row.
proof fn lemma_no_line_end(a: Seq<char>, b: Seq<char>)
    requires
        !has_line_end(a),
        !has_line_end(b),
    ensures
        !has_line_end(a + b),
{
    let whole = a + b;
    assert forall|i: int| 0 <= i < whole.len() implies whole[i] != '\r' && whole[i] != '\n' by {
        if i < a.len() {
            assert(a.contains(a[i]));
        } else {
            assert(b.contains(b[i - a.len()]));
        }
    }
}

/// What stands before a line end, and has none itself, makes one line with it.
proof fn lemma_line(body: Seq<char>)
    requires
        !has_line_end(body),
    ensures
        is_one_line(body + "\r\n"@),
{
    reveal_strlit("\r\n");
    let line = body + "\r\n"@;
    assert(line.take(line.len() - 2) =~= body);
    assert(line.skip(line.len() - 2) =~= "\r\n"@);
}

/// The reply field has no line end, and comes before the words of what follows.
proof fn lemma_reply_field(reply: Option<Seq<char>>, rest: Seq<char>)
    requires
        is_reply_field(reply),
    ensures
        !has_line_end(reply_field(reply)),
        words(reply_field(reply) + rest) == reply_fields(reply) + words(rest),
{
    reveal_strlit(" ");
    match reply {
        Some(subject) => {
            lemma_field_has_no_line_end(subject);
            lemma_no_line_end(subject, " "@);
            lemma_leading_field(subject, rest);
        },
        None => {
            assert(reply_field(reply) + rest =~= rest);
            assert(reply_fields(reply) + words(rest) =~= words(rest));
        },
    }
}

/// The line that announces a message without headers is one line of the fields `PUB`, the subject,
/// the subject for replies where there is one, and the size of the payload, which can be read back.
pub proof fn law_pub_line(subject: Seq<char>, reply: Option<Seq<char>>, size: nat)
    requires
        publish_subject_error(subject) is None,
        trimmed(subject) == subject,
        is_reply_field(reply),
        size <= usize::MAX,
    ensures
        is_one_line(pub_line(subject, reply, size)),
        words(pub_line(subject, reply, size)) == seq!["PUB"@, subject] + reply_fields(reply) + seq![
            decimal(size),
        ],
        parsed_decimal(words(pub_line(subject, reply, size)).last(), usize::MAX as nat) == Some(
            size,
        ),
{
    lemma_published_on(subject);
    lemma_decimal_field(size);
    law_decimal_round_trip(size, usize::MAX as nat);
    let end = decimal(size) + "\r\n"@;
    let tail = reply_field(reply) + end;
    let line = pub_line(subject, reply, size);
    reveal_strlit("PUB");
    reveal_strlit("PUB ");
    reveal_strlit(" ");
    assert(is_field("PUB"@));
    assert("PUB "@ =~= "PUB"@ + " "@);
    lemma_last_field(decimal(size));
    lemma_reply_field(reply, end);
    lemma_leading_field(subject, tail);
    lemma_leading_field("PUB"@, subject + " "@ + tail);
    assert(line =~= "PUB"@ + " "@ + (subject + " "@ + tail));
    assert(words(line) =~= seq!["PUB"@, subject] + reply_fields(reply) + seq![decimal(size)]);
    lemma_field_has_no_line_end("PUB"@);
    lemma_field_has_no_line_end(subject);
    lemma_field_has_no_line_end(decimal(size));
    lemma_no_line_end("PUB"@, " "@);
    lemma_no_line_end("PUB"@ + " "@, subject);
    lemma_no_line_end("PUB"@ + " "@ + subject, " "@);
    lemma_no_line_end("PUB"@ + " "@ + subject + " "@, reply_field(reply));
    let head = "PUB"@ + " "@ + subject + " "@ + reply_field(reply);
    lemma_no_line_end(head, decimal(size));
    lemma_line(head + decimal(size));
    assert(line =~= head + decimal(size) + "\r\n"@);
}

/// The line that announces a message with headers is one line of the fields `HPUB`, the subject, the
/// subject for replies where there is one, the size of the headers and the size of all, and both
/// sizes can be read back.
pub proof fn law_hpub_line(
    subject: Seq<char>,
    reply: Option<Seq<char>>,
    header_size: nat,
    total_size: nat,
)
    requires
        publish_subject_error(subject) is None,
        trimmed(subject) == subject,
        is_reply_field(reply),
        header_size <= usize::MAX,
        total_size <= usize::MAX,
    ensures
        is_one_line(hpub_line(subject, reply, header_size, total_size)),
        words(hpub_line(subject, reply, header_size, total_size)) == seq!["HPUB"@, subject]
            + reply_fields(reply) + seq![decimal(header_size), decimal(total_size)],
        parsed_decimal(decimal(header_size), usize::MAX as nat) == Some(header_size),
        parsed_decimal(decimal(total_size), usize::MAX as nat) == Some(total_size),
{
    lemma_published_on(subject);
    lemma_decimal_field(header_size);
    lemma_decimal_field(total_size);
    law_decimal_round_trip(header_size, usize::MAX as nat);
    law_decimal_round_trip(total_size, usize::MAX as nat);
    let end = decimal(total_size) + "\r\n"@;
    let sizes = decimal(header_size) + " "@ + end;
    let tail = reply_field(reply) + sizes;
    let line = hpub_line(subject, reply, header_size, total_size);
    reveal_strlit("HPUB");
    reveal_strlit("HPUB ");
    reveal_strlit(" ");
    assert(is_field("HPUB"@));
    assert("HPUB "@ =~= "HPUB"@ + " "@);
    lemma_last_field(decimal(total_size));
    lemma_leading_field(decimal(header_size), end);
    lemma_reply_field(reply, sizes);
    lemma_leading_field(subject, tail);
    lemma_leading_field("HPUB"@, subject + " "@ + tail);
    assert(line =~= "HPUB"@ + " "@ + (subject + " "@ + tail));
    assert(words(line) =~= seq!["HPUB"@, subject] + reply_fields(reply) + seq![
        decimal(header_size),
        decimal(total_size),
    ]);
    lemma_field_has_no_line_end("HPUB"@);
    lemma_field_has_no_line_end(subject);
    lemma_field_has_no_line_end(decimal(header_size));
    lemma_field_has_no_line_end(decimal(total_size));
    lemma_no_line_end("HPUB"@, " "@);
    lemma_no_line_end("HPUB"@ + " "@, subject);
    lemma_no_line_end("HPUB"@ + " "@ + subject, " "@);
    lemma_no_line_end("HPUB"@ + " "@ + subject + " "@, reply_field(reply));
    let head = "HPUB"@ + " "@ + subject + " "@ + reply_field(reply);
    lemma_no_line_end(head, decimal(header_size));
    lemma_no_line_end(head + decimal(header_size), " "@);
    lemma_no_line_end(head + decimal(header_size) + " "@, decimal(total_size));
    lemma_line(head + decimal(header_size) + " "@ + decimal(total_size));
    assert(line =~= head + decimal(header_size) + " "@ + decimal(total_size) + "\r\n"@);
}

/// The command that subscribes to the inbox of a request.
pub open spec fn sub_line(token: Seq<char>, sid: u64) -> Seq<char> {
    "SUB "@ + inbox_subject(token) + " "@ + decimal(sid as nat) + "\r\n"@
}

/// The command that ends that subscription after one message.
pub open spec fn unsub_line(sid: u64) -> Seq<char> {
    "UNSUB "@ + decimal(sid as nat) + " 1\r\n"@
}

/// A request begins with two lines: one subscribes to its inbox under its number, the other ends the
/// subscription of that number after one message.
pub proof fn law_subscribe_lines(token: Seq<char>, sid: u64)
    requires
        is_inbox_token(token),
    ensures
        subscribe_lines(token, sid) == sub_line(token, sid) + unsub_line(sid),
        is_one_line(sub_line(token, sid)),
        is_one_line(unsub_line(sid)),
        words(sub_line(token, sid)) == seq!["SUB"@, inbox_subject(token), decimal(sid as nat)],
        words(unsub_line(sid)) == seq!["UNSUB"@, decimal(sid as nat), "1"@],
        parsed_decimal(decimal(sid as nat), u64::MAX as nat) == Some(sid as nat),
{
    law_inbox_is_valid(token);
    lemma_decimal_field(sid as nat);
    law_decimal_round_trip(sid as nat, u64::MAX as nat);
    let inbox = inbox_subject(token);
    let number = decimal(sid as nat);
    reveal_strlit("SUB");
    reveal_strlit("SUB ");
    reveal_strlit("UNSUB");
    reveal_strlit("UNSUB ");
    reveal_strlit("\r\nUNSUB ");
    reveal_strlit(" 1\r\n");
    reveal_strlit("\r\n");
    reveal_strlit("1");
    reveal_strlit(" ");
    assert("SUB "@ =~= "SUB"@ + " "@);
    assert("UNSUB "@ =~= "UNSUB"@ + " "@);
    assert("\r\nUNSUB "@ =~= "\r\n"@ + "UNSUB "@);
    assert(" 1\r\n"@ =~= " "@ + "1"@ + "\r\n"@);
    assert(is_field("SUB"@) && is_field("UNSUB"@) && is_field("1"@));
    assert(subscribe_lines(token, sid) =~= sub_line(token, sid) + unsub_line(sid));
    lemma_last_field(number);
    lemma_leading_field(inbox, number + "\r\n"@);
    lemma_leading_field("SUB"@, inbox + " "@ + (number + "\r\n"@));
    assert(sub_line(token, sid) =~= "SUB"@ + " "@ + (inbox + " "@ + (number + "\r\n"@)));
    assert(words(sub_line(token, sid)) =~= seq!["SUB"@, inbox, number]);
    lemma_last_field("1"@);
    lemma_leading_field(number, "1"@ + "\r\n"@);
    lemma_leading_field("UNSUB"@, number + " "@ + ("1"@ + "\r\n"@));
    assert(unsub_line(sid) =~= "UNSUB"@ + " "@ + (number + " "@ + ("1"@ + "\r\n"@)));
    assert(words(unsub_line(sid)) =~= seq!["UNSUB"@, number, "1"@]);
    lemma_field_has_no_line_end("SUB"@);
    lemma_field_has_no_line_end("UNSUB"@);
    lemma_field_has_no_line_end("1"@);
    lemma_field_has_no_line_end(inbox);
    lemma_field_has_no_line_end(number);
    lemma_no_line_end("SUB"@, " "@);
    lemma_no_line_end("SUB"@ + " "@, inbox);
    lemma_no_line_end("SUB"@ + " "@ + inbox, " "@);
    lemma_no_line_end("SUB"@ + " "@ + inbox + " "@, number);
    lemma_line("SUB"@ + " "@ + inbox + " "@ + number);
    lemma_no_line_end("UNSUB"@, " "@);
    lemma_no_line_end("UNSUB"@ + " "@, number);
    lemma_no_line_end("UNSUB"@ + " "@ + number, " "@);
    lemma_no_line_end("UNSUB"@ + " "@ + number + " "@, "1"@);
    lemma_line("UNSUB"@ + " "@ + number + " "@ + "1"@);
    assert(unsub_line(sid) =~= "UNSUB"@ + " "@ + number + " "@ + "1"@ + "\r\n"@);
}

/// The line with which a server announces a message without headers.
pub open spec fn msg_line(
    subject: Seq<char>,
    sid: u64,
    reply: Option<Seq<char>>,
    size: nat,
) -> Seq<char> {
    "MSG "@ + subject + " "@ + decimal(sid as nat) + " "@ + reply_field(reply) + decimal(size)
}

/// The line with which a server announces a message with headers.
pub open spec fn hmsg_line(
    subject: Seq<char>,
    sid: u64,
    reply: Option<Seq<char>>,
    header_size: nat,
    total_size: nat,
) -> Seq<char> {
    "HMSG "@ + subject + " "@ + decimal(sid as nat) + " "@ + reply_field(reply) + decimal(
        header_size,
    ) + " "@ + decimal(total_size)
}

/// What `MSG` or `HMSG` begins is no line that can come at any time.
proof fn lemma_announcement(line: Seq<char>, prefix: Seq<char>)
    requires
        prefix == "MSG "@ || prefix == "HMSG "@,
        begins_with(line, prefix),
    ensures
        heard(line) == HeardSpec::Other,
        begins_with(line, "MSG "@) == (prefix == "MSG "@),
{
    reveal_strlit("MSG ");
    reveal_strlit("HMSG ");
    reveal_strlit("PING");
    reveal_strlit("+OK");
    reveal_strlit("INFO ");
    reveal_strlit("-ERR");
    assert(line[0] == line.subrange(0, prefix.len() as int)[0]);
    assert(line[0] == 'M' || line[0] == 'H');
    assert("PING"@[0] == 'P' && "+OK"@[0] == '+');
    if begins_with(line, "INFO "@) {
        assert(line[0] == line.subrange(0, "INFO "@.len() as int)[0]);
    }
    if begins_with(line, "-ERR"@) {
        assert(line[0] == line.subrange(0, "-ERR"@.len() as int)[0]);
    }
    if begins_with(line, "MSG "@) {
        assert(line[0] == line.subrange(0, "MSG "@.len() as int)[0]);
    }
}

/// The fields of the line with which a server announces a message without headers.
proof fn lemma_msg_fields(subject: Seq<char>, sid: u64, reply: Option<Seq<char>>, size: nat)
    requires
        is_field(subject),
        is_reply_field(reply),
    ensures
        ({
            let line = msg_line(subject, sid, reply, size);
            &&& begins_with(line, "MSG "@)
            &&& words(line) == seq!["MSG"@, subject, decimal(sid as nat)] + reply_fields(reply)
                + seq![decimal(size)]
        }),
{
    let line = msg_line(subject, sid, reply, size);
    let number = decimal(sid as nat);
    let last = decimal(size);
    lemma_decimal_field(sid as nat);
    lemma_decimal_field(size);
    reveal_strlit("MSG");
    reveal_strlit("MSG ");
    reveal_strlit(" ");
    assert(is_field("MSG"@));
    assert("MSG "@ =~= "MSG"@ + " "@);
    let tail = reply_field(reply) + last;
    lemma_one_word(last);
    lemma_reply_field(reply, last);
    lemma_leading_field(number, tail);
    lemma_leading_field(subject, number + " "@ + tail);
    lemma_leading_field("MSG"@, subject + " "@ + (number + " "@ + tail));
    assert(line =~= "MSG"@ + " "@ + (subject + " "@ + (number + " "@ + tail)));
    assert(words(line) =~= seq!["MSG"@, subject, number] + reply_fields(reply) + seq![last]);
    assert(line.subrange(0, 4) =~= "MSG "@);
}

/// The line with which a server announces a message without headers is understood: the message for
/// that subscription and of that size is read next.
pub proof fn law_msg_line_is_understood(
    subject: Seq<char>,
    sid: u64,
    reply: Option<Seq<char>>,
    size: usize,
)
    requires
        is_field(subject),
        is_reply_field(reply),
    ensures
        request_line_step(msg_line(subject, sid, reply, size as nat)) == RequestSpec::ReadFrame(
            Delivery { sid, header_size: None, size },
        ),
{
    let line = msg_line(subject, sid, reply, size as nat);
    law_decimal_round_trip(sid as nat, u64::MAX as nat);
    law_decimal_round_trip(size as nat, usize::MAX as nat);
    lemma_msg_fields(subject, sid, reply, size as nat);
    lemma_announcement(line, "MSG "@);
    assert(words(line)[2] == decimal(sid as nat));
    assert(words(line).last() == decimal(size as nat));
}

/// The fields of the line with which a server announces a message with headers.
proof fn lemma_hmsg_fields(
    subject: Seq<char>,
    sid: u64,
    reply: Option<Seq<char>>,
    header_size: nat,
    total_size: nat,
)
    requires
        is_field(subject),
        is_reply_field(reply),
    ensures
        ({
            let line = hmsg_line(subject, sid, reply, header_size, total_size);
            &&& begins_with(line, "HMSG "@)
            &&& "HMSG "@ != "MSG "@
            &&& words(line) == seq!["HMSG"@, subject, decimal(sid as nat)] + reply_fields(reply)
                + seq![decimal(header_size), decimal(total_size)]
        }),
{
    let line = hmsg_line(subject, sid, reply, header_size, total_size);
    let number = decimal(sid as nat);
    let first = decimal(header_size);
    let last = decimal(total_size);
    lemma_decimal_field(sid as nat);
    lemma_decimal_field(header_size);
    lemma_decimal_field(total_size);
    reveal_strlit("HMSG");
    reveal_strlit("HMSG ");
    reveal_strlit("MSG ");
    reveal_strlit(" ");
    assert("HMSG "@[0] != "MSG "@[0]);
    assert(is_field("HMSG"@));
    assert("HMSG "@ =~= "HMSG"@ + " "@);
    let sizes = first + " "@ + last;
    let tail = reply_field(reply) + sizes;
    lemma_one_word(last);
    lemma_leading_field(first, last);
    lemma_reply_field(reply, sizes);
    lemma_leading_field(number, tail);
    lemma_leading_field(subject, number + " "@ + tail);
    lemma_leading_field("HMSG"@, subject + " "@ + (number + " "@ + tail));
    assert(line =~= "HMSG"@ + " "@ + (subject + " "@ + (number + " "@ + tail)));
    assert(words(line) =~= seq!["HMSG"@, subject, number] + reply_fields(reply) + seq![first, last]);
    assert(line.subrange(0, 5) =~= "HMSG "@);
}

/// The line with which a server announces a message with headers is understood: the message for that
/// subscription and of those sizes is read next.
pub proof fn law_hmsg_line_is_understood(
    subject: Seq<char>,
    sid: u64,
    reply: Option<Seq<char>>,
    header_size: usize,
    total_size: usize,
)
    requires
        is_field(subject),
        is_reply_field(reply),
    ensures
        request_line_step(hmsg_line(subject, sid, reply, header_size as nat, total_size as nat))
            == RequestSpec::ReadFrame(
            Delivery { sid, header_size: Some(header_size), size: total_size },
        ),
{
    let line = hmsg_line(subject, sid, reply, header_size as nat, total_size as nat);
    law_decimal_round_trip(sid as nat, u64::MAX as nat);
    law_decimal_round_trip(header_size as nat, usize::MAX as nat);
    law_decimal_round_trip(total_size as nat, usize::MAX as nat);
    lemma_hmsg_fields(subject, sid, reply, header_size as nat, total_size as nat);
    lemma_announcement(line, "HMSG "@);
    let fields = words(line);
    assert(fields[2] == decimal(sid as nat));
    assert(fields[fields.len() - 2] == decimal(header_size as nat));
    assert(fields.last() == decimal(total_size as nat));
}

/// A message without headers that is announced for the subscription of a request is its reply, as it
/// was sent. One that is announced for another subscription is passed over.
pub proof fn law_reply_comes_back(
    subject: Seq<char>,
    sid: u64,
    other: u64,
    reply: Option<Seq<char>>,
    payload: Seq<u8>,
)
    requires
        is_field(subject),
        is_reply_field(reply),
        payload.len() <= usize::MAX,
        other != sid,
    ensures
        request_line_step(msg_line(subject, sid, reply, payload.len())) matches RequestSpec::ReadFrame(
            delivery,
        ) && delivery.size == payload.len() && request_frame_step(sid, delivery, payload, crlf())
            == RequestSpec::Done(Ok(payload)) && request_frame_step(other, delivery, payload, crlf())
            == RequestSpec::ReadLine,
{
    law_msg_line_is_understood(subject, sid, reply, payload.len() as usize);
}

/// The version line of headers that carry no status cannot be taken for a status.
proof fn lemma_headers_carry_no_status(headers: Seq<(Seq<char>, Seq<char>)>)
    ensures
        !bytes_begin_with(encode_utf8(header_block(headers)), encode_utf8("NATS/1.0 503"@)),
{
    reveal_strlit("NATS/1.0\r\n");
    reveal_strlit("NATS/1.0 503");
    let version = "NATS/1.0\r\n"@;
    let status = "NATS/1.0 503"@;
    let rest = header_lines(headers) + "\r\n"@;
    assert(header_block(headers) =~= version + rest);
    law_bytes_of_two(version, rest);
    assert(is_ascii_chars(version));
    assert(is_ascii_chars(status));
    is_ascii_chars_encode_utf8(version);
    is_ascii_chars_encode_utf8(status);
    let bytes = encode_utf8(header_block(headers));
    assert(version[8] == '\r' && status[8] == ' ');
    assert(bytes[8] == encode_utf8(version)[8]);
    if bytes_begin_with(bytes, encode_utf8(status)) {
        assert(bytes.subrange(0, encode_utf8(status).len() as int)[8] == encode_utf8(status)[8]);
    }
}

/// A message that a client sent with headers, and that is announced for the subscription of a
/// request, is its reply without the headers.
pub proof fn law_reply_with_headers_comes_back(
    subject: Seq<char>,
    sid: u64,
    reply: Option<Seq<char>>,
    headers: Seq<(Seq<char>, Seq<char>)>,
    payload: Seq<u8>,
)
    requires
        is_field(subject),
        is_reply_field(reply),
        encode_utf8(header_block(headers)).len() + payload.len() <= usize::MAX,
    ensures
        ({
            let block = encode_utf8(header_block(headers));
            let frame = block + payload;
            let line = hmsg_line(subject, sid, reply, block.len(), frame.len());
            request_line_step(line) matches RequestSpec::ReadFrame(delivery) && delivery.size
                == frame.len() && request_frame_step(sid, delivery, frame, crlf())
                == RequestSpec::Done(Ok(payload))
        }),
{
    let block = encode_utf8(header_block(headers));
    let frame = block + payload;
    law_hmsg_line_is_understood(subject, sid, reply, block.len() as usize, frame.len() as usize);
    lemma_headers_carry_no_status(headers);
    assert(frame.subrange(0, block.len() as int) =~= block);
    assert(frame.subrange(block.len() as int, frame.len() as int) =~= payload);
}

/// A message whose headers begin with the status 503 fails the request that it answers, whatever
/// comes behind.
pub proof fn law_no_responders(sid: u64, rest: Seq<char>, payload: Seq<u8>)
    requires
        encode_utf8("NATS/1.0 503"@ + rest).len() + payload.len() <= usize::MAX,
    ensures
        ({
            let block = encode_utf8("NATS/1.0 503"@ + rest);
            let delivery = Delivery {
                sid,
                header_size: Some(block.len() as usize),
                size: (block.len() + payload.len()) as usize,
            };
            request_frame_step(sid, delivery, block + payload, crlf()) == RequestSpec::Done(
                Err("NATS request has no responders (JetStream may be disabled)"@),
            )
        }),
{
    let status = encode_utf8("NATS/1.0 503"@);
    let block = encode_utf8("NATS/1.0 503"@ + rest);
    law_bytes_of_two("NATS/1.0 503"@, rest);
    assert((block + payload).subrange(0, block.len() as int) =~= block);
    assert(block.subrange(0, status.len() as int) =~= status);
}

/// The number of the last subscription once a request was started on each of `subjects`.
pub open spec fn sid_after_all(sid: u64, subjects: Seq<Seq<char>>) -> u64
    decreases subjects.len(),
{
    if subjects.len() == 0 {
        sid
    } else {
        sid_after(sid_after_all(sid, subjects.drop_last()), subjects.last())
    }
}

/// Requests on valid subjects get the numbers one by one, as long as there are numbers left: no two
/// have the same.
pub proof fn law_every_request_has_its_number(sid: u64, subjects: Seq<Seq<char>>)
    requires
        forall|i: int|
            0 <= i < subjects.len() ==> publish_subject_error(#[trigger] subjects[i]) is None,
        sid + subjects.len() <= u64::MAX,
    ensures
        sid_after_all(sid, subjects) == sid + subjects.len(),
    decreases subjects.len(),
{
    if subjects.len() > 0 {
        let shorter = subjects.drop_last();
        assert forall|i: int| 0 <= i < shorter.len() implies publish_subject_error(
            #[trigger] shorter[i],
        ) is None by {
            assert(shorter[i] == subjects[i]);
        }
        law_every_request_has_its_number(sid, shorter);
        assert(publish_subject_error(subjects[subjects.len() - 1]) is None);
    }
}

/// A list of headers is in order where each header is.
pub proof fn law_headers_are_in_order(headers: Seq<(Seq<char>, Seq<char>)>)
    ensures
        headers_error(headers) is None <==> forall|i: int|
            0 <= i < headers.len() ==> is_valid_header(#[trigger] headers[i]),
    decreases headers.len(),
{
    if headers.len() > 0 {
        let rest = headers.drop_first();
        law_headers_are_in_order(rest);
        if forall|i: int| 0 <= i < headers.len() ==> is_valid_header(#[trigger] headers[i]) {
            assert(is_valid_header(headers[0]));
            assert forall|i: int| 0 <= i < rest.len() implies is_valid_header(#[trigger] rest[i]) by {
                assert(rest[i] == headers[i + 1]);
            }
        } else {
            let i = choose|i: int| 0 <= i < headers.len() && !is_valid_header(#[trigger] headers[i]);
            if i > 0 {
                assert(rest[i - 1] == headers[i]);
            }
        }
    }
}

/// The line of a header.
pub open spec fn header_line(header: (Seq<char>, Seq<char>)) -> Seq<char> {
    trimmed(header.0) + ": "@ + header.1 + "\r\n"@
}

/// The size of the lines of `headers`.
pub open spec fn lines_size(headers: Seq<(Seq<char>, Seq<char>)>) -> nat {
    encode_utf8(header_lines(headers)).len()
}

/// The last header adds the size of its line.
proof fn lemma_lines_size_step(headers: Seq<(Seq<char>, Seq<char>)>)
    requires
        headers.len() > 0,
    ensures
        lines_size(headers) == lines_size(headers.drop_last()) + encode_utf8(
            header_line(headers.last()),
        ).len(),
{
    let before = header_lines(headers.drop_last());
    assert(header_lines(headers) =~= before + header_line(headers.last()));
    law_bytes_of_two(before, header_line(headers.last()));
}

/// Any header adds the size of its line.
proof fn lemma_lines_size_without(headers: Seq<(Seq<char>, Seq<char>)>, i: int)
    requires
        0 <= i < headers.len(),
    ensures
        lines_size(headers) == lines_size(headers.remove(i)) + encode_utf8(
            header_line(headers[i]),
        ).len(),
    decreases headers.len(),
{
    lemma_lines_size_step(headers);
    if i < headers.len() - 1 {
        let shorter = headers.drop_last();
        lemma_lines_size_without(shorter, i);
        let without = headers.remove(i);
        lemma_lines_size_step(without);
        assert(without.drop_last() =~= shorter.remove(i));
        assert(without.last() == headers.last());
    } else {
        assert(headers.remove(i) =~= headers.drop_last());
    }
}

/// In whatever order the same headers are sent, they are in order or not, and have the same size.
pub proof fn law_header_order_does_not_matter(
    a: Seq<(Seq<char>, Seq<char>)>,
    b: Seq<(Seq<char>, Seq<char>)>,
)
    requires
        a.to_multiset() == b.to_multiset(),
    ensures
        headers_error(a) is None == headers_error(b) is None,
        encode_utf8(header_block(a)).len() == encode_utf8(header_block(b)).len(),
{
    a.to_multiset_ensures();
    b.to_multiset_ensures();
    law_headers_are_in_order(a);
    law_headers_are_in_order(b);
    assert forall|i: int| 0 <= i < a.len() implies b.contains(#[trigger] a[i]) by {
        assert(a.contains(a[i]));
        assert(a.to_multiset().count(a[i]) > 0);
    }
    assert forall|i: int| 0 <= i < b.len() implies a.contains(#[trigger] b[i]) by {
        assert(b.contains(b[i]));
        assert(b.to_multiset().count(b[i]) > 0);
    }
    if headers_error(a) is None {
        assert forall|i: int| 0 <= i < b.len() implies is_valid_header(#[trigger] b[i]) by {
            let j = choose|j: int| 0 <= j < a.len() && a[j] == b[i];
            assert(is_valid_header(a[j]));
        }
    }
    if headers_error(b) is None {
        assert forall|i: int| 0 <= i < a.len() implies is_valid_header(#[trigger] a[i]) by {
            let j = choose|j: int| 0 <= j < b.len() && b[j] == a[i];
            assert(is_valid_header(b[j]));
        }
    }
    lemma_same_size(a, b);
    lemma_block_size(a);
    lemma_block_size(b);
}

/// However a map of headers is walked, its headers are in order or not, and have the same size: two
/// lists of distinct names that hold the same headers differ in order alone.
pub proof fn law_headers_of_one_map(
    a: Seq<(Seq<char>, Seq<char>)>,
    b: Seq<(Seq<char>, Seq<char>)>,
)
    requires
        has_distinct_names(a),
        has_distinct_names(b),
        forall|header: (Seq<char>, Seq<char>)| #[trigger] a.contains(header) == b.contains(header),
    ensures
        a.to_multiset() == b.to_multiset(),
        headers_error(a) is None == headers_error(b) is None,
        encode_utf8(header_block(a)).len() == encode_utf8(header_block(b)).len(),
{
    lemma_distinct_headers(a);
    lemma_distinct_headers(b);
    assert forall|header: (Seq<char>, Seq<char>)| #[trigger]
        a.to_multiset().count(header) == b.to_multiset().count(header) by {
        assert(a.contains(header) == b.contains(header));
    }
    assert(a.to_multiset() =~= b.to_multiset());
    law_header_order_does_not_matter(a, b);
}

/// Among headers of distinct names each header occurs once.
proof fn lemma_distinct_headers(headers: Seq<(Seq<char>, Seq<char>)>)
    requires
        has_distinct_names(headers),
    ensures
        forall|header: (Seq<char>, Seq<char>)| #[trigger]
            headers.to_multiset().count(header) == (if headers.contains(header) {
                1nat
            } else {
                0
            }),
{
    assert(headers.no_duplicates()) by {
        assert forall|i: int, j: int|
            0 <= i < headers.len() && 0 <= j < headers.len() && i != j implies headers[i]
            != headers[j] by {
            if i < j {
                assert(headers[i].0 != headers[j].0);
            } else {
                assert(headers[j].0 != headers[i].0);
            }
        }
    }
    headers.to_multiset_ensures();
    headers.lemma_multiset_has_no_duplicates();
    assert forall|header: (Seq<char>, Seq<char>)| #[trigger]
        headers.to_multiset().count(header) == (if headers.contains(header) {
            1nat
        } else {
            0
        }) by {
        if headers.contains(header) {
            assert(headers.to_multiset().contains(header));
        }
    }
}

/// The size of a block of headers, by that of its lines.
proof fn lemma_block_size(headers: Seq<(Seq<char>, Seq<char>)>)
    ensures
        encode_utf8(header_block(headers)).len() == encode_utf8("NATS/1.0\r\n"@).len() + lines_size(
            headers,
        ) + encode_utf8("\r\n"@).len(),
{
    law_bytes_of_two("NATS/1.0\r\n"@, header_lines(headers));
    law_bytes_of_two("NATS/1.0\r\n"@ + header_lines(headers), "\r\n"@);
}

/// The same headers have lines of the same size.
proof fn lemma_same_size(a: Seq<(Seq<char>, Seq<char>)>, b: Seq<(Seq<char>, Seq<char>)>)
    requires
        a.to_multiset() == b.to_multiset(),
    ensures
        lines_size(a) == lines_size(b),
    decreases a.len(),
{
    a.to_multiset_ensures();
    b.to_multiset_ensures();
    if a.len() > 0 {
        let last = a.len() - 1;
        assert(a.contains(a[last]));
        assert(b.to_multiset().count(a[last]) > 0);
        let i = choose|i: int| 0 <= i < b.len() && b[i] == a[last];
        assert(a.remove(last).to_multiset() =~= b.remove(i).to_multiset());
        lemma_same_size(a.remove(last), b.remove(i));
        lemma_lines_size_without(a, last);
        lemma_lines_size_without(b, i);
    } else {
        assert(a =~= b);
    }
}

/// A client sends a token, a name and a password only as they are configured.
pub proof fn law_credentials_are_those_configured(version: Seq<char>, auth: MqAuth)
    ensures
        connect_options(version, auth) matches Some(options) ==> {
            &&& options.dom().contains("auth_token"@) == auth is Token
            &&& options.dom().contains("user"@) == auth is Basic
            &&& options.dom().contains("pass"@) == auth is Basic
            &&& auth matches MqAuth::Token { token } ==> options["auth_token"@] == JsonSpec::Text(
                token@,
            )
            &&& auth matches MqAuth::Basic { username, password } ==> options["user"@]
                == JsonSpec::Text(username@) && options["pass"@] == JsonSpec::Text(password@)
            &&& options["version"@] == JsonSpec::Text(version)
        },
{
    reveal_strlit("auth_token");
    reveal_strlit("user");
    reveal_strlit("pass");
    reveal_strlit("verbose");
    reveal_strlit("pedantic");
    reveal_strlit("tls_required");
    reveal_strlit("name");
    reveal_strlit("lang");
    reveal_strlit("version");
    reveal_strlit("protocol");
    reveal_strlit("echo");
    reveal_strlit("headers");
    reveal_strlit("no_responders");
    assert("auth_token"@[0] == 'a');
    assert("user"@[0] == 'u');
    assert("pass"@[0] == 'p' && "pass"@[1] == 'a');
    assert("verbose"@[0] == 'v' && "verbose"@.len() == 7);
    assert("pedantic"@[1] == 'e');
    assert("tls_required"@[0] == 't');
    assert("name"@[0] == 'n' && "name"@.len() == 4);
    assert("lang"@[0] == 'l');
    assert("version"@[0] == 'v' && "version"@[2] == 'r' && "version"@[3] == 's');
    assert("verbose"@[3] == 'b');
    assert("protocol"@[1] == 'r');
    assert("echo"@[0] == 'e');
    assert("headers"@[0] == 'h');
    assert("no_responders"@[0] == 'n' && "no_responders"@.len() == 13);
}

} // verus!
