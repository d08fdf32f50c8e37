//! Laws of the commands that publish messages: what they carry, and what keeps them from being sent.
use vstd::prelude::*;
use vstd::utf8::{encode_utf8, is_ascii_chars, is_ascii_chars_encode_utf8};

use crate::connection::{publish_start, request_start, sid_after};
use crate::laws::protocol::{
    is_one_line, is_reply_field, law_hpub_line, law_pub_line, reply_fields,
};
use crate::laws::text::law_bytes_of_two;
use crate::subject::publish_subject_error;
use crate::text::{decimal, is_digit, lemma_decimal, parsed_decimal, trimmed, words};
use crate::wire::{
    header_block, header_lines, headers_error, hpub_line, is_valid_header, pub_line, publish_bytes,
    reply_field, saturating_sum,
};

verus! {

/// The bytes in front of the message in the command that publishes it: the line that announces it.
pub open spec fn announcement(
    verb: Seq<char>,
    subject: Seq<char>,
    reply: Option<Seq<char>>,
    sizes: Seq<char>,
) -> Seq<u8> {
    encode_utf8(
        verb + " "@ + subject + " "@ + (match reply {
            Some(inbox) => inbox + " "@,
            None => Seq::empty(),
        }) + sizes + "\r\n"@,
    )
}

/// The command that publishes a message without headers is the line that announces as many bytes as
/// the payload has, then the payload, all of it, then a carriage return and a line feed.
pub proof fn law_command_carries_the_payload(
    subject: Seq<char>,
    reply: Option<Seq<char>>,
    payload: Seq<u8>,
)
    ensures
        publish_bytes(subject, reply, payload, Seq::empty()) == announcement(
            "PUB"@,
            subject,
            reply,
            decimal(payload.len()),
        ) + payload + seq![13u8, 10u8],
{
    reveal_strlit("PUB");
    reveal_strlit("PUB ");
    reveal_strlit(" ");
    assert("PUB "@ =~= "PUB"@ + " "@);
}

/// The command that publishes a message with headers is the line that announces as many bytes as the
/// headers have, and as many as the headers and the payload have, then the headers, then the
/// payload, all of it, then a carriage return and a line feed.
pub proof fn law_command_carries_headers_and_payload(
    subject: Seq<char>,
    reply: Option<Seq<char>>,
    payload: Seq<u8>,
    headers: Seq<(Seq<char>, Seq<char>)>,
)
    requires
        headers.len() > 0,
        encode_utf8(header_block(headers)).len() + payload.len() <= usize::MAX,
    ensures
        ({
            let block = encode_utf8(header_block(headers));
            publish_bytes(subject, reply, payload, headers) == announcement(
                "HPUB"@,
                subject,
                reply,
                decimal(block.len()) + " "@ + decimal(block.len() + payload.len()),
            ) + block + payload + seq![13u8, 10u8]
        }),
{
    reveal_strlit("HPUB");
    reveal_strlit("HPUB ");
    reveal_strlit(" ");
    assert("HPUB "@ =~= "HPUB"@ + " "@);
    let block = encode_utf8(header_block(headers));
    let sizes = decimal(block.len()) + " "@ + decimal(block.len() + payload.len());
    let line = hpub_line(subject, reply, block.len(), block.len() + payload.len());
    assert(line =~= "HPUB"@ + " "@ + subject + " "@ + (match reply {
        Some(inbox) => inbox + " "@,
        None => Seq::empty(),
    }) + sizes + "\r\n"@);
}

/// Whoever reads a command line by line, and behind the line as many bytes as its last field says,
/// gets the payload of a message without headers, and behind it a carriage return and a line feed and
/// nothing else.
pub proof fn law_announced_bytes_are_the_payload(
    subject: Seq<char>,
    reply: Option<Seq<char>>,
    payload: Seq<u8>,
)
    requires
        publish_subject_error(subject) is None,
        trimmed(subject) == subject,
        is_reply_field(reply),
        payload.len() <= usize::MAX,
    ensures
        exists|line: Seq<char>| #[trigger]
            is_one_line(line) && words(line) == seq!["PUB"@, subject] + reply_fields(reply) + seq![
                decimal(payload.len()),
            ] && parsed_decimal(words(line).last(), usize::MAX as nat) == Some(payload.len())
                && publish_bytes(subject, reply, payload, Seq::empty()) == encode_utf8(line) + payload
                + seq![13u8, 10u8],
{
    let line = pub_line(subject, reply, payload.len());
    law_pub_line(subject, reply, payload.len());
    assert(is_one_line(line));
}

/// Whoever reads a command line by line, and behind the line as many bytes as its last two fields
/// say, gets the headers and the payload of a message, and behind it a carriage return and a line
/// feed and nothing else.
pub proof fn law_announced_bytes_are_headers_and_payload(
    subject: Seq<char>,
    reply: Option<Seq<char>>,
    payload: Seq<u8>,
    headers: Seq<(Seq<char>, Seq<char>)>,
)
    requires
        publish_subject_error(subject) is None,
        trimmed(subject) == subject,
        is_reply_field(reply),
        headers.len() > 0,
        encode_utf8(header_block(headers)).len() + payload.len() <= usize::MAX,
    ensures
        ({
            let block = encode_utf8(header_block(headers));
            exists|line: Seq<char>| #[trigger]
                is_one_line(line) && words(line) == seq!["HPUB"@, subject] + reply_fields(reply)
                    + seq![decimal(block.len()), decimal(block.len() + payload.len())]
                    && publish_bytes(subject, reply, payload, headers) == encode_utf8(line) + block
                    + payload + seq![13u8, 10u8]
        }),
{
    let block = encode_utf8(header_block(headers));
    let line = hpub_line(subject, reply, block.len(), block.len() + payload.len());
    law_hpub_line(subject, reply, block.len(), block.len() + payload.len());
    assert(is_one_line(line));
}

/// A larger number is not written shorter.
proof fn lemma_decimal_length(a: nat, b: nat)
    requires
        a <= b,
    ensures
        decimal(a).len() <= decimal(b).len(),
    decreases b,
{
    lemma_decimal(a);
    lemma_decimal(b);
    if a >= 10 {
        lemma_decimal_length(a / 10, b / 10);
    }
}

/// A number is written in as many bytes as characters.
proof fn lemma_decimal_bytes(n: nat)
    ensures
        encode_utf8(decimal(n)).len() == decimal(n).len(),
{
    lemma_decimal(n);
    assert forall|i: int| 0 <= i < decimal(n).len() implies (#[trigger] decimal(n)[i] as nat) < 128 by {
        assert(is_digit(decimal(n)[i]));
    }
    assert(is_ascii_chars(decimal(n)));
    is_ascii_chars_encode_utf8(decimal(n));
}

/// The size of a line whose last field is a number, by that of the rest.
proof fn lemma_line_size(head: Seq<char>, n: nat)
    ensures
        encode_utf8(head + decimal(n) + "\r\n"@).len() == encode_utf8(head).len() + decimal(n).len()
            + encode_utf8("\r\n"@).len(),
{
    law_bytes_of_two(head + decimal(n), "\r\n"@);
    law_bytes_of_two(head, decimal(n));
    lemma_decimal_bytes(n);
}

/// Messages with different payloads are published by different commands.
pub proof fn law_payloads_are_told_apart(
    subject: Seq<char>,
    reply: Option<Seq<char>>,
    headers: Seq<(Seq<char>, Seq<char>)>,
    p: Seq<u8>,
    q: Seq<u8>,
)
    requires
        publish_bytes(subject, reply, p, headers) == publish_bytes(subject, reply, q, headers),
    ensures
        p == q,
{
    if p.len() > q.len() {
        lemma_command_size(subject, reply, headers, q, p);
    } else if p.len() < q.len() {
        lemma_command_size(subject, reply, headers, p, q);
    }
    let command = publish_bytes(subject, reply, p, headers);
    let n = command.len() - p.len() - 2;
    assert(command.subrange(n, n + p.len()) =~= p);
    assert(command.subrange(n, n + q.len()) =~= q);
}

/// A longer payload makes a longer command.
proof fn lemma_command_size(
    subject: Seq<char>,
    reply: Option<Seq<char>>,
    headers: Seq<(Seq<char>, Seq<char>)>,
    p: Seq<u8>,
    q: Seq<u8>,
)
    requires
        p.len() < q.len(),
    ensures
        publish_bytes(subject, reply, p, headers).len() < publish_bytes(
            subject,
            reply,
            q,
            headers,
        ).len(),
{
    let field = reply_field(reply);
    if headers.len() == 0 {
        let head = "PUB "@ + subject + " "@ + field;
        lemma_line_size(head, p.len());
        lemma_line_size(head, q.len());
        lemma_decimal_length(p.len(), q.len());
    } else {
        let block = encode_utf8(header_block(headers));
        let head = "HPUB "@ + subject + " "@ + field + decimal(block.len()) + " "@;
        let a = saturating_sum(block.len(), p.len());
        let b = saturating_sum(block.len(), q.len());
        lemma_line_size(head, a);
        lemma_line_size(head, b);
        lemma_decimal_length(a, b);
    }
}

/// The headers of a message are sent one line each, in order, with the name trimmed and the value as
/// it is, between a version line and an empty line.
pub proof fn law_headers_are_sent_line_by_line(
    headers: Seq<(Seq<char>, Seq<char>)>,
    name: Seq<char>,
    value: Seq<char>,
)
    ensures
        header_lines(Seq::empty()) == Seq::<char>::empty(),
        header_lines(headers.push((name, value))) == header_lines(headers) + trimmed(name) + ": "@
            + value + "\r\n"@,
        header_block(headers) == "NATS/1.0"@ + "\r\n"@ + header_lines(headers) + "\r\n"@,
{
    reveal_strlit("NATS/1.0");
    reveal_strlit("\r\n");
    reveal_strlit("NATS/1.0\r\n");
    assert("NATS/1.0\r\n"@ =~= "NATS/1.0"@ + "\r\n"@);
    assert(headers.push((name, value)).drop_last() =~= headers);
}

/// A header can be sent where something is left of its name once it is trimmed, the name holds no
/// colon, and neither the name nor the value holds a carriage return or a line feed.
pub proof fn law_valid_headers(name: Seq<char>, value: Seq<char>)
    ensures
        is_valid_header((name, value)) <==> trimmed(name).len() > 0 && (forall|i: int|
            0 <= i < name.len() ==> #[trigger] name[i] != ':' && name[i] != '\r' && name[i] != '\n')
            && (forall|i: int|
            0 <= i < value.len() ==> #[trigger] value[i] != '\r' && value[i] != '\n'),
{
    if !name.contains(':') && !name.contains('\r') && !name.contains('\n') {
        assert forall|i: int| 0 <= i < name.len() implies #[trigger] name[i] != ':' && name[i] != '\r'
            && name[i] != '\n' by {
            assert(name.contains(name[i]));
        }
    }
    if !value.contains('\r') && !value.contains('\n') {
        assert forall|i: int| 0 <= i < value.len() implies #[trigger] value[i] != '\r' && value[i]
            != '\n' by {
            assert(value.contains(value[i]));
        }
    }
}

/// Headers are refused for the first of them that cannot be sent, by its name.
pub proof fn law_first_invalid_header_is_reported(headers: Seq<(Seq<char>, Seq<char>)>, k: int)
    requires
        0 <= k < headers.len(),
        forall|i: int| 0 <= i < k ==> is_valid_header(#[trigger] headers[i]),
        !is_valid_header(headers[k]),
    ensures
        headers_error(headers) == Some("Invalid NATS header: "@ + headers[k].0),
    decreases headers.len(),
{
    if k > 0 {
        let rest = headers.drop_first();
        assert(is_valid_header(headers[0]));
        assert forall|i: int| 0 <= i < k - 1 implies is_valid_header(#[trigger] rest[i]) by {
            assert(rest[i] == headers[i + 1]);
        }
        law_first_invalid_header_is_reported(rest, k - 1);
    }
}

/// A message on a valid subject with valid headers is published by the command that carries it, and
/// nothing is asked to reply to it.
pub proof fn law_message_is_published_as_it_is(
    subject: Seq<char>,
    payload: Seq<u8>,
    headers: Seq<(Seq<char>, Seq<char>)>,
)
    ensures
        publish_subject_error(subject) is None && headers_error(headers) is None ==> publish_start(
            subject,
            payload,
            headers,
        ) == Ok::<Seq<u8>, Seq<char>>(publish_bytes(subject, None, payload, headers)),
        publish_subject_error(subject) is None && headers_error(headers) is Some ==> publish_start(
            subject,
            payload,
            headers,
        ) == Err::<Seq<u8>, Seq<char>>(headers_error(headers)->0),
        publish_subject_error(subject) is Some ==> publish_start(subject, payload, headers) == Err::<
            Seq<u8>,
            Seq<char>,
        >(publish_subject_error(subject)->0),
{
}

/// A request on a valid subject with valid headers gets the number after the last one, subscribes to
/// its inbox under that number for one message, and publishes the message that asks for a reply to
/// that inbox. A request on a subject that is not valid uses up no number.
pub proof fn law_request_is_made_as_it_is(
    last_sid: u64,
    token: Seq<char>,
    subject: Seq<char>,
    payload: Seq<u8>,
    headers: Seq<(Seq<char>, Seq<char>)>,
)
    requires
        last_sid < u64::MAX,
    ensures
        publish_subject_error(subject) is None && headers_error(headers) is None ==> {
            let sid = (last_sid + 1) as u64;
            let inbox = "_INBOX.DBX."@ + token;
            request_start(last_sid, token, subject, payload, headers) == Ok::<
                (u64, Seq<u8>),
                Seq<char>,
            >(
                (
                    sid,
                    encode_utf8(
                        "SUB "@ + inbox + " "@ + decimal(sid as nat) + "\r\n"@ + "UNSUB "@ + decimal(
                            sid as nat,
                        ) + " 1\r\n"@,
                    ) + publish_bytes(subject, Some(inbox), payload, headers),
                ),
            )
        },
        publish_subject_error(subject) is None ==> sid_after(last_sid, subject) == last_sid + 1,
        publish_subject_error(subject) is None && headers_error(headers) is Some ==> request_start(
            last_sid,
            token,
            subject,
            payload,
            headers,
        ) == Err::<(u64, Seq<u8>), Seq<char>>(headers_error(headers)->0),
        publish_subject_error(subject) is Some ==> sid_after(last_sid, subject) == last_sid
            && request_start(last_sid, token, subject, payload, headers) == Err::<
            (u64, Seq<u8>),
            Seq<char>,
        >(publish_subject_error(subject)->0),
{
    reveal_strlit("UNSUB ");
    reveal_strlit("\r\n");
    reveal_strlit("\r\nUNSUB ");
    assert("\r\nUNSUB "@ =~= "\r\n"@ + "UNSUB "@);
    let sid = (last_sid + 1) as u64;
    let inbox = "_INBOX.DBX."@ + token;
    let number = decimal(sid as nat);
    assert("SUB "@ + inbox + " "@ + number + "\r\nUNSUB "@ + number + " 1\r\n"@ =~= "SUB "@ + inbox
        + " "@ + number + "\r\n"@ + "UNSUB "@ + number + " 1\r\n"@);
}

/// Once the largest number is used, every request gets it.
pub proof fn law_numbers_end_at_the_largest(subject: Seq<char>)
    ensures
        sid_after(u64::MAX, subject) == u64::MAX,
{
}

} // verus!
