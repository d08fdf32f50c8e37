//! The commands that publish messages, as bytes.
use vstd::prelude::*;
use vstd::utf8::encode_utf8;

use crate::text::{contains_char, decimal, decimal_text, owned, trim, trimmed};

verus! {

/// The names and values of a list of headers.
pub open spec fn header_texts(headers: Seq<(String, String)>) -> Seq<(Seq<char>, Seq<char>)> {
    Seq::new(headers.len(), |i: int| (headers[i].0@, headers[i].1@))
}

/// Whether no name occurs twice among `headers`, as where they come from a map.
pub open spec fn has_distinct_names(headers: Seq<(Seq<char>, Seq<char>)>) -> bool {
    forall|i: int, j: int|
        0 <= i < j < headers.len() ==> (#[trigger] headers[i]).0 != (#[trigger] headers[j]).0
}

/// Whether `s` holds a carriage return or a line feed.
pub open spec fn has_line_end(s: Seq<char>) -> bool {
    s.contains('\r') || s.contains('\n')
}

/// Whether a header can be sent: it has a name without a colon, and stands on one line.
pub open spec fn is_valid_header(header: (Seq<char>, Seq<char>)) -> bool {
    trimmed(header.0).len() > 0 && !header.0.contains(':') && !has_line_end(header.0)
        && !has_line_end(header.1)
}

/// The first of `headers` that cannot be sent, by its name.
pub open spec fn first_invalid(headers: Seq<(Seq<char>, Seq<char>)>) -> Option<Seq<char>>
    decreases headers.len(),
{
    if headers.len() == 0 {
        None
    } else if is_valid_header(headers[0]) {
        first_invalid(headers.drop_first())
    } else {
        Some(headers[0].0)
    }
}

/// The lines of `headers`, in order.
pub open spec fn header_lines(headers: Seq<(Seq<char>, Seq<char>)>) -> Seq<char>
    decreases headers.len(),
{
    if headers.len() == 0 {
        Seq::empty()
    } else {
        header_lines(headers.drop_last()) + trimmed(headers.last().0) + ": "@ + headers.last().1
            + "\r\n"@
    }
}

/// The version line, the lines of `headers` and an empty line.
pub open spec fn header_block(headers: Seq<(Seq<char>, Seq<char>)>) -> Seq<char> {
    "NATS/1.0\r\n"@ + header_lines(headers) + "\r\n"@
}

/// The subject to which replies go, with a space behind it.
pub open spec fn reply_field(reply: Option<Seq<char>>) -> Seq<char> {
    match reply {
        Some(subject) => subject + " "@,
        None => Seq::empty(),
    }
}

/// The line that announces a message without headers.
pub open spec fn pub_line(subject: Seq<char>, reply: Option<Seq<char>>, size: nat) -> Seq<char> {
    "PUB "@ + subject + " "@ + reply_field(reply) + decimal(size) + "\r\n"@
}

/// The line that announces a message with headers.
pub open spec fn hpub_line(
    subject: Seq<char>,
    reply: Option<Seq<char>>,
    header_size: nat,
    total_size: nat,
) -> Seq<char> {
    "HPUB "@ + subject + " "@ + reply_field(reply) + decimal(header_size) + " "@ + decimal(
        total_size,
    ) + "\r\n"@
}

/// Carriage return and line feed.
pub open spec fn crlf() -> Seq<u8> {
    seq![13u8, 10u8]
}

/// `a + b`, or the largest `usize` where that is smaller.
pub open spec fn saturating_sum(a: nat, b: nat) -> nat {
    if a + b <= usize::MAX {
        a + b
    } else {
        usize::MAX as nat
    }
}

/// The command that publishes `payload` under `headers`.
pub open spec fn publish_bytes(
    subject: Seq<char>,
    reply: Option<Seq<char>>,
    payload: Seq<u8>,
    headers: Seq<(Seq<char>, Seq<char>)>,
) -> Seq<u8> {
    if headers.len() == 0 {
        encode_utf8(pub_line(subject, reply, payload.len())) + payload + crlf()
    } else {
        let block = encode_utf8(header_block(headers));
        encode_utf8(
            hpub_line(subject, reply, block.len(), saturating_sum(block.len(), payload.len())),
        ) + block + payload + crlf()
    }
}

/// What is wrong with a list of headers.
pub open spec fn headers_error(headers: Seq<(Seq<char>, Seq<char>)>) -> Option<Seq<char>> {
    match first_invalid(headers) {
        Some(name) => Some("Invalid NATS header: "@ + name),
        None => None,
    }
}

/// Appends `bytes` to `output`.
pub fn extend(output: &mut Vec<u8>, bytes: &[u8])
    ensures
        final(output)@ == old(output)@ + bytes@,
{
    output.extend_from_slice(bytes);
    assert(output@ =~= old(output)@ + bytes@);
}

/// Whether `s` holds a carriage return or a line feed.
fn contains_line_end(s: &str) -> (r: bool)
    ensures
        r == has_line_end(s@),
{
    contains_char(s, '\r') || contains_char(s, '\n')
}

/// Appends the field of the subject to which replies go.
fn push_reply(line: &mut String, reply: Option<&str>)
    ensures
        final(line)@ == old(line)@ + reply_field(reply_text(reply)),
{
    match reply {
        Some(subject) => {
            line.append(subject);
            line.append(" ");
            assert(line@ =~= old(line)@ + (subject@ + " "@));
        },
        None => {
            assert(line@ =~= old(line)@ + Seq::<char>::empty());
        },
    }
}

/// The text of the subject to which replies go.
pub open spec fn reply_text(reply: Option<&str>) -> Option<Seq<char>> {
    match reply {
        Some(subject) => Some(subject@),
        None => None,
    }
}

/// The version line, the lines of `headers` and an empty line, or what is wrong with them.
fn header_block_text(headers: &Vec<(String, String)>) -> (r: Result<String, String>)
    ensures
        match r {
            Ok(block) => headers_error(header_texts(headers@)) is None && block@ == header_block(
                header_texts(headers@),
            ),
            Err(text) => headers_error(header_texts(headers@)) == Some(text@),
        },
{
    let ghost all = header_texts(headers@);
    let mut block: String = owned("NATS/1.0\r\n");
    let mut i: usize = 0;
    assert(all.skip(0) =~= all);
    assert(block@ =~= "NATS/1.0\r\n"@ + header_lines(all.take(0)));
    while i < headers.len()
        invariant
            i <= headers@.len(),
            all == header_texts(headers@),
            first_invalid(all) == first_invalid(all.skip(i as int)),
            block@ == "NATS/1.0\r\n"@ + header_lines(all.take(i as int)),
        decreases headers@.len() - i,
    {
        let name = headers[i].0.as_str();
        let value = headers[i].1.as_str();
        assert(all.skip(i as int)[0] == (name@, value@));
        assert(all.skip(i as int).drop_first() =~= all.skip(i + 1));
        if trim(name).is_empty() || contains_char(name, ':') || contains_line_end(name)
            || contains_line_end(value) {
            let mut text: String = owned("Invalid NATS header: ");
            text.append(name);
            return Err(text);
        }
        assert(all.take(i + 1).drop_last() =~= all.take(i as int));
        assert(all.take(i + 1).last() == (name@, value@));
        block.append(trim(name));
        block.append(": ");
        block.append(value);
        block.append("\r\n");
        assert(block@ =~= "NATS/1.0\r\n"@ + header_lines(all.take(i + 1)));
        i += 1;
    }
    assert(all.take(all.len() as int) =~= all);
    block.append("\r\n");
    Ok(block)
}

/// Appends the command that publishes `payload` on `subject` to `output`. The headers come in the
/// order in which they are sent; those of a message have distinct names ([`has_distinct_names`]),
/// and each of a list that has not is sent all the same. Where one of them cannot be sent, `output`
/// stays as it is.
pub fn append_publish_command(
    output: &mut Vec<u8>,
    subject: &str,
    reply: Option<&str>,
    payload: &[u8],
    headers: &Vec<(String, String)>,
) -> (r: Result<(), String>)
    ensures
        match r {
            Ok(_) => headers_error(header_texts(headers@)) is None && final(output)@ == old(
                output,
            )@ + publish_bytes(subject@, reply_text(reply), payload@, header_texts(headers@)),
            Err(text) => headers_error(header_texts(headers@)) == Some(text@) && final(output)@
                == old(output)@,
        },
{
    if headers.is_empty() {
        let mut line: String = owned("PUB ");
        line.append(subject);
        line.append(" ");
        push_reply(&mut line, reply);
        line.append(decimal_text(payload.len() as u64).as_str());
        line.append("\r\n");
        extend(output, line.as_str().as_bytes());
        extend(output, payload);
        extend(output, &[13u8, 10u8]);
        assert(output@ =~= old(output)@ + publish_bytes(
            subject@,
            reply_text(reply),
            payload@,
            header_texts(headers@),
        ));
        return Ok(());
    }
    let block: String = match header_block_text(headers) {
        Ok(block) => block,
        Err(text) => return Err(text),
    };
    let block_bytes = block.as_str().as_bytes();
    let header_size: usize = block_bytes.len();
    let total_size: usize = header_size.saturating_add(payload.len());
    let mut line: String = owned("HPUB ");
    line.append(subject);
    line.append(" ");
    push_reply(&mut line, reply);
    line.append(decimal_text(header_size as u64).as_str());
    line.append(" ");
    line.append(decimal_text(total_size as u64).as_str());
    line.append("\r\n");
    extend(output, line.as_str().as_bytes());
    extend(output, block_bytes);
    extend(output, payload);
    extend(output, &[13u8, 10u8]);
    assert(output@ =~= old(output)@ + publish_bytes(
        subject@,
        reply_text(reply),
        payload@,
        header_texts(headers@),
    ));
    Ok(())
}

} // verus!
