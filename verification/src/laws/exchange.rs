//! Laws of the exchange that makes up a request, and of waiting for an answer.
use vstd::prelude::*;
use vstd::utf8::encode_utf8;

use crate::codec::json_of_str;
use crate::connection::{
    heard, info_after, pong_step, request_frame_step, request_line_step, server_error, HeardSpec,
    PongSpec, RequestSpec,
};
use crate::json::JsonSpec;
use crate::laws::protocol::{
    hmsg_line, is_field, is_reply_field, law_reply_comes_back, law_reply_with_headers_comes_back,
    msg_line,
};
use crate::text::{after, begins_with};
use crate::wire::{crlf, header_block};

verus! {

/// How many of `lines` ask for a sign of life.
pub open spec fn pings(lines: Seq<Seq<char>>) -> nat
    decreases lines.len(),
{
    if lines.len() == 0 {
        0
    } else if lines[0] == "PING"@ {
        1 + pings(lines.drop_first())
    } else {
        pings(lines.drop_first())
    }
}

/// The answers to as many lines that ask for a sign of life.
pub open spec fn pongs(count: nat) -> Seq<Seq<u8>> {
    Seq::new(count, |i: int| encode_utf8("PONG\r\n"@))
}

/// What the server is known to say of itself once `lines` were read.
pub open spec fn info_after_all(info: JsonSpec, lines: Seq<Seq<char>>) -> JsonSpec
    decreases lines.len(),
{
    if lines.len() == 0 {
        info
    } else {
        info_after_all(info_after(lines[0], info), lines.drop_first())
    }
}

/// Lines in which the server says nothing of itself leave what is known as it is.
pub proof fn law_info_stays(info: JsonSpec, lines: Seq<Seq<char>>)
    requires
        forall|i: int| 0 <= i < lines.len() ==> !begins_with(#[trigger] lines[i], "INFO "@),
    ensures
        info_after_all(info, lines) == info,
    decreases lines.len(),
{
    if lines.len() > 0 {
        let rest = lines.drop_first();
        assert(!begins_with(lines[0], "INFO "@));
        assert forall|i: int| 0 <= i < rest.len() implies !begins_with(#[trigger] rest[i], "INFO "@) by {
            assert(rest[i] == lines[i + 1]);
        }
        law_info_stays(info, rest);
    }
}

/// What the server is known to say of itself is what it said last, in the line `k`.
pub proof fn law_last_info_counts(
    info: JsonSpec,
    lines: Seq<Seq<char>>,
    k: int,
    document: JsonSpec,
)
    requires
        0 <= k < lines.len(),
        begins_with(lines[k], "INFO "@),
        json_of_str(after(lines[k], "INFO "@.len() as int)) == Ok::<JsonSpec, Seq<char>>(document),
        forall|i: int| k < i < lines.len() ==> !begins_with(#[trigger] lines[i], "INFO "@),
    ensures
        info_after_all(info, lines) == document,
    decreases lines.len(),
{
    let rest = lines.drop_first();
    let next = info_after(lines[0], info);
    assert forall|i: int| k - 1 < i < rest.len() implies !begins_with(#[trigger] rest[i], "INFO "@) by {
        assert(rest[i] == lines[i + 1]);
    }
    if k == 0 {
        law_info_stays(next, rest);
    } else {
        assert(rest[k - 1] == lines[k]);
        law_last_info_counts(next, rest, k - 1, document);
    }
}

/// What a client reads in one go while it waits for a reply: a line, and where the line announces a
/// message, the message and the two bytes behind it.
pub struct Received {
    /// The line.
    pub line: Seq<char>,
    /// The message that the line announces.
    pub frame: Seq<u8>,
    /// The two bytes behind the message.
    pub terminator: Seq<u8>,
}

/// What to do about `item` while the reply for the subscription `sid` is waited for.
pub open spec fn received_step(sid: u64, item: Received) -> RequestSpec {
    match request_line_step(item.line) {
        RequestSpec::ReadFrame(delivery) => request_frame_step(
            sid,
            delivery,
            item.frame,
            item.terminator,
        ),
        step => step,
    }
}

/// The lines among what was read.
pub open spec fn lines_of(received: Seq<Received>) -> Seq<Seq<char>> {
    Seq::new(received.len(), |i: int| received[i].line)
}

/// What came of waiting.
pub struct Run<T> {
    /// The outcome with which the waiting ended, where it did.
    pub outcome: Option<Result<T, Seq<char>>>,
    /// What was sent meanwhile.
    pub sent: Seq<Seq<u8>>,
    /// What the server is known to say of itself.
    pub info: JsonSpec,
}

/// What comes of a request whose subscription is `sid`, on a connection whose server said `info` of
/// itself, once `received` was read. What comes behind the end of it is not read.
pub open spec fn exchange(sid: u64, info: JsonSpec, received: Seq<Received>) -> Run<Seq<u8>>
    decreases received.len(),
{
    if received.len() == 0 {
        Run { outcome: None, sent: Seq::empty(), info }
    } else {
        let next = info_after(received[0].line, info);
        let rest = exchange(sid, next, received.drop_first());
        match received_step(sid, received[0]) {
            RequestSpec::Done(outcome) => Run {
                outcome: Some(outcome),
                sent: Seq::empty(),
                info: next,
            },
            RequestSpec::Send(bytes) => Run {
                outcome: rest.outcome,
                sent: seq![bytes] + rest.sent,
                info: rest.info,
            },
            _ => rest,
        }
    }
}

/// Whether nothing in `received` ends the request whose subscription is `sid`: there are lines that
/// announce nothing and report no error, and messages for other subscriptions.
pub open spec fn is_beside_the_point(sid: u64, received: Seq<Received>) -> bool {
    forall|i: int| 0 <= i < received.len() ==> !(received_step(sid, #[trigger] received[i]) is Done)
}

/// Only a line that asks for a sign of life is answered, with one.
proof fn lemma_only_pings_are_answered(sid: u64, item: Received)
    ensures
        received_step(sid, item) matches RequestSpec::Send(bytes) ==> item.line == "PING"@ && bytes
            == encode_utf8("PONG\r\n"@),
        item.line == "PING"@ ==> received_step(sid, item) is Send,
{
}

/// One more answer in front.
proof fn lemma_pongs_step(count: nat)
    ensures
        seq![encode_utf8("PONG\r\n"@)] + pongs(count) == pongs(1 + count),
{
    assert(seq![encode_utf8("PONG\r\n"@)] + pongs(count) =~= pongs(1 + count));
}

/// As long as nothing ends it, a request goes on: each line that asks for a sign of life has got one,
/// nothing else was sent, and what the server said last of itself is known.
pub proof fn law_request_goes_on(sid: u64, info: JsonSpec, received: Seq<Received>)
    requires
        is_beside_the_point(sid, received),
    ensures
        exchange(sid, info, received) == (Run::<Seq<u8>> {
            outcome: None,
            sent: pongs(pings(lines_of(received))),
            info: info_after_all(info, lines_of(received)),
        }),
    decreases received.len(),
{
    if received.len() == 0 {
        assert(pongs(0) =~= Seq::empty());
    } else {
        let rest = received.drop_first();
        let next = info_after(received[0].line, info);
        assert(!(received_step(sid, received[0]) is Done));
        assert forall|i: int| 0 <= i < rest.len() implies !(received_step(
            sid,
            #[trigger] rest[i],
        ) is Done) by {
            assert(rest[i] == received[i + 1]);
        }
        law_request_goes_on(sid, next, rest);
        lemma_only_pings_are_answered(sid, received[0]);
        lemma_pongs_step(pings(lines_of(rest)));
        assert(lines_of(received).drop_first() =~= lines_of(rest));
        assert(lines_of(received)[0] == received[0].line);
    }
}

/// A request ends with what is the first to end it, with that outcome, whatever comes behind. Up to
/// there each line that asks for a sign of life has got one and nothing else was sent, and what the
/// server said last of itself is known.
pub proof fn law_request_ends_with_the_first_outcome(
    sid: u64,
    info: JsonSpec,
    before: Seq<Received>,
    item: Received,
    outcome: Result<Seq<u8>, Seq<char>>,
    behind: Seq<Received>,
)
    requires
        is_beside_the_point(sid, before),
        received_step(sid, item) == RequestSpec::Done(outcome),
    ensures
        exchange(sid, info, before.push(item) + behind) == (Run {
            outcome: Some(outcome),
            sent: pongs(pings(lines_of(before))),
            info: info_after(item.line, info_after_all(info, lines_of(before))),
        }),
    decreases before.len(),
{
    let all = before.push(item) + behind;
    if before.len() == 0 {
        assert(all[0] == item);
        assert(pongs(0) =~= Seq::empty());
    } else {
        let rest = before.drop_first();
        let next = info_after(before[0].line, info);
        assert(all[0] == before[0]);
        assert(all.drop_first() =~= rest.push(item) + behind);
        assert(!(received_step(sid, before[0]) is Done));
        assert forall|i: int| 0 <= i < rest.len() implies !(received_step(
            sid,
            #[trigger] rest[i],
        ) is Done) by {
            assert(rest[i] == before[i + 1]);
        }
        law_request_ends_with_the_first_outcome(sid, next, rest, item, outcome, behind);
        lemma_only_pings_are_answered(sid, before[0]);
        lemma_pongs_step(pings(lines_of(rest)));
        assert(lines_of(before).drop_first() =~= lines_of(rest));
        assert(lines_of(before)[0] == before[0].line);
    }
}

/// A line that does not begin with `I` says nothing that the server says of itself.
proof fn lemma_no_info(line: Seq<char>)
    requires
        line.len() > 0,
        line[0] != 'I',
    ensures
        !begins_with(line, "INFO "@),
{
    reveal_strlit("INFO ");
    if begins_with(line, "INFO "@) {
        assert(line[0] == line.subrange(0, "INFO "@.len() as int)[0]);
    }
}

/// The reply to a request is the first message for its subscription, as it was sent, whatever was
/// read before that does not end the request.
pub proof fn law_request_gets_its_reply(
    sid: u64,
    info: JsonSpec,
    before: Seq<Received>,
    subject: Seq<char>,
    reply: Option<Seq<char>>,
    payload: Seq<u8>,
    behind: Seq<Received>,
)
    requires
        is_beside_the_point(sid, before),
        is_field(subject),
        is_reply_field(reply),
        payload.len() <= usize::MAX,
    ensures
        ({
            let item = Received {
                line: msg_line(subject, sid, reply, payload.len()),
                frame: payload,
                terminator: crlf(),
            };
            exchange(sid, info, before.push(item) + behind) == (Run {
                outcome: Some(Ok(payload)),
                sent: pongs(pings(lines_of(before))),
                info: info_after_all(info, lines_of(before)),
            })
        }),
{
    let line = msg_line(subject, sid, reply, payload.len());
    let item = Received { line, frame: payload, terminator: crlf() };
    let other: u64 = if sid == 0 {
        1
    } else {
        0
    };
    law_reply_comes_back(subject, sid, other, reply, payload);
    law_request_ends_with_the_first_outcome(sid, info, before, item, Ok(payload), behind);
    reveal_strlit("MSG ");
    assert(line[0] == "MSG "@[0]);
    lemma_no_info(line);
}

/// The reply to a request that comes with headers is the first message for its subscription, without
/// the headers, whatever was read before that does not end the request.
pub proof fn law_request_gets_its_reply_with_headers(
    sid: u64,
    info: JsonSpec,
    before: Seq<Received>,
    subject: Seq<char>,
    reply: Option<Seq<char>>,
    headers: Seq<(Seq<char>, Seq<char>)>,
    payload: Seq<u8>,
    behind: Seq<Received>,
)
    requires
        is_beside_the_point(sid, before),
        is_field(subject),
        is_reply_field(reply),
        encode_utf8(header_block(headers)).len() + payload.len() <= usize::MAX,
    ensures
        ({
            let block = encode_utf8(header_block(headers));
            let item = Received {
                line: hmsg_line(subject, sid, reply, block.len(), (block + payload).len()),
                frame: block + payload,
                terminator: crlf(),
            };
            exchange(sid, info, before.push(item) + behind) == (Run {
                outcome: Some(Ok(payload)),
                sent: pongs(pings(lines_of(before))),
                info: info_after_all(info, lines_of(before)),
            })
        }),
{
    let block = encode_utf8(header_block(headers));
    let line = hmsg_line(subject, sid, reply, block.len(), (block + payload).len());
    let item = Received { line, frame: block + payload, terminator: crlf() };
    law_reply_with_headers_comes_back(subject, sid, reply, headers, payload);
    law_request_ends_with_the_first_outcome(sid, info, before, item, Ok(payload), behind);
    reveal_strlit("HMSG ");
    assert(line[0] == "HMSG "@[0]);
    lemma_no_info(line);
}

/// What a line that begins with `-ERR` means.
proof fn lemma_error_line(report: Seq<char>)
    ensures
        heard("-ERR"@ + report) == HeardSpec::Failed(server_error(report)),
        !begins_with("-ERR"@ + report, "INFO "@),
        "-ERR"@ + report != "PONG"@,
        "-ERR"@ + report != "PING"@,
{
    reveal_strlit("-ERR");
    reveal_strlit("PING");
    reveal_strlit("PONG");
    reveal_strlit("+OK");
    let line = "-ERR"@ + report;
    assert(line[0] == '-');
    assert("PING"@[0] == 'P' && "PONG"@[0] == 'P' && "+OK"@[0] == '+');
    lemma_no_info(line);
    assert(line.subrange(0, "-ERR"@.len() as int) =~= "-ERR"@);
    assert(after(line, "-ERR"@.len() as int) =~= report);
}

/// A request ends with the first error that the server reports, whatever was read before that does
/// not end the request.
pub proof fn law_request_ends_with_a_reported_error(
    sid: u64,
    info: JsonSpec,
    before: Seq<Received>,
    report: Seq<char>,
    behind: Seq<Received>,
)
    requires
        is_beside_the_point(sid, before),
    ensures
        ({
            let item = Received {
                line: "-ERR"@ + report,
                frame: Seq::empty(),
                terminator: Seq::empty(),
            };
            exchange(sid, info, before.push(item) + behind) == (Run {
                outcome: Some(Err::<Seq<u8>, Seq<char>>(server_error(report))),
                sent: pongs(pings(lines_of(before))),
                info: info_after_all(info, lines_of(before)),
            })
        }),
{
    let item = Received { line: "-ERR"@ + report, frame: Seq::empty(), terminator: Seq::empty() };
    lemma_error_line(report);
    law_request_ends_with_the_first_outcome(
        sid,
        info,
        before,
        item,
        Err(server_error(report)),
        behind,
    );
}

/// A server that asks for a sign of life gets one at any time, and nothing else comes of it.
pub proof fn law_ping_is_answered()
    ensures
        request_line_step("PING"@) == RequestSpec::Send(encode_utf8("PONG\r\n"@)),
        pong_step("PING"@) == PongSpec::Send(encode_utf8("PONG\r\n"@)),
{
    reveal_strlit("PING");
    reveal_strlit("PONG");
    assert("PING"@[1] != "PONG"@[1]);
}

/// What comes of waiting for the answer to a `PING`, on a connection whose server said `info` of
/// itself, once `lines` were read. What comes behind the end of it is not read.
pub open spec fn wait(info: JsonSpec, lines: Seq<Seq<char>>) -> Run<()>
    decreases lines.len(),
{
    if lines.len() == 0 {
        Run { outcome: None, sent: Seq::empty(), info }
    } else {
        let next = info_after(lines[0], info);
        let rest = wait(next, lines.drop_first());
        match pong_step(lines[0]) {
            PongSpec::Done => Run { outcome: Some(Ok(())), sent: Seq::empty(), info: next },
            PongSpec::Failed(error) => Run {
                outcome: Some(Err(error)),
                sent: Seq::empty(),
                info: next,
            },
            PongSpec::Send(bytes) => Run {
                outcome: rest.outcome,
                sent: seq![bytes] + rest.sent,
                info: rest.info,
            },
            PongSpec::ReadLine => rest,
        }
    }
}

/// Whether none of `lines` ends the wait for the answer to a `PING`: none is the answer, and none
/// fails.
pub open spec fn keeps_waiting(lines: Seq<Seq<char>>) -> bool {
    forall|i: int|
        0 <= i < lines.len() ==> !(pong_step(#[trigger] lines[i]) is Failed) && lines[i] != "PONG"@
}

/// The end of a wait, where it comes with the line behind `before`.
proof fn lemma_wait(
    info: JsonSpec,
    before: Seq<Seq<char>>,
    line: Seq<char>,
    outcome: Result<(), Seq<char>>,
    behind: Seq<Seq<char>>,
)
    requires
        keeps_waiting(before),
        match outcome {
            Ok(_) => line == "PONG"@ && outcome == Ok::<(), Seq<char>>(()),
            Err(error) => pong_step(line) == PongSpec::Failed(error),
        },
    ensures
        wait(info, before) == (Run::<()> {
            outcome: None,
            sent: pongs(pings(before)),
            info: info_after_all(info, before),
        }),
        wait(info, before.push(line) + behind) == (Run {
            outcome: Some(outcome),
            sent: pongs(pings(before)),
            info: info_after(line, info_after_all(info, before)),
        }),
    decreases before.len(),
{
    let all = before.push(line) + behind;
    if before.len() == 0 {
        assert(all[0] == line);
        assert(pongs(0) =~= Seq::empty());
    } else {
        let rest = before.drop_first();
        assert(all[0] == before[0]);
        assert(all.drop_first() =~= rest.push(line) + behind);
        assert(!(pong_step(before[0]) is Failed) && before[0] != "PONG"@);
        assert forall|i: int| 0 <= i < rest.len() implies !(pong_step(#[trigger] rest[i]) is Failed)
            && rest[i] != "PONG"@ by {
            assert(rest[i] == before[i + 1]);
        }
        lemma_wait(info_after(before[0], info), rest, line, outcome, behind);
        law_ping_is_answered();
        lemma_pongs_step(pings(rest));
    }
}

/// The answer to a `PING` is waited for until it comes, whatever lines that do not fail come before
/// it. Up to there each line that asks for a sign of life has got one and nothing else was sent, and
/// what the server said last of itself is known.
pub proof fn law_wait_ends_with_the_answer(
    info: JsonSpec,
    before: Seq<Seq<char>>,
    behind: Seq<Seq<char>>,
)
    requires
        keeps_waiting(before),
    ensures
        wait(info, before) == (Run::<()> {
            outcome: None,
            sent: pongs(pings(before)),
            info: info_after_all(info, before),
        }),
        wait(info, before.push("PONG"@) + behind) == (Run {
            outcome: Some(Ok::<(), Seq<char>>(())),
            sent: pongs(pings(before)),
            info: info_after_all(info, before),
        }),
{
    lemma_wait(info, before, "PONG"@, Ok(()), behind);
    reveal_strlit("PONG");
    lemma_no_info("PONG"@);
}

/// The wait for the answer to a `PING` ends with the error of the first line that fails, where the
/// answer does not come before it. Up to there each line that asks for a sign of life has got one
/// and nothing else was sent, and what the server said last of itself is known.
pub proof fn law_wait_ends_with_the_first_failure(
    info: JsonSpec,
    before: Seq<Seq<char>>,
    line: Seq<char>,
    error: Seq<char>,
    behind: Seq<Seq<char>>,
)
    requires
        keeps_waiting(before),
        pong_step(line) == PongSpec::Failed(error),
    ensures
        wait(info, before.push(line) + behind) == (Run {
            outcome: Some(Err::<(), Seq<char>>(error)),
            sent: pongs(pings(before)),
            info: info_after_all(info, before),
        }),
{
    lemma_wait(info, before, line, Err(error), behind);
    reveal_strlit("PING");
    reveal_strlit("+OK");
    if begins_with(line, "INFO "@) {
        reveal_strlit("INFO ");
        assert(line[0] == line.subrange(0, "INFO "@.len() as int)[0]);
        assert("PING"@[0] == 'P' && "+OK"@[0] == '+');
    }
}

/// An error that the server reports is what the wait for the answer to a `PING` fails with.
pub proof fn law_reported_error_ends_the_wait(
    info: JsonSpec,
    before: Seq<Seq<char>>,
    report: Seq<char>,
    behind: Seq<Seq<char>>,
)
    requires
        keeps_waiting(before),
    ensures
        wait(info, before.push("-ERR"@ + report) + behind) == (Run {
            outcome: Some(Err::<(), Seq<char>>(server_error(report))),
            sent: pongs(pings(before)),
            info: info_after_all(info, before),
        }),
{
    lemma_error_line(report);
    law_wait_ends_with_the_first_failure(
        info,
        before,
        "-ERR"@ + report,
        server_error(report),
        behind,
    );
}

} // verus!
