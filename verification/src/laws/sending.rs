//! Laws of requests, replies and messages that are sent.
use vstd::prelude::*;

use crate::codec::json_bytes;
use crate::connection::{publish_start, request_start};
use crate::jetstream::{checked, reported_error, JsRequestSpec};
use crate::json::JsonSpec;
use crate::laws::documents::{
    at, is_number, law_fields_are_found, law_values_are_read_as_they_are,
};
use crate::laws::reporting::no_i64;
use crate::laws::requests::{is_blank, law_states_are_asked_for};
use crate::laws::subjects::{
    law_publish_target_is_bound, law_stream_subjects_are_valid, law_validity_disregards_white_space,
};
use crate::laws::text::law_trim_twice;
use crate::send::{
    acknowledged, first_step, found_stream, next_step, outgoing_of, published_on,
    stream_info_subject, OutgoingSpec, SendSpec,
};
use crate::subject::{
    any_matches, bound_subjects, publish_subject_error, publish_target, resource_name_error,
};
use crate::text::{decimal, trimmed};
use crate::types::SendMessageResponseSpec;
use crate::wire::headers_error;

verus! {

/// A reply is refused where it has a field `error`, whatever that holds, and only there.
pub proof fn law_reported_errors_are_refused(reply: JsonSpec)
    ensures
        checked(reply) is Err == reply.get("error"@) is Some,
        checked(reply) matches Ok(passed) ==> passed == reply,
{
}

/// A message that can be sent has a target on which it can be published, as it is written.
pub proof fn law_target_is_valid(
    payload: Result<Seq<u8>, Seq<char>>,
    topic: Seq<char>,
    headers: Seq<(Seq<char>, Seq<char>)>,
)
    ensures
        outgoing_of(payload, topic, headers) matches Ok(message) ==> publish_subject_error(
            message.target,
        ) is None && trimmed(message.target) == message.target,
{
    law_trim_twice(topic);
}

/// Once a subject is found valid, nothing but a header keeps a message from being published on it,
/// or a request from being made.
pub proof fn law_only_headers_stop_a_valid_subject(
    subject: Seq<char>,
    payload: Seq<u8>,
    headers: Seq<(Seq<char>, Seq<char>)>,
    last_sid: u64,
    token: Seq<char>,
)
    requires
        publish_subject_error(subject) is None,
    ensures
        publish_start(subject, payload, headers) is Ok == headers_error(headers) is None,
        request_start(last_sid, token, subject, payload, headers) is Ok == headers_error(
            headers,
        ) is None,
{
}

/// The state of a stream is asked for on a subject on which the request can be made.
pub proof fn law_stream_is_asked_for_on_a_valid_subject(target: Seq<char>)
    requires
        trimmed(target) == target,
    ensures
        first_step(target) matches Ok(SendSpec::AskStream(request)) ==> request.subject
            == stream_info_subject(target) && publish_subject_error(request.subject) is None,
{
    if resource_name_error(target, "stream"@) is None {
        law_stream_subjects_are_valid(target);
    }
}

/// Where a stream of the name of the target is found, the message is sent on a valid subject that the
/// stream is bound to.
pub proof fn law_message_reaches_its_stream(target: Seq<char>, info: JsonSpec)
    ensures
        next_step(target, Ok(Some(info))) matches Ok(step) ==> (step matches SendSpec::Request(
            subject,
        ) && publish_subject_error(subject) is None && any_matches(bound_subjects(info), subject)),
{
    law_publish_target_is_bound(info, target);
}

/// Where the server says that there is no such stream, the message is published on the target. Where
/// it reports another error, the message is not sent.
pub proof fn law_missing_stream_means_publishing(target: Seq<char>, reply: JsonSpec)
    ensures
        reported_error(reply) matches Some((code, description)) ==> {
            let step = next_step(target, found_stream(target, Ok(reply)));
            if code == 404 {
                step == Ok::<SendSpec, Seq<char>>(SendSpec::Publish)
            } else {
                step is Err
            }
        },
{
}

/// Whatever an acknowledgement holds, the response reports the subject on which the message was sent,
/// and as its place in the stream the integer in the field `seq`, zero where that is none. A reply
/// that reports an error, or could not be read, is no acknowledgement.
pub proof fn law_response_reports_what_was_sent(
    subject: Seq<char>,
    document: Result<JsonSpec, Seq<char>>,
    n: i64,
)
    ensures
        acknowledged(subject, document) matches Ok(response) ==> {
            &&& response.topic == subject
            &&& response.partition == 0
            &&& response.timestamp is None
            &&& document is Ok
            &&& is_number(at(document->Ok_0, "seq"@), n as int) ==> response.offset == n
            &&& no_i64(at(document->Ok_0, "seq"@)) ==> response.offset == 0
        },
        document matches Ok(reply) ==> acknowledged(subject, document) is Ok == at(
            reply,
            "error"@,
        ) is None,
        document matches Err(error) ==> acknowledged(subject, document) == Err::<
            SendMessageResponseSpec,
            Seq<char>,
        >("Invalid JetStream publish acknowledgement: "@ + error),
{
    if let Ok(reply) = document {
        law_fields_are_found(reply, "error"@, "error"@);
        law_fields_are_found(reply, "seq"@, "seq"@);
        law_values_are_read_as_they_are(at(reply, "seq"@), subject, n as int);
    }
}

/// An acknowledgement tells of the place in the stream alone: two that agree on `seq` and report no
/// error give the same response, and a message that two subjects could have taken is reported on the
/// one it was sent on.
pub proof fn law_response_depends_on_the_place_alone(
    a: Seq<char>,
    b: Seq<char>,
    x: JsonSpec,
    y: JsonSpec,
)
    requires
        at(x, "error"@) is None,
        at(y, "error"@) is None,
        at(x, "seq"@) == at(y, "seq"@),
    ensures
        acknowledged(a, Ok(x)) == acknowledged(a, Ok(y)),
        acknowledged(a, Ok(x)) == acknowledged(b, Ok(y)) ==> a == b,
{
    law_fields_are_found(x, "error"@, "error"@);
    law_fields_are_found(y, "error"@, "error"@);
    law_fields_are_found(x, "seq"@, "seq"@);
    law_fields_are_found(y, "seq"@, "seq"@);
}

/// A message that was published without a stream is reported on its target, at the place zero.
pub proof fn law_published_message_is_reported_on_its_target(target: Seq<char>)
    ensures
        published_on(target).topic == target,
        published_on(target).partition == 0,
        published_on(target).offset == 0,
        published_on(target).timestamp is None,
{
}

/// A message is sent with the payload that was decoded and the headers that were given, all of them,
/// to the trimmed topic. A payload that could not be decoded is refused before a topic that is not
/// valid.
pub proof fn law_message_is_sent_as_asked(
    payload: Seq<u8>,
    error: Seq<char>,
    topic: Seq<char>,
    headers: Seq<(Seq<char>, Seq<char>)>,
)
    ensures
        publish_subject_error(topic) is None ==> outgoing_of(Ok(payload), topic, headers) == Ok::<
            OutgoingSpec,
            Seq<char>,
        >(OutgoingSpec { target: trimmed(topic), payload, headers }),
        publish_subject_error(topic) matches Some(reason) ==> outgoing_of(
            Ok(payload),
            topic,
            headers,
        ) == Err::<OutgoingSpec, Seq<char>>(reason),
        outgoing_of(Err(error), topic, headers) == Err::<OutgoingSpec, Seq<char>>(
            "Invalid base64 NATS payload: "@ + error,
        ),
{
    law_validity_disregards_white_space(topic, "stream"@);
}

/// A stream is looked for where its name could be the target, on the subject that ends in that name,
/// with nothing to say. Else the message is published at once.
pub proof fn law_stream_of_the_target_is_looked_for(
    target: Seq<char>,
    blank: JsonSpec,
    bytes: Seq<u8>,
)
    requires
        is_blank(blank),
        json_bytes(blank) == Ok::<Seq<u8>, Seq<char>>(bytes),
    ensures
        resource_name_error(target, "stream"@) is None ==> first_step(target) == Ok::<
            SendSpec,
            Seq<char>,
        >(
            SendSpec::AskStream(
                JsRequestSpec { subject: "$JS.API.STREAM.INFO."@ + target, payload: bytes },
            ),
        ),
        resource_name_error(target, "stream"@) is Some ==> first_step(target) == Ok::<
            SendSpec,
            Seq<char>,
        >(SendSpec::Publish),
{
    law_states_are_asked_for(target, target, blank);
}

/// A reply without a field `error` is the state of the stream, as it is. One that reports the error
/// 404 says that there is no stream; any other error is told, and so is a reply that could not be
/// read.
pub proof fn law_stream_is_found(
    stream: Seq<char>,
    reply: JsonSpec,
    reason: Seq<char>,
    code: u64,
    description: Seq<char>,
)
    ensures
        at(reply, "error"@) is None ==> found_stream(stream, Ok(reply)) == Ok::<
            Option<JsonSpec>,
            Seq<char>,
        >(Some(reply)),
        reported_error(reply) == Some((404u64, description)) ==> found_stream(stream, Ok(reply))
            == Ok::<Option<JsonSpec>, Seq<char>>(None),
        reported_error(reply) == Some((code, description)) && code != 404 ==> found_stream(
            stream,
            Ok(reply),
        ) == Err::<Option<JsonSpec>, Seq<char>>(
            "JetStream error "@ + decimal(code as nat) + ": "@ + description,
        ),
        found_stream(stream, Err(reason)) == Err::<Option<JsonSpec>, Seq<char>>(
            "Invalid JetStream response from "@ + ("$JS.API.STREAM.INFO."@ + stream) + ": "@ + reason,
        ),
{
    law_fields_are_found(reply, "error"@, "error"@);
}

/// A message for a stream that was found is sent on the subject on which the stream is published to,
/// where that is valid. Without a stream it is published on its target.
pub proof fn law_message_goes_where_its_stream_is_published_to(
    target: Seq<char>,
    info: JsonSpec,
    error: Seq<char>,
)
    ensures
        publish_target(info, target) matches Ok(subject) ==> (if publish_subject_error(
            subject,
        ) is None {
            next_step(target, Ok(Some(info))) == Ok::<SendSpec, Seq<char>>(
                SendSpec::Request(subject),
            )
        } else {
            next_step(target, Ok(Some(info))) == Err::<SendSpec, Seq<char>>(
                publish_subject_error(subject)->0,
            )
        }),
        publish_target(info, target) matches Err(reason) ==> next_step(target, Ok(Some(info)))
            == Err::<SendSpec, Seq<char>>(reason),
        next_step(target, Ok(None)) == Ok::<SendSpec, Seq<char>>(SendSpec::Publish),
        next_step(target, Err(error)) == Err::<SendSpec, Seq<char>>(error),
{
}

} // verus!
