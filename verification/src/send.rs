//! Sending a message: to a stream where there is one of that name, else on a subject.
use vstd::prelude::*;
use vstd::utf8::encode_utf8;

use crate::codec::{json_of_slice, parse_slice, read_spec};
use crate::connection::bytes_outcome;
use crate::jetstream::{
    accept_raw_reply, checked, ensure_jetstream_ok, error_text, jetstream_error,
    jetstream_error_text, js_request_of, no_fields, raw_reply, reported_error, stream_info_request,
    JsRequest, JsRequestSpec,
};
use crate::json::{i64_of, Json, JsonSpec};
use crate::replies::found_document;
use crate::subject::{
    publish_subject_error, publish_target, resource_name_error, stream_publish_subject,
    validate_publish_subject, validate_resource_name,
};
use crate::text::{owned, trim, trimmed};
use crate::types::{SendMessageRequest, SendMessageResponse, SendMessageResponseSpec};
use crate::wire::header_texts;

verus! {

/// What the standard base64 engine makes of `text`: bytes, or the text of its error.
pub uninterp spec fn base64_of(text: Seq<u8>) -> Result<Seq<u8>, Seq<char>>;

/// Calls `decode` of `base64::engine::general_purpose::STANDARD`.
///
/// Trusted: the outcome is a function of the bytes alone.
#[verifier::external_body]
fn decode_base64(text: &[u8]) -> (r: Result<Vec<u8>, String>)
    ensures
        bytes_outcome(r) == base64_of(text@),
{
    match base64::Engine::decode(&base64::engine::general_purpose::STANDARD, text) {
        Ok(bytes) => Ok(bytes),
        Err(error) => Err(error.to_string()),
    }
}

/// A message that can be sent.
#[derive(Debug, PartialEq, Eq)]
pub struct Outgoing {
    /// The stream or the subject that was asked for, without white space around it.
    pub target: String,
    /// The payload.
    pub payload: Vec<u8>,
    /// Headers by name, in the order in which they are sent. No name occurs twice
    /// ([`crate::wire::has_distinct_names`]).
    pub headers: Vec<(String, String)>,
}

/// The content of an [`Outgoing`].
pub struct OutgoingSpec {
    /// The stream or the subject that was asked for, without white space around it.
    pub target: Seq<char>,
    /// The payload.
    pub payload: Seq<u8>,
    /// Headers by name, in the order in which they are sent.
    pub headers: Seq<(Seq<char>, Seq<char>)>,
}

impl View for Outgoing {
    type V = OutgoingSpec;

    open spec fn view(&self) -> OutgoingSpec {
        OutgoingSpec {
            target: self.target@,
            payload: self.payload@,
            headers: header_texts(self.headers@),
        }
    }
}

/// The content of a message that can be sent, or of the error.
pub open spec fn outgoing_outcome(r: Result<Outgoing, String>) -> Result<OutgoingSpec, Seq<char>> {
    match r {
        Ok(message) => Ok(message@),
        Err(text) => Err(text@),
    }
}

/// The message to send to `topic`, whose payload was decoded as `payload`.
pub open spec fn outgoing_of(
    payload: Result<Seq<u8>, Seq<char>>,
    topic: Seq<char>,
    headers: Seq<(Seq<char>, Seq<char>)>,
) -> Result<OutgoingSpec, Seq<char>> {
    match payload {
        Err(error) => Err("Invalid base64 NATS payload: "@ + error),
        Ok(payload) => match publish_subject_error(trimmed(topic)) {
            Some(error) => Err(error),
            None => Ok(OutgoingSpec { target: trimmed(topic), payload, headers }),
        },
    }
}

/// The message to send to `topic`, whose payload was decoded as `payload`.
pub fn accept_message(
    payload: Result<Vec<u8>, String>,
    topic: &str,
    headers: Vec<(String, String)>,
) -> (r: Result<Outgoing, String>)
    ensures
        outgoing_outcome(r) == outgoing_of(bytes_outcome(payload), topic@, header_texts(headers@)),
{
    let payload: Vec<u8> = match payload {
        Ok(payload) => payload,
        Err(error) => {
            let mut text: String = owned("Invalid base64 NATS payload: ");
            text.append(error.as_str());
            return Err(text);
        },
    };
    let target = trim(topic);
    match validate_publish_subject(target) {
        Ok(_) => Ok(Outgoing { target: owned(target), payload, headers }),
        Err(error) => Err(error),
    }
}

/// The message that a request asks to send.
pub fn prepare_message(request: SendMessageRequest) -> (r: Result<Outgoing, String>)
    ensures
        outgoing_outcome(r) == outgoing_of(
            base64_of(encode_utf8(request.payload_base64@)),
            request.topic@,
            header_texts(request.headers@),
        ),
{
    let payload = decode_base64(request.payload_base64.as_str().as_bytes());
    accept_message(payload, request.topic.as_str(), request.headers)
}

/// What to do to send a message.
#[derive(Debug, PartialEq, Eq)]
pub enum SendStep {
    /// Ask for the state of the stream, then see [`Outgoing::accept_stream`].
    AskStream(JsRequest),
    /// Make a request on the subject, with the payload and the headers of the message, then see
    /// [`accept_acknowledgement`].
    Request(String),
    /// Publish on the target, with the payload and the headers of the message. Where that is done,
    /// [`Outgoing::published`] is the response.
    Publish,
}

/// What to do to send a message.
pub enum SendSpec {
    /// Ask for the state of the stream.
    AskStream(JsRequestSpec),
    /// Make a request on the subject.
    Request(Seq<char>),
    /// Publish on the target.
    Publish,
}

impl View for SendStep {
    type V = SendSpec;

    open spec fn view(&self) -> SendSpec {
        match self {
            SendStep::AskStream(request) => SendSpec::AskStream(request@),
            SendStep::Request(subject) => SendSpec::Request(subject@),
            SendStep::Publish => SendSpec::Publish,
        }
    }
}

/// What to do, or the text of the error.
pub open spec fn send_outcome(r: Result<SendStep, String>) -> Result<SendSpec, Seq<char>> {
    match r {
        Ok(step) => Ok(step@),
        Err(text) => Err(text@),
    }
}

/// The subject on which the state of a stream is asked for.
pub open spec fn stream_info_subject(stream: Seq<char>) -> Seq<char> {
    "$JS.API.STREAM.INFO."@ + stream
}

/// What to do first to send a message to `target`: no stream has a name that is not valid.
pub open spec fn first_step(target: Seq<char>) -> Result<SendSpec, Seq<char>> {
    if resource_name_error(target, "stream"@) is Some {
        Ok(SendSpec::Publish)
    } else {
        match js_request_of(stream_info_subject(target), no_fields()) {
            Ok(request) => Ok(SendSpec::AskStream(request)),
            Err(error) => Err(error),
        }
    }
}

/// The stream that a reply describes, where it does not say that there is none.
pub open spec fn found_stream(
    stream: Seq<char>,
    document: Result<JsonSpec, Seq<char>>,
) -> Result<Option<JsonSpec>, Seq<char>> {
    match raw_reply(stream_info_subject(stream), document) {
        Err(error) => Err(error),
        Ok(info) => match reported_error(info) {
            None => Ok(Some(info)),
            Some((code, description)) => if code == 404 {
                Ok(None)
            } else {
                Err(error_text(code, description))
            },
        },
    }
}

/// The content of a stream that was looked for, or of the error.
pub open spec fn stream_outcome(r: Result<Option<Json>, String>) -> Result<
    Option<JsonSpec>,
    Seq<char>,
> {
    match r {
        Ok(info) => Ok(found_document(info)),
        Err(text) => Err(text@),
    }
}

/// The stream that a reply describes, where it does not say that there is none: `document` is what
/// the reply to the request for its state was read as.
pub fn accept_stream_info(stream: &str, document: Result<Json, String>) -> (r: Result<
    Option<Json>,
    String,
>)
    ensures
        stream_outcome(r) == found_stream(stream@, read_spec(document)),
{
    let mut subject: String = owned("$JS.API.STREAM.INFO.");
    subject.append(stream);
    match accept_raw_reply(subject.as_str(), document) {
        Err(error) => Err(error),
        Ok(info) => match jetstream_error(&info) {
            None => Ok(Some(info)),
            Some((code, description)) => if code == 404 {
                Ok(None)
            } else {
                Err(jetstream_error_text(code, description.as_str()))
            },
        },
    }
}

/// What to do next to send a message to `target`, once a stream of that name was looked for.
pub open spec fn next_step(
    target: Seq<char>,
    stream: Result<Option<JsonSpec>, Seq<char>>,
) -> Result<SendSpec, Seq<char>> {
    match stream {
        Err(error) => Err(error),
        Ok(None) => Ok(SendSpec::Publish),
        Ok(Some(info)) => match publish_target(info, target) {
            Err(error) => Err(error),
            Ok(subject) => match publish_subject_error(subject) {
                Some(error) => Err(error),
                None => Ok(SendSpec::Request(subject)),
            },
        },
    }
}

/// Where a message went that a stream acknowledged, in a reply that was read as `document`.
pub open spec fn acknowledged(
    subject: Seq<char>,
    document: Result<JsonSpec, Seq<char>>,
) -> Result<SendMessageResponseSpec, Seq<char>> {
    match document {
        Err(error) => Err("Invalid JetStream publish acknowledgement: "@ + error),
        Ok(reply) => match checked(reply) {
            Err(error) => Err(error),
            Ok(ack) => Ok(
                SendMessageResponseSpec {
                    topic: subject,
                    partition: 0,
                    offset: match i64_of(ack.get("seq"@)) {
                        Some(offset) => offset,
                        None => 0,
                    },
                    timestamp: None,
                },
            ),
        },
    }
}

/// Where a message went that was published on `target`.
pub open spec fn published_on(target: Seq<char>) -> SendMessageResponseSpec {
    SendMessageResponseSpec { topic: target, partition: 0, offset: 0, timestamp: None }
}

/// The content of a response, or of the error.
pub open spec fn response_outcome(r: Result<SendMessageResponse, String>) -> Result<
    SendMessageResponseSpec,
    Seq<char>,
> {
    match r {
        Ok(response) => Ok(response@),
        Err(text) => Err(text@),
    }
}

/// Where a message went that was sent on `subject` as a request: `document` is what the reply was
/// read as.
pub fn accept_acknowledgement(subject: String, document: Result<Json, String>) -> (r: Result<
    SendMessageResponse,
    String,
>)
    ensures
        response_outcome(r) == acknowledged(subject@, read_spec(document)),
{
    let reply: Json = match document {
        Ok(reply) => reply,
        Err(error) => {
            let mut text: String = owned("Invalid JetStream publish acknowledgement: ");
            text.append(error.as_str());
            return Err(text);
        },
    };
    let ack: Json = match ensure_jetstream_ok(reply) {
        Ok(ack) => ack,
        Err(error) => return Err(error),
    };
    let offset: i64 = match ack.i64_at("seq") {
        Some(offset) => offset,
        None => 0,
    };
    Ok(SendMessageResponse { topic: subject, partition: 0, offset, timestamp: None })
}

/// Where a message went that was sent on `subject` as a request, to which `response` is the reply.
pub fn read_acknowledgement(subject: String, response: &[u8]) -> (r: Result<
    SendMessageResponse,
    String,
>)
    ensures
        response_outcome(r) == acknowledged(subject@, json_of_slice(response@)),
{
    accept_acknowledgement(subject, parse_slice(response))
}

impl Outgoing {
    /// What to do first to send the message.
    pub fn begin(&self) -> (r: Result<SendStep, String>)
        ensures
            send_outcome(r) == first_step(self.target@),
            r is Ok,
    {
        let target = self.target.as_str();
        match validate_resource_name(target, "stream") {
            Err(_) => return Ok(SendStep::Publish),
            Ok(_) => {},
        }
        match stream_info_request(target) {
            Ok(request) => Ok(SendStep::AskStream(request)),
            Err(error) => Err(error),
        }
    }

    /// What to do next, once a stream of the name of the target was looked for.
    pub fn continue_with(&self, stream: Result<Option<Json>, String>) -> (r: Result<
        SendStep,
        String,
    >)
        ensures
            send_outcome(r) == next_step(self.target@, stream_outcome(stream)),
    {
        match stream {
            Err(error) => Err(error),
            Ok(None) => Ok(SendStep::Publish),
            Ok(Some(info)) => match stream_publish_subject(&info, self.target.as_str()) {
                Err(error) => Err(error),
                Ok(subject) => match validate_publish_subject(subject.as_str()) {
                    Ok(_) => Ok(SendStep::Request(subject)),
                    Err(error) => Err(error),
                },
            },
        }
    }

    /// What to do next, once the reply to the request for the state of the stream was read as
    /// `document`.
    pub fn accept_stream(&self, document: Result<Json, String>) -> (r: Result<SendStep, String>)
        ensures
            send_outcome(r) == next_step(
                self.target@,
                found_stream(self.target@, read_spec(document)),
            ),
    {
        self.continue_with(accept_stream_info(self.target.as_str(), document))
    }

    /// What to do next, once `response` came to the request for the state of the stream.
    pub fn read_stream(&self, response: &[u8]) -> (r: Result<SendStep, String>)
        ensures
            send_outcome(r) == next_step(
                self.target@,
                found_stream(self.target@, json_of_slice(response@)),
            ),
    {
        self.accept_stream(parse_slice(response))
    }

    /// Where the message went, once it was published on its target.
    pub fn published(&self) -> (r: SendMessageResponse)
        ensures
            r@ == published_on(self.target@),
    {
        SendMessageResponse {
            topic: owned(self.target.as_str()),
            partition: 0,
            offset: 0,
            timestamp: None,
        }
    }
}

} // verus!
