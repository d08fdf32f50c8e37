//! Requests to the JetStream API, and what its replies say.
use vstd::prelude::*;

use crate::codec::{
    array_value, empty_object, json_bytes, json_of_slice, number_value, parse_slice, read_spec,
    set_field, text_value, value_bytes, value_contents,
};
use crate::connection::bytes_outcome;
use crate::json::{array_of, clone_items, items_spec, text_of, u64_of, Json, JsonSpec};
use crate::subject::{fails_with, resource_name_error, validate_resource_name};
use crate::text::{decimal, decimal_text, owned, trim, trimmed};
use crate::types::ResetPosition;

verus! {

/// A request to the JetStream API.
#[derive(Debug, PartialEq, Eq)]
pub struct JsRequest {
    /// The subject that it is published on.
    pub subject: String,
    /// Its payload, a JSON document.
    pub payload: Vec<u8>,
}

/// The content of a [`JsRequest`].
pub struct JsRequestSpec {
    /// The subject that it is published on.
    pub subject: Seq<char>,
    /// Its payload, a JSON document.
    pub payload: Seq<u8>,
}

impl View for JsRequest {
    type V = JsRequestSpec;

    open spec fn view(&self) -> JsRequestSpec {
        JsRequestSpec { subject: self.subject@, payload: self.payload@ }
    }
}

/// The content of a request that was made, or of the error.
pub open spec fn js_request_outcome(r: Result<JsRequest, String>) -> Result<
    JsRequestSpec,
    Seq<char>,
> {
    match r {
        Ok(request) => Ok(request@),
        Err(text) => Err(text@),
    }
}

/// The request on `subject` whose payload is `bytes`.
pub open spec fn js_request_of_bytes(
    subject: Seq<char>,
    bytes: Result<Seq<u8>, Seq<char>>,
) -> Result<JsRequestSpec, Seq<char>> {
    match bytes {
        Ok(payload) => Ok(JsRequestSpec { subject, payload }),
        Err(error) => Err("Failed to encode JetStream request: "@ + error),
    }
}

/// The request on `subject` whose payload is `document`.
pub open spec fn js_request_of(subject: Seq<char>, document: JsonSpec) -> Result<
    JsRequestSpec,
    Seq<char>,
> {
    js_request_of_bytes(subject, json_bytes(document))
}

/// A document without fields.
pub open spec fn no_fields() -> JsonSpec {
    JsonSpec::Object(Map::empty())
}

/// The request on `subject` whose payload was encoded as `bytes`.
pub fn js_request_from_bytes(subject: String, bytes: Result<Vec<u8>, String>) -> (r: Result<
    JsRequest,
    String,
>)
    ensures
        js_request_outcome(r) == js_request_of_bytes(subject@, bytes_outcome(bytes)),
{
    match bytes {
        Ok(payload) => Ok(JsRequest { subject, payload }),
        Err(error) => {
            let mut text: String = owned("Failed to encode JetStream request: ");
            text.append(error.as_str());
            Err(text)
        },
    }
}

/// The request on `subject` whose payload is `document`.
fn js_request(subject: String, document: serde_json::Value) -> (r: Result<JsRequest, String>)
    ensures
        js_request_outcome(r) == js_request_of(subject@, value_contents(document)),
        r is Ok,
{
    js_request_from_bytes(subject, value_bytes(&document))
}

/// The number and the description of the error that a reply reports.
pub open spec fn reported_error(reply: JsonSpec) -> Option<(u64, Seq<char>)> {
    match reply.get("error"@) {
        None => None,
        Some(error) => Some(
            (
                match u64_of(error.get("code"@)) {
                    Some(code) => code,
                    None => 500,
                },
                match text_of(error.get("description"@)) {
                    Some(description) => description,
                    None => "unknown JetStream error"@,
                },
            ),
        ),
    }
}

/// The text of an error that a reply reports.
pub open spec fn error_text(code: u64, description: Seq<char>) -> Seq<char> {
    "JetStream error "@ + decimal(code as nat) + ": "@ + description
}

/// A reply, where it reports no error.
pub open spec fn checked(reply: JsonSpec) -> Result<JsonSpec, Seq<char>> {
    match reported_error(reply) {
        Some((code, description)) => Err(error_text(code, description)),
        None => Ok(reply),
    }
}

/// The number and the description of the error that a reply reports.
pub fn jetstream_error(value: &Json) -> (r: Option<(u64, String)>)
    ensures
        match r {
            Some((code, description)) => reported_error(value@) == Some((code, description@)),
            None => reported_error(value@) is None,
        },
{
    match value.get("error") {
        None => None,
        Some(error) => {
            let code: u64 = match error.u64_at("code") {
                Some(code) => code,
                None => 500,
            };
            let description: String = match error.text_at("description") {
                Some(description) => owned(description),
                None => owned("unknown JetStream error"),
            };
            Some((code, description))
        },
    }
}

/// The text of an error that a reply reports.
pub fn jetstream_error_text(code: u64, description: &str) -> (r: String)
    ensures
        r@ == error_text(code, description@),
{
    let mut text: String = owned("JetStream error ");
    text.append(decimal_text(code).as_str());
    text.append(": ");
    text.append(description);
    text
}

/// Passes a reply on, where it reports no error.
pub fn ensure_jetstream_ok(value: Json) -> (r: Result<Json, String>)
    ensures
        read_spec(r) == checked(value@),
{
    match jetstream_error(&value) {
        Some((code, description)) => Err(jetstream_error_text(code, description.as_str())),
        None => Ok(value),
    }
}

/// The reply to a request on `subject`, where it could be read as `document`.
pub open spec fn raw_reply(
    subject: Seq<char>,
    document: Result<JsonSpec, Seq<char>>,
) -> Result<JsonSpec, Seq<char>> {
    match document {
        Ok(reply) => Ok(reply),
        Err(error) => Err("Invalid JetStream response from "@ + subject + ": "@ + error),
    }
}

/// The reply to a request on `subject`, where it could be read as `document` and reports no error.
pub open spec fn checked_reply(
    subject: Seq<char>,
    document: Result<JsonSpec, Seq<char>>,
) -> Result<JsonSpec, Seq<char>> {
    match raw_reply(subject, document) {
        Ok(reply) => checked(reply),
        Err(error) => Err(error),
    }
}

/// The reply to a request on `subject`, which was read as `document`.
pub fn accept_raw_reply(subject: &str, document: Result<Json, String>) -> (r: Result<Json, String>)
    ensures
        read_spec(r) == raw_reply(subject@, read_spec(document)),
{
    match document {
        Ok(reply) => Ok(reply),
        Err(error) => {
            let mut text: String = owned("Invalid JetStream response from ");
            text.append(subject);
            text.append(": ");
            text.append(error.as_str());
            Err(text)
        },
    }
}

/// The reply to a request on `subject`, which was read as `document`, where it reports no error.
pub fn accept_reply(subject: &str, document: Result<Json, String>) -> (r: Result<Json, String>)
    ensures
        read_spec(r) == checked_reply(subject@, read_spec(document)),
{
    match accept_raw_reply(subject, document) {
        Ok(reply) => ensure_jetstream_ok(reply),
        Err(error) => Err(error),
    }
}

/// Reads the reply to a request on `subject`, whatever it reports.
pub fn read_raw_reply(subject: &str, response: &[u8]) -> (r: Result<Json, String>)
    ensures
        read_spec(r) == raw_reply(subject@, json_of_slice(response@)),
{
    accept_raw_reply(subject, parse_slice(response))
}

/// Reads the reply to a request on `subject`, where it reports no error.
pub fn read_reply(subject: &str, response: &[u8]) -> (r: Result<Json, String>)
    ensures
        read_spec(r) == checked_reply(subject@, json_of_slice(response@)),
{
    accept_reply(subject, parse_slice(response))
}

/// The request for the state of the JetStream account.
pub open spec fn account_info_start() -> Result<JsRequestSpec, Seq<char>> {
    js_request_of("$JS.API.INFO"@, no_fields())
}

/// The request for the state of the JetStream account.
pub fn account_info_request() -> (r: Result<JsRequest, String>)
    ensures
        js_request_outcome(r) == account_info_start(),
        r is Ok,
{
    js_request(owned("$JS.API.INFO"), empty_object())
}

/// The request for the state of a stream.
pub open spec fn stream_info_start(stream: Seq<char>) -> Result<JsRequestSpec, Seq<char>> {
    match resource_name_error(stream, "stream"@) {
        Some(error) => Err(error),
        None => js_request_of("$JS.API.STREAM.INFO."@ + stream, no_fields()),
    }
}

/// The request for the state of a stream.
pub fn stream_info_request(stream: &str) -> (r: Result<JsRequest, String>)
    ensures
        js_request_outcome(r) == stream_info_start(stream@),
        r is Ok == resource_name_error(stream@, "stream"@) is None,
{
    match validate_resource_name(stream, "stream") {
        Ok(_) => {},
        Err(error) => return Err(error),
    }
    let mut subject: String = owned("$JS.API.STREAM.INFO.");
    subject.append(stream);
    js_request(subject, empty_object())
}

/// What is wrong with the names of a stream and one of its consumers.
pub open spec fn consumer_name_error(stream: Seq<char>, consumer: Seq<char>) -> Option<Seq<char>> {
    match resource_name_error(stream, "stream"@) {
        Some(error) => Some(error),
        None => resource_name_error(consumer, "consumer"@),
    }
}

/// Checks the names of a stream and one of its consumers.
fn validate_consumer_names(stream: &str, consumer: &str) -> (r: Result<(), String>)
    ensures
        fails_with(r, consumer_name_error(stream@, consumer@)),
{
    match validate_resource_name(stream, "stream") {
        Ok(_) => validate_resource_name(consumer, "consumer"),
        Err(error) => Err(error),
    }
}

/// The subject of the operation `prefix` on a consumer.
fn consumer_subject(prefix: &str, stream: &str, consumer: &str) -> (r: String)
    ensures
        r@ == prefix@ + stream@ + "."@ + consumer@,
{
    let mut subject: String = owned(prefix);
    subject.append(stream);
    subject.append(".");
    subject.append(consumer);
    subject
}

/// The request for the state of a consumer.
pub open spec fn consumer_info_start(stream: Seq<char>, consumer: Seq<char>) -> Result<
    JsRequestSpec,
    Seq<char>,
> {
    match consumer_name_error(stream, consumer) {
        Some(error) => Err(error),
        None => js_request_of(
            "$JS.API.CONSUMER.INFO."@ + stream + "."@ + consumer,
            no_fields(),
        ),
    }
}

/// The request for the state of a consumer.
pub fn consumer_info_request(stream: &str, consumer: &str) -> (r: Result<JsRequest, String>)
    ensures
        js_request_outcome(r) == consumer_info_start(stream@, consumer@),
        r is Ok == consumer_name_error(stream@, consumer@) is None,
{
    match validate_consumer_names(stream, consumer) {
        Ok(_) => js_request(
            consumer_subject("$JS.API.CONSUMER.INFO.", stream, consumer),
            empty_object(),
        ),
        Err(error) => Err(error),
    }
}

/// The description of a new stream that is bound to the subject of its own name.
pub open spec fn stream_description(name: Seq<char>) -> JsonSpec {
    JsonSpec::Object(
        Map::empty().insert("name"@, JsonSpec::Text(name)).insert(
            "subjects"@,
            JsonSpec::Array(seq![JsonSpec::Text(name)]),
        ),
    )
}

/// The request that creates a stream.
pub open spec fn create_topic_start(topic: Seq<char>, partitions: Option<u32>) -> Result<
    JsRequestSpec,
    Seq<char>,
> {
    let name = trimmed(topic);
    if partitions matches Some(n) && n > 1 {
        Err("NATS JetStream streams are not partitioned"@)
    } else {
        match resource_name_error(name, "stream"@) {
            Some(error) => Err(error),
            None => js_request_of("$JS.API.STREAM.CREATE."@ + name, stream_description(name)),
        }
    }
}

/// The request that creates the stream `topic`, bound to the subject of its own name.
pub fn create_topic_request(topic: &str, partitions: Option<u32>) -> (r: Result<JsRequest, String>)
    ensures
        js_request_outcome(r) == create_topic_start(topic@, partitions),
        r is Ok == (!(partitions matches Some(n) && n > 1) && resource_name_error(
            trimmed(topic@),
            "stream"@,
        ) is None),
{
    if let Some(n) = partitions {
        if n > 1 {
            return Err(owned("NATS JetStream streams are not partitioned"));
        }
    }
    let name = trim(topic);
    match validate_resource_name(name, "stream") {
        Ok(_) => {},
        Err(error) => return Err(error),
    }
    let mut subject: String = owned("$JS.API.STREAM.CREATE.");
    subject.append(name);
    let mut subjects: Vec<serde_json::Value> = Vec::new();
    subjects.push(text_value(name));
    let ghost listed = Seq::new(subjects@.len(), |i: int| value_contents(subjects@[i]));
    assert(listed =~= seq![JsonSpec::Text(name@)]);
    let mut description: serde_json::Value = empty_object();
    set_field(&mut description, "name", text_value(name));
    set_field(&mut description, "subjects", array_value(subjects));
    js_request(subject, description)
}

/// The request that deletes a stream.
pub open spec fn delete_topic_start(topic: Seq<char>) -> Result<JsRequestSpec, Seq<char>> {
    let name = trimmed(topic);
    match resource_name_error(name, "stream"@) {
        Some(error) => Err(error),
        None => js_request_of("$JS.API.STREAM.DELETE."@ + name, no_fields()),
    }
}

/// The request that deletes the stream `topic`.
pub fn delete_topic_request(topic: &str) -> (r: Result<JsRequest, String>)
    ensures
        js_request_outcome(r) == delete_topic_start(topic@),
        r is Ok == resource_name_error(trimmed(topic@), "stream"@) is None,
{
    let name = trim(topic);
    match validate_resource_name(name, "stream") {
        Ok(_) => {},
        Err(error) => return Err(error),
    }
    let mut subject: String = owned("$JS.API.STREAM.DELETE.");
    subject.append(name);
    js_request(subject, empty_object())
}

/// From which message on a consumer gets messages.
pub open spec fn deliver_policy(position: ResetPosition) -> Option<Seq<char>> {
    match position {
        ResetPosition::Earliest => Some("all"@),
        ResetPosition::Latest => Some("new"@),
        ResetPosition::Other(_) => None,
    }
}

/// The description of a new consumer.
pub open spec fn consumer_description(
    stream: Seq<char>,
    consumer: Seq<char>,
    policy: Seq<char>,
) -> JsonSpec {
    JsonSpec::Object(
        Map::empty().insert("stream_name"@, JsonSpec::Text(stream)).insert(
            "config"@,
            JsonSpec::Object(
                Map::empty().insert("name"@, JsonSpec::Text(consumer)).insert(
                    "durable_name"@,
                    JsonSpec::Text(consumer),
                ).insert("deliver_policy"@, JsonSpec::Text(policy)).insert(
                    "ack_policy"@,
                    JsonSpec::Text("explicit"@),
                ).insert("replay_policy"@, JsonSpec::Text("instant"@)),
            ),
        ),
    )
}

/// The request that creates a consumer.
pub open spec fn create_subscription_start(
    topic: Seq<char>,
    subscription: Seq<char>,
    position: ResetPosition,
) -> Result<JsRequestSpec, Seq<char>> {
    let stream = trimmed(topic);
    match consumer_name_error(stream, subscription) {
        Some(error) => Err(error),
        None => match deliver_policy(position) {
            None => Err(
                "NATS consumer creation currently supports earliest/latest start positions"@,
            ),
            Some(policy) => js_request_of(
                "$JS.API.CONSUMER.CREATE."@ + stream + "."@ + subscription,
                consumer_description(stream, subscription, policy),
            ),
        },
    }
}

/// The request that creates the consumer `subscription` of the stream `topic`.
pub fn create_subscription_request(
    topic: &str,
    subscription: &str,
    position: &ResetPosition,
) -> (r: Result<JsRequest, String>)
    ensures
        js_request_outcome(r) == create_subscription_start(topic@, subscription@, *position),
        r is Ok == (consumer_name_error(trimmed(topic@), subscription@) is None && deliver_policy(
            *position,
        ) is Some),
{
    let stream = trim(topic);
    match validate_consumer_names(stream, subscription) {
        Ok(_) => {},
        Err(error) => return Err(error),
    }
    let policy: &str = match position {
        ResetPosition::Earliest => "all",
        ResetPosition::Latest => "new",
        ResetPosition::Other(_) => {
            return Err(
                owned("NATS consumer creation currently supports earliest/latest start positions"),
            );
        },
    };
    let mut config: serde_json::Value = empty_object();
    set_field(&mut config, "name", text_value(subscription));
    set_field(&mut config, "durable_name", text_value(subscription));
    set_field(&mut config, "deliver_policy", text_value(policy));
    set_field(&mut config, "ack_policy", text_value("explicit"));
    set_field(&mut config, "replay_policy", text_value("instant"));
    let mut description: serde_json::Value = empty_object();
    set_field(&mut description, "stream_name", text_value(stream));
    set_field(&mut description, "config", config);
    js_request(consumer_subject("$JS.API.CONSUMER.CREATE.", stream, subscription), description)
}

/// The description of a consumer to delete.
pub open spec fn consumer_reference(stream: Seq<char>, consumer: Seq<char>) -> JsonSpec {
    JsonSpec::Object(
        Map::empty().insert("stream_name"@, JsonSpec::Text(stream)).insert(
            "name"@,
            JsonSpec::Text(consumer),
        ),
    )
}

/// The request that deletes a consumer.
pub open spec fn delete_subscription_start(topic: Seq<char>, subscription: Seq<char>) -> Result<
    JsRequestSpec,
    Seq<char>,
> {
    let stream = trimmed(topic);
    match consumer_name_error(stream, subscription) {
        Some(error) => Err(error),
        None => js_request_of(
            "$JS.API.CONSUMER.DELETE."@ + stream + "."@ + subscription,
            consumer_reference(stream, subscription),
        ),
    }
}

/// The request that deletes the consumer `subscription` of the stream `topic`.
pub fn delete_subscription_request(topic: &str, subscription: &str) -> (r: Result<
    JsRequest,
    String,
>)
    ensures
        js_request_outcome(r) == delete_subscription_start(topic@, subscription@),
        r is Ok == consumer_name_error(trimmed(topic@), subscription@) is None,
{
    let stream = trim(topic);
    match validate_consumer_names(stream, subscription) {
        Ok(_) => {},
        Err(error) => return Err(error),
    }
    let mut reference: serde_json::Value = empty_object();
    set_field(&mut reference, "stream_name", text_value(stream));
    set_field(&mut reference, "name", text_value(subscription));
    js_request(consumer_subject("$JS.API.CONSUMER.DELETE.", stream, subscription), reference)
}

/// What a listing is of.
#[derive(Debug, PartialEq, Eq)]
pub enum ListingKind {
    /// The streams of the account.
    Streams,
    /// The consumers of a stream.
    Consumers {
        /// The stream.
        stream: String,
    },
}

impl ListingKind {
    /// The subject of the requests for its pages.
    pub open spec fn subject(self) -> Seq<char> {
        match self {
            ListingKind::Streams => "$JS.API.STREAM.LIST"@,
            ListingKind::Consumers { stream } => "$JS.API.CONSUMER.LIST."@ + stream@,
        }
    }

    /// The field of a page that holds its items.
    pub open spec fn field(self) -> Seq<char> {
        match self {
            ListingKind::Streams => "streams"@,
            ListingKind::Consumers { .. } => "consumers"@,
        }
    }

    /// The subject of the requests for its pages.
    pub fn page_subject(&self) -> (r: String)
        ensures
            r@ == self.subject(),
    {
        match self {
            ListingKind::Streams => owned("$JS.API.STREAM.LIST"),
            ListingKind::Consumers { stream } => {
                let mut subject: String = owned("$JS.API.CONSUMER.LIST.");
                subject.append(stream.as_str());
                subject
            },
        }
    }

    /// The field of a page that holds its items.
    fn items_field(&self) -> (r: &'static str)
        ensures
            r@ == self.field(),
    {
        match self {
            ListingKind::Streams => "streams",
            ListingKind::Consumers { .. } => "consumers",
        }
    }
}

/// A listing that is fetched page by page.
#[derive(Debug, PartialEq, Eq)]
pub struct Listing {
    /// What is listed.
    pub kind: ListingKind,
    /// At which item the next page starts.
    pub offset: u64,
    /// The items of the pages that came.
    pub items: Vec<Json>,
}

/// The content of a [`Listing`].
pub struct ListingSpec {
    /// At which item the next page starts.
    pub offset: u64,
    /// The items of the pages that came.
    pub items: Seq<JsonSpec>,
}

impl View for Listing {
    type V = ListingSpec;

    open spec fn view(&self) -> ListingSpec {
        ListingSpec { offset: self.offset, items: items_spec(self.items@) }
    }
}

/// What comes after a page of a listing.
#[derive(Debug, PartialEq, Eq)]
pub enum PageStep {
    /// Another page is to be fetched.
    More(Listing),
    /// The listing is complete.
    Done(Vec<Json>),
}

/// What comes after a page of a listing.
pub enum PageSpec {
    /// Another page is to be fetched.
    More(ListingSpec),
    /// The listing is complete.
    Done(Seq<JsonSpec>),
}

impl View for PageStep {
    type V = PageSpec;

    open spec fn view(&self) -> PageSpec {
        match self {
            PageStep::More(listing) => PageSpec::More(listing@),
            PageStep::Done(items) => PageSpec::Done(items_spec(items@)),
        }
    }
}

/// The document that asks for the page that starts at `offset`.
pub open spec fn page_document(offset: u64) -> JsonSpec {
    JsonSpec::Object(Map::empty().insert("offset"@, JsonSpec::Unsigned(offset)))
}

/// The items of a page.
pub open spec fn page_items(page: JsonSpec, field: Seq<char>) -> Seq<JsonSpec> {
    match array_of(page.get(field)) {
        Some(items) => items,
        None => Seq::empty(),
    }
}

/// How many items there are in all, as a page says, else as many as the page has.
pub open spec fn page_total(page: JsonSpec, field: Seq<char>) -> nat {
    match u64_of(page.get("total"@)) {
        Some(total) => total as nat,
        None => page_items(page, field).len(),
    }
}

/// `a + b`, or the largest `u64` where that is smaller.
pub open spec fn saturating_offset(a: u64, b: nat) -> u64 {
    if a + b <= u64::MAX {
        (a + b) as u64
    } else {
        u64::MAX
    }
}

/// What comes after `page`. The listing is complete once a page is empty, or as many items came as
/// there are.
pub open spec fn page_step(listing: ListingSpec, field: Seq<char>, page: JsonSpec) -> PageSpec {
    let items = page_items(page, field);
    let all = listing.items + items;
    if items.len() == 0 || all.len() >= page_total(page, field) {
        PageSpec::Done(all)
    } else {
        PageSpec::More(
            ListingSpec { offset: saturating_offset(listing.offset, items.len()), items: all },
        )
    }
}

/// What a reply to the request for a page leads to.
pub open spec fn page_reply_step(
    listing: ListingSpec,
    kind: ListingKind,
    document: Result<JsonSpec, Seq<char>>,
) -> Result<PageSpec, Seq<char>> {
    match checked_reply(kind.subject(), document) {
        Ok(page) => Ok(page_step(listing, kind.field(), page)),
        Err(error) => Err(error),
    }
}

/// The content of what a page led to, or of the error.
pub open spec fn page_outcome(r: Result<PageStep, String>) -> Result<PageSpec, Seq<char>> {
    match r {
        Ok(step) => Ok(step@),
        Err(text) => Err(text@),
    }
}

impl Listing {
    /// A listing before its first page.
    fn start(kind: ListingKind) -> (r: Listing)
        ensures
            r.kind == kind,
            r@ == (ListingSpec { offset: 0, items: Seq::empty() }),
    {
        let items: Vec<Json> = Vec::new();
        assert(items_spec(items@) =~= Seq::empty());
        Listing { kind, offset: 0, items }
    }

    /// The listing of all streams, before its first page.
    pub fn streams() -> (r: Listing)
        ensures
            r.kind is Streams,
            r@ == (ListingSpec { offset: 0, items: Seq::empty() }),
    {
        Listing::start(ListingKind::Streams)
    }

    /// The listing of the consumers of a stream, before its first page.
    pub fn consumers(stream: &str) -> (r: Result<Listing, String>)
        ensures
            match r {
                Ok(listing) => resource_name_error(stream@, "stream"@) is None
                    && (listing.kind matches ListingKind::Consumers { stream: name } && name@
                    == stream@) && listing@ == (ListingSpec { offset: 0, items: Seq::empty() }),
                Err(text) => resource_name_error(stream@, "stream"@) == Some(text@),
            },
    {
        match validate_resource_name(stream, "stream") {
            Ok(_) => Ok(Listing::start(ListingKind::Consumers { stream: owned(stream) })),
            Err(error) => Err(error),
        }
    }

    /// The request for the next page.
    pub fn page_request(&self) -> (r: Result<JsRequest, String>)
        ensures
            js_request_outcome(r) == js_request_of(
                self.kind.subject(),
                page_document(self.offset),
            ),
            r is Ok,
    {
        let mut document: serde_json::Value = empty_object();
        set_field(&mut document, "offset", number_value(self.offset));
        js_request(self.kind.page_subject(), document)
    }

    /// Takes the next page.
    pub fn take_page(self, page: &Json) -> (r: PageStep)
        ensures
            r@ == page_step(self@, self.kind.field(), page@),
            r matches PageStep::More(listing) ==> listing.kind == self.kind,
    {
        let ghost field = self.kind.field();
        let mut items: Vec<Json> = match page.get(self.kind.items_field()) {
            Some(value) => match value.as_array() {
                Some(items) => clone_items(items),
                None => Vec::new(),
            },
            None => Vec::new(),
        };
        let ghost page_contents = items_spec(items@);
        assert(page_contents =~= page_items(page@, field));
        let page_len: u64 = items.len() as u64;
        let total: u64 = match page.u64_at("total") {
            Some(total) => total,
            None => page_len,
        };
        let Listing { kind, offset, items: mut all } = self;
        let ghost old_items = all@;
        let ghost new_items = items@;
        all.append(&mut items);
        assert(items_spec(all@) =~= items_spec(old_items) + items_spec(new_items));
        if page_len == 0 || all.len() as u64 >= total {
            PageStep::Done(all)
        } else {
            PageStep::More(Listing { kind, offset: offset.saturating_add(page_len), items: all })
        }
    }

    /// Takes the next page, which was read as `document`.
    pub fn accept_page(self, document: Result<Json, String>) -> (r: Result<PageStep, String>)
        ensures
            page_outcome(r) == page_reply_step(self@, self.kind, read_spec(document)),
            r matches Ok(PageStep::More(listing)) ==> listing.kind == self.kind,
    {
        match accept_reply(self.kind.page_subject().as_str(), document) {
            Ok(page) => Ok(self.take_page(&page)),
            Err(error) => Err(error),
        }
    }

    /// Takes the reply to the request for the next page.
    pub fn read_page(self, response: &[u8]) -> (r: Result<PageStep, String>)
        ensures
            page_outcome(r) == page_reply_step(self@, self.kind, json_of_slice(response@)),
            r matches Ok(PageStep::More(listing)) ==> listing.kind == self.kind,
    {
        self.accept_page(parse_slice(response))
    }
}

} // verus!
