//! Laws of what values stand for: nothing is left out, put in or taken for something else.
use vstd::prelude::*;

use crate::codec::read_spec;
use crate::connection::{
    bytes_outcome, is_greeting_outcome, request_start_outcome, Delivery, Heard, HeardSpec,
    NatsConnection, PongSpec, PongStep, RequestSpec, RequestStep,
};
use crate::endpoint::{
    endpoint_outcome, endpoint_views, endpoints_outcome, optional_text, servers_outcome, url_outcome,
    EndpointSpec, NatsEndpoint, UrlParts, UrlSpec,
};
use crate::jetstream::{
    js_request_outcome, page_outcome, JsRequest, JsRequestSpec, Listing, PageSpec, PageStep,
};
use crate::json::{Json, JsonSpec};
use crate::replies::{found_document, found_text};
use crate::send::{
    outgoing_outcome, response_outcome, send_outcome, stream_outcome, Outgoing, OutgoingSpec,
    SendSpec, SendStep,
};
use crate::subject::{fails_with, text_outcome};
use crate::text::{strings, texts};
use crate::types::{
    BrokerNode, ClusterInfo, ConsumerInfo, MqClusterInfo, SendMessageResponse,
    SendMessageResponseSpec, SubscriptionInfo, TopicInfo, TopicStats,
};
use crate::wire::{header_texts, reply_text};

verus! {

/// A list stands for all its members, in order.
pub proof fn law_lists_stand_for_their_members(
    slices: Seq<&str>,
    list: Seq<String>,
    headers: Seq<(String, String)>,
    endpoints: Seq<NatsEndpoint>,
)
    ensures
        texts(slices).len() == slices.len(),
        forall|i: int| 0 <= i < slices.len() ==> #[trigger] texts(slices)[i] == slices[i]@,
        strings(list).len() == list.len(),
        forall|i: int| 0 <= i < list.len() ==> #[trigger] strings(list)[i] == list[i]@,
        header_texts(headers).len() == headers.len(),
        forall|i: int|
            0 <= i < headers.len() ==> #[trigger] header_texts(headers)[i] == (
                headers[i].0@,
                headers[i].1@,
            ),
        endpoint_views(endpoints).len() == endpoints.len(),
        forall|i: int| 0 <= i < endpoints.len() ==> #[trigger] endpoint_views(endpoints)[i] == endpoints[i]@,
{
}

/// What there may be or not stands for what there is.
pub proof fn law_optional_values_stand_for_what_there_is(
    text: String,
    slice: &str,
    document: Json,
)
    ensures
        optional_text(Some(text)) == Some(text@),
        optional_text(None) is None,
        found_text(Some(slice)) == Some(slice@),
        found_text(None) is None,
        reply_text(Some(slice)) == Some(slice@),
        reply_text(None) is None,
        found_document(Some(document)) == Some(document@),
        found_document(None) is None,
{
}

/// What is reported of topics and subscriptions stands for its fields.
pub proof fn law_reports_stand_for_their_fields(
    topic: TopicInfo,
    stats: TopicStats,
    subscription: SubscriptionInfo,
    consumer: ConsumerInfo,
    response: SendMessageResponse,
)
    ensures
        topic@.name == topic.name@,
        topic@.short_name == topic.short_name@,
        topic@.persistent == topic.persistent,
        topic@.message_count == topic.message_count,
        topic@.consumer_count == topic.consumer_count,
        topic@.state == optional_text(topic.state),
        stats@.storage_size == stats.storage_size,
        stats@.backlog_size == stats.backlog_size,
        stats@.msg_in_counter == stats.msg_in_counter,
        stats@.subscription_count == stats.subscription_count,
        stats@.rates_unavailable == stats.rates_unavailable,
        stats@.raw == stats.raw@,
        subscription@.name == subscription.name@,
        subscription@.sub_type == subscription.sub_type@,
        subscription@.msg_backlog == subscription.msg_backlog,
        subscription@.backlog_unavailable == subscription.backlog_unavailable,
        consumer@.consumer_name == consumer.consumer_name@,
        consumer@.available_permits == consumer.available_permits,
        consumer@.client_version == consumer.client_version@,
        response@.topic == response.topic@,
        response@.partition == response.partition,
        response@.offset == response.offset,
        response@.timestamp == response.timestamp,
{
}

/// What is reported of servers stands for its fields.
pub proof fn law_server_reports_stand_for_their_fields(
    probed: MqClusterInfo,
    cluster: ClusterInfo,
    node: BrokerNode,
    endpoint: NatsEndpoint,
    url: UrlParts,
)
    ensures
        probed@.system_kind == probed.system_kind,
        probed@.server_version == optional_text(probed.server_version),
        probed@.resolved_profile == probed.resolved_profile@,
        probed@.version_detection == probed.version_detection@,
        probed@.capabilities == probed.capabilities,
        probed@.extra == probed.extra@,
        cluster@.cluster_id == optional_text(cluster.cluster_id),
        cluster@.broker_count == cluster.broker_count,
        cluster@.brokers.len() == cluster.brokers@.len(),
        forall|i: int|
            0 <= i < cluster.brokers@.len() ==> #[trigger] cluster@.brokers[i] == cluster.brokers@[i]@,
        cluster@.raw == cluster.raw@,
        node@.id == node.id,
        node@.host == node.host@,
        node@.port == node.port,
        node@.broker_name == optional_text(node.broker_name),
        node@.role == optional_text(node.role),
        endpoint@.host == endpoint.host@,
        endpoint@.port == endpoint.port,
        endpoint@.display == endpoint.display@,
        url@.scheme == url.scheme@,
        url@.username == url.username@,
        url@.password == optional_text(url.password),
        url@.host == optional_text(url.host),
        url@.port == url.port,
{
}

/// Requests, listings and messages stand for their fields.
pub proof fn law_requests_stand_for_their_fields(
    request: JsRequest,
    listing: Listing,
    message: Outgoing,
)
    ensures
        request@.subject == request.subject@,
        request@.payload == request.payload@,
        listing@.offset == listing.offset,
        listing@.items.len() == listing.items@.len(),
        forall|i: int|
            0 <= i < listing.items@.len() ==> #[trigger] listing@.items[i] == listing.items@[i]@,
        message@.target == message.target@,
        message@.payload == message.payload@,
        message@.headers == header_texts(message.headers@),
{
}

/// What to do next stands for itself, with what it is to be done with.
pub proof fn law_steps_stand_for_themselves(
    text: String,
    bytes: Vec<u8>,
    delivery: Delivery,
    listing: Listing,
    items: Vec<Json>,
    request: JsRequest,
)
    ensures
        Heard::Ping@ is Ping,
        Heard::Noted@ is Noted,
        Heard::Failed(text)@ == HeardSpec::Failed(text@),
        Heard::Other@ is Other,
        PongStep::Done@ is Done,
        PongStep::Send(bytes)@ == PongSpec::Send(bytes@),
        PongStep::ReadLine@ is ReadLine,
        PongStep::Failed(text)@ == PongSpec::Failed(text@),
        RequestStep::ReadLine@ is ReadLine,
        RequestStep::Send(bytes)@ == RequestSpec::Send(bytes@),
        RequestStep::ReadFrame(delivery)@ == RequestSpec::ReadFrame(delivery),
        RequestStep::Done(Ok(bytes))@ == RequestSpec::Done(Ok(bytes@)),
        RequestStep::Done(Err(text))@ == RequestSpec::Done(Err(text@)),
        PageStep::More(listing)@ == PageSpec::More(listing@),
        PageStep::Done(items)@ == PageSpec::Done(Json::Array(items)@->Array_0),
        SendStep::AskStream(request)@ == SendSpec::AskStream(request@),
        SendStep::Request(text)@ == SendSpec::Request(text@),
        SendStep::Publish@ is Publish,
{
}

/// What came of something stands for what came, or for the text of the error.
pub proof fn law_outcomes_stand_for_what_came(
    text: String,
    bytes: Vec<u8>,
    sid: u64,
    document: Json,
    found: Option<Json>,
    values: Vec<String>,
    endpoint: NatsEndpoint,
    endpoints: Vec<NatsEndpoint>,
    url: UrlParts,
)
    ensures
        read_spec(Ok(document)) == Ok::<JsonSpec, Seq<char>>(document@),
        read_spec(Err(text)) == Err::<JsonSpec, Seq<char>>(text@),
        bytes_outcome(Ok(bytes)) == Ok::<Seq<u8>, Seq<char>>(bytes@),
        bytes_outcome(Err(text)) == Err::<Seq<u8>, Seq<char>>(text@),
        text_outcome(Ok(text)) == Ok::<Seq<char>, Seq<char>>(text@),
        text_outcome(Err(text)) == Err::<Seq<char>, Seq<char>>(text@),
        request_start_outcome(Ok((sid, bytes))) == Ok::<(u64, Seq<u8>), Seq<char>>((sid, bytes@)),
        request_start_outcome(Err(text)) == Err::<(u64, Seq<u8>), Seq<char>>(text@),
        stream_outcome(Ok(found)) == Ok::<Option<JsonSpec>, Seq<char>>(found_document(found)),
        stream_outcome(Err(text)) == Err::<Option<JsonSpec>, Seq<char>>(text@),
        servers_outcome(Ok(values)) == Ok::<Seq<Seq<char>>, Seq<char>>(strings(values@)),
        servers_outcome(Err(text)) == Err::<Seq<Seq<char>>, Seq<char>>(text@),
        endpoint_outcome(Ok(endpoint)) == Ok::<EndpointSpec, Seq<char>>(endpoint@),
        endpoint_outcome(Err(text)) == Err::<EndpointSpec, Seq<char>>(text@),
        endpoints_outcome(Ok(endpoints)) == Ok::<Seq<EndpointSpec>, Seq<char>>(
            endpoint_views(endpoints@),
        ),
        endpoints_outcome(Err(text)) == Err::<Seq<EndpointSpec>, Seq<char>>(text@),
        url_outcome(Ok(url)) == Ok::<UrlSpec, Seq<char>>(url@),
        url_outcome(Err(text)) == Err::<UrlSpec, Seq<char>>(text@),
{
}

/// What came of a request or a step stands for what came, or for the text of the error.
pub proof fn law_step_outcomes_stand_for_what_came(
    text: String,
    error: Seq<char>,
    request: JsRequest,
    page: PageStep,
    message: Outgoing,
    step: SendStep,
    response: SendMessageResponse,
)
    ensures
        js_request_outcome(Ok(request)) == Ok::<JsRequestSpec, Seq<char>>(request@),
        js_request_outcome(Err(text)) == Err::<JsRequestSpec, Seq<char>>(text@),
        page_outcome(Ok(page)) == Ok::<PageSpec, Seq<char>>(page@),
        page_outcome(Err(text)) == Err::<PageSpec, Seq<char>>(text@),
        outgoing_outcome(Ok(message)) == Ok::<OutgoingSpec, Seq<char>>(message@),
        outgoing_outcome(Err(text)) == Err::<OutgoingSpec, Seq<char>>(text@),
        send_outcome(Ok(step)) == Ok::<SendSpec, Seq<char>>(step@),
        send_outcome(Err(text)) == Err::<SendSpec, Seq<char>>(text@),
        response_outcome(Ok(response)) == Ok::<SendMessageResponseSpec, Seq<char>>(response@),
        response_outcome(Err(text)) == Err::<SendMessageResponseSpec, Seq<char>>(text@),
        fails_with(Ok(()), None),
        !fails_with(Ok(()), Some(error)),
        !fails_with(Err(text), None),
        fails_with(Err(text), Some(error)) == (text@ == error),
{
}

/// A connection that comes of a greeting knows what the server said, has used no number yet, and sends
/// the bytes of the command.
pub proof fn law_connection_comes_of_a_greeting(
    connection: NatsConnection,
    command: Vec<u8>,
    error: String,
    outcome: Result<(JsonSpec, Seq<char>), Seq<char>>,
)
    ensures
        is_greeting_outcome(Ok((connection, command)), outcome) ==> (outcome matches Ok((info, text))
            && connection.info@ == info && connection.next_sid == 0 && command@
            == vstd::utf8::encode_utf8(text)),
        is_greeting_outcome(Err(error), outcome) ==> outcome == Err::<
            (JsonSpec, Seq<char>),
            Seq<char>,
        >(error@),
{
}

} // verus!
