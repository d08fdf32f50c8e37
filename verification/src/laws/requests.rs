//! Laws of the requests to the JetStream API: on which subject each is made, and what it says.
use vstd::prelude::*;

use crate::codec::json_bytes;
use crate::jetstream::{
    account_info_start, checked, checked_reply, consumer_description, consumer_info_start,
    consumer_name_error, consumer_reference, create_subscription_start, create_topic_start,
    delete_subscription_start, delete_topic_start, no_fields, raw_reply, reported_error,
    stream_description, stream_info_start, JsRequestSpec,
};
use crate::json::JsonSpec;
use crate::laws::documents::{
    at, is_text, law_fields_are_found, law_values_are_read_as_they_are, no_text,
};
use crate::subject::resource_name_error;
use crate::text::{decimal, trimmed};
use crate::types::ResetPosition;

verus! {

/// Whether `r` is the request on `subject` whose payload is `document`, where that can be written.
pub open spec fn asks(
    r: Result<JsRequestSpec, Seq<char>>,
    subject: Seq<char>,
    document: JsonSpec,
) -> bool {
    match json_bytes(document) {
        Ok(bytes) => r == Ok::<JsRequestSpec, Seq<char>>(JsRequestSpec { subject, payload: bytes }),
        Err(error) => r == Err::<JsRequestSpec, Seq<char>>(
            "Failed to encode JetStream request: "@ + error,
        ),
    }
}

/// Whether `document` is an object without fields.
pub open spec fn is_blank(document: JsonSpec) -> bool {
    document is Object && forall|key: Seq<char>| #[trigger] at(document, key) is None
}

/// Two objects that hold the same are the same.
proof fn lemma_same_object(a: JsonSpec, b: JsonSpec)
    requires
        a is Object,
        b is Object,
        forall|key: Seq<char>| #[trigger] at(a, key) == at(b, key),
    ensures
        a == b,
{
    let x = a->Object_0;
    let y = b->Object_0;
    assert forall|key: Seq<char>| #[trigger] x.dom().contains(key) implies y.dom().contains(key)
        && x[key] == y[key] by {
        assert(at(a, key) == at(b, key));
    }
    assert forall|key: Seq<char>| #[trigger] y.dom().contains(key) implies x.dom().contains(key) by {
        assert(at(a, key) == at(b, key));
    }
    assert(x.dom() =~= y.dom());
    assert(x =~= y);
}

/// A document without fields is the one that is asked with.
proof fn lemma_blank(document: JsonSpec)
    requires
        is_blank(document),
    ensures
        document == no_fields(),
{
    assert forall|key: Seq<char>| #[trigger] at(document, key) == at(no_fields(), key) by {
        assert(at(document, key) is None);
    }
    lemma_same_object(document, no_fields());
}

/// The state of the account is asked for on `$JS.API.INFO`, that of a stream and that of a consumer
/// on a subject that ends in their names, with nothing to say. Names that are not valid are refused,
/// that of the stream first.
pub proof fn law_states_are_asked_for(stream: Seq<char>, consumer: Seq<char>, blank: JsonSpec)
    requires
        is_blank(blank),
    ensures
        asks(account_info_start(), "$JS.API.INFO"@, blank),
        resource_name_error(stream, "stream"@) is None ==> asks(
            stream_info_start(stream),
            "$JS.API.STREAM.INFO."@ + stream,
            blank,
        ),
        resource_name_error(stream, "stream"@) matches Some(error) ==> stream_info_start(stream)
            == Err::<JsRequestSpec, Seq<char>>(error) && consumer_info_start(stream, consumer)
            == Err::<JsRequestSpec, Seq<char>>(error),
        resource_name_error(stream, "stream"@) is None && resource_name_error(
            consumer,
            "consumer"@,
        ) is None ==> asks(
            consumer_info_start(stream, consumer),
            "$JS.API.CONSUMER.INFO."@ + stream + "."@ + consumer,
            blank,
        ),
        resource_name_error(stream, "stream"@) is None ==> (resource_name_error(
            consumer,
            "consumer"@,
        ) matches Some(error) ==> consumer_info_start(stream, consumer) == Err::<
            JsRequestSpec,
            Seq<char>,
        >(error)),
{
    lemma_blank(blank);
}

/// A stream is created under its trimmed name, bound to the one subject of that name. More than one
/// partition is refused before anything else, then a name that is not valid.
pub proof fn law_stream_is_created(
    topic: Seq<char>,
    partitions: Option<u32>,
    description: JsonSpec,
)
    requires
        description is Object,
        at(description, "name"@) == Some(JsonSpec::Text(trimmed(topic))),
        at(description, "subjects"@) == Some(
            JsonSpec::Array(seq![JsonSpec::Text(trimmed(topic))]),
        ),
        forall|key: Seq<char>|
            key != "name"@ && key != "subjects"@ ==> #[trigger] at(description, key) is None,
    ensures
        (partitions is None || partitions->0 <= 1) && resource_name_error(
            trimmed(topic),
            "stream"@,
        ) is None ==> asks(
            create_topic_start(topic, partitions),
            "$JS.API.STREAM.CREATE."@ + trimmed(topic),
            description,
        ),
        partitions is Some && partitions->0 > 1 ==> create_topic_start(topic, partitions) == Err::<
            JsRequestSpec,
            Seq<char>,
        >("NATS JetStream streams are not partitioned"@),
        (partitions is None || partitions->0 <= 1) ==> (resource_name_error(
            trimmed(topic),
            "stream"@,
        ) matches Some(error) ==> create_topic_start(topic, partitions) == Err::<
            JsRequestSpec,
            Seq<char>,
        >(error)),
{
    reveal_strlit("name");
    reveal_strlit("subjects");
    assert("name"@.len() == 4 && "subjects"@.len() == 8);
    let expected = stream_description(trimmed(topic));
    assert forall|key: Seq<char>| #[trigger] at(description, key) == at(expected, key) by {
        if key != "name"@ && key != "subjects"@ {
            assert(at(description, key) is None);
        }
    }
    lemma_same_object(description, expected);
}

/// A stream is deleted by its trimmed name.
pub proof fn law_stream_is_deleted(topic: Seq<char>, blank: JsonSpec)
    requires
        is_blank(blank),
    ensures
        resource_name_error(trimmed(topic), "stream"@) is None ==> asks(
            delete_topic_start(topic),
            "$JS.API.STREAM.DELETE."@ + trimmed(topic),
            blank,
        ),
        resource_name_error(trimmed(topic), "stream"@) matches Some(error) ==> delete_topic_start(
            topic,
        ) == Err::<JsRequestSpec, Seq<char>>(error),
{
    lemma_blank(blank);
}

/// A consumer is created under its name, which is also its durable name, on the stream of the
/// trimmed name. It gets all messages that are kept where it starts at the earliest, and only new
/// ones where it starts at the latest. Its messages are acknowledged one by one, and come at once.
pub proof fn law_consumer_is_created(
    topic: Seq<char>,
    subscription: Seq<char>,
    policy: Seq<char>,
    config: JsonSpec,
    description: JsonSpec,
)
    requires
        config is Object,
        at(config, "name"@) == Some(JsonSpec::Text(subscription)),
        at(config, "durable_name"@) == Some(JsonSpec::Text(subscription)),
        at(config, "deliver_policy"@) == Some(JsonSpec::Text(policy)),
        at(config, "ack_policy"@) == Some(JsonSpec::Text("explicit"@)),
        at(config, "replay_policy"@) == Some(JsonSpec::Text("instant"@)),
        forall|key: Seq<char>|
            key != "name"@ && key != "durable_name"@ && key != "deliver_policy"@ && key
                != "ack_policy"@ && key != "replay_policy"@ ==> #[trigger] at(config, key) is None,
        description is Object,
        at(description, "stream_name"@) == Some(JsonSpec::Text(trimmed(topic))),
        at(description, "config"@) == Some(config),
        forall|key: Seq<char>|
            key != "stream_name"@ && key != "config"@ ==> #[trigger] at(description, key) is None,
        resource_name_error(trimmed(topic), "stream"@) is None,
        resource_name_error(subscription, "consumer"@) is None,
    ensures
        policy == "all"@ ==> asks(
            create_subscription_start(topic, subscription, ResetPosition::Earliest),
            "$JS.API.CONSUMER.CREATE."@ + trimmed(topic) + "."@ + subscription,
            description,
        ),
        policy == "new"@ ==> asks(
            create_subscription_start(topic, subscription, ResetPosition::Latest),
            "$JS.API.CONSUMER.CREATE."@ + trimmed(topic) + "."@ + subscription,
            description,
        ),
        forall|other: String| #[trigger]
            create_subscription_start(topic, subscription, ResetPosition::Other(other)) == Err::<
                JsRequestSpec,
                Seq<char>,
            >("NATS consumer creation currently supports earliest/latest start positions"@),
{
    reveal_strlit("name");
    reveal_strlit("durable_name");
    reveal_strlit("deliver_policy");
    reveal_strlit("ack_policy");
    reveal_strlit("replay_policy");
    reveal_strlit("stream_name");
    reveal_strlit("config");
    assert("name"@.len() == 4 && "durable_name"@.len() == 12 && "deliver_policy"@.len() == 14
        && "ack_policy"@.len() == 10 && "replay_policy"@.len() == 13);
    assert("stream_name"@.len() == 11 && "config"@.len() == 6);
    let expected = consumer_description(trimmed(topic), subscription, policy);
    let inner = at(expected, "config"@)->0;
    assert forall|key: Seq<char>| #[trigger] at(config, key) == at(inner, key) by {
        if key != "name"@ && key != "durable_name"@ && key != "deliver_policy"@ && key
            != "ack_policy"@ && key != "replay_policy"@ {
            assert(at(config, key) is None);
        }
    }
    lemma_same_object(config, inner);
    assert forall|key: Seq<char>| #[trigger] at(description, key) == at(expected, key) by {
        if key != "stream_name"@ && key != "config"@ {
            assert(at(description, key) is None);
        }
    }
    lemma_same_object(description, expected);
}

/// A consumer is deleted by its name and the trimmed name of its stream.
pub proof fn law_consumer_is_deleted(
    topic: Seq<char>,
    subscription: Seq<char>,
    reference: JsonSpec,
)
    requires
        reference is Object,
        at(reference, "stream_name"@) == Some(JsonSpec::Text(trimmed(topic))),
        at(reference, "name"@) == Some(JsonSpec::Text(subscription)),
        forall|key: Seq<char>|
            key != "stream_name"@ && key != "name"@ ==> #[trigger] at(reference, key) is None,
        resource_name_error(trimmed(topic), "stream"@) is None,
        resource_name_error(subscription, "consumer"@) is None,
    ensures
        asks(
            delete_subscription_start(topic, subscription),
            "$JS.API.CONSUMER.DELETE."@ + trimmed(topic) + "."@ + subscription,
            reference,
        ),
{
    reveal_strlit("name");
    reveal_strlit("stream_name");
    assert("name"@.len() == 4 && "stream_name"@.len() == 11);
    let expected = consumer_reference(trimmed(topic), subscription);
    assert forall|key: Seq<char>| #[trigger] at(reference, key) == at(expected, key) by {
        if key != "stream_name"@ && key != "name"@ {
            assert(at(reference, key) is None);
        }
    }
    lemma_same_object(reference, expected);
}

/// A consumer is neither created nor deleted where the name of its stream or its own is not valid:
/// what is wrong with the name of the stream is reported first.
pub proof fn law_consumers_need_valid_names(
    topic: Seq<char>,
    subscription: Seq<char>,
    position: ResetPosition,
    error: Seq<char>,
)
    requires
        resource_name_error(trimmed(topic), "stream"@) == Some(error) || resource_name_error(
            trimmed(topic),
            "stream"@,
        ) is None && resource_name_error(subscription, "consumer"@) == Some(error),
    ensures
        consumer_name_error(trimmed(topic), subscription) == Some(error),
        create_subscription_start(topic, subscription, position) == Err::<JsRequestSpec, Seq<char>>(
            error,
        ),
        delete_subscription_start(topic, subscription) == Err::<JsRequestSpec, Seq<char>>(error),
{
}

/// A reply reports an error by its field `error`: the number in it, 500 where there is none, and the
/// description in it, or words that stand for one.
pub proof fn law_errors_are_reported_by_their_field(
    reply: JsonSpec,
    code: u64,
    description: Seq<char>,
)
    ensures
        at(reply, "error"@) is None ==> reported_error(reply) is None,
        at(reply, "error"@) matches Some(error) ==> {
            &&& reported_error(reply) matches Some((told_code, told))
            &&& at(error, "code"@) == Some(JsonSpec::Unsigned(code)) ==> told_code == code
            &&& at(error, "code"@) is None || !(at(error, "code"@)->0 is Unsigned) ==> told_code
                == 500
            &&& is_text(at(error, "description"@), description) ==> told == description
            &&& no_text(at(error, "description"@)) ==> told == "unknown JetStream error"@
        },
{
    law_fields_are_found(reply, "error"@, "error"@);
    if let Some(error) = at(reply, "error"@) {
        law_fields_are_found(error, "code"@, "code"@);
        law_fields_are_found(error, "description"@, "description"@);
        law_values_are_read_as_they_are(at(error, "code"@), description, code as int);
        law_values_are_read_as_they_are(at(error, "description"@), description, 0);
    }
}

/// A reply that was read and reports no error is passed on as it is, whatever it holds. Where it
/// reports one, its number and its description are told, and where it could not be read, the subject
/// and the reason.
pub proof fn law_replies_are_passed_on(
    subject: Seq<char>,
    reply: JsonSpec,
    error: Seq<char>,
    code: u64,
    description: Seq<char>,
)
    ensures
        raw_reply(subject, Ok(reply)) == Ok::<JsonSpec, Seq<char>>(reply),
        at(reply, "error"@) is None ==> checked(reply) == Ok::<JsonSpec, Seq<char>>(reply)
            && checked_reply(subject, Ok(reply)) == Ok::<JsonSpec, Seq<char>>(reply),
        reported_error(reply) == Some((code, description)) ==> checked(reply) == Err::<
            JsonSpec,
            Seq<char>,
        >("JetStream error "@ + decimal(code as nat) + ": "@ + description) && checked_reply(
            subject,
            Ok(reply),
        ) == checked(reply),
        raw_reply(subject, Err(error)) == Err::<JsonSpec, Seq<char>>(
            "Invalid JetStream response from "@ + subject + ": "@ + error,
        ),
        checked_reply(subject, Err(error)) == Err::<JsonSpec, Seq<char>>(
            "Invalid JetStream response from "@ + subject + ": "@ + error,
        ),
{
    law_fields_are_found(reply, "error"@, "error"@);
}

} // verus!
