//! Laws of the servers that a configuration names.
use vstd::prelude::*;

use crate::admin::{
    config_error, dial_error, dial_failure_text, dial_outcome, dial_step, reply_timeout,
};
use crate::config::{MqAdminConfig, Timeout};
use crate::connection::read_timeout_of;
use crate::endpoint::{
    configured_servers, endpoint_of, endpoint_of_url, endpoints_of, endpoints_of_config,
    listed_servers, servers_of_lists, trimmed_pieces, url_of, EndpointSpec, NatsEndpoint, UrlSpec,
};
use crate::json::{texts_among, JsonSpec};
use crate::laws::documents::{at, law_fields_are_found};
use crate::laws::text::{
    is_free_of, is_made_of, law_joined, law_pieces_hold_no_separator, law_pieces_of_two, law_trim,
    law_trim_twice, lemma_one_piece, lemma_trim_chars,
};
use crate::text::{decimal, joined, occurs, pieces, trimmed, CharClass};

verus! {

/// Each server of a list is named by a text that is not empty, has no white space around it and
/// holds no separator.
pub proof fn law_listed_servers_are_bare(value: Seq<char>)
    ensures
        forall|i: int|
            0 <= i < listed_servers(value).len() ==> {
                &&& (#[trigger] listed_servers(value)[i]).len() > 0
                &&& trimmed(listed_servers(value)[i]) == listed_servers(value)[i]
                &&& is_free_of(listed_servers(value)[i], CharClass::ListSeparator)
            },
{
    let servers = listed_servers(value);
    let parts = pieces(value, CharClass::ListSeparator);
    let all = trimmed_pieces(value);
    let pred = |piece: Seq<char>| piece.len() > 0;
    assert forall|i: int| 0 <= i < servers.len() implies {
        &&& (#[trigger] servers[i]).len() > 0
        &&& trimmed(servers[i]) == servers[i]
        &&& is_free_of(servers[i], CharClass::ListSeparator)
    } by {
        all.lemma_filter_pred(pred, i);
        assert(all.filter(pred).contains(servers[i]));
        all.lemma_filter_contains_rev(pred, servers[i]);
        let k = choose|k: int| 0 <= k < all.len() && all[k] == servers[i];
        law_trim_twice(parts[k]);
        law_pieces_hold_no_separator(value, CharClass::ListSeparator);
        lemma_trim_chars(parts[k]);
        assert(is_free_of(parts[k], CharClass::ListSeparator));
        assert forall|j: int| 0 <= j < servers[i].len() implies !CharClass::ListSeparator.holds(
            #[trigger] servers[i][j],
        ) by {
            assert(parts[k].contains(trimmed(parts[k])[j]));
        }
    }
}

/// Two lists with a separator between them name the servers of the one, then those of the other.
pub proof fn law_server_lists_add_up(a: Seq<char>, c: char, b: Seq<char>)
    requires
        CharClass::ListSeparator.holds(c),
    ensures
        listed_servers(a.push(c) + b) == listed_servers(a) + listed_servers(b),
{
    law_pieces_of_two(a, c, b, CharClass::ListSeparator);
    assert(trimmed_pieces(a.push(c) + b) =~= trimmed_pieces(a) + trimmed_pieces(b));
    Seq::filter_distributes_over_add(
        trimmed_pieces(a),
        trimmed_pieces(b),
        |piece: Seq<char>| piece.len() > 0,
    );
}

/// An array of lists names the same servers as the lists in one text with commas between them.
pub proof fn law_array_names_what_its_text_names(lists: Seq<Seq<char>>)
    requires
        lists.len() > 0,
    ensures
        servers_of_lists(lists) == listed_servers(joined(lists, ","@)),
    decreases lists.len(),
{
    reveal_strlit(",");
    let before = lists.drop_last();
    if lists.len() == 1 {
        assert(servers_of_lists(before) =~= Seq::empty());
        assert(servers_of_lists(lists) =~= listed_servers(lists[0]));
    } else {
        law_array_names_what_its_text_names(before);
        let text = joined(before, ","@);
        assert(text + ","@ + lists.last() =~= text.push(',') + lists.last());
        law_server_lists_add_up(text, ',', lists.last());
    }
}

/// The servers to connect to are as many as are named, and in that order.
pub proof fn law_endpoints_keep_order(values: Seq<Seq<char>>)
    ensures
        endpoints_of(values) matches Ok(endpoints) ==> endpoints.len() == values.len() && forall|
            i: int,
        |
            0 <= i < values.len() ==> endpoint_of(#[trigger] values[i]) == Ok::<
                EndpointSpec,
                Seq<char>,
            >(endpoints[i]),
    decreases values.len(),
{
    if values.len() > 0 {
        let before = values.drop_last();
        law_endpoints_keep_order(before);
        if let Ok(endpoints) = endpoints_of(values) {
            assert forall|i: int| 0 <= i < values.len() implies endpoint_of(#[trigger] values[i])
                == Ok::<EndpointSpec, Seq<char>>(endpoints[i]) by {
                if i < before.len() {
                    assert(before[i] == values[i]);
                }
            }
        }
    }
}

/// A text without a comma, a semicolon or a line end names one server, by what is left of it once it
/// is trimmed, or none where nothing is left.
pub proof fn law_text_without_separators_names_one_server(value: Seq<char>)
    requires
        forall|i: int|
            0 <= i < value.len() ==> #[trigger] value[i] != ',' && value[i] != ';' && value[i] != '\n'
                && value[i] != '\r',
    ensures
        listed_servers(value) == (if trimmed(value).len() > 0 {
            seq![trimmed(value)]
        } else {
            Seq::empty()
        }),
{
    assert(is_free_of(value, CharClass::ListSeparator));
    lemma_one_piece(value, CharClass::ListSeparator);
    let one = seq![trimmed(value)];
    assert(trimmed_pieces(value) =~= one);
    reveal(Seq::filter);
    let pred = |piece: Seq<char>| piece.len() > 0;
    assert(one.drop_last() =~= Seq::<Seq<char>>::empty());
    assert(one.drop_last().filter(pred) =~= Seq::<Seq<char>>::empty());
    if trimmed(value).len() > 0 {
        assert(one.filter(pred) =~= one);
    } else {
        assert(one.filter(pred) =~= Seq::<Seq<char>>::empty());
    }
}

/// Lists name their servers one after the other.
pub proof fn law_lists_name_servers_in_turn(lists: Seq<Seq<char>>, next: Seq<char>)
    ensures
        servers_of_lists(Seq::empty()) == Seq::<Seq<char>>::empty(),
        servers_of_lists(lists.push(next)) == servers_of_lists(lists) + listed_servers(next),
{
    assert(lists.push(next).drop_last() =~= lists);
}

/// A text that is nothing but white space names no server.
proof fn lemma_white_space_names_nothing(value: Seq<char>)
    requires
        trimmed(value).len() == 0,
    ensures
        listed_servers(value).len() == 0,
{
    if listed_servers(value).len() > 0 {
        let servers = listed_servers(value);
        let parts = pieces(value, CharClass::ListSeparator);
        let all = trimmed_pieces(value);
        let pred = |piece: Seq<char>| piece.len() > 0;
        all.lemma_filter_pred(pred, 0);
        assert(all.filter(pred).contains(servers[0]));
        all.lemma_filter_contains_rev(pred, servers[0]);
        let k = choose|k: int| 0 <= k < all.len() && all[k] == servers[0];
        let part = parts[k];
        law_trim(part);
        lemma_trim_chars(part);
        law_pieces_hold_no_separator(value, CharClass::ListSeparator);
        let c = trimmed(part)[0];
        assert(part.contains(c));
        let j = choose|j: int| 0 <= j < part.len() && part[j] == c;
        assert(value.contains(parts[k][j]));
        let i = choose|i: int| 0 <= i < value.len() && value[i] == c;
        law_trim(value);
        let (a, b) = choose|a: Seq<char>, b: Seq<char>|
            #![trigger is_made_of(a, CharClass::Space), is_made_of(b, CharClass::Space)]
            is_made_of(a, CharClass::Space) && is_made_of(b, CharClass::Space) && value == a
                + trimmed(value) + b;
        assert(CharClass::Space.holds(value[i])) by {
            if i < a.len() {
                assert(value[i] == a[i]);
            } else {
                assert(value[i] == b[i - a.len()]);
            }
        }
    }
}

/// The servers are those that the settings list under `servers`, in a text or in the strings of an
/// array. Where they list none, they are those of the URL, and where that lists none either, there is
/// nothing to connect to. Settings of any other kind are refused.
pub proof fn law_settings_come_before_the_url(
    extra: JsonSpec,
    admin_url: Seq<char>,
    list: Seq<char>,
    items: Seq<JsonSpec>,
)
    ensures
        at(extra, "servers"@) == Some(JsonSpec::Text(list)) && listed_servers(list).len() > 0
            ==> configured_servers(extra, admin_url) == Ok::<Seq<Seq<char>>, Seq<char>>(
            listed_servers(list),
        ),
        at(extra, "servers"@) == Some(JsonSpec::Array(items)) && servers_of_lists(
            texts_among(items),
        ).len() > 0 ==> configured_servers(extra, admin_url) == Ok::<Seq<Seq<char>>, Seq<char>>(
            servers_of_lists(texts_among(items)),
        ),
        ({
            ||| at(extra, "servers"@) is None
            ||| at(extra, "servers"@) == Some(JsonSpec::Text(list)) && listed_servers(list).len()
                == 0
            ||| at(extra, "servers"@) == Some(JsonSpec::Array(items)) && servers_of_lists(
                texts_among(items),
            ).len() == 0
        }) ==> configured_servers(extra, admin_url) == (if listed_servers(admin_url).len() > 0 {
            Ok::<Seq<Seq<char>>, Seq<char>>(listed_servers(admin_url))
        } else {
            Err("NATS server list is empty"@)
        }),
        at(extra, "servers"@) is Some && !(at(extra, "servers"@)->0 is Text) && !(at(
            extra,
            "servers"@,
        )->0 is Array) ==> configured_servers(extra, admin_url) == Err::<
            Seq<Seq<char>>,
            Seq<char>,
        >("NATS extra.servers must be a string or string array"@),
{
    law_fields_are_found(extra, "servers"@, "servers"@);
    if trimmed(admin_url).len() == 0 {
        lemma_white_space_names_nothing(admin_url);
    }
}

/// An address to connect to in place of the configured servers is the only one that is connected to,
/// whatever else the configuration names.
pub proof fn law_override_is_the_only_server(config: MqAdminConfig)
    ensures
        config.connect_override matches Some(address) ==> (endpoints_of_config(config) matches Ok(
            endpoints,
        ) && endpoints.len() == 1 && endpoints[0].host == address.host@ && endpoints[0].port
            == address.port && endpoints[0].display == address.host@ + ":"@ + decimal(
            address.port as nat,
        )),
        config.connect_override is None ==> (configured_servers(
            config.extra@,
            config.admin_url@,
        ) matches Ok(values) ==> endpoints_of_config(config) == endpoints_of(values)),
        config.connect_override is None ==> (configured_servers(
            config.extra@,
            config.admin_url@,
        ) matches Err(error) ==> endpoints_of_config(config) == Err::<
            Seq<EndpointSpec>,
            Seq<char>,
        >(error)),
{
}

/// Servers are refused for the first of them that cannot be used. Where all can, there is one to
/// connect to for each.
pub proof fn law_first_unusable_server_is_reported(values: Seq<Seq<char>>, k: int, error: Seq<char>)
    ensures
        0 <= k < values.len() && (forall|i: int|
            0 <= i < k ==> endpoint_of(#[trigger] values[i]) is Ok) && endpoint_of(values[k])
            == Err::<EndpointSpec, Seq<char>>(error) ==> endpoints_of(values) == Err::<
            Seq<EndpointSpec>,
            Seq<char>,
        >(error),
        (forall|i: int| 0 <= i < values.len() ==> endpoint_of(#[trigger] values[i]) is Ok)
            ==> endpoints_of(values) is Ok,
    decreases values.len(),
{
    if values.len() > 0 {
        let before = values.drop_last();
        law_first_unusable_server_is_reported(before, k, error);
        assert forall|i: int| 0 <= i < before.len() implies #[trigger] before[i] == values[i] by {}
        if forall|i: int| 0 <= i < values.len() ==> endpoint_of(#[trigger] values[i]) is Ok {
            assert forall|i: int| 0 <= i < before.len() implies endpoint_of(
                #[trigger] before[i],
            ) is Ok by {
                assert(endpoint_of(values[i]) is Ok);
            }
            assert(endpoint_of(values[values.len() - 1]) is Ok);
        }
        if 0 <= k < values.len() && (forall|i: int|
            0 <= i < k ==> endpoint_of(#[trigger] values[i]) is Ok) && endpoint_of(values[k])
            == Err::<EndpointSpec, Seq<char>>(error) {
            assert forall|i: int| 0 <= i < k && i < before.len() implies endpoint_of(
                #[trigger] before[i],
            ) is Ok by {
                assert(endpoint_of(values[i]) is Ok);
            }
            if k < before.len() {
                assert(before[k] == values[k]);
            }
        }
    }
}

/// A server without `://` is named by its URL without the scheme `nats`; any other is named by its
/// URL.
pub proof fn law_scheme_can_be_left_out(value: Seq<char>)
    ensures
        (forall|i: int|
            0 <= i <= value.len() - 3 ==> !(#[trigger] value[i] == ':' && value[i + 1] == '/'
                && value[i + 2] == '/')) ==> endpoint_of(value) == endpoint_of_url(
            value,
            url_of("nats://"@ + value),
        ),
        (exists|i: int|
            0 <= i <= value.len() - 3 && #[trigger] value[i] == ':' && value[i + 1] == '/' && value[i
                + 2] == '/') ==> endpoint_of(value) == endpoint_of_url(value, url_of(value)),
{
    reveal_strlit("://");
    let mark = "://"@;
    if occurs(value, mark) {
        let i = choose|i: int|
            0 <= i <= value.len() - mark.len() && #[trigger] value.subrange(i, i + mark.len())
                == mark;
        let part = value.subrange(i, i + mark.len());
        assert(part[0] == value[i] && part[1] == value[i + 1] && part[2] == value[i + 2]);
    }
    if exists|i: int|
        0 <= i <= value.len() - 3 && #[trigger] value[i] == ':' && value[i + 1] == '/' && value[i + 2]
            == '/' {
        let i = choose|i: int|
            0 <= i <= value.len() - 3 && #[trigger] value[i] == ':' && value[i + 1] == '/' && value[i
                + 2] == '/';
        assert(value.subrange(i, i + mark.len()) =~= mark);
    }
}

/// A URL names a server where its scheme is `nats`, it has neither a user name nor a password, and it
/// has a host. The server has that host, the port of the URL, else 4222, and is shown as it was
/// configured.
pub proof fn law_url_names_a_server(value: Seq<char>, url: UrlSpec, error: Seq<char>)
    ensures
        endpoint_of_url(value, Ok(url)) is Ok <==> url.scheme == "nats"@ && url.username.len() == 0
            && url.password is None && url.host is Some,
        endpoint_of_url(value, Ok(url)) matches Ok(endpoint) ==> {
            &&& Some(endpoint.host) == url.host
            &&& url.port is Some ==> Some(endpoint.port) == url.port
            &&& url.port is None ==> endpoint.port == 4222
            &&& endpoint.display == value
        },
        url.scheme != "nats"@ ==> endpoint_of_url(value, Ok(url)) == Err::<EndpointSpec, Seq<char>>(
            "NATS server '"@ + value + "' uses unsupported scheme '"@ + url.scheme
                + "'; the first native adapter release supports nats:// TCP endpoints"@,
        ),
        url.scheme == "nats"@ && (url.username.len() > 0 || url.password is Some) ==> endpoint_of_url(
            value,
            Ok(url),
        ) == Err::<EndpointSpec, Seq<char>>(
            "Put NATS credentials in the DBX authentication fields instead of the server URL"@,
        ),
        url.scheme == "nats"@ && url.username.len() == 0 && url.password is None && url.host is None
            ==> endpoint_of_url(value, Ok(url)) == Err::<EndpointSpec, Seq<char>>(
            "NATS server '"@ + value + "' has no host"@,
        ),
        endpoint_of_url(value, Err(error)) == Err::<EndpointSpec, Seq<char>>(
            "Invalid NATS server '"@ + value + "': "@ + error,
        ),
{
}

/// A configuration can be used where it asks neither for unchecked certificates nor for a proxy, and
/// names servers that can be connected to. What is wrong is reported in that order.
pub proof fn law_usable_configurations(config: MqAdminConfig)
    ensures
        config_error(config) is None <==> !config.tls_skip_verify && config.socks_proxy is None
            && endpoints_of_config(config) is Ok,
        config.tls_skip_verify ==> config_error(config) == Some(
            "NATS TLS skip verification is not supported by the native adapter yet"@,
        ),
        !config.tls_skip_verify && config.socks_proxy is Some ==> config_error(config) == Some(
            "NATS SOCKS proxy transport is not supported by the native adapter yet"@,
        ),
        !config.tls_skip_verify && config.socks_proxy is None ==> (endpoints_of_config(
            config,
        ) matches Err(error) ==> config_error(config) == Some(error)),
{
}

/// The servers are tried one after the other, each once: after as many failures as there are servers
/// before it, the next is tried, and once all have failed, the failures are reported.
pub proof fn law_every_server_is_tried(
    endpoints: Seq<EndpointSpec>,
    failures: Seq<Seq<char>>,
    endpoint: &NatsEndpoint,
    report: String,
)
    ensures
        failures.len() < endpoints.len() ==> dial_step(endpoints, failures) == Ok::<
            EndpointSpec,
            Seq<char>,
        >(endpoints[failures.len() as int]),
        failures.len() >= endpoints.len() ==> dial_step(endpoints, failures) == Err::<
            EndpointSpec,
            Seq<char>,
        >(dial_error(failures)),
        dial_outcome(Ok(endpoint)) == Ok::<EndpointSpec, Seq<char>>(endpoint@),
        dial_outcome(Err(report)) == Err::<EndpointSpec, Seq<char>>(report@),
{
}

/// A reply is waited for as long as is configured, an hour where nothing is, and a line for half a
/// minute where no time at all is.
pub proof fn law_waiting_times(limit: Timeout)
    ensures
        reply_timeout(Some(limit)) == limit,
        reply_timeout(None) == (Timeout { secs: 3600, nanos: 0 }),
        limit.secs > 0 || limit.nanos > 0 ==> read_timeout_of(limit) == limit,
        limit.secs == 0 && limit.nanos == 0 ==> read_timeout_of(limit) == (Timeout {
            secs: 30,
            nanos: 0,
        }),
{
}

/// Once no server could be connected to, every attempt is reported, in order, each with its server
/// and its reason.
pub proof fn law_every_failed_attempt_is_reported(
    failures: Seq<Seq<char>>,
    display: Seq<char>,
    error: Seq<char>,
)
    ensures
        dial_error(seq![dial_failure_text(display, error)]) == "Failed to connect to NATS: "@
            + display + ": "@ + error,
        failures.len() > 0 ==> dial_error(failures.push(dial_failure_text(display, error)))
            == dial_error(failures) + "; "@ + display + ": "@ + error,
{
    let failure = dial_failure_text(display, error);
    law_joined(failures, failure, "; "@);
    assert(dial_error(seq![failure]) =~= "Failed to connect to NATS: "@ + display + ": "@ + error);
    if failures.len() > 0 {
        assert(dial_error(failures.push(failure)) =~= dial_error(failures) + "; "@ + display + ": "@
            + error);
    }
}

} // verus!
