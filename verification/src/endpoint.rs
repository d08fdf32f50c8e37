//! The servers that a configuration names.
use vstd::prelude::*;

use crate::config::MqAdminConfig;
use crate::json::{items_spec, texts_among, Json, JsonSpec};
use crate::text::{
    contains_text, decimal, decimal_text, lemma_non_empty_step, non_empty, occurs, owned, pieces,
    same_text, split, strings, texts, trim, trimmed, CharClass,
};

verus! {

/// The port of a server whose address names none.
pub const DEFAULT_NATS_PORT: u16 = 4222;

/// A server to connect to.
#[derive(Debug, PartialEq, Eq)]
pub struct NatsEndpoint {
    /// Host name or address.
    pub host: String,
    /// Port.
    pub port: u16,
    /// The server as it was configured.
    pub display: String,
}

/// The content of a [`NatsEndpoint`].
pub struct EndpointSpec {
    /// Host name or address.
    pub host: Seq<char>,
    /// Port.
    pub port: u16,
    /// The server as it was configured.
    pub display: Seq<char>,
}

impl View for NatsEndpoint {
    type V = EndpointSpec;

    open spec fn view(&self) -> EndpointSpec {
        EndpointSpec { host: self.host@, port: self.port, display: self.display@ }
    }
}

impl Clone for NatsEndpoint {
    fn clone(&self) -> (r: NatsEndpoint)
        ensures
            r@ == self@,
    {
        NatsEndpoint {
            host: owned(self.host.as_str()),
            port: self.port,
            display: owned(self.display.as_str()),
        }
    }
}

/// The parts of a URL that say which server it names.
#[derive(Debug, PartialEq, Eq)]
pub struct UrlParts {
    /// The scheme.
    pub scheme: String,
    /// The user name, empty where there is none.
    pub username: String,
    /// The password.
    pub password: Option<String>,
    /// The host.
    pub host: Option<String>,
    /// The port.
    pub port: Option<u16>,
}

/// The content of [`UrlParts`].
pub struct UrlSpec {
    /// The scheme.
    pub scheme: Seq<char>,
    /// The user name, empty where there is none.
    pub username: Seq<char>,
    /// The password.
    pub password: Option<Seq<char>>,
    /// The host.
    pub host: Option<Seq<char>>,
    /// The port.
    pub port: Option<u16>,
}

/// The text of an optional string.
pub open spec fn optional_text(text: Option<String>) -> Option<Seq<char>> {
    match text {
        Some(s) => Some(s@),
        None => None,
    }
}

impl View for UrlParts {
    type V = UrlSpec;

    open spec fn view(&self) -> UrlSpec {
        UrlSpec {
            scheme: self.scheme@,
            username: self.username@,
            password: optional_text(self.password),
            host: optional_text(self.host),
            port: self.port,
        }
    }
}

/// What `reqwest::Url::parse` makes of `text`: the parts of a URL, or the text of its error.
pub uninterp spec fn url_of(text: Seq<char>) -> Result<UrlSpec, Seq<char>>;

/// Calls `reqwest::Url::parse` and reads the parts of the URL with `scheme`, `username`,
/// `password`, `host_str` and `port`.
///
/// Trusted: the outcome is a function of the text alone.
#[verifier::external_body]
fn parse_url(text: &str) -> (r: Result<UrlParts, String>)
    ensures
        url_outcome(r) == url_of(text@),
{
    match reqwest::Url::parse(text) {
        Ok(url) => Ok(
            UrlParts {
                scheme: url.scheme().to_string(),
                username: url.username().to_string(),
                password: url.password().map(str::to_string),
                host: url.host_str().map(str::to_string),
                port: url.port(),
            },
        ),
        Err(error) => Err(error.to_string()),
    }
}

/// The content of what a URL was found to be.
pub open spec fn url_outcome(r: Result<UrlParts, String>) -> Result<UrlSpec, Seq<char>> {
    match r {
        Ok(parts) => Ok(parts@),
        Err(text) => Err(text@),
    }
}

/// The content of an endpoint that was found, or of the error.
pub open spec fn endpoint_outcome(r: Result<NatsEndpoint, String>) -> Result<
    EndpointSpec,
    Seq<char>,
> {
    match r {
        Ok(endpoint) => Ok(endpoint@),
        Err(text) => Err(text@),
    }
}

/// The servers that a list names: what stands between its separators, without the white space
/// around it, where there is anything left.
pub open spec fn listed_servers(value: Seq<char>) -> Seq<Seq<char>> {
    non_empty(trimmed_pieces(value))
}

/// What stands between the separators of a list, without the white space around it.
pub open spec fn trimmed_pieces(value: Seq<char>) -> Seq<Seq<char>> {
    let parts = pieces(value, CharClass::ListSeparator);
    Seq::new(parts.len(), |i: int| trimmed(parts[i]))
}

/// The servers that a list names. They are separated by commas, semicolons or line ends.
pub fn split_server_list(value: &str) -> (r: Vec<String>)
    ensures
        strings(r@) == listed_servers(value@),
{
    let parts = split(value, CharClass::ListSeparator);
    let ghost all = trimmed_pieces(value@);
    let mut out: Vec<String> = Vec::new();
    let mut i: usize = 0;
    assert(strings(out@) =~= non_empty(all.take(0))) by {
        reveal(Seq::filter);
    }
    while i < parts.len()
        invariant
            i <= parts@.len(),
            texts(parts@) == pieces(value@, CharClass::ListSeparator),
            all == trimmed_pieces(value@),
            all.len() == parts@.len(),
            strings(out@) == non_empty(all.take(i as int)),
        decreases parts@.len() - i,
    {
        proof {
            lemma_non_empty_step(all, i as int);
        }
        let ghost before = strings(out@);
        assert(texts(parts@)[i as int] == parts@[i as int]@);
        let part = trim(parts[i]);
        if !part.is_empty() {
            out.push(owned(part));
            assert(strings(out@) =~= before.push(part@));
        }
        i += 1;
    }
    assert(all.take(all.len() as int) =~= all);
    out
}

/// The URL that `value` is short for.
pub open spec fn normalized_url(value: Seq<char>) -> Seq<char> {
    if occurs(value, "://"@) {
        value
    } else {
        "nats://"@ + value
    }
}

/// The server that `value` names, where its URL was found to be `parsed`.
pub open spec fn endpoint_of_url(
    value: Seq<char>,
    parsed: Result<UrlSpec, Seq<char>>,
) -> Result<EndpointSpec, Seq<char>> {
    match parsed {
        Err(error) => Err("Invalid NATS server '"@ + value + "': "@ + error),
        Ok(url) => if url.scheme != "nats"@ {
            Err(
                "NATS server '"@ + value + "' uses unsupported scheme '"@ + url.scheme
                    + "'; the first native adapter release supports nats:// TCP endpoints"@,
            )
        } else if url.username.len() > 0 || url.password is Some {
            Err(
                "Put NATS credentials in the DBX authentication fields instead of the server URL"@,
            )
        } else {
            match url.host {
                None => Err("NATS server '"@ + value + "' has no host"@),
                Some(host) => Ok(
                    EndpointSpec {
                        host,
                        port: match url.port {
                            Some(port) => port,
                            None => DEFAULT_NATS_PORT,
                        },
                        display: value,
                    },
                ),
            }
        },
    }
}

/// The server that `value` names, where its URL was found to be `parsed`.
pub fn endpoint_from_url(value: &str, parsed: Result<UrlParts, String>) -> (r: Result<
    NatsEndpoint,
    String,
>)
    ensures
        endpoint_outcome(r) == endpoint_of_url(value@, url_outcome(parsed)),
{
    let url: UrlParts = match parsed {
        Ok(url) => url,
        Err(error) => {
            let mut text: String = owned("Invalid NATS server '");
            text.append(value);
            text.append("': ");
            text.append(error.as_str());
            return Err(text);
        },
    };
    if !same_text(url.scheme.as_str(), "nats") {
        let mut text: String = owned("NATS server '");
        text.append(value);
        text.append("' uses unsupported scheme '");
        text.append(url.scheme.as_str());
        text.append("'; the first native adapter release supports nats:// TCP endpoints");
        return Err(text);
    }
    if !url.username.as_str().is_empty() || url.password.is_some() {
        return Err(
            owned("Put NATS credentials in the DBX authentication fields instead of the server URL"),
        );
    }
    match url.host {
        Some(host) => Ok(
            NatsEndpoint {
                host,
                port: match url.port {
                    Some(port) => port,
                    None => DEFAULT_NATS_PORT,
                },
                display: owned(value),
            },
        ),
        None => {
            let mut text: String = owned("NATS server '");
            text.append(value);
            text.append("' has no host");
            Err(text)
        },
    }
}

/// The server that `value` names.
pub open spec fn endpoint_of(value: Seq<char>) -> Result<EndpointSpec, Seq<char>> {
    endpoint_of_url(value, url_of(normalized_url(value)))
}

/// The server that `value` names: a URL with the scheme `nats`, or one without its scheme.
pub fn parse_nats_endpoint(value: &str) -> (r: Result<NatsEndpoint, String>)
    ensures
        endpoint_outcome(r) == endpoint_of(value@),
{
    let normalized: String = if contains_text(value, "://") {
        owned(value)
    } else {
        let mut url: String = owned("nats://");
        url.append(value);
        url
    };
    endpoint_from_url(value, parse_url(normalized.as_str()))
}

/// The servers that each of `lists` names, one list after the other.
pub open spec fn servers_of_lists(lists: Seq<Seq<char>>) -> Seq<Seq<char>>
    decreases lists.len(),
{
    if lists.len() == 0 {
        Seq::empty()
    } else {
        servers_of_lists(lists.drop_last()) + listed_servers(lists.last())
    }
}

/// The servers that the settings of the adapter list under `servers`.
pub open spec fn extra_servers(extra: JsonSpec) -> Result<Seq<Seq<char>>, Seq<char>> {
    match extra.get("servers"@) {
        Some(JsonSpec::Text(value)) => Ok(listed_servers(value)),
        Some(JsonSpec::Array(items)) => Ok(servers_of_lists(texts_among(items))),
        Some(_) => Err("NATS extra.servers must be a string or string array"@),
        None => Ok(Seq::empty()),
    }
}

/// The servers that a configuration names: those of its settings, else those of its URL.
pub open spec fn configured_servers(extra: JsonSpec, admin_url: Seq<char>) -> Result<
    Seq<Seq<char>>,
    Seq<char>,
> {
    match extra_servers(extra) {
        Err(error) => Err(error),
        Ok(servers) => {
            let values = if servers.len() == 0 && trimmed(admin_url).len() > 0 {
                listed_servers(admin_url)
            } else {
                servers
            };
            if values.len() == 0 {
                Err("NATS server list is empty"@)
            } else {
                Ok(values)
            }
        },
    }
}

/// The servers that `values` name, or what is wrong with the first that names none.
pub open spec fn endpoints_of(values: Seq<Seq<char>>) -> Result<Seq<EndpointSpec>, Seq<char>>
    decreases values.len(),
{
    if values.len() == 0 {
        Ok(Seq::empty())
    } else {
        match endpoints_of(values.drop_last()) {
            Err(error) => Err(error),
            Ok(endpoints) => match endpoint_of(values.last()) {
                Err(error) => Err(error),
                Ok(endpoint) => Ok(endpoints.push(endpoint)),
            },
        }
    }
}

/// The servers to connect to under a configuration.
pub open spec fn endpoints_of_config(config: MqAdminConfig) -> Result<
    Seq<EndpointSpec>,
    Seq<char>,
> {
    match config.connect_override {
        Some(address) => Ok(
            seq![
                EndpointSpec {
                    host: address.host@,
                    port: address.port,
                    display: address.host@ + ":"@ + decimal(address.port as nat),
                },
            ],
        ),
        None => match configured_servers(config.extra@, config.admin_url@) {
            Err(error) => Err(error),
            Ok(values) => endpoints_of(values),
        },
    }
}

/// The contents of a list of endpoints.
pub open spec fn endpoint_views(endpoints: Seq<NatsEndpoint>) -> Seq<EndpointSpec> {
    Seq::new(endpoints.len(), |i: int| endpoints[i]@)
}

/// The contents of the endpoints that were found, or of the error.
pub open spec fn endpoints_outcome(r: Result<Vec<NatsEndpoint>, String>) -> Result<
    Seq<EndpointSpec>,
    Seq<char>,
> {
    match r {
        Ok(endpoints) => Ok(endpoint_views(endpoints@)),
        Err(text) => Err(text@),
    }
}

/// Appends the servers that a list names.
fn push_servers(values: &mut Vec<String>, list: &str)
    ensures
        strings(final(values)@) == strings(old(values)@) + listed_servers(list@),
{
    let mut more: Vec<String> = split_server_list(list);
    let ghost listed = more@;
    values.append(&mut more);
    assert(strings(values@) =~= strings(old(values)@) + strings(listed));
}

/// The servers that the strings among `items` name.
fn array_servers(items: &Vec<Json>) -> (r: Vec<String>)
    ensures
        strings(r@) == servers_of_lists(texts_among(items_spec(items@))),
{
    let ghost all = items_spec(items@);
    let mut out: Vec<String> = Vec::new();
    let mut i: usize = 0;
    assert(strings(out@) =~= servers_of_lists(texts_among(all.take(0))));
    while i < items.len()
        invariant
            i <= items@.len(),
            all == items_spec(items@),
            strings(out@) == servers_of_lists(texts_among(all.take(i as int))),
        decreases items@.len() - i,
    {
        assert(all.take(i + 1).drop_last() =~= all.take(i as int));
        assert(all.take(i + 1).last() == items@[i as int]@);
        if let Some(list) = items[i].as_str() {
            push_servers(&mut out, list);
            let ghost before = texts_among(all.take(i as int));
            assert(before.push(list@).drop_last() =~= before);
        }
        i += 1;
    }
    assert(all.take(all.len() as int) =~= all);
    out
}

/// The contents of the servers that are named, or of the error.
pub open spec fn servers_outcome(r: Result<Vec<String>, String>) -> Result<
    Seq<Seq<char>>,
    Seq<char>,
> {
    match r {
        Ok(values) => Ok(strings(values@)),
        Err(text) => Err(text@),
    }
}

/// The servers that a configuration names: those that its settings list under `servers`, else those
/// of its URL.
pub fn configured_server_list(extra: &Json, admin_url: &str) -> (r: Result<Vec<String>, String>)
    ensures
        servers_outcome(r) == configured_servers(extra@, admin_url@),
{
    let mut values: Vec<String> = match extra.get("servers") {
        Some(Json::Text(list)) => split_server_list(list.as_str()),
        Some(Json::Array(items)) => array_servers(items),
        Some(_) => return Err(owned("NATS extra.servers must be a string or string array")),
        None => Vec::new(),
    };
    assert(extra_servers(extra@) == Ok::<Seq<Seq<char>>, Seq<char>>(strings(values@))) by {
        if extra@.get("servers"@) is None {
            assert(strings(values@) =~= Seq::empty());
        }
    }
    if values.is_empty() && !trim(admin_url).is_empty() {
        values = split_server_list(admin_url);
    }
    if values.is_empty() {
        return Err(owned("NATS server list is empty"));
    }
    Ok(values)
}

/// The servers to connect to under `config`: the override where there is one, else those that it
/// names.
pub fn nats_endpoints(config: &MqAdminConfig) -> (r: Result<Vec<NatsEndpoint>, String>)
    ensures
        endpoints_outcome(r) == endpoints_of_config(*config),
{
    if let Some(address) = &config.connect_override {
        let mut display: String = owned(address.host.as_str());
        display.append(":");
        display.append(decimal_text(address.port as u64).as_str());
        let mut endpoints: Vec<NatsEndpoint> = Vec::new();
        endpoints.push(
            NatsEndpoint { host: owned(address.host.as_str()), port: address.port, display },
        );
        assert(endpoint_views(endpoints@) =~= endpoints_of_config(*config)->Ok_0);
        return Ok(endpoints);
    }
    let values: Vec<String> = match configured_server_list(
        &config.extra,
        config.admin_url.as_str(),
    ) {
        Ok(values) => values,
        Err(error) => return Err(error),
    };
    let ghost all = strings(values@);
    let mut endpoints: Vec<NatsEndpoint> = Vec::new();
    let mut i: usize = 0;
    assert(endpoint_views(endpoints@) =~= Seq::empty());
    assert(all.take(0) =~= Seq::empty());
    while i < values.len()
        invariant
            i <= values@.len(),
            all == strings(values@),
            config.connect_override is None,
            configured_servers(config.extra@, config.admin_url@) == Ok::<
                Seq<Seq<char>>,
                Seq<char>,
            >(all),
            endpoints_of(all.take(i as int)) == Ok::<Seq<EndpointSpec>, Seq<char>>(
                endpoint_views(endpoints@),
            ),
        decreases values@.len() - i,
    {
        assert(all.take(i + 1).drop_last() =~= all.take(i as int));
        assert(all.take(i + 1).last() == values@[i as int]@);
        match parse_nats_endpoint(values[i].as_str()) {
            Ok(endpoint) => {
                let ghost before = endpoint_views(endpoints@);
                endpoints.push(endpoint);
                assert(endpoint_views(endpoints@) =~= before.push(endpoint@));
            },
            Err(error) => {
                proof {
                    lemma_first_error(all, i + 1);
                }
                return Err(error);
            },
        }
        i += 1;
    }
    assert(all.take(all.len() as int) =~= all);
    Ok(endpoints)
}

/// What is wrong with a prefix of a list of servers is wrong with the list.
proof fn lemma_first_error(values: Seq<Seq<char>>, n: int)
    requires
        0 <= n <= values.len(),
        endpoints_of(values.take(n)) is Err,
    ensures
        endpoints_of(values) == endpoints_of(values.take(n)),
    decreases values.len(),
{
    if n < values.len() {
        assert(values.drop_last().take(n) =~= values.take(n));
        lemma_first_error(values.drop_last(), n);
    } else {
        assert(values.take(n) =~= values);
    }
}

} // verus!
