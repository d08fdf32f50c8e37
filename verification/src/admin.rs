//! The admin adapter: how it is set up, which server it connects to, and what it does not offer.
use vstd::prelude::*;

use crate::config::{MqAdminConfig, Timeout, UNLIMITED_RPC_TIMEOUT_SECS};
use crate::endpoint::{
    configured_servers, endpoint_views, endpoints_of_config, nats_endpoints, EndpointSpec,
    NatsEndpoint,
};
use crate::laws::servers::law_endpoints_keep_order;
use crate::replies::{capabilities_of, nats_capabilities};
use crate::text::{join, joined, owned, strings};
use crate::types::{MqCapabilities, MqSystemKind};

verus! {

/// An admin adapter for NATS and JetStream.
#[derive(Debug)]
pub struct NatsAdmin {
    config: MqAdminConfig,
    endpoints: Vec<NatsEndpoint>,
}

/// Why a configuration cannot be used.
pub open spec fn config_error(config: MqAdminConfig) -> Option<Seq<char>> {
    if config.tls_skip_verify {
        Some("NATS TLS skip verification is not supported by the native adapter yet"@)
    } else if config.socks_proxy is Some {
        Some("NATS SOCKS proxy transport is not supported by the native adapter yet"@)
    } else {
        match endpoints_of_config(config) {
            Err(error) => Some(error),
            Ok(_) => None,
        }
    }
}

/// How long a reply is waited for, where `limit` is the configured limit.
pub open spec fn reply_timeout(limit: Option<Timeout>) -> Timeout {
    match limit {
        Some(timeout) => timeout,
        None => Timeout { secs: UNLIMITED_RPC_TIMEOUT_SECS, nanos: 0 },
    }
}

/// The server to try next, once the attempts that `failures` describe have failed, or what to report
/// once none is left.
pub open spec fn dial_step(endpoints: Seq<EndpointSpec>, failures: Seq<Seq<char>>) -> Result<
    EndpointSpec,
    Seq<char>,
> {
    if failures.len() < endpoints.len() {
        Ok(endpoints[failures.len() as int])
    } else {
        Err(dial_error(failures))
    }
}

/// The content of the server to try, or of the report.
pub open spec fn dial_outcome(r: Result<&NatsEndpoint, String>) -> Result<EndpointSpec, Seq<char>> {
    match r {
        Ok(endpoint) => Ok(endpoint@),
        Err(text) => Err(text@),
    }
}

/// What is reported once no server could be connected to.
pub open spec fn dial_error(failures: Seq<Seq<char>>) -> Seq<char> {
    "Failed to connect to NATS: "@ + joined(failures, "; "@)
}

/// A server at which the connection attempt failed, with the reason.
pub open spec fn dial_failure_text(display: Seq<char>, error: Seq<char>) -> Seq<char> {
    display + ": "@ + error
}

impl NatsAdmin {
    /// The configuration.
    pub closed spec fn config(&self) -> MqAdminConfig {
        self.config
    }

    /// The servers, in the order in which they are tried.
    pub closed spec fn endpoints(&self) -> Seq<EndpointSpec> {
        endpoint_views(self.endpoints@)
    }

    /// Whether the configuration can be used, and the servers are those that it names.
    pub open spec fn wf(&self) -> bool {
        &&& config_error(self.config()) is None
        &&& endpoints_of_config(self.config()) == Ok::<Seq<EndpointSpec>, Seq<char>>(
            self.endpoints(),
        )
        &&& self.endpoints().len() > 0
    }

    /// An adapter for the servers that `config` names.
    pub fn new(config: MqAdminConfig) -> (r: Result<NatsAdmin, String>)
        ensures
            match r {
                Ok(admin) => admin.wf() && admin.config() == config,
                Err(text) => config_error(config) == Some(text@),
            },
    {
        if config.tls_skip_verify {
            return Err(
                owned("NATS TLS skip verification is not supported by the native adapter yet"),
            );
        }
        if config.socks_proxy.is_some() {
            return Err(
                owned("NATS SOCKS proxy transport is not supported by the native adapter yet"),
            );
        }
        let endpoints: Vec<NatsEndpoint> = match nats_endpoints(&config) {
            Ok(endpoints) => endpoints,
            Err(error) => return Err(error),
        };
        proof {
            lemma_some_endpoint(config);
        }
        Ok(NatsAdmin { config, endpoints })
    }

    /// The configuration.
    pub fn configuration(&self) -> (r: &MqAdminConfig)
        ensures
            *r == self.config(),
    {
        &self.config
    }

    /// How long a reply is waited for.
    pub fn request_timeout(&self) -> (r: Timeout)
        ensures
            r == (match self.config().rpc_timeout {
                Some(timeout) => timeout,
                None => Timeout { secs: UNLIMITED_RPC_TIMEOUT_SECS, nanos: 0 },
            }),
            r == reply_timeout(self.config().rpc_timeout),
    {
        match self.config.rpc_timeout {
            Some(timeout) => timeout,
            None => Timeout::from_secs(UNLIMITED_RPC_TIMEOUT_SECS),
        }
    }

    /// The server to try next, once the attempts that `failures` describe have failed, or what to
    /// report once none is left.
    pub fn next_endpoint(&self, failures: &Vec<String>) -> (r: Result<&NatsEndpoint, String>)
        ensures
            dial_outcome(r) == dial_step(self.endpoints(), strings(failures@)),
            match r {
                Ok(endpoint) => failures@.len() < self.endpoints().len() && endpoint@
                    == self.endpoints()[failures@.len() as int],
                Err(text) => failures@.len() >= self.endpoints().len() && text@ == dial_error(
                    strings(failures@),
                ),
            },
    {
        if failures.len() < self.endpoints.len() {
            return Ok(&self.endpoints[failures.len()]);
        }
        let mut text: String = owned("Failed to connect to NATS: ");
        text.append(join(failures, "; ").as_str());
        Err(text)
    }

    /// What the adapter can do.
    pub fn capabilities(&self) -> (r: MqCapabilities)
        ensures
            r == capabilities_of(true),
    {
        nats_capabilities(true)
    }

    /// The kind of message queue.
    pub fn system_kind(&self) -> (r: MqSystemKind)
        ensures
            r == MqSystemKind::Nats,
    {
        MqSystemKind::Nats
    }
}

/// Describes a failed attempt to connect to `endpoint`.
pub fn dial_failure(endpoint: &NatsEndpoint, error: &str) -> (r: String)
    ensures
        r@ == dial_failure_text(endpoint@.display, error@),
{
    let mut text: String = owned(endpoint.display.as_str());
    text.append(": ");
    text.append(error);
    text
}

/// A configuration that can be used names a server.
proof fn lemma_some_endpoint(config: MqAdminConfig)
    ensures
        endpoints_of_config(config) matches Ok(endpoints) ==> endpoints.len() > 0,
{
    if config.connect_override is None {
        match configured_servers(config.extra@, config.admin_url@) {
            Ok(values) => law_endpoints_keep_order(values),
            Err(_) => {},
        }
    }
}

/// An operation that the adapter does not offer.
#[derive(Clone, Copy, Debug, PartialEq, Eq, Structural)]
pub enum Unsupported {
    /// Showing a tenant.
    GetTenant,
    /// Creating, changing or deleting a tenant.
    ManageTenant,
    /// Creating or deleting a namespace.
    ManageNamespace,
    /// Showing the policies of a namespace.
    NamespacePolicies,
    /// Changing the number of partitions of a topic.
    UpdatePartitions,
    /// Skipping messages of a subscription.
    SkipMessages,
    /// Moving a subscription to another position.
    ResetCursor,
    /// Dropping what waits for a subscription.
    ClearBacklog,
    /// Showing messages without consuming them.
    PeekMessages,
    /// Dropping old messages of a subscription.
    ExpireMessages,
    /// Unloading a topic.
    UnloadTopic,
    /// Limiting how fast messages come in.
    PublishRate,
    /// Limiting how fast messages go out.
    DispatchRate,
    /// Limiting how fast consumers subscribe.
    SubscribeRate,
    /// Limiting what waits to be consumed.
    BacklogQuota,
    /// Changing how long messages are kept.
    Retention,
    /// Showing the policies that apply.
    EffectivePolicies,
    /// Granting or revoking a permission.
    EditPermission,
    /// Listing permissions.
    ListPermissions,
    /// Sending a request of the caller's own making.
    RawRequest,
}

impl Unsupported {
    /// What is reported when the operation is asked for.
    pub open spec fn text(self) -> Seq<char> {
        match self {
            Unsupported::GetTenant => "NATS does not use the DBX tenant model"@,
            Unsupported::ManageTenant => "NATS tenant management is not supported"@,
            Unsupported::ManageNamespace => "NATS namespace management is not supported"@,
            Unsupported::NamespacePolicies => "NATS namespace policies are not supported"@,
            Unsupported::UpdatePartitions => "NATS JetStream streams are not partitioned"@,
            Unsupported::SkipMessages =>
                "NATS skip messages is not supported in this adapter release"@,
            Unsupported::ResetCursor =>
                "NATS consumer cursor reset is not supported in this adapter release"@,
            Unsupported::ClearBacklog =>
                "NATS consumer backlog clearing is not supported in this adapter release"@,
            Unsupported::PeekMessages =>
                "NATS message peeking is not supported in this adapter release"@,
            Unsupported::ExpireMessages =>
                "NATS consumer message expiry is not supported in this adapter release"@,
            Unsupported::UnloadTopic => "NATS stream unload is not supported"@,
            Unsupported::PublishRate => "NATS publish rate policy is not supported"@,
            Unsupported::DispatchRate => "NATS dispatch rate policy is not supported"@,
            Unsupported::SubscribeRate => "NATS subscribe rate policy is not supported"@,
            Unsupported::BacklogQuota => "NATS backlog quota policy is not supported"@,
            Unsupported::Retention =>
                "NATS retention editing is not supported in this adapter release"@,
            Unsupported::EffectivePolicies =>
                "NATS policy inspection is not supported in this adapter release"@,
            Unsupported::EditPermission => "NATS account permission editing is not supported"@,
            Unsupported::ListPermissions => "NATS account permission listing is not supported"@,
            Unsupported::RawRequest => "NATS raw admin requests are not exposed by this adapter"@,
        }
    }

    /// What is reported when the operation is asked for.
    pub fn message(self) -> (r: String)
        ensures
            r@ == self.text(),
    {
        let text: &str = match self {
            Unsupported::GetTenant => "NATS does not use the DBX tenant model",
            Unsupported::ManageTenant => "NATS tenant management is not supported",
            Unsupported::ManageNamespace => "NATS namespace management is not supported",
            Unsupported::NamespacePolicies => "NATS namespace policies are not supported",
            Unsupported::UpdatePartitions => "NATS JetStream streams are not partitioned",
            Unsupported::SkipMessages =>
                "NATS skip messages is not supported in this adapter release",
            Unsupported::ResetCursor =>
                "NATS consumer cursor reset is not supported in this adapter release",
            Unsupported::ClearBacklog =>
                "NATS consumer backlog clearing is not supported in this adapter release",
            Unsupported::PeekMessages =>
                "NATS message peeking is not supported in this adapter release",
            Unsupported::ExpireMessages =>
                "NATS consumer message expiry is not supported in this adapter release",
            Unsupported::UnloadTopic => "NATS stream unload is not supported",
            Unsupported::PublishRate => "NATS publish rate policy is not supported",
            Unsupported::DispatchRate => "NATS dispatch rate policy is not supported",
            Unsupported::SubscribeRate => "NATS subscribe rate policy is not supported",
            Unsupported::BacklogQuota => "NATS backlog quota policy is not supported",
            Unsupported::Retention =>
                "NATS retention editing is not supported in this adapter release",
            Unsupported::EffectivePolicies =>
                "NATS policy inspection is not supported in this adapter release",
            Unsupported::EditPermission => "NATS account permission editing is not supported",
            Unsupported::ListPermissions => "NATS account permission listing is not supported",
            Unsupported::RawRequest => "NATS raw admin requests are not exposed by this adapter",
        };
        owned(text)
    }
}

} // verus!
