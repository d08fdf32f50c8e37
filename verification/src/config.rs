//! The configuration of an admin adapter.
use vstd::prelude::*;

use crate::json::Json;

verus! {

/// A span of time: whole seconds and the nanoseconds that are left.
#[derive(Clone, Copy, Debug, PartialEq, Eq, Structural)]
pub struct Timeout {
    /// Whole seconds.
    pub secs: u64,
    /// Nanoseconds on top of them, less than a second.
    pub nanos: u32,
}

/// How long a reply is waited for where the configuration sets no limit.
pub const UNLIMITED_RPC_TIMEOUT_SECS: u64 = 3600;

/// How long a read is waited for where a connection is made with no time for it.
pub const DEFAULT_REQUEST_TIMEOUT_SECS: u64 = 30;

impl Timeout {
    /// Whether no time is left at all.
    pub open spec fn is_zero_spec(self) -> bool {
        self.secs == 0 && self.nanos == 0
    }

    /// Whether no time is left at all.
    pub fn is_zero(self) -> (r: bool)
        ensures
            r == self.is_zero_spec(),
    {
        self.secs == 0 && self.nanos == 0
    }

    /// `secs` whole seconds.
    pub fn from_secs(secs: u64) -> (r: Timeout)
        ensures
            r == (Timeout { secs, nanos: 0 }),
    {
        Timeout { secs, nanos: 0 }
    }
}

/// How a client proves who it is.
#[derive(Debug, PartialEq, Eq)]
pub enum MqAuth {
    /// Not at all.
    Anonymous,
    /// By a token.
    Token {
        /// The token.
        token: String,
    },
    /// By a user name and a password.
    Basic {
        /// The name.
        username: String,
        /// The password.
        password: String,
    },
    /// By an API key, which NATS does not know.
    ApiKey,
    /// By OAuth 2, which NATS does not know.
    OAuth2,
}

/// An address to connect to in place of the configured servers.
#[derive(Debug, PartialEq, Eq)]
pub struct ConnectOverride {
    /// Host name or address.
    pub host: String,
    /// Port.
    pub port: u16,
}

/// The configuration of an admin adapter.
#[derive(Debug, PartialEq, Eq)]
pub struct MqAdminConfig {
    /// Servers, where `extra` lists none.
    pub admin_url: String,
    /// How the client proves who it is.
    pub auth: MqAuth,
    /// An address to connect to in place of the configured servers.
    pub connect_override: Option<ConnectOverride>,
    /// A SOCKS proxy to connect through.
    pub socks_proxy: Option<String>,
    /// Whether the certificate of the server goes unchecked.
    pub tls_skip_verify: bool,
    /// How long a connection attempt may take.
    pub connect_timeout: Timeout,
    /// How long a reply is waited for.
    pub rpc_timeout: Option<Timeout>,
    /// Settings of the adapter, by name.
    pub extra: Json,
}

} // verus!
