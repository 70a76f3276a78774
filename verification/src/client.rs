//! The network-client policy that the stream and the relay share.
//!
//! A policy is plain data: the caller builds its client from it. The rules
//! are here: which timeout each use gets, and which traffic may go through
//! the user's proxy.

use crate::proxy_config::{get_proxy_url, proxy_url, ProxySettings};
use vstd::prelude::*;
use vstd::string::StringExecFns;

verus! {

/// How often the service sends a heartbeat on a stream that is otherwise
/// silent, in seconds.
pub const HEARTBEAT_INTERVAL_SECS: u64 = 15;

/// The idle timeout of a stream, in seconds: a connection on which nothing
/// has arrived for this long is dead. Four heartbeats fit in it.
pub const SSE_READ_TIMEOUT_SECS: u64 = 60;

/// The time that one relayed call may take in all, in seconds.
pub const HTTP_PROXY_TIMEOUT_SECS: u64 = 120;

/// How long an idle pooled connection is kept, in seconds.
pub const POOL_IDLE_TIMEOUT_SECS: u64 = 5;

/// How many idle connections are kept per host.
pub const POOL_MAX_IDLE_PER_HOST: usize = 2;

/// The targets that never go through a proxy: every common spelling of the
/// loopback, by name and by address.
pub open spec fn loopback_bypass() -> Seq<char> {
    "localhost,localhost.localdomain,127.0.0.1,127.0.0.0/8,::1,[::1]"@
}

/// Which way a client's traffic goes.
#[derive(Debug, Clone, PartialEq, Eq)]
pub enum ProxyRoute {
    /// Straight to the target: no proxy of any kind, the system's included.
    Direct,
    /// Through the proxy at `url`, but for the targets in `bypass`, a list
    /// separated by commas.
    Via { url: String, bypass: String },
}

/// A route, as contracts speak of it.
pub enum Route {
    Direct,
    Via { url: Seq<char>, bypass: Seq<char> },
}

impl View for ProxyRoute {
    type V = Route;

    open spec fn view(&self) -> Route {
        match self {
            ProxyRoute::Direct => Route::Direct,
            ProxyRoute::Via { url, bypass } => Route::Via { url: url@, bypass: bypass@ },
        }
    }
}

/// The timeout of a client.
#[derive(Clone, Copy, Debug, PartialEq, Eq, Structural)]
pub enum Timeout {
    /// The connection is dead when nothing arrives for this many seconds;
    /// the call as a whole may take any time.
    Idle(u64),
    /// The call as a whole must end within this many seconds.
    Total(u64),
}

/// The policy of one client.
#[derive(Debug, Clone, PartialEq, Eq)]
pub struct ClientPolicy {
    pub timeout: Timeout,
    /// Send small packets at once instead of batching them.
    pub tcp_nodelay: bool,
    /// Speak HTTP/1.1 and nothing else.
    pub http1_only: bool,
    pub pool_idle_timeout_secs: u64,
    pub pool_max_idle_per_host: usize,
    pub proxy: ProxyRoute,
}

impl ClientPolicy {
    /// What every client has in common: no batching delay, HTTP/1.1 only,
    /// and a small pool whose idle connections go soon.
    pub open spec fn is_common(&self) -> bool {
        &&& self.tcp_nodelay
        &&& self.http1_only
        &&& self.pool_idle_timeout_secs == POOL_IDLE_TIMEOUT_SECS
        &&& self.pool_max_idle_per_host == POOL_MAX_IDLE_PER_HOST
    }
}

/// The route for the user's proxy settings: through the proxy that they
/// describe, with the loopback exempt, where there are some; else direct.
pub open spec fn route_for(proxy: Option<ProxySettings>) -> Route {
    match proxy {
        Some(settings) => Route::Via {
            url: proxy_url(
                settings.protocol_or_default(),
                settings.host_or_default(),
                settings.port_or_default(),
            ),
            bypass: loopback_bypass(),
        },
        None => Route::Direct,
    }
}

/// Chooses the route for the user's proxy settings, already reduced to
/// those that are enabled.
pub fn choose_route(proxy: &Option<ProxySettings>) -> (route: ProxyRoute)
    ensures
        route@ == route_for(*proxy),
{
    match proxy {
        Some(settings) => ProxyRoute::Via {
            url: get_proxy_url(settings),
            bypass: String::from_str(
                "localhost,localhost.localdomain,127.0.0.1,127.0.0.0/8,::1,[::1]",
            ),
        },
        None => ProxyRoute::Direct,
    }
}

/// The policy of the client that holds a stream open. The stream may last
/// for any time, so only silence is timed, for at least four heartbeats.
/// The service is local: the route is direct.
pub fn stream_policy() -> (policy: ClientPolicy)
    ensures
        policy.timeout == Timeout::Idle(SSE_READ_TIMEOUT_SECS),
        SSE_READ_TIMEOUT_SECS >= 4 * HEARTBEAT_INTERVAL_SECS,
        policy.is_common(),
        policy.proxy@ == Route::Direct,
{
    ClientPolicy {
        timeout: Timeout::Idle(SSE_READ_TIMEOUT_SECS),
        tcp_nodelay: true,
        http1_only: true,
        pool_idle_timeout_secs: POOL_IDLE_TIMEOUT_SECS,
        pool_max_idle_per_host: POOL_MAX_IDLE_PER_HOST,
        proxy: ProxyRoute::Direct,
    }
}

/// The policy of the client that relays one call. The call is expected to
/// end, so its whole time is bounded, by more than a stream may be silent.
/// Traffic goes through the user's proxy where one is enabled, the loopback
/// never.
pub fn relay_policy(proxy: &Option<ProxySettings>) -> (policy: ClientPolicy)
    ensures
        policy.timeout == Timeout::Total(HTTP_PROXY_TIMEOUT_SECS),
        HTTP_PROXY_TIMEOUT_SECS > SSE_READ_TIMEOUT_SECS,
        policy.is_common(),
        policy.proxy@ == route_for(*proxy),
{
    ClientPolicy {
        timeout: Timeout::Total(HTTP_PROXY_TIMEOUT_SECS),
        tcp_nodelay: true,
        http1_only: true,
        pool_idle_timeout_secs: POOL_IDLE_TIMEOUT_SECS,
        pool_max_idle_per_host: POOL_MAX_IDLE_PER_HOST,
        proxy: choose_route(proxy),
    }
}

/// Gives `policy` the route for the user's proxy settings and leaves the
/// rest of it as it is.
pub fn with_proxy(policy: ClientPolicy, proxy: &Option<ProxySettings>) -> (r: ClientPolicy)
    ensures
        r.proxy@ == route_for(*proxy),
        r.timeout == policy.timeout,
        r.tcp_nodelay == policy.tcp_nodelay,
        r.http1_only == policy.http1_only,
        r.pool_idle_timeout_secs == policy.pool_idle_timeout_secs,
        r.pool_max_idle_per_host == policy.pool_max_idle_per_host,
{
    ClientPolicy {
        timeout: policy.timeout,
        tcp_nodelay: policy.tcp_nodelay,
        http1_only: policy.http1_only,
        pool_idle_timeout_secs: policy.pool_idle_timeout_secs,
        pool_max_idle_per_host: policy.pool_max_idle_per_host,
        proxy: choose_route(proxy),
    }
}

} // verus!
