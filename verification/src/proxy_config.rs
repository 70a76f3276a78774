//! The user's upstream proxy, as the configuration gives it.

use crate::text::{decimal, decimal_string};
use vstd::prelude::*;
use vstd::string::StringExecFns;

verus! {

/// The proxy settings of the configuration. A part that is left out takes
/// its default.
#[derive(Debug, Clone, Default, PartialEq, Eq)]
pub struct ProxySettings {
    pub enabled: bool,
    pub protocol: Option<String>,
    pub host: Option<String>,
    pub port: Option<u16>,
}

/// The port of a proxy whose settings name none.
pub const DEFAULT_PROXY_PORT: u16 = 7890;

/// The protocol of a proxy whose settings name none.
pub open spec fn default_protocol() -> Seq<char> {
    "http"@
}

/// The host of a proxy whose settings name none.
pub open spec fn default_host() -> Seq<char> {
    "127.0.0.1"@
}

impl ProxySettings {
    /// The protocol to use.
    pub open spec fn protocol_or_default(&self) -> Seq<char> {
        match self.protocol {
            Some(p) => p@,
            None => default_protocol(),
        }
    }

    /// The host to use.
    pub open spec fn host_or_default(&self) -> Seq<char> {
        match self.host {
            Some(h) => h@,
            None => default_host(),
        }
    }

    /// The port to use.
    pub open spec fn port_or_default(&self) -> u16 {
        match self.port {
            Some(p) => p,
            None => DEFAULT_PROXY_PORT,
        }
    }
}

/// The URL of the proxy at `host` and `port`, spoken to by `protocol`.
pub open spec fn proxy_url(protocol: Seq<char>, host: Seq<char>, port: u16) -> Seq<char> {
    protocol + "://"@ + host + ":"@ + decimal(port as nat)
}

/// The URL of the proxy that `settings` describe.
pub fn get_proxy_url(settings: &ProxySettings) -> (url: String)
    ensures
        url@ == proxy_url(
            settings.protocol_or_default(),
            settings.host_or_default(),
            settings.port_or_default(),
        ),
{
    let mut url = match &settings.protocol {
        Some(p) => String::from_str(p.as_str()),
        None => String::from_str("http"),
    };
    url.append("://");
    match &settings.host {
        Some(h) => url.append(h.as_str()),
        None => url.append("127.0.0.1"),
    }
    url.append(":");
    let port = match settings.port {
        Some(p) => p,
        None => DEFAULT_PROXY_PORT,
    };
    let digits = decimal_string(port as u64);
    url.append(digits.as_str());
    url
}

/// The proxy to use, given what the configuration holds: its proxy settings
/// where it has some and they are enabled, else none.
pub fn enabled_proxy(configured: Option<ProxySettings>) -> (r: Option<ProxySettings>)
    ensures
        r == match configured {
            Some(settings) => if settings.enabled {
                Some(settings)
            } else {
                None
            },
            None => None,
        },
{
    match configured {
        Some(settings) => if settings.enabled {
            Some(settings)
        } else {
            None
        },
        None => None,
    }
}

} // verus!
