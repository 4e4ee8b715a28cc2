//! Which addresses the client connects to.

use crate::error::Error;
use crate::text::{optional_text, same_text};
use vstd::prelude::*;

verus! {

/// An IP address, as the number that its bytes make in network order.
#[derive(Debug, Clone, Copy, PartialEq, Eq, Structural)]
pub enum IpAddress {
    V4(u32),
    V6(u128),
}

/// The host of a URL.
pub enum Host {
    Domain(String),
    V4(u32),
    V6(u128),
}

/// What the host of a URL is.
pub enum HostView {
    Domain(Seq<char>),
    Address(IpAddress),
}

/// The parts of a URL.
pub struct UrlParts {
    pub scheme: String,
    pub username: String,
    pub password: Option<String>,
    pub host: Option<Host>,
    /// The port that the URL names, or else the one that its scheme implies.
    pub port: Option<u16>,
    pub path: String,
    pub query: Option<String>,
    pub fragment: Option<String>,
}

/// What the parts of a URL are.
pub struct UrlView {
    pub scheme: Seq<char>,
    pub username: Seq<char>,
    pub password: Option<Seq<char>>,
    pub host: Option<HostView>,
    pub port: Option<u16>,
    pub path: Seq<char>,
    pub query: Option<Seq<char>>,
    pub fragment: Option<Seq<char>>,
}

impl View for UrlParts {
    type V = UrlView;

    open spec fn view(&self) -> UrlView {
        UrlView {
            scheme: self.scheme@,
            username: self.username@,
            password: optional_text(self.password),
            host: match self.host {
                Some(Host::Domain(name)) => Some(HostView::Domain(name@)),
                Some(Host::V4(n)) => Some(HostView::Address(IpAddress::V4(n))),
                Some(Host::V6(n)) => Some(HostView::Address(IpAddress::V6(n))),
                None => None,
            },
            port: self.port,
            path: self.path@,
            query: optional_text(self.query),
            fragment: optional_text(self.fragment),
        }
    }
}

/// The parts that the `url` crate finds in a text, or nothing where the text is not a URL.
pub uninterp spec fn url_parsed(raw: Seq<char>) -> Option<UrlView>;

/// Calls `url::Url::parse` and copies out what its accessors give: `scheme`, `username`,
/// `password`, `host`, `port_or_known_default`, `path`, `query` and `fragment`. The parts depend
/// on the text alone.
#[verifier::external_body]
fn url_parts(raw: &str) -> (parts: Option<UrlParts>)
    ensures
        match parts {
            Some(parts) => url_parsed(raw@) == Some(parts@),
            None => url_parsed(raw@) is None,
        },
{
    let url = url::Url::parse(raw).ok()?;
    Some(UrlParts {
        scheme: url.scheme().into(),
        username: url.username().into(),
        password: url.password().map(String::from),
        host: url.host().map(|host| match host {
            url::Host::Domain(name) => Host::Domain(name.into()),
            url::Host::Ipv4(ip) => Host::V4(ip.into()),
            url::Host::Ipv6(ip) => Host::V6(ip.into()),
        }),
        port: url.port_or_known_default(),
        path: url.path().into(),
        query: url.query().map(String::from),
        fragment: url.fragment().map(String::from),
    })
}

impl IpAddress {
    /// Whether the address is the one that means no address.
    pub open spec fn spec_is_unspecified(self) -> bool {
        match self {
            IpAddress::V4(n) => n == 0,
            IpAddress::V6(n) => n == 0,
        }
    }

    /// Whether the address means a group: 224.0.0.0/4, or ff00::/8.
    pub open spec fn spec_is_multicast(self) -> bool {
        match self {
            IpAddress::V4(n) => 0xe000_0000 <= n <= 0xefff_ffff,
            IpAddress::V6(n) => n >= 0xff00_0000_0000_0000_0000_0000_0000_0000,
        }
    }

    /// Whether the address is the one that means no address.
    #[verifier::when_used_as_spec(spec_is_unspecified)]
    pub fn is_unspecified(self) -> (unspecified: bool)
        ensures
            unspecified == self.spec_is_unspecified(),
    {
        match self {
            IpAddress::V4(n) => n == 0,
            IpAddress::V6(n) => n == 0,
        }
    }

    /// Whether the address means a group: 224.0.0.0/4, or ff00::/8.
    #[verifier::when_used_as_spec(spec_is_multicast)]
    pub fn is_multicast(self) -> (multicast: bool)
        ensures
            multicast == self.spec_is_multicast(),
    {
        match self {
            IpAddress::V4(n) => 0xe000_0000 <= n && n <= 0xefff_ffff,
            IpAddress::V6(n) => n >= 0xff00_0000_0000_0000_0000_0000_0000_0000,
        }
    }
}

/// Where a WebSocket is opened, and whether over TLS.
#[derive(Debug, Clone, Copy, PartialEq, Eq, Structural)]
pub struct Endpoint {
    pub secure: bool,
    pub address: IpAddress,
    pub port: u16,
}

/// What an address may name beyond the television itself.
#[derive(Debug, Clone, Copy, PartialEq, Eq, Structural)]
pub enum Resource {
    /// Only the root: the control socket.
    Root,
    /// Any path and query: the pointer socket.
    Any,
}

impl UrlView {
    /// Whether the URL names a WebSocket at a unicast IP address, without credentials or fragment.
    pub open spec fn is_websocket(self) -> bool {
        &&& self.scheme == "ws"@ || self.scheme == "wss"@
        &&& self.username.len() == 0
        &&& self.password is None
        &&& self.fragment is None
        &&& self.host matches Some(HostView::Address(address)) && !address.is_unspecified()
            && !address.is_multicast()
        &&& self.port matches Some(port) && port != 0
    }

    /// Whether the URL stays within the resources that are allowed.
    pub open spec fn names(self, resource: Resource) -> bool {
        resource == Resource::Root ==> self.path == "/"@ && self.query is None
    }

    /// Where the URL leads.
    pub open spec fn endpoint(self) -> Endpoint {
        Endpoint {
            secure: self.scheme == "wss"@,
            address: self.host->Some_0->Address_0,
            port: self.port->Some_0,
        }
    }
}

/// The endpoint that a parsed URL leads to, if it is one that the client connects to.
pub open spec fn endpoint_at(url: Option<UrlView>, resource: Resource) -> Result<Endpoint, Error> {
    match url {
        Some(url) => if url.is_websocket() && url.names(resource) {
            Ok(url.endpoint())
        } else {
            Err(Error::Configuration)
        },
        None => Err(Error::Configuration),
    }
}

/// The endpoint that a parsed URL leads to, if it is one that the client connects to.
pub fn checked_endpoint(url: Option<UrlParts>, resource: Resource) -> (endpoint: Result<
    Endpoint,
    Error,
>)
    ensures
        endpoint == endpoint_at(
            match url {
                Some(url) => Some(url@),
                None => None,
            },
            resource,
        ),
{
    let url = match url {
        Some(url) => url,
        None => {
            return Err(Error::Configuration);
        },
    };
    let secure = same_text(url.scheme.as_str(), "wss");
    proof {
        reveal_strlit("ws");
        reveal_strlit("wss");
        assert("ws"@.len() != "wss"@.len());
    }
    if !(secure || same_text(url.scheme.as_str(), "ws")) || !url.username.as_str().is_empty()
        || url.password.is_some() || url.fragment.is_some() {
        return Err(Error::Configuration);
    }
    if resource == Resource::Root && (!same_text(url.path.as_str(), "/") || url.query.is_some()) {
        return Err(Error::Configuration);
    }
    let address = match url.host {
        Some(Host::V4(n)) => IpAddress::V4(n),
        Some(Host::V6(n)) => IpAddress::V6(n),
        _ => {
            return Err(Error::Configuration);
        },
    };
    if address.is_unspecified() || address.is_multicast() {
        return Err(Error::Configuration);
    }
    match url.port {
        Some(port) => if port == 0 {
            Err(Error::Configuration)
        } else {
            Ok(Endpoint { secure, address, port })
        },
        None => Err(Error::Configuration),
    }
}

/// The endpoint of a control socket: a WebSocket URL of a unicast IP address and nothing else.
pub fn endpoint(raw: &str) -> (endpoint: Result<Endpoint, Error>)
    ensures
        endpoint == endpoint_at(url_parsed(raw@), Resource::Root),
{
    checked_endpoint(url_parts(raw), Resource::Root)
}

/// The endpoint of a pointer socket: as for a control socket, with any path and query.
pub fn pointer_endpoint(raw: &str) -> (endpoint: Result<Endpoint, Error>)
    ensures
        endpoint == endpoint_at(url_parsed(raw@), Resource::Any),
{
    checked_endpoint(url_parts(raw), Resource::Any)
}

} // verus!
