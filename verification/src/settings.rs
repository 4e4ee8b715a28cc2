//! What the owner of the television sets.

use crate::address::{endpoint, endpoint_at, url_parsed, IpAddress, Resource};
use crate::error::{invalid_url, invalid_url_report, ClientError};
use crate::text::{decimal, decimal_text, same_text};
use vstd::prelude::*;

verus! {

/// The port of encrypted webOS control.
pub const SECURE_PORT: u16 = 3001;

/// The settings of one television.
#[derive(Debug, Default, PartialEq)]
pub struct Settings {
    /// The URL of the control socket.
    pub url: String,
}

/// Whether a URL leads to a control socket over TLS: a connection to it must be pinned to a
/// certificate.
pub open spec fn is_secure_url(url: Seq<char>) -> bool {
    match endpoint_at(url_parsed(url), Resource::Root) {
        Ok(endpoint) => endpoint.secure,
        Err(_) => false,
    }
}

/// The dotted form of an IPv4 address.
pub open spec fn dotted(n: u32) -> Seq<char> {
    decimal((n / 0x100_0000) as nat) + "."@ + decimal((n / 0x1_0000 % 0x100) as nat) + "."@
        + decimal((n / 0x100 % 0x100) as nat) + "."@ + decimal((n % 0x100) as nat)
}

/// Whether a character can stand in the text of an IPv6 address.
pub open spec fn is_ipv6_char(c: char) -> bool {
    '0' <= c <= '9' || 'a' <= c <= 'f' || 'A' <= c <= 'F' || c == ':' || c == '.'
}

/// Whether a text holds only what can stand in an IPv6 address.
pub open spec fn is_ipv6_text(text: Seq<char>) -> bool {
    forall|i: int| 0 <= i < text.len() ==> is_ipv6_char(#[trigger] text[i])
}

/// The URL of encrypted control at an IPv4 address.
pub open spec fn secure_v4_url(text: Seq<char>) -> Seq<char> {
    "wss://"@ + text + ":3001/"@
}

/// The URL of encrypted control at an IPv6 address.
pub open spec fn secure_v6_url(text: Seq<char>) -> Seq<char> {
    "wss://["@ + text + "]:3001/"@
}

/// The address that a URL leads to over TLS on the standard port, if it does so.
pub open spec fn secure_address(url: Seq<char>) -> Option<IpAddress> {
    match endpoint_at(url_parsed(url), Resource::Root) {
        Ok(endpoint) => if endpoint.secure && endpoint.port == SECURE_PORT {
            Some(endpoint.address)
        } else {
            None
        },
        Err(_) => None,
    }
}

/// Whether a text is the dotted form of an IPv4 address that the client connects to.
pub open spec fn is_v4_field(text: Seq<char>) -> bool {
    match secure_address(secure_v4_url(text)) {
        Some(IpAddress::V4(n)) => dotted(n) == text,
        _ => false,
    }
}

/// Whether a text is an IPv6 address that the client connects to.
pub open spec fn is_v6_field(text: Seq<char>) -> bool {
    match secure_address(secure_v6_url(text)) {
        Some(IpAddress::V6(_)) => is_ipv6_text(text),
        _ => false,
    }
}

/// The control URL that the setup field stands for: a root WebSocket URL stands for itself, an IP
/// address for encrypted control on the standard port.
pub open spec fn setup_url(field: Seq<char>) -> Option<Seq<char>> {
    if endpoint_at(url_parsed(field), Resource::Root) is Ok {
        Some(field)
    } else if is_v4_field(field) {
        Some(secure_v4_url(field))
    } else if is_v6_field(field) {
        Some(secure_v6_url(field))
    } else {
        None
    }
}

/// The dotted form of an IPv4 address.
pub fn dotted_text(n: u32) -> (text: String)
    ensures
        text@ == dotted(n),
{
    let mut text = decimal_text((n / 0x100_0000) as u64);
    text.append(".");
    text.append(decimal_text((n / 0x1_0000 % 0x100) as u64).as_str());
    text.append(".");
    text.append(decimal_text((n / 0x100 % 0x100) as u64).as_str());
    text.append(".");
    text.append(decimal_text((n % 0x100) as u64).as_str());
    text
}

/// Whether a text holds only what can stand in an IPv6 address.
fn ipv6_text(text: &str) -> (fits: bool)
    ensures
        fits == is_ipv6_text(text@),
{
    let mut chars = text.chars();
    let ghost mut at: int = 0;
    loop
        invariant
            0 <= at <= text@.len(),
            vstd::std_specs::iter::IteratorSpec::remaining(&chars) == text@.skip(at),
            is_ipv6_text(text@.take(at)),
        decreases text@.len() - at,
    {
        match chars.next() {
            None => {
                assert(text@.take(at) == text@);
                return true;
            },
            Some(c) => {
                if !('0' <= c && c <= '9' || 'a' <= c && c <= 'f' || 'A' <= c && c <= 'F' || c
                    == ':' || c == '.') {
                    assert(!is_ipv6_char(text@[at]));
                    return false;
                }
                proof {
                    assert(text@.take(at + 1) == text@.take(at).push(text@[at]));
                    assert(text@.skip(at).drop_first() == text@.skip(at + 1));
                    at = at + 1;
                }
            },
        }
    }
}

/// A text between two others.
fn between(before: &str, text: &str, after: &str) -> (whole: String)
    ensures
        whole@ == before@ + text@ + after@,
{
    let mut whole = before.to_owned();
    whole.append(text);
    whole.append(after);
    whole
}

/// The address that a URL leads to over TLS on the standard port, if it does so.
fn reached_securely(url: &str) -> (address: Option<IpAddress>)
    ensures
        address == secure_address(url@),
{
    match endpoint(url) {
        Ok(endpoint) => if endpoint.secure && endpoint.port == SECURE_PORT {
            Some(endpoint.address)
        } else {
            None
        },
        Err(_) => None,
    }
}

impl Clone for Settings {
    fn clone(&self) -> (copy: Settings)
        ensures
            copy == *self,
    {
        Settings { url: self.url.clone() }
    }
}

impl Settings {
    /// Whether the settings name a control socket that the client connects to.
    pub fn validate(&self) -> (valid: Result<(), ClientError>)
        ensures
            valid == match endpoint_at(url_parsed(self.url@), Resource::Root) {
                Ok(_) => Ok::<(), ClientError>(()),
                Err(_) => Err(invalid_url_report()),
            },
    {
        match endpoint(self.url.as_str()) {
            Ok(_) => Ok(()),
            Err(_) => Err(invalid_url()),
        }
    }

    /// Whether the control URL leads to a control socket over TLS.
    pub fn is_secure(&self) -> (secure: bool)
        ensures
            secure == is_secure_url(self.url@),
    {
        match endpoint(self.url.as_str()) {
            Ok(endpoint) => endpoint.secure,
            Err(_) => false,
        }
    }

    /// The settings that the setup field stands for: it takes the IP address of the television,
    /// which is reached over TLS on the standard port, or a root WebSocket URL.
    pub fn from_field(field: &str) -> (settings: Result<Settings, ClientError>)
        ensures
            match settings {
                Ok(settings) => setup_url(field@) == Some(settings.url@),
                Err(error) => setup_url(field@) is None && error == invalid_url_report(),
            },
    {
        if endpoint(field).is_ok() {
            return Ok(Settings { url: field.to_owned() });
        }
        let url = between("wss://", field, ":3001/");
        if let Some(IpAddress::V4(n)) = reached_securely(url.as_str()) {
            if same_text(dotted_text(n).as_str(), field) {
                return Ok(Settings { url });
            }
        }
        let url = between("wss://[", field, "]:3001/");
        if let Some(IpAddress::V6(_)) = reached_securely(url.as_str()) {
            if ipv6_text(field) {
                return Ok(Settings { url });
            }
        }
        Err(invalid_url())
    }
}

} // verus!
