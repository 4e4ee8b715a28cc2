//! What the calls that come before a connection give: the check of an address, the settings, the
//! credential, and the opening of a connection. Each law speaks of calls: of what was handed in and
//! what came back.

use crate::address::{
    checked_endpoint, endpoint, pointer_endpoint, url_parsed, Endpoint, Host, HostView, IpAddress,
    Resource, UrlParts,
};
use crate::credential::{base64_decoded, certificate_fits, key_fits, Credential, WebOsCredential};
use crate::error::{invalid_url, ClientError, Error};
use crate::json::Json;
use crate::message::registration;
use crate::settings::{dotted_text, Settings};
use crate::text::{byte_len, decimal, decimal_text, digit, label, without_control};
use crate::tv::{Opening, WebOsTv};
use vstd::prelude::*;
use vstd::utf8::*;

verus! {

/// The IP address that a host is, if it is one.
pub open spec fn ip_of(host: Option<Host>) -> Option<IpAddress> {
    match host {
        Some(Host::V4(n)) => Some(IpAddress::V4(n)),
        Some(Host::V6(n)) => Some(IpAddress::V6(n)),
        _ => None,
    }
}

/// Whether an address is neither 0.0.0.0 nor ::, and neither in 224.0.0.0/4 nor in ff00::/8.
pub open spec fn unicast(address: IpAddress) -> bool {
    match address {
        IpAddress::V4(n) => 0 < n < 0xe000_0000 || 0xf000_0000 <= n,
        IpAddress::V6(n) => 0 < n < 0xff00_0000_0000_0000_0000_0000_0000_0000,
    }
}

/// A URL is accepted exactly where its scheme is `ws` or `wss`, it holds no user name, password or
/// fragment, its host is a unicast IP address, its port is not zero and, for a control socket, it
/// has the root path and no query. It then leads to exactly that address and port, over TLS exactly
/// where the scheme is `wss`.
pub proof fn the_address_check_is_complete(
    parts: UrlParts,
    resource: Resource,
    checked: Result<Endpoint, Error>,
)
    requires
        call_ensures(checked_endpoint, (Some(parts), resource), checked),
    ensures
        checked is Ok <==> {
            &&& parts.scheme@ == "ws"@ || parts.scheme@ == "wss"@
            &&& parts.username@.len() == 0
            &&& parts.password is None
            &&& parts.fragment is None
            &&& ip_of(parts.host) is Some
            &&& unicast(ip_of(parts.host)->Some_0)
            &&& parts.port is Some
            &&& parts.port->Some_0 != 0
            &&& resource is Any || parts.path@ == "/"@ && parts.query is None
        },
        checked matches Ok(endpoint) ==> {
            &&& endpoint.secure <==> parts.scheme@ == "wss"@
            &&& ip_of(parts.host) == Some(endpoint.address)
            &&& parts.port == Some(endpoint.port)
        },
        checked matches Err(error) ==> error == Error::Configuration,
{
}

/// What is no URL is refused.
pub proof fn no_url_is_no_address(resource: Resource, checked: Result<Endpoint, Error>)
    requires
        call_ensures(checked_endpoint, (None::<UrlParts>, resource), checked),
    ensures
        checked == Err::<Endpoint, Error>(Error::Configuration),
{
}

/// A text leads where the check of the parts of its URL says: for a control socket to the root
/// only, for a pointer socket with any path and query. A text that is no URL is refused.
pub proof fn texts_lead_where_their_parts_do(
    raw: &str,
    parts: UrlParts,
    control: Result<Endpoint, Error>,
    pointer: Result<Endpoint, Error>,
    checked_root: Result<Endpoint, Error>,
    checked_any: Result<Endpoint, Error>,
)
    requires
        call_ensures(endpoint, (raw,), control),
        call_ensures(pointer_endpoint, (raw,), pointer),
        call_ensures(checked_endpoint, (Some(parts), Resource::Root), checked_root),
        call_ensures(checked_endpoint, (Some(parts), Resource::Any), checked_any),
    ensures
        url_parsed(raw@) == Some(parts@) ==> control == checked_root && pointer == checked_any,
        url_parsed(raw@) is None ==> control == Err::<Endpoint, Error>(Error::Configuration)
            && pointer == Err::<Endpoint, Error>(Error::Configuration),
{
}

/// The parts of a URL mean what they hold.
pub proof fn parts_mean_what_they_hold(parts: UrlParts)
    ensures
        parts@.scheme == parts.scheme@,
        parts@.username == parts.username@,
        parts@.path == parts.path@,
        parts@.port == parts.port,
        parts.password is None <==> parts@.password is None,
        parts.password matches Some(text) ==> parts@.password == Some(text@),
        parts.query is None <==> parts@.query is None,
        parts.query matches Some(text) ==> parts@.query == Some(text@),
        parts.fragment is None <==> parts@.fragment is None,
        parts.fragment matches Some(text) ==> parts@.fragment == Some(text@),
        parts.host is None <==> parts@.host is None,
        parts.host matches Some(Host::Domain(name)) ==> parts@.host == Some(HostView::Domain(name@)),
        ip_of(parts.host) matches Some(address) ==> parts@.host == Some(HostView::Address(address)),
{
}

/// The report on a setting that is not valid names the field `url` and shows how an address looks.
pub open spec fn blames_the_url(error: ClientError) -> bool {
    error matches ClientError::InvalidSetting { field, text } && field@ == "url"@ && text@
        == "Enter a complete LG TV address such as wss://192.0.2.20:3001/"@
}

/// Settings are valid exactly where their URL leads to a control socket, and secure exactly where
/// it does so over TLS.
pub proof fn settings_are_judged_by_their_url(
    settings: Settings,
    url: &str,
    control: Result<Endpoint, Error>,
    valid: Result<(), ClientError>,
    secure: bool,
)
    requires
        url@ == settings.url@,
        call_ensures(endpoint, (url,), control),
        call_ensures(Settings::validate, (&settings,), valid),
        call_ensures(Settings::is_secure, (&settings,), secure),
    ensures
        valid is Ok <==> control is Ok,
        valid matches Err(error) ==> blames_the_url(error),
        secure <==> (control matches Ok(endpoint) && endpoint.secure),
{
}

/// The setup field stands for itself where it is the URL of a control socket. Else it is an IPv4
/// address in dotted form, or an IPv6 address in digits, colons and dots, and stands for encrypted
/// control of that address on port 3001. Anything else is refused.
pub proof fn the_setup_field_is_a_url_or_an_address(
    field: &str,
    v4: &str,
    v6: &str,
    itself: Result<Endpoint, Error>,
    at_v4: Result<Endpoint, Error>,
    at_v6: Result<Endpoint, Error>,
    n: u32,
    form: String,
    n6: u128,
    settings: Result<Settings, ClientError>,
)
    requires
        v4@ == "wss://"@ + field@ + ":3001/"@,
        v6@ == "wss://["@ + field@ + "]:3001/"@,
        call_ensures(endpoint, (field,), itself),
        call_ensures(endpoint, (v4,), at_v4),
        call_ensures(endpoint, (v6,), at_v6),
        call_ensures(dotted_text, (n,), form),
        call_ensures(Settings::from_field, (field,), settings),
    ensures
        itself is Ok ==> (settings matches Ok(settings) && settings.url@ == field@),
        itself is Err && form@ == field@ && at_v4 == Ok::<Endpoint, Error>(
            Endpoint { secure: true, address: IpAddress::V4(n), port: 3001 },
        ) ==> (settings matches Ok(settings) && settings.url@ == v4@),
        itself is Err && !(at_v4 matches Ok(endpoint) && endpoint.address is V4
            && endpoint.address != IpAddress::V4(n)) && form@ != field@ && at_v6 == Ok::<
            Endpoint,
            Error,
        >(Endpoint { secure: true, address: IpAddress::V6(n6), port: 3001 }) && (forall|i: int|
            0 <= i < field@.len() ==> {
                let c = #[trigger] field@[i];
                '0' <= c <= '9' || 'a' <= c <= 'f' || 'A' <= c <= 'F' || c == ':' || c == '.'
            }) ==> (settings matches Ok(settings) && settings.url@ == v6@),
        settings matches Ok(settings) ==> {
            ||| itself is Ok && settings.url@ == field@
            ||| settings.url@ == v4@ && (at_v4 matches Ok(endpoint) && endpoint.secure
                && endpoint.port == 3001 && endpoint.address is V4)
            ||| settings.url@ == v6@ && (at_v6 matches Ok(endpoint) && endpoint.secure
                && endpoint.port == 3001 && endpoint.address is V6) && (forall|i: int|
                0 <= i < field@.len() ==> {
                    let c = #[trigger] field@[i];
                    '0' <= c <= '9' || 'a' <= c <= 'f' || 'A' <= c <= 'F' || c == ':' || c == '.'
                })
        },
        itself is Err && settings is Ok && settings->Ok_0.url@ == v4@ && (at_v4 matches Ok(endpoint)
            && endpoint.address == IpAddress::V4(n)) ==> form@ == field@,
        settings matches Err(error) ==> blames_the_url(error),
{
    reveal_strlit("wss://");
    reveal_strlit("wss://[");
    reveal_strlit(":3001/");
    reveal_strlit("]:3001/");
    assert(v4@.len() == field@.len() + 12 && v6@.len() == field@.len() + 14);
}

/// The dotted form of an address is its four bytes, from the first to the last.
pub proof fn addresses_are_dotted_byte_by_byte(a: u32, b: u32, c: u32, d: u32, n: u32, form: String)
    requires
        a < 256,
        b < 256,
        c < 256,
        d < 256,
        n == a * 0x100_0000 + b * 0x1_0000 + c * 0x100 + d,
        call_ensures(dotted_text, (n,), form),
    ensures
        form@ == decimal(a as nat) + "."@ + decimal(b as nat) + "."@ + decimal(c as nat) + "."@
            + decimal(d as nat),
{
    assert(n / 0x100_0000 == a && n / 0x1_0000 % 0x100 == b && n / 0x100 % 0x100 == c && n % 0x100
        == d) by (bit_vector)
        requires
            a < 256,
            b < 256,
            c < 256,
            d < 256,
            n == a * 0x100_0000 + b * 0x1_0000 + c * 0x100 + d,
    ;
}

/// The number that a row of decimal digits means.
pub open spec fn numeral_value(text: Seq<char>) -> int
    decreases text.len(),
{
    if text.len() == 0 {
        0
    } else {
        numeral_value(text.drop_last()) * 10 + (text.last() as int - '0' as int)
    }
}

/// A numeral holds digits only, means its number, and starts with a zero only where it is zero.
pub proof fn numerals_mean_their_numbers(n: nat)
    ensures
        numeral_value(decimal(n)) == n,
        decimal(n).len() > 0,
        forall|i: int| 0 <= i < decimal(n).len() ==> '0' <= #[trigger] decimal(n)[i] <= '9',
        n > 0 ==> decimal(n)[0] != '0',
    decreases n,
{
    let last = n % 10;
    assert(digit(last) as int == '0' as int + last);
    if n < 10 {
        assert(decimal(n).drop_last() == Seq::<char>::empty());
        assert(numeral_value(decimal(n).drop_last()) == 0);
        assert(decimal(n).last() == digit(n));
    } else {
        numerals_mean_their_numbers(n / 10);
        assert(decimal(n).drop_last() == decimal(n / 10));
        assert(decimal(n).last() == digit(last));
        assert(decimal(n)[0] == decimal(n / 10)[0]);
    }
}

/// The text of a number is its numeral.
pub proof fn numbers_are_written_in_decimal(n: u64, text: String)
    requires
        call_ensures(decimal_text, (n,), text),
    ensures
        numeral_value(text@) == n,
        text@ == decimal(n as nat),
{
    numerals_mean_their_numbers(n as nat);
}

/// Whether a character is a control code.
pub open spec fn control_code(c: char) -> bool {
    (c as u32) < 0x20 || 0x7f <= (c as u32) < 0xa0
}

/// A text can be shown exactly where it is not empty, stays within the limit in bytes of UTF-8 and
/// holds no control code.
pub proof fn texts_are_measured_and_searched(
    text: &str,
    limit: usize,
    len: usize,
    clean: bool,
    fits: bool,
)
    requires
        call_ensures(byte_len, (text,), len),
        call_ensures(without_control, (text,), clean),
        call_ensures(label, (text, limit), fits),
    ensures
        len == encode_utf8(text@).len(),
        clean <==> forall|i: int| 0 <= i < text@.len() ==> !control_code(#[trigger] text@[i]),
        fits <==> text@.len() > 0 && len <= limit && clean,
{
    if clean {
        assert forall|i: int| 0 <= i < text@.len() implies !control_code(#[trigger] text@[i]) by {}
    }
}

/// Whether a text is a client key: one to 4096 bytes of UTF-8.
pub open spec fn can_be_a_key(text: Seq<char>) -> bool {
    text.len() > 0 && encode_utf8(text).len() <= 4096
}

/// A key and a certificate make a credential exactly where the key has one to 4096 bytes and, over
/// TLS, the certificate is not empty; the credential holds exactly these. A key that cannot be used
/// calls for pairing, before the certificate is looked at.
pub proof fn every_key_and_certificate_is_taken(
    client_key: Option<&str>,
    certificate: Option<Vec<u8>>,
    secure: bool,
    parsed: Result<WebOsCredential, Error>,
)
    requires
        call_ensures(WebOsCredential::from_parts, (client_key, certificate, secure), parsed),
    ensures
        parsed is Ok <==> {
            &&& client_key is Some
            &&& can_be_a_key(client_key->Some_0@)
            &&& certificate is Some
            &&& secure ==> certificate->Some_0@.len() > 0
        },
        parsed matches Ok(held) ==> held.key@ == client_key->Some_0@ && held.certificate@
            == certificate->Some_0@,
        parsed matches Err(error) ==> error == if client_key is Some && can_be_a_key(
            client_key->Some_0@,
        ) {
            Error::Certificate
        } else {
            Error::Unpaired
        },
{
}

/// A stored credential is read by its two entries: the key as it stands, the certificate from
/// Base64. What the two then make is as for a key and a certificate at hand.
pub proof fn credentials_are_read_by_their_entries(
    credential: Credential,
    client_key: Option<&str>,
    certificate: Option<Vec<u8>>,
    secure: bool,
    from_parts: Result<WebOsCredential, Error>,
    parsed: Result<WebOsCredential, Error>,
)
    requires
        client_key is Some <==> credential.client_key is Some,
        client_key matches Some(key) ==> key@ == credential.client_key->Some_0@,
        certificate is Some <==> (credential.certificate matches Some(text) && base64_decoded(
            text@,
        ) is Some),
        certificate matches Some(bytes) ==> base64_decoded(credential.certificate->Some_0@) == Some(
            bytes@,
        ),
        call_ensures(WebOsCredential::from_parts, (client_key, certificate, secure), from_parts),
        call_ensures(WebOsCredential::parse, (&credential, secure), parsed),
    ensures
        parsed is Ok <==> from_parts is Ok,
        parsed matches Ok(held) ==> held.key@ == from_parts->Ok_0.key@ && held.certificate@
            == from_parts->Ok_0.certificate@,
        parsed matches Err(error) ==> from_parts->Err_0 == error,
{
}

/// What is kept of a key and a certificate is read back as exactly these, wherever the key and the
/// certificate can be used at all. Every certificate whose Base64 text can be held is taken.
pub proof fn credentials_are_read_back(
    held: WebOsCredential,
    credential: Credential,
    secure: bool,
    parsed: Result<WebOsCredential, Error>,
)
    requires
        call_ensures(WebOsCredential::credential, (&held,), credential),
        call_ensures(WebOsCredential::parse, (&credential, secure), parsed),
    ensures
        credential.client_key matches Some(key) && key@ == held.key@,
        credential.certificate matches Some(text) && base64_decoded(text@) == Some(
            held.certificate@,
        ),
        can_be_a_key(held.key@) && (secure ==> held.certificate@.len() > 0) ==> (parsed matches Ok(
            back,
        ) && back.key@ == held.key@ && back.certificate@ == held.certificate@),
        secure && held.certificate@.len() == 0 ==> parsed is Err,
{
}

/// Every certificate whose Base64 text, four characters for each three bytes begun, is no longer
/// than an allocation can be, can be kept.
pub proof fn certificates_of_any_length_are_kept(held: WebOsCredential, len: usize, fits: bool)
    requires
        call_ensures(certificate_fits, (len,), fits),
    ensures
        fits <==> 4 * ((len + 2) / 3) <= isize::MAX,
        4 * ((held.certificate@.len() + 2) / 3) <= isize::MAX ==> call_requires(
            WebOsCredential::credential,
            (&held,),
        ),
{
}

/// A key fits exactly where it has one to 4096 bytes.
pub proof fn keys_fit_by_their_bytes(text: &str, fits: bool)
    requires
        call_ensures(key_fits, (text,), fits),
    ensures
        fits <==> can_be_a_key(text@),
{
}

/// A copy of a credential holds what the credential holds, and a log shows nothing of one.
pub proof fn credentials_are_copied_and_not_shown(
    held: WebOsCredential,
    copy: WebOsCredential,
    credential: Credential,
    shown: &'static str,
)
    requires
        call_ensures(WebOsCredential::clone, (&held,), copy),
        call_ensures(Credential::redacted, (&credential,), shown),
    ensures
        copy.key@ == held.key@,
        copy.certificate@ == held.certificate@,
        shown@ == "Credential(..)"@,
{
}

/// Without a credential no connection is made.
pub proof fn connections_need_a_credential(
    settings: Settings,
    tv: Result<WebOsTv, ClientError>,
    opening: Result<(Opening, WebOsCredential), ClientError>,
)
    requires
        call_ensures(WebOsTv::connect, (&settings,), tv),
        call_ensures(WebOsTv::connect_with, (&settings, None::<&Credential>), opening),
    ensures
        tv matches Err(error) && error == ClientError::Unpaired,
        opening is Err,
{
}

/// A valid URL and a usable credential always open a connection: at the endpoint of the URL, with
/// the registration that sends the key, and pinned to the certificate. An invalid URL is blamed
/// first, then a credential that is missing or cannot be used calls for pairing.
pub proof fn connections_open_with_url_and_credential(
    settings: Settings,
    url: &str,
    control: Result<Endpoint, Error>,
    credential: Credential,
    parsed: Result<WebOsCredential, Error>,
    key: &str,
    message: Json,
    opening: Result<(Opening, WebOsCredential), ClientError>,
    bare: Result<(Opening, WebOsCredential), ClientError>,
)
    requires
        url@ == settings.url@,
        call_ensures(endpoint, (url,), control),
        control matches Ok(endpoint) ==> call_ensures(
            WebOsCredential::parse,
            (&credential, endpoint.secure),
            parsed,
        ),
        parsed matches Ok(held) ==> key@ == held.key@,
        call_ensures(registration, (Some(key),), message),
        call_ensures(WebOsTv::connect_with, (&settings, Some(&credential)), opening),
        call_ensures(WebOsTv::connect_with, (&settings, None::<&Credential>), bare),
    ensures
        control is Err ==> (opening matches Err(error) && blames_the_url(error)) && (bare matches Err(
            error,
        ) && blames_the_url(error)),
        control is Ok ==> (bare matches Err(error) && error == ClientError::Unpaired),
        control is Ok && parsed is Err ==> (opening matches Err(error) && error
            == ClientError::Unpaired),
        control is Ok && parsed is Ok ==> (opening matches Ok((opened, held)) && opened.endpoint
            == control->Ok_0 && opened.registration@ == message@ && held.key@ == parsed->Ok_0.key@
            && held.certificate@ == parsed->Ok_0.certificate@),
{
}

/// A valid URL always opens a pairing: at the endpoint of the URL, with the registration that sends
/// no key. An invalid URL is blamed.
pub proof fn pairings_open_with_the_url(
    settings: Settings,
    url: &str,
    control: Result<Endpoint, Error>,
    message: Json,
    opening: Result<Opening, ClientError>,
)
    requires
        url@ == settings.url@,
        call_ensures(endpoint, (url,), control),
        call_ensures(registration, (None::<&str>,), message),
        call_ensures(WebOsTv::pair_start, (&settings,), opening),
    ensures
        control matches Ok(endpoint) ==> (opening matches Ok(opened) && opened.endpoint == endpoint
            && opened.registration@ == message@),
        control is Err ==> (opening matches Err(error) && blames_the_url(error)),
{
}

/// The report on an invalid URL names the field and shows how an address looks.
pub proof fn invalid_urls_are_explained(report: ClientError)
    requires
        call_ensures(invalid_url, (), report),
    ensures
        blames_the_url(report),
{
}

} // verus!
