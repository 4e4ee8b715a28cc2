//! The client key and the pinned certificate that pairing yields.

use crate::error::Error;
use crate::text::{byte_len, optional_text, utf8_len};
use base64::Engine;
use vstd::prelude::*;

verus! {

/// How many bytes a client key may take.
pub const KEY_LIMIT: usize = 4096;

/// What the host keeps for the client between connections: each entry as the text that is held
/// under its name, where one is.
pub struct Credential {
    /// The entry `client_key`.
    pub client_key: Option<String>,
    /// The entry `certificate`, in Base64.
    pub certificate: Option<String>,
}

/// What a credential holds.
pub struct CredentialView {
    pub client_key: Option<Seq<char>>,
    pub certificate: Option<Seq<char>>,
}

impl View for Credential {
    type V = CredentialView;

    open spec fn view(&self) -> CredentialView {
        CredentialView {
            client_key: optional_text(self.client_key),
            certificate: optional_text(self.certificate),
        }
    }
}

impl Credential {
    /// How a credential shows in a log: nothing of what it holds.
    pub fn redacted(&self) -> (text: &'static str)
        ensures
            text == "Credential(..)",
    {
        "Credential(..)"
    }
}

/// A client key and the certificate that the television showed when it was paired.
pub struct WebOsCredential {
    pub key: String,
    pub certificate: Vec<u8>,
}

/// What a client key and a certificate are.
pub struct WebOsCredentialView {
    pub key: Seq<char>,
    pub certificate: Seq<u8>,
}

impl View for WebOsCredential {
    type V = WebOsCredentialView;

    open spec fn view(&self) -> WebOsCredentialView {
        WebOsCredentialView { key: self.key@, certificate: self.certificate@ }
    }
}

impl Clone for WebOsCredential {
    fn clone(&self) -> (copy: WebOsCredential)
        ensures
            copy@ == self@,
    {
        WebOsCredential { key: self.key.clone(), certificate: self.certificate.clone() }
    }
}

/// The standard Base64 text, with padding, of some bytes.
pub uninterp spec fn base64_encoded(bytes: Seq<u8>) -> Seq<char>;

/// The bytes that a standard Base64 text with canonical padding stands for, if it is one.
pub uninterp spec fn base64_decoded(text: Seq<char>) -> Option<Seq<u8>>;

/// Whether the Base64 text of so many bytes, four characters for each three bytes begun, can be
/// held in memory.
pub open spec fn encodable(len: nat) -> bool {
    (len + 2) / 3 * 4 <= isize::MAX
}

/// Whether a certificate of so many bytes can be kept in a credential.
pub fn certificate_fits(len: usize) -> (fits: bool)
    ensures
        fits == encodable(len as nat),
{
    let groups: u128 = (len as u128 + 2) / 3;
    groups * 4 <= isize::MAX as u128
}

/// Calls `encode` of `base64::engine::general_purpose::STANDARD`. The text depends on the bytes
/// alone, and decoding it gives the bytes back. The call panics where the text is longer than an
/// allocation can be.
#[verifier::external_body]
fn base64_encode(bytes: &Vec<u8>) -> (text: String)
    requires
        encodable(bytes@.len()),
    ensures
        text@ == base64_encoded(bytes@),
        base64_decoded(text@) == Some(bytes@),
{
    base64::engine::general_purpose::STANDARD.encode(bytes)
}

/// Calls `decode` of `base64::engine::general_purpose::STANDARD`. What it gives depends on the
/// text alone; where the text is not standard Base64 it gives an error, which is dropped.
#[verifier::external_body]
fn base64_decode(text: &str) -> (bytes: Option<Vec<u8>>)
    ensures
        match bytes {
            Some(bytes) => base64_decoded(text@) == Some(bytes@),
            None => base64_decoded(text@) is None,
        },
{
    base64::engine::general_purpose::STANDARD.decode(text).ok()
}

/// Whether a text can be a client key.
pub open spec fn is_key(text: Seq<char>) -> bool {
    0 < text.len() && utf8_len(text) <= KEY_LIMIT
}

/// Whether a text can be a client key.
pub fn key_fits(text: &str) -> (fits: bool)
    ensures
        fits == is_key(text@),
{
    !text.is_empty() && byte_len(text) <= KEY_LIMIT
}

/// What stands in a credential, given what its `certificate` entry decodes to. A connection over
/// TLS needs a certificate that is not empty.
pub open spec fn credential_contents(
    client_key: Option<Seq<char>>,
    certificate: Option<Seq<u8>>,
    secure: bool,
) -> Result<WebOsCredentialView, Error> {
    match client_key {
        Some(key) => if !is_key(key) {
            Err(Error::Unpaired)
        } else {
            match certificate {
                Some(certificate) => if secure && certificate.len() == 0 {
                    Err(Error::Certificate)
                } else {
                    Ok(WebOsCredentialView { key, certificate })
                },
                None => Err(Error::Certificate),
            }
        },
        None => Err(Error::Unpaired),
    }
}

/// What stands in a credential.
pub open spec fn credential_parsed(credential: CredentialView, secure: bool) -> Result<
    WebOsCredentialView,
    Error,
> {
    credential_contents(
        credential.client_key,
        match credential.certificate {
            Some(text) => base64_decoded(text),
            None => None,
        },
        secure,
    )
}

impl WebOsCredential {
    /// What stands in a credential, given what its `certificate` entry decodes to.
    pub fn from_parts(
        client_key: Option<&str>,
        certificate: Option<Vec<u8>>,
        secure: bool,
    ) -> (parsed: Result<WebOsCredential, Error>)
        ensures
            ({
                let contents = credential_contents(
                    match client_key {
                        Some(key) => Some(key@),
                        None => None,
                    },
                    match certificate {
                        Some(certificate) => Some(certificate@),
                        None => None,
                    },
                    secure,
                );
                match parsed {
                    Ok(parsed) => contents == Ok::<_, Error>(parsed@),
                    Err(error) => contents == Err::<WebOsCredentialView, _>(error),
                }
            }),
    {
        let key = match client_key {
            Some(key) => key,
            None => {
                return Err(Error::Unpaired);
            },
        };
        if !key_fits(key) {
            return Err(Error::Unpaired);
        }
        let certificate = match certificate {
            Some(certificate) => certificate,
            None => {
                return Err(Error::Certificate);
            },
        };
        if secure && certificate.len() == 0 {
            return Err(Error::Certificate);
        }
        Ok(WebOsCredential { key: key.to_owned(), certificate })
    }

    /// What stands in a credential. One for a connection over TLS holds a certificate.
    pub fn parse(credential: &Credential, secure: bool) -> (parsed: Result<WebOsCredential, Error>)
        ensures
            match parsed {
                Ok(parsed) => credential_parsed(credential@, secure) == Ok::<_, Error>(parsed@),
                Err(error) => credential_parsed(credential@, secure) == Err::<
                    WebOsCredentialView,
                    _,
                >(error),
            },
    {
        let key = match &credential.client_key {
            Some(key) => Some(key.as_str()),
            None => None,
        };
        let certificate = match &credential.certificate {
            Some(text) => base64_decode(text.as_str()),
            None => None,
        };
        Self::from_parts(key, certificate, secure)
    }

    /// The credential that the host keeps. Parsing it gives the key and the certificate back.
    pub fn credential(&self) -> (credential: Credential)
        requires
            encodable(self.certificate@.len()),
        ensures
            credential@ == (CredentialView {
                client_key: Some(self.key@),
                certificate: Some(base64_encoded(self.certificate@)),
            }),
            base64_decoded(base64_encoded(self.certificate@)) == Some(self.certificate@),
            forall|secure: bool|
                is_key(self.key@) && (secure ==> self.certificate@.len() > 0)
                    ==> #[trigger] credential_parsed(credential@, secure) == Ok::<_, Error>(self@),
    {
        Credential {
            client_key: Some(self.key.clone()),
            certificate: Some(base64_encode(&self.certificate)),
        }
    }
}

} // verus!
