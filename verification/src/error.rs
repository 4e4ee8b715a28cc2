//! What can go wrong between the client and the television.

use vstd::prelude::*;

verus! {

/// What went wrong in one exchange.
#[derive(Debug, Clone, Copy, PartialEq, Eq, Structural)]
pub enum Error {
    /// The address is not one that the client connects to.
    Configuration,
    /// The connection failed.
    Transport,
    /// The television sent what the client cannot use.
    Protocol,
    /// Nothing came in time.
    Timeout,
    /// The television does not know the client key.
    Unpaired,
    /// The television refused.
    Rejected,
    /// The pinned certificate is missing or unreadable.
    Certificate,
}

/// What the client reports to its host.
#[derive(Debug, Clone, Copy, PartialEq, Eq)]
pub enum ClientError {
    /// A setting is not valid.
    InvalidSetting { field: &'static str, text: &'static str },
    Transport,
    Protocol,
    Timeout,
    Unpaired,
    Rejected,
    /// The function is not one that the client offers.
    Unsupported,
}

/// The report on an address that is not valid.
pub open spec fn invalid_url_report() -> ClientError {
    ClientError::InvalidSetting {
        field: "url",
        text: "Enter a complete LG TV address such as wss://192.0.2.20:3001/",
    }
}

/// How an error is reported: a certificate that cannot be used calls for pairing again, as an
/// unknown client key does.
pub open spec fn reported(error: Error) -> ClientError {
    match error {
        Error::Configuration => invalid_url_report(),
        Error::Transport => ClientError::Transport,
        Error::Protocol => ClientError::Protocol,
        Error::Timeout => ClientError::Timeout,
        Error::Unpaired | Error::Certificate => ClientError::Unpaired,
        Error::Rejected => ClientError::Rejected,
    }
}

/// The report on an address that is not valid.
pub fn invalid_url() -> (report: ClientError)
    ensures
        report == invalid_url_report(),
{
    ClientError::InvalidSetting {
        field: "url",
        text: "Enter a complete LG TV address such as wss://192.0.2.20:3001/",
    }
}

impl From<Error> for ClientError {
    fn from(error: Error) -> (report: ClientError) {
        match error {
            Error::Configuration => invalid_url(),
            Error::Transport => ClientError::Transport,
            Error::Protocol => ClientError::Protocol,
            Error::Timeout => ClientError::Timeout,
            Error::Unpaired | Error::Certificate => ClientError::Unpaired,
            Error::Rejected => ClientError::Rejected,
        }
    }
}

impl vstd::std_specs::convert::FromSpecImpl<Error> for ClientError {
    open spec fn obeys_from_spec() -> bool {
        true
    }

    open spec fn from_spec(error: Error) -> ClientError {
        reported(error)
    }
}

} // verus!
