//! Pairing: the owner approves the client on the screen of the television.

use crate::credential::{
    base64_encoded, credential_parsed, encodable, is_key, key_fits, Credential, CredentialView,
    WebOsCredential, WebOsCredentialView,
};
use crate::error::{ClientError, Error};
use crate::json::{Json, JsonView};
use crate::message::payload_view;
use crate::settings::{is_secure_url, Settings};
use vstd::prelude::*;

verus! {

/// How long pairing may take, in milliseconds.
pub const PAIR_BUDGET_MS: u128 = 85000;

/// How soon the host asks again while the owner has not answered, in milliseconds.
pub const PAIR_POLL_MS: u32 = 1500;

/// Why pairing failed.
#[derive(Debug, Clone, Copy, PartialEq, Eq, Structural)]
pub enum PairFailure {
    TimedOut,
    Refused,
    Unreachable,
    Unsupported,
}

/// How pairing stands.
pub enum PairStep {
    /// The owner is asked to approve on the device; the host asks again after `poll_ms`.
    Waiting { prompt: &'static str, poll_ms: u32 },
    /// Pairing succeeded.
    Done { credential: Credential, text: &'static str },
    /// Pairing failed.
    Failed { failure: PairFailure, reason: Option<&'static str> },
}

/// How pairing stands.
pub enum PairStepView {
    Waiting { prompt: &'static str, poll_ms: u32 },
    Done { credential: CredentialView, text: &'static str },
    Failed { failure: PairFailure, reason: Option<&'static str> },
}

impl View for PairStep {
    type V = PairStepView;

    open spec fn view(&self) -> PairStepView {
        match self {
            PairStep::Waiting { prompt, poll_ms } => PairStepView::Waiting {
                prompt: *prompt,
                poll_ms: *poll_ms,
            },
            PairStep::Done { credential, text } => PairStepView::Done {
                credential: credential@,
                text: *text,
            },
            PairStep::Failed { failure, reason } => PairStepView::Failed {
                failure: *failure,
                reason: *reason,
            },
        }
    }
}

/// What a result with a step in it is.
pub open spec fn step_view(step: Result<PairStep, ClientError>) -> Result<
    PairStepView,
    ClientError,
> {
    match step {
        Ok(step) => Ok(step@),
        Err(error) => Err(error),
    }
}

/// The owner has not answered yet.
pub open spec fn awaiting_approval() -> PairStepView {
    PairStepView::Waiting { prompt: "Approve Couch on the LG TV", poll_ms: PAIR_POLL_MS }
}

/// Pairing failed without an explanation.
pub open spec fn refused_silently() -> PairStepView {
    PairStepView::Failed { failure: PairFailure::Refused, reason: None }
}

/// How an error shows in pairing. A timeout only means that the owner has not answered yet.
pub open spec fn failure_step(error: Error) -> PairStepView {
    match error {
        Error::Timeout => awaiting_approval(),
        Error::Transport => PairStepView::Failed {
            failure: PairFailure::Unreachable,
            reason: Some("The LG TV could not be reached"),
        },
        Error::Rejected | Error::Unpaired => PairStepView::Failed {
            failure: PairFailure::Refused,
            reason: Some("The LG TV did not approve Couch"),
        },
        Error::Certificate => PairStepView::Failed {
            failure: PairFailure::Refused,
            reason: Some("The LG TV certificate changed during pairing"),
        },
        Error::Configuration => PairStepView::Failed {
            failure: PairFailure::Unsupported,
            reason: None,
        },
        Error::Protocol => PairStepView::Failed {
            failure: PairFailure::Refused,
            reason: Some("The LG TV sent a pairing reply Couch could not use"),
        },
    }
}

/// What a pairing session knows.
pub struct PairingView {
    /// Whether the session still holds its socket.
    pub open: bool,
    /// The control URL.
    pub url: Seq<char>,
}

/// Where pairing ends before anything is read: when its time is over, or its socket is gone.
pub open spec fn pair_end(pairing: PairingView, elapsed_ms: u128) -> Option<PairStepView> {
    if elapsed_ms >= PAIR_BUDGET_MS {
        Some(
            PairStepView::Failed {
                failure: PairFailure::TimedOut,
                reason: Some("The LG TV was not approved before pairing closed"),
            },
        )
    } else if !pairing.open {
        Some(refused_silently())
    } else {
        None
    }
}

/// The client key that a frame brings, if it brings one that can be used.
pub open spec fn offered_key(frame: JsonView) -> Option<Seq<char>> {
    match frame.field("payload"@).field("client-key"@).text() {
        Some(key) => if is_key(key) {
            Some(key)
        } else {
            None
        },
        None => None,
    }
}

/// How pairing goes on after a frame, with the certificate that the television showed.
pub open spec fn pair_frame(pairing: PairingView, frame: JsonView, certificate: Seq<u8>) -> (
    PairingView,
    Result<PairStepView, ClientError>,
) {
    let closed = PairingView { open: false, ..pairing };
    if frame.field("type"@) == JsonView::Text("registered"@) {
        match offered_key(frame) {
            None => (pairing, Err(ClientError::Protocol)),
            Some(key) => if is_secure_url(pairing.url) && certificate.len() == 0 {
                (pairing, Ok(failure_step(Error::Certificate)))
            } else {
                (
                    closed,
                    Ok(
                        PairStepView::Done {
                            credential: CredentialView {
                                client_key: Some(key),
                                certificate: Some(base64_encoded(certificate)),
                            },
                            text: "Paired with LG webOS TV",
                        },
                    ),
                )
            },
        }
    } else if frame.field("type"@) == JsonView::Text("error"@) {
        (closed, Ok(failure_step(Error::Rejected)))
    } else {
        (pairing, Ok(awaiting_approval()))
    }
}

/// How pairing goes on after a read.
pub open spec fn pair_step(
    pairing: PairingView,
    read: Result<JsonView, Error>,
    certificate: Seq<u8>,
) -> (PairingView, Result<PairStepView, ClientError>) {
    if !pairing.open {
        (pairing, Ok(refused_silently()))
    } else {
        match read {
            Ok(frame) => pair_frame(pairing, frame, certificate),
            Err(error) => (pairing, Ok(failure_step(error))),
        }
    }
}

/// A pairing session.
pub struct Pairing {
    open: bool,
    settings: Settings,
}

impl View for Pairing {
    type V = PairingView;

    closed spec fn view(&self) -> PairingView {
        PairingView { open: self.open, url: self.settings.url@ }
    }
}

impl Pairing {
    /// The session on a socket that is open and on which the client has registered without a key.
    pub fn new(settings: &Settings) -> (pairing: Pairing)
        ensures
            pairing@ == (PairingView { open: true, url: settings.url@ }),
    {
        Pairing { open: true, settings: settings.clone() }
    }

    /// Whether the session still holds its socket.
    pub fn is_open(&self) -> (open: bool)
        ensures
            open == self@.open,
    {
        self.open
    }

    /// How an error shows in pairing.
    pub fn failure(error: Error) -> (step: PairStep)
        ensures
            step@ == failure_step(error),
    {
        match error {
            Error::Timeout => PairStep::Waiting {
                prompt: "Approve Couch on the LG TV",
                poll_ms: PAIR_POLL_MS,
            },
            Error::Transport => PairStep::Failed {
                failure: PairFailure::Unreachable,
                reason: Some("The LG TV could not be reached"),
            },
            Error::Rejected | Error::Unpaired => PairStep::Failed {
                failure: PairFailure::Refused,
                reason: Some("The LG TV did not approve Couch"),
            },
            Error::Certificate => PairStep::Failed {
                failure: PairFailure::Refused,
                reason: Some("The LG TV certificate changed during pairing"),
            },
            Error::Configuration => PairStep::Failed {
                failure: PairFailure::Unsupported,
                reason: None,
            },
            Error::Protocol => PairStep::Failed {
                failure: PairFailure::Refused,
                reason: Some("The LG TV sent a pairing reply Couch could not use"),
            },
        }
    }

    /// Where pairing ends before anything is read, so long after it started; `None` where the
    /// socket is to be read.
    pub fn ended(&self, elapsed_ms: u128) -> (step: Option<PairStep>)
        ensures
            match step {
                Some(step) => pair_end(self@, elapsed_ms) == Some(step@),
                None => pair_end(self@, elapsed_ms) is None,
            },
    {
        if elapsed_ms >= PAIR_BUDGET_MS {
            return Some(
                PairStep::Failed {
                    failure: PairFailure::TimedOut,
                    reason: Some("The LG TV was not approved before pairing closed"),
                },
            );
        }
        if !self.open {
            return Some(PairStep::Failed { failure: PairFailure::Refused, reason: None });
        }
        None
    }

    /// How pairing goes on after a read, with the certificate that the television showed. A
    /// session that comes to an end lets its socket go.
    pub fn step(&mut self, read: Result<Json, Error>, certificate: Vec<u8>) -> (step: Result<
        PairStep,
        ClientError,
    >)
        requires
            encodable(certificate@.len()),
        ensures
            (final(self)@, step_view(step)) == pair_step(
                old(self)@,
                payload_view(read),
                certificate@,
            ),
            step matches Ok(PairStep::Done { credential, .. }) ==> credential_parsed(
                credential@,
                is_secure_url(old(self)@.url),
            ) == Ok::<_, Error>(
                WebOsCredentialView {
                    key: offered_key(payload_view(read)->Ok_0)->Some_0,
                    certificate: certificate@,
                },
            ),
    {
        if !self.open {
            return Ok(PairStep::Failed { failure: PairFailure::Refused, reason: None });
        }
        let frame = match read {
            Ok(frame) => frame,
            Err(error) => {
                return Ok(Self::failure(error));
            },
        };
        if frame.holds("type", "registered") {
            let payload = match frame.get("payload") {
                Some(payload) => payload,
                None => {
                    return Err(ClientError::Protocol);
                },
            };
            let key = match payload.text_at("client-key") {
                Some(key) => key,
                None => {
                    return Err(ClientError::Protocol);
                },
            };
            if !key_fits(key) {
                return Err(ClientError::Protocol);
            }
            if self.settings.is_secure() && certificate.len() == 0 {
                return Ok(Self::failure(Error::Certificate));
            }
            let held = WebOsCredential { key: key.to_owned(), certificate };
            self.open = false;
            let credential = held.credential();
            assert(credential_parsed(credential@, is_secure_url(old(self)@.url)) == Ok::<_, Error>(
                held@,
            ));
            return Ok(PairStep::Done { credential, text: "Paired with LG webOS TV" });
        }
        if frame.holds("type", "error") {
            self.open = false;
            return Ok(Self::failure(Error::Rejected));
        }
        Ok(PairStep::Waiting { prompt: "Approve Couch on the LG TV", poll_ms: PAIR_POLL_MS })
    }

    /// Lets the socket go.
    pub fn cancel(&mut self)
        ensures
            final(self)@ == (PairingView { open: false, ..old(self)@ }),
    {
        self.open = false;
    }
}

} // verus!
