//! What the calls of a pairing give. Each law speaks of calls: of what was handed in and what came
//! back.

use crate::address::{endpoint, Endpoint};
use crate::credential::{base64_decoded, WebOsCredential};
use crate::error::{ClientError, Error};
use crate::json::{Json, JsonView};
use crate::laws::setup::can_be_a_key;
use crate::pairing::{PairFailure, PairStep, Pairing};
use crate::settings::Settings;
use vstd::prelude::*;

verus! {

/// The owner is asked to approve, and asked about again after a second and a half.
pub open spec fn waits_for_approval(step: PairStep) -> bool {
    step matches PairStep::Waiting { prompt, poll_ms } && prompt@ == "Approve Couch on the LG TV"@
        && poll_ms == 1500
}

/// Pairing failed in this way and with this explanation.
pub open spec fn fails_with(step: PairStep, failure: PairFailure, reason: Seq<char>) -> bool {
    step matches PairStep::Failed { failure: shown, reason: Some(said) } && shown == failure && said@
        == reason
}

/// Pairing failed in this way, without an explanation.
pub open spec fn fails_silently(step: PairStep, failure: PairFailure) -> bool {
    step matches PairStep::Failed { failure: shown, reason: None } && shown == failure
}

/// A pairing starts open, at the URL of the settings.
pub proof fn pairings_start_open(settings: Settings, pairing: Pairing, open: bool)
    requires
        call_ensures(Pairing::new, (&settings,), pairing),
        call_ensures(Pairing::is_open, (&pairing,), open),
    ensures
        open,
        pairing@.open,
        pairing@.url == settings.url@,
{
}

/// A pairing says whether it is open.
pub proof fn pairings_know_whether_they_are_open(pairing: Pairing, open: bool)
    requires
        call_ensures(Pairing::is_open, (&pairing,), open),
    ensures
        open <==> pairing@.open,
{
}

/// A pairing that is cancelled is closed, and keeps its URL.
pub proof fn cancelled_pairings_are_closed(pairing: &mut Pairing)
    requires
        call_ensures(Pairing::cancel, (pairing,), ()),
    ensures
        !final(pairing)@.open,
        final(pairing)@.url == old(pairing)@.url,
{
}

/// A pairing goes on until 85 seconds have passed, and no longer; a closed one does not go on.
pub proof fn pairings_go_on_for_their_time(
    pairing: Pairing,
    elapsed_ms: u128,
    ended: Option<PairStep>,
)
    requires
        call_ensures(Pairing::ended, (&pairing, elapsed_ms), ended),
    ensures
        elapsed_ms < 85_000 && pairing@.open <==> ended is None,
        elapsed_ms >= 85_000 ==> fails_with(
            ended->Some_0,
            PairFailure::TimedOut,
            "The LG TV was not approved before pairing closed"@,
        ),
        elapsed_ms < 85_000 && !pairing@.open ==> fails_silently(
            ended->Some_0,
            PairFailure::Refused,
        ),
{
}

/// Every error of a read is shown as what it is; a timeout only means that the owner has not
/// answered yet.
pub proof fn failed_reads_are_shown(error: Error, step: PairStep)
    requires
        call_ensures(Pairing::failure, (error,), step),
    ensures
        error == Error::Timeout ==> waits_for_approval(step),
        error == Error::Transport ==> fails_with(
            step,
            PairFailure::Unreachable,
            "The LG TV could not be reached"@,
        ),
        error == Error::Rejected || error == Error::Unpaired ==> fails_with(
            step,
            PairFailure::Refused,
            "The LG TV did not approve Couch"@,
        ),
        error == Error::Certificate ==> fails_with(
            step,
            PairFailure::Refused,
            "The LG TV certificate changed during pairing"@,
        ),
        error == Error::Configuration ==> fails_silently(step, PairFailure::Unsupported),
        error == Error::Protocol ==> fails_with(
            step,
            PairFailure::Refused,
            "The LG TV sent a pairing reply Couch could not use"@,
        ),
{
}

/// An approval pairs: on a frame of type `registered` with a key of one to 4096 bytes, and with any
/// certificate that is not empty, or any at all without TLS, an open pairing is done. Its credential
/// holds exactly that key and that certificate, and the pairing is closed.
pub proof fn approvals_pair(
    pairing: &mut Pairing,
    url: &str,
    control: Result<Endpoint, Error>,
    frame: Json,
    key: Seq<char>,
    certificate: Vec<u8>,
    step: Result<PairStep, ClientError>,
)
    requires
        old(pairing)@.open,
        url@ == old(pairing)@.url,
        call_ensures(endpoint, (url,), control),
        frame@.field("type"@) == JsonView::Text("registered"@),
        frame@.field("payload"@).field("client-key"@) == JsonView::Text(key),
        can_be_a_key(key),
        certificate@.len() > 0 || !(control matches Ok(endpoint) && endpoint.secure),
        call_ensures(Pairing::step, (pairing, Ok(frame), certificate), step),
    ensures
        !final(pairing)@.open,
        final(pairing)@.url == old(pairing)@.url,
        step matches Ok(PairStep::Done { credential, text }) && text@ == "Paired with LG webOS TV"@
            && credential.client_key is Some && credential.client_key->Some_0@ == key
            && credential.certificate is Some && base64_decoded(credential.certificate->Some_0@)
            == Some(certificate@),
{
}

/// The credential of an approval is read back as the key that the television sent and the
/// certificate that it showed.
pub proof fn approvals_are_read_back(
    pairing: &mut Pairing,
    url: &str,
    control: Result<Endpoint, Error>,
    frame: Json,
    key: Seq<char>,
    certificate: Vec<u8>,
    step: Result<PairStep, ClientError>,
    parsed: Result<WebOsCredential, Error>,
)
    requires
        old(pairing)@.open,
        url@ == old(pairing)@.url,
        call_ensures(endpoint, (url,), control),
        frame@.field("type"@) == JsonView::Text("registered"@),
        frame@.field("payload"@).field("client-key"@) == JsonView::Text(key),
        can_be_a_key(key),
        certificate@.len() > 0 || !(control matches Ok(endpoint) && endpoint.secure),
        call_ensures(Pairing::step, (pairing, Ok(frame), certificate), step),
        step matches Ok(PairStep::Done { credential, .. }) ==> call_ensures(
            WebOsCredential::parse,
            (&credential, control matches Ok(endpoint) && endpoint.secure),
            parsed,
        ),
    ensures
        parsed matches Ok(held) && held.key@ == key && held.certificate@ == certificate@,
{
}

/// An approval without a key that can be used breaks the protocol; one over TLS without a
/// certificate is refused. Either way the pairing stays as it is.
pub proof fn unusable_approvals_do_not_pair(
    pairing: &mut Pairing,
    url: &str,
    control: Result<Endpoint, Error>,
    frame: Json,
    certificate: Vec<u8>,
    step: Result<PairStep, ClientError>,
)
    requires
        old(pairing)@.open,
        url@ == old(pairing)@.url,
        call_ensures(endpoint, (url,), control),
        frame@.field("type"@) == JsonView::Text("registered"@),
        call_ensures(Pairing::step, (pairing, Ok(frame), certificate), step),
    ensures
        ({
            let key = frame@.field("payload"@).field("client-key"@);
            let usable = key is Text && can_be_a_key(key->Text_0);
            &&& !usable ==> (step matches Err(error) && error == ClientError::Protocol)
            &&& usable && certificate@.len() == 0 && (control matches Ok(endpoint)
                && endpoint.secure) ==> step is Ok && fails_with(
                step->Ok_0,
                PairFailure::Refused,
                "The LG TV certificate changed during pairing"@,
            )
            &&& !usable || certificate@.len() == 0 && (control matches Ok(endpoint)
                && endpoint.secure) ==> final(pairing)@ == old(pairing)@
        }),
{
}

/// A refusal of the owner closes the pairing. Any other frame that is no approval leaves it open and
/// waiting, whatever it holds.
pub proof fn other_frames_refuse_or_wait(
    pairing: &mut Pairing,
    frame: Json,
    certificate: Vec<u8>,
    step: Result<PairStep, ClientError>,
)
    requires
        old(pairing)@.open,
        frame@.field("type"@) != JsonView::Text("registered"@),
        call_ensures(Pairing::step, (pairing, Ok(frame), certificate), step),
    ensures
        step is Ok,
        frame@.field("type"@) == JsonView::Text("error"@) ==> {
            &&& fails_with(
                step->Ok_0,
                PairFailure::Refused,
                "The LG TV did not approve Couch"@,
            )
            &&& !final(pairing)@.open
            &&& final(pairing)@.url == old(pairing)@.url
        },
        frame@.field("type"@) != JsonView::Text("error"@) ==> waits_for_approval(step->Ok_0)
            && final(pairing)@ == old(pairing)@,
{
}

/// A read that fails is shown, and leaves the pairing as it is. A closed pairing is refused, whatever
/// was read.
pub proof fn failed_reads_and_closed_pairings(
    pairing: &mut Pairing,
    read: Result<Json, Error>,
    shown: PairStep,
    certificate: Vec<u8>,
    step: Result<PairStep, ClientError>,
)
    requires
        read matches Err(error) ==> call_ensures(Pairing::failure, (error,), shown),
        call_ensures(Pairing::step, (pairing, read, certificate), step),
    ensures
        !old(pairing)@.open ==> step is Ok && fails_silently(step->Ok_0, PairFailure::Refused)
            && final(pairing)@ == old(pairing)@,
        old(pairing)@.open && read is Err ==> step is Ok && step->Ok_0@ == shown@
            && final(pairing)@ == old(pairing)@,
{
}

/// A pairing takes every certificate whose Base64 text can be held.
pub proof fn pairings_take_any_certificate(
    pairing: &mut Pairing,
    read: Result<Json, Error>,
    certificate: Vec<u8>,
)
    requires
        4 * ((certificate@.len() + 2) / 3) <= isize::MAX,
    ensures
        call_requires(Pairing::step, (pairing, read, certificate)),
{
}

} // verus!
