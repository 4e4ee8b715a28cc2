//! What holds of the client as a whole.
//!
//! The laws of this file relate the steps of the client. Those of the files below it speak of the
//! calls themselves: of what a caller hands in and what comes back, for every input.

use crate::address::{endpoint_at, url_parsed, Endpoint, Resource, UrlView};
use crate::credential::{credential_parsed, CredentialView, WebOsCredentialView};
use crate::error::{reported, ClientError, Error};
use crate::exchange::{heard_outcome, HeardView, WantView};
use crate::frame::ReadingView;
use crate::function::{command_for, empty_object, mute_payload, CommandView, Function};
use crate::json::JsonView;
use crate::message::{
    press_message, registration_message, reply_outcome, request_at, request_id, request_message,
    RequestView,
};
use crate::pairing::{
    failure_step, pair_end, pair_step, refused_silently, PairFailure, PairStepView, PairingView,
    PAIR_BUDGET_MS,
};
use crate::selection::{chosen, is_taken, SelectableView};
use crate::settings::{is_secure_url, setup_url, SECURE_PORT};
use crate::status::{status_from, status_queries, StatusView, NAME_LIMIT, REQUIRED_REPLIES};
use crate::text::{decimal, decimal_is_injective, is_label};
use crate::tv::{
    after_request, capability_list, connect_step, credential_opening, execute_start, press_step,
    reply_step, status_next, status_step, ActionView, Next, OpeningView, Pressed, StatusActionView,
    TvView,
};
use vstd::prelude::*;

pub mod approval;
pub mod protocol;
pub mod selections;
pub mod setup;
pub mod television;

verus! {

/// An address that the client connects to is a unicast IP address with a port.
pub proof fn endpoints_are_unicast(url: Option<UrlView>, resource: Resource)
    requires
        endpoint_at(url, resource) is Ok,
    ensures
        !endpoint_at(url, resource)->Ok_0.address.is_unspecified(),
        !endpoint_at(url, resource)->Ok_0.address.is_multicast(),
        endpoint_at(url, resource)->Ok_0.port != 0,
{
}

/// A control socket is at the root. Every URL of a control socket could name a pointer socket, and
/// would lead to the same place.
pub proof fn control_sockets_are_at_the_root(url: UrlView)
    requires
        endpoint_at(Some(url), Resource::Root) is Ok,
    ensures
        url.path == "/"@,
        url.query is None,
        endpoint_at(Some(url), Resource::Any) == endpoint_at(Some(url), Resource::Root),
{
}

/// A pointer socket may have any path and query: they do not change where it leads.
pub proof fn pointer_sockets_may_name_a_resource(
    url: UrlView,
    path: Seq<char>,
    query: Option<Seq<char>>,
)
    ensures
        endpoint_at(Some(UrlView { path, query, ..url }), Resource::Any) == endpoint_at(
            Some(url),
            Resource::Any,
        ),
{
}

/// Whatever the setup field stands for is a control socket that the client connects to. A field
/// that is not such a URL itself stands for encrypted control on the standard port.
pub proof fn setup_urls_are_valid(field: Seq<char>)
    requires
        setup_url(field) is Some,
    ensures
        endpoint_at(url_parsed(setup_url(field)->Some_0), Resource::Root) is Ok,
        setup_url(field)->Some_0 != field ==> {
            let endpoint = endpoint_at(
                url_parsed(setup_url(field)->Some_0),
                Resource::Root,
            )->Ok_0;
            endpoint.secure && endpoint.port == SECURE_PORT
        },
{
}

/// A root WebSocket URL in the setup field stands for itself. So does the URL that any field stands
/// for: to save it and read it again changes nothing.
pub proof fn saved_urls_stand_for_themselves(field: Seq<char>)
    ensures
        endpoint_at(url_parsed(field), Resource::Root) is Ok ==> setup_url(field) == Some(field),
        setup_url(field) matches Some(url) ==> setup_url(url) == Some(url),
{
    if setup_url(field) is Some {
        setup_urls_are_valid(field);
    }
}

/// Requests with different numbers have different identifiers.
pub proof fn request_ids_are_distinct(a: nat, b: nat)
    requires
        a != b,
    ensures
        request_id(a) != request_id(b),
{
    if request_id(a) == request_id(b) {
        let prefix = "couch-"@.len() as int;
        assert(decimal(a) == request_id(a).skip(prefix));
        assert(decimal(b) == request_id(b).skip(prefix));
        decimal_is_injective(a, b);
    }
}

/// A reply to one request is never taken for the reply to another, whatever it says.
pub proof fn replies_to_other_requests_are_ignored(asked: nat, answered: nat, frame: JsonView)
    requires
        asked != answered,
        frame.field("id"@) == JsonView::Text(request_id(answered)),
    ensures
        reply_outcome(request_id(asked), frame) is None,
{
    request_ids_are_distinct(asked, answered);
}

/// A reply to another request, a ping or a pong does not end the wait for a reply.
pub proof fn the_wait_for_a_reply_goes_on(asked: nat, answered: nat, frame: JsonView)
    requires
        asked != answered,
        frame.field("id"@) == JsonView::Text(request_id(answered)),
    ensures
        heard_outcome(WantView::Reply(request_id(asked)), ReadingView::Frame(frame))
            == HeardView::Again,
        heard_outcome(WantView::Reply(request_id(asked)), ReadingView::Flush) == HeardView::Flush,
        heard_outcome(WantView::Reply(request_id(asked)), ReadingView::Again) == HeardView::Again,
{
    replies_to_other_requests_are_ignored(asked, answered, frame);
}

/// What comes of an exchange that reads this: the first reading that ends it decides.
pub open spec fn exchange_outcome(want: WantView, readings: Seq<ReadingView>) -> Option<
    Result<JsonView, Error>,
>
    decreases readings.len(),
{
    if readings.len() == 0 {
        None
    } else {
        match heard_outcome(want, readings[0]) {
            HeardView::Over(outcome) => Some(outcome),
            _ => exchange_outcome(want, readings.drop_first()),
        }
    }
}

/// Readings that do not end an exchange do not change what comes of it.
pub proof fn unrelated_readings_do_not_matter(
    want: WantView,
    unrelated: Seq<ReadingView>,
    rest: Seq<ReadingView>,
)
    requires
        forall|i: int|
            0 <= i < unrelated.len() ==> !(heard_outcome(want, #[trigger] unrelated[i]) is Over),
    ensures
        exchange_outcome(want, unrelated + rest) == exchange_outcome(want, rest),
    decreases unrelated.len(),
{
    if unrelated.len() == 0 {
        assert(unrelated + rest == rest);
    } else {
        assert((unrelated + rest)[0] == unrelated[0]);
        assert((unrelated + rest).drop_first() == unrelated.drop_first() + rest);
        unrelated_readings_do_not_matter(want, unrelated.drop_first(), rest);
    }
}

/// A failed step ends a function or a status at once: nothing is sent again, and the failure is
/// reported. The one exception is a question of a status that the television may refuse.
pub proof fn commands_are_never_retried(
    tv: TvView,
    next: Next,
    run: Seq<JsonView>,
    button: &'static str,
    error: Error,
    outcome: Pressed,
)
    ensures
        reply_step(tv, next, Err(error)) == (tv, ActionView::Finish(Err(reported(error)))),
        connect_step(tv, button, Err(error)) == (tv, ActionView::Finish(Err(reported(error)))),
        error != Error::Rejected || run.len() < REQUIRED_REPLIES ==> status_step(
            tv,
            run,
            Err(error),
        ) == (tv, StatusActionView::Finish(Err(reported(error)))),
        press_step(tv, outcome).1 == ActionView::Finish(
            if outcome == Pressed::Sent {
                Ok(())
            } else {
                Err(ClientError::Transport)
            },
        ),
{
}

/// How many steps an action can still have after it.
pub open spec fn steps_after(action: ActionView) -> nat {
    match action {
        ActionView::Exchange { next: Next::OpenPointer(_), .. } => 3,
        ActionView::Exchange { next: Next::SetMute, .. } => 2,
        ActionView::Connect { .. } => 2,
        ActionView::Exchange { next: Next::Done, .. } => 1,
        ActionView::Press { .. } => 1,
        ActionView::Finish(_) => 0,
    }
}

/// Every step of a function brings it closer to its end, so that it sends a bounded number of
/// messages.
pub proof fn functions_come_to_an_end(
    tv: TvView,
    request: RequestView,
    next: Next,
    reply: Result<JsonView, Error>,
    url: Seq<char>,
    endpoint: Endpoint,
    button: &'static str,
    opened: Result<(), Error>,
    message: Seq<char>,
    outcome: Pressed,
)
    ensures
        steps_after(reply_step(tv, next, reply).1) < steps_after(
            ActionView::Exchange { request, next },
        ),
        steps_after(connect_step(tv, button, opened).1) < steps_after(
            ActionView::Connect { url, endpoint, button },
        ),
        steps_after(press_step(tv, outcome).1) < steps_after(ActionView::Press { message }),
{
}

/// After a reply, a function sends another request only to set the mute to the opposite of what
/// the television reported.
pub proof fn only_the_mute_takes_a_second_request(
    tv: TvView,
    next: Next,
    reply: Result<JsonView, Error>,
)
    requires
        reply_step(tv, next, reply).1 is Exchange,
    ensures
        next == Next::SetMute,
        reply matches Ok(payload) && payload.field("mute"@) is Bool && reply_step(
            tv,
            next,
            reply,
        ).1 == (ActionView::Exchange {
            request: request_at(
                tv.next + 1,
                "ssap://audio/setMute"@,
                JsonView::Object(
                    map!["mute"@ => JsonView::Bool(!payload.field("mute"@)->Bool_0)],
                ),
            ),
            next: Next::Done,
        }),
{
}

/// Every request takes the next number, and nothing else does: no two requests of a connection
/// have the same number.
pub proof fn requests_take_fresh_numbers(
    tv: TvView,
    function: Function,
    input_valid: bool,
    next: Next,
    reply: Result<JsonView, Error>,
    button: &'static str,
    opened: Result<(), Error>,
    outcome: Pressed,
)
    ensures
        numbers_its_request(tv, execute_start(tv, function, input_valid)),
        numbers_its_request(tv, reply_step(tv, next, reply)),
        numbers_its_request(tv, connect_step(tv, button, opened)),
        numbers_its_request(tv, press_step(tv, outcome)),
{
    reveal_strlit("id");
    reveal_strlit("type");
    reveal_strlit("uri");
    reveal_strlit("payload");
    assert("id"@.len() == 2 && "type"@.len() == 4 && "uri"@.len() == 3 && "payload"@.len() == 7);
}

/// Whether a step that sends a request gives it the next number, and another step none.
pub open spec fn numbers_its_request(tv: TvView, step: (TvView, ActionView)) -> bool {
    match step.1 {
        ActionView::Exchange { request, .. } => {
            &&& step.0.next == tv.next + 1
            &&& request.id == request_id(tv.next + 1)
            &&& request.message.field("id"@) == JsonView::Text(request.id)
        },
        _ => step.0.next == tv.next,
    }
}

/// While the pointer socket is open no other is asked for: a button is pressed on the one there
/// is.
pub proof fn one_pointer_socket_at_a_time(tv: TvView, function: Function, input_valid: bool)
    requires
        tv.pointer,
    ensures
        execute_start(tv, function, input_valid).1 matches ActionView::Exchange { next, .. }
            ==> !(next is OpenPointer),
        !(execute_start(tv, function, input_valid).1 is Connect),
        command_for(function, input_valid) matches Some(CommandView::Press(name)) ==> execute_start(
            tv,
            function,
            input_valid,
        ) == (tv, ActionView::Press { message: press_message(name@) }),
{
}

/// A pointer socket is opened only at the television itself: at the address and port of the
/// control socket, and over TLS exactly where that is.
pub proof fn pointer_sockets_lead_to_the_television(
    tv: TvView,
    next: Next,
    reply: Result<JsonView, Error>,
)
    requires
        reply_step(tv, next, reply).1 is Connect,
    ensures
        endpoint_at(url_parsed(tv.url), Resource::Root) == Ok::<Endpoint, Error>(
            reply_step(tv, next, reply).1->endpoint,
        ),
        endpoint_at(url_parsed(reply_step(tv, next, reply).1->Connect_url), Resource::Any) == Ok::<
            Endpoint,
            Error,
        >(reply_step(tv, next, reply).1->endpoint),
{
}

/// Only a pointer socket that was opened counts as open, and only one that fails to send is let
/// go: no other step changes it, and none changes the control URL.
pub proof fn steps_keep_the_connection(
    tv: TvView,
    function: Function,
    input_valid: bool,
    next: Next,
    reply: Result<JsonView, Error>,
    button: &'static str,
    opened: Result<(), Error>,
    outcome: Pressed,
)
    ensures
        execute_start(tv, function, input_valid).0.url == tv.url,
        execute_start(tv, function, input_valid).0.pointer == tv.pointer,
        reply_step(tv, next, reply).0.url == tv.url,
        reply_step(tv, next, reply).0.pointer == tv.pointer,
        connect_step(tv, button, opened).0 == (TvView {
            pointer: tv.pointer || opened is Ok,
            ..tv
        }),
        press_step(tv, outcome).0 == (TvView {
            pointer: tv.pointer && outcome != Pressed::Failed,
            ..tv
        }),
{
}

/// A pairing that succeeded over TLS has a certificate.
pub proof fn secure_pairing_needs_a_certificate(
    pairing: PairingView,
    read: Result<JsonView, Error>,
    certificate: Seq<u8>,
)
    requires
        is_secure_url(pairing.url),
        pair_step(pairing, read, certificate).1 matches Ok(PairStepView::Done { .. }),
    ensures
        certificate.len() > 0,
{
}

/// A pairing that came to an end stays there, whatever comes in: it succeeds at most once.
pub proof fn ended_pairings_stay_ended(
    pairing: PairingView,
    read: Result<JsonView, Error>,
    certificate: Seq<u8>,
    elapsed_ms: u128,
)
    ensures
        !pairing.open ==> pair_step(pairing, read, certificate) == (
            pairing,
            Ok::<PairStepView, ClientError>(refused_silently()),
        ),
        !pairing.open ==> pair_end(pairing, elapsed_ms) matches Some(PairStepView::Failed { .. }),
        pair_step(pairing, read, certificate).1 matches Ok(PairStepView::Done { .. }) ==> pairing.open
            && !pair_step(pairing, read, certificate).0.open,
{
}

/// A pairing whose time is over fails, whatever its state.
pub proof fn pairing_ends_with_its_budget(pairing: PairingView, elapsed_ms: u128)
    requires
        elapsed_ms >= PAIR_BUDGET_MS,
    ensures
        pair_end(pairing, elapsed_ms) matches Some(PairStepView::Failed { failure, .. }) && failure
            == PairFailure::TimedOut,
{
}

/// A read that fails leaves the pairing as it is; a read that times out leaves it waiting.
pub proof fn failed_reads_keep_the_pairing(
    pairing: PairingView,
    error: Error,
    certificate: Seq<u8>,
)
    requires
        pairing.open,
    ensures
        pair_step(pairing, Err(error), certificate) == (
            pairing,
            Ok::<PairStepView, ClientError>(failure_step(error)),
        ),
        failure_step(error) is Waiting <==> error == Error::Timeout,
{
}

/// Pairing never touches the settings: neither the key nor the certificate enters them.
pub proof fn pairing_keeps_the_settings(
    pairing: PairingView,
    read: Result<JsonView, Error>,
    certificate: Seq<u8>,
)
    ensures
        pair_step(pairing, read, certificate).0.url == pairing.url,
{
}

/// A credential that holds a key and a certificate connects with exactly these: the television is
/// sent the key, and has to show the certificate.
pub proof fn credentials_connect_with_what_they_hold(
    url: Seq<char>,
    credential: CredentialView,
    held: WebOsCredentialView,
)
    requires
        endpoint_at(url_parsed(url), Resource::Root) is Ok,
        credential_parsed(credential, is_secure_url(url)) == Ok::<_, Error>(held),
    ensures
        credential_opening(url, Some(credential)) == Ok::<_, ClientError>(
            (
                OpeningView {
                    endpoint: endpoint_at(url_parsed(url), Resource::Root)->Ok_0,
                    registration: registration_message(Some(held.key)),
                },
                held,
            ),
        ),
{
}

/// A connection over TLS is never opened without a certificate to hold the television to.
pub proof fn secure_connections_are_pinned(url: Seq<char>, credential: Option<CredentialView>)
    requires
        credential_opening(url, credential) is Ok,
        credential_opening(url, credential)->Ok_0.0.endpoint.secure,
    ensures
        credential_opening(url, credential)->Ok_0.1.certificate.len() > 0,
{
}

/// What is shown to be selected has distinct identifiers, and names that can be shown.
pub proof fn selections_are_distinct(offers: Seq<(SelectableView, bool)>)
    ensures
        forall|i: int|
            0 <= i < chosen(offers).len() ==> {
                &&& is_label((#[trigger] chosen(offers)[i]).name, NAME_LIMIT as nat)
                &&& is_taken(offers, chosen(offers)[i].id)
            },
        forall|i: int, j: int|
            0 <= i < j < chosen(offers).len() ==> (#[trigger] chosen(offers)[i]).id != (
            #[trigger] chosen(offers)[j]).id,
    decreases offers.len(),
{
    if offers.len() > 0 {
        let before = offers.drop_last();
        selections_are_distinct(before);
        assert forall|id: Seq<char>| is_taken(before, id) implies is_taken(offers, id) by {
            let i = choose|i: int|
                0 <= i < before.len() && (#[trigger] before[i]).1 && before[i].0.id == id;
            assert(offers[i] == before[i]);
        }
        let last = offers[offers.len() - 1];
        if last.1 {
            assert(is_taken(offers, last.0.id));
        }
        let shown = chosen(offers);
        let shown_before = chosen(before);
        assert forall|i: int| 0 <= i < shown.len() implies is_label(
            (#[trigger] shown[i]).name,
            NAME_LIMIT as nat,
        ) && is_taken(offers, shown[i].id) by {
            if i < shown_before.len() {
                assert(shown[i] == shown_before[i]);
            }
        }
        assert forall|i: int, j: int| 0 <= i < j < shown.len() implies (#[trigger] shown[i]).id != (
        #[trigger] shown[j]).id by {
            assert(shown[i] == shown_before[i]);
            if j < shown_before.len() {
                assert(shown[j] == shown_before[j]);
            }
        }
    }
}

/// The name under which a function is offered, if it has one.
pub open spec fn capability_of(function: Function) -> Option<&'static str> {
    match function {
        Function::PowerOff => Some("power-off"),
        Function::VolumeUp => Some("volume-up"),
        Function::VolumeDown => Some("volume-down"),
        Function::Mute => Some("mute"),
        Function::MuteOn => Some("mute-on"),
        Function::MuteOff => Some("mute-off"),
        Function::Up => Some("up"),
        Function::Down => Some("down"),
        Function::Left => Some("left"),
        Function::Right => Some("right"),
        Function::Enter => Some("ok"),
        Function::Back => Some("back"),
        Function::Home => Some("home"),
        Function::Menu => Some("menu"),
        Function::Red => Some("red"),
        Function::Green => Some("green"),
        Function::Yellow => Some("yellow"),
        Function::Blue => Some("blue"),
        Function::ChannelUp => Some("channel-up"),
        Function::ChannelDown => Some("channel-down"),
        Function::Play => Some("play"),
        Function::Pause => Some("pause"),
        Function::Stop => Some("stop"),
        Function::Rewind => Some("rewind"),
        Function::FastForward => Some("fast-forward"),
        Function::Input(_) | Function::App(_) | Function::Extra(_) | Function::Other => None,
    }
}

/// The place of a function among those that are offered by name.
spec fn capability_place(function: Function) -> int {
    match function {
        Function::PowerOff => 0,
        Function::VolumeUp => 1,
        Function::VolumeDown => 2,
        Function::Mute => 3,
        Function::MuteOn => 4,
        Function::MuteOff => 5,
        Function::Up => 6,
        Function::Down => 7,
        Function::Left => 8,
        Function::Right => 9,
        Function::Enter => 10,
        Function::Back => 11,
        Function::Home => 12,
        Function::Menu => 13,
        Function::Red => 14,
        Function::Green => 15,
        Function::Yellow => 16,
        Function::Blue => 17,
        Function::ChannelUp => 18,
        Function::ChannelDown => 19,
        Function::Play => 20,
        Function::Pause => 21,
        Function::Stop => 22,
        Function::Rewind => 23,
        Function::FastForward => 24,
        _ => -1,
    }
}

/// Every function that is offered by name is one that the client carries out, and every function
/// that it carries out is offered by name, but for inputs, apps and sound outputs, which have
/// identifiers of their own.
pub proof fn capabilities_are_carried_out(function: Function, input_valid: bool)
    ensures
        capability_of(function) matches Some(id) ==> command_for(function, input_valid) is Some
            && exists|i: int|
            0 <= i < capability_list().len() && (#[trigger] capability_list()[i]).0 == id,
        command_for(function, input_valid) is Some && capability_of(function) is None ==> function
            is Input || function is App || function is Extra,
{
    let place = capability_place(function);
    if capability_of(function) is Some {
        assert(capability_list()[place].0 == capability_of(function)->Some_0);
    }
}

/// The function at a place of the list of those that are offered by name.
spec fn capability_function(place: int) -> Function {
    if place == 0 {
        Function::PowerOff
    } else if place == 1 {
        Function::VolumeUp
    } else if place == 2 {
        Function::VolumeDown
    } else if place == 3 {
        Function::Mute
    } else if place == 4 {
        Function::MuteOn
    } else if place == 5 {
        Function::MuteOff
    } else if place == 6 {
        Function::Up
    } else if place == 7 {
        Function::Down
    } else if place == 8 {
        Function::Left
    } else if place == 9 {
        Function::Right
    } else if place == 10 {
        Function::Enter
    } else if place == 11 {
        Function::Back
    } else if place == 12 {
        Function::Home
    } else if place == 13 {
        Function::Menu
    } else if place == 14 {
        Function::Red
    } else if place == 15 {
        Function::Green
    } else if place == 16 {
        Function::Yellow
    } else if place == 17 {
        Function::Blue
    } else if place == 18 {
        Function::ChannelUp
    } else if place == 19 {
        Function::ChannelDown
    } else if place == 20 {
        Function::Play
    } else if place == 21 {
        Function::Pause
    } else if place == 22 {
        Function::Stop
    } else if place == 23 {
        Function::Rewind
    } else {
        Function::FastForward
    }
}

/// Every name in the list stands for a function.
pub proof fn capabilities_name_functions(place: int)
    requires
        0 <= place < capability_list().len(),
    ensures
        exists|function: Function| #[trigger]
            capability_of(function) == Some(capability_list()[place].0),
{
    assert(capability_of(capability_function(place)) == Some(capability_list()[place].0));
}

/// The television is never switched on over the network.
pub proof fn power_on_is_not_offered(place: int)
    requires
        0 <= place < capability_list().len(),
    ensures
        capability_list()[place].0@ != "power-on"@,
{
    reveal_strlit("power-on");
    reveal_strlit("power-off");
    reveal_strlit("volume-up");
    reveal_strlit("volume-down");
    reveal_strlit("mute");
    reveal_strlit("mute-on");
    reveal_strlit("mute-off");
    reveal_strlit("up");
    reveal_strlit("down");
    reveal_strlit("left");
    reveal_strlit("right");
    reveal_strlit("ok");
    reveal_strlit("back");
    reveal_strlit("home");
    reveal_strlit("menu");
    reveal_strlit("red");
    reveal_strlit("green");
    reveal_strlit("yellow");
    reveal_strlit("blue");
    reveal_strlit("channel-up");
    reveal_strlit("channel-down");
    reveal_strlit("play");
    reveal_strlit("pause");
    reveal_strlit("stop");
    reveal_strlit("rewind");
    reveal_strlit("fast-forward");
    assert("mute-off"@[0] != "power-on"@[0]);
    assert(capability_list()[place].0@.len() == "power-on"@.len() ==> place == 5);
}

/// An item is shown exactly where it is the first valid offer of its identifier and has a name
/// that can be shown.
pub proof fn selections_are_the_first_of_each_identifier(
    offers: Seq<(SelectableView, bool)>,
    item: SelectableView,
)
    ensures
        chosen(offers).contains(item) <==> exists|k: int|
            0 <= k < offers.len() && is_first_choice(offers, k, item),
    decreases offers.len(),
{
    if offers.len() > 0 {
        let before = offers.drop_last();
        let end = offers.len() - 1;
        selections_are_the_first_of_each_identifier(before, item);
        assert(offers.take(end) == before);
        assert forall|k: int| 0 <= k < end implies is_first_choice(offers, k, item)
            == is_first_choice(before, k, item) by {
            assert(offers.take(k) == before.take(k));
        }
        if chosen(before).contains(item) {
            let i = choose|i: int| 0 <= i < chosen(before).len() && chosen(before)[i] == item;
            assert(chosen(offers)[i] == item);
        }
        if is_first_choice(offers, end, item) {
            assert(chosen(offers) == chosen(before).push(item));
            assert(chosen(offers).last() == item);
        }
        if chosen(offers).contains(item) && !chosen(before).contains(item) {
            let i = choose|i: int| 0 <= i < chosen(offers).len() && chosen(offers)[i] == item;
            if i < chosen(before).len() {
                assert(chosen(before)[i] == item);
            }
            assert(is_first_choice(offers, end, item));
        }
    }
}

/// Whether the offer at this place is the first valid one of its identifier and can be shown.
pub open spec fn is_first_choice(
    offers: Seq<(SelectableView, bool)>,
    k: int,
    item: SelectableView,
) -> bool {
    &&& offers[k] == (item, true)
    &&& !is_taken(offers.take(k), item.id)
    &&& is_label(item.name, NAME_LIMIT as nat)
}

/// The registration can be written exactly.
pub proof fn registrations_can_be_written(key: Option<Seq<char>>)
    ensures
        registration_message(key).is_writable(),
{
    reveal_with_fuel(JsonView::is_writable, 6);
}

/// A request whose payload can be written exactly can be written exactly itself.
pub proof fn requests_can_be_written(id: Seq<char>, uri: Seq<char>, payload: JsonView)
    requires
        payload.is_writable(),
    ensures
        request_message(id, uri, payload).is_writable(),
{
    reveal_with_fuel(JsonView::is_writable, 3);
}

/// What is sent for a function, for a status or for a list can be written exactly.
pub proof fn payloads_can_be_written(function: Function, input_valid: bool, on: bool, place: int)
    ensures
        command_for(function, input_valid) matches Some(CommandView::Request { payload, .. })
            ==> payload.is_writable(),
        mute_payload(on).is_writable(),
        empty_object().is_writable(),
        0 <= place < status_queries().len() ==> status_queries()[place].1.is_writable(),
{
    reveal_with_fuel(JsonView::is_writable, 4);
}

/// A volume that is reported is at most 100.
pub proof fn volumes_are_percentages(
    power: JsonView,
    volume: JsonView,
    foreground: JsonView,
    sound: JsonView,
    picture: JsonView,
)
    ensures
        status_from(power, volume, foreground, sound, picture).volume matches Some(level) ==> level
            <= 100,
{
}

/// A television that refuses the questions on its sound output and its picture is asked each of
/// them once, and its status then says what the other replies say.
pub proof fn refused_questions_go_unanswered(
    tv: TvView,
    power: JsonView,
    volume: JsonView,
    foreground: JsonView,
    sound: JsonView,
    picture: JsonView,
)
    ensures
        status_step(tv, seq![power, volume, foreground], Err(Error::Rejected)) == status_next(
            tv,
            seq![power, volume, foreground, JsonView::Null],
        ),
        status_step(tv, seq![power, volume, foreground, sound], Err(Error::Rejected)) == (
            tv,
            StatusActionView::Finish(
                Ok(
                    StatusView {
                        picture_mode: None,
                        ..status_from(power, volume, foreground, sound, picture)
                    },
                ),
            ),
        ),
        status_from(power, volume, foreground, JsonView::Null, picture) == (StatusView {
            sound_output: None,
            ..status_from(power, volume, foreground, sound, picture)
        }),
{
    assert(seq![power, volume, foreground].push(JsonView::Null) == seq![
        power,
        volume,
        foreground,
        JsonView::Null,
    ]);
    assert(seq![power, volume, foreground, sound].push(JsonView::Null) == seq![
        power,
        volume,
        foreground,
        sound,
        JsonView::Null,
    ]);
}

/// A status asks each of its questions once, in their order, and then reports.
pub proof fn status_asks_each_question_once(tv: TvView, run: Seq<JsonView>)
    ensures
        run.len() < status_queries().len() ==> status_next(tv, run) == (
            after_request(tv),
            StatusActionView::Exchange {
                request: request_at(
                    tv.next + 1,
                    status_queries()[run.len() as int].0@,
                    status_queries()[run.len() as int].1,
                ),
                run,
            },
        ),
        run.len() >= status_queries().len() ==> status_next(tv, run).0 == tv && (status_next(
            tv,
            run,
        ).1 matches StatusActionView::Finish(Ok(_))),
{
}

} // verus!
