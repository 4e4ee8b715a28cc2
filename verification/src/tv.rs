//! The television as the client drives it: what is sent for each function, and what is made of
//! what comes back. Sockets are the caller's: each step names the next action and the caller
//! hands its outcome to the next step.

use crate::address::{endpoint, endpoint_at, pointer_endpoint, url_parsed, Endpoint, Resource};
use crate::credential::{
    credential_parsed, Credential, CredentialView, WebOsCredential, WebOsCredentialView,
};
use crate::error::{invalid_url, invalid_url_report, reported, ClientError, Error};
use crate::function::{command_for, empty_object, mute_payload, Command, CommandView, Function};
use crate::json::{list_view, list_view_at, list_view_len, Fields, Json, JsonView};
use crate::message::{
    is_request_uri, payload_view, press, press_message, registration, registration_message,
    request_at, request_uri, Request, RequestView,
};
use crate::selection::{
    choose_offers, chosen, judge_apps, judged_apps, offers, read_offers, selectable_views, Listing,
    Selectable, SelectableView,
};
use crate::service::services_are_request_uris;
use crate::settings::Settings;
use crate::status::{
    status_from, status_queries, status_query, Status, StatusView, REQUIRED_REPLIES,
};
use vstd::prelude::*;

verus! {

/// The kind of client, as the host knows it.
pub const KIND: &'static str = "webos";

/// The name of the client, as the owner sees it.
pub const LABEL: &'static str = "LG webOS TV";

/// A connection to a television whose registration succeeded.
pub struct WebOsTv {
    url: String,
    next: u64,
    pointer: bool,
}

/// What a connection knows.
pub struct TvView {
    /// The control URL.
    pub url: Seq<char>,
    /// The number of the last request.
    pub next: nat,
    /// Whether the pointer socket is open.
    pub pointer: bool,
}

impl View for WebOsTv {
    type V = TvView;

    closed spec fn view(&self) -> TvView {
        TvView { url: self.url@, next: self.next as nat, pointer: self.pointer }
    }
}

/// What follows on the reply to a request.
#[derive(Debug, Clone, Copy)]
pub enum Next {
    /// Nothing: the reply ends the function.
    Done,
    /// The reply says whether the sound is muted: the opposite is set.
    SetMute,
    /// The reply names the pointer socket: it is opened, and this button is pressed.
    OpenPointer(&'static str),
}

/// What the caller does next.
pub enum Action {
    /// Send the request on the control socket, wait for its reply and hand it to `replied`.
    Exchange { request: Request, next: Next },
    /// Open the pointer socket and hand the outcome to `connected`.
    Connect { url: String, endpoint: Endpoint, button: &'static str },
    /// Send the message on the pointer socket and hand the outcome to `pressed`.
    Press { message: String },
    /// Report the outcome.
    Finish(Result<(), ClientError>),
}

/// What the caller does next.
pub enum ActionView {
    Exchange { request: RequestView, next: Next },
    Connect { url: Seq<char>, endpoint: Endpoint, button: &'static str },
    Press { message: Seq<char> },
    Finish(Result<(), ClientError>),
}

impl View for Action {
    type V = ActionView;

    open spec fn view(&self) -> ActionView {
        match self {
            Action::Exchange { request, next } => ActionView::Exchange {
                request: request@,
                next: *next,
            },
            Action::Connect { url, endpoint, button } => ActionView::Connect {
                url: url@,
                endpoint: *endpoint,
                button: *button,
            },
            Action::Press { message } => ActionView::Press { message: message@ },
            Action::Finish(outcome) => ActionView::Finish(*outcome),
        }
    }
}

/// How the sending of a button press went.
#[derive(Debug, Clone, Copy, PartialEq, Eq, Structural)]
pub enum Pressed {
    Sent,
    /// The socket could not be given its timeout.
    NotReady,
    /// The message could not be sent.
    Failed,
}

/// The function ends with an error.
pub open spec fn failed(error: Error) -> ActionView {
    ActionView::Finish(Err(reported(error)))
}

/// The connection after one more request.
pub open spec fn after_request(tv: TvView) -> TvView {
    TvView { next: tv.next + 1, ..tv }
}

/// The next request.
pub open spec fn next_request(tv: TvView, uri: Seq<char>, payload: JsonView) -> RequestView {
    request_at(tv.next + 1, uri, payload)
}

/// A request is sent, and its reply awaited.
pub open spec fn issue(tv: TvView, uri: Seq<char>, payload: JsonView, next: Next) -> (
    TvView,
    ActionView,
) {
    (after_request(tv), ActionView::Exchange { request: next_request(tv, uri, payload), next })
}

/// How a command starts.
pub open spec fn command_start(tv: TvView, command: CommandView) -> (TvView, ActionView) {
    match command {
        CommandView::Request { uri, payload } => issue(tv, uri@, payload, Next::Done),
        CommandView::ToggleMute => issue(
            tv,
            "ssap://audio/getVolume"@,
            empty_object(),
            Next::SetMute,
        ),
        CommandView::Press(name) => if tv.pointer {
            (tv, ActionView::Press { message: press_message(name@) })
        } else {
            issue(
                tv,
                "ssap://com.webos.service.networkinput/getPointerInputSocket"@,
                empty_object(),
                Next::OpenPointer(name),
            )
        },
    }
}

/// How a function starts.
pub open spec fn execute_start(tv: TvView, function: Function, input_valid: bool) -> (
    TvView,
    ActionView,
) {
    match command_for(function, input_valid) {
        Some(command) => command_start(tv, command),
        None => (tv, ActionView::Finish(Err(ClientError::Unsupported))),
    }
}

/// Whether a pointer socket is opened, given what its URL and the control URL lead to: it must
/// lead to the television itself, in the same way.
pub open spec fn pointer_check(
    pointer: Result<Endpoint, Error>,
    control: Result<Endpoint, Error>,
) -> Result<Endpoint, Error> {
    match (pointer, control) {
        (Err(error), _) => Err(error),
        (_, Err(error)) => Err(error),
        (Ok(pointer), Ok(control)) => if pointer == control {
            Ok(pointer)
        } else {
            Err(Error::Protocol)
        },
    }
}

/// How the opening of the pointer socket starts.
pub open spec fn pointer_start(tv: TvView, raw: Seq<char>, button: &'static str) -> (
    TvView,
    ActionView,
) {
    match pointer_check(
        endpoint_at(url_parsed(raw), Resource::Any),
        endpoint_at(url_parsed(tv.url), Resource::Root),
    ) {
        Ok(endpoint) => (tv, ActionView::Connect { url: raw, endpoint, button }),
        Err(error) => (tv, failed(error)),
    }
}

/// How a function goes on after a reply.
pub open spec fn reply_step(tv: TvView, next: Next, reply: Result<JsonView, Error>) -> (
    TvView,
    ActionView,
) {
    match reply {
        Err(error) => (tv, failed(error)),
        Ok(payload) => match next {
            Next::Done => (tv, ActionView::Finish(Ok(()))),
            Next::SetMute => match payload.field("mute"@).boolean() {
                Some(muted) => issue(
                    tv,
                    "ssap://audio/setMute"@,
                    mute_payload(!muted),
                    Next::Done,
                ),
                None => (tv, failed(Error::Protocol)),
            },
            Next::OpenPointer(button) => match payload.field("socketPath"@).text() {
                Some(raw) => pointer_start(tv, raw, button),
                None => (tv, failed(Error::Protocol)),
            },
        },
    }
}

/// How a function goes on after the pointer socket was opened, or could not be.
pub open spec fn connect_step(tv: TvView, button: &'static str, outcome: Result<(), Error>) -> (
    TvView,
    ActionView,
) {
    match outcome {
        Ok(_) => (
            TvView { pointer: true, ..tv },
            ActionView::Press { message: press_message(button@) },
        ),
        Err(error) => (tv, failed(error)),
    }
}

/// How a function ends after a button was pressed, or could not be.
pub open spec fn press_step(tv: TvView, outcome: Pressed) -> (TvView, ActionView) {
    match outcome {
        Pressed::Sent => (tv, ActionView::Finish(Ok(()))),
        Pressed::NotReady => (tv, failed(Error::Transport)),
        Pressed::Failed => (TvView { pointer: false, ..tv }, failed(Error::Transport)),
    }
}

/// The replies that a status has so far.
pub struct StatusRun {
    replies: Vec<Json>,
}

impl View for StatusRun {
    type V = Seq<JsonView>;

    closed spec fn view(&self) -> Seq<JsonView> {
        list_view(self.replies@)
    }
}

/// What the caller does next for a status.
pub enum StatusAction {
    /// Send the request, wait for its reply and hand it to `status_replied`.
    Exchange { request: Request, run: StatusRun },
    /// Report the outcome.
    Finish(Result<Status, ClientError>),
}

/// What the caller does next for a status.
pub enum StatusActionView {
    Exchange { request: RequestView, run: Seq<JsonView> },
    Finish(Result<StatusView, ClientError>),
}

impl View for StatusAction {
    type V = StatusActionView;

    open spec fn view(&self) -> StatusActionView {
        match self {
            StatusAction::Exchange { request, run } => StatusActionView::Exchange {
                request: request@,
                run: run@,
            },
            StatusAction::Finish(Ok(status)) => StatusActionView::Finish(Ok(status@)),
            StatusAction::Finish(Err(error)) => StatusActionView::Finish(Err(*error)),
        }
    }
}

/// What is asked next for a status that has these replies, or the status itself.
pub open spec fn status_next(tv: TvView, run: Seq<JsonView>) -> (TvView, StatusActionView) {
    if run.len() < status_queries().len() {
        let (uri, payload) = status_queries()[run.len() as int];
        (
            after_request(tv),
            StatusActionView::Exchange { request: next_request(tv, uri@, payload), run },
        )
    } else {
        (
            tv,
            StatusActionView::Finish(Ok(status_from(run[0], run[1], run[2], run[3], run[4]))),
        )
    }
}

/// How a status goes on after a reply. A question that the television may refuse goes unanswered
/// where it does; any other failure ends the status.
pub open spec fn status_step(tv: TvView, run: Seq<JsonView>, reply: Result<JsonView, Error>) -> (
    TvView,
    StatusActionView,
) {
    match reply {
        Ok(payload) => status_next(tv, run.push(payload)),
        Err(error) => if error == Error::Rejected && run.len() >= REQUIRED_REPLIES {
            status_next(tv, run.push(JsonView::Null))
        } else {
            (tv, StatusActionView::Finish(Err(reported(error))))
        },
    }
}

/// What a list of inputs or apps offers, from the reply that holds it under a key.
pub open spec fn listed(listing: Listing, key: Seq<char>, reply: Result<JsonView, Error>) -> Result<
    Seq<SelectableView>,
    ClientError,
> {
    match reply {
        Err(error) => Err(reported(error)),
        Ok(payload) => match payload.field(key).list() {
            Some(rows) => Ok(offers(listing, rows)),
            None => Err(ClientError::Protocol),
        },
    }
}

/// What a result with a list in it is.
pub open spec fn listed_view(listed: Result<Vec<Selectable>, ClientError>) -> Result<
    Seq<SelectableView>,
    ClientError,
> {
    match listed {
        Ok(items) => Ok(selectable_views(items@)),
        Err(error) => Err(error),
    }
}

/// What a connection is opened with.
pub struct Opening {
    /// Where the control socket is opened.
    pub endpoint: Endpoint,
    /// The first message on it.
    pub registration: Json,
}

/// What a connection is opened with.
pub struct OpeningView {
    pub endpoint: Endpoint,
    pub registration: JsonView,
}

impl View for Opening {
    type V = OpeningView;

    open spec fn view(&self) -> OpeningView {
        OpeningView { endpoint: self.endpoint, registration: self.registration@ }
    }
}

/// What pairing is opened with.
pub open spec fn pairing_opening(url: Seq<char>) -> Result<OpeningView, ClientError> {
    match endpoint_at(url_parsed(url), Resource::Root) {
        Ok(endpoint) => Ok(OpeningView { endpoint, registration: registration_message(None) }),
        Err(_) => Err(invalid_url_report()),
    }
}

/// What a connection with a credential is opened with: the opening, and what stands in the
/// credential.
pub open spec fn credential_opening(url: Seq<char>, credential: Option<CredentialView>) -> Result<
    (OpeningView, WebOsCredentialView),
    ClientError,
> {
    match endpoint_at(url_parsed(url), Resource::Root) {
        Err(_) => Err(invalid_url_report()),
        Ok(endpoint) => match credential {
            None => Err(ClientError::Unpaired),
            Some(credential) => match credential_parsed(credential, endpoint.secure) {
                Err(error) => Err(reported(error)),
                Ok(held) => Ok(
                    (
                        OpeningView {
                            endpoint,
                            registration: registration_message(Some(held.key)),
                        },
                        held,
                    ),
                ),
            },
        },
    }
}

/// The functions that the client offers by name: the identifier and the label of each.
pub open spec fn capability_list() -> Seq<(&'static str, &'static str)> {
    seq![
        ("power-off", "Power off"),
        ("volume-up", "Volume up"),
        ("volume-down", "Volume down"),
        ("mute", "Mute"),
        ("mute-on", "Mute on"),
        ("mute-off", "Mute off"),
        ("up", "Up"),
        ("down", "Down"),
        ("left", "Left"),
        ("right", "Right"),
        ("ok", "OK"),
        ("back", "Back"),
        ("home", "Home"),
        ("menu", "Menu"),
        ("red", "Red"),
        ("green", "Green"),
        ("yellow", "Yellow"),
        ("blue", "Blue"),
        ("channel-up", "Channel up"),
        ("channel-down", "Channel down"),
        ("play", "Play"),
        ("pause", "Pause"),
        ("stop", "Stop"),
        ("rewind", "Rewind"),
        ("fast-forward", "Fast forward"),
    ]
}

impl WebOsTv {
    /// The functions that the client offers by name: the identifier and the label of each.
    pub fn capabilities() -> (list: Vec<(&'static str, &'static str)>)
        ensures
            list@ == capability_list(),
    {
        vec![
            ("power-off", "Power off"),
            ("volume-up", "Volume up"),
            ("volume-down", "Volume down"),
            ("mute", "Mute"),
            ("mute-on", "Mute on"),
            ("mute-off", "Mute off"),
            ("up", "Up"),
            ("down", "Down"),
            ("left", "Left"),
            ("right", "Right"),
            ("ok", "OK"),
            ("back", "Back"),
            ("home", "Home"),
            ("menu", "Menu"),
            ("red", "Red"),
            ("green", "Green"),
            ("yellow", "Yellow"),
            ("blue", "Blue"),
            ("channel-up", "Channel up"),
            ("channel-down", "Channel down"),
            ("play", "Play"),
            ("pause", "Pause"),
            ("stop", "Stop"),
            ("rewind", "Rewind"),
            ("fast-forward", "Fast forward"),
        ]
    }

    /// A connection without a credential: the television always has to be paired first.
    pub fn connect(_settings: &Settings) -> (tv: Result<WebOsTv, ClientError>)
        ensures
            tv == Err::<WebOsTv, _>(ClientError::Unpaired),
    {
        Err(ClientError::Unpaired)
    }

    /// What a connection with a credential is opened with: the opening, and what stands in the
    /// credential. The certificate in it is the one that the television has to show.
    pub fn connect_with(settings: &Settings, credential: Option<&Credential>) -> (opening: Result<
        (Opening, WebOsCredential),
        ClientError,
    >)
        ensures
            ({
                let wanted = credential_opening(
                    settings.url@,
                    match credential {
                        Some(credential) => Some(credential@),
                        None => None,
                    },
                );
                match opening {
                    Ok((opening, held)) => wanted == Ok::<_, ClientError>((opening@, held@)),
                    Err(error) => wanted == Err::<(OpeningView, WebOsCredentialView), _>(error),
                }
            }),
    {
        let endpoint = match endpoint(settings.url.as_str()) {
            Ok(endpoint) => endpoint,
            Err(_) => {
                return Err(invalid_url());
            },
        };
        let credential = match credential {
            Some(credential) => credential,
            None => {
                return Err(ClientError::Unpaired);
            },
        };
        match WebOsCredential::parse(credential, endpoint.secure) {
            Ok(held) => {
                let registration = registration(Some(held.key.as_str()));
                Ok((Opening { endpoint, registration }, held))
            },
            Err(error) => Err(ClientError::from(error)),
        }
    }

    /// What pairing is opened with: the client registers without a key.
    pub fn pair_start(settings: &Settings) -> (opening: Result<Opening, ClientError>)
        ensures
            match opening {
                Ok(opening) => pairing_opening(settings.url@) == Ok::<_, ClientError>(opening@),
                Err(error) => pairing_opening(settings.url@) == Err::<OpeningView, _>(error),
            },
    {
        match endpoint(settings.url.as_str()) {
            Ok(endpoint) => Ok(Opening { endpoint, registration: registration(None) }),
            Err(_) => Err(invalid_url()),
        }
    }

    /// The connection on a control socket whose registration succeeded.
    pub fn new(settings: &Settings) -> (tv: WebOsTv)
        ensures
            tv@ == (TvView { url: settings.url@, next: 0, pointer: false }),
    {
        WebOsTv { url: settings.url.clone(), next: 0, pointer: false }
    }

    /// Whether there is a number left for another request.
    pub fn can_request(&self) -> (left: bool)
        ensures
            left == (self@.next < u64::MAX),
    {
        self.next < u64::MAX
    }

    /// A request under the next number. A URI that is not one of the protocol is refused.
    pub fn request(&mut self, uri: &str, payload: Json) -> (request: Result<Request, Error>)
        requires
            old(self)@.next < u64::MAX,
        ensures
            match request {
                Ok(request) => {
                    &&& is_request_uri(uri@)
                    &&& request@ == next_request(old(self)@, uri@, payload@)
                    &&& final(self)@ == after_request(old(self)@)
                },
                Err(error) => {
                    &&& !is_request_uri(uri@)
                    &&& error == Error::Configuration
                    &&& final(self)@ == old(self)@
                },
            },
    {
        if !request_uri(uri) {
            return Err(Error::Configuration);
        }
        Ok(self.numbered(uri, payload))
    }

    /// A request under the next number.
    fn numbered(&mut self, uri: &str, payload: Json) -> (request: Request)
        requires
            old(self)@.next < u64::MAX,
            is_request_uri(uri@),
        ensures
            request@ == next_request(old(self)@, uri@, payload@),
            final(self)@ == after_request(old(self)@),
    {
        self.next = self.next + 1;
        Request::new(self.next, uri, payload)
    }

    /// A request without parameters under the next number.
    fn simple(&mut self, uri: &str) -> (request: Request)
        requires
            old(self)@.next < u64::MAX,
            is_request_uri(uri@),
        ensures
            request@ == next_request(old(self)@, uri@, empty_object()),
            final(self)@ == after_request(old(self)@),
    {
        self.numbered(uri, Fields::new().object())
    }

    /// Starts a function. Whether the identifier of an input is valid is for the host to say.
    pub fn execute(&mut self, function: &Function, input_valid: bool) -> (action: Action)
        requires
            old(self)@.next < u64::MAX,
        ensures
            (final(self)@, action@) == execute_start(old(self)@, *function, input_valid),
    {
        proof {
            services_are_request_uris();
        }
        match function.command(input_valid) {
            Some(Command::Request { uri, payload }) => Action::Exchange {
                request: self.numbered(uri, payload),
                next: Next::Done,
            },
            Some(Command::ToggleMute) => Action::Exchange {
                request: self.volume(),
                next: Next::SetMute,
            },
            Some(Command::Press(button)) => self.button(button),
            None => Action::Finish(Err(ClientError::Unsupported)),
        }
    }

    /// Asks for the volume, and whether the sound is muted.
    fn volume(&mut self) -> (request: Request)
        requires
            old(self)@.next < u64::MAX,
        ensures
            request@ == next_request(old(self)@, "ssap://audio/getVolume"@, empty_object()),
            final(self)@ == after_request(old(self)@),
    {
        proof {
            services_are_request_uris();
        }
        self.simple("ssap://audio/getVolume")
    }

    /// Mutes the sound or unmutes it.
    fn muted(&mut self, on: bool) -> (request: Request)
        requires
            old(self)@.next < u64::MAX,
        ensures
            request@ == next_request(old(self)@, "ssap://audio/setMute"@, mute_payload(on)),
            final(self)@ == after_request(old(self)@),
    {
        proof {
            services_are_request_uris();
        }
        self.numbered(
            "ssap://audio/setMute",
            Fields::new().with("mute", Json::Bool(on)).object(),
        )
    }

    /// Starts the press of a button: through the pointer socket where it is open; else the
    /// television is asked for one.
    fn button(&mut self, name: &'static str) -> (action: Action)
        requires
            old(self)@.next < u64::MAX,
        ensures
            (final(self)@, action@) == command_start(old(self)@, CommandView::Press(name)),
    {
        if self.pointer {
            return Action::Press { message: press(name) };
        }
        proof {
            services_are_request_uris();
        }
        Action::Exchange {
            request: self.simple("ssap://com.webos.service.networkinput/getPointerInputSocket"),
            next: Next::OpenPointer(name),
        }
    }

    /// Opens the pointer socket that the television named, if it leads to the television.
    fn open_pointer(&self, raw: &str, button: &'static str) -> (action: Action)
        ensures
            (self@, action@) == pointer_start(self@, raw@, button),
    {
        let pointer = match pointer_endpoint(raw) {
            Ok(pointer) => pointer,
            Err(error) => {
                return Action::Finish(Err(ClientError::from(error)));
            },
        };
        let control = match endpoint(self.url.as_str()) {
            Ok(control) => control,
            Err(error) => {
                return Action::Finish(Err(ClientError::from(error)));
            },
        };
        if pointer != control {
            return Action::Finish(Err(ClientError::from(Error::Protocol)));
        }
        Action::Connect { url: raw.to_owned(), endpoint: pointer, button }
    }

    /// Goes on with a function after a reply.
    pub fn replied(&mut self, next: Next, reply: Result<Json, Error>) -> (action: Action)
        requires
            old(self)@.next < u64::MAX,
        ensures
            (final(self)@, action@) == reply_step(old(self)@, next, payload_view(reply)),
    {
        let payload = match reply {
            Ok(payload) => payload,
            Err(error) => {
                return Action::Finish(Err(ClientError::from(error)));
            },
        };
        match next {
            Next::Done => Action::Finish(Ok(())),
            Next::SetMute => match payload.boolean_at("mute") {
                Some(muted) => Action::Exchange { request: self.muted(!muted), next: Next::Done },
                None => Action::Finish(Err(ClientError::from(Error::Protocol))),
            },
            Next::OpenPointer(button) => match payload.text_at("socketPath") {
                Some(raw) => self.open_pointer(raw, button),
                None => Action::Finish(Err(ClientError::from(Error::Protocol))),
            },
        }
    }

    /// Goes on with a button press after the pointer socket was opened, or could not be.
    pub fn connected(&mut self, button: &'static str, outcome: Result<(), Error>) -> (action:
        Action)
        ensures
            (final(self)@, action@) == connect_step(old(self)@, button, outcome),
    {
        match outcome {
            Ok(_) => {
                self.pointer = true;
                Action::Press { message: press(button) }
            },
            Err(error) => Action::Finish(Err(ClientError::from(error))),
        }
    }

    /// Ends a button press. A pointer socket that does not send is let go.
    pub fn pressed(&mut self, outcome: Pressed) -> (action: Action)
        ensures
            (final(self)@, action@) == press_step(old(self)@, outcome),
    {
        match outcome {
            Pressed::Sent => Action::Finish(Ok(())),
            Pressed::NotReady => Action::Finish(Err(ClientError::from(Error::Transport))),
            Pressed::Failed => {
                self.pointer = false;
                Action::Finish(Err(ClientError::from(Error::Transport)))
            },
        }
    }

    /// Asks what is next for a status, or reports it.
    fn continue_status(&mut self, run: StatusRun) -> (action: StatusAction)
        requires
            old(self)@.next < u64::MAX,
        ensures
            (final(self)@, action@) == status_next(old(self)@, run@),
    {
        proof {
            list_view_len(run.replies@);
            services_are_request_uris();
        }
        if run.replies.len() < 5 {
            let (uri, payload) = status_query(run.replies.len());
            StatusAction::Exchange { request: self.numbered(uri, payload), run }
        } else {
            proof {
                list_view_at(run.replies@, 0);
                list_view_at(run.replies@, 1);
                list_view_at(run.replies@, 2);
                list_view_at(run.replies@, 3);
                list_view_at(run.replies@, 4);
            }
            StatusAction::Finish(
                Ok(
                    Status::from_replies(
                        &run.replies[0],
                        &run.replies[1],
                        &run.replies[2],
                        &run.replies[3],
                        &run.replies[4],
                    ),
                ),
            )
        }
    }

    /// Starts a status.
    pub fn status(&mut self) -> (action: StatusAction)
        requires
            old(self)@.next < u64::MAX,
        ensures
            (final(self)@, action@) == status_next(old(self)@, Seq::empty()),
    {
        let run = StatusRun { replies: Vec::new() };
        assert(run@ == Seq::<JsonView>::empty());
        self.continue_status(run)
    }

    /// Goes on with a status after a reply. The television may refuse to say what its sound output
    /// and its picture mode are.
    pub fn status_replied(&mut self, run: StatusRun, reply: Result<Json, Error>) -> (action:
        StatusAction)
        requires
            old(self)@.next < u64::MAX,
        ensures
            (final(self)@, action@) == status_step(old(self)@, run@, payload_view(reply)),
    {
        let mut replies = run.replies;
        let ghost before = replies@;
        proof {
            list_view_len(before);
        }
        let payload = match reply {
            Ok(payload) => payload,
            Err(error) => {
                if error != Error::Rejected || replies.len() < REQUIRED_REPLIES {
                    return StatusAction::Finish(Err(ClientError::from(error)));
                }
                Json::Null
            },
        };
        let ghost answer = payload@;
        replies.push(payload);
        assert(replies@.drop_last() == before);
        let run = StatusRun { replies };
        assert(run@ == list_view(before).push(answer));
        self.continue_status(run)
    }

    /// Asks for the list of inputs.
    pub fn inputs(&mut self) -> (request: Request)
        requires
            old(self)@.next < u64::MAX,
        ensures
            request@ == next_request(old(self)@, "ssap://tv/getExternalInputList"@, empty_object()),
            final(self)@ == after_request(old(self)@),
    {
        proof {
            services_are_request_uris();
        }
        self.simple("ssap://tv/getExternalInputList")
    }

    /// The inputs that the television lists. Which identifiers are valid is for the host to say;
    /// `choose_offers` then picks what is shown.
    pub fn inputs_replied(reply: Result<Json, Error>) -> (offered: Result<
        Vec<Selectable>,
        ClientError,
    >)
        ensures
            listed_view(offered) == listed(Listing::Inputs, "devices"@, payload_view(reply)),
    {
        Self::listed(Listing::Inputs, "devices", reply)
    }

    /// Asks for the list of apps.
    pub fn apps(&mut self) -> (request: Request)
        requires
            old(self)@.next < u64::MAX,
        ensures
            request@ == next_request(
                old(self)@,
                "ssap://com.webos.applicationManager/listLaunchPoints"@,
                empty_object(),
            ),
            final(self)@ == after_request(old(self)@),
    {
        proof {
            services_are_request_uris();
        }
        self.simple("ssap://com.webos.applicationManager/listLaunchPoints")
    }

    /// The apps that the television lists and that can be shown.
    pub fn apps_replied(reply: Result<Json, Error>) -> (shown: Result<
        Vec<Selectable>,
        ClientError,
    >)
        ensures
            listed_view(shown) == match listed(
                Listing::Apps,
                "launchPoints"@,
                payload_view(reply),
            ) {
                Ok(offered) => Ok(chosen(judged_apps(offered))),
                Err(error) => Err(error),
            },
    {
        match Self::listed(Listing::Apps, "launchPoints", reply) {
            Ok(offered) => Ok(choose_offers(&judge_apps(offered))),
            Err(error) => Err(error),
        }
    }

    /// What a list of inputs or apps offers, from the reply that holds it under a key.
    fn listed(listing: Listing, key: &str, reply: Result<Json, Error>) -> (offered: Result<
        Vec<Selectable>,
        ClientError,
    >)
        ensures
            listed_view(offered) == listed(listing, key@, payload_view(reply)),
    {
        match reply {
            Ok(payload) => match payload.list_at(key) {
                Some(rows) => Ok(read_offers(listing, rows)),
                None => Err(ClientError::Protocol),
            },
            Err(error) => Err(ClientError::from(error)),
        }
    }
}

} // verus!
