//! What the calls that drive a television give: its functions, its status and its requests. Each law
//! speaks of calls: of what was handed in and what came back.

use crate::address::{endpoint, pointer_endpoint, Endpoint};
use crate::error::{ClientError, Error};
use crate::frame::MESSAGE_LIMIT;
use crate::function::{sound_output, webos_name, Command, Function};
use crate::json::{Json, JsonView};
use crate::laws::protocol::message_keys_differ;
use crate::laws::selections::{labels_are_printable, printable};
use crate::laws::setup::control_code;
use crate::message::Request;
use crate::settings::Settings;
use crate::status::{status_query, Status};
use crate::text::decimal;
use crate::tv::{
    Action, Next, Pressed, StatusAction, StatusRun, TvView, WebOsTv, KIND, LABEL,
};
use vstd::prelude::*;
use vstd::utf8::*;

verus! {

/// Whether a request has this number, and asks for this.
pub open spec fn asks(request: Request, number: nat, uri: Seq<char>, payload: JsonView) -> bool {
    &&& request.id@ == "couch-"@ + decimal(number)
    &&& request.message@ is Object
    &&& request.message@->Object_0.dom() == set!["id"@, "type"@, "uri"@, "payload"@]
    &&& request.message@.field("id"@) == JsonView::Text(request.id@)
    &&& request.message@.field("type"@) == JsonView::Text("request"@)
    &&& request.message@.field("uri"@) == JsonView::Text(uri)
    &&& request.message@.field("payload"@) == payload
}

/// Whether a value is an object without entries.
pub open spec fn is_bare(value: JsonView) -> bool {
    value matches JsonView::Object(entries) && entries.dom() == Set::<Seq<char>>::empty()
}

/// Whether a value is an object with this entry and no other.
pub open spec fn has_only(value: JsonView, key: Seq<char>, entry: JsonView) -> bool {
    value matches JsonView::Object(entries) && entries.dom() == set![key] && entries[key] == entry
}

/// Whether a function is one request without parameters.
pub open spec fn is_plain(command: Option<Command>, wanted: Seq<char>) -> bool {
    command matches Some(Command::Request { uri, payload }) && uri@ == wanted && is_bare(payload@)
}

/// Whether a function is one request with one parameter.
pub open spec fn has_one_parameter(
    command: Option<Command>,
    wanted: Seq<char>,
    key: Seq<char>,
    entry: JsonView,
) -> bool {
    command matches Some(Command::Request { uri, payload }) && uri@ == wanted && has_only(
        payload@,
        key,
        entry,
    )
}

/// Whether a function is a press of this button.
pub open spec fn is_press(command: Option<Command>, wanted: Seq<char>) -> bool {
    command matches Some(Command::Press(name)) && name@ == wanted
}

/// Every function that takes no parameter calls the service of its own name, every time.
pub proof fn functions_call_their_service(
    function: Function,
    input_valid: bool,
    command: Option<Command>,
)
    requires
        call_ensures(Function::command, (&function, input_valid), command),
    ensures
        function is PowerOff ==> is_plain(command, "ssap://system/turnOff"@),
        function is VolumeUp ==> is_plain(command, "ssap://audio/volumeUp"@),
        function is VolumeDown ==> is_plain(command, "ssap://audio/volumeDown"@),
        function is ChannelUp ==> is_plain(command, "ssap://tv/channelUp"@),
        function is ChannelDown ==> is_plain(command, "ssap://tv/channelDown"@),
        function is Play ==> is_plain(command, "ssap://media.controls/play"@),
        function is Pause ==> is_plain(command, "ssap://media.controls/pause"@),
        function is Stop ==> is_plain(command, "ssap://media.controls/stop"@),
        function is Rewind ==> is_plain(command, "ssap://media.controls/rewind"@),
        function is FastForward ==> is_plain(command, "ssap://media.controls/fastForward"@),
        function is Mute ==> (command matches Some(Command::ToggleMute)),
        function is MuteOn ==> has_one_parameter(
            command,
            "ssap://audio/setMute"@,
            "mute"@,
            JsonView::Bool(true),
        ),
        function is MuteOff ==> has_one_parameter(
            command,
            "ssap://audio/setMute"@,
            "mute"@,
            JsonView::Bool(false),
        ),
        function is Other ==> command is None,
{
}

/// Every button function presses the button of its own name.
pub proof fn functions_press_their_button(
    function: Function,
    input_valid: bool,
    command: Option<Command>,
)
    requires
        call_ensures(Function::command, (&function, input_valid), command),
    ensures
        function is Up ==> is_press(command, "UP"@),
        function is Down ==> is_press(command, "DOWN"@),
        function is Left ==> is_press(command, "LEFT"@),
        function is Right ==> is_press(command, "RIGHT"@),
        function is Enter ==> is_press(command, "ENTER"@),
        function is Back ==> is_press(command, "BACK"@),
        function is Home ==> is_press(command, "HOME"@),
        function is Menu ==> is_press(command, "MENU"@),
        function is Red ==> is_press(command, "RED"@),
        function is Green ==> is_press(command, "GREEN"@),
        function is Yellow ==> is_press(command, "YELLOW"@),
        function is Blue ==> is_press(command, "BLUE"@),
{
}

/// Every valid input is switched to, every app with a printable identifier of at most 256 bytes is
/// launched, and every sound output is changed to, each by exactly the identifier that was asked
/// for. Any other is not offered.
pub proof fn what_is_selected_is_what_was_asked(
    id: String,
    input_valid: bool,
    input: Option<Command>,
    app: Option<Command>,
    extra: Option<Command>,
    name: &str,
    output: Option<String>,
)
    requires
        name@ == id@,
        call_ensures(sound_output, (name,), output),
        call_ensures(Function::command, (&Function::Input(id), input_valid), input),
        call_ensures(Function::command, (&Function::App(id), input_valid), app),
        call_ensures(Function::command, (&Function::Extra(id), input_valid), extra),
    ensures
        input_valid ==> has_one_parameter(
            input,
            "ssap://tv/switchInput"@,
            "inputId"@,
            JsonView::Text(id@),
        ),
        !input_valid ==> input is None,
        printable(id@, 256) ==> has_one_parameter(
            app,
            "ssap://system.launcher/launch"@,
            "id"@,
            JsonView::Text(id@),
        ),
        !printable(id@, 256) ==> app is None,
        output matches Some(output) ==> has_one_parameter(
            extra,
            "ssap://com.webos.service.apiadapter/audio/changeSoundOutput"@,
            "output"@,
            JsonView::Text(output@),
        ),
        output is None ==> extra is None,
{
    labels_are_printable(id@, 256);
}

/// Whether a text is made of small letters, digits and hyphens.
pub open spec fn is_hyphenated(name: Seq<char>) -> bool {
    forall|i: int|
        0 <= i < name.len() ==> {
            let c = #[trigger] name[i];
            'a' <= c <= 'z' || '0' <= c <= '9' || c == '-'
        }
}

/// A sound output is `sound-` and any name of small letters, digits and hyphens; the television is
/// told that name with an underscore for each hyphen and no other change. Nothing else is one.
pub proof fn sound_outputs_are_told_by_their_name(extra: &str, output: Option<String>, i: int)
    requires
        call_ensures(sound_output, (extra,), output),
    ensures
        output is Some <==> {
            &&& extra@.len() > 6
            &&& extra@.take(6) == "sound-"@
            &&& is_hyphenated(extra@.skip(6))
        },
        output matches Some(told) ==> {
            &&& told@.len() + 6 == extra@.len()
            &&& 0 <= i < told@.len() ==> told@[i] == if extra@[i + 6] == '-' {
                '_'
            } else {
                extra@[i + 6]
            }
        },
{
    reveal_strlit("sound-");
    assert("sound-"@.len() == 6);
    let name = extra@.skip(6);
    if output is Some {
        assert(output->Some_0@ == webos_name(name));
        assert forall|k: int| 0 <= k < name.len() implies {
            let c = #[trigger] name[k];
            'a' <= c <= 'z' || '0' <= c <= '9' || c == '-'
        } by {}
    }
    if is_hyphenated(name) && extra@.len() > 6 && extra@.take(6) == "sound-"@ {
        assert("sound-"@.is_prefix_of(extra@));
    }
}

/// The host knows the client as `webos`, the owner as an LG webOS TV, and a message on a socket takes
/// at most a mebibyte.
pub proof fn the_host_knows_the_client()
    ensures
        KIND@ == "webos"@,
        LABEL@ == "LG webOS TV"@,
        MESSAGE_LIMIT == 1024 * 1024,
{
}

/// A connection starts at the URL of the settings, without requests and without a pointer socket.
pub proof fn connections_start_fresh(settings: Settings, tv: WebOsTv, left: bool)
    requires
        call_ensures(WebOsTv::new, (&settings,), tv),
        call_ensures(WebOsTv::can_request, (&tv,), left),
    ensures
        tv@.url == settings.url@,
        tv@.next == 0,
        !tv@.pointer,
        left,
{
}

/// There is a number for another request until the last one is used, and with one every call can be
/// made.
pub proof fn requests_can_be_made_while_numbers_last(
    tv: &mut WebOsTv,
    same: WebOsTv,
    left: bool,
    uri: &str,
    payload: Json,
    function: Function,
    input_valid: bool,
    next: Next,
    run: StatusRun,
    reply: Result<Json, Error>,
)
    requires
        same == *old(tv),
        call_ensures(WebOsTv::can_request, (&same,), left),
    ensures
        left <==> same@.next < u64::MAX,
        left ==> {
            &&& call_requires(WebOsTv::request, (tv, uri, payload))
            &&& call_requires(WebOsTv::execute, (tv, &function, input_valid))
            &&& call_requires(WebOsTv::replied, (tv, next, reply))
            &&& call_requires(WebOsTv::status, (tv,))
            &&& call_requires(WebOsTv::status_replied, (tv, run, reply))
            &&& call_requires(WebOsTv::inputs, (tv,))
            &&& call_requires(WebOsTv::apps, (tv,))
        },
{
}

/// Every URI of the protocol is asked for, with the payload as it is and under the next number. Any
/// other is refused, and takes no number.
pub proof fn any_service_can_be_asked(
    tv: &mut WebOsTv,
    uri: &str,
    payload: Json,
    request: Result<Request, Error>,
)
    requires
        call_ensures(WebOsTv::request, (tv, uri, payload), request),
    ensures
        request is Ok <==> {
            &&& 7 <= uri@.len()
            &&& uri@.take(7) == "ssap://"@
            &&& encode_utf8(uri@).len() <= 256
            &&& forall|i: int| 0 <= i < uri@.len() ==> !control_code(#[trigger] uri@[i])
        },
        request matches Ok(request) ==> asks(
            request,
            old(tv)@.next + 1,
            uri@,
            payload@,
        ) && final(tv)@ == (TvView { next: old(tv)@.next + 1, ..old(tv)@ }),
        request matches Err(error) ==> error == Error::Configuration && final(tv)@ == old(tv)@,
{
    message_keys_differ();
    reveal_strlit("ssap://");
    assert("ssap://"@.len() == 7);
    if request is Ok {
        assert forall|i: int| 0 <= i < uri@.len() implies !control_code(#[trigger] uri@[i]) by {}
    }
}

/// The lists of inputs and of apps are asked for under the next number.
pub proof fn lists_are_asked_for(tv: &mut WebOsTv, request: Request)
    ensures
        call_ensures(WebOsTv::inputs, (tv,), request) ==> asks(
            request,
            old(tv)@.next + 1,
            "ssap://tv/getExternalInputList"@,
            request.message@.field("payload"@),
        ) && is_bare(request.message@.field("payload"@)) && final(tv)@ == (TvView {
            next: old(tv)@.next + 1,
            ..old(tv)@
        }),
        call_ensures(WebOsTv::apps, (tv,), request) ==> asks(
            request,
            old(tv)@.next + 1,
            "ssap://com.webos.applicationManager/listLaunchPoints"@,
            request.message@.field("payload"@),
        ) && is_bare(request.message@.field("payload"@)) && final(tv)@ == (TvView {
            next: old(tv)@.next + 1,
            ..old(tv)@
        }),
{
    message_keys_differ();
}

/// Whether the caller is to make this request, after which this follows, and the connection has
/// counted it.
pub open spec fn exchanges(
    action: Action,
    before: TvView,
    after: TvView,
    uri: Seq<char>,
    payload: JsonView,
    follows: Next,
) -> bool {
    &&& action matches Action::Exchange { request, next } && asks(
        request,
        before.next + 1,
        uri,
        payload,
    ) && next == follows
    &&& after == (TvView { next: before.next + 1, ..before })
}

/// Whether the caller is to press this button.
pub open spec fn presses(action: Action, button: Seq<char>) -> bool {
    action matches Action::Press { message } && message@ == "type:button\nname:"@ + button + "\n\n"@
}

/// A function makes the request that it is; where it is none it is unsupported, and changes nothing.
pub proof fn requests_of_functions_are_made(
    tv: &mut WebOsTv,
    function: Function,
    input_valid: bool,
    command: Option<Command>,
    action: Action,
)
    requires
        call_ensures(Function::command, (&function, input_valid), command),
        call_ensures(WebOsTv::execute, (tv, &function, input_valid), action),
    ensures
        command is None ==> action == Action::Finish(Err(ClientError::Unsupported)) && final(tv)@
            == old(tv)@,
        command matches Some(Command::Request { uri, payload }) ==> exchanges(
            action,
            old(tv)@,
            final(tv)@,
            uri@,
            payload@,
            Next::Done,
        ),
{
    message_keys_differ();
}

/// The mute toggles: the television is first asked whether it is muted.
pub proof fn the_mute_is_asked_for(tv: &mut WebOsTv, input_valid: bool, action: Action)
    requires
        call_ensures(WebOsTv::execute, (tv, &Function::Mute, input_valid), action),
    ensures
        exists|payload: JsonView|
            is_bare(payload) && #[trigger] exchanges(
                action,
                old(tv)@,
                final(tv)@,
                "ssap://audio/getVolume"@,
                payload,
                Next::SetMute,
            ),
{
    message_keys_differ();
    let payload = JsonView::Object(Map::empty());
    assert(payload->Object_0.dom() == Set::<Seq<char>>::empty());
    assert(exchanges(
        action,
        old(tv)@,
        final(tv)@,
        "ssap://audio/getVolume"@,
        payload,
        Next::SetMute,
    ));
}

/// The mute toggles on every reply that holds a truth value under `mute`, whatever else it holds:
/// the opposite is set, and success waits for the answer to that. Any other reply breaks the
/// protocol.
pub proof fn the_mute_is_set_to_the_opposite(tv: &mut WebOsTv, payload: Json, action: Action)
    requires
        call_ensures(WebOsTv::replied, (tv, Next::SetMute, Ok(payload)), action),
    ensures
        payload@.field("mute"@) matches JsonView::Bool(muted) ==> exists|set: JsonView|
            has_only(set, "mute"@, JsonView::Bool(!muted)) && #[trigger] exchanges(
                action,
                old(tv)@,
                final(tv)@,
                "ssap://audio/setMute"@,
                set,
                Next::Done,
            ),
        !(payload@.field("mute"@) is Bool) ==> action == Action::Finish(Err(ClientError::Protocol))
            && final(tv)@ == old(tv)@,
{
    message_keys_differ();
    if let JsonView::Bool(muted) = payload@.field("mute"@) {
        let set = JsonView::Object(map!["mute"@ => JsonView::Bool(!muted)]);
        assert(set->Object_0.dom() == set!["mute"@]);
        assert(exchanges(
            action,
            old(tv)@,
            final(tv)@,
            "ssap://audio/setMute"@,
            set,
            Next::Done,
        ));
    }
}

/// The button that is pressed is the button that was asked for: on a pointer socket that is open at
/// once, else once one is open. Until then the television is asked for one, for that button.
pub proof fn the_button_asked_for_is_pressed(
    tv: &mut WebOsTv,
    function: Function,
    input_valid: bool,
    command: Option<Command>,
    action: Action,
)
    requires
        call_ensures(Function::command, (&function, input_valid), command),
        call_ensures(WebOsTv::execute, (tv, &function, input_valid), action),
    ensures
        command matches Some(Command::Press(name)) ==> {
            &&& old(tv)@.pointer ==> presses(action, name@) && final(tv)@ == old(tv)@
            &&& !old(tv)@.pointer ==> exists|payload: JsonView|
                is_bare(payload) && #[trigger] exchanges(
                    action,
                    old(tv)@,
                    final(tv)@,
                    "ssap://com.webos.service.networkinput/getPointerInputSocket"@,
                    payload,
                    Next::OpenPointer(name),
                )
        },
{
    message_keys_differ();
    if let Some(Command::Press(name)) = command {
        if !old(tv)@.pointer {
            let payload = JsonView::Object(Map::empty());
            assert(payload->Object_0.dom() == Set::<Seq<char>>::empty());
            assert(exchanges(
                action,
                old(tv)@,
                final(tv)@,
                "ssap://com.webos.service.networkinput/getPointerInputSocket"@,
                payload,
                Next::OpenPointer(name),
            ));
        }
    }
}

/// Once the pointer socket was opened for a button, that button is pressed on it, and the socket
/// counts as open. A socket that could not be opened is reported, and changes nothing.
pub proof fn an_opened_socket_presses_its_button(
    tv: &mut WebOsTv,
    button: &'static str,
    outcome: Result<(), Error>,
    error: Error,
    report: ClientError,
    action: Action,
)
    requires
        outcome is Err ==> outcome->Err_0 == error,
        call_ensures(<ClientError as From<Error>>::from, (error,), report),
        call_ensures(WebOsTv::connected, (tv, button, outcome), action),
    ensures
        outcome is Ok ==> presses(action, button@) && final(tv)@ == (TvView {
            pointer: true,
            ..old(tv)@
        }),
        outcome is Err ==> action == Action::Finish(Err(report)) && final(tv)@ == old(tv)@,
{
}

/// A press that was sent succeeds. One that was not fails with the connection, and only one that
/// failed to send lets the pointer socket go.
pub proof fn presses_succeed_when_sent(tv: &mut WebOsTv, outcome: Pressed, action: Action)
    requires
        call_ensures(WebOsTv::pressed, (tv, outcome), action),
    ensures
        outcome == Pressed::Sent ==> action == Action::Finish(Ok(())) && final(tv)@ == old(tv)@,
        outcome == Pressed::NotReady ==> action == Action::Finish(Err(ClientError::Transport))
            && final(tv)@ == old(tv)@,
        outcome == Pressed::Failed ==> action == Action::Finish(Err(ClientError::Transport))
            && final(tv)@ == (TvView { pointer: false, ..old(tv)@ }),
{
}

/// Any reply ends a function that is one request in success, and any failure ends a function in that
/// failure.
pub proof fn replies_end_functions(
    tv: &mut WebOsTv,
    next: Next,
    reply: Result<Json, Error>,
    error: Error,
    report: ClientError,
    action: Action,
)
    requires
        reply is Err ==> reply->Err_0 == error,
        call_ensures(<ClientError as From<Error>>::from, (error,), report),
        call_ensures(WebOsTv::replied, (tv, next, reply), action),
    ensures
        reply is Err ==> action == Action::Finish(Err(report)) && final(tv)@ == old(tv)@,
        reply is Ok && next is Done ==> action == Action::Finish(Ok(())) && final(tv)@ == old(tv)@,
{
}

/// Every pointer socket that leads where the control socket leads is opened, at the URL that the
/// television named and for the button that was asked for. One that leads elsewhere, or a reply that
/// names none, breaks the protocol; one that leads nowhere blames the URL.
pub proof fn pointer_sockets_of_the_television_are_opened(
    tv: &mut WebOsTv,
    button: &'static str,
    payload: Json,
    raw: &str,
    url: &str,
    pointer: Result<Endpoint, Error>,
    control: Result<Endpoint, Error>,
    action: Action,
)
    requires
        url@ == old(tv)@.url,
        payload@.field("socketPath"@) is Text ==> payload@.field("socketPath"@) == JsonView::Text(
            raw@,
        ),
        call_ensures(pointer_endpoint, (raw,), pointer),
        call_ensures(endpoint, (url,), control),
        call_ensures(WebOsTv::replied, (tv, Next::OpenPointer(button), Ok(payload)), action),
    ensures
        final(tv)@ == old(tv)@,
        !(payload@.field("socketPath"@) is Text) ==> action == Action::Finish(
            Err(ClientError::Protocol),
        ),
        payload@.field("socketPath"@) is Text && pointer is Ok && pointer == control ==> (
        action matches Action::Connect { url, endpoint, button: pressed } && url@ == raw@ && endpoint
            == pointer->Ok_0 && pressed == button),
        payload@.field("socketPath"@) is Text && pointer is Ok && control is Ok && pointer != control
            ==> action == Action::Finish(Err(ClientError::Protocol)),
        payload@.field("socketPath"@) is Text && (pointer is Err || control is Err) ==> (
        action matches Action::Finish(Err(error)) && error is InvalidSetting),
{
}

/// Whether a question of a status asks this service, and for the picture mode where it asks for
/// settings.
pub open spec fn is_question(place: int, uri: Seq<char>, payload: JsonView) -> bool {
    if place == 0 {
        uri == "ssap://com.webos.service.tvpower/power/getPowerState"@ && is_bare(payload)
    } else if place == 1 {
        uri == "ssap://audio/getVolume"@ && is_bare(payload)
    } else if place == 2 {
        uri == "ssap://com.webos.applicationManager/getForegroundAppInfo"@ && is_bare(payload)
    } else if place == 3 {
        uri == "ssap://com.webos.service.apiadapter/audio/getSoundOutput"@ && is_bare(payload)
    } else {
        &&& uri == "ssap://settings/getSystemSettings"@
        &&& payload is Object
        &&& payload->Object_0.dom() == set!["category"@, "keys"@]
        &&& payload.field("category"@) == JsonView::Text("picture"@)
        &&& payload.field("keys"@) == JsonView::List(seq![JsonView::Text("pictureMode"@)])
    }
}

/// The questions of a status are on power, volume, foreground app, sound output and picture, in this
/// order.
pub proof fn the_questions_of_a_status(at: usize, query: (&'static str, Json))
    requires
        call_ensures(status_query, (at,), query),
    ensures
        at < 5 ==> is_question(at as int, query.0@, query.1@),
        at < 5 ==> call_requires(status_query, (at,)),
{
    reveal_strlit("category");
    reveal_strlit("keys");
    assert("category"@.len() == 8 && "keys"@.len() == 4);
}

/// Whether the caller is to ask this question of a status, which then has these replies so far.
pub open spec fn asks_question(
    action: StatusAction,
    before: TvView,
    after: TvView,
    place: int,
    replies: Seq<JsonView>,
) -> bool {
    &&& action matches StatusAction::Exchange { request, run } && run@ == replies && asks(
        request,
        before.next + 1,
        request.message@.field("uri"@)->Text_0,
        request.message@.field("payload"@),
    ) && is_question(
        place,
        request.message@.field("uri"@)->Text_0,
        request.message@.field("payload"@),
    )
    &&& after == (TvView { next: before.next + 1, ..before })
}

/// A status starts with its first question.
pub proof fn a_status_starts_with_its_first_question(tv: &mut WebOsTv, action: StatusAction)
    requires
        call_ensures(WebOsTv::status, (tv,), action),
    ensures
        asks_question(action, old(tv)@, final(tv)@, 0, Seq::empty()),
{
    message_keys_differ();
}

/// Every reply to one of the first four questions brings the next question, with the reply kept. A
/// refusal of the fourth counts as a reply that says nothing.
pub proof fn a_status_goes_on_with_the_next_question(
    tv: &mut WebOsTv,
    run: StatusRun,
    reply: Result<Json, Error>,
    action: StatusAction,
)
    requires
        run@.len() < 4,
        call_ensures(WebOsTv::status_replied, (tv, run, reply), action),
    ensures
        reply matches Ok(payload) ==> asks_question(
            action,
            old(tv)@,
            final(tv)@,
            (run@.len() + 1) as int,
            run@.push(payload@),
        ),
        reply == Err::<Json, Error>(Error::Rejected) && run@.len() == 3 ==> asks_question(
            action,
            old(tv)@,
            final(tv)@,
            4,
            run@.push(JsonView::Null),
        ),
{
    message_keys_differ();
    reveal_strlit("category");
    reveal_strlit("keys");
    assert("category"@.len() == 8 && "keys"@.len() == 4);
}

/// Any failure but a refusal of the last two questions ends a status in that failure.
pub proof fn a_status_fails_with_its_failure(
    tv: &mut WebOsTv,
    run: StatusRun,
    error: Error,
    report: ClientError,
    action: StatusAction,
)
    requires
        error != Error::Rejected || run@.len() < 3,
        call_ensures(<ClientError as From<Error>>::from, (error,), report),
        call_ensures(WebOsTv::status_replied, (tv, run, Err(error)), action),
    ensures
        action matches StatusAction::Finish(Err(reported)) && reported == report,
        final(tv)@ == old(tv)@,
{
}

/// Whether two optional texts are the same.
pub open spec fn same_option(a: Option<String>, b: Option<String>) -> bool {
    match (a, b) {
        (Some(a), Some(b)) => a@ == b@,
        (None, None) => true,
        _ => false,
    }
}

/// Whether two statuses are the same.
pub open spec fn same_status(a: Status, b: Status) -> bool {
    &&& a.on == b.on
    &&& a.muted == b.muted
    &&& a.volume == b.volume
    &&& same_option(a.input, b.input)
    &&& same_option(a.app, b.app)
    &&& same_option(a.sound_output, b.sound_output)
    &&& same_option(a.picture_mode, b.picture_mode)
}

/// The reply to the last question ends a status in what the five replies say, in the order of their
/// questions. A refusal of it counts as a reply that says nothing.
pub proof fn a_status_is_made_of_its_replies(
    tv: &mut WebOsTv,
    run: StatusRun,
    reply: Result<Json, Error>,
    power: Json,
    volume: Json,
    foreground: Json,
    sound: Json,
    picture: Json,
    made: Status,
    action: StatusAction,
)
    requires
        run@ == seq![power@, volume@, foreground@, sound@],
        reply matches Ok(payload) && payload@ == picture@ || reply == Err::<Json, Error>(
            Error::Rejected,
        ) && picture@ == JsonView::Null,
        call_ensures(
            Status::from_replies,
            (&power, &volume, &foreground, &sound, &picture),
            made,
        ),
        call_ensures(WebOsTv::status_replied, (tv, run, reply), action),
    ensures
        action matches StatusAction::Finish(Ok(status)) && same_status(status, made),
        final(tv)@ == old(tv)@,
{
    let replies = run@.push(picture@);
    assert(replies[0] == power@ && replies[1] == volume@ && replies[2] == foreground@ && replies[3]
        == sound@ && replies[4] == picture@);
}

/// Whether a text is shown exactly where one is there that is printable within the limit.
pub open spec fn is_shown(found: Option<String>, value: JsonView, limit: nat) -> bool {
    &&& found is Some <==> value is Text && printable(value->Text_0, limit)
    &&& found matches Some(text) ==> text@ == value->Text_0
}

/// A status says what the replies say, each field for itself: whether the television is on, the
/// mute, every volume from 0 to 100, and each name that is printable.
pub proof fn a_status_says_what_the_replies_say(
    power: Json,
    volume: Json,
    foreground: Json,
    sound: Json,
    picture: Json,
    status: Status,
)
    requires
        call_ensures(
            Status::from_replies,
            (&power, &volume, &foreground, &sound, &picture),
            status,
        ),
    ensures
        status.on is Some <==> power@.field("state"@) is Text,
        status.on matches Some(on) ==> {
            let state = power@.field("state"@)->Text_0;
            on <==> state != "Power Off"@ && state != "Suspend"@ && state != "Screen Off"@
        },
        status.muted is Some <==> volume@.field("mute"@) is Bool,
        status.muted matches Some(muted) ==> volume@.field("mute"@) == JsonView::Bool(muted),
        status.volume is Some <==> (volume@.field("volume"@) matches JsonView::Integer(n) && n
            <= 100),
        status.volume matches Some(level) ==> volume@.field("volume"@) == JsonView::Integer(
            level as nat,
        ),
        is_shown(status.input, foreground@.field("appId"@), 256),
        is_shown(status.app, foreground@.field("appName"@), 4096),
        is_shown(status.sound_output, sound@.field("soundOutput"@), 256),
        is_shown(status.picture_mode, picture@.field("settings"@).field("pictureMode"@), 256),
{
    labels_are_printable(foreground@.field("appId"@)->Text_0, 256);
    labels_are_printable(foreground@.field("appName"@)->Text_0, 4096);
    labels_are_printable(sound@.field("soundOutput"@)->Text_0, 256);
    labels_are_printable(picture@.field("settings"@).field("pictureMode"@)->Text_0, 256);
}

} // verus!
