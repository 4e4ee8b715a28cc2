//! The messages of the control protocol.

use crate::error::Error;
use crate::json::{list_view, Fields, Json, JsonView};
use crate::text::{
    byte_len, control_free, decimal, decimal_text, starts_with, utf8_len, without_control,
};
use vstd::prelude::*;

verus! {

/// How many bytes the URI of a request may take.
pub const URI_LIMIT: usize = 256;

/// What the client asks to be allowed.
pub open spec fn permissions() -> Seq<Seq<char>> {
    seq![
        "CONTROL_AUDIO"@,
        "CONTROL_INPUT_TV"@,
        "CONTROL_INPUT_MEDIA_PLAYBACK"@,
        "CONTROL_MOUSE_AND_KEYBOARD"@,
        "CONTROL_POWER"@,
        "READ_POWER_STATE"@,
        "READ_INPUT_DEVICE_LIST"@,
        "READ_RUNNING_APPS"@,
    ]
}

/// The manifest that the client registers with.
pub open spec fn registration_manifest() -> JsonView {
    JsonView::Object(
        map![
            "manifestVersion"@ => JsonView::Integer(1),
            "appVersion"@ => JsonView::Text("1.0"@),
            "permissions"@ => JsonView::List(
                permissions().map_values(|permission: Seq<char>| JsonView::Text(permission)),
            ),
        ],
    )
}

/// The message that registers the client, with its key where it has one.
pub open spec fn registration_message(key: Option<Seq<char>>) -> JsonView {
    let fresh = map![
        "forcePairing"@ => JsonView::Bool(false),
        "pairingType"@ => JsonView::Text("PROMPT"@),
        "manifest"@ => registration_manifest(),
    ];
    let payload = match key {
        Some(key) => fresh.insert("client-key"@, JsonView::Text(key)),
        None => fresh,
    };
    JsonView::Object(
        map![
            "id"@ => JsonView::Text("register"@),
            "type"@ => JsonView::Text("register"@),
            "payload"@ => JsonView::Object(payload),
        ],
    )
}

/// The list of what the client asks to be allowed.
fn permission_list() -> (json: Json)
    ensures
        json@ == JsonView::List(
            permissions().map_values(|permission: Seq<char>| JsonView::Text(permission)),
        ),
{
    let names: [&'static str; 8] = [
        "CONTROL_AUDIO",
        "CONTROL_INPUT_TV",
        "CONTROL_INPUT_MEDIA_PLAYBACK",
        "CONTROL_MOUSE_AND_KEYBOARD",
        "CONTROL_POWER",
        "READ_POWER_STATE",
        "READ_INPUT_DEVICE_LIST",
        "READ_RUNNING_APPS",
    ];
    let ghost wanted = permissions().map_values(|permission: Seq<char>| JsonView::Text(permission));
    let mut items: Vec<Json> = Vec::new();
    let mut at: usize = 0;
    while at < 8
        invariant
            at <= 8,
            items@.len() == at,
            wanted.len() == 8,
            forall|i: int| 0 <= i < 8 ==> wanted[i] == JsonView::Text((#[trigger] names@[i])@),
            list_view(items@) == wanted.take(at as int),
        decreases 8 - at,
    {
        let ghost before = items@;
        items.push(Json::Text(names[at].to_owned()));
        assert(items@.drop_last() == before);
        assert(items@.last()@ == JsonView::Text(names@[at as int]@));
        assert(wanted.take(at + 1) == wanted.take(at as int).push(wanted[at as int]));
        at += 1;
    }
    assert(wanted.take(8) == wanted);
    Json::List(items)
}

/// The message that registers the client, with its key where it has one.
pub fn registration(key: Option<&str>) -> (message: Json)
    ensures
        message@ == registration_message(
            match key {
                Some(key) => Some(key@),
                None => None,
            },
        ),
{
    let manifest = Fields::new().with("manifestVersion", Json::Integer(1)).with_text(
        "appVersion",
        "1.0",
    ).with("permissions", permission_list()).object();
    let fresh = Fields::new().with("forcePairing", Json::Bool(false)).with_text(
        "pairingType",
        "PROMPT",
    ).with("manifest", manifest);
    let payload = match key {
        Some(key) => fresh.with_text("client-key", key),
        None => fresh,
    };
    Fields::new().with_text("id", "register").with_text("type", "register").with(
        "payload",
        payload.object(),
    ).object()
}

/// What a frame says of a registration that is under way: `None` where it says nothing of it.
pub open spec fn registration_outcome(frame: JsonView) -> Option<Result<(), Error>> {
    if frame.field("type"@) == JsonView::Text("error"@) {
        Some(Err(Error::Rejected))
    } else if frame.field("type"@) == JsonView::Text("registered"@) {
        Some(Ok(()))
    } else if frame.field("payload"@).field("pairingType"@) is Text {
        Some(Err(Error::Unpaired))
    } else {
        None
    }
}

/// What a frame says of a registration that is under way: `None` where it says nothing of it. A
/// television that asks for pairing does not know the client key.
pub fn registered(frame: &Json) -> (outcome: Option<Result<(), Error>>)
    ensures
        outcome == registration_outcome(frame@),
{
    if frame.holds("type", "error") {
        return Some(Err(Error::Rejected));
    }
    if frame.holds("type", "registered") {
        return Some(Ok(()));
    }
    if let Some(payload) = frame.get("payload") {
        if payload.text_at("pairingType").is_some() {
            return Some(Err(Error::Unpaired));
        }
    }
    None
}

/// Whether a text can be the URI of a request.
pub open spec fn is_request_uri(uri: Seq<char>) -> bool {
    &&& "ssap://"@.is_prefix_of(uri)
    &&& utf8_len(uri) <= URI_LIMIT
    &&& control_free(uri)
}

/// Whether a text can be the URI of a request.
pub fn request_uri(uri: &str) -> (fits: bool)
    ensures
        fits == is_request_uri(uri@),
{
    starts_with(uri, "ssap://") && byte_len(uri) <= URI_LIMIT && without_control(uri)
}

/// The identifier of the request with this number.
pub open spec fn request_id(number: nat) -> Seq<char> {
    "couch-"@ + decimal(number)
}

/// The identifier of the request with this number.
pub fn request_id_text(number: u64) -> (id: String)
    ensures
        id@ == request_id(number as nat),
{
    let mut id = "couch-".to_owned();
    id.append(decimal_text(number).as_str());
    id
}

/// The message of a request.
pub open spec fn request_message(id: Seq<char>, uri: Seq<char>, payload: JsonView) -> JsonView {
    JsonView::Object(
        map![
            "id"@ => JsonView::Text(id),
            "type"@ => JsonView::Text("request"@),
            "uri"@ => JsonView::Text(uri),
            "payload"@ => payload,
        ],
    )
}

/// A request on the control socket.
pub struct Request {
    pub id: String,
    pub message: Json,
}

/// What a request is.
pub struct RequestView {
    pub id: Seq<char>,
    pub message: JsonView,
}

impl View for Request {
    type V = RequestView;

    open spec fn view(&self) -> RequestView {
        RequestView { id: self.id@, message: self.message@ }
    }
}

/// The request with this number.
pub open spec fn request_at(number: nat, uri: Seq<char>, payload: JsonView) -> RequestView {
    RequestView {
        id: request_id(number),
        message: request_message(request_id(number), uri, payload),
    }
}

/// What a frame says of the request with this identifier: `None` where it is not its reply.
pub open spec fn reply_outcome(id: Seq<char>, frame: JsonView) -> Option<Result<JsonView, Error>> {
    if frame.field("id"@) != JsonView::Text(id) {
        None
    } else if frame.field("type"@) == JsonView::Text("error"@) || frame.field("payload"@).field(
        "returnValue"@,
    ) == JsonView::Bool(false) {
        Some(Err(Error::Rejected))
    } else if frame.field("type"@) != JsonView::Text("response"@) {
        Some(Err(Error::Protocol))
    } else {
        Some(Ok(frame.field("payload"@)))
    }
}

/// What a result with a JSON value in it is.
pub open spec fn payload_view(payload: Result<Json, Error>) -> Result<JsonView, Error> {
    match payload {
        Ok(json) => Ok(json@),
        Err(error) => Err(error),
    }
}

impl Request {
    /// The request with this number.
    pub fn new(number: u64, uri: &str, payload: Json) -> (request: Request)
        ensures
            request@ == request_at(number as nat, uri@, payload@),
    {
        let id = request_id_text(number);
        let message = Fields::new().with_text("id", id.as_str()).with_text(
            "type",
            "request",
        ).with_text("uri", uri).with("payload", payload).object();
        Request { id, message }
    }

    /// What a frame says of the request: `None` where it is not its reply.
    pub fn answer(&self, frame: &Json) -> (outcome: Option<Result<Json, Error>>)
        ensures
            match outcome {
                Some(outcome) => reply_outcome(self@.id, frame@) == Some(payload_view(outcome)),
                None => reply_outcome(self@.id, frame@) is None,
            },
    {
        if !frame.holds("id", self.id.as_str()) {
            return None;
        }
        let payload = match frame.get("payload") {
            Some(payload) => payload.clone(),
            None => Json::Null,
        };
        if frame.holds("type", "error") {
            return Some(Err(Error::Rejected));
        }
        if let Some(false) = payload.boolean_at("returnValue") {
            return Some(Err(Error::Rejected));
        }
        if !frame.holds("type", "response") {
            return Some(Err(Error::Protocol));
        }
        Some(Ok(payload))
    }
}

/// The message that presses a button of the remote control.
pub open spec fn press_message(name: Seq<char>) -> Seq<char> {
    "type:button\nname:"@ + name + "\n\n"@
}

/// The message that presses a button of the remote control.
pub fn press(name: &str) -> (message: String)
    ensures
        message@ == press_message(name@),
{
    let mut message = "type:button\nname:".to_owned();
    message.append(name);
    message.append("\n\n");
    message
}

} // verus!
