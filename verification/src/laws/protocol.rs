//! What the calls that speak the protocol give: JSON values, the messages that are sent, what is
//! made of what comes in, and when an exchange is over. Each law speaks of calls: of what was handed
//! in and what came back.

use crate::error::{ClientError, Error};
use crate::exchange::{Exchange, Heard, Want};
use crate::frame::{read, read_text, Reading, SocketEvent};
use crate::json::{list_view, list_view_at, list_view_len, object_view, Fields, Json, JsonView};
use crate::laws::setup::{blames_the_url, control_code, numeral_value, numerals_mean_their_numbers};
use crate::message::{press, registered, registration, request_id_text, request_uri, Request};
use crate::text::{decimal, same_text, starts_with};
use crate::wire::{decode, encode, json_parsed, json_text};
use vstd::prelude::*;
use vstd::utf8::*;

verus! {

/// Texts are the same, or one starts with the other, character by character.
pub proof fn texts_are_compared_whole(a: &str, b: &str, same: bool, starts: bool)
    requires
        call_ensures(same_text, (a, b), same),
        call_ensures(starts_with, (a, b), starts),
    ensures
        same <==> a@ == b@,
        starts <==> b@.len() <= a@.len() && a@.take(b@.len() as int) == b@,
{
}

/// A JSON value means what it holds: a list its items in their places.
pub proof fn values_mean_what_they_hold(
    b: bool,
    n: u64,
    text: String,
    items: Vec<Json>,
    i: int,
    entries: Vec<(String, Json)>,
)
    ensures
        Json::Null@ == JsonView::Null,
        Json::Bool(b)@ == JsonView::Bool(b),
        Json::Integer(n)@ == JsonView::Integer(n as nat),
        Json::OtherNumber(text)@ == JsonView::OtherNumber(text@),
        Json::Text(text)@ == JsonView::Text(text@),
        Json::List(items)@ == JsonView::List(list_view(items@)),
        list_view(items@).len() == items@.len(),
        0 <= i < items@.len() ==> list_view(items@)[i] == items@[i]@,
        Json::Object(entries)@ == JsonView::Object(object_view(entries@)),
{
    list_view_len(items@);
    if 0 <= i < items@.len() {
        list_view_at(items@, i);
    }
}

/// Of the entries of an object under one key the last counts, and an object holds nothing else.
pub proof fn the_last_entry_under_a_key_counts(
    entries: Seq<(String, Json)>,
    key: Seq<char>,
    last: int,
)
    ensures
        0 <= last < entries.len() && entries[last].0@ == key && (forall|i: int|
            last < i < entries.len() ==> (#[trigger] entries[i]).0@ != key) ==> object_view(
            entries,
        ).contains_key(key) && object_view(entries)[key] == entries[last].1@,
        (forall|i: int| 0 <= i < entries.len() ==> (#[trigger] entries[i]).0@ != key)
            ==> !object_view(entries).contains_key(key),
    decreases entries.len(),
{
    if entries.len() > 0 {
        the_last_entry_under_a_key_counts(entries.drop_last(), key, last);
        let end = entries.len() - 1;
        assert(entries.last() == entries[end]);
        assert forall|i: int| 0 <= i < end implies #[trigger] entries.drop_last()[i] == entries[i] by {}
        if forall|i: int| 0 <= i < entries.len() ==> (#[trigger] entries[i]).0@ != key {
            assert(entries[end].0@ != key);
        }
        if 0 <= last < end && entries[last].0@ == key && (forall|i: int|
            last < i < entries.len() ==> (#[trigger] entries[i]).0@ != key) {
            assert(entries[end].0@ != key);
            assert(entries.drop_last()[last] == entries[last]);
        }
    }
}

/// What stands under a key of an object is found there, as what it is and as nothing else. Under a
/// key that is missing, and in a value that is no object, nothing is found.
pub proof fn entries_are_found_under_their_keys(
    json: Json,
    key: &str,
    expected: &str,
    found: Option<&Json>,
    text: Option<&str>,
    boolean: Option<bool>,
    integer: Option<u64>,
    list: Option<&Vec<Json>>,
    same: bool,
)
    requires
        call_ensures(Json::get, (&json, key), found),
        call_ensures(Json::text_at, (&json, key), text),
        call_ensures(Json::boolean_at, (&json, key), boolean),
        call_ensures(Json::integer_at, (&json, key), integer),
        call_ensures(Json::list_at, (&json, key), list),
        call_ensures(Json::holds, (&json, key, expected), same),
    ensures
        json@ matches JsonView::Object(entries) ==> {
            let entry = if entries.contains_key(key@) {
                entries[key@]
            } else {
                JsonView::Null
            };
            &&& json@.field(key@) == entry
            &&& entry != JsonView::Null ==> (found matches Some(value) && value@ == entry)
            &&& found matches Some(value) ==> value@ == entry
            &&& text is Some <==> entry is Text
            &&& text matches Some(text) ==> entry == JsonView::Text(text@)
            &&& boolean is Some <==> entry is Bool
            &&& boolean matches Some(b) ==> entry == JsonView::Bool(b)
            &&& integer is Some <==> entry is Integer
            &&& integer matches Some(n) ==> entry == JsonView::Integer(n as nat)
            &&& list is Some <==> entry is List
            &&& list matches Some(items) ==> entry == JsonView::List(list_view(items@))
            &&& same <==> entry == JsonView::Text(expected@)
        },
        !(json@ is Object) ==> {
            &&& json@.field(key@) == JsonView::Null
            &&& found matches Some(value) ==> value@ == JsonView::Null
            &&& text is None && boolean is None && integer is None && list is None
            &&& !same
        },
{
}

/// A copy of a value is the value.
pub proof fn copies_are_equal(json: Json, copy: Json)
    requires
        call_ensures(Json::clone, (&json,), copy),
    ensures
        copy@ == json@,
{
}

/// An object under construction holds what it held before and the entry that was added.
pub proof fn objects_gain_one_entry_at_a_time(
    empty: Fields,
    fields: Fields,
    key: &str,
    value: Json,
    text: &str,
    with: Fields,
    with_text: Fields,
    object: Json,
    other: Seq<char>,
)
    requires
        call_ensures(Fields::new, (), empty),
        call_ensures(Fields::with, (fields, key, value), with),
        call_ensures(Fields::with_text, (fields, key, text), with_text),
        call_ensures(Fields::object, (fields,), object),
    ensures
        !empty@.contains_key(other),
        with@.contains_key(key@) && with@[key@] == value@,
        with_text@.contains_key(key@) && with_text@[key@] == JsonView::Text(text@),
        other != key@ ==> {
            &&& with@.contains_key(other) <==> fields@.contains_key(other)
            &&& with_text@.contains_key(other) <==> fields@.contains_key(other)
            &&& fields@.contains_key(other) ==> with@[other] == fields@[other] && with_text@[other]
                == fields@[other]
        },
        object@ == JsonView::Object(fields@),
{
}

/// A text is read as the JSON that it is, and only a text that is not JSON is not read.
pub proof fn json_texts_are_read(text: &str, decoded: Option<Json>)
    requires
        call_ensures(decode, (text,), decoded),
    ensures
        json_parsed(text@) matches Some(value) ==> (decoded matches Some(json) && json@ == value),
        json_parsed(text@) is None ==> decoded is None,
{
}

/// Values without numbers other than integers are written exactly: texts, truth values and integers
/// of any kind, and lists and objects of what is written exactly.
pub proof fn values_are_written(json: Json, encoded: String)
    requires
        call_ensures(encode, (&json,), encoded),
    ensures
        json@ is Null || json@ is Bool || json@ is Text ==> encoded@ == json_text(json@),
        json@ matches JsonView::Integer(n) && n <= u64::MAX ==> encoded@ == json_text(json@),
        json@ matches JsonView::List(items) && (forall|i: int|
            0 <= i < items.len() ==> (#[trigger] items[i]).is_writable()) ==> encoded@ == json_text(
            json@,
        ),
        json@ matches JsonView::Object(entries) && (forall|key: Seq<char>|
            entries.contains_key(key) ==> (#[trigger] entries[key]).is_writable()) ==> encoded@
            == json_text(json@),
{
}

/// Texts, truth values and integers can be written exactly, at any depth of lists and objects.
pub proof fn writable_values_are_built_of_writable_values(
    b: bool,
    n: u64,
    text: Seq<char>,
    items: Seq<JsonView>,
    entries: Map<Seq<char>, JsonView>,
)
    ensures
        JsonView::Null.is_writable(),
        JsonView::Bool(b).is_writable(),
        JsonView::Integer(n as nat).is_writable(),
        JsonView::Text(text).is_writable(),
        json_parsed(text) == Some(JsonView::OtherNumber(text)) ==> JsonView::OtherNumber(
            text,
        ).is_writable(),
        (forall|i: int| 0 <= i < items.len() ==> (#[trigger] items[i]).is_writable())
            ==> JsonView::List(items).is_writable(),
        (forall|key: Seq<char>| entries.contains_key(key) ==> (#[trigger] entries[key]).is_writable())
            ==> JsonView::Object(entries).is_writable(),
{
}

/// What the client registers with: a prompt for approval, never forced, for these permissions.
pub open spec fn asks_for_approval(payload: JsonView) -> bool {
    let manifest = payload.field("manifest"@);
    &&& payload.field("forcePairing"@) == JsonView::Bool(false)
    &&& payload.field("pairingType"@) == JsonView::Text("PROMPT"@)
    &&& manifest.field("manifestVersion"@) == JsonView::Integer(1)
    &&& manifest.field("appVersion"@) == JsonView::Text("1.0"@)
    &&& manifest.field("permissions"@) == JsonView::List(
        seq![
            JsonView::Text("CONTROL_AUDIO"@),
            JsonView::Text("CONTROL_INPUT_TV"@),
            JsonView::Text("CONTROL_INPUT_MEDIA_PLAYBACK"@),
            JsonView::Text("CONTROL_MOUSE_AND_KEYBOARD"@),
            JsonView::Text("CONTROL_POWER"@),
            JsonView::Text("READ_POWER_STATE"@),
            JsonView::Text("READ_INPUT_DEVICE_LIST"@),
            JsonView::Text("READ_RUNNING_APPS"@),
        ],
    )
}

/// The keys of the messages differ.
pub proof fn message_keys_differ()
    ensures
        "id"@.len() == 2,
        "uri"@.len() == 3,
        "type"@.len() == 4,
        "payload"@.len() == 7,
        "manifest"@.len() == 8,
        "client-key"@.len() == 10,
        "appVersion"@.len() == 10,
        "pairingType"@.len() == 11,
        "permissions"@.len() == 11,
        "forcePairing"@.len() == 12,
        "manifestVersion"@.len() == 15,
{
    reveal_strlit("id");
    reveal_strlit("uri");
    reveal_strlit("type");
    reveal_strlit("payload");
    reveal_strlit("manifest");
    reveal_strlit("client-key");
    reveal_strlit("appVersion");
    reveal_strlit("pairingType");
    reveal_strlit("permissions");
    reveal_strlit("forcePairing");
    reveal_strlit("manifestVersion");
}

/// A registration asks for approval in the same way with every key and without one. With a key it
/// holds exactly that key, without one it holds none, and it holds nothing else.
pub proof fn registrations_send_the_key(key: &str, keyed: Json, keyless: Json)
    requires
        call_ensures(registration, (Some(key),), keyed),
        call_ensures(registration, (None::<&str>,), keyless),
    ensures
        keyed@.field("id"@) == JsonView::Text("register"@),
        keyed@.field("type"@) == JsonView::Text("register"@),
        keyed@->Object_0.dom() == set!["id"@, "type"@, "payload"@],
        keyless@->Object_0.dom() == keyed@->Object_0.dom(),
        keyless@.field("id"@) == keyed@.field("id"@),
        keyless@.field("type"@) == keyed@.field("type"@),
        asks_for_approval(keyed@.field("payload"@)),
        asks_for_approval(keyless@.field("payload"@)),
        keyed@.field("payload"@).field("client-key"@) == JsonView::Text(key@),
        keyed@.field("payload"@) == JsonView::Object(
            keyless@.field("payload"@)->Object_0.insert("client-key"@, JsonView::Text(key@)),
        ),
        keyless@.field("payload"@)->Object_0.dom() == set![
            "forcePairing"@,
            "pairingType"@,
            "manifest"@,
        ],
        keyless@.field("payload"@).field("manifest"@)->Object_0.dom() == set![
            "manifestVersion"@,
            "appVersion"@,
            "permissions"@,
        ],
{
    message_keys_differ();
    let manifest = keyless@.field("payload"@).field("manifest"@);
    let permissions = manifest.field("permissions"@)->List_0;
    assert(permissions == seq![
        JsonView::Text("CONTROL_AUDIO"@),
        JsonView::Text("CONTROL_INPUT_TV"@),
        JsonView::Text("CONTROL_INPUT_MEDIA_PLAYBACK"@),
        JsonView::Text("CONTROL_MOUSE_AND_KEYBOARD"@),
        JsonView::Text("CONTROL_POWER"@),
        JsonView::Text("READ_POWER_STATE"@),
        JsonView::Text("READ_INPUT_DEVICE_LIST"@),
        JsonView::Text("READ_RUNNING_APPS"@),
    ]);
}

/// A registration is refused by an error, done by `registered`, and unknown to a television that
/// names a way of pairing. A frame that says none of these says nothing of it, whatever else it
/// holds.
pub proof fn registrations_end_with_a_word(frame: Json, outcome: Option<Result<(), Error>>)
    requires
        call_ensures(registered, (&frame,), outcome),
    ensures
        frame@.field("type"@) == JsonView::Text("error"@) <==> outcome == Some(
            Err::<(), Error>(Error::Rejected),
        ),
        frame@.field("type"@) == JsonView::Text("registered"@) <==> outcome == Some(
            Ok::<(), Error>(()),
        ),
        outcome == Some(Err::<(), Error>(Error::Unpaired)) <==> frame@.field("payload"@).field(
            "pairingType"@,
        ) is Text && frame@.field("type"@) != JsonView::Text("error"@) && frame@.field("type"@)
            != JsonView::Text("registered"@),
        outcome matches Some(Err(error)) ==> error == Error::Rejected || error == Error::Unpaired,
{
    reveal_strlit("error");
    reveal_strlit("registered");
    assert("error"@.len() != "registered"@.len());
}

/// A text is taken as the URI of a request exactly where it starts with `ssap://`, has at most 256
/// bytes and holds no control code.
pub proof fn request_uris_are_checked_completely(uri: &str, fits: bool)
    requires
        call_ensures(request_uri, (uri,), fits),
    ensures
        fits <==> {
            &&& 7 <= uri@.len()
            &&& uri@.take(7) == "ssap://"@
            &&& encode_utf8(uri@).len() <= 256
            &&& forall|i: int| 0 <= i < uri@.len() ==> !control_code(#[trigger] uri@[i])
        },
{
    reveal_strlit("ssap://");
    assert("ssap://"@.len() == 7);
    if fits {
        assert forall|i: int| 0 <= i < uri@.len() implies !control_code(#[trigger] uri@[i]) by {}
    }
}

/// The identifier of a request is `couch-` and its number.
pub proof fn identifiers_hold_the_number(number: u64, id: String)
    requires
        call_ensures(request_id_text, (number,), id),
    ensures
        id@ == "couch-"@ + decimal(number as nat),
        numeral_value(id@.skip("couch-"@.len() as int)) == number,
{
    numerals_mean_their_numbers(number as nat);
    assert(id@.skip("couch-"@.len() as int) == decimal(number as nat));
}

/// A request holds its identifier, the URI and the payload that were asked for, and nothing else.
pub proof fn requests_hold_what_is_asked(
    number: u64,
    uri: &str,
    payload: Json,
    id: String,
    request: Request,
)
    requires
        call_ensures(request_id_text, (number,), id),
        call_ensures(Request::new, (number, uri, payload), request),
    ensures
        request.id@ == id@,
        request.message@.field("id"@) == JsonView::Text(id@),
        request.message@.field("type"@) == JsonView::Text("request"@),
        request.message@.field("uri"@) == JsonView::Text(uri@),
        request.message@.field("payload"@) == payload@,
        request.message@->Object_0.dom() == set!["id"@, "type"@, "uri"@, "payload"@],
{
    message_keys_differ();
}

/// A frame with another identifier, or with none, is no reply. One with the identifier of the
/// request is: an error or a refusal is a rejection, a response brings exactly its payload, and
/// anything else breaks the protocol.
pub proof fn replies_are_judged_completely(
    request: Request,
    frame: Json,
    outcome: Option<Result<Json, Error>>,
)
    requires
        call_ensures(Request::answer, (&request, &frame), outcome),
    ensures
        outcome is Some <==> frame@.field("id"@) == JsonView::Text(request.id@),
        outcome matches Some(outcome) ==> {
            let kind = frame@.field("type"@);
            let refused = kind == JsonView::Text("error"@) || frame@.field("payload"@).field(
                "returnValue"@,
            ) == JsonView::Bool(false);
            &&& outcome is Ok <==> !refused && kind == JsonView::Text("response"@)
            &&& outcome matches Ok(payload) ==> payload@ == frame@.field("payload"@)
            &&& outcome matches Err(error) ==> error == if refused {
                Error::Rejected
            } else {
                Error::Protocol
            }
        },
{
}

/// A press names exactly the button that it is for.
pub proof fn presses_name_their_button(name: &str, message: String)
    requires
        call_ensures(press, (name,), message),
    ensures
        message@ == "type:button\nname:"@ + name@ + "\n\n"@,
{
}

/// Every text that is JSON is a frame, and is that JSON; a text that is not breaks the protocol.
/// After a ping or a pong the socket is read on; a close or a failed read is a failure of the
/// connection, a message of another kind breaks the protocol, and a read can time out.
pub proof fn reads_are_judged_completely(event: SocketEvent, reading: Reading)
    requires
        call_ensures(read, (&event,), reading),
    ensures
        event matches SocketEvent::Text(text) ==> (json_parsed(text@) matches Some(value) ==> (
        reading matches Reading::Frame(frame) && frame@ == value)),
        event matches SocketEvent::Text(text) ==> (json_parsed(text@) is None ==> reading
            == Reading::Fail(Error::Protocol)),
        event is Ping ==> reading is Flush,
        event is Pong ==> reading is Again,
        event is Close || event is Failed ==> reading == Reading::Fail(Error::Transport),
        event is Other ==> reading == Reading::Fail(Error::Protocol),
        event is TimedOut ==> reading == Reading::Fail(Error::Timeout),
{
}

/// What was read as JSON is the frame; what could not be read breaks the protocol.
pub proof fn parsed_texts_are_frames(json: Json, frame: Reading, failure: Reading)
    requires
        call_ensures(read_text, (Some(json),), frame),
        call_ensures(read_text, (None::<Json>,), failure),
    ensures
        frame matches Reading::Frame(value) && value@ == json@,
        failure == Reading::Fail(Error::Protocol),
{
}

/// An exchange lasts four seconds, a registration five: until then there is time left, all of it,
/// and after that none.
pub proof fn exchanges_last_their_time(
    want: Want,
    start: u64,
    exchange: Exchange,
    now: u64,
    left: Result<u128, Error>,
)
    requires
        call_ensures(Exchange::new, (want, start), exchange),
        call_ensures(Exchange::time_left, (&exchange, now), left),
    ensures
        ({
            let patience: int = if want is Registration {
                5_000_000_000
            } else {
                4_000_000_000
            };
            &&& now <= start + patience ==> (left matches Ok(left) && left == start + patience
                - now)
            &&& now > start + patience ==> left == Err::<u128, Error>(Error::Timeout)
        }),
{
}

/// An exchange that waits for a reply ends with the reply to its own request and what that says,
/// one that waits for a registration with the word on it, one that waits for a frame with any. A
/// failed read ends each of them, and nothing else does.
pub proof fn exchanges_end_with_what_they_wait_for(
    want: Want,
    start: u64,
    exchange: Exchange,
    frame: Json,
    word: Option<Result<(), Error>>,
    request: Request,
    answer: Option<Result<Json, Error>>,
    error: Error,
    heard: Heard,
    failed: Heard,
    pinged: Heard,
    ponged: Heard,
)
    requires
        call_ensures(Exchange::new, (want, start), exchange),
        want matches Want::Reply(asked) ==> asked == request,
        call_ensures(registered, (&frame,), word),
        call_ensures(Request::answer, (&request, &frame), answer),
        call_ensures(Exchange::heard_reading, (&exchange, Reading::Frame(frame)), heard),
        call_ensures(Exchange::heard_reading, (&exchange, Reading::Fail(error)), failed),
        call_ensures(Exchange::heard_reading, (&exchange, Reading::Flush), pinged),
        call_ensures(Exchange::heard_reading, (&exchange, Reading::Again), ponged),
    ensures
        failed matches Heard::Over(Err(reported)) && reported == error,
        pinged is Flush,
        ponged is Again,
        want is Frame ==> (heard matches Heard::Over(Ok(value)) && value@ == frame@),
        want is Registration ==> match word {
            None => heard is Again,
            Some(Ok(_)) => heard matches Heard::Over(Ok(value)) && value@ == frame@,
            Some(Err(error)) => heard matches Heard::Over(Err(reported)) && reported == error,
        },
        want is Reply ==> match answer {
            None => heard is Again,
            Some(Ok(payload)) => heard matches Heard::Over(Ok(value)) && value@ == payload@,
            Some(Err(error)) => heard matches Heard::Over(Err(reported)) && reported == error,
        },
{
}

/// What one read of the socket means for an exchange is what its reading means.
pub proof fn exchanges_hear_what_was_read(
    exchange: Exchange,
    event: SocketEvent,
    reading: Reading,
    heard: Heard,
    heard_reading: Heard,
)
    requires
        call_ensures(read, (&event,), reading),
        call_ensures(Exchange::heard, (&exchange, &event), heard),
        call_ensures(Exchange::heard_reading, (&exchange, reading), heard_reading),
    ensures
        heard@ == heard_reading@,
{
}

/// Every error is reported as what it is. An address that is not valid blames the setting, and a
/// certificate that cannot be used calls for pairing.
pub proof fn errors_are_reported_as_what_they_are(error: Error, report: ClientError)
    requires
        call_ensures(<ClientError as From<Error>>::from, (error,), report),
    ensures
        error == Error::Configuration <==> report is InvalidSetting,
        report is InvalidSetting ==> blames_the_url(report),
        error == Error::Transport <==> report == ClientError::Transport,
        error == Error::Protocol <==> report == ClientError::Protocol,
        error == Error::Timeout <==> report == ClientError::Timeout,
        error == Error::Rejected <==> report == ClientError::Rejected,
        error == Error::Unpaired || error == Error::Certificate <==> report
            == ClientError::Unpaired,
{
}

} // verus!
