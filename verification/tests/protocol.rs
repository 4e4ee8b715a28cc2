use couch_webos::error::{invalid_url, ClientError, Error};
use couch_webos::exchange::{Exchange, Heard, Want};
use couch_webos::frame::{read, read_text, Reading, SocketEvent};
use couch_webos::function::{sound_output, Command, Function};
use couch_webos::json::{Fields, Json};
use couch_webos::message::{press, registered, registration, request_uri, Request};
use couch_webos::text::{
    byte_len, decimal_text, label, same_text, starts_with, without_control,
};
use couch_webos::tv::{Action, Next, Pressed};
use couch_webos::wire::{decode, encode};
use couch_webos::{Settings, WebOsTv};

fn json(text: &str) -> Json {
    decode(text).unwrap()
}

fn tv() -> WebOsTv {
    WebOsTv::new(&Settings {
        url: "ws://192.0.2.10:3000/".into(),
    })
}

#[test]
fn texts_are_measured_in_bytes_and_searched_for_control_characters() {
    assert_eq!(byte_len("a\u{e9}\u{20ac}\u{1f600}"), 10);
    assert!(without_control("caf\u{e9} \u{a0}~"));
    for control in ["\0", "a\u{1f}", "\u{7f}b", "\u{9f}"] {
        assert!(!without_control(control));
    }
    assert!(label("abc", 3));
    assert!(!label("abcd", 3));
    assert!(!label("", 3));
    assert!(!label("a\n", 3));
    assert!(same_text("", ""));
    assert!(!same_text("a", "b"));
    assert!(!same_text("a", "ab"));
    assert!(starts_with("wss://x", "wss://"));
    assert!(!starts_with("wss:/", "wss://"));
    assert!(starts_with("", ""));
}

#[test]
fn numerals_are_decimal() {
    for (n, text) in [(0, "0"), (9, "9"), (10, "10"), (1205, "1205")] {
        assert_eq!(decimal_text(n), text);
    }
    assert_eq!(decimal_text(u64::MAX), "18446744073709551615");
}

#[test]
fn json_is_read_and_written() {
    let value = json(
        "{\"b\":true,\"n\":null,\"i\":7,\"f\":-1.5,\"t\":\"x\\n\",\"l\":[1,\"two\"],\"o\":{\"k\":false}}",
    );
    assert_eq!(value.boolean_at("b"), Some(true));
    assert_eq!(value.integer_at("i"), Some(7));
    assert_eq!(value.integer_at("f"), None);
    assert!(matches!(value.get("f"), Some(Json::OtherNumber(text)) if text == "-1.5"));
    assert_eq!(value.text_at("t"), Some("x\n"));
    assert!(value.holds("t", "x\n"));
    assert!(!value.holds("i", "7"));
    assert!(matches!(value.get("n"), Some(Json::Null)));
    assert!(value.get("missing").is_none());
    assert_eq!(value.list_at("l").unwrap().len(), 2);
    assert!(value.list_at("o").is_none());
    assert_eq!(value.get("o").unwrap().boolean_at("k"), Some(false));
    assert!(Json::Null.get("o").is_none());
    assert_eq!(
        encode(&value.clone()),
        "{\"b\":true,\"f\":-1.5,\"i\":7,\"l\":[1,\"two\"],\"n\":null,\"o\":{\"k\":false},\"t\":\"x\\n\"}"
    );
    assert!(decode("{").is_none());
    assert!(decode("").is_none());
}

#[test]
fn a_later_entry_of_an_object_counts() {
    let object = Fields::new()
        .with_text("key", "first")
        .with("key", Json::Integer(2))
        .object();
    assert_eq!(object.integer_at("key"), Some(2));
    assert_eq!(encode(&object), "{\"key\":2}");
    assert_eq!(json("{\"key\":1,\"key\":2}").integer_at("key"), Some(2));
}

#[test]
fn a_registration_names_the_permissions_and_the_key() {
    let manifest = "\"manifest\":{\"appVersion\":\"1.0\",\"manifestVersion\":1,\"permissions\":[\
        \"CONTROL_AUDIO\",\"CONTROL_INPUT_TV\",\"CONTROL_INPUT_MEDIA_PLAYBACK\",\
        \"CONTROL_MOUSE_AND_KEYBOARD\",\"CONTROL_POWER\",\"READ_POWER_STATE\",\
        \"READ_INPUT_DEVICE_LIST\",\"READ_RUNNING_APPS\"]},\"pairingType\":\"PROMPT\"";
    assert_eq!(
        encode(&registration(None)),
        format!(
            "{{\"id\":\"register\",\"payload\":{{\"forcePairing\":false,{manifest}}},\
             \"type\":\"register\"}}"
        )
    );
    assert_eq!(
        encode(&registration(Some("k\""))),
        format!(
            "{{\"id\":\"register\",\"payload\":{{\"client-key\":\"k\\\"\",\"forcePairing\":false,\
             {manifest}}},\"type\":\"register\"}}"
        )
    );
}

#[test]
fn a_registration_ends_with_a_word_from_the_television() {
    assert_eq!(
        registered(&json("{\"type\":\"error\",\"payload\":{\"pairingType\":\"PROMPT\"}}")),
        Some(Err(Error::Rejected))
    );
    assert_eq!(
        registered(&json("{\"type\":\"registered\"}")),
        Some(Ok(()))
    );
    assert_eq!(
        registered(&json("{\"type\":\"response\",\"payload\":{\"pairingType\":\"PROMPT\"}}")),
        Some(Err(Error::Unpaired))
    );
    assert_eq!(
        registered(&json("{\"type\":\"response\",\"payload\":{\"pairingType\":1}}")),
        None
    );
    assert_eq!(registered(&json("[]")), None);
}

#[test]
fn requests_are_numbered_and_their_uris_are_checked() {
    let mut tv = tv();
    for refused in [
        "http://audio/volumeUp".to_owned(),
        "ssap:/".to_owned(),
        "ssap://a\nb".to_owned(),
        format!("ssap://{}", "a".repeat(250)),
    ] {
        assert!(matches!(
            tv.request(&refused, Json::Null),
            Err(Error::Configuration)
        ));
        assert!(!request_uri(&refused));
    }
    assert!(tv.can_request());
    let longest = format!("ssap://{}", "a".repeat(249));
    assert_eq!(tv.request(&longest, Json::Null).ok().unwrap().id, "couch-1");
    let request = tv.request("ssap://x", Fields::new().object()).ok().unwrap();
    assert_eq!(request.id, "couch-2");
    assert_eq!(
        encode(&request.message),
        "{\"id\":\"couch-2\",\"payload\":{},\"type\":\"request\",\"uri\":\"ssap://x\"}"
    );
}

#[test]
fn a_reply_is_told_by_its_identifier() {
    let request = Request::new(3, "ssap://x", Json::Null);
    let answer = |text: &str| request.answer(&json(text));
    assert!(answer("{\"id\":\"couch-2\",\"type\":\"error\"}").is_none());
    assert!(answer("{\"type\":\"error\"}").is_none());
    assert!(answer("{\"id\":3,\"type\":\"response\"}").is_none());
    assert!(matches!(
        answer("{\"id\":\"couch-3\",\"type\":\"error\"}"),
        Some(Err(Error::Rejected))
    ));
    assert!(matches!(
        answer("{\"id\":\"couch-3\",\"type\":\"response\",\"payload\":{\"returnValue\":false}}"),
        Some(Err(Error::Rejected))
    ));
    assert!(matches!(
        answer("{\"id\":\"couch-3\",\"type\":\"other\",\"payload\":{\"returnValue\":true}}"),
        Some(Err(Error::Protocol))
    ));
    assert!(matches!(
        answer("{\"id\":\"couch-3\",\"type\":\"response\"}"),
        Some(Ok(Json::Null))
    ));
    let Some(Ok(payload)) = answer("{\"id\":\"couch-3\",\"type\":\"response\",\"payload\":{\"a\":1}}")
    else {
        panic!("no payload");
    };
    assert_eq!(payload.integer_at("a"), Some(1));
}

#[test]
fn reads_of_a_socket_are_sorted() {
    assert!(matches!(
        read(&SocketEvent::Text("{\"a\":1}".into())),
        Reading::Frame(frame) if frame.integer_at("a") == Some(1)
    ));
    assert!(matches!(
        read(&SocketEvent::Text("type:button".into())),
        Reading::Fail(Error::Protocol)
    ));
    assert!(matches!(read(&SocketEvent::Ping), Reading::Flush));
    assert!(matches!(read(&SocketEvent::Pong), Reading::Again));
    assert!(matches!(
        read(&SocketEvent::Close),
        Reading::Fail(Error::Transport)
    ));
    assert!(matches!(
        read(&SocketEvent::Other),
        Reading::Fail(Error::Protocol)
    ));
    assert!(matches!(
        read(&SocketEvent::TimedOut),
        Reading::Fail(Error::Timeout)
    ));
    assert!(matches!(
        read(&SocketEvent::Failed),
        Reading::Fail(Error::Transport)
    ));
    assert!(matches!(read_text(Some(Json::Null)), Reading::Frame(Json::Null)));
    assert!(matches!(read_text(None), Reading::Fail(Error::Protocol)));
}

#[test]
fn an_exchange_waits_for_its_own_reply_until_its_deadline() {
    let exchange = Exchange::new(Want::Reply(Request::new(2, "ssap://x", Json::Null)), 10);
    assert_eq!(exchange.time_left(10), Ok(4_000_000_000));
    assert_eq!(exchange.time_left(4_000_000_010), Ok(0));
    assert_eq!(exchange.time_left(4_000_000_011), Err(Error::Timeout));
    assert!(matches!(exchange.heard(&SocketEvent::Ping), Heard::Flush));
    assert!(matches!(exchange.heard(&SocketEvent::Pong), Heard::Again));
    for other in ["couch-1", "couch-22", "register"] {
        let frame = format!("{{\"id\":\"{other}\",\"type\":\"error\"}}");
        assert!(matches!(
            exchange.heard(&SocketEvent::Text(frame)),
            Heard::Again
        ));
    }
    assert!(matches!(
        exchange.heard(&SocketEvent::Text(
            "{\"id\":\"couch-2\",\"type\":\"response\",\"payload\":true}".into()
        )),
        Heard::Over(Ok(Json::Bool(true)))
    ));
    assert!(matches!(
        exchange.heard(&SocketEvent::TimedOut),
        Heard::Over(Err(Error::Timeout))
    ));

    let registration = Exchange::new(Want::Registration, 0);
    assert_eq!(registration.time_left(0), Ok(5_000_000_000));
    assert!(matches!(
        registration.heard(&SocketEvent::Text("{\"type\":\"registered\"}".into())),
        Heard::Over(Ok(_))
    ));
    assert!(matches!(
        registration.heard(&SocketEvent::Text("{\"payload\":{\"pairingType\":\"PIN\"}}".into())),
        Heard::Over(Err(Error::Unpaired))
    ));
    assert!(matches!(
        registration.heard_reading(Reading::Frame(Json::Null)),
        Heard::Again
    ));
    assert!(matches!(
        Exchange::new(Want::Frame, u64::MAX).heard_reading(Reading::Frame(Json::Null)),
        Heard::Over(Ok(Json::Null))
    ));
}

#[test]
fn errors_are_reported_to_the_host() {
    assert_eq!(ClientError::from(Error::Configuration), invalid_url());
    assert_eq!(ClientError::from(Error::Transport), ClientError::Transport);
    assert_eq!(ClientError::from(Error::Protocol), ClientError::Protocol);
    assert_eq!(ClientError::from(Error::Timeout), ClientError::Timeout);
    assert_eq!(ClientError::from(Error::Unpaired), ClientError::Unpaired);
    assert_eq!(ClientError::from(Error::Certificate), ClientError::Unpaired);
    assert_eq!(ClientError::from(Error::Rejected), ClientError::Rejected);
}

fn request_of(function: Function, input_valid: bool) -> Option<(String, String)> {
    match function.command(input_valid) {
        Some(Command::Request { uri, payload }) => Some((uri.to_owned(), encode(&payload))),
        _ => None,
    }
}

#[test]
fn functions_become_requests() {
    let plain = |uri: &str| Some((uri.to_owned(), "{}".to_owned()));
    assert_eq!(request_of(Function::PowerOff, false), plain("ssap://system/turnOff"));
    assert_eq!(request_of(Function::VolumeUp, false), plain("ssap://audio/volumeUp"));
    assert_eq!(request_of(Function::VolumeDown, false), plain("ssap://audio/volumeDown"));
    assert_eq!(request_of(Function::ChannelUp, false), plain("ssap://tv/channelUp"));
    assert_eq!(request_of(Function::ChannelDown, false), plain("ssap://tv/channelDown"));
    assert_eq!(request_of(Function::Play, false), plain("ssap://media.controls/play"));
    assert_eq!(request_of(Function::Pause, false), plain("ssap://media.controls/pause"));
    assert_eq!(request_of(Function::Stop, false), plain("ssap://media.controls/stop"));
    assert_eq!(request_of(Function::Rewind, false), plain("ssap://media.controls/rewind"));
    assert_eq!(
        request_of(Function::FastForward, false),
        plain("ssap://media.controls/fastForward")
    );
    let with = |uri: &str, payload: &str| Some((uri.to_owned(), payload.to_owned()));
    assert_eq!(
        request_of(Function::MuteOn, false),
        with("ssap://audio/setMute", "{\"mute\":true}")
    );
    assert_eq!(
        request_of(Function::MuteOff, false),
        with("ssap://audio/setMute", "{\"mute\":false}")
    );
    assert_eq!(
        request_of(Function::Input("HDMI_1".into()), true),
        with("ssap://tv/switchInput", "{\"inputId\":\"HDMI_1\"}")
    );
    assert_eq!(request_of(Function::Input("HDMI_1".into()), false), None);
    assert_eq!(
        request_of(Function::App("netflix".into()), false),
        with("ssap://system.launcher/launch", "{\"id\":\"netflix\"}")
    );
    for id in [String::new(), "a".repeat(257), "a\u{7f}".to_owned()] {
        assert_eq!(request_of(Function::App(id), true), None);
    }
    assert_eq!(
        request_of(Function::Extra("sound-external-arc".into()), false),
        with(
            "ssap://com.webos.service.apiadapter/audio/changeSoundOutput",
            "{\"output\":\"external_arc\"}"
        )
    );
    assert!(Function::Extra("sound-".into()).command(true).is_none());
    assert!(Function::Other.command(true).is_none());
    assert!(matches!(
        Function::Mute.command(false),
        Some(Command::ToggleMute)
    ));
}

#[test]
fn functions_become_buttons() {
    for (function, name) in [
        (Function::Up, "UP"),
        (Function::Down, "DOWN"),
        (Function::Left, "LEFT"),
        (Function::Right, "RIGHT"),
        (Function::Enter, "ENTER"),
        (Function::Back, "BACK"),
        (Function::Home, "HOME"),
        (Function::Menu, "MENU"),
        (Function::Red, "RED"),
        (Function::Green, "GREEN"),
        (Function::Yellow, "YELLOW"),
        (Function::Blue, "BLUE"),
    ] {
        assert!(matches!(function.command(false), Some(Command::Press(button)) if button == name));
    }
    assert_eq!(press("UP"), "type:button\nname:UP\n\n");
}

#[test]
fn sound_outputs_are_named_by_extras() {
    assert_eq!(sound_output("sound-tv-speaker").as_deref(), Some("tv_speaker"));
    assert_eq!(sound_output("sound-hdmi2").as_deref(), Some("hdmi2"));
    for other in ["", "sound", "sound-", "sound-TV", "sound-a b", "picture-vivid"] {
        assert!(sound_output(other).is_none());
    }
}

#[test]
fn the_capabilities_are_listed_in_order() {
    let ids: Vec<&str> = WebOsTv::capabilities().iter().map(|entry| entry.0).collect();
    assert_eq!(
        ids,
        [
            "power-off", "volume-up", "volume-down", "mute", "mute-on", "mute-off", "up", "down",
            "left", "right", "ok", "back", "home", "menu", "red", "green", "yellow", "blue",
            "channel-up", "channel-down", "play", "pause", "stop", "rewind", "fast-forward",
        ]
    );
    assert!(!ids.contains(&"power-on"));
    let labels: Vec<&str> = WebOsTv::capabilities().iter().map(|entry| entry.1).collect();
    assert_eq!(
        labels,
        [
            "Power off", "Volume up", "Volume down", "Mute", "Mute on", "Mute off", "Up", "Down",
            "Left", "Right", "OK", "Back", "Home", "Menu", "Red", "Green", "Yellow", "Blue",
            "Channel up", "Channel down", "Play", "Pause", "Stop", "Rewind", "Fast forward",
        ]
    );
}

#[test]
fn the_mute_is_set_to_the_opposite_of_what_the_television_reports() {
    for (muted, wanted) in [(true, false), (false, true)] {
        let mut tv = tv();
        let Action::Exchange { request, next } = tv.execute(&Function::Mute, false) else {
            panic!("no request");
        };
        assert!(request.message.holds("uri", "ssap://audio/getVolume"));
        let reply = Fields::new().with("mute", Json::Bool(muted)).object();
        let Action::Exchange { request, next } = tv.replied(next, Ok(reply)) else {
            panic!("no second request");
        };
        assert_eq!(request.id, "couch-2");
        assert!(request.message.holds("uri", "ssap://audio/setMute"));
        let payload = request.message.get("payload").unwrap();
        assert_eq!(payload.boolean_at("mute"), Some(wanted));
        assert!(matches!(
            tv.replied(next, Ok(Json::Null)),
            Action::Finish(Ok(()))
        ));
    }
    let mut tv = tv();
    assert!(matches!(
        tv.replied(Next::SetMute, Ok(Json::Null)),
        Action::Finish(Err(ClientError::Protocol))
    ));
}

#[test]
fn a_pointer_socket_elsewhere_is_not_opened() {
    let reply = |raw: &str| Ok(Fields::new().with_text("socketPath", raw).object());
    for elsewhere in [
        "ws://192.0.2.11:3000/pointer",
        "ws://192.0.2.10:3001/pointer",
        "wss://192.0.2.10:3000/pointer",
    ] {
        assert!(matches!(
            tv().replied(Next::OpenPointer("UP"), reply(elsewhere)),
            Action::Finish(Err(ClientError::Protocol))
        ));
    }
    assert!(matches!(
        tv().replied(Next::OpenPointer("UP"), reply("ws://tv/pointer")),
        Action::Finish(Err(ClientError::InvalidSetting { .. }))
    ));
    assert!(matches!(
        tv().replied(Next::OpenPointer("UP"), Ok(Json::Null)),
        Action::Finish(Err(ClientError::Protocol))
    ));
    let raw = "ws://192.0.2.10:3000/pointer?t=1";
    let Action::Connect { url, endpoint, button } =
        tv().replied(Next::OpenPointer("UP"), reply(raw))
    else {
        panic!("not opened");
    };
    assert_eq!(url, raw);
    assert_eq!(endpoint.port, 3000);
    assert_eq!(button, "UP");
}

#[test]
fn a_failed_step_ends_a_function() {
    let mut tv = tv();
    for error in [Error::Timeout, Error::Transport] {
        assert!(matches!(
            tv.replied(Next::SetMute, Err(error)),
            Action::Finish(Err(report)) if report == ClientError::from(error)
        ));
    }
    assert!(matches!(
        tv.connected("UP", Err(Error::Transport)),
        Action::Finish(Err(ClientError::Transport))
    ));
    assert!(matches!(
        tv.connected("UP", Ok(())),
        Action::Press { message } if message == press("UP")
    ));
    assert!(matches!(
        tv.pressed(Pressed::NotReady),
        Action::Finish(Err(ClientError::Transport))
    ));
    // The pointer socket is still there.
    assert!(matches!(
        tv.execute(&Function::Left, false),
        Action::Press { .. }
    ));
    assert!(matches!(
        tv.pressed(Pressed::Failed),
        Action::Finish(Err(ClientError::Transport))
    ));
    // Now it is gone, and the next button asks for another.
    assert!(matches!(
        tv.execute(&Function::Left, false),
        Action::Exchange { next: Next::OpenPointer("LEFT"), .. }
    ));
    assert!(matches!(
        tv.execute(&Function::Other, true),
        Action::Finish(Err(ClientError::Unsupported))
    ));
}
