use couch_webos::error::{ClientError, Error};
use couch_webos::json::Json;
use couch_webos::pairing::{PairFailure, PairStep, Pairing};
use couch_webos::selection::{choose_offers, judge_apps, read_offers, Listing, Selectable};
use couch_webos::status::{status_query, Status};
use couch_webos::tv::StatusAction;
use couch_webos::wire::{decode, encode};
use couch_webos::{Settings, WebOsTv};

fn json(text: &str) -> Json {
    decode(text).unwrap()
}

fn settings(url: &str) -> Settings {
    Settings { url: url.into() }
}

#[test]
fn a_status_is_read_from_the_replies() {
    let status = |power: &str, volume: &str, app: &str, sound: &str, picture: &str| {
        Status::from_replies(&json(power), &json(volume), &json(app), &json(sound), &json(picture))
    };
    let full = status(
        "{\"state\":\"Active Standby\"}",
        "{\"volume\":100,\"mute\":true}",
        "{\"appId\":\"netflix\",\"appName\":\"Netflix\"}",
        "{\"soundOutput\":\"tv_speaker\"}",
        "{\"settings\":{\"pictureMode\":\"vivid\"}}",
    );
    assert_eq!(full.on, Some(true));
    assert_eq!(full.volume, Some(100));
    assert_eq!(full.muted, Some(true));
    assert_eq!(full.input.as_deref(), Some("netflix"));
    assert_eq!(full.app.as_deref(), Some("Netflix"));
    assert_eq!(full.sound_output.as_deref(), Some("tv_speaker"));
    assert_eq!(full.picture_mode.as_deref(), Some("vivid"));
    for off in ["Power Off", "Suspend", "Screen Off"] {
        let power = format!("{{\"state\":\"{off}\"}}");
        assert_eq!(status(&power, "{}", "{}", "{}", "{}").on, Some(false));
    }
    let long = format!("{{\"appId\":\"{}\",\"appName\":\"a\\u0007\"}}", "a".repeat(257));
    let empty = status("{\"state\":1}", "{\"volume\":101,\"mute\":0}", &long, "[]", "{\"settings\":1}");
    assert_eq!(empty.on, None);
    assert_eq!(empty.volume, None);
    assert_eq!(empty.muted, None);
    assert_eq!(empty.input, None);
    assert_eq!(empty.app, None);
    assert_eq!(empty.sound_output, None);
    assert_eq!(empty.picture_mode, None);
    assert_eq!(status("{}", "{\"volume\":256}", "{}", "{}", "{}").volume, None);
    assert_eq!(status("{}", "{\"volume\":-1}", "{}", "{}", "{}").volume, None);
    assert_eq!(status("{}", "{\"volume\":0}", "{}", "{}", "{}").volume, Some(0));
}

#[test]
fn a_status_asks_five_questions_and_stops_at_a_failure() {
    let (uri, payload) = status_query(4);
    assert_eq!(uri, "ssap://settings/getSystemSettings");
    assert_eq!(
        encode(&payload),
        "{\"category\":\"picture\",\"keys\":[\"pictureMode\"]}"
    );
    let mut tv = WebOsTv::new(&settings("ws://192.0.2.10:3000/"));
    let mut action = tv.status();
    let mut asked = 0;
    loop {
        action = match action {
            StatusAction::Exchange { request, run } => {
                asked += 1;
                assert_eq!(request.id, format!("couch-{asked}"));
                tv.status_replied(run, Ok(Json::Null))
            }
            StatusAction::Finish(outcome) => {
                assert!(outcome.is_ok());
                break;
            }
        };
    }
    assert_eq!(asked, 5);
    let StatusAction::Exchange { run, .. } = tv.status() else {
        panic!("no request");
    };
    assert!(matches!(
        tv.status_replied(run, Err(Error::Rejected)),
        StatusAction::Finish(Err(ClientError::Rejected))
    ));
}

fn shown(items: &[Selectable]) -> Vec<(&str, &str)> {
    items
        .iter()
        .map(|item| (item.id.as_str(), item.name.as_str()))
        .collect()
}

#[test]
fn inputs_are_listed_once_with_names_that_can_be_shown() {
    let reply = json(
        "{\"devices\":[\
         {\"id\":\"HDMI_1\",\"label\":\"Console\"},\
         {\"appId\":\"tuner\"},\
         {\"label\":\"no identifier\"},\
         {\"id\":\"HDMI_1\",\"label\":\"Again\"},\
         {\"id\":\"HDMI_2\",\"label\":\"\"},\
         {\"id\":\"HDMI_2\",\"label\":\"Late\"},\
         {\"id\":\"bad\",\"label\":\"Bad\"},\
         {\"id\":\"bad\",\"label\":\"Bad again\"},\
         7]}",
    );
    let offered = WebOsTv::inputs_replied(Ok(reply)).ok().unwrap();
    assert_eq!(
        shown(&offered),
        [
            ("HDMI_1", "Console"),
            ("tuner", "tuner"),
            ("HDMI_1", "Again"),
            ("HDMI_2", ""),
            ("HDMI_2", "Late"),
            ("bad", "Bad"),
            ("bad", "Bad again"),
        ]
    );
    let judged: Vec<(Selectable, bool)> = offered
        .into_iter()
        .map(|item| {
            let valid = item.id != "bad" || item.name != "Bad";
            (item, valid)
        })
        .collect();
    assert_eq!(
        shown(&choose_offers(&judged)),
        [("HDMI_1", "Console"), ("tuner", "tuner"), ("bad", "Bad again")]
    );
    assert!(matches!(
        WebOsTv::inputs_replied(Ok(Json::Null)),
        Err(ClientError::Protocol)
    ));
    assert!(matches!(
        WebOsTv::inputs_replied(Err(Error::Timeout)),
        Err(ClientError::Timeout)
    ));
}

#[test]
fn apps_are_listed_by_their_own_identifiers() {
    let reply = json(
        "{\"launchPoints\":[\
         {\"id\":\"netflix\",\"title\":\"Netflix\"},\
         {\"appId\":\"no-id\",\"title\":\"No id\"},\
         {\"id\":\"\",\"title\":\"Empty\"},\
         {\"id\":\"plain\"},\
         {\"id\":\"netflix\",\"title\":\"Twice\"}]}",
    );
    let apps = WebOsTv::apps_replied(Ok(reply)).ok().unwrap();
    assert_eq!(shown(&apps), [("netflix", "Netflix"), ("plain", "plain")]);
    assert!(matches!(
        WebOsTv::apps_replied(Ok(json("{\"launchPoints\":{}}"))),
        Err(ClientError::Protocol)
    ));
    let rows = vec![json("{\"id\":\"a\",\"title\":\"A\"}")];
    let judged = judge_apps(read_offers(Listing::Apps, &rows));
    assert_eq!(judged.len(), 1);
    assert!(judged[0].1);
}

#[test]
fn pairing_shows_each_error() {
    assert!(matches!(
        Pairing::failure(Error::Timeout),
        PairStep::Waiting { prompt: "Approve Couch on the LG TV", poll_ms: 1500 }
    ));
    for (error, failure, reason) in [
        (Error::Transport, PairFailure::Unreachable, Some("The LG TV could not be reached")),
        (Error::Rejected, PairFailure::Refused, Some("The LG TV did not approve Couch")),
        (Error::Unpaired, PairFailure::Refused, Some("The LG TV did not approve Couch")),
        (
            Error::Certificate,
            PairFailure::Refused,
            Some("The LG TV certificate changed during pairing"),
        ),
        (Error::Configuration, PairFailure::Unsupported, None),
        (
            Error::Protocol,
            PairFailure::Refused,
            Some("The LG TV sent a pairing reply Couch could not use"),
        ),
    ] {
        let PairStep::Failed { failure: shown, reason: said } = Pairing::failure(error) else {
            panic!("not failed");
        };
        assert_eq!(shown, failure);
        assert_eq!(said, reason);
    }
}

#[test]
fn pairing_over_tls_needs_the_certificate_and_a_key() {
    let registered = || Ok(json("{\"type\":\"registered\",\"payload\":{\"client-key\":\"key\"}}"));
    let mut pairing = Pairing::new(&settings("wss://192.0.2.10:3001/"));
    assert!(matches!(
        pairing.step(registered(), Vec::new()),
        Ok(PairStep::Failed {
            failure: PairFailure::Refused,
            reason: Some("The LG TV certificate changed during pairing"),
        })
    ));
    assert!(pairing.is_open());
    for unusable in [
        "{\"type\":\"registered\"}".to_owned(),
        "{\"type\":\"registered\",\"payload\":{\"client-key\":\"\"}}".to_owned(),
        format!("{{\"type\":\"registered\",\"payload\":{{\"client-key\":\"{}\"}}}}", "k".repeat(4097)),
    ] {
        assert!(matches!(
            pairing.step(Ok(json(&unusable)), vec![1]),
            Err(ClientError::Protocol)
        ));
    }
    assert!(matches!(
        pairing.step(Err(Error::Transport), vec![1]),
        Ok(PairStep::Failed { failure: PairFailure::Unreachable, .. })
    ));
    assert!(pairing.is_open());
    let Ok(PairStep::Done { credential, .. }) = pairing.step(registered(), vec![1, 2, 3]) else {
        panic!("not paired");
    };
    assert_eq!(credential.client_key.as_deref(), Some("key"));
    assert_eq!(credential.certificate.as_deref(), Some("AQID"));
    assert!(matches!(
        pairing.step(registered(), vec![1, 2, 3]),
        Ok(PairStep::Failed { failure: PairFailure::Refused, reason: None })
    ));
    let (opening, held) =
        WebOsTv::connect_with(&settings("wss://192.0.2.10:3001/"), Some(&credential)).ok().unwrap();
    assert!(opening.endpoint.secure);
    assert_eq!(held.key, "key");
    assert_eq!(held.certificate, vec![1, 2, 3]);
}

#[test]
fn pairing_over_tls_needs_a_certificate_however_the_scheme_is_written() {
    let mut pairing = Pairing::new(&settings("WSS://192.0.2.10:3001/"));
    let frame = json("{\"type\":\"registered\",\"payload\":{\"client-key\":\"key\"}}");
    assert!(matches!(
        pairing.step(Ok(frame), Vec::new()),
        Ok(PairStep::Failed {
            failure: PairFailure::Refused,
            reason: Some("The LG TV certificate changed during pairing"),
        })
    ));
    assert!(pairing.is_open());
}

/// Runs a status whose question at each place is answered so, and counts the questions.
fn run_status(answer: impl Fn(usize) -> Result<Json, Error>) -> (Result<Status, ClientError>, usize) {
    let mut tv = WebOsTv::new(&settings("ws://192.0.2.10:3000/"));
    let mut action = tv.status();
    let mut asked = 0;
    loop {
        action = match action {
            StatusAction::Exchange { run, .. } => {
                asked += 1;
                tv.status_replied(run, answer(asked - 1))
            }
            StatusAction::Finish(outcome) => return (outcome, asked),
        };
    }
}

fn answered(place: usize) -> Result<Json, Error> {
    Ok(json(match place {
        0 => "{\"state\":\"Active\"}",
        1 => "{\"volume\":37,\"mute\":false}",
        2 => "{\"appId\":\"HDMI_1\",\"appName\":\"Game console\"}",
        3 => "{\"soundOutput\":\"external_arc\"}",
        _ => "{\"settings\":{\"pictureMode\":\"cinema\"}}",
    }))
}

#[test]
fn a_television_may_refuse_to_name_its_sound_output_and_picture_mode() {
    let (outcome, asked) =
        run_status(|place| if place < 3 { answered(place) } else { Err(Error::Rejected) });
    let status = outcome.ok().unwrap();
    assert_eq!(asked, 5);
    assert_eq!(status.on, Some(true));
    assert_eq!(status.volume, Some(37));
    assert_eq!(status.muted, Some(false));
    assert_eq!(status.input.as_deref(), Some("HDMI_1"));
    assert_eq!(status.app.as_deref(), Some("Game console"));
    assert_eq!(status.sound_output, None);
    assert_eq!(status.picture_mode, None);

    let (outcome, _) =
        run_status(|place| if place != 3 { answered(place) } else { Err(Error::Rejected) });
    let status = outcome.ok().unwrap();
    assert_eq!(status.sound_output, None);
    assert_eq!(status.picture_mode.as_deref(), Some("cinema"));
}

#[test]
fn any_other_failure_ends_a_status() {
    for failing in 0..5 {
        for error in [
            Error::Transport,
            Error::Protocol,
            Error::Timeout,
            Error::Rejected,
        ] {
            if error == Error::Rejected && failing >= 3 {
                continue;
            }
            let (outcome, asked) =
                run_status(|place| if place == failing { Err(error) } else { answered(place) });
            assert_eq!(outcome.err(), Some(ClientError::from(error)));
            assert_eq!(asked, failing + 1);
        }
    }
}
