//! A fake television in memory: pairing, then commands, status, inputs, apps and selectors.

use couch_webos::credential::Credential;
use couch_webos::error::{ClientError, Error};
use couch_webos::exchange::{Exchange, Heard, Want};
use couch_webos::frame::SocketEvent;
use couch_webos::function::Function;
use couch_webos::json::Json;
use couch_webos::message::Request;
use couch_webos::pairing::{PairFailure, PairStep, Pairing};
use couch_webos::selection::{choose_offers, Selectable};
use couch_webos::status::Status;
use couch_webos::tv::{Action, Pressed, StatusAction};
use couch_webos::wire::{decode, encode};
use couch_webos::{Settings, WebOsTv};

#[derive(Clone, Copy, PartialEq)]
enum Scenario {
    Paired,
    Refused,
    TimedOut,
    Cancelled,
}

const ADDRESS: &str = "127.0.0.1:3000";

struct FakeTv {
    scenario: Scenario,
    log: Vec<String>,
    /// What the control socket will read next.
    outbox: Vec<String>,
}

impl FakeTv {
    fn start(scenario: Scenario) -> Self {
        FakeTv {
            scenario,
            log: Vec::new(),
            outbox: Vec::new(),
        }
    }

    fn settings() -> Settings {
        Settings {
            url: format!("ws://{ADDRESS}/"),
        }
    }

    fn reply(&mut self, request: &Json, payload: &str) {
        let id = request.text_at("id").unwrap();
        self.outbox.push(format!(
            "{{\"id\":\"{id}\",\"type\":\"response\",\"payload\":{payload}}}"
        ));
    }

    fn receive(&mut self, text: &str) {
        let message = decode(text).unwrap();
        if message.text_at("type") == Some("register") {
            self.log.push("register".into());
            if message.get("payload").unwrap().get("client-key").is_none() {
                self.reply(&message, "{\"pairingType\":\"PROMPT\"}");
                match self.scenario {
                    Scenario::Refused => {
                        self.outbox
                            .push("{\"type\":\"error\",\"payload\":{\"returnValue\":false}}".into());
                        return;
                    }
                    Scenario::TimedOut | Scenario::Cancelled => return,
                    Scenario::Paired => {}
                }
            }
            self.outbox.push(
                "{\"type\":\"registered\",\"payload\":{\"client-key\":\"fixture-key\"}}".into(),
            );
            return;
        }
        let uri = message.text_at("uri").unwrap().to_owned();
        self.log.push(uri.clone());
        let payload = match uri.as_str() {
            "ssap://audio/volumeUp" => "{\"returnValue\":true}".to_owned(),
            "ssap://com.webos.service.networkinput/getPointerInputSocket" => format!(
                "{{\"returnValue\":true,\"socketPath\":\"ws://{ADDRESS}/resources/pointer?token=fixture\"}}"
            ),
            "ssap://com.webos.service.tvpower/power/getPowerState" => {
                "{\"returnValue\":true,\"state\":\"Active\"}".to_owned()
            }
            "ssap://audio/getVolume" => {
                "{\"returnValue\":true,\"volume\":37,\"mute\":false}".to_owned()
            }
            "ssap://com.webos.applicationManager/getForegroundAppInfo" => {
                "{\"returnValue\":true,\"appId\":\"HDMI_1\",\"appName\":\"Game console\"}".to_owned()
            }
            "ssap://com.webos.service.apiadapter/audio/getSoundOutput" => {
                "{\"returnValue\":true,\"soundOutput\":\"external_arc\"}".to_owned()
            }
            "ssap://settings/getSystemSettings" => {
                "{\"returnValue\":true,\"settings\":{\"pictureMode\":\"cinema\"}}".to_owned()
            }
            "ssap://tv/getExternalInputList" => "{\"returnValue\":true,\"devices\":[\
                {\"id\":\"HDMI_1\",\"label\":\"Game console\"},\
                {\"id\":\"HDMI_2\",\"label\":\"Blu-ray\"}]}"
                .to_owned(),
            "ssap://com.webos.applicationManager/listLaunchPoints" => {
                "{\"returnValue\":true,\"launchPoints\":[\
                {\"id\":\"netflix\",\"title\":\"Netflix\"},\
                {\"id\":\"com.webos.app.settings\",\"title\":\"Settings\"}]}"
                    .to_owned()
            }
            "ssap://system.launcher/launch"
            | "ssap://com.webos.service.apiadapter/audio/changeSoundOutput" => {
                "{\"returnValue\":true}".to_owned()
            }
            _ => "{\"returnValue\":false}".to_owned(),
        };
        self.reply(&message, &payload);
    }

    /// One read of the control socket.
    fn event(&mut self) -> SocketEvent {
        if self.outbox.is_empty() {
            SocketEvent::TimedOut
        } else {
            SocketEvent::Text(self.outbox.remove(0))
        }
    }

    /// What the pointer socket is sent.
    fn point(&mut self, message: &str) {
        let name = message
            .lines()
            .find_map(|line| line.strip_prefix("name:"))
            .unwrap();
        self.log.push(format!("pointer:{name}"));
    }

    fn wait(&mut self, want: Want) -> Result<Json, Error> {
        let exchange = Exchange::new(want, 0);
        loop {
            exchange.time_left(1)?;
            let event = self.event();
            if let Heard::Over(outcome) = exchange.heard(&event) {
                return outcome;
            }
        }
    }

    fn exchange(&mut self, request: Request) -> Result<Json, Error> {
        self.receive(&encode(&request.message));
        self.wait(Want::Reply(request))
    }

    fn command(&mut self, tv: &mut WebOsTv, function: Function) -> Result<(), ClientError> {
        let mut action = tv.execute(&function, true);
        loop {
            action = match action {
                Action::Exchange { request, next } => {
                    let reply = self.exchange(request);
                    tv.replied(next, reply)
                }
                Action::Connect { button, .. } => tv.connected(button, Ok(())),
                Action::Press { message } => {
                    self.point(&message);
                    tv.pressed(Pressed::Sent)
                }
                Action::Finish(outcome) => return outcome,
            };
        }
    }

    fn status(&mut self, tv: &mut WebOsTv) -> Result<Status, ClientError> {
        let mut action = tv.status();
        loop {
            action = match action {
                StatusAction::Exchange { request, run } => {
                    let reply = self.exchange(request);
                    tv.status_replied(run, reply)
                }
                StatusAction::Finish(outcome) => return outcome,
            };
        }
    }

    fn connect(&mut self, credential: &Credential) -> Result<WebOsTv, ClientError> {
        let settings = FakeTv::settings();
        let (opening, _held) = WebOsTv::connect_with(&settings, Some(credential))?;
        self.receive(&encode(&opening.registration));
        self.wait(Want::Registration)
            .map_err(ClientError::from)
            .map(|_| WebOsTv::new(&settings))
    }
}

fn pair(tv: &mut FakeTv) -> Pairing {
    let settings = FakeTv::settings();
    let opening = WebOsTv::pair_start(&settings).unwrap();
    tv.receive(&encode(&opening.registration));
    Pairing::new(&settings)
}

fn next_step(tv: &mut FakeTv, pairing: &mut Pairing, elapsed_ms: u128) -> PairStep {
    if let Some(step) = pairing.ended(elapsed_ms) {
        return step;
    }
    let read = tv.wait(Want::Frame);
    pairing.step(read, Vec::new()).unwrap()
}

#[test]
fn pairs_then_controls_a_fake_tv_through_the_package_process() {
    let mut tv = FakeTv::start(Scenario::Paired);
    let mut pairing = pair(&mut tv);
    let first = next_step(&mut tv, &mut pairing, 0);
    assert!(
        matches!(first, PairStep::Waiting { .. }),
        "requests={:?}",
        tv.log
    );
    let paired = next_step(&mut tv, &mut pairing, 1500);
    let PairStep::Done { credential, .. } = paired else {
        panic!("pairing did not finish");
    };

    let mut host = tv.connect(&credential).unwrap();
    tv.command(&mut host, Function::VolumeUp).unwrap();
    tv.command(&mut host, Function::Up).unwrap();
    let status = tv.status(&mut host).unwrap();
    assert_eq!(status.on, Some(true));
    assert_eq!(status.volume, Some(37));
    assert_eq!(status.muted, Some(false));
    assert_eq!(status.input.as_deref(), Some("HDMI_1"));
    assert_eq!(status.app.as_deref(), Some("Game console"));
    assert_eq!(status.sound_output.as_deref(), Some("external_arc"));
    assert_eq!(status.picture_mode.as_deref(), Some("cinema"));
    let request = host.inputs();
    let offered = WebOsTv::inputs_replied(tv.exchange(request)).unwrap();
    let judged: Vec<(Selectable, bool)> = offered.into_iter().map(|item| (item, true)).collect();
    let inputs = choose_offers(&judged);
    assert_eq!(inputs[0].id, "HDMI_1");
    assert_eq!(inputs[0].name, "Game console");
    let request = host.apps();
    let apps = WebOsTv::apps_replied(tv.exchange(request)).unwrap();
    assert_eq!(apps[0].name, "Netflix");
    tv.command(&mut host, Function::App("netflix".into())).unwrap();
    tv.command(&mut host, Function::Extra("sound-tv-speaker".into()))
        .unwrap();
    assert!(!pairing.is_open());
    assert_eq!(
        tv.log,
        [
            "register",
            "register",
            "ssap://audio/volumeUp",
            "ssap://com.webos.service.networkinput/getPointerInputSocket",
            "pointer:UP",
            "ssap://com.webos.service.tvpower/power/getPowerState",
            "ssap://audio/getVolume",
            "ssap://com.webos.applicationManager/getForegroundAppInfo",
            "ssap://com.webos.service.apiadapter/audio/getSoundOutput",
            "ssap://settings/getSystemSettings",
            "ssap://tv/getExternalInputList",
            "ssap://com.webos.applicationManager/listLaunchPoints",
            "ssap://system.launcher/launch",
            "ssap://com.webos.service.apiadapter/audio/changeSoundOutput",
        ]
    );
}

#[test]
fn every_pairing_scenario_passes_the_shared_admission_harness() {
    for scenario in [
        Scenario::Paired,
        Scenario::Refused,
        Scenario::TimedOut,
        Scenario::Cancelled,
    ] {
        let mut tv = FakeTv::start(scenario);
        let mut pairing = pair(&mut tv);
        assert!(matches!(
            next_step(&mut tv, &mut pairing, 0),
            PairStep::Waiting { .. }
        ));
        match scenario {
            Scenario::Paired => {
                let PairStep::Done { credential, text } = next_step(&mut tv, &mut pairing, 1500)
                else {
                    panic!("not paired");
                };
                assert_eq!(text, "Paired with LG webOS TV");
                assert_eq!(credential.client_key.as_deref(), Some("fixture-key"));
                let mut host = tv.connect(&credential).unwrap();
                assert!(tv.status(&mut host).is_ok());
            }
            Scenario::Refused => {
                assert!(matches!(
                    next_step(&mut tv, &mut pairing, 1500),
                    PairStep::Failed {
                        failure: PairFailure::Refused,
                        reason: Some("The LG TV did not approve Couch"),
                    }
                ));
                assert!(!pairing.is_open());
            }
            Scenario::TimedOut => {
                assert!(matches!(
                    next_step(&mut tv, &mut pairing, 84_999),
                    PairStep::Waiting {
                        prompt: "Approve Couch on the LG TV",
                        poll_ms: 1500,
                    }
                ));
                assert!(matches!(
                    next_step(&mut tv, &mut pairing, 85_000),
                    PairStep::Failed {
                        failure: PairFailure::TimedOut,
                        reason: Some("The LG TV was not approved before pairing closed"),
                    }
                ));
            }
            Scenario::Cancelled => {
                pairing.cancel();
                assert!(!pairing.is_open());
                assert!(matches!(
                    next_step(&mut tv, &mut pairing, 1500),
                    PairStep::Failed {
                        failure: PairFailure::Refused,
                        reason: None,
                    }
                ));
            }
        }
    }
}

#[test]
fn a_second_button_uses_the_pointer_socket_that_is_open() {
    let mut tv = FakeTv::start(Scenario::Paired);
    let mut host = WebOsTv::new(&FakeTv::settings());
    tv.command(&mut host, Function::Up).unwrap();
    tv.command(&mut host, Function::Enter).unwrap();
    assert_eq!(
        tv.log,
        [
            "ssap://com.webos.service.networkinput/getPointerInputSocket",
            "pointer:UP",
            "pointer:ENTER",
        ]
    );
}

#[test]
fn a_function_that_the_television_refuses_is_reported_and_not_sent_again() {
    let mut tv = FakeTv::start(Scenario::Paired);
    let mut host = WebOsTv::new(&FakeTv::settings());
    assert_eq!(
        tv.command(&mut host, Function::PowerOff),
        Err(ClientError::Rejected)
    );
    assert_eq!(tv.log, ["ssap://system/turnOff"]);
}

#[test]
fn the_picture_card_opens_the_settings_app() {
    let mut tv = FakeTv::start(Scenario::Paired);
    let mut host = WebOsTv::new(&FakeTv::settings());
    let action = host.execute(&Function::App("com.webos.app.settings".into()), false);
    let Action::Exchange { request, next } = action else {
        panic!("no request");
    };
    assert_eq!(
        encode(&request.message),
        "{\"id\":\"couch-1\",\"payload\":{\"id\":\"com.webos.app.settings\"},\
         \"type\":\"request\",\"uri\":\"ssap://system.launcher/launch\"}"
    );
    let reply = tv.exchange(request);
    assert!(matches!(host.replied(next, reply), Action::Finish(Ok(()))));
}
