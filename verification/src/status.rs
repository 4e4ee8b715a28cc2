//! What the television says of itself.

use crate::function::{empty_object, APP_ID_LIMIT};
use crate::json::{list_view, Fields, Json, JsonView};
use crate::text::{is_label, label, optional_text, same_text};
use vstd::prelude::*;

verus! {

/// How many bytes the name of an input or an app may take.
pub const NAME_LIMIT: usize = 4096;

/// How many questions of a status have to be answered: the first ones, on power, volume and the
/// foreground app. The television may refuse the others.
pub const REQUIRED_REPLIES: usize = 3;

/// How the television stands; `None` where it does not say.
pub struct Status {
    pub on: Option<bool>,
    pub muted: Option<bool>,
    /// The volume, from 0 to 100.
    pub volume: Option<u8>,
    /// The identifier of the app or input in the foreground.
    pub input: Option<String>,
    /// The name of the app or input in the foreground.
    pub app: Option<String>,
    /// The webOS name of the sound output.
    pub sound_output: Option<String>,
    pub picture_mode: Option<String>,
}

/// How the television stands.
pub struct StatusView {
    pub on: Option<bool>,
    pub muted: Option<bool>,
    pub volume: Option<u8>,
    pub input: Option<Seq<char>>,
    pub app: Option<Seq<char>>,
    pub sound_output: Option<Seq<char>>,
    pub picture_mode: Option<Seq<char>>,
}

impl View for Status {
    type V = StatusView;

    open spec fn view(&self) -> StatusView {
        StatusView {
            on: self.on,
            muted: self.muted,
            volume: self.volume,
            input: optional_text(self.input),
            app: optional_text(self.app),
            sound_output: optional_text(self.sound_output),
            picture_mode: optional_text(self.picture_mode),
        }
    }
}

/// A text that can be shown, or nothing.
pub open spec fn shown(json: JsonView, limit: nat) -> Option<Seq<char>> {
    match json.text() {
        Some(text) => if is_label(text, limit) {
            Some(text)
        } else {
            None
        },
        None => None,
    }
}

/// Whether a power state means that the television is on.
pub open spec fn is_on(state: Seq<char>) -> bool {
    !(state == "Power Off"@ || state == "Suspend"@ || state == "Screen Off"@)
}

/// The volume that a number means.
pub open spec fn level(json: JsonView) -> Option<u8> {
    match json.integer() {
        Some(n) => if n <= 100 {
            Some(n as u8)
        } else {
            None
        },
        None => None,
    }
}

/// How the television stands, from its replies on power, volume, foreground app, sound output and
/// picture settings.
pub open spec fn status_from(
    power: JsonView,
    volume: JsonView,
    foreground: JsonView,
    sound: JsonView,
    picture: JsonView,
) -> StatusView {
    StatusView {
        on: match power.field("state"@).text() {
            Some(state) => Some(is_on(state)),
            None => None,
        },
        muted: volume.field("mute"@).boolean(),
        volume: level(volume.field("volume"@)),
        input: shown(foreground.field("appId"@), APP_ID_LIMIT as nat),
        app: shown(foreground.field("appName"@), NAME_LIMIT as nat),
        sound_output: shown(sound.field("soundOutput"@), APP_ID_LIMIT as nat),
        picture_mode: shown(picture.field("settings"@).field("pictureMode"@), APP_ID_LIMIT as nat),
    }
}

/// What the television is asked for its status, in this order.
pub open spec fn status_queries() -> Seq<(&'static str, JsonView)> {
    seq![
        ("ssap://com.webos.service.tvpower/power/getPowerState", empty_object()),
        ("ssap://audio/getVolume", empty_object()),
        ("ssap://com.webos.applicationManager/getForegroundAppInfo", empty_object()),
        ("ssap://com.webos.service.apiadapter/audio/getSoundOutput", empty_object()),
        ("ssap://settings/getSystemSettings", picture_payload()),
    ]
}

/// The payload that asks for the picture mode.
pub open spec fn picture_payload() -> JsonView {
    JsonView::Object(
        map![
            "category"@ => JsonView::Text("picture"@),
            "keys"@ => JsonView::List(seq![JsonView::Text("pictureMode"@)]),
        ],
    )
}

/// A text that can be shown, or nothing.
fn shown_at(json: &Json, key: &str, limit: usize) -> (text: Option<String>)
    ensures
        optional_text(text) == shown(json@.field(key@), limit as nat),
{
    match json.text_at(key) {
        Some(text) => if label(text, limit) {
            Some(text.to_owned())
        } else {
            None
        },
        None => None,
    }
}

/// What the television is asked at this place of its status.
pub fn status_query(at: usize) -> (query: (&'static str, Json))
    requires
        at < status_queries().len(),
    ensures
        (query.0, query.1@) == status_queries()[at as int],
{
    if at == 0 {
        ("ssap://com.webos.service.tvpower/power/getPowerState", Fields::new().object())
    } else if at == 1 {
        ("ssap://audio/getVolume", Fields::new().object())
    } else if at == 2 {
        ("ssap://com.webos.applicationManager/getForegroundAppInfo", Fields::new().object())
    } else if at == 3 {
        ("ssap://com.webos.service.apiadapter/audio/getSoundOutput", Fields::new().object())
    } else {
        let mut keys: Vec<Json> = Vec::new();
        keys.push(Json::Text("pictureMode".to_owned()));
        proof {
            reveal_with_fuel(list_view, 2);
            assert(keys@.last()@ == JsonView::Text("pictureMode"@));
            assert(list_view(keys@) == seq![JsonView::Text("pictureMode"@)]);
        }
        (
            "ssap://settings/getSystemSettings",
            Fields::new().with_text("category", "picture").with("keys", Json::List(keys)).object(),
        )
    }
}

impl Status {
    /// How the television stands, from its replies.
    pub fn from_replies(
        power: &Json,
        volume: &Json,
        foreground: &Json,
        sound: &Json,
        picture: &Json,
    ) -> (status: Status)
        ensures
            status@ == status_from(power@, volume@, foreground@, sound@, picture@),
    {
        let on = match power.text_at("state") {
            Some(state) => Some(
                !(same_text(state, "Power Off") || same_text(state, "Suspend") || same_text(
                    state,
                    "Screen Off",
                )),
            ),
            None => None,
        };
        let level: Option<u8> = match volume.integer_at("volume") {
            Some(n) => if n <= 100 {
                Some(n as u8)
            } else {
                None
            },
            None => None,
        };
        let picture_mode = match picture.get("settings") {
            Some(settings) => shown_at(settings, "pictureMode", APP_ID_LIMIT),
            None => None,
        };
        Status {
            on,
            muted: volume.boolean_at("mute"),
            volume: level,
            input: shown_at(foreground, "appId", APP_ID_LIMIT),
            app: shown_at(foreground, "appName", NAME_LIMIT),
            sound_output: shown_at(sound, "soundOutput", APP_ID_LIMIT),
            picture_mode,
        }
    }
}

} // verus!
