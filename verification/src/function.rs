//! What the host can ask of the television, and what the television is told for it.

use crate::json::{Fields, Json, JsonView};
use crate::text::{is_label, label, starts_with};
use vstd::prelude::*;

verus! {

/// How many bytes the identifier of an app may take.
pub const APP_ID_LIMIT: usize = 256;

/// What the host can ask for.
pub enum Function {
    PowerOff,
    VolumeUp,
    VolumeDown,
    Mute,
    MuteOn,
    MuteOff,
    /// Switch to the input with this identifier.
    Input(String),
    Up,
    Down,
    Left,
    Right,
    Enter,
    Back,
    Home,
    Menu,
    Red,
    Green,
    Yellow,
    Blue,
    ChannelUp,
    ChannelDown,
    Play,
    Pause,
    Stop,
    Rewind,
    FastForward,
    /// Launch the app with this identifier.
    App(String),
    /// A function of this client's own, by its name.
    Extra(String),
    /// Anything else.
    Other,
}

/// How a function is carried out.
pub enum Command {
    /// One request on the control socket.
    Request { uri: &'static str, payload: Json },
    /// Ask whether the sound is muted, then set the opposite.
    ToggleMute,
    /// Press this button through the pointer socket.
    Press(&'static str),
}

/// How a function is carried out.
pub enum CommandView {
    Request { uri: &'static str, payload: JsonView },
    ToggleMute,
    Press(&'static str),
}

impl View for Command {
    type V = CommandView;

    open spec fn view(&self) -> CommandView {
        match self {
            Command::Request { uri, payload } => CommandView::Request {
                uri: *uri,
                payload: payload@,
            },
            Command::ToggleMute => CommandView::ToggleMute,
            Command::Press(name) => CommandView::Press(*name),
        }
    }
}

/// The object without entries.
pub open spec fn empty_object() -> JsonView {
    JsonView::Object(Map::empty())
}

/// The object with one entry.
pub open spec fn single(key: Seq<char>, value: JsonView) -> JsonView {
    JsonView::Object(map![key => value])
}

/// The payload that sets or clears the mute.
pub open spec fn mute_payload(on: bool) -> JsonView {
    single("mute"@, JsonView::Bool(on))
}

/// Whether a character can stand in the name of a sound output.
pub open spec fn is_sound_char(c: char) -> bool {
    'a' <= c <= 'z' || '0' <= c <= '9' || c == '-'
}

/// The webOS name of a sound output: underscores stand for hyphens.
pub open spec fn webos_name(name: Seq<char>) -> Seq<char> {
    name.map_values(
        |c: char|
            if c == '-' {
                '_'
            } else {
                c
            },
    )
}

/// The sound output that an extra function selects, if it is `sound-` and a name.
pub open spec fn sound_choice(extra: Seq<char>) -> Option<Seq<char>> {
    let name = extra.skip(6);
    if "sound-"@.is_prefix_of(extra) && name.len() > 0 && (forall|i: int|
        0 <= i < name.len() ==> is_sound_char(#[trigger] name[i])) {
        Some(webos_name(name))
    } else {
        None
    }
}

/// How a function is carried out, where the client offers it. Whether the identifier of an input
/// is valid is for the host to say.
pub open spec fn command_for(function: Function, input_valid: bool) -> Option<CommandView> {
    match function {
        Function::PowerOff => Some(simple("ssap://system/turnOff")),
        Function::VolumeUp => Some(simple("ssap://audio/volumeUp")),
        Function::VolumeDown => Some(simple("ssap://audio/volumeDown")),
        Function::Mute => Some(CommandView::ToggleMute),
        Function::MuteOn => Some(
            CommandView::Request { uri: "ssap://audio/setMute", payload: mute_payload(true) },
        ),
        Function::MuteOff => Some(
            CommandView::Request { uri: "ssap://audio/setMute", payload: mute_payload(false) },
        ),
        Function::Input(id) => if input_valid {
            Some(
                CommandView::Request {
                    uri: "ssap://tv/switchInput",
                    payload: single("inputId"@, JsonView::Text(id@)),
                },
            )
        } else {
            None
        },
        Function::Up => Some(CommandView::Press("UP")),
        Function::Down => Some(CommandView::Press("DOWN")),
        Function::Left => Some(CommandView::Press("LEFT")),
        Function::Right => Some(CommandView::Press("RIGHT")),
        Function::Enter => Some(CommandView::Press("ENTER")),
        Function::Back => Some(CommandView::Press("BACK")),
        Function::Home => Some(CommandView::Press("HOME")),
        Function::Menu => Some(CommandView::Press("MENU")),
        Function::Red => Some(CommandView::Press("RED")),
        Function::Green => Some(CommandView::Press("GREEN")),
        Function::Yellow => Some(CommandView::Press("YELLOW")),
        Function::Blue => Some(CommandView::Press("BLUE")),
        Function::ChannelUp => Some(simple("ssap://tv/channelUp")),
        Function::ChannelDown => Some(simple("ssap://tv/channelDown")),
        Function::Play => Some(simple("ssap://media.controls/play")),
        Function::Pause => Some(simple("ssap://media.controls/pause")),
        Function::Stop => Some(simple("ssap://media.controls/stop")),
        Function::Rewind => Some(simple("ssap://media.controls/rewind")),
        Function::FastForward => Some(simple("ssap://media.controls/fastForward")),
        Function::App(id) => if is_label(id@, APP_ID_LIMIT as nat) {
            Some(
                CommandView::Request {
                    uri: "ssap://system.launcher/launch",
                    payload: single("id"@, JsonView::Text(id@)),
                },
            )
        } else {
            None
        },
        Function::Extra(name) => match sound_choice(name@) {
            Some(output) => Some(
                CommandView::Request {
                    uri: "ssap://com.webos.service.apiadapter/audio/changeSoundOutput",
                    payload: single("output"@, JsonView::Text(output)),
                },
            ),
            None => None,
        },
        Function::Other => None,
    }
}

/// A request without parameters.
pub open spec fn simple(uri: &'static str) -> CommandView {
    CommandView::Request { uri, payload: empty_object() }
}

/// A request without parameters.
fn plain(uri: &'static str) -> (command: Command)
    ensures
        command@ == simple(uri),
{
    Command::Request { uri, payload: Fields::new().object() }
}

/// The request that sets or clears the mute.
fn mute_request(on: bool) -> (command: Command)
    ensures
        command@ == (CommandView::Request {
            uri: "ssap://audio/setMute",
            payload: mute_payload(on),
        }),
{
    Command::Request {
        uri: "ssap://audio/setMute",
        payload: Fields::new().with("mute", Json::Bool(on)).object(),
    }
}

/// The sound output that an extra function selects, if it is `sound-` and a name.
pub fn sound_output(extra: &str) -> (output: Option<String>)
    ensures
        match output {
            Some(output) => sound_choice(extra@) == Some(output@),
            None => sound_choice(extra@) is None,
        },
{
    proof {
        reveal_strlit("sound-");
        reveal_strlit("_");
    }
    if !starts_with(extra, "sound-") {
        return None;
    }
    let count: usize = extra.unicode_len();
    if count == 6 {
        return None;
    }
    let ghost name = extra@.skip(6);
    let mut output = String::new();
    let mut at: usize = 6;
    while at < count
        invariant
            6 <= at <= count,
            count == extra@.len(),
            name == extra@.skip(6),
            "_"@ == seq!['_'],
            forall|i: int| 0 <= i < at - 6 ==> is_sound_char(#[trigger] name[i]),
            output@ == webos_name(name.take(at - 6)),
        decreases count - at,
    {
        let c = extra.get_char(at);
        assert(c == name[at - 6]);
        if !('a' <= c && c <= 'z' || '0' <= c && c <= '9' || c == '-') {
            return None;
        }
        if c == '-' {
            output.append("_");
        } else {
            output.append(extra.substring_char(at, at + 1));
        }
        assert(output@ == webos_name(name.take(at + 1 - 6)));
        at += 1;
    }
    assert(name.take(count - 6) == name);
    Some(output)
}

impl Function {
    /// How the function is carried out, where the client offers it.
    pub fn command(&self, input_valid: bool) -> (command: Option<Command>)
        ensures
            match command {
                Some(command) => command_for(*self, input_valid) == Some(command@),
                None => command_for(*self, input_valid) is None,
            },
    {
        match self {
            Function::PowerOff => Some(plain("ssap://system/turnOff")),
            Function::VolumeUp => Some(plain("ssap://audio/volumeUp")),
            Function::VolumeDown => Some(plain("ssap://audio/volumeDown")),
            Function::Mute => Some(Command::ToggleMute),
            Function::MuteOn => Some(mute_request(true)),
            Function::MuteOff => Some(mute_request(false)),
            Function::Input(id) => if input_valid {
                Some(
                    Command::Request {
                        uri: "ssap://tv/switchInput",
                        payload: Fields::new().with_text("inputId", id.as_str()).object(),
                    },
                )
            } else {
                None
            },
            Function::Up => Some(Command::Press("UP")),
            Function::Down => Some(Command::Press("DOWN")),
            Function::Left => Some(Command::Press("LEFT")),
            Function::Right => Some(Command::Press("RIGHT")),
            Function::Enter => Some(Command::Press("ENTER")),
            Function::Back => Some(Command::Press("BACK")),
            Function::Home => Some(Command::Press("HOME")),
            Function::Menu => Some(Command::Press("MENU")),
            Function::Red => Some(Command::Press("RED")),
            Function::Green => Some(Command::Press("GREEN")),
            Function::Yellow => Some(Command::Press("YELLOW")),
            Function::Blue => Some(Command::Press("BLUE")),
            Function::ChannelUp => Some(plain("ssap://tv/channelUp")),
            Function::ChannelDown => Some(plain("ssap://tv/channelDown")),
            Function::Play => Some(plain("ssap://media.controls/play")),
            Function::Pause => Some(plain("ssap://media.controls/pause")),
            Function::Stop => Some(plain("ssap://media.controls/stop")),
            Function::Rewind => Some(plain("ssap://media.controls/rewind")),
            Function::FastForward => Some(plain("ssap://media.controls/fastForward")),
            Function::App(id) => if label(id.as_str(), APP_ID_LIMIT) {
                Some(
                    Command::Request {
                        uri: "ssap://system.launcher/launch",
                        payload: Fields::new().with_text("id", id.as_str()).object(),
                    },
                )
            } else {
                None
            },
            Function::Extra(name) => match sound_output(name.as_str()) {
                Some(output) => Some(
                    Command::Request {
                        uri: "ssap://com.webos.service.apiadapter/audio/changeSoundOutput",
                        payload: Fields::new().with_text("output", output.as_str()).object(),
                    },
                ),
                None => None,
            },
            Function::Other => None,
        }
    }
}

} // verus!
