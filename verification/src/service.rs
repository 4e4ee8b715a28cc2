//! The services of the television that the client calls.

use crate::message::is_request_uri;
use vstd::prelude::*;
use vstd::utf8::*;

verus! {

/// Whether every character is a printable ASCII character.
spec fn is_printable_ascii(text: Seq<char>) -> bool {
    forall|i: int| 0 <= i < text.len() ==> ' ' <= #[trigger] text[i] <= '~'
}

/// A short URI of the protocol in printable ASCII can be the URI of a request.
proof fn printable_uri(uri: Seq<char>)
    requires
        "ssap://"@.is_prefix_of(uri),
        uri.len() <= 256,
        is_printable_ascii(uri),
    ensures
        is_request_uri(uri),
{
    assert(is_ascii_chars(uri));
    is_ascii_chars_encode_utf8(uri);
}

proof fn audio_uris()
    ensures
        is_request_uri("ssap://audio/volumeUp"@),
        is_request_uri("ssap://audio/volumeDown"@),
        is_request_uri("ssap://audio/setMute"@),
        is_request_uri("ssap://audio/getVolume"@),
{
    reveal_strlit("ssap://");
    assert(is_request_uri("ssap://audio/volumeUp"@)) by {
        reveal_strlit("ssap://audio/volumeUp");
        assert("ssap://"@ == "ssap://audio/volumeUp"@.subrange(0, 7));
        printable_uri("ssap://audio/volumeUp"@);
    }
    assert(is_request_uri("ssap://audio/volumeDown"@)) by {
        reveal_strlit("ssap://audio/volumeDown");
        assert("ssap://"@ == "ssap://audio/volumeDown"@.subrange(0, 7));
        printable_uri("ssap://audio/volumeDown"@);
    }
    assert(is_request_uri("ssap://audio/setMute"@)) by {
        reveal_strlit("ssap://audio/setMute");
        assert("ssap://"@ == "ssap://audio/setMute"@.subrange(0, 7));
        printable_uri("ssap://audio/setMute"@);
    }
    assert(is_request_uri("ssap://audio/getVolume"@)) by {
        reveal_strlit("ssap://audio/getVolume");
        assert("ssap://"@ == "ssap://audio/getVolume"@.subrange(0, 7));
        printable_uri("ssap://audio/getVolume"@);
    }
}

proof fn channel_and_input_uris()
    ensures
        is_request_uri("ssap://tv/switchInput"@),
        is_request_uri("ssap://tv/channelUp"@),
        is_request_uri("ssap://tv/channelDown"@),
        is_request_uri("ssap://tv/getExternalInputList"@),
{
    reveal_strlit("ssap://");
    assert(is_request_uri("ssap://tv/switchInput"@)) by {
        reveal_strlit("ssap://tv/switchInput");
        assert("ssap://"@ == "ssap://tv/switchInput"@.subrange(0, 7));
        printable_uri("ssap://tv/switchInput"@);
    }
    assert(is_request_uri("ssap://tv/channelUp"@)) by {
        reveal_strlit("ssap://tv/channelUp");
        assert("ssap://"@ == "ssap://tv/channelUp"@.subrange(0, 7));
        printable_uri("ssap://tv/channelUp"@);
    }
    assert(is_request_uri("ssap://tv/channelDown"@)) by {
        reveal_strlit("ssap://tv/channelDown");
        assert("ssap://"@ == "ssap://tv/channelDown"@.subrange(0, 7));
        printable_uri("ssap://tv/channelDown"@);
    }
    assert(is_request_uri("ssap://tv/getExternalInputList"@)) by {
        reveal_strlit("ssap://tv/getExternalInputList");
        assert("ssap://"@ == "ssap://tv/getExternalInputList"@.subrange(0, 7));
        printable_uri("ssap://tv/getExternalInputList"@);
    }
}

proof fn media_uris()
    ensures
        is_request_uri("ssap://media.controls/play"@),
        is_request_uri("ssap://media.controls/pause"@),
        is_request_uri("ssap://media.controls/stop"@),
        is_request_uri("ssap://media.controls/rewind"@),
        is_request_uri("ssap://media.controls/fastForward"@),
{
    reveal_strlit("ssap://");
    assert(is_request_uri("ssap://media.controls/play"@)) by {
        reveal_strlit("ssap://media.controls/play");
        assert("ssap://"@ == "ssap://media.controls/play"@.subrange(0, 7));
        printable_uri("ssap://media.controls/play"@);
    }
    assert(is_request_uri("ssap://media.controls/pause"@)) by {
        reveal_strlit("ssap://media.controls/pause");
        assert("ssap://"@ == "ssap://media.controls/pause"@.subrange(0, 7));
        printable_uri("ssap://media.controls/pause"@);
    }
    assert(is_request_uri("ssap://media.controls/stop"@)) by {
        reveal_strlit("ssap://media.controls/stop");
        assert("ssap://"@ == "ssap://media.controls/stop"@.subrange(0, 7));
        printable_uri("ssap://media.controls/stop"@);
    }
    assert(is_request_uri("ssap://media.controls/rewind"@)) by {
        reveal_strlit("ssap://media.controls/rewind");
        assert("ssap://"@ == "ssap://media.controls/rewind"@.subrange(0, 7));
        printable_uri("ssap://media.controls/rewind"@);
    }
    assert(is_request_uri("ssap://media.controls/fastForward"@)) by {
        reveal_strlit("ssap://media.controls/fastForward");
        assert("ssap://"@ == "ssap://media.controls/fastForward"@.subrange(0, 7));
        printable_uri("ssap://media.controls/fastForward"@);
    }
}

proof fn system_uris()
    ensures
        is_request_uri("ssap://system/turnOff"@),
        is_request_uri("ssap://system.launcher/launch"@),
        is_request_uri("ssap://settings/getSystemSettings"@),
{
    reveal_strlit("ssap://");
    assert(is_request_uri("ssap://system/turnOff"@)) by {
        reveal_strlit("ssap://system/turnOff");
        assert("ssap://"@ == "ssap://system/turnOff"@.subrange(0, 7));
        printable_uri("ssap://system/turnOff"@);
    }
    assert(is_request_uri("ssap://system.launcher/launch"@)) by {
        reveal_strlit("ssap://system.launcher/launch");
        assert("ssap://"@ == "ssap://system.launcher/launch"@.subrange(0, 7));
        printable_uri("ssap://system.launcher/launch"@);
    }
    assert(is_request_uri("ssap://settings/getSystemSettings"@)) by {
        reveal_strlit("ssap://settings/getSystemSettings");
        assert("ssap://"@ == "ssap://settings/getSystemSettings"@.subrange(0, 7));
        printable_uri("ssap://settings/getSystemSettings"@);
    }
}

proof fn sound_output_uris()
    ensures
        is_request_uri("ssap://com.webos.service.apiadapter/audio/changeSoundOutput"@),
        is_request_uri("ssap://com.webos.service.apiadapter/audio/getSoundOutput"@),
{
    reveal_strlit("ssap://");
    assert(is_request_uri("ssap://com.webos.service.apiadapter/audio/changeSoundOutput"@)) by {
        reveal_strlit("ssap://com.webos.service.apiadapter/audio/changeSoundOutput");
        assert("ssap://"@ == "ssap://com.webos.service.apiadapter/audio/changeSoundOutput"@.subrange(0, 7));
        printable_uri("ssap://com.webos.service.apiadapter/audio/changeSoundOutput"@);
    }
    assert(is_request_uri("ssap://com.webos.service.apiadapter/audio/getSoundOutput"@)) by {
        reveal_strlit("ssap://com.webos.service.apiadapter/audio/getSoundOutput");
        assert("ssap://"@ == "ssap://com.webos.service.apiadapter/audio/getSoundOutput"@.subrange(0, 7));
        printable_uri("ssap://com.webos.service.apiadapter/audio/getSoundOutput"@);
    }
}

proof fn power_and_pointer_uris()
    ensures
        is_request_uri("ssap://com.webos.service.tvpower/power/getPowerState"@),
        is_request_uri("ssap://com.webos.service.networkinput/getPointerInputSocket"@),
{
    reveal_strlit("ssap://");
    assert(is_request_uri("ssap://com.webos.service.tvpower/power/getPowerState"@)) by {
        reveal_strlit("ssap://com.webos.service.tvpower/power/getPowerState");
        assert("ssap://"@ == "ssap://com.webos.service.tvpower/power/getPowerState"@.subrange(0, 7));
        printable_uri("ssap://com.webos.service.tvpower/power/getPowerState"@);
    }
    assert(is_request_uri("ssap://com.webos.service.networkinput/getPointerInputSocket"@)) by {
        reveal_strlit("ssap://com.webos.service.networkinput/getPointerInputSocket");
        assert("ssap://"@ == "ssap://com.webos.service.networkinput/getPointerInputSocket"@.subrange(0, 7));
        printable_uri("ssap://com.webos.service.networkinput/getPointerInputSocket"@);
    }
}

proof fn app_uris()
    ensures
        is_request_uri("ssap://com.webos.applicationManager/getForegroundAppInfo"@),
        is_request_uri("ssap://com.webos.applicationManager/listLaunchPoints"@),
{
    reveal_strlit("ssap://");
    assert(is_request_uri("ssap://com.webos.applicationManager/getForegroundAppInfo"@)) by {
        reveal_strlit("ssap://com.webos.applicationManager/getForegroundAppInfo");
        assert("ssap://"@ == "ssap://com.webos.applicationManager/getForegroundAppInfo"@.subrange(0, 7));
        printable_uri("ssap://com.webos.applicationManager/getForegroundAppInfo"@);
    }
    assert(is_request_uri("ssap://com.webos.applicationManager/listLaunchPoints"@)) by {
        reveal_strlit("ssap://com.webos.applicationManager/listLaunchPoints");
        assert("ssap://"@ == "ssap://com.webos.applicationManager/listLaunchPoints"@.subrange(0, 7));
        printable_uri("ssap://com.webos.applicationManager/listLaunchPoints"@);
    }
}

/// Every URI that the client calls can be the URI of a request.
pub proof fn services_are_request_uris()
    ensures
        is_request_uri("ssap://audio/volumeUp"@),
        is_request_uri("ssap://audio/volumeDown"@),
        is_request_uri("ssap://audio/setMute"@),
        is_request_uri("ssap://audio/getVolume"@),
        is_request_uri("ssap://tv/switchInput"@),
        is_request_uri("ssap://tv/channelUp"@),
        is_request_uri("ssap://tv/channelDown"@),
        is_request_uri("ssap://tv/getExternalInputList"@),
        is_request_uri("ssap://media.controls/play"@),
        is_request_uri("ssap://media.controls/pause"@),
        is_request_uri("ssap://media.controls/stop"@),
        is_request_uri("ssap://media.controls/rewind"@),
        is_request_uri("ssap://media.controls/fastForward"@),
        is_request_uri("ssap://system/turnOff"@),
        is_request_uri("ssap://system.launcher/launch"@),
        is_request_uri("ssap://settings/getSystemSettings"@),
        is_request_uri("ssap://com.webos.service.apiadapter/audio/changeSoundOutput"@),
        is_request_uri("ssap://com.webos.service.apiadapter/audio/getSoundOutput"@),
        is_request_uri("ssap://com.webos.service.tvpower/power/getPowerState"@),
        is_request_uri("ssap://com.webos.service.networkinput/getPointerInputSocket"@),
        is_request_uri("ssap://com.webos.applicationManager/getForegroundAppInfo"@),
        is_request_uri("ssap://com.webos.applicationManager/listLaunchPoints"@),
{
    audio_uris();
    channel_and_input_uris();
    media_uris();
    system_uris();
    sound_output_uris();
    power_and_pointer_uris();
    app_uris();
}

} // verus!
