# couch_webos

A verified client for LG webOS televisions over SSAP, the protocol of their control WebSocket. It
covers on-screen approval pairing, the client key and the pinned certificate, navigation, playback,
volume, mute, status, inputs, apps and sound outputs. The television can be switched off over the
network, not on.

## Layout

- `src/` is the library. It holds every decision and opens no socket: a step names the next action,
  the caller performs it and hands the outcome to the next step.
  - `address`, `settings`: which addresses are connected to, and what the setup field stands for.
  - `json`, `wire`, `message`: JSON values, their text, and the messages of the protocol.
  - `frame`, `exchange`: what is made of what comes in, and when an exchange is over.
  - `credential`, `pairing`: what the host keeps, and how it is obtained.
  - `function`, `status`, `selection`, `tv`: what is sent for each function, and what is made of the
    replies.
  - `service`: the services that are called.
  - `laws`: what holds of the client as a whole.
- `app/` is the package around it: sockets, clocks and the traits of the Couch host.
- `tests/` runs the library against a fake television in memory.

## What is trusted

Verus proves every function of the library but for the calls into three crates: `url` takes URLs
apart, `serde_json` reads and writes JSON text, and `base64` writes the certificate as text. Each
call stands in a small function of its own whose comment says what is claimed of it.
