//! What is made of what comes in on a socket.

use crate::error::Error;
use crate::json::{Json, JsonView};
use crate::wire::{decode, json_parsed};
use vstd::prelude::*;

verus! {

/// How many bytes a message on a socket, or one frame of it, may take.
pub const MESSAGE_LIMIT: usize = 1_048_576;

/// What one read of a socket gives.
pub enum SocketEvent {
    Text(String),
    Ping,
    Pong,
    Close,
    /// A message of another kind.
    Other,
    /// Nothing came before the read timed out.
    TimedOut,
    /// The read failed otherwise.
    Failed,
}

/// What to do after one read of a socket.
pub enum Reading {
    /// A frame is there.
    Frame(Json),
    /// Flush the socket, which answers a ping, and read on.
    Flush,
    /// Read on.
    Again,
    /// Give up.
    Fail(Error),
}

/// What to do after one read of a socket.
pub enum ReadingView {
    Frame(JsonView),
    Flush,
    Again,
    Fail(Error),
}

impl View for Reading {
    type V = ReadingView;

    open spec fn view(&self) -> ReadingView {
        match self {
            Reading::Frame(json) => ReadingView::Frame(json@),
            Reading::Flush => ReadingView::Flush,
            Reading::Again => ReadingView::Again,
            Reading::Fail(error) => ReadingView::Fail(*error),
        }
    }
}

/// What is made of a text that was read as JSON, or could not be.
pub open spec fn text_reading(parsed: Option<JsonView>) -> ReadingView {
    match parsed {
        Some(json) => ReadingView::Frame(json),
        None => ReadingView::Fail(Error::Protocol),
    }
}

/// What is made of one read of a socket.
pub open spec fn event_reading(event: SocketEvent) -> ReadingView {
    match event {
        SocketEvent::Text(text) => text_reading(json_parsed(text@)),
        SocketEvent::Ping => ReadingView::Flush,
        SocketEvent::Pong => ReadingView::Again,
        SocketEvent::Close => ReadingView::Fail(Error::Transport),
        SocketEvent::Other => ReadingView::Fail(Error::Protocol),
        SocketEvent::TimedOut => ReadingView::Fail(Error::Timeout),
        SocketEvent::Failed => ReadingView::Fail(Error::Transport),
    }
}

/// What is made of a text that was read as JSON, or could not be.
pub fn read_text(parsed: Option<Json>) -> (reading: Reading)
    ensures
        reading@ == text_reading(
            match parsed {
                Some(json) => Some(json@),
                None => None,
            },
        ),
{
    match parsed {
        Some(json) => Reading::Frame(json),
        None => Reading::Fail(Error::Protocol),
    }
}

/// What is made of one read of a socket.
pub fn read(event: &SocketEvent) -> (reading: Reading)
    ensures
        reading@ == event_reading(*event),
{
    match event {
        SocketEvent::Text(text) => read_text(decode(text.as_str())),
        SocketEvent::Ping => Reading::Flush,
        SocketEvent::Pong => Reading::Again,
        SocketEvent::Close => Reading::Fail(Error::Transport),
        SocketEvent::Other => Reading::Fail(Error::Protocol),
        SocketEvent::TimedOut => Reading::Fail(Error::Timeout),
        SocketEvent::Failed => Reading::Fail(Error::Transport),
    }
}

} // verus!
