//! Waiting on the control socket for what ends an exchange.

use crate::error::Error;
use crate::frame::{event_reading, read, Reading, ReadingView, SocketEvent};
use crate::json::{Json, JsonView};
use crate::message::{payload_view, registered, registration_outcome, reply_outcome, Request};
use vstd::prelude::*;

verus! {

/// How long a reply, or one read during pairing, may take, in nanoseconds.
pub const IO_TIMEOUT: u128 = 4_000_000_000;

/// How long a registration may take, in nanoseconds.
pub const REGISTER_TIMEOUT: u128 = 5_000_000_000;

/// What ends an exchange.
pub enum Want {
    /// Any frame.
    Frame,
    /// The outcome of a registration.
    Registration,
    /// The reply to a request.
    Reply(Request),
}

/// What ends an exchange.
pub enum WantView {
    Frame,
    Registration,
    /// The reply to the request with this identifier.
    Reply(Seq<char>),
}

impl View for Want {
    type V = WantView;

    open spec fn view(&self) -> WantView {
        match self {
            Want::Frame => WantView::Frame,
            Want::Registration => WantView::Registration,
            Want::Reply(request) => WantView::Reply(request@.id),
        }
    }
}

/// An exchange that is under way. Times are in nanoseconds from one moment of the caller's choice.
pub struct Exchange {
    want: Want,
    until: u128,
}

/// What an exchange knows.
pub struct ExchangeView {
    pub want: WantView,
    /// When the exchange has taken too long.
    pub until: nat,
}

impl View for Exchange {
    type V = ExchangeView;

    closed spec fn view(&self) -> ExchangeView {
        ExchangeView { want: self.want@, until: self.until as nat }
    }
}

/// What to do after one read of the socket.
pub enum Heard {
    /// Flush the socket, which answers a ping, and read on.
    Flush,
    /// Read on.
    Again,
    /// The exchange is over: the payload of the reply, or the frame that ended it.
    Over(Result<Json, Error>),
}

/// What to do after one read of the socket.
pub enum HeardView {
    Flush,
    Again,
    Over(Result<JsonView, Error>),
}

impl View for Heard {
    type V = HeardView;

    open spec fn view(&self) -> HeardView {
        match self {
            Heard::Flush => HeardView::Flush,
            Heard::Again => HeardView::Again,
            Heard::Over(outcome) => HeardView::Over(payload_view(*outcome)),
        }
    }
}

/// What a frame means for an exchange: `None` where it has nothing to do with it.
pub open spec fn frame_outcome(want: WantView, frame: JsonView) -> Option<Result<JsonView, Error>> {
    match want {
        WantView::Frame => Some(Ok(frame)),
        WantView::Registration => match registration_outcome(frame) {
            Some(Ok(_)) => Some(Ok(frame)),
            Some(Err(error)) => Some(Err(error)),
            None => None,
        },
        WantView::Reply(id) => reply_outcome(id, frame),
    }
}

/// What a read of the socket means for an exchange.
pub open spec fn heard_outcome(want: WantView, reading: ReadingView) -> HeardView {
    match reading {
        ReadingView::Flush => HeardView::Flush,
        ReadingView::Again => HeardView::Again,
        ReadingView::Fail(error) => HeardView::Over(Err(error)),
        ReadingView::Frame(frame) => match frame_outcome(want, frame) {
            Some(outcome) => HeardView::Over(outcome),
            None => HeardView::Again,
        },
    }
}

impl Exchange {
    /// An exchange that starts now.
    pub fn new(want: Want, now: u64) -> (exchange: Exchange)
        ensures
            exchange@ == (ExchangeView {
                want: want@,
                until: (now + match want {
                    Want::Registration => REGISTER_TIMEOUT,
                    _ => IO_TIMEOUT,
                }) as nat,
            }),
    {
        let patience: u128 = match want {
            Want::Registration => REGISTER_TIMEOUT,
            _ => IO_TIMEOUT,
        };
        Exchange { want, until: now as u128 + patience }
    }

    /// How long the next read may take. Past its deadline the exchange is over.
    pub fn time_left(&self, now: u64) -> (left: Result<u128, Error>)
        ensures
            match left {
                Ok(left) => now + left == self@.until,
                Err(error) => now > self@.until && error == Error::Timeout,
            },
    {
        let now = now as u128;
        if now <= self.until {
            Ok(self.until - now)
        } else {
            Err(Error::Timeout)
        }
    }

    /// What a read of the socket means for the exchange.
    pub fn heard_reading(&self, reading: Reading) -> (heard: Heard)
        ensures
            heard@ == heard_outcome(self@.want, reading@),
    {
        let frame = match reading {
            Reading::Flush => {
                return Heard::Flush;
            },
            Reading::Again => {
                return Heard::Again;
            },
            Reading::Fail(error) => {
                return Heard::Over(Err(error));
            },
            Reading::Frame(frame) => frame,
        };
        match &self.want {
            Want::Frame => Heard::Over(Ok(frame)),
            Want::Registration => match registered(&frame) {
                Some(Ok(_)) => Heard::Over(Ok(frame)),
                Some(Err(error)) => Heard::Over(Err(error)),
                None => Heard::Again,
            },
            Want::Reply(request) => match request.answer(&frame) {
                Some(outcome) => Heard::Over(outcome),
                None => Heard::Again,
            },
        }
    }

    /// What one read of the socket means for the exchange.
    pub fn heard(&self, event: &SocketEvent) -> (heard: Heard)
        ensures
            heard@ == heard_outcome(self@.want, event_reading(*event)),
    {
        self.heard_reading(read(event))
    }
}

} // verus!
