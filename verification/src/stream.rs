//! The stream endpoint: from what a receiver yields to what is written to
//! the client.
//!
//! Each event goes out as one frame of a text-event stream: a line that
//! names the variant, a line with the event's JSON, and a blank line.

use crate::event::AppEvent;
use std::sync::Arc;
use vstd::prelude::*;
use vstd::string::StringExecFns;

verus! {

/// The frame for an event called `name` whose JSON text is `data`.
pub open spec fn frame_text(name: Seq<char>, data: Seq<char>) -> Seq<char> {
    "event: "@ + name + "\n"@ + "data: "@ + data + "\n\n"@
}

/// What a receiver yields when it is asked for the next event.
#[derive(Debug)]
pub enum Received {
    /// The next event.
    Event(Arc<AppEvent>),
    /// The receiver fell behind, and this many of its oldest events were
    /// dropped.
    Lagged(u64),
    /// The channel is gone.
    Closed,
}

/// What the loop around a receiver does next.
#[derive(Debug, PartialEq, Eq)]
pub enum StreamStep {
    /// Write this frame to the client and go on.
    Send(String),
    /// Go on; this many events were lost to this client.
    Missed(u64),
    /// Go on; the event has no JSON text and was left out.
    Unwritable,
    /// End the stream.
    Stop,
}

/// The frame that carries `event`; `None` where the event has no JSON text.
pub fn frame(event: &AppEvent) -> (text: Option<String>)
    ensures
        match text {
            Some(t) => event@.to_text() matches Some(data) && t@ == frame_text(
                event@.name(),
                data,
            ),
            None => event@.to_text() is None,
        },
{
    match event.to_text() {
        Some(data) => {
            let mut text = String::from_str("event: ");
            text.append(event.name());
            text.append("\n");
            text.append("data: ");
            text.append(data.as_str());
            text.append("\n\n");
            Some(text)
        },
        None => None,
    }
}

/// One turn of the loop that serves a client: an event becomes a frame, a
/// gap is passed over, and the end of the channel ends the stream.
pub fn next_step(received: &Received) -> (next: StreamStep)
    ensures
        match *received {
            Received::Event(event) => match event@.to_text() {
                Some(data) => next matches StreamStep::Send(t) && t@ == frame_text(
                    event@.name(),
                    data,
                ),
                None => next is Unwritable,
            },
            Received::Lagged(missed) => next == StreamStep::Missed(missed),
            Received::Closed => next is Stop,
        },
{
    match received {
        Received::Event(event) => match frame(event) {
            Some(text) => StreamStep::Send(text),
            None => StreamStep::Unwritable,
        },
        Received::Lagged(missed) => StreamStep::Missed(*missed),
        Received::Closed => StreamStep::Stop,
    }
}

} // verus!
