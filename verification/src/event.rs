//! Notifications the engine publishes to its subscribers.

use vstd::prelude::*;
use crate::error::{PlayerError, error_message};
use crate::text::{decimal, push_decimal};

verus! {

/// A notification published by the playback engine.
#[derive(Debug, Clone, PartialEq)]
pub enum Event {
    /// Playing / paused / stopped changed.
    StateChanged,
    /// The track at the given playlist index became current.
    TrackChanged(usize),
    /// The playlist was replaced or reordered.
    PlaylistChanged,
    /// The engine hit an error.
    Error(PlayerError),
    /// The engine is shutting down.
    Shutdown,
}

/// The JSON object an event is handed to script hosts as.
pub open spec fn event_json(e: Event) -> Seq<char> {
    match e {
        Event::StateChanged => "{\"kind\":\"StateChanged\"}"@,
        Event::TrackChanged(i) => "{\"kind\":\"TrackChanged\",\"index\":"@ + decimal(i as nat) + "}"@,
        Event::PlaylistChanged => "{\"kind\":\"PlaylistChanged\"}"@,
        Event::Error(err) => "{\"kind\":\"Error\",\"message\":\""@ + error_message(err) + "\"}"@,
        Event::Shutdown => "{\"kind\":\"Shutdown\"}"@,
    }
}

/// Renders an event as a one-line JSON object with a `kind` field.
pub fn event_to_json(event: &Event) -> (s: String)
    ensures
        s@ == event_json(*event),
{
    match event {
        Event::StateChanged => String::from_str("{\"kind\":\"StateChanged\"}"),
        Event::TrackChanged(idx) => {
            let mut s = String::from_str("{\"kind\":\"TrackChanged\",\"index\":");
            push_decimal(&mut s, *idx);
            s.append("}");
            s
        },
        Event::PlaylistChanged => String::from_str("{\"kind\":\"PlaylistChanged\"}"),
        Event::Error(e) => {
            let mut s = String::from_str("{\"kind\":\"Error\",\"message\":\"");
            let m = e.message();
            s.append(m.as_str());
            s.append("\"}");
            s
        },
        Event::Shutdown => String::from_str("{\"kind\":\"Shutdown\"}"),
    }
}

/// The numeric form of an event handed to C hosts: a kind code and an
/// integer argument (the index for `TrackChanged`), as the C event table
/// numbers them: 0 state changed, 1 track changed, 2 playlist changed,
/// 4 error, 5 shutdown (3 is the loudness report, whose levels stay with
/// the host).
pub open spec fn event_code_spec(e: Event) -> Option<(i32, i64)> {
    match e {
        Event::StateChanged => Some((0, 0)),
        Event::TrackChanged(i) => Some((1, i as i64)),
        Event::PlaylistChanged => Some((2, 0)),
        Event::Error(_) => Some((4, 0)),
        Event::Shutdown => Some((5, 0)),
    }
}

/// The kind code and integer argument of an event for C hosts.
pub fn event_code(event: &Event) -> (r: Option<(i32, i64)>)
    ensures
        r == event_code_spec(*event),
{
    match event {
        Event::StateChanged => Some((0, 0)),
        Event::TrackChanged(i) => Some((1, *i as i64)),
        Event::PlaylistChanged => Some((2, 0)),
        Event::Error(_) => Some((4, 0)),
        Event::Shutdown => Some((5, 0)),
    }
}

/// Whether a host's event loop ends after this event: it ends on
/// `Shutdown`, the engine's last event.
pub fn ends_event_loop(event: &Event) -> (r: bool)
    ensures
        r == (*event is Shutdown),
{
    match event {
        Event::Shutdown => true,
        _ => false,
    }
}

} // verus!
