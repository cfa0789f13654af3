//! The vocabulary of the pipeline: raw notifications as the hooks deliver
//! them, decoded event types, and the enriched events handed to the user
//! callback.

use vstd::prelude::*;

verus! {

/// The undecoded pair a hook callback receives: a reason word and a handle
/// to the kernel-owned detail record. Meaningful only to the external
/// decoder and name resolver; this crate forwards it verbatim.
#[derive(Clone, Copy, Debug, PartialEq, Eq, Structural)]
pub struct RawNotification {
    /// The notification parameter (the hook's reason word).
    pub param: usize,
    /// The pointer-sized handle to the event detail.
    pub data: isize,
}

/// A key identifier as the external decoder reports it (a virtual-key code).
/// The symbolic name, when one exists, is supplied separately by the
/// layout-aware name resolver.
#[derive(Clone, Copy, Debug, PartialEq, Eq, Structural)]
pub struct Key {
    /// The platform's code for the key.
    pub code: u32,
}

/// A pointer button.
#[derive(Clone, Copy, Debug, PartialEq, Eq, Structural)]
pub enum Button {
    Left,
    Right,
    Middle,
    /// Any further button, by its platform number.
    Unknown(u8),
}

/// A decoded input action. Produced only by the external decoder; the
/// pipeline inspects it solely to decide whether name resolution applies.
#[derive(Clone, Copy, Debug, PartialEq, Eq, Structural)]
pub enum EventType {
    KeyPress(Key),
    KeyRelease(Key),
    ButtonPress(Button),
    ButtonRelease(Button),
    MouseMove { x: i64, y: i64 },
    Wheel { delta_x: i64, delta_y: i64 },
}

/// The moment an event was enriched, in milliseconds since an epoch the
/// embedding application chooses. Captured at enrichment, not at the
/// original hardware event; the jitter is bounded by channel latency.
#[derive(Clone, Copy, Debug, PartialEq, Eq, Structural)]
pub struct Timestamp {
    pub millis: u64,
}

/// The public output of the listener: the decoded action, the enrichment
/// timestamp, and — for key presses only — the resolved key name.
#[derive(Clone, Debug, PartialEq)]
pub struct Event {
    pub event_type: EventType,
    pub time: Timestamp,
    pub name: Option<String>,
}

/// The mathematical value of an [`Event`], with the name as a sequence of
/// characters.
pub ghost struct EventModel {
    pub event_type: EventType,
    pub time: Timestamp,
    pub name: Option<Seq<char>>,
}

/// The mathematical value of an optional string.
pub open spec fn opt_name_view(name: Option<String>) -> Option<Seq<char>> {
    match name {
        Some(s) => Some(s@),
        None => None,
    }
}

impl View for Event {
    type V = EventModel;

    open spec fn view(&self) -> EventModel {
        EventModel {
            event_type: self.event_type,
            time: self.time,
            name: opt_name_view(self.name),
        }
    }
}

} // verus!
