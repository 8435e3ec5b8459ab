//! Call-scoped event lists: the typed events the host hands into one
//! processing call or takes back out, and the closed vocabulary of event
//! kinds with its foreign integer codes.  Note payloads carry their
//! floating-point fields as raw bits; the payloads of the remaining
//! kinds are host-owned buffers the embedding reads in place.

use vstd::prelude::*;

use crate::unknown::ResultErr;

verus! {

pub const NOTE_ON_EVENT_CODE: u16 = 0;

pub const NOTE_OFF_EVENT_CODE: u16 = 1;

pub const DATA_EVENT_CODE: u16 = 2;

pub const POLY_PRESSURE_EVENT_CODE: u16 = 3;

pub const NOTE_EXPRESSION_VALUE_EVENT_CODE: u16 = 4;

pub const NOTE_EXPRESSION_TEXT_EVENT_CODE: u16 = 5;

pub const CHORD_EVENT_CODE: u16 = 6;

pub const SCALE_EVENT_CODE: u16 = 7;

pub const LEGACY_MIDI_CC_OUT_EVENT_CODE: u16 = 65535;

/// The kind of one event.
#[derive(Clone, Copy, Debug, PartialEq, Eq, Structural)]
pub enum EventType {
    NoteOnEvent,
    NoteOffEvent,
    DataEvent,
    PolyPressureEvent,
    NoteExpressionValueEvent,
    NoteExpressionTextEvent,
    ChordEvent,
    ScaleEvent,
    LegacyMIDICCOutEvent,
}

impl EventType {
    pub open spec fn is_valid_spec(code: u16) -> bool {
        code == NOTE_ON_EVENT_CODE || code == NOTE_OFF_EVENT_CODE || code == DATA_EVENT_CODE
            || code == POLY_PRESSURE_EVENT_CODE || code == NOTE_EXPRESSION_VALUE_EVENT_CODE
            || code == NOTE_EXPRESSION_TEXT_EVENT_CODE || code == CHORD_EVENT_CODE || code
            == SCALE_EVENT_CODE || code == LEGACY_MIDI_CC_OUT_EVENT_CODE
    }

    /// Whether a foreign integer names a defined event kind.
    pub fn is_valid(code: u16) -> (r: bool)
        ensures
            r == EventType::is_valid_spec(code),
    {
        code == NOTE_ON_EVENT_CODE || code == NOTE_OFF_EVENT_CODE || code == DATA_EVENT_CODE
            || code == POLY_PRESSURE_EVENT_CODE || code == NOTE_EXPRESSION_VALUE_EVENT_CODE
            || code == NOTE_EXPRESSION_TEXT_EVENT_CODE || code == CHORD_EVENT_CODE || code
            == SCALE_EVENT_CODE || code == LEGACY_MIDI_CC_OUT_EVENT_CODE
    }

    pub open spec fn from_code_spec(code: u16) -> EventType {
        if code == NOTE_ON_EVENT_CODE {
            EventType::NoteOnEvent
        } else if code == NOTE_OFF_EVENT_CODE {
            EventType::NoteOffEvent
        } else if code == DATA_EVENT_CODE {
            EventType::DataEvent
        } else if code == POLY_PRESSURE_EVENT_CODE {
            EventType::PolyPressureEvent
        } else if code == NOTE_EXPRESSION_VALUE_EVENT_CODE {
            EventType::NoteExpressionValueEvent
        } else if code == NOTE_EXPRESSION_TEXT_EVENT_CODE {
            EventType::NoteExpressionTextEvent
        } else if code == CHORD_EVENT_CODE {
            EventType::ChordEvent
        } else if code == SCALE_EVENT_CODE {
            EventType::ScaleEvent
        } else {
            EventType::LegacyMIDICCOutEvent
        }
    }

    /// The event kind a valid foreign integer names.
    pub fn from_code(code: u16) -> (r: EventType)
        requires
            EventType::is_valid_spec(code),
        ensures
            r == EventType::from_code_spec(code),
    {
        if code == NOTE_ON_EVENT_CODE {
            EventType::NoteOnEvent
        } else if code == NOTE_OFF_EVENT_CODE {
            EventType::NoteOffEvent
        } else if code == DATA_EVENT_CODE {
            EventType::DataEvent
        } else if code == POLY_PRESSURE_EVENT_CODE {
            EventType::PolyPressureEvent
        } else if code == NOTE_EXPRESSION_VALUE_EVENT_CODE {
            EventType::NoteExpressionValueEvent
        } else if code == NOTE_EXPRESSION_TEXT_EVENT_CODE {
            EventType::NoteExpressionTextEvent
        } else if code == CHORD_EVENT_CODE {
            EventType::ChordEvent
        } else if code == SCALE_EVENT_CODE {
            EventType::ScaleEvent
        } else {
            EventType::LegacyMIDICCOutEvent
        }
    }

    pub open spec fn code_spec(self) -> u16 {
        match self {
            EventType::NoteOnEvent => NOTE_ON_EVENT_CODE,
            EventType::NoteOffEvent => NOTE_OFF_EVENT_CODE,
            EventType::DataEvent => DATA_EVENT_CODE,
            EventType::PolyPressureEvent => POLY_PRESSURE_EVENT_CODE,
            EventType::NoteExpressionValueEvent => NOTE_EXPRESSION_VALUE_EVENT_CODE,
            EventType::NoteExpressionTextEvent => NOTE_EXPRESSION_TEXT_EVENT_CODE,
            EventType::ChordEvent => CHORD_EVENT_CODE,
            EventType::ScaleEvent => SCALE_EVENT_CODE,
            EventType::LegacyMIDICCOutEvent => LEGACY_MIDI_CC_OUT_EVENT_CODE,
        }
    }

    /// The foreign integer code of this event kind.
    pub fn to_code(self) -> (c: u16)
        ensures
            c == self.code_spec(),
    {
        match self {
            EventType::NoteOnEvent => NOTE_ON_EVENT_CODE,
            EventType::NoteOffEvent => NOTE_OFF_EVENT_CODE,
            EventType::DataEvent => DATA_EVENT_CODE,
            EventType::PolyPressureEvent => POLY_PRESSURE_EVENT_CODE,
            EventType::NoteExpressionValueEvent => NOTE_EXPRESSION_VALUE_EVENT_CODE,
            EventType::NoteExpressionTextEvent => NOTE_EXPRESSION_TEXT_EVENT_CODE,
            EventType::ChordEvent => CHORD_EVENT_CODE,
            EventType::ScaleEvent => SCALE_EVENT_CODE,
            EventType::LegacyMIDICCOutEvent => LEGACY_MIDI_CC_OUT_EVENT_CODE,
        }
    }
}

/// Law: every event kind converts to its foreign code and back to
/// itself, and every defined code converts to a kind and back to itself.
pub proof fn lemma_event_type_round_trip(t: EventType, code: u16)
    requires
        EventType::is_valid_spec(code),
    ensures
        EventType::from_code_spec(t.code_spec()) == t,
        EventType::from_code_spec(code).code_spec() == code,
{
}

/// The payload of one event: the note payloads in full, their
/// floating-point fields as raw bits; the remaining kinds' payloads are
/// host-owned buffers the embedding reads in place.
#[derive(Clone, Copy, Debug, PartialEq, Eq, Structural)]
pub enum EventKind {
    NoteOn {
        channel: i16,
        pitch: i16,
        tuning_bits: u32,
        velocity_bits: u32,
        length: i32,
        note_id: i32,
    },
    NoteOff { channel: i16, pitch: i16, tuning_bits: u32, velocity_bits: u32, note_id: i32 },
    Data,
    PolyPressure,
    NoteExpressionValue,
    NoteExpressionText,
    Chord,
    Scale,
    LegacyMidiCcOut,
}

/// One event of one processing call.
#[derive(Clone, Copy, Debug, PartialEq, Eq, Structural)]
pub struct Event {
    pub bus_index: i32,
    pub sample_offset: i32,
    pub ppq_position_bits: u64,
    pub flags: u16,
    pub kind: EventKind,
}

/// The events of one processing call, in the order the host queued them.
pub struct EventList {
    pub events: Vec<Event>,
}

impl EventList {
    /// No events yet.
    pub fn new() -> (r: Self)
        ensures
            r.events@.len() == 0,
    {
        EventList { events: Vec::new() }
    }

    /// How many events the host queued.
    pub fn get_event_count(&self) -> (r: usize)
        ensures
            r == self.events@.len(),
    {
        self.events.len()
    }

    /// One event by index; an index at or past the count is rejected as
    /// an invalid argument.
    pub fn get_event(&self, index: usize) -> (r: Result<Event, ResultErr>)
        ensures
            index < self.events@.len() ==> r == Ok::<Event, ResultErr>(
                self.events@[index as int],
            ),
            index >= self.events@.len() ==> r == Err::<Event, ResultErr>(
                ResultErr::InvalidArgument,
            ),
    {
        if index < self.events.len() {
            Ok(self.events[index])
        } else {
            Err(ResultErr::InvalidArgument)
        }
    }

    /// Appends an event.
    pub fn add_event(&mut self, event: Event)
        ensures
            final(self).events@ == old(self).events@.push(event),
    {
        self.events.push(event);
    }
}

} // verus!
