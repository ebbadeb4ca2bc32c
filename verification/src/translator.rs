//! Per-cycle translation of inbound MIDI events.
//!
//! Each inbound event is classified by its status nibble. A note-on is
//! rewritten (channel flag bit set, velocity forced to a fixed intensity),
//! forwarded, and enqueued as a key-down. A note-off is enqueued as a
//! key-up; if a baseline LED frame is registered for its note, that frame
//! is written in place of the original bytes. Anything else — including a
//! frame too short to classify — is forwarded unchanged.

use vstd::prelude::*;

use crate::dispatch::KeyEvent;
use crate::keymap::spec_frame_lookup;
use crate::keymap::BaseLedStates;
use crate::midi::OutputFrame;
use crate::midi::RawMidiEvent;

verus! {

/// Classification of an inbound event.
#[derive(Copy, Clone, Debug, PartialEq, Eq, Structural)]
pub enum MidiStatus {
    NoteOn,
    NoteOff,
    Other,
}

/// Classify an event by the status nibble of its first byte. A frame too
/// short to carry a note number and velocity counts as `Other`.
pub open spec fn classify_spec(bytes: Seq<u8>) -> MidiStatus {
    if bytes.len() >= 3 && bytes[0] & 0xf0 == 0x90 {
        MidiStatus::NoteOn
    } else if bytes.len() >= 3 && bytes[0] & 0xf0 == 0x80 {
        MidiStatus::NoteOff
    } else {
        MidiStatus::Other
    }
}

/// Classify one inbound event.
pub fn classify(bytes: &Vec<u8>) -> (s: MidiStatus)
    ensures
        s == classify_spec(bytes@),
{
    if bytes.len() >= 3 {
        let status = bytes[0] & 0xf0;
        if status == 0x90 {
            MidiStatus::NoteOn
        } else if status == 0x80 {
            MidiStatus::NoteOff
        } else {
            MidiStatus::Other
        }
    } else {
        MidiStatus::Other
    }
}

/// The bytes forwarded for a note-on: the channel flag bit is set on the
/// status byte and the velocity is forced to the fixed intensity.
pub open spec fn rewrite_note_on_spec(bytes: Seq<u8>) -> Seq<u8> {
    bytes.update(0, 0x92u8).update(2, 8u8)
}

/// The bytes written to the output for one inbound event.
pub open spec fn out_bytes_spec(bytes: Seq<u8>, base: Seq<(u8, Seq<u8>)>) -> Seq<u8> {
    match classify_spec(bytes) {
        MidiStatus::NoteOn => rewrite_note_on_spec(bytes),
        MidiStatus::NoteOff => match spec_frame_lookup(base, bytes[1]) {
            Some(f) => f,
            None => bytes,
        },
        MidiStatus::Other => bytes,
    }
}

/// The key event enqueued for one inbound event, if any: exactly one
/// key-down per note-on, exactly one key-up per note-off, none otherwise.
pub open spec fn key_event_spec(bytes: Seq<u8>) -> Option<KeyEvent> {
    match classify_spec(bytes) {
        MidiStatus::NoteOn => Some(KeyEvent::Down(bytes[1])),
        MidiStatus::NoteOff => Some(KeyEvent::Up(bytes[1])),
        MidiStatus::Other => None,
    }
}

/// Translate one inbound event into the frame written for it and the key
/// event enqueued for it. Exactly one frame is written per event, at the
/// event's own time offset.
pub fn translate_event(event: &RawMidiEvent, base: &BaseLedStates) -> (r: (
    OutputFrame,
    Option<KeyEvent>,
))
    ensures
        r.0.time == event.time,
        r.0.bytes@ == out_bytes_spec(event.bytes@, base@),
        r.1 == key_event_spec(event.bytes@),
{
    match classify(&event.bytes) {
        MidiStatus::NoteOn => {
            let mut bytes = event.bytes.clone();
            proof {
                assert(bytes@ =~= event.bytes@);
            }
            bytes.set(0, 0x92);
            bytes.set(2, 8);
            let note = event.bytes[1];
            (OutputFrame { time: event.time, bytes }, Some(KeyEvent::Down(note)))
        },
        MidiStatus::NoteOff => {
            let note = event.bytes[1];
            match base.lookup(note) {
                Some(frame) => (
                    OutputFrame { time: event.time, bytes: frame },
                    Some(KeyEvent::Up(note)),
                ),
                None => {
                    let bytes = event.bytes.clone();
                    proof {
                        assert(bytes@ =~= event.bytes@);
                    }
                    (OutputFrame { time: event.time, bytes }, Some(KeyEvent::Up(note)))
                },
            }
        },
        MidiStatus::Other => {
            let bytes = event.bytes.clone();
            proof {
                assert(bytes@ =~= event.bytes@);
            }
            (OutputFrame { time: event.time, bytes }, None)
        },
    }
}

/// The key events enqueued for a batch of inbound events, in arrival order.
pub open spec fn key_events_spec(events: Seq<RawMidiEvent>) -> Seq<KeyEvent>
    decreases events.len(),
{
    if events.len() == 0 {
        Seq::empty()
    } else {
        let rest = key_events_spec(events.drop_last());
        match key_event_spec(events.last().bytes@) {
            Some(k) => rest.push(k),
            None => rest,
        }
    }
}

/// Translate one cycle's batch of inbound events, in arrival order: one
/// output frame per event, and the enqueued key events.
pub fn translate_cycle(events: &Vec<RawMidiEvent>, base: &BaseLedStates) -> (r: (
    Vec<OutputFrame>,
    Vec<KeyEvent>,
))
    ensures
        r.0@.len() == events@.len(),
        forall|i: int|
            0 <= i < events@.len() ==> (#[trigger] r.0@[i]).time == events@[i].time
                && r.0@[i].bytes@ == out_bytes_spec(events@[i].bytes@, base@),
        r.1@ == key_events_spec(events@),
{
    let mut frames: Vec<OutputFrame> = Vec::new();
    let mut keys: Vec<KeyEvent> = Vec::new();
    proof {
        assert(events@.take(0) =~= Seq::<RawMidiEvent>::empty());
    }
    let mut i: usize = 0;
    while i < events.len()
        invariant
            i <= events@.len(),
            frames@.len() == i,
            forall|k: int|
                0 <= k < i ==> (#[trigger] frames@[k]).time == events@[k].time
                    && frames@[k].bytes@ == out_bytes_spec(events@[k].bytes@, base@),
            keys@ == key_events_spec(events@.take(i as int)),
        decreases events@.len() - i,
    {
        proof {
            assert(events@.take(i + 1).drop_last() =~= events@.take(i as int));
        }
        let (frame, key) = translate_event(&events[i], base);
        frames.push(frame);
        match key {
            Some(k) => keys.push(k),
            None => (),
        }
        i = i + 1;
    }
    proof {
        assert(events@.take(events@.len() as int) =~= events@);
    }
    (frames, keys)
}

} // verus!
