//! The event and frame values exchanged with the MIDI port graph.

use vstd::prelude::*;

verus! {

/// A raw MIDI event read from the input port for the current cycle: its
/// offset in frames from the cycle start, and its bytes. Events are scoped
/// to the cycle that produced them.
#[derive(Clone, Debug)]
pub struct RawMidiEvent {
    pub time: u32,
    pub bytes: Vec<u8>,
}

/// A frame to write to the output port within the current cycle.
#[derive(Clone, Debug)]
pub struct OutputFrame {
    pub time: u32,
    pub bytes: Vec<u8>,
}

/// The byte sequences of a batch of inbound events, in arrival order.
pub open spec fn inbound_bytes(events: Seq<RawMidiEvent>) -> Seq<Seq<u8>> {
    events.map_values(|e: RawMidiEvent| e.bytes@)
}

} // verus!
