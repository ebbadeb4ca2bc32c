//! The per-cycle entry point: one invocation per audio cycle.
//!
//! The embedding program reads the cycle's inbound events and the output
//! port's connection status, calls [`process_cycle`], writes the returned
//! frames to the output port in order, and enqueues the returned key
//! events for the dispatch worker. The bring-up machine's frames for the
//! cycle come before the translator's per-event frames.

use vstd::prelude::*;

use crate::bringup::base_frames;
use crate::bringup::step_spec;
use crate::bringup::Bringup;
use crate::dispatch::KeyEvent;
use crate::midi::inbound_bytes;
use crate::midi::OutputFrame;
use crate::midi::RawMidiEvent;
use crate::translator::key_events_spec;
use crate::translator::out_bytes_spec;
use crate::translator::translate_cycle;

verus! {

/// Run one audio cycle: advance the bring-up machine, then translate every
/// inbound event in arrival order. Returns the frames to write, machine
/// frames first, and the key events to enqueue.
pub fn process_cycle(bringup: &mut Bringup, connected: bool, inbound: &Vec<RawMidiEvent>) -> (r: (
    Vec<OutputFrame>,
    Vec<KeyEvent>,
))
    ensures
        final(bringup).class == old(bringup).class,
        final(bringup).rules == old(bringup).rules,
        final(bringup).base == old(bringup).base,
        ({
            let (next, machine_frames) = step_spec(
                old(bringup).phase,
                old(bringup).class,
                old(bringup).rules.deep_view(),
                base_frames(old(bringup).base@),
                connected,
                inbound_bytes(inbound@),
            );
            &&& final(bringup).phase == next
            &&& r.0@.len() == machine_frames.len() + inbound@.len()
            &&& forall|i: int|
                0 <= i < machine_frames.len() ==> (#[trigger] r.0@[i]).time == 0 && r.0@[i].bytes@
                    == machine_frames[i]
            &&& forall|i: int|
                0 <= i < inbound@.len() ==> (#[trigger] r.0@[machine_frames.len() + i]).time
                    == inbound@[i].time && r.0@[machine_frames.len() + i].bytes@ == out_bytes_spec(
                    inbound@[i].bytes@,
                    old(bringup).base@,
                )
        }),
        r.1@ == key_events_spec(inbound@),
{
    let mut frames = bringup.step(connected, inbound);
    let (mut translated, keys) = translate_cycle(inbound, &bringup.base);
    frames.append(&mut translated);
    (frames, keys)
}

} // verus!
