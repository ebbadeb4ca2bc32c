//! The device bring-up state machine.
//!
//! Once per audio cycle the machine takes the current connection status and
//! the cycle's inbound frames, advances by at most one phase, and returns
//! the frames to write for that cycle. The phases only move forward:
//! waiting for a connection, emitting the device's ordered initialization
//! frames, waiting for the LED controller's acknowledgement, painting the
//! baseline LED state, and finally settling, after which only the event
//! translator runs.

use vstd::prelude::*;

use crate::keymap::BaseLedStates;
use crate::mfx::mfx_value;
use crate::mfx::MFXType;
use crate::midi::inbound_bytes;
use crate::midi::OutputFrame;
use crate::midi::RawMidiEvent;
use crate::sysex::frame_spec;
use crate::sysex::RolandSysEx;

verus! {

/// The phase of the bring-up sequence. Transitions are monotonic: a phase
/// once left is never entered again, and the settled phase is a sink.
#[derive(Copy, Clone, Debug, PartialEq, Eq, Structural)]
pub enum BringupPhase {
    /// Waiting for the output port to report a connection.
    Idle,
    /// A connection was seen; the next cycle emits the initialization frames.
    PortsConnected,
    /// The initialization frames have been written.
    RulesSent,
    /// Waiting for the LED controller's acknowledgement frame.
    AwaitingAck,
    /// The baseline LED frames have been written.
    BaseStateApplied,
    /// Bring-up is over; only the event translator runs from here on.
    Settled,
}

/// The family of target hardware: the synthesizer configured through the
/// checksummed SysEx dialect, or the LED grid controller.
#[derive(Copy, Clone, Debug, PartialEq, Eq, Structural)]
pub enum DeviceClass {
    Roland,
    Launchpad,
}

/// The position of a phase in the bring-up order.
pub open spec fn phase_index(p: BringupPhase) -> int {
    match p {
        BringupPhase::Idle => 0,
        BringupPhase::PortsConnected => 1,
        BringupPhase::RulesSent => 2,
        BringupPhase::AwaitingAck => 3,
        BringupPhase::BaseStateApplied => 4,
        BringupPhase::Settled => 5,
    }
}

/// The universal frame that turns the General MIDI system on.
pub open spec fn gm_system_on_seq() -> Seq<u8> {
    seq![0xf0u8, 0x7eu8, 0x7fu8, 0x09u8, 0x01u8, 0xf7u8]
}

/// Build the General-MIDI-system-on frame.
pub fn gm_system_on() -> (r: Vec<u8>)
    ensures
        r@ == gm_system_on_seq(),
{
    let mut r: Vec<u8> = Vec::new();
    r.push(0xf0);
    r.push(0x7e);
    r.push(0x7f);
    r.push(0x09);
    r.push(0x01);
    r.push(0xf7);
    proof {
        assert(r@ =~= gm_system_on_seq());
    }
    r
}

/// The synthesizer's ordered initialization frames: General MIDI system on,
/// the multi-effect unit enabled for the first two parts, and the effect
/// type set. Order matters: an effect must be enabled before its type is
/// selected.
pub open spec fn roland_rules_spec(device_id: u8) -> Seq<Seq<u8>> {
    seq![
        gm_system_on_seq(),
        frame_spec(device_id, seq![0x40u8, 0x41u8, 0x22u8], seq![1u8]),
        frame_spec(device_id, seq![0x40u8, 0x42u8, 0x22u8], seq![1u8]),
        frame_spec(device_id, seq![0x40u8, 0x03u8, 0x00u8], mfx_value(MFXType::LoFi2)),
    ]
}

/// Build the synthesizer's initialization frames, in emission order.
pub fn roland_init_rules(device_id: u8) -> (r: Vec<Vec<u8>>)
    ensures
        r.deep_view() == roland_rules_spec(device_id),
{
    let sysex = RolandSysEx::new(device_id);
    let mut r: Vec<Vec<u8>> = Vec::new();
    r.push(gm_system_on());
    r.push(sysex.enable_mfx(0x01, true));
    r.push(sysex.enable_mfx(0x02, true));
    r.push(sysex.set_mfx_type(MFXType::LoFi2));
    proof {
        assert(r.deep_view() =~~= roland_rules_spec(device_id));
    }
    r
}

/// The LED controller's scrolling-text frame: its own manufacturer header,
/// the text color, and the text bytes.
pub open spec fn scrolling_text_spec(color: u8, text: Seq<u8>) -> Seq<u8> {
    seq![0xf0u8, 0x00u8, 0x20u8, 0x29u8, 0x02u8, 0x18u8, 0x14u8, color, 0x00u8] + text + seq![
        0xf7u8,
    ]
}

/// Build the frame that scrolls the given text over the LED grid in the
/// given color.
pub fn scrolling_text_frame(color: u8, text: &Vec<u8>) -> (r: Vec<u8>)
    ensures
        r@ == scrolling_text_spec(color, text@),
{
    let mut r: Vec<u8> = Vec::new();
    r.push(0xf0);
    r.push(0x00);
    r.push(0x20);
    r.push(0x29);
    r.push(0x02);
    r.push(0x18);
    r.push(0x14);
    r.push(color);
    r.push(0x00);
    let mut i: usize = 0;
    while i < text.len()
        invariant
            i <= text@.len(),
            r@ == seq![0xf0u8, 0x00u8, 0x20u8, 0x29u8, 0x02u8, 0x18u8, 0x14u8, color, 0x00u8]
                + text@.take(i as int),
        decreases text@.len() - i,
    {
        r.push(text[i]);
        i = i + 1;
    }
    r.push(0xf7);
    proof {
        assert(text@.take(text@.len() as int) =~= text@);
        assert(r@ =~= scrolling_text_spec(color, text@));
    }
    r
}

/// The LED controller's initialization list: the single scrolling-text
/// frame.
pub fn launchpad_init_rules(color: u8, text: &Vec<u8>) -> (r: Vec<Vec<u8>>)
    ensures
        r.deep_view() == seq![scrolling_text_spec(color, text@)],
{
    let mut r: Vec<Vec<u8>> = Vec::new();
    r.push(scrolling_text_frame(color, text));
    proof {
        assert(r.deep_view() =~~= seq![scrolling_text_spec(color, text@)]);
    }
    r
}

/// The acknowledgement frame that the LED controller sends when the
/// scrolling text has finished; matched verbatim.
pub open spec fn ack_seq() -> Seq<u8> {
    seq![0xf0u8, 0x00u8, 0x20u8, 0x29u8, 0x02u8, 0x18u8, 0x15u8, 0xf7u8]
}

/// Build the acknowledgement frame.
pub fn ack_frame() -> (r: Vec<u8>)
    ensures
        r@ == ack_seq(),
{
    let mut r: Vec<u8> = Vec::new();
    r.push(0xf0);
    r.push(0x00);
    r.push(0x20);
    r.push(0x29);
    r.push(0x02);
    r.push(0x18);
    r.push(0x15);
    r.push(0xf7);
    proof {
        assert(r@ =~= ack_seq());
    }
    r
}

/// Whether a frame is the acknowledgement frame.
pub fn is_ack(bytes: &Vec<u8>) -> (r: bool)
    ensures
        r == (bytes@ == ack_seq()),
{
    let expected = ack_frame();
    if bytes.len() != expected.len() {
        return false;
    }
    let mut i: usize = 0;
    while i < bytes.len()
        invariant
            i <= bytes@.len(),
            bytes@.len() == expected@.len(),
            expected@ == ack_seq(),
            forall|k: int| 0 <= k < i ==> bytes@[k] == expected@[k],
        decreases bytes@.len() - i,
    {
        if bytes[i] != expected[i] {
            return false;
        }
        i = i + 1;
    }
    proof {
        assert(bytes@ =~= ack_seq());
    }
    true
}

/// Whether some inbound frame of the cycle is the acknowledgement frame.
pub open spec fn contains_ack(inbound: Seq<Seq<u8>>) -> bool {
    exists|i: int| 0 <= i < inbound.len() && inbound[i] == ack_seq()
}

/// Scan the cycle's inbound events for the acknowledgement frame.
fn scan_for_ack(inbound: &Vec<RawMidiEvent>) -> (r: bool)
    ensures
        r == contains_ack(inbound_bytes(inbound@)),
{
    let mut i: usize = 0;
    while i < inbound.len()
        invariant
            i <= inbound@.len(),
            forall|k: int| 0 <= k < i ==> inbound@[k].bytes@ != ack_seq(),
        decreases inbound@.len() - i,
    {
        if is_ack(&inbound[i].bytes) {
            proof {
                assert(inbound_bytes(inbound@)[i as int] == ack_seq());
            }
            return true;
        }
        i = i + 1;
    }
    proof {
        assert(forall|k: int|
            0 <= k < inbound@.len() ==> inbound_bytes(inbound@)[k] == inbound@[k].bytes@);
    }
    false
}

/// The baseline LED frames of the table, in table order.
pub open spec fn base_frames(base: Seq<(u8, Seq<u8>)>) -> Seq<Seq<u8>> {
    base.map_values(|e: (u8, Seq<u8>)| e.1)
}

/// One cycle of the bring-up machine, as a function of the phase, the
/// device's initialization frames, the baseline LED frames, the connection
/// status and the cycle's inbound frames: the next phase and the frames
/// written this cycle.
pub open spec fn step_spec(
    phase: BringupPhase,
    class: DeviceClass,
    rules: Seq<Seq<u8>>,
    base: Seq<Seq<u8>>,
    connected: bool,
    inbound: Seq<Seq<u8>>,
) -> (BringupPhase, Seq<Seq<u8>>) {
    match phase {
        BringupPhase::Idle => (
            if connected {
                BringupPhase::PortsConnected
            } else {
                BringupPhase::Idle
            },
            Seq::empty(),
        ),
        BringupPhase::PortsConnected => (BringupPhase::RulesSent, rules),
        BringupPhase::RulesSent => (
            match class {
                DeviceClass::Roland => BringupPhase::Settled,
                DeviceClass::Launchpad => BringupPhase::AwaitingAck,
            },
            Seq::empty(),
        ),
        BringupPhase::AwaitingAck => if contains_ack(inbound) {
            (BringupPhase::BaseStateApplied, base)
        } else {
            (BringupPhase::AwaitingAck, Seq::empty())
        },
        BringupPhase::BaseStateApplied => (BringupPhase::Settled, Seq::empty()),
        BringupPhase::Settled => (BringupPhase::Settled, Seq::empty()),
    }
}

/// Clone a list of frames into output frames at the start of the cycle.
fn frames_at_zero(rules: &Vec<Vec<u8>>) -> (out: Vec<OutputFrame>)
    ensures
        out@.len() == rules.deep_view().len(),
        forall|i: int|
            0 <= i < out@.len() ==> (#[trigger] out@[i]).time == 0 && out@[i].bytes@
                == rules.deep_view()[i],
{
    let mut out: Vec<OutputFrame> = Vec::new();
    let mut i: usize = 0;
    while i < rules.len()
        invariant
            i <= rules@.len(),
            rules.deep_view().len() == rules@.len(),
            out@.len() == i,
            forall|k: int|
                0 <= k < i ==> (#[trigger] out@[k]).time == 0 && out@[k].bytes@
                    == rules.deep_view()[k],
        decreases rules@.len() - i,
    {
        let bytes = rules[i].clone();
        proof {
            assert(bytes@ =~= rules@[i as int]@);
        }
        out.push(OutputFrame { time: 0, bytes });
        i = i + 1;
    }
    out
}

/// Clone the baseline LED frames into output frames at the start of the
/// cycle.
fn base_frames_at_zero(base: &BaseLedStates) -> (out: Vec<OutputFrame>)
    ensures
        out@.len() == base_frames(base@).len(),
        forall|i: int|
            0 <= i < out@.len() ==> (#[trigger] out@[i]).time == 0 && out@[i].bytes@
                == base_frames(base@)[i],
{
    let mut out: Vec<OutputFrame> = Vec::new();
    let mut i: usize = 0;
    while i < base.entries.len()
        invariant
            i <= base.entries@.len(),
            base@.len() == base.entries@.len(),
            out@.len() == i,
            forall|k: int|
                0 <= k < i ==> (#[trigger] out@[k]).time == 0 && out@[k].bytes@ == base_frames(
                    base@,
                )[k],
        decreases base.entries@.len() - i,
    {
        let bytes = base.entries[i].1.clone();
        proof {
            assert(bytes@ =~= base.entries@[i as int].1@);
            assert(base_frames(base@)[i as int] == base@[i as int].1);
        }
        out.push(OutputFrame { time: 0, bytes });
        i = i + 1;
    }
    out
}

/// The bring-up machine: the current phase, the device class, the device's
/// initialization frames and the baseline LED table, the latter two built
/// once and owned for the lifetime of the initialization pass.
pub struct Bringup {
    pub phase: BringupPhase,
    pub class: DeviceClass,
    pub rules: Vec<Vec<u8>>,
    pub base: BaseLedStates,
}

impl Bringup {
    /// A machine in the idle phase, waiting for a connection.
    pub fn new(class: DeviceClass, rules: Vec<Vec<u8>>, base: BaseLedStates) -> (r: Self)
        ensures
            r.phase == BringupPhase::Idle,
            r.class == class,
            r.rules == rules,
            r.base == base,
    {
        Bringup { phase: BringupPhase::Idle, class, rules, base }
    }

    /// Advance the machine by one cycle and return the frames to write this
    /// cycle, before any frames of the event translator. Only the phase
    /// changes; the transition and the emitted frames are exactly those of
    /// [`step_spec`].
    pub fn step(&mut self, connected: bool, inbound: &Vec<RawMidiEvent>) -> (out: Vec<OutputFrame>)
        ensures
            final(self).class == old(self).class,
            final(self).rules == old(self).rules,
            final(self).base == old(self).base,
            ({
                let (next, frames) = step_spec(
                    old(self).phase,
                    old(self).class,
                    old(self).rules.deep_view(),
                    base_frames(old(self).base@),
                    connected,
                    inbound_bytes(inbound@),
                );
                &&& final(self).phase == next
                &&& out@.len() == frames.len()
                &&& forall|i: int|
                    0 <= i < out@.len() ==> (#[trigger] out@[i]).time == 0 && out@[i].bytes@
                        == frames[i]
            }),
    {
        match self.phase {
            BringupPhase::Idle => {
                if connected {
                    self.phase = BringupPhase::PortsConnected;
                }
                Vec::new()
            },
            BringupPhase::PortsConnected => {
                let out = frames_at_zero(&self.rules);
                self.phase = BringupPhase::RulesSent;
                out
            },
            BringupPhase::RulesSent => {
                self.phase = match self.class {
                    DeviceClass::Roland => BringupPhase::Settled,
                    DeviceClass::Launchpad => BringupPhase::AwaitingAck,
                };
                Vec::new()
            },
            BringupPhase::AwaitingAck => {
                if scan_for_ack(inbound) {
                    let out = base_frames_at_zero(&self.base);
                    self.phase = BringupPhase::BaseStateApplied;
                    out
                } else {
                    Vec::new()
                }
            },
            BringupPhase::BaseStateApplied => {
                self.phase = BringupPhase::Settled;
                Vec::new()
            },
            BringupPhase::Settled => Vec::new(),
        }
    }
}

/// Law: starting idle, a cycle without a connection stays idle and emits
/// nothing; a cycle with a connection present moves to the ports-connected
/// phase, still emitting nothing; and the following cycle emits exactly the
/// initialization frames, in list order.
pub proof fn lemma_bringup_startup(
    class: DeviceClass,
    rules: Seq<Seq<u8>>,
    base: Seq<Seq<u8>>,
    connected: bool,
    inbound: Seq<Seq<u8>>,
)
    ensures
        step_spec(BringupPhase::Idle, class, rules, base, false, inbound) == (
            BringupPhase::Idle,
            Seq::<Seq<u8>>::empty(),
        ),
        step_spec(BringupPhase::Idle, class, rules, base, true, inbound) == (
            BringupPhase::PortsConnected,
            Seq::<Seq<u8>>::empty(),
        ),
        step_spec(BringupPhase::PortsConnected, class, rules, base, connected, inbound) == (
            BringupPhase::RulesSent,
            rules,
        ),
{
}

/// Law: the phase only advances, and the settled phase is a sink that
/// emits nothing.
pub proof fn lemma_phase_monotonic(
    phase: BringupPhase,
    class: DeviceClass,
    rules: Seq<Seq<u8>>,
    base: Seq<Seq<u8>>,
    connected: bool,
    inbound: Seq<Seq<u8>>,
)
    ensures
        phase_index(step_spec(phase, class, rules, base, connected, inbound).0) >= phase_index(
            phase,
        ),
        phase == BringupPhase::Settled ==> step_spec(phase, class, rules, base, connected, inbound)
            == (BringupPhase::Settled, Seq::<Seq<u8>>::empty()),
{
}

/// Law: once the machine has reached or passed the rules-sent phase, no
/// cycle emits an initialization frame again — provided the initialization
/// frames are SysEx frames and the baseline table is well formed, whose
/// frames are note-ons and so differ from every SysEx frame.
pub proof fn lemma_no_reemission(
    phase: BringupPhase,
    class: DeviceClass,
    rules: Seq<Seq<u8>>,
    base: BaseLedStates,
    connected: bool,
    inbound: Seq<Seq<u8>>,
)
    requires
        phase_index(phase) >= phase_index(BringupPhase::RulesSent),
        forall|j: int| 0 <= j < rules.len() ==> (#[trigger] rules[j]).len() > 0 && rules[j][0]
            == 0xf0,
        base.wf(),
    ensures
        ({
            let frames = step_spec(phase, class, rules, base_frames(base@), connected, inbound).1;
            forall|i: int, j: int|
                0 <= i < frames.len() && 0 <= j < rules.len() ==> (#[trigger] frames[i]) != (
                #[trigger] rules[j])
        }),
{
    let frames = step_spec(phase, class, rules, base_frames(base@), connected, inbound).1;
    if phase == BringupPhase::AwaitingAck && contains_ack(inbound) {
        assert forall|i: int, j: int|
            0 <= i < frames.len() && 0 <= j < rules.len() implies (#[trigger] frames[i]) != (
        #[trigger] rules[j]) by {
            assert(frames[i] == base@[i].1);
            assert(base@[i].1[0] == 0x90);
        }
    }
}

} // verus!
