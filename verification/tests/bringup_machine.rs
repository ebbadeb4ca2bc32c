use midi_bridge::bringup::ack_frame;
use midi_bridge::bringup::gm_system_on;
use midi_bridge::bringup::is_ack;
use midi_bridge::bringup::launchpad_init_rules;
use midi_bridge::bringup::roland_init_rules;
use midi_bridge::bringup::scrolling_text_frame;
use midi_bridge::bringup::Bringup;
use midi_bridge::bringup::BringupPhase;
use midi_bridge::bringup::DeviceClass;
use midi_bridge::keymap::default_keymap;
use midi_bridge::keymap::BaseLedStates;
use midi_bridge::midi::RawMidiEvent;

fn no_events() -> Vec<RawMidiEvent> {
    Vec::new()
}

#[test]
fn frame_builders() {
    assert_eq!(gm_system_on(), vec![0xf0, 0x7e, 0x7f, 0x09, 0x01, 0xf7]);
    assert_eq!(ack_frame(), vec![0xf0, 0x00, 0x20, 0x29, 0x02, 0x18, 0x15, 0xf7]);
    assert_eq!(
        scrolling_text_frame(0x64, &b"fizz".to_vec()),
        vec![0xf0, 0x00, 0x20, 0x29, 0x02, 0x18, 0x14, 0x64, 0x00, b'f', b'i', b'z', b'z', 0xf7]
    );
    assert!(is_ack(&vec![0xf0, 0x00, 0x20, 0x29, 0x02, 0x18, 0x15, 0xf7]));
    assert!(!is_ack(&vec![0xf0, 0x00, 0x20, 0x29, 0x02, 0x18, 0x14, 0xf7]));
    assert!(!is_ack(&vec![0xf0, 0x00, 0x20, 0x29, 0x02, 0x18, 0x15]));
    assert!(!is_ack(&Vec::new()));
}

#[test]
fn roland_rules_content_and_order() {
    let rules = roland_init_rules(0x10);
    assert_eq!(rules.len(), 4);
    assert_eq!(rules[0], vec![0xf0, 0x7e, 0x7f, 0x09, 0x01, 0xf7]);
    assert_eq!(
        rules[1],
        vec![0xf0, 0x41, 0x10, 0x42, 0x12, 0x40, 0x41, 0x22, 0x01, 0x5c, 0xf7]
    );
    assert_eq!(
        rules[2],
        vec![0xf0, 0x41, 0x10, 0x42, 0x12, 0x40, 0x42, 0x22, 0x01, 0x5b, 0xf7]
    );
    assert_eq!(
        rules[3],
        vec![0xf0, 0x41, 0x10, 0x42, 0x12, 0x40, 0x03, 0x00, 0x01, 0x73, 0x49, 0xf7]
    );
}

#[test]
fn roland_bringup_sequence() {
    let km = default_keymap();
    let base = BaseLedStates::from_keymap(&km, 71);
    let rules = roland_init_rules(0x10);
    let expected = roland_init_rules(0x10);
    let mut machine = Bringup::new(DeviceClass::Roland, rules, base);
    assert_eq!(machine.phase, BringupPhase::Idle);

    // No connection: the machine stays idle and emits nothing.
    let out = machine.step(false, &no_events());
    assert_eq!(machine.phase, BringupPhase::Idle);
    assert!(out.is_empty());

    // A connection is seen: one transition, still nothing emitted.
    let out = machine.step(true, &no_events());
    assert_eq!(machine.phase, BringupPhase::PortsConnected);
    assert!(out.is_empty());

    // The next cycle emits every initialization frame, in list order.
    let out = machine.step(true, &no_events());
    assert_eq!(machine.phase, BringupPhase::RulesSent);
    assert_eq!(out.len(), expected.len());
    for (frame, rule) in out.iter().zip(expected.iter()) {
        assert_eq!(frame.time, 0);
        assert_eq!(&frame.bytes, rule);
    }

    // The synthesizer needs no acknowledgement: the machine settles and
    // never emits an initialization frame again.
    let out = machine.step(true, &no_events());
    assert_eq!(machine.phase, BringupPhase::Settled);
    assert!(out.is_empty());
    let out = machine.step(true, &no_events());
    assert_eq!(machine.phase, BringupPhase::Settled);
    assert!(out.is_empty());
}

#[test]
fn launchpad_bringup_sequence() {
    let km = default_keymap();
    let base = BaseLedStates::from_keymap(&km, 71);
    let n_mapped = km.entries.len();
    let rules = launchpad_init_rules(0x64, &b"fizz".to_vec());
    let scroll = scrolling_text_frame(0x64, &b"fizz".to_vec());
    let mut machine = Bringup::new(DeviceClass::Launchpad, rules, base);

    machine.step(true, &no_events());
    assert_eq!(machine.phase, BringupPhase::PortsConnected);

    let out = machine.step(true, &no_events());
    assert_eq!(machine.phase, BringupPhase::RulesSent);
    assert_eq!(out.len(), 1);
    assert_eq!(out[0].bytes, scroll);

    let out = machine.step(true, &no_events());
    assert_eq!(machine.phase, BringupPhase::AwaitingAck);
    assert!(out.is_empty());

    // Frames other than the acknowledgement defer the transition.
    let noise = vec![
        RawMidiEvent { time: 0, bytes: vec![0x90, 11, 100] },
        RawMidiEvent { time: 1, bytes: vec![0xf0, 0x00, 0xf7] },
    ];
    let out = machine.step(true, &noise);
    assert_eq!(machine.phase, BringupPhase::AwaitingAck);
    assert!(out.is_empty());

    // The acknowledgement arrives: one baseline frame per mapped note.
    let inbound = vec![
        RawMidiEvent { time: 0, bytes: vec![0x90, 11, 100] },
        RawMidiEvent { time: 3, bytes: ack_frame() },
    ];
    let out = machine.step(true, &inbound);
    assert_eq!(machine.phase, BringupPhase::BaseStateApplied);
    assert_eq!(out.len(), n_mapped);
    assert_eq!(out[0].bytes, vec![0x90, 0x56, 71]);
    for frame in &out {
        assert_eq!(frame.time, 0);
        assert_eq!(frame.bytes.len(), 3);
        assert_eq!(frame.bytes[0], 0x90);
        assert_eq!(frame.bytes[2], 71);
    }

    let out = machine.step(true, &no_events());
    assert_eq!(machine.phase, BringupPhase::Settled);
    assert!(out.is_empty());
}
