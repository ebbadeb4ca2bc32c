use midi_bridge::bringup::ack_frame;
use midi_bridge::bringup::launchpad_init_rules;
use midi_bridge::bringup::scrolling_text_frame;
use midi_bridge::bringup::Bringup;
use midi_bridge::bringup::BringupPhase;
use midi_bridge::bringup::DeviceClass;
use midi_bridge::cycle::process_cycle;
use midi_bridge::dispatch::KeyEvent;
use midi_bridge::keymap::default_keymap;
use midi_bridge::keymap::BaseLedStates;
use midi_bridge::midi::RawMidiEvent;

#[test]
fn machine_frames_come_before_translated_frames() {
    let km = default_keymap();
    let base = BaseLedStates::from_keymap(&km, 71);
    let text = b"hi".to_vec();
    let rules = launchpad_init_rules(0x30, &text);
    let scroll = scrolling_text_frame(0x30, &text);
    let mut machine = Bringup::new(DeviceClass::Launchpad, rules, base);

    // First cycle: the connection is seen; inbound events still flow
    // through the translator.
    let inbound = vec![RawMidiEvent { time: 4, bytes: vec![0x90, 11, 100] }];
    let (frames, keys) = process_cycle(&mut machine, true, &inbound);
    assert_eq!(machine.phase, BringupPhase::PortsConnected);
    assert_eq!(frames.len(), 1);
    assert_eq!(frames[0].time, 4);
    assert_eq!(frames[0].bytes, vec![0x92, 11, 8]);
    assert_eq!(keys, vec![KeyEvent::Down(11)]);

    // Second cycle: the scrolling-text frame is written before the
    // translated frame of the same cycle.
    let inbound = vec![RawMidiEvent { time: 2, bytes: vec![0x80, 99, 0] }];
    let (frames, keys) = process_cycle(&mut machine, true, &inbound);
    assert_eq!(machine.phase, BringupPhase::RulesSent);
    assert_eq!(frames.len(), 2);
    assert_eq!(frames[0].time, 0);
    assert_eq!(frames[0].bytes, scroll);
    assert_eq!(frames[1].time, 2);
    assert_eq!(frames[1].bytes, vec![0x80, 99, 0]);
    assert_eq!(keys, vec![KeyEvent::Up(99)]);
}

#[test]
fn acknowledgement_cycle_paints_baseline_and_translates() {
    let km = default_keymap();
    let n_mapped = km.entries.len();
    let base = BaseLedStates::from_keymap(&km, 71);
    let rules = launchpad_init_rules(0x30, &b"hi".to_vec());
    let mut machine = Bringup::new(DeviceClass::Launchpad, rules, base);

    process_cycle(&mut machine, true, &Vec::new());
    process_cycle(&mut machine, true, &Vec::new());
    process_cycle(&mut machine, true, &Vec::new());
    assert_eq!(machine.phase, BringupPhase::AwaitingAck);

    // The acknowledgement frame itself still flows through the translator
    // and is forwarded unchanged, after the baseline frames.
    let inbound = vec![RawMidiEvent { time: 1, bytes: ack_frame() }];
    let (frames, keys) = process_cycle(&mut machine, true, &inbound);
    assert_eq!(machine.phase, BringupPhase::BaseStateApplied);
    assert_eq!(frames.len(), n_mapped + 1);
    for frame in frames.iter().take(n_mapped) {
        assert_eq!(frame.time, 0);
        assert_eq!(frame.bytes[0], 0x90);
    }
    assert_eq!(frames[n_mapped].time, 1);
    assert_eq!(frames[n_mapped].bytes, ack_frame());
    assert!(keys.is_empty());

    // One more cycle settles the machine; from here on only the
    // translator's frames appear.
    let (frames, _) = process_cycle(&mut machine, true, &Vec::new());
    assert_eq!(machine.phase, BringupPhase::Settled);
    assert!(frames.is_empty());
}
