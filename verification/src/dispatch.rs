//! Resolution of key events into OS injection calls.
//!
//! The event translator enqueues [`KeyEvent`] values; a dedicated worker
//! drains them serially, off the real-time path, and performs one
//! press or release per resolved event. The resolution logic is here; the
//! queue and the OS call live with the embedding program.

use vstd::prelude::*;

use crate::keymap::spec_lookup;
use crate::keymap::KeyIdent;
use crate::keymap::Keymap;

verus! {

/// A key event produced by the event translator and consumed exactly once
/// by the dispatch worker.
#[derive(Copy, Clone, Debug, PartialEq, Eq, Structural)]
pub enum KeyEvent {
    /// A mapped note went down; resolved through the keymap.
    Down(u8),
    /// A mapped note was released; resolved through the keymap.
    Up(u8),
    /// Press this key directly, bypassing the keymap.
    RawDown(KeyIdent),
    /// Release this key directly, bypassing the keymap.
    RawUp(KeyIdent),
}

/// One call on the OS injection capability.
#[derive(Copy, Clone, Debug, PartialEq, Eq, Structural)]
pub enum KeyAction {
    Press(KeyIdent),
    Release(KeyIdent),
}

/// The injection call a key event resolves to. Note events go through the
/// mapping entries; an unmapped note resolves to nothing and is silently
/// ignored. Raw events bypass the lookup.
pub open spec fn spec_resolve(entries: Seq<(u8, KeyIdent)>, event: KeyEvent) -> Option<KeyAction> {
    match event {
        KeyEvent::Down(note) => match spec_lookup(entries, note) {
            Some(k) => Some(KeyAction::Press(k)),
            None => None,
        },
        KeyEvent::Up(note) => match spec_lookup(entries, note) {
            Some(k) => Some(KeyAction::Release(k)),
            None => None,
        },
        KeyEvent::RawDown(k) => Some(KeyAction::Press(k)),
        KeyEvent::RawUp(k) => Some(KeyAction::Release(k)),
    }
}

/// Resolve one key event against the keymap.
pub fn resolve(keymap: &Keymap, event: KeyEvent) -> (r: Option<KeyAction>)
    ensures
        r == spec_resolve(keymap@, event),
{
    match event {
        KeyEvent::Down(note) => match keymap.lookup(note) {
            Some(k) => Some(KeyAction::Press(k)),
            None => None,
        },
        KeyEvent::Up(note) => match keymap.lookup(note) {
            Some(k) => Some(KeyAction::Release(k)),
            None => None,
        },
        KeyEvent::RawDown(k) => Some(KeyAction::Press(k)),
        KeyEvent::RawUp(k) => Some(KeyAction::Release(k)),
    }
}

/// The injection calls that a queue of key events resolves to, in queue
/// order; events that resolve to nothing leave no call behind.
pub open spec fn spec_actions_of(entries: Seq<(u8, KeyIdent)>, events: Seq<KeyEvent>) -> Seq<
    KeyAction,
>
    decreases events.len(),
{
    if events.len() == 0 {
        Seq::empty()
    } else {
        let rest = spec_actions_of(entries, events.drop_last());
        match spec_resolve(entries, events.last()) {
            Some(a) => rest.push(a),
            None => rest,
        }
    }
}

/// Resolve a whole batch of key events, keeping their order.
pub fn resolve_all(keymap: &Keymap, events: &Vec<KeyEvent>) -> (r: Vec<KeyAction>)
    ensures
        r@ == spec_actions_of(keymap@, events@),
{
    let mut r: Vec<KeyAction> = Vec::new();
    let mut i: usize = 0;
    proof {
        assert(events@.take(0) =~= Seq::<KeyEvent>::empty());
    }
    while i < events.len()
        invariant
            i <= events@.len(),
            r@ == spec_actions_of(keymap@, events@.take(i as int)),
        decreases events@.len() - i,
    {
        proof {
            assert(events@.take(i + 1).drop_last() =~= events@.take(i as int));
        }
        match resolve(keymap, events[i]) {
            Some(a) => r.push(a),
            None => (),
        }
        i = i + 1;
    }
    proof {
        assert(events@.take(events@.len() as int) =~= events@);
    }
    r
}

/// Law: for a note that the keymap maps to a key, a down event followed by
/// an up event for that note resolves to exactly one press of that key
/// followed by exactly one release of it, in that order.
pub proof fn lemma_down_up_round_trip(keymap: Keymap, note: u8, k: KeyIdent)
    requires
        keymap.spec_key_for(note) == Some(k),
    ensures
        spec_actions_of(keymap@, seq![KeyEvent::Down(note), KeyEvent::Up(note)]) == seq![
            KeyAction::Press(k),
            KeyAction::Release(k),
        ],
{
    let events = seq![KeyEvent::Down(note), KeyEvent::Up(note)];
    assert(events.drop_last() =~= seq![KeyEvent::Down(note)]);
    assert(seq![KeyEvent::Down(note)].drop_last() =~= Seq::<KeyEvent>::empty());
    assert(spec_actions_of(keymap@, events) =~= seq![KeyAction::Press(k), KeyAction::Release(k)])
        by {
        reveal_with_fuel(spec_actions_of, 3);
    }
}

} // verus!
