//! Note-to-key mapping and the derived baseline LED table.
//!
//! Both tables are built once at startup and only read afterwards: the
//! event translator and the key dispatch side share them by immutable
//! reference.

use vstd::prelude::*;

verus! {

/// An abstract key identifier handed to the OS injection backend.
#[derive(Copy, Clone, Debug, PartialEq, Eq, Structural)]
pub enum KeyIdent {
    /// A printable layout key, named by its character.
    Char(char),
    Backspace,
    Shift,
}

/// First-match lookup of a note number in a sequence of mapping entries.
pub open spec fn spec_lookup(entries: Seq<(u8, KeyIdent)>, note: u8) -> Option<KeyIdent>
    decreases entries.len(),
{
    if entries.len() == 0 {
        None
    } else if entries[0].0 == note {
        Some(entries[0].1)
    } else {
        spec_lookup(entries.drop_first(), note)
    }
}

/// Mapping from incoming note numbers to abstract key identifiers.
pub struct Keymap {
    pub entries: Vec<(u8, KeyIdent)>,
}

impl View for Keymap {
    type V = Seq<(u8, KeyIdent)>;

    open spec fn view(&self) -> Seq<(u8, KeyIdent)> {
        self.entries@
    }
}

impl Keymap {
    /// Every note number appears at most once.
    pub open spec fn wf(&self) -> bool {
        forall|i: int, j: int|
            0 <= i < j < self@.len() ==> (#[trigger] self@[i]).0 != (#[trigger] self@[j]).0
    }

    /// The key a note maps to, if any.
    pub open spec fn spec_key_for(&self, note: u8) -> Option<KeyIdent> {
        spec_lookup(self@, note)
    }

    /// Look a note number up; an unmapped note yields nothing.
    pub fn lookup(&self, note: u8) -> (r: Option<KeyIdent>)
        ensures
            r == self.spec_key_for(note),
    {
        proof {
            assert(self@.skip(0) =~= self@);
        }
        let mut i: usize = 0;
        while i < self.entries.len()
            invariant
                i <= self@.len(),
                spec_lookup(self@, note) == spec_lookup(self@.skip(i as int), note),
            decreases self@.len() - i,
        {
            let (n, key) = self.entries[i];
            proof {
                assert(self@.skip(i as int).drop_first() =~= self@.skip(i + 1));
            }
            if n == note {
                return Some(key);
            }
            i = i + 1;
        }
        proof {
            assert(self@.skip(self@.len() as int) =~= Seq::<(u8, KeyIdent)>::empty());
        }
        None
    }
}

/// The controller's mapping table: keypad digits, the pad lanes of the
/// left hand, and the transport keys.
pub open spec fn default_entries() -> Seq<(u8, KeyIdent)> {
    seq![
        (0x56u8, KeyIdent::Char('7')),
        (0x57u8, KeyIdent::Char('8')),
        (0x58u8, KeyIdent::Char('9')),
        (0x4cu8, KeyIdent::Char('4')),
        (0x4du8, KeyIdent::Char('5')),
        (0x4eu8, KeyIdent::Char('6')),
        (0x42u8, KeyIdent::Char('1')),
        (0x43u8, KeyIdent::Char('2')),
        (0x44u8, KeyIdent::Char('3')),
        (11u8, KeyIdent::Char('z')),
        (22u8, KeyIdent::Char('s')),
        (12u8, KeyIdent::Char('x')),
        (23u8, KeyIdent::Char('d')),
        (13u8, KeyIdent::Char('c')),
        (24u8, KeyIdent::Char('f')),
        (14u8, KeyIdent::Char('v')),
        (25u8, KeyIdent::Char('g')),
        (0x59u8, KeyIdent::Backspace),
        (31u8, KeyIdent::Char('q')),
        (32u8, KeyIdent::Char('t')),
        (33u8, KeyIdent::Char('r')),
        (34u8, KeyIdent::Char('w')),
        (35u8, KeyIdent::Char('e')),
        (21u8, KeyIdent::Shift),
    ]
}

/// Build the controller's mapping table.
pub fn default_keymap() -> (m: Keymap)
    ensures
        m@ == default_entries(),
        m.wf(),
{
    let mut entries: Vec<(u8, KeyIdent)> = Vec::new();
    entries.push((0x56, KeyIdent::Char('7')));
    entries.push((0x57, KeyIdent::Char('8')));
    entries.push((0x58, KeyIdent::Char('9')));
    entries.push((0x4c, KeyIdent::Char('4')));
    entries.push((0x4d, KeyIdent::Char('5')));
    entries.push((0x4e, KeyIdent::Char('6')));
    entries.push((0x42, KeyIdent::Char('1')));
    entries.push((0x43, KeyIdent::Char('2')));
    entries.push((0x44, KeyIdent::Char('3')));
    entries.push((11, KeyIdent::Char('z')));
    entries.push((22, KeyIdent::Char('s')));
    entries.push((12, KeyIdent::Char('x')));
    entries.push((23, KeyIdent::Char('d')));
    entries.push((13, KeyIdent::Char('c')));
    entries.push((24, KeyIdent::Char('f')));
    entries.push((14, KeyIdent::Char('v')));
    entries.push((25, KeyIdent::Char('g')));
    entries.push((0x59, KeyIdent::Backspace));
    entries.push((31, KeyIdent::Char('q')));
    entries.push((32, KeyIdent::Char('t')));
    entries.push((33, KeyIdent::Char('r')));
    entries.push((34, KeyIdent::Char('w')));
    entries.push((35, KeyIdent::Char('e')));
    entries.push((21, KeyIdent::Shift));
    let m = Keymap { entries };
    proof {
        assert(m@ =~= default_entries());
    }
    m
}

/// The frame that paints one key's baseline LED state: a note-on for the
/// key's note at the baseline velocity.
pub open spec fn base_frame_spec(note: u8, velocity: u8) -> Seq<u8> {
    seq![0x90u8, note, velocity]
}

/// First-match lookup of a note number in a sequence of frame entries.
pub open spec fn spec_frame_lookup(entries: Seq<(u8, Seq<u8>)>, note: u8) -> Option<Seq<u8>>
    decreases entries.len(),
{
    if entries.len() == 0 {
        None
    } else if entries[0].0 == note {
        Some(entries[0].1)
    } else {
        spec_frame_lookup(entries.drop_first(), note)
    }
}

/// Baseline LED frames, one per mapped note, derived from a keymap.
pub struct BaseLedStates {
    pub entries: Vec<(u8, Vec<u8>)>,
    pub velocity: u8,
}

impl View for BaseLedStates {
    type V = Seq<(u8, Seq<u8>)>;

    open spec fn view(&self) -> Seq<(u8, Seq<u8>)> {
        self.entries.deep_view()
    }
}

impl BaseLedStates {
    /// Every entry holds the baseline frame of its own note, and every note
    /// appears at most once.
    pub open spec fn wf(&self) -> bool {
        &&& forall|i: int|
            0 <= i < self@.len() ==> (#[trigger] self@[i]).1 == base_frame_spec(
                self@[i].0,
                self.velocity,
            )
        &&& forall|i: int, j: int|
            0 <= i < j < self@.len() ==> (#[trigger] self@[i]).0 != (#[trigger] self@[j]).0
    }

    /// The baseline frame registered for a note, if any.
    pub open spec fn spec_frame_for(&self, note: u8) -> Option<Seq<u8>> {
        spec_frame_lookup(self@, note)
    }

    /// Derive the baseline table from a keymap: one frame per mapped note,
    /// all at the given velocity, in the keymap's order.
    pub fn from_keymap(keymap: &Keymap, velocity: u8) -> (r: Self)
        ensures
            r.velocity == velocity,
            r@.len() == keymap@.len(),
            forall|i: int|
                0 <= i < keymap@.len() ==> (#[trigger] r@[i]) == (
                keymap@[i].0,
                base_frame_spec(keymap@[i].0, velocity),
            ),
            keymap.wf() ==> r.wf(),
    {
        let mut entries: Vec<(u8, Vec<u8>)> = Vec::new();
        let mut i: usize = 0;
        while i < keymap.entries.len()
            invariant
                i <= keymap@.len(),
                entries.deep_view().len() == i,
                forall|k: int|
                    0 <= k < i ==> (#[trigger] entries.deep_view()[k]) == (
                    keymap@[k].0,
                    base_frame_spec(keymap@[k].0, velocity),
                ),
            decreases keymap@.len() - i,
        {
            let (note, _key) = keymap.entries[i];
            let mut frame: Vec<u8> = Vec::new();
            frame.push(0x90);
            frame.push(note);
            frame.push(velocity);
            proof {
                assert(frame@ =~= base_frame_spec(note, velocity));
            }
            let ghost prev = entries.deep_view();
            let ghost new_entry = (note, frame@);
            entries.push((note, frame));
            proof {
                assert(entries.deep_view() =~~= prev.push(new_entry));
            }
            i = i + 1;
        }
        let r = BaseLedStates { entries, velocity };
        r
    }

    /// Look a note's baseline frame up; an unregistered note yields nothing.
    pub fn lookup(&self, note: u8) -> (r: Option<Vec<u8>>)
        ensures
            match r {
                Some(f) => self.spec_frame_for(note) == Some(f@),
                None => self.spec_frame_for(note) is None,
            },
    {
        proof {
            assert(self@.skip(0) =~= self@);
        }
        let mut i: usize = 0;
        while i < self.entries.len()
            invariant
                i <= self@.len(),
                spec_frame_lookup(self@, note) == spec_frame_lookup(self@.skip(i as int), note),
            decreases self@.len() - i,
        {
            proof {
                assert(self@.skip(i as int).drop_first() =~= self@.skip(i + 1));
            }
            if self.entries[i].0 == note {
                let frame = self.entries[i].1.clone();
                proof {
                    assert(frame@ =~= self@[i as int].1);
                }
                return Some(frame);
            }
            i = i + 1;
        }
        proof {
            assert(self@.skip(self@.len() as int) =~= Seq::<(u8, Seq<u8>)>::empty());
        }
        None
    }
}

} // verus!
