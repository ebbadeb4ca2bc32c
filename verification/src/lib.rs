//! Protocol and state-machine layer for a MIDI controller bridge.
//!
//! The crate builds the System Exclusive (SysEx) frames that configure a
//! device, sequences the one-time bring-up of that device once its port is
//! patched, translates incoming MIDI events into outgoing frames and
//! key-press events, and resolves those key events against a note-to-key
//! mapping for an OS injection backend.

pub mod bringup;
pub mod cycle;
pub mod dispatch;
pub mod keymap;
pub mod mfx;
pub mod midi;
pub mod sysex;
pub mod translator;
