//! Turns physical key presses into MIDI note events: a fixed
//! scancode-to-note table, a tracker that suppresses hardware auto-repeat,
//! a FIFO event channel between the input side and the audio side, and the
//! construction of the three-byte MIDI messages that an audio callback
//! writes to its output port.

pub mod channel;
pub mod midi;
pub mod note;
pub mod tracker;
