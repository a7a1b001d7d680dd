//! MIDI message construction and the audio-side drain: each key event
//! becomes a three-byte note-on or note-off message, and one drain pass
//! empties the channel, oldest event first.

use vstd::prelude::*;
use crate::channel::EventChannel;
use crate::note::spec_midi_value;
use crate::tracker::KeyEvent;

verus! {

/// Status byte of a note-on message on MIDI channel 1.
pub const NOTE_ON_STATUS: u8 = 0x91;

/// Status byte of a note-off message on MIDI channel 1.
pub const NOTE_OFF_STATUS: u8 = 0x81;

/// The fixed velocity this deployment plays every note with. A different
/// deployment may pass another value (0x7f is also in use) to the
/// functions below; they take the velocity as an argument.
pub const DEFAULT_VELOCITY: u8 = 0x70;

/// One three-byte MIDI message: status, note number, velocity.
#[derive(Clone, Copy, Debug, PartialEq, Eq, Structural)]
pub struct MidiMessage {
    pub status: u8,
    pub note_number: u8,
    pub velocity: u8,
}

/// The message a key event turns into: note-on when pressed, note-off when
/// released, the note's MIDI number, and the given fixed velocity.
pub open spec fn spec_message_of(e: KeyEvent, velocity: u8) -> MidiMessage {
    MidiMessage {
        status: if e.pressed {
            0x91
        } else {
            0x81
        },
        note_number: spec_midi_value(e.note),
        velocity,
    }
}

impl MidiMessage {
    /// Builds the message for one key event.
    pub fn of_event(e: KeyEvent, velocity: u8) -> (m: MidiMessage)
        ensures
            m == spec_message_of(e, velocity),
    {
        MidiMessage {
            status: if e.pressed {
                NOTE_ON_STATUS
            } else {
                NOTE_OFF_STATUS
            },
            note_number: e.note.to_midi_value(),
            velocity,
        }
    }

    /// The three bytes in wire order.
    pub fn bytes(&self) -> (b: [u8; 3])
        ensures
            b@ == seq![self.status, self.note_number, self.velocity],
    {
        let b = [self.status, self.note_number, self.velocity];
        proof {
            assert(b@ =~= seq![self.status, self.note_number, self.velocity]);
        }
        b
    }
}

/// Empties the channel and returns one MIDI message per queued event, in
/// exactly the order the events were produced: the message at index `i`
/// belongs to the event that was queued `i`-th. FIFO order is preserved
/// from production to emission.
pub fn drain_to_midi(ch: &mut EventChannel, velocity: u8) -> (msgs: Vec<MidiMessage>)
    ensures
        final(ch)@.len() == 0,
        msgs@.len() == old(ch)@.len(),
        forall|i: int|
            0 <= i < msgs@.len() ==> msgs@[i] == spec_message_of(old(ch)@[i], velocity),
{
    let ghost orig: Seq<KeyEvent> = old(ch)@;
    let mut msgs: Vec<MidiMessage> = Vec::new();
    loop
        invariant
            msgs@.len() <= orig.len(),
            ch@ == orig.subrange(msgs@.len() as int, orig.len() as int),
            forall|i: int|
                0 <= i < msgs@.len() ==> msgs@[i] == spec_message_of(orig[i], velocity),
        ensures
            ch@.len() == 0,
            msgs@.len() == orig.len(),
            forall|i: int|
                0 <= i < msgs@.len() ==> msgs@[i] == spec_message_of(orig[i], velocity),
        decreases ch@.len(),
    {
        let ghost before: Seq<KeyEvent> = ch@;
        let ghost done: int = msgs@.len() as int;
        match ch.try_take() {
            Some(e) => {
                msgs.push(MidiMessage::of_event(e, velocity));
                proof {
                    assert(before[0] == orig[done]);
                    assert(ch@ =~= orig.subrange(done + 1, orig.len() as int));
                }
            },
            None => {
                break;
            },
        }
    }
    msgs
}

} // verus!
