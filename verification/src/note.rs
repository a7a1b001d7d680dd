//! The note table: a fixed mapping from keyboard scancodes to a chromatic
//! scale of thirteen notes, and from each note to its MIDI note number.

use vstd::prelude::*;

verus! {

/// The thirteen notes of one chromatic octave, C4 up to C5.
#[derive(Clone, Copy, Debug, PartialEq, Eq, Structural)]
pub enum Note {
    C4,
    CSharp4,
    D4,
    DSharp4,
    E4,
    F4,
    FSharp4,
    G4,
    GSharp4,
    A4,
    ASharp4,
    B4,
    C5,
}

/// MIDI note number of each note: 60 for middle C (C4), one per semitone,
/// up to 72 for C5.
pub open spec fn spec_midi_value(n: Note) -> u8 {
    match n {
        Note::C4 => 60,
        Note::CSharp4 => 61,
        Note::D4 => 62,
        Note::DSharp4 => 63,
        Note::E4 => 64,
        Note::F4 => 65,
        Note::FSharp4 => 66,
        Note::G4 => 67,
        Note::GSharp4 => 68,
        Note::A4 => 69,
        Note::ASharp4 => 70,
        Note::B4 => 71,
        Note::C5 => 72,
    }
}

/// The fixed physical layout: the home row carries the natural notes and
/// the row above it the sharps. A code outside the layout has no note.
pub open spec fn spec_note_of_scancode(code: u32) -> Option<Note> {
    if code == 30 {
        Some(Note::C4)
    } else if code == 31 {
        Some(Note::D4)
    } else if code == 32 {
        Some(Note::E4)
    } else if code == 33 {
        Some(Note::F4)
    } else if code == 34 {
        Some(Note::G4)
    } else if code == 35 {
        Some(Note::A4)
    } else if code == 36 {
        Some(Note::B4)
    } else if code == 37 {
        Some(Note::C5)
    } else if code == 17 {
        Some(Note::CSharp4)
    } else if code == 18 {
        Some(Note::DSharp4)
    } else if code == 20 {
        Some(Note::FSharp4)
    } else if code == 21 {
        Some(Note::GSharp4)
    } else if code == 22 {
        Some(Note::ASharp4)
    } else {
        None
    }
}

impl Note {
    /// Looks a scancode up in the fixed layout.
    pub fn from_scancode(scancode: u32) -> (r: Option<Note>)
        ensures
            r == spec_note_of_scancode(scancode),
    {
        match scancode {
            30 => Some(Note::C4),
            31 => Some(Note::D4),
            32 => Some(Note::E4),
            33 => Some(Note::F4),
            34 => Some(Note::G4),
            35 => Some(Note::A4),
            36 => Some(Note::B4),
            37 => Some(Note::C5),
            17 => Some(Note::CSharp4),
            18 => Some(Note::DSharp4),
            20 => Some(Note::FSharp4),
            21 => Some(Note::GSharp4),
            22 => Some(Note::ASharp4),
            _ => None,
        }
    }

    /// The MIDI note number of this note.
    pub fn to_midi_value(self) -> (r: u8)
        ensures
            r == spec_midi_value(self),
    {
        match self {
            Note::C4 => 60,
            Note::CSharp4 => 61,
            Note::D4 => 62,
            Note::DSharp4 => 63,
            Note::E4 => 64,
            Note::F4 => 65,
            Note::FSharp4 => 66,
            Note::G4 => 67,
            Note::GSharp4 => 68,
            Note::A4 => 69,
            Note::ASharp4 => 70,
            Note::B4 => 71,
            Note::C5 => 72,
        }
    }
}

/// The note table is a fixed function of the code alone: a mapped code has
/// one definite note whose MIDI value lies in the octave 60..=72, so looking
/// the code up and taking the value gives the same result on every call.
pub proof fn lemma_round_trip(code: u32)
    ensures
        spec_note_of_scancode(code) matches Some(n) ==> 60 <= spec_midi_value(n) <= 72,
{
}

/// Distinct mapped codes sound distinct pitches: the composition of the
/// code-to-note and note-to-MIDI tables is injective on mapped codes.
pub proof fn lemma_mapping_injective(c1: u32, c2: u32)
    requires
        c1 != c2,
        spec_note_of_scancode(c1) is Some,
        spec_note_of_scancode(c2) is Some,
    ensures
        spec_midi_value(spec_note_of_scancode(c1)->Some_0)
            != spec_midi_value(spec_note_of_scancode(c2)->Some_0),
{
}

} // verus!
