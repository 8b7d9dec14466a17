//! Which computer key plays which note, picks which wave form or octave, or quits.
//!
//! Keys are given by their key value as the windowing toolkit reports it; for the
//! lower-case letters and the digits used here that value is the character's code.

use vstd::prelude::*;
use crate::types::{Command, Note, WaveForm};

verus! {

/// The command a key stands for, if any.
pub open spec fn spec_key_to_command(key: u32) -> Option<Command> {
    match key {
        0x71 => Some(Command::Quit),  // q
        0x61 => Some(Command::ChangeNote(Note::C)),  // a
        0x77 => Some(Command::ChangeNote(Note::CSharp)),  // w
        0x73 => Some(Command::ChangeNote(Note::D)),  // s
        0x65 => Some(Command::ChangeNote(Note::DSharp)),  // e
        0x64 => Some(Command::ChangeNote(Note::E)),  // d
        0x66 => Some(Command::ChangeNote(Note::F)),  // f
        0x74 => Some(Command::ChangeNote(Note::FSharp)),  // t
        0x67 => Some(Command::ChangeNote(Note::G)),  // g
        0x7a => Some(Command::ChangeNote(Note::GSharp)),  // z
        0x79 => Some(Command::ChangeNote(Note::GSharp)),  // y
        0x68 => Some(Command::ChangeNote(Note::A)),  // h
        0x75 => Some(Command::ChangeNote(Note::ASharp)),  // u
        0x6a => Some(Command::ChangeNote(Note::B)),  // j
        0x76 => Some(Command::ChangeWaveForm(WaveForm::Saw)),  // v
        0x62 => Some(Command::ChangeWaveForm(WaveForm::Square)),  // b
        0x6e => Some(Command::ChangeWaveForm(WaveForm::Triangle)),  // n
        0x6d => Some(Command::ChangeWaveForm(WaveForm::Sine)),  // m
        0x31 => Some(Command::ChangeOctave(1)),
        0x32 => Some(Command::ChangeOctave(2)),
        0x33 => Some(Command::ChangeOctave(3)),
        0x34 => Some(Command::ChangeOctave(4)),
        0x35 => Some(Command::ChangeOctave(5)),
        0x36 => Some(Command::ChangeOctave(6)),
        0x37 => Some(Command::ChangeOctave(7)),
        _ => None,
    }
}

/// Returns the command that the key with key value `key` stands for, or `None`
/// for a key that means nothing to the synthesizer.
pub fn key_to_command(key: u32) -> (c: Option<Command>)
    ensures
        c == spec_key_to_command(key),
{
    match key {
        0x71 => Some(Command::Quit),
        0x61 => Some(Command::ChangeNote(Note::C)),
        0x77 => Some(Command::ChangeNote(Note::CSharp)),
        0x73 => Some(Command::ChangeNote(Note::D)),
        0x65 => Some(Command::ChangeNote(Note::DSharp)),
        0x64 => Some(Command::ChangeNote(Note::E)),
        0x66 => Some(Command::ChangeNote(Note::F)),
        0x74 => Some(Command::ChangeNote(Note::FSharp)),
        0x67 => Some(Command::ChangeNote(Note::G)),
        0x7a | 0x79 => Some(Command::ChangeNote(Note::GSharp)),
        0x68 => Some(Command::ChangeNote(Note::A)),
        0x75 => Some(Command::ChangeNote(Note::ASharp)),
        0x6a => Some(Command::ChangeNote(Note::B)),
        0x76 => Some(Command::ChangeWaveForm(WaveForm::Saw)),
        0x62 => Some(Command::ChangeWaveForm(WaveForm::Square)),
        0x6e => Some(Command::ChangeWaveForm(WaveForm::Triangle)),
        0x6d => Some(Command::ChangeWaveForm(WaveForm::Sine)),
        0x31 => Some(Command::ChangeOctave(1)),
        0x32 => Some(Command::ChangeOctave(2)),
        0x33 => Some(Command::ChangeOctave(3)),
        0x34 => Some(Command::ChangeOctave(4)),
        0x35 => Some(Command::ChangeOctave(5)),
        0x36 => Some(Command::ChangeOctave(6)),
        0x37 => Some(Command::ChangeOctave(7)),
        _ => None,
    }
}

/// The key value of a key that plays `note`.
pub open spec fn key_of_note(note: Note) -> u32 {
    match note {
        Note::C => 0x61,
        Note::CSharp => 0x77,
        Note::D => 0x73,
        Note::DSharp => 0x65,
        Note::E => 0x64,
        Note::F => 0x66,
        Note::FSharp => 0x74,
        Note::G => 0x67,
        Note::GSharp => 0x7a,
        Note::A => 0x68,
        Note::ASharp => 0x75,
        Note::B => 0x6a,
    }
}

/// The key value of a key that selects `wave`.
pub open spec fn key_of_wave(wave: WaveForm) -> u32 {
    match wave {
        WaveForm::Saw => 0x76,
        WaveForm::Square => 0x62,
        WaveForm::Triangle => 0x6e,
        WaveForm::Sine => 0x6d,
    }
}

/// Every note and every wave form can be reached from the computer keyboard,
/// and every octave between the lowest and the highest has a digit key.
pub proof fn law_keyboard_covers_everything()
    ensures
        forall|note: Note| #[trigger] spec_key_to_command(key_of_note(note)) == Some(Command::ChangeNote(note)),
        forall|wave: WaveForm| #[trigger] spec_key_to_command(key_of_wave(wave)) == Some(Command::ChangeWaveForm(wave)),
        forall|o: i32| crate::types::OCTAVE_MIN <= o <= crate::types::OCTAVE_MAX
            ==> #[trigger] spec_key_to_command((0x30 + o) as u32) == Some(Command::ChangeOctave(o)),
{
    assert forall|o: i32| crate::types::OCTAVE_MIN <= o <= crate::types::OCTAVE_MAX
        implies #[trigger] spec_key_to_command((0x30 + o) as u32) == Some(Command::ChangeOctave(o)) by {
        if o == 1 {} else if o == 2 {} else if o == 3 {} else if o == 4 {} else if o == 5 {}
        else if o == 6 {} else {}
    }
}

/// Every octave a key asks for lies between the lowest and the highest octave.
pub proof fn law_keyed_octaves_in_range(key: u32, o: i32)
    requires
        spec_key_to_command(key) == Some(Command::ChangeOctave(o)),
    ensures
        crate::types::OCTAVE_MIN <= o <= crate::types::OCTAVE_MAX,
{
}

} // verus!
