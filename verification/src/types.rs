//! Commands, settings and the events the user interface exchanges.

use vstd::prelude::*;

verus! {

/// Octave selected when the synthesizer starts.
pub const OCTAVE_DEFAULT: i32 = 4;

/// Lowest octave the octave buttons reach.
pub const OCTAVE_MIN: i32 = 1;

/// Highest octave the octave buttons reach.
pub const OCTAVE_MAX: i32 = 7;

/// Release time at start, in nanoseconds (3000 ms).
pub const RELEASE_TIME_DEFAULT: u64 = 3_000_000_000;

/// Attack time at start, in nanoseconds (100 ms).
pub const ATTACK_TIME_DEFAULT: u64 = 100_000_000;

/// Interval at which a held key repeats its command, in nanoseconds (5 ms).
pub const NOTE_REPEAT_INTERVAL: u64 = 5_000_000;

/// The twelve notes of an octave.
#[derive(Clone, Copy, PartialEq, Eq, Structural, Hash, Debug)]
pub enum Note {
    C,
    CSharp,
    D,
    DSharp,
    E,
    F,
    FSharp,
    G,
    GSharp,
    A,
    ASharp,
    B,
}

/// The shapes of wave the tone source can produce.
#[derive(Clone, Copy, PartialEq, Eq, Structural, Hash, Debug)]
pub enum WaveForm {
    Sine,
    Square,
    Saw,
    Triangle,
}

impl Default for WaveForm {
    /// The saw wave is the one selected at start.
    fn default() -> (w: WaveForm)
        ensures
            w == WaveForm::Saw,
    {
        WaveForm::Saw
    }
}

/// An envelope setting; both times are in nanoseconds.
#[derive(Clone, Copy, PartialEq, Eq, Structural, Debug)]
pub enum Setting {
    AttackTime(u64),
    ReleaseTime(u64),
}

/// What the user interface asks of the tone generator.
#[derive(Clone, Copy, PartialEq, Eq, Structural, Debug)]
pub enum Command {
    ChangeNote(Note),
    ChangeWaveForm(WaveForm),
    ChangeOctave(i32),
    ChangeSetting(Setting),
    Quit,
}

/// What the keyboard handler tells the widgets to show.
#[derive(Clone, Copy, PartialEq, Eq, Structural, Debug)]
pub enum UiEvent {
    NoteChanged(Option<Note>),
    OctaveChanged(i32),
    WaveFormChanged(WaveForm),
}

} // verus!

verus! {

/// The name under which the tone source knows a wave form.
pub open spec fn spec_nick(wave: WaveForm) -> Seq<char> {
    match wave {
        WaveForm::Sine => "sine"@,
        WaveForm::Square => "square"@,
        WaveForm::Saw => "saw"@,
        WaveForm::Triangle => "triangle"@,
    }
}

impl WaveForm {
    /// Returns the name under which the tone source knows this wave form.
    pub fn nick(&self) -> (s: &'static str)
        ensures
            s@ == spec_nick(*self),
    {
        match self {
            WaveForm::Sine => "sine",
            WaveForm::Square => "square",
            WaveForm::Saw => "saw",
            WaveForm::Triangle => "triangle",
        }
    }
}

/// Distinct wave forms have distinct names, so comparing names is comparing wave forms.
pub proof fn law_nick_injective(a: WaveForm, b: WaveForm)
    ensures
        spec_nick(a) == spec_nick(b) <==> a == b,
{
    reveal_strlit("sine");
    reveal_strlit("square");
    reveal_strlit("saw");
    reveal_strlit("triangle");
    if a != b {
        assert(spec_nick(a).len() != spec_nick(b).len() || spec_nick(a)[0] != spec_nick(b)[0]
            || spec_nick(a)[1] != spec_nick(b)[1]);
    }
}

} // verus!
