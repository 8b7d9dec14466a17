//! The octave selector: two buttons step the octave up and down between the
//! lowest and the highest octave, and the keyboard may set it directly.

use vstd::prelude::*;
use crate::types::{Command, OCTAVE_DEFAULT, OCTAVE_MAX, OCTAVE_MIN};

verus! {

/// The octave the selector shows.
#[derive(Clone, Copy, PartialEq, Eq, Structural, Debug)]
pub struct OctaveSelector {
    pub value: i32,
}

/// The octave after the up button, in state `s`.
pub open spec fn spec_after_up(s: OctaveSelector) -> OctaveSelector {
    if s.value < OCTAVE_MAX { OctaveSelector { value: (s.value + 1) as i32 } } else { s }
}

/// The command the up button sends, in state `s`.
pub open spec fn spec_up_command(s: OctaveSelector) -> Option<Command> {
    if s.value < OCTAVE_MAX { Some(Command::ChangeOctave((s.value + 1) as i32)) } else { None }
}

/// The octave after the down button, in state `s`.
pub open spec fn spec_after_down(s: OctaveSelector) -> OctaveSelector {
    if s.value > OCTAVE_MIN { OctaveSelector { value: (s.value - 1) as i32 } } else { s }
}

/// The command the down button sends, in state `s`.
pub open spec fn spec_down_command(s: OctaveSelector) -> Option<Command> {
    if s.value > OCTAVE_MIN { Some(Command::ChangeOctave((s.value - 1) as i32)) } else { None }
}

/// Whether the selector shows an octave between the lowest and the highest.
pub open spec fn in_range(s: OctaveSelector) -> bool {
    OCTAVE_MIN <= s.value <= OCTAVE_MAX
}

impl OctaveSelector {
    /// Returns the selector showing the default octave.
    pub fn new() -> (s: OctaveSelector)
        ensures
            s.value == OCTAVE_DEFAULT,
    {
        OctaveSelector { value: OCTAVE_DEFAULT }
    }

    /// The up button: below the highest octave, steps one octave up and returns the
    /// command announcing it; at the highest octave, does nothing.
    pub fn up(&mut self) -> (c: Option<Command>)
        ensures
            *final(self) == spec_after_up(*old(self)),
            c == spec_up_command(*old(self)),
    {
        if self.value < OCTAVE_MAX {
            self.value = self.value + 1;
            Some(Command::ChangeOctave(self.value))
        } else {
            None
        }
    }

    /// The down button: above the lowest octave, steps one octave down and returns
    /// the command announcing it; at the lowest octave, does nothing.
    pub fn down(&mut self) -> (c: Option<Command>)
        ensures
            *final(self) == spec_after_down(*old(self)),
            c == spec_down_command(*old(self)),
    {
        if self.value > OCTAVE_MIN {
            self.value = self.value - 1;
            Some(Command::ChangeOctave(self.value))
        } else {
            None
        }
    }

    /// Shows the octave that the keyboard chose.
    pub fn show(&mut self, octave: i32)
        ensures
            final(self).value == octave,
    {
        self.value = octave;
    }
}

/// The buttons never leave the range between the lowest and the highest octave.
pub proof fn law_buttons_stay_in_range(s: OctaveSelector)
    requires
        in_range(s),
    ensures
        in_range(spec_after_up(s)),
        in_range(spec_after_down(s)),
{
}

/// Within the range, below the highest octave, up then down comes back to the same
/// octave; above the lowest, down then up does.
pub proof fn law_up_down_round_trip(s: OctaveSelector)
    requires
        in_range(s),
    ensures
        s.value < OCTAVE_MAX ==> spec_after_down(spec_after_up(s)) == s,
        s.value > OCTAVE_MIN ==> spec_after_up(spec_after_down(s)) == s,
{
}

/// The command a button sends always names the octave the selector then shows.
pub proof fn law_command_matches_display(s: OctaveSelector)
    ensures
        spec_up_command(s) matches Some(c) ==> c == Command::ChangeOctave(spec_after_up(s).value),
        spec_down_command(s) matches Some(c) ==> c == Command::ChangeOctave(spec_after_down(s).value),
        spec_up_command(s) is None ==> spec_after_up(s) == s,
        spec_down_command(s) is None ==> spec_after_down(s) == s,
{
}

} // verus!

verus! {

/// Each button moves exactly one octave: up from below the highest octave shows and
/// sends the next octave, down from above the lowest shows and sends the previous
/// one; at the ends the buttons do nothing.
pub proof fn law_buttons_step_by_one(s: OctaveSelector)
    ensures
        s.value < OCTAVE_MAX ==> spec_after_up(s).value == s.value + 1
            && spec_up_command(s) == Some(Command::ChangeOctave((s.value + 1) as i32)),
        s.value > OCTAVE_MIN ==> spec_after_down(s).value == s.value - 1
            && spec_down_command(s) == Some(Command::ChangeOctave((s.value - 1) as i32)),
        s.value >= OCTAVE_MAX ==> spec_after_up(s) == s && spec_up_command(s) is None,
        s.value <= OCTAVE_MIN ==> spec_after_down(s) == s && spec_down_command(s) is None,
{
}

/// From any octave in range, the up button visits every higher octave in turn: after
/// `k` presses the selector shows the starting octave plus `k`, up to the highest.
pub proof fn law_up_visits_every_octave(s: OctaveSelector, k: nat)
    requires
        in_range(s),
    ensures
        ups(s, k).value == if s.value + k <= OCTAVE_MAX { s.value + k } else { OCTAVE_MAX as int },
    decreases k,
{
    if k > 0 {
        law_up_visits_every_octave(s, (k - 1) as nat);
        law_buttons_stay_in_range(ups(s, (k - 1) as nat));
        law_up_stays(s, (k - 1) as nat);
    }
}

/// The selector after `k` presses of the up button.
pub open spec fn ups(s: OctaveSelector, k: nat) -> OctaveSelector
    decreases k,
{
    if k == 0 { s } else { spec_after_up(ups(s, (k - 1) as nat)) }
}

/// Pressing up any number of times keeps an in-range selector in range.
pub proof fn law_up_stays(s: OctaveSelector, k: nat)
    requires
        in_range(s),
    ensures
        in_range(ups(s, k)),
    decreases k,
{
    if k > 0 {
        law_up_stays(s, (k - 1) as nat);
        law_buttons_stay_in_range(ups(s, (k - 1) as nat));
    }
}

} // verus!
