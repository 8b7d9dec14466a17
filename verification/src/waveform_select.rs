//! The wave-form buttons: one per wave form, exactly one shown selected.

use vstd::prelude::*;
use crate::types::{Command, WaveForm};

verus! {

/// Something the wave-form buttons ask the application to do.
#[derive(Clone, Copy, PartialEq, Eq, Structural, Debug)]
pub enum ButtonAction {
    /// Show the button of this wave form as not selected.
    Deselect(WaveForm),
    /// Show the button of this wave form as selected.
    Select(WaveForm),
    /// Send this command to the tone generator.
    Send(Command),
}

/// Which wave-form button is shown selected.
#[derive(Clone, Copy, PartialEq, Eq, Structural, Debug)]
pub struct WaveformSelection {
    pub selected: Option<WaveForm>,
}

/// The order of the buttons, left to right.
pub open spec fn spec_button_order() -> Seq<WaveForm> {
    seq![WaveForm::Saw, WaveForm::Square, WaveForm::Triangle, WaveForm::Sine]
}

/// Returns the wave forms of the buttons, left to right.
pub fn waveform_buttons() -> (v: Vec<WaveForm>)
    ensures
        v@ == spec_button_order(),
{
    let mut v: Vec<WaveForm> = Vec::new();
    v.push(WaveForm::Saw);
    v.push(WaveForm::Square);
    v.push(WaveForm::Triangle);
    v.push(WaveForm::Sine);
    assert(v@ =~= spec_button_order());
    v
}

/// The actions that show `w` selected, from state `s`.
pub open spec fn spec_show_actions(s: WaveformSelection, w: WaveForm) -> Seq<ButtonAction> {
    match s.selected {
        Some(prev) => seq![ButtonAction::Deselect(prev), ButtonAction::Select(w)],
        None => seq![ButtonAction::Select(w)],
    }
}

/// The buttons shown selected after the actions `a`, when `shown` were before.
pub open spec fn shown_after(shown: Set<WaveForm>, a: Seq<ButtonAction>) -> Set<WaveForm>
    decreases a.len(),
{
    if a.len() == 0 {
        shown
    } else {
        let next = match a[0] {
            ButtonAction::Deselect(w) => shown.remove(w),
            ButtonAction::Select(w) => shown.insert(w),
            ButtonAction::Send(_) => shown,
        };
        shown_after(next, a.drop_first())
    }
}

/// The buttons a selection shows as selected.
pub open spec fn shown_of(s: WaveformSelection) -> Set<WaveForm> {
    match s.selected {
        Some(w) => set![w],
        None => Set::empty(),
    }
}

/// The actions of a click on the button of `w`, from state `s`.
pub open spec fn spec_click_actions(s: WaveformSelection, w: WaveForm) -> Seq<ButtonAction> {
    spec_show_actions(s, w) + seq![ButtonAction::Send(Command::ChangeWaveForm(w))]
}

impl WaveformSelection {
    /// Returns the selection at start: the default wave form's button is selected.
    pub fn new() -> (s: WaveformSelection)
        ensures
            s.selected == Some(WaveForm::Saw),
    {
        WaveformSelection { selected: Some(WaveForm::default()) }
    }

    /// The button of `w` is clicked: it becomes the selected one, the previous one
    /// is shown unselected, and the wave form is sent to the tone generator.
    pub fn clicked(&mut self, w: WaveForm) -> (actions: Vec<ButtonAction>)
        ensures
            final(self).selected == Some(w),
            actions@ == spec_click_actions(*old(self), w),
    {
        let mut actions = self.show(w);
        let ghost shown = actions@;
        actions.push(ButtonAction::Send(Command::ChangeWaveForm(w)));
        assert(actions@ =~= shown + seq![ButtonAction::Send(Command::ChangeWaveForm(w))]);
        actions
    }

    /// Shows `w` as the selected wave form, as the keyboard chose it.
    pub fn show(&mut self, w: WaveForm) -> (actions: Vec<ButtonAction>)
        ensures
            final(self).selected == Some(w),
            actions@ == spec_show_actions(*old(self), w),
    {
        let mut actions: Vec<ButtonAction> = Vec::new();
        match self.selected {
            Some(prev) => actions.push(ButtonAction::Deselect(prev)),
            None => {},
        }
        actions.push(ButtonAction::Select(w));
        self.selected = Some(w);
        proof {
            match old(self).selected {
                Some(prev) => assert(actions@ =~= seq![ButtonAction::Deselect(prev), ButtonAction::Select(w)]),
                None => assert(actions@ =~= seq![ButtonAction::Select(w)]),
            }
        }
        actions
    }
}

/// Exactly one button is shown selected after any click or keyboard choice, and it
/// is the one of the wave form last chosen.
pub proof fn law_exactly_one_selected(s: WaveformSelection, w: WaveForm)
    ensures
        shown_after(shown_of(s), spec_show_actions(s, w)) == set![w],
        shown_after(shown_of(s), spec_click_actions(s, w)) == set![w],
{
    reveal_with_fuel(shown_after, 4);
    let a = spec_show_actions(s, w);
    let b = a + seq![ButtonAction::Send(Command::ChangeWaveForm(w))];
    match s.selected {
        Some(prev) => {
            assert(a.drop_first().drop_first().len() == 0);
            assert(b.drop_first() =~= seq![ButtonAction::Select(w), ButtonAction::Send(Command::ChangeWaveForm(w))]);
            assert(b.drop_first().drop_first() =~= seq![ButtonAction::Send(Command::ChangeWaveForm(w))]);
            assert(b.drop_first().drop_first().drop_first().len() == 0);
            assert(set![prev].remove(prev).insert(w) =~= set![w]);
        },
        None => {
            assert(a.drop_first().len() == 0);
            assert(b.drop_first() =~= seq![ButtonAction::Send(Command::ChangeWaveForm(w))]);
            assert(b.drop_first().drop_first().len() == 0);
            assert(Set::<WaveForm>::empty().insert(w) =~= set![w]);
        },
    }
}

} // verus!

verus! {

/// A click sends the clicked wave form to the tone generator and nothing else, while
/// showing the keyboard's choice sends nothing.
pub proof fn law_click_sends_its_wave_form(s: WaveformSelection, w: WaveForm)
    ensures
        spec_click_actions(s, w).contains(ButtonAction::Send(Command::ChangeWaveForm(w))),
        forall|i: int| 0 <= i < spec_click_actions(s, w).len() && #[trigger] spec_click_actions(s, w)[i] is Send
            ==> spec_click_actions(s, w)[i] == ButtonAction::Send(Command::ChangeWaveForm(w)),
        forall|i: int| 0 <= i < spec_show_actions(s, w).len() ==> !(#[trigger] spec_show_actions(s, w)[i] is Send),
{
    let a = spec_click_actions(s, w);
    assert(a[a.len() - 1] == ButtonAction::Send(Command::ChangeWaveForm(w)));
}

} // verus!
