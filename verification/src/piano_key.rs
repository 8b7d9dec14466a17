//! A key of the on-screen piano: pressing it plays its note and repeats it while
//! held; letting it go, or the gesture being cancelled, stops the repeat.

use vstd::prelude::*;
use crate::keyboard::{timers_running, InputAction};
use crate::types::{Command, Note};

verus! {

/// The state of one on-screen piano key.
#[derive(Clone, Copy, PartialEq, Eq, Structural, Debug)]
pub struct PianoKey {
    /// The note the key plays.
    pub note: Note,
    /// Whether its repeat timer runs.
    pub repeating: bool,
}

/// The actions of a press in state `k`.
pub open spec fn spec_press_actions(k: PianoKey) -> Seq<InputAction> {
    if k.repeating {
        seq![InputAction::MarkActive]
    } else {
        seq![
            InputAction::MarkActive,
            InputAction::SendCommand(Command::ChangeNote(k.note)),
            InputAction::StartRepeat(Command::ChangeNote(k.note)),
        ]
    }
}

/// The actions of a release, or of a cancelled gesture, in state `k`.
pub open spec fn spec_release_actions(k: PianoKey) -> Seq<InputAction> {
    if k.repeating {
        seq![InputAction::MarkInactive, InputAction::CancelRepeat]
    } else {
        seq![InputAction::MarkInactive]
    }
}

impl PianoKey {
    /// Returns the key for `note`, at rest.
    pub fn new(note: Note) -> (k: PianoKey)
        ensures
            k == (PianoKey { note: note, repeating: false }),
    {
        PianoKey { note, repeating: false }
    }

    /// The key is pressed: it is shown held down and, unless its timer already runs,
    /// plays its note and starts repeating it.
    pub fn pressed(&mut self) -> (actions: Vec<InputAction>)
        ensures
            actions@ == spec_press_actions(*old(self)),
            *final(self) == (PianoKey { repeating: true, ..*old(self) }),
    {
        let mut actions: Vec<InputAction> = Vec::new();
        actions.push(InputAction::MarkActive);
        if self.repeating {
            return actions;
        }
        actions.push(InputAction::SendCommand(Command::ChangeNote(self.note)));
        actions.push(InputAction::StartRepeat(Command::ChangeNote(self.note)));
        self.repeating = true;
        actions
    }

    /// The key is let go, or its gesture is cancelled: it is shown at rest and its
    /// timer, if one runs, is stopped.
    pub fn released(&mut self) -> (actions: Vec<InputAction>)
        ensures
            actions@ == spec_release_actions(*old(self)),
            *final(self) == (PianoKey { repeating: false, ..*old(self) }),
    {
        let mut actions: Vec<InputAction> = Vec::new();
        actions.push(InputAction::MarkInactive);
        if self.repeating {
            actions.push(InputAction::CancelRepeat);
        }
        self.repeating = false;
        actions
    }
}

/// A key never runs two repeat timers: if at most one ran, and one runs only while
/// the key says so, the same holds after a press or a release.
pub proof fn law_one_timer_per_key(k: PianoKey, n: nat)
    requires
        n <= 1,
        n == 1 <==> k.repeating,
    ensures
        timers_running(n, spec_press_actions(k)) == 1,
        timers_running(n, spec_release_actions(k)) == 0,
{
    reveal_with_fuel(timers_running, 4);
    let p = spec_press_actions(k);
    let r = spec_release_actions(k);
    if k.repeating {
        assert(p.drop_first().len() == 0);
        assert(r.drop_first().drop_first().len() == 0);
    } else {
        assert(p.drop_first().drop_first().drop_first().len() == 0);
        assert(r.drop_first().len() == 0);
    }
}

/// Holding a key down sends its note once: a second press while the timer runs
/// sends nothing more.
pub proof fn law_press_while_held_sends_nothing(k: PianoKey)
    requires
        k.repeating,
    ensures
        !spec_press_actions(k).contains(InputAction::SendCommand(Command::ChangeNote(k.note))),
{
    assert(spec_press_actions(k)[0] == InputAction::MarkActive);
}

} // verus!

verus! {

/// Something the highlighting of the piano asks of its keys.
#[derive(Clone, Copy, PartialEq, Eq, Structural, Debug)]
pub enum HighlightAction {
    /// Show the key of this note at rest.
    Unmark(Note),
    /// Show the key of this note as played.
    Mark(Note),
}

/// Which piano key is shown as played, following the computer keyboard.
#[derive(Clone, Copy, PartialEq, Eq, Structural, Debug)]
pub struct NoteHighlight {
    pub active: Option<Note>,
}

/// The actions that show `note` as the played one, from state `h`.
pub open spec fn spec_highlight_actions(h: NoteHighlight, note: Option<Note>) -> Seq<HighlightAction> {
    let unmark = match h.active {
        Some(prev) => seq![HighlightAction::Unmark(prev)],
        None => seq![],
    };
    let mark = match note {
        Some(n) => seq![HighlightAction::Mark(n)],
        None => seq![],
    };
    unmark + mark
}

/// The keys shown as played after the actions `a`, when `marked` were before.
pub open spec fn marked_after(marked: Set<Note>, a: Seq<HighlightAction>) -> Set<Note>
    decreases a.len(),
{
    if a.len() == 0 {
        marked
    } else {
        let next = match a[0] {
            HighlightAction::Unmark(n) => marked.remove(n),
            HighlightAction::Mark(n) => marked.insert(n),
        };
        marked_after(next, a.drop_first())
    }
}

/// The set of at most one note that `o` names.
pub open spec fn set_of(o: Option<Note>) -> Set<Note> {
    match o {
        Some(n) => set![n],
        None => Set::empty(),
    }
}

impl NoteHighlight {
    /// Returns the highlighting with no key shown as played.
    pub fn new() -> (h: NoteHighlight)
        ensures
            h.active is None,
    {
        NoteHighlight { active: None }
    }

    /// Shows `note` as the played key (or none): the key shown before is put back
    /// at rest and the new one, if any, is marked.
    pub fn show(&mut self, note: Option<Note>) -> (actions: Vec<HighlightAction>)
        ensures
            final(self).active == note,
            actions@ == spec_highlight_actions(*old(self), note),
    {
        let mut actions: Vec<HighlightAction> = Vec::new();
        match self.active {
            Some(prev) => actions.push(HighlightAction::Unmark(prev)),
            None => {},
        }
        match note {
            Some(n) => actions.push(HighlightAction::Mark(n)),
            None => {},
        }
        self.active = note;
        assert(actions@ =~= spec_highlight_actions(*old(self), note));
        actions
    }
}

/// At most one piano key is shown as played, and it is the note last announced.
pub proof fn law_one_key_marked(h: NoteHighlight, note: Option<Note>)
    ensures
        marked_after(set_of(h.active), spec_highlight_actions(h, note)) == set_of(note),
{
    reveal_with_fuel(marked_after, 3);
    let a = spec_highlight_actions(h, note);
    match h.active {
        Some(prev) => {
            match note {
                Some(n) => {
                    assert(a =~= seq![HighlightAction::Unmark(prev), HighlightAction::Mark(n)]);
                    assert(a.drop_first().drop_first().len() == 0);
                    assert(set![prev].remove(prev).insert(n) =~= set![n]);
                },
                None => {
                    assert(a =~= seq![HighlightAction::Unmark(prev)]);
                    assert(a.drop_first().len() == 0);
                    assert(set![prev].remove(prev) =~= Set::<Note>::empty());
                },
            }
        },
        None => {
            match note {
                Some(n) => {
                    assert(a =~= seq![HighlightAction::Mark(n)]);
                    assert(a.drop_first().len() == 0);
                    assert(Set::<Note>::empty().insert(n) =~= set![n]);
                },
                None => {
                    assert(a =~= Seq::<HighlightAction>::empty());
                },
            }
        },
    }
}

} // verus!

verus! {

/// A piano key only ever plays and repeats its own note: a press at rest sends and
/// repeats exactly that note, a press while held sends nothing, and a release sends
/// nothing at all.
pub proof fn law_key_plays_its_own_note(k: PianoKey)
    ensures
        !k.repeating ==> spec_press_actions(k).contains(InputAction::SendCommand(Command::ChangeNote(k.note))),
        !k.repeating ==> spec_press_actions(k).contains(InputAction::StartRepeat(Command::ChangeNote(k.note))),
        forall|i: int| 0 <= i < spec_press_actions(k).len() && #[trigger] spec_press_actions(k)[i] is SendCommand
            ==> spec_press_actions(k)[i] == InputAction::SendCommand(Command::ChangeNote(k.note)),
        forall|i: int| 0 <= i < spec_press_actions(k).len() && #[trigger] spec_press_actions(k)[i] is StartRepeat
            ==> spec_press_actions(k)[i] == InputAction::StartRepeat(Command::ChangeNote(k.note)),
        forall|i: int| 0 <= i < spec_release_actions(k).len()
            ==> !(#[trigger] spec_release_actions(k)[i] is SendCommand) && !(spec_release_actions(k)[i] is StartRepeat),
        spec_press_actions(k)[0] == InputAction::MarkActive,
        spec_release_actions(k)[0] == InputAction::MarkInactive,
{
    let p = spec_press_actions(k);
    if !k.repeating {
        assert(p[1] == InputAction::SendCommand(Command::ChangeNote(k.note)));
        assert(p[2] == InputAction::StartRepeat(Command::ChangeNote(k.note)));
    }
}

} // verus!
