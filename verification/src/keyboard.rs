//! The computer-keyboard handler: it turns key presses and releases into commands
//! for the tone generator, events for the widgets, and a repeat timer that resends
//! the command of the held key.

use vstd::prelude::*;
use crate::keymap::{key_to_command, spec_key_to_command};
use crate::types::{Command, UiEvent};

verus! {

/// Whether a key event is consumed or passed on to other handlers.
#[derive(Clone, Copy, PartialEq, Eq, Structural, Debug)]
pub enum Propagation {
    Stop,
    Proceed,
}

/// Something an input handler asks the application to do.
#[derive(Clone, Copy, PartialEq, Eq, Structural, Debug)]
pub enum InputAction {
    /// Stop the repeat timer that is running.
    CancelRepeat,
    /// Send this event to the widgets.
    SendUi(UiEvent),
    /// Send this command to the tone generator.
    SendCommand(Command),
    /// Start a timer that resends this command at every repeat interval.
    StartRepeat(Command),
    /// Show the pressed widget as held down.
    MarkActive,
    /// Show the widget as no longer held down.
    MarkInactive,
}

/// The answer of the handler to a key press.
#[derive(Clone, PartialEq, Eq, Debug)]
pub struct KeyResponse {
    pub propagation: Propagation,
    pub actions: Vec<InputAction>,
}

/// The state of the keyboard handler.
#[derive(Clone, Copy, PartialEq, Eq, Structural, Debug)]
pub struct KeyboardHandler {
    /// The key held down, if any.
    pub active_key: Option<u32>,
    /// The command the repeat timer resends, if a timer runs.
    pub repeating: Option<Command>,
}

/// The widget event that announces a command, if the widgets show it.
pub open spec fn spec_ui_event_for(c: Command) -> Option<UiEvent> {
    match c {
        Command::ChangeNote(note) => Some(UiEvent::NoteChanged(Some(note))),
        Command::ChangeWaveForm(w) => Some(UiEvent::WaveFormChanged(w)),
        Command::ChangeOctave(n) => Some(UiEvent::OctaveChanged(n)),
        _ => None,
    }
}

/// Returns the widget event that announces `c`, if the widgets show it.
pub fn ui_event_for(c: Command) -> (e: Option<UiEvent>)
    ensures
        e == spec_ui_event_for(c),
{
    match c {
        Command::ChangeNote(note) => Some(UiEvent::NoteChanged(Some(note))),
        Command::ChangeWaveForm(w) => Some(UiEvent::WaveFormChanged(w)),
        Command::ChangeOctave(n) => Some(UiEvent::OctaveChanged(n)),
        _ => None,
    }
}

/// The handler as it starts: no key held, no timer.
pub open spec fn spec_idle() -> KeyboardHandler {
    KeyboardHandler { active_key: None, repeating: None }
}

/// A timer runs exactly while a key is held, and it repeats that key's command.
pub open spec fn handler_consistent(h: KeyboardHandler) -> bool {
    &&& h.repeating.is_some() == h.active_key.is_some()
    &&& (h.active_key matches Some(k) ==> h.repeating == spec_key_to_command(k))
}

/// The actions for a press of a key standing for `c`, in state `h`.
pub open spec fn spec_command_actions(h: KeyboardHandler, c: Command) -> Seq<InputAction> {
    let cancel = if h.repeating.is_some() { seq![InputAction::CancelRepeat] } else { seq![] };
    let ui = match spec_ui_event_for(c) {
        Some(e) => seq![InputAction::SendUi(e)],
        None => seq![],
    };
    cancel + ui + seq![InputAction::SendCommand(c), InputAction::StartRepeat(c)]
}

/// Whether a press of `key` in state `h` is handled (and not a repeat of the held key
/// nor a key without meaning).
pub open spec fn press_takes_effect(h: KeyboardHandler, key: u32) -> bool {
    h.active_key != Some(key) && spec_key_to_command(key).is_some()
}

/// The propagation of a press of `key` in state `h`.
pub open spec fn spec_press_propagation(h: KeyboardHandler, key: u32) -> Propagation {
    if h.active_key == Some(key) {
        Propagation::Stop
    } else if spec_key_to_command(key).is_none() {
        Propagation::Proceed
    } else {
        Propagation::Stop
    }
}

/// The actions of a press of `key` in state `h`.
pub open spec fn spec_press_actions(h: KeyboardHandler, key: u32) -> Seq<InputAction> {
    if press_takes_effect(h, key) {
        spec_command_actions(h, spec_key_to_command(key).unwrap())
    } else {
        seq![]
    }
}

/// The state after a press of `key` in state `h`.
pub open spec fn spec_after_press(h: KeyboardHandler, key: u32) -> KeyboardHandler {
    if press_takes_effect(h, key) {
        KeyboardHandler { active_key: Some(key), repeating: spec_key_to_command(key) }
    } else {
        h
    }
}

/// The actions of a release of `key` in state `h`.
pub open spec fn spec_release_actions(h: KeyboardHandler, key: u32) -> Seq<InputAction> {
    if h.active_key == Some(key) {
        let cancel = if h.repeating.is_some() { seq![InputAction::CancelRepeat] } else { seq![] };
        cancel + seq![InputAction::SendUi(UiEvent::NoteChanged(None))]
    } else {
        seq![]
    }
}

/// The state after a release of `key` in state `h`.
pub open spec fn spec_after_release(h: KeyboardHandler, key: u32) -> KeyboardHandler {
    if h.active_key == Some(key) {
        KeyboardHandler { active_key: None, repeating: None }
    } else {
        h
    }
}

impl KeyboardHandler {
    /// Returns the handler with no key held and no timer.
    pub fn new() -> (h: KeyboardHandler)
        ensures
            h == spec_idle(),
    {
        KeyboardHandler { active_key: None, repeating: None }
    }

    /// Handles the press of the key with key value `key`.
    ///
    /// A press of the key already held is an automatic repeat of the system and is
    /// swallowed: the handler's own timer repeats the command. A key without meaning
    /// is passed on. Any other key stops the running timer, becomes the held key,
    /// announces its command to the widgets where they show it, sends the command
    /// and starts a timer that repeats it.
    pub fn key_pressed(&mut self, key: u32) -> (r: KeyResponse)
        ensures
            r.propagation == spec_press_propagation(*old(self), key),
            r.actions@ == spec_press_actions(*old(self), key),
            *final(self) == spec_after_press(*old(self), key),
    {
        let mut actions: Vec<InputAction> = Vec::new();
        if self.active_key == Some(key) {
            return KeyResponse { propagation: Propagation::Stop, actions };
        }
        let command = match key_to_command(key) {
            Some(c) => c,
            None => {
                return KeyResponse { propagation: Propagation::Proceed, actions };
            },
        };
        let ghost h0 = *self;
        if self.repeating.is_some() {
            actions.push(InputAction::CancelRepeat);
        }
        self.active_key = Some(key);
        match ui_event_for(command) {
            Some(e) => actions.push(InputAction::SendUi(e)),
            None => {},
        }
        actions.push(InputAction::SendCommand(command));
        actions.push(InputAction::StartRepeat(command));
        self.repeating = Some(command);
        assert(actions@ =~= spec_command_actions(h0, command));
        KeyResponse { propagation: Propagation::Stop, actions }
    }

    /// Handles the release of the key with key value `key`: releasing the held key
    /// stops its timer and tells the widgets that no note is held; releasing any
    /// other key does nothing.
    pub fn key_released(&mut self, key: u32) -> (actions: Vec<InputAction>)
        ensures
            actions@ == spec_release_actions(*old(self), key),
            *final(self) == spec_after_release(*old(self), key),
    {
        let mut actions: Vec<InputAction> = Vec::new();
        if self.active_key == Some(key) {
            let ghost h0 = *self;
            self.active_key = None;
            if self.repeating.is_some() {
                actions.push(InputAction::CancelRepeat);
            }
            self.repeating = None;
            actions.push(InputAction::SendUi(UiEvent::NoteChanged(None)));
            assert(actions@ =~= spec_release_actions(h0, key));
        }
        actions
    }
}

/// The number of repeat timers running after the actions `a`, when `n` ran before.
pub open spec fn timers_running(n: nat, a: Seq<InputAction>) -> nat
    decreases a.len(),
{
    if a.len() == 0 {
        n
    } else {
        let m = match a[0] {
            InputAction::CancelRepeat => 0,
            InputAction::StartRepeat(_) => n + 1,
            _ => n,
        };
        timers_running(m, a.drop_first())
    }
}

/// Presses and releases keep the timer running exactly while a key is held, and
/// repeating that key's command.
pub proof fn law_handler_stays_consistent(h: KeyboardHandler, key: u32)
    requires
        handler_consistent(h),
    ensures
        handler_consistent(spec_after_press(h, key)),
        handler_consistent(spec_after_release(h, key)),
{
}

/// The system's automatic repeat of the held key is swallowed: nothing is sent and
/// nothing changes.
pub proof fn law_auto_repeat_swallowed(h: KeyboardHandler, key: u32)
    requires
        h.active_key == Some(key),
    ensures
        spec_press_propagation(h, key) == Propagation::Stop,
        spec_press_actions(h, key) == Seq::<InputAction>::empty(),
        spec_after_press(h, key) == h,
{
}

/// A key without meaning is passed on, and nothing is sent or changed.
pub proof fn law_unknown_key_passed_on(h: KeyboardHandler, key: u32)
    requires
        h.active_key != Some(key),
        spec_key_to_command(key) is None,
    ensures
        spec_press_propagation(h, key) == Propagation::Proceed,
        spec_press_actions(h, key) == Seq::<InputAction>::empty(),
        spec_after_press(h, key) == h,
{
}

/// Pressing a note key and letting it go from rest sends the note once, repeats it
/// while held, stops the repeat on release, tells the widgets the note ends, and
/// leaves the handler at rest again.
pub proof fn law_press_release_round_trip(key: u32)
    requires
        spec_key_to_command(key) matches Some(Command::ChangeNote(_)),
    ensures
        ({
            let c = spec_key_to_command(key).unwrap();
            let n = c->ChangeNote_0;
            let h1 = spec_after_press(spec_idle(), key);
            &&& spec_press_actions(spec_idle(), key) == seq![
                InputAction::SendUi(UiEvent::NoteChanged(Some(n))),
                InputAction::SendCommand(c),
                InputAction::StartRepeat(c),
            ]
            &&& spec_release_actions(h1, key) == seq![
                InputAction::CancelRepeat,
                InputAction::SendUi(UiEvent::NoteChanged(None)),
            ]
            &&& spec_after_release(h1, key) == spec_idle()
        }),
{
    let c = spec_key_to_command(key).unwrap();
    let h1 = spec_after_press(spec_idle(), key);
    assert(spec_press_actions(spec_idle(), key) =~= seq![
        InputAction::SendUi(UiEvent::NoteChanged(Some(c->ChangeNote_0))),
        InputAction::SendCommand(c),
        InputAction::StartRepeat(c),
    ]);
    assert(spec_release_actions(h1, key) =~= seq![
        InputAction::CancelRepeat,
        InputAction::SendUi(UiEvent::NoteChanged(None)),
    ]);
}

/// Releasing a key that is not the held one changes nothing and sends nothing.
pub proof fn law_release_other_key_ignored(h: KeyboardHandler, key: u32)
    requires
        h.active_key != Some(key),
    ensures
        spec_release_actions(h, key) == Seq::<InputAction>::empty(),
        spec_after_release(h, key) == h,
{
}

} // verus!

verus! {

/// Counting timers over two runs of actions is counting over the first, then the second.
pub proof fn lemma_timers_concat(n: nat, a: Seq<InputAction>, b: Seq<InputAction>)
    ensures
        timers_running(n, a + b) == timers_running(timers_running(n, a), b),
    decreases a.len(),
{
    if a.len() == 0 {
        assert(a + b =~= b);
    } else {
        let m = match a[0] {
            InputAction::CancelRepeat => 0,
            InputAction::StartRepeat(_) => n + 1,
            _ => n,
        };
        assert((a + b).drop_first() =~= a.drop_first() + b);
        lemma_timers_concat(m, a.drop_first(), b);
    }
}

/// Actions with no timer action leave the count of timers as it was.
pub proof fn lemma_timers_untouched(n: nat, a: Seq<InputAction>)
    requires
        forall|i: int| 0 <= i < a.len() ==> !(#[trigger] a[i] is CancelRepeat) && !(a[i] is StartRepeat),
    ensures
        timers_running(n, a) == n,
    decreases a.len(),
{
    if a.len() > 0 {
        assert(!(a[0] is CancelRepeat) && !(a[0] is StartRepeat));
        assert forall|i: int| 0 <= i < a.drop_first().len() implies
            !(#[trigger] a.drop_first()[i] is CancelRepeat) && !(a.drop_first()[i] is StartRepeat) by {
            assert(a.drop_first()[i] == a[i + 1]);
        }
        lemma_timers_untouched(n, a.drop_first());
    }
}

/// At most one repeat timer ever runs, and it runs exactly while the handler holds a
/// command to repeat: a press that takes over from a held key stops the old timer
/// before it starts the new one, and releasing the held key stops its timer,
/// whatever command it repeated.
pub proof fn law_one_repeat_timer(h: KeyboardHandler, key: u32, n: nat)
    requires
        n <= 1,
        n == 1 <==> h.repeating is Some,
    ensures
        timers_running(n, spec_press_actions(h, key)) <= 1,
        timers_running(n, spec_press_actions(h, key)) == 1 <==> spec_after_press(h, key).repeating is Some,
        timers_running(n, spec_release_actions(h, key)) <= 1,
        timers_running(n, spec_release_actions(h, key)) == 1 <==> spec_after_release(h, key).repeating is Some,
        h.active_key == Some(key) ==> timers_running(n, spec_release_actions(h, key)) == 0,
{
    reveal_with_fuel(timers_running, 3);
    if press_takes_effect(h, key) {
        let c = spec_key_to_command(key).unwrap();
        let cancel = if h.repeating.is_some() { seq![InputAction::CancelRepeat] } else { seq![] };
        let ui = match spec_ui_event_for(c) {
            Some(e) => seq![InputAction::SendUi(e)],
            None => seq![],
        };
        let tail = seq![InputAction::SendCommand(c), InputAction::StartRepeat(c)];
        lemma_timers_concat(n, cancel + ui, tail);
        lemma_timers_concat(n, cancel, ui);
        let n1 = timers_running(n, cancel);
        assert(n1 == 0) by {
            if h.repeating.is_some() {
                assert(cancel.drop_first().len() == 0);
            }
        }
        lemma_timers_untouched(n1, ui);
        assert(tail.drop_first().drop_first().len() == 0);
        assert(timers_running(0, tail) == 1);
    }
    if h.active_key == Some(key) {
        let cancel = if h.repeating.is_some() { seq![InputAction::CancelRepeat] } else { seq![] };
        let ui = seq![InputAction::SendUi(UiEvent::NoteChanged(None))];
        lemma_timers_concat(n, cancel, ui);
        if h.repeating.is_some() {
            assert(cancel.drop_first().len() == 0);
        }
        lemma_timers_untouched(timers_running(n, cancel), ui);
    }
}

/// A press that takes effect sends the command of the pressed key and repeats that
/// same command; nothing else is sent or repeated, and the widgets hear only of it.
pub proof fn law_press_sends_its_command(h: KeyboardHandler, key: u32)
    requires
        press_takes_effect(h, key),
    ensures
        ({
            let c = spec_key_to_command(key).unwrap();
            let a = spec_press_actions(h, key);
            &&& a.contains(InputAction::SendCommand(c))
            &&& a.contains(InputAction::StartRepeat(c))
            &&& forall|i: int| 0 <= i < a.len() && #[trigger] a[i] is SendCommand ==> a[i] == InputAction::SendCommand(c)
            &&& forall|i: int| 0 <= i < a.len() && #[trigger] a[i] is StartRepeat ==> a[i] == InputAction::StartRepeat(c)
            &&& forall|i: int| 0 <= i < a.len() && #[trigger] a[i] is SendUi ==> (c matches Command::ChangeNote(n) ==> a[i] == InputAction::SendUi(UiEvent::NoteChanged(Some(n))))
            &&& forall|i: int| 0 <= i < a.len() && #[trigger] a[i] is SendUi ==> (c matches Command::ChangeWaveForm(w) ==> a[i] == InputAction::SendUi(UiEvent::WaveFormChanged(w)))
            &&& forall|i: int| 0 <= i < a.len() && #[trigger] a[i] is SendUi ==> (c matches Command::ChangeOctave(o) ==> a[i] == InputAction::SendUi(UiEvent::OctaveChanged(o)))
            &&& (c matches Command::ChangeNote(n) ==> a.contains(InputAction::SendUi(UiEvent::NoteChanged(Some(n)))))
            &&& (c matches Command::ChangeWaveForm(w) ==> a.contains(InputAction::SendUi(UiEvent::WaveFormChanged(w))))
            &&& (c matches Command::ChangeOctave(o) ==> a.contains(InputAction::SendUi(UiEvent::OctaveChanged(o))))
            &&& (c is Quit ==> forall|i: int| 0 <= i < a.len() ==> !(#[trigger] a[i] is SendUi))
            &&& spec_press_propagation(h, key) == Propagation::Stop
            &&& spec_after_press(h, key).active_key == Some(key)
        }),
{
    let c = spec_key_to_command(key).unwrap();
    let a = spec_press_actions(h, key);
    assert(a[a.len() - 2] == InputAction::SendCommand(c));
    assert(a[a.len() - 1] == InputAction::StartRepeat(c));
    if spec_ui_event_for(c).is_some() {
        assert(a[a.len() - 3] == InputAction::SendUi(spec_ui_event_for(c).unwrap()));
    }
}

/// Releasing the held key always tells the widgets that no note is held any more.
pub proof fn law_release_ends_note(h: KeyboardHandler, key: u32)
    requires
        h.active_key == Some(key),
    ensures
        spec_release_actions(h, key).contains(InputAction::SendUi(UiEvent::NoteChanged(None))),
        spec_after_release(h, key).active_key is None,
        spec_after_release(h, key).repeating is None,
{
    let a = spec_release_actions(h, key);
    assert(a[a.len() - 1] == InputAction::SendUi(UiEvent::NoteChanged(None)));
}

} // verus!
