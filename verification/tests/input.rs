use gst_synth::envelope::{release_step_interval, RELEASE_STEPS, SUSTAIN_TIME};
use gst_synth::keyboard::{ui_event_for, InputAction, KeyboardHandler, Propagation};
use gst_synth::keymap::key_to_command;
use gst_synth::octave::OctaveSelector;
use gst_synth::piano_key::{HighlightAction, NoteHighlight, PianoKey};
use gst_synth::types::{Command, Note, UiEvent, WaveForm, OCTAVE_MAX, OCTAVE_MIN};
use gst_synth::waveform_select::{waveform_buttons, ButtonAction, WaveformSelection};

const KEY_A: u32 = 0x61;
const KEY_Q: u32 = 0x71;
const KEY_Y: u32 = 0x79;
const KEY_Z: u32 = 0x7a;
const KEY_V: u32 = 0x76;
const KEY_3: u32 = 0x33;
const KEY_UPPER_A: u32 = 0x41;

#[test]
fn key_map_examples() {
    assert_eq!(key_to_command(KEY_Q), Some(Command::Quit));
    assert_eq!(key_to_command(KEY_A), Some(Command::ChangeNote(Note::C)));
    assert_eq!(key_to_command(KEY_Z), Some(Command::ChangeNote(Note::GSharp)));
    assert_eq!(key_to_command(KEY_Y), Some(Command::ChangeNote(Note::GSharp)));
    assert_eq!(key_to_command(0x6a), Some(Command::ChangeNote(Note::B)));
    assert_eq!(key_to_command(KEY_V), Some(Command::ChangeWaveForm(WaveForm::Saw)));
    assert_eq!(key_to_command(0x6d), Some(Command::ChangeWaveForm(WaveForm::Sine)));
    assert_eq!(key_to_command(KEY_3), Some(Command::ChangeOctave(3)));
    assert_eq!(key_to_command(0x37), Some(Command::ChangeOctave(7)));
    assert_eq!(key_to_command(0x38), None);
    assert_eq!(key_to_command(0x30), None);
    assert_eq!(key_to_command(KEY_UPPER_A), None);
    assert_eq!(key_to_command(0x78), None);
}

#[test]
fn ui_events_for_commands() {
    assert_eq!(
        ui_event_for(Command::ChangeNote(Note::D)),
        Some(UiEvent::NoteChanged(Some(Note::D)))
    );
    assert_eq!(ui_event_for(Command::ChangeOctave(5)), Some(UiEvent::OctaveChanged(5)));
    assert_eq!(
        ui_event_for(Command::ChangeWaveForm(WaveForm::Triangle)),
        Some(UiEvent::WaveFormChanged(WaveForm::Triangle))
    );
    assert_eq!(ui_event_for(Command::Quit), None);
}

#[test]
fn keyboard_press_and_release() {
    let mut h = KeyboardHandler::new();
    let r = h.key_pressed(KEY_A);
    assert_eq!(r.propagation, Propagation::Stop);
    let c = Command::ChangeNote(Note::C);
    assert_eq!(
        r.actions,
        vec![
            InputAction::SendUi(UiEvent::NoteChanged(Some(Note::C))),
            InputAction::SendCommand(c),
            InputAction::StartRepeat(c),
        ]
    );
    // The system repeats the held key: swallowed.
    let r = h.key_pressed(KEY_A);
    assert_eq!(r.propagation, Propagation::Stop);
    assert!(r.actions.is_empty());
    // Releasing another key does nothing.
    assert!(h.key_released(KEY_Z).is_empty());
    let actions = h.key_released(KEY_A);
    assert_eq!(
        actions,
        vec![InputAction::CancelRepeat, InputAction::SendUi(UiEvent::NoteChanged(None))]
    );
    assert_eq!(h, KeyboardHandler::new());
}

#[test]
fn keyboard_switching_keys_cancels_timer() {
    let mut h = KeyboardHandler::new();
    h.key_pressed(KEY_A);
    let r = h.key_pressed(KEY_3);
    assert_eq!(
        r.actions,
        vec![
            InputAction::CancelRepeat,
            InputAction::SendUi(UiEvent::OctaveChanged(3)),
            InputAction::SendCommand(Command::ChangeOctave(3)),
            InputAction::StartRepeat(Command::ChangeOctave(3)),
        ]
    );
    assert_eq!(h.active_key, Some(KEY_3));
    // The first key is no longer the held one: its release does nothing.
    assert!(h.key_released(KEY_A).is_empty());
}

#[test]
fn keyboard_unknown_key_proceeds() {
    let mut h = KeyboardHandler::new();
    let r = h.key_pressed(KEY_UPPER_A);
    assert_eq!(r.propagation, Propagation::Proceed);
    assert!(r.actions.is_empty());
    assert_eq!(h, KeyboardHandler::new());
}

#[test]
fn keyboard_quit_has_no_ui_event() {
    let mut h = KeyboardHandler::new();
    let r = h.key_pressed(KEY_Q);
    assert_eq!(
        r.actions,
        vec![InputAction::SendCommand(Command::Quit), InputAction::StartRepeat(Command::Quit)]
    );
}

#[test]
fn octave_buttons() {
    let mut s = OctaveSelector::new();
    assert_eq!(s.value, 4);
    assert_eq!(s.up(), Some(Command::ChangeOctave(5)));
    assert_eq!(s.up(), Some(Command::ChangeOctave(6)));
    assert_eq!(s.up(), Some(Command::ChangeOctave(7)));
    assert_eq!(s.up(), None);
    assert_eq!(s.value, OCTAVE_MAX);
    s.show(2);
    assert_eq!(s.down(), Some(Command::ChangeOctave(1)));
    assert_eq!(s.down(), None);
    assert_eq!(s.value, OCTAVE_MIN);
    assert_eq!(s.up(), Some(Command::ChangeOctave(2)));
}

#[test]
fn piano_key_repeat() {
    let mut k = PianoKey::new(Note::F);
    let c = Command::ChangeNote(Note::F);
    assert_eq!(
        k.pressed(),
        vec![InputAction::MarkActive, InputAction::SendCommand(c), InputAction::StartRepeat(c)]
    );
    assert_eq!(k.pressed(), vec![InputAction::MarkActive]);
    assert_eq!(k.released(), vec![InputAction::MarkInactive, InputAction::CancelRepeat]);
    assert_eq!(k.released(), vec![InputAction::MarkInactive]);
    assert!(!k.repeating);
}

#[test]
fn note_highlight() {
    let mut h = NoteHighlight::new();
    assert_eq!(h.show(Some(Note::C)), vec![HighlightAction::Mark(Note::C)]);
    assert_eq!(
        h.show(Some(Note::D)),
        vec![HighlightAction::Unmark(Note::C), HighlightAction::Mark(Note::D)]
    );
    assert_eq!(h.show(None), vec![HighlightAction::Unmark(Note::D)]);
    assert!(h.show(None).is_empty());
}

#[test]
fn waveform_buttons_and_selection() {
    assert_eq!(
        waveform_buttons(),
        vec![WaveForm::Saw, WaveForm::Square, WaveForm::Triangle, WaveForm::Sine]
    );
    let mut s = WaveformSelection::new();
    assert_eq!(s.selected, Some(WaveForm::Saw));
    assert_eq!(
        s.clicked(WaveForm::Sine),
        vec![
            ButtonAction::Deselect(WaveForm::Saw),
            ButtonAction::Select(WaveForm::Sine),
            ButtonAction::Send(Command::ChangeWaveForm(WaveForm::Sine)),
        ]
    );
    assert_eq!(
        s.show(WaveForm::Square),
        vec![ButtonAction::Deselect(WaveForm::Sine), ButtonAction::Select(WaveForm::Square)]
    );
    assert_eq!(s.selected, Some(WaveForm::Square));
}

#[test]
fn release_timing() {
    assert_eq!(RELEASE_STEPS, 100);
    assert_eq!(SUSTAIN_TIME, 50_000_000);
    assert_eq!(release_step_interval(3_000_000_000), 30_000_000);
    assert_eq!(release_step_interval(99), 0);
    assert_eq!(release_step_interval(12_345), 123);
}
