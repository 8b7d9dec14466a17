use gst_synth::generator::{SoundGenerator, SynthAction};
use gst_synth::pitch::{base_centi_hz, frequency_centi_hz};
use gst_synth::types::{Command, Note, Setting, WaveForm};

/// What the tone source would hold after performing the generator's actions.
struct Source {
    wave: &'static str,
    freq: f64,
}

fn perform(source: &mut Source, actions: &[SynthAction]) {
    for a in actions {
        match a {
            SynthAction::SetWave(w) => source.wave = w.nick(),
            SynthAction::SetFrequency { note, octave } => {
                source.freq = match frequency_centi_hz(*note, *octave) {
                    Some(c) => c as f64 / 100.0,
                    None => f64::from(base_centi_hz(*note)) / 100.0 * 2.0_f64.powi(*octave),
                };
            }
            _ => {}
        }
    }
}

fn new_source() -> Source {
    Source { wave: "saw", freq: 0.0 }
}

#[test]
fn change_waveform() {
    let mut generator = SoundGenerator::new();
    let mut source = new_source();
    for (wave, expected_nick) in [
        (WaveForm::Sine, "sine"),
        (WaveForm::Square, "square"),
        (WaveForm::Saw, "saw"),
        (WaveForm::Triangle, "triangle"),
    ] {
        let actions = generator.handle_command(Command::ChangeWaveForm(wave));
        perform(&mut source, &actions);
        assert_eq!(source.wave, expected_nick, "waveform mismatch for {wave:?}");
    }
    let actions = generator.handle_command(Command::Quit);
    assert_eq!(actions, vec![SynthAction::Stop]);
}

#[test]
fn change_note() {
    let mut generator = SoundGenerator::new();
    let mut source = new_source();
    generator.handle_command(Command::ChangeOctave(4));
    for (note, expected_freq) in [
        (Note::C, 261.63),
        (Note::CSharp, 277.18),
        (Note::D, 293.66),
        (Note::DSharp, 311.13),
        (Note::E, 329.63),
        (Note::F, 349.23),
        (Note::FSharp, 369.99),
        (Note::G, 392.0),
        (Note::GSharp, 415.3),
        (Note::A, 440.0),
        (Note::ASharp, 466.16),
        (Note::B, 493.88),
    ] {
        let actions = generator.handle_command(Command::ChangeNote(note));
        perform(&mut source, &actions);
        let freq = source.freq;
        assert!(
            (freq - expected_freq).abs() < 0.1,
            "expected {note:?}4 = {expected_freq} Hz, got {freq}"
        );
    }
    generator.handle_command(Command::Quit);
}

#[test]
fn change_octave() {
    let mut generator = SoundGenerator::new();
    let mut source = new_source();
    for (octave, expected_freq) in [
        (1, 55.0),
        (2, 110.0),
        (3, 220.0),
        (4, 440.0),
        (5, 880.0),
        (6, 1760.0),
        (7, 3520.0),
        (8, 7040.0),
    ] {
        generator.handle_command(Command::ChangeOctave(octave));
        let actions = generator.handle_command(Command::ChangeNote(Note::A));
        perform(&mut source, &actions);
        let freq = source.freq;
        assert!(
            (freq - expected_freq).abs() < 0.1,
            "expected A{octave} = {expected_freq} Hz, got {freq}"
        );
    }
    generator.handle_command(Command::Quit);
}

#[test]
fn first_note_starts_envelope_without_abort() {
    let mut generator = SoundGenerator::new();
    let actions = generator.handle_command(Command::ChangeNote(Note::E));
    assert_eq!(
        actions,
        vec![
            SynthAction::Attack { attack_time: 100_000_000 },
            SynthAction::SetFrequency { note: Note::E, octave: 4 },
            SynthAction::StartRelease { release_time: 3_000_000_000 },
        ]
    );
    assert!(generator.release_pending);
}

#[test]
fn second_note_aborts_previous_release() {
    let mut generator = SoundGenerator::new();
    generator.handle_command(Command::ChangeNote(Note::E));
    let actions = generator.handle_command(Command::ChangeNote(Note::G));
    assert_eq!(actions[0], SynthAction::AbortRelease);
    assert_eq!(actions.len(), 4);
    assert_eq!(actions[2], SynthAction::SetFrequency { note: Note::G, octave: 4 });
}

#[test]
fn same_wave_form_is_not_resent() {
    let mut generator = SoundGenerator::new();
    assert!(generator.handle_command(Command::ChangeWaveForm(WaveForm::Saw)).is_empty());
    assert_eq!(
        generator.handle_command(Command::ChangeWaveForm(WaveForm::Square)),
        vec![SynthAction::SetWave(WaveForm::Square)]
    );
    assert!(generator.handle_command(Command::ChangeWaveForm(WaveForm::Square)).is_empty());
}

#[test]
fn settings_apply_to_next_note() {
    let mut generator = SoundGenerator::new();
    assert!(generator
        .handle_command(Command::ChangeSetting(Setting::AttackTime(250_000_000)))
        .is_empty());
    assert!(generator
        .handle_command(Command::ChangeSetting(Setting::ReleaseTime(1_000_000_000)))
        .is_empty());
    let actions = generator.handle_command(Command::ChangeNote(Note::A));
    assert_eq!(actions[0], SynthAction::Attack { attack_time: 250_000_000 });
    assert_eq!(actions[2], SynthAction::StartRelease { release_time: 1_000_000_000 });
}

#[test]
fn quit_ignores_later_commands() {
    let mut generator = SoundGenerator::new();
    assert_eq!(generator.handle_command(Command::Quit), vec![SynthAction::Stop]);
    assert!(generator.stopped);
    let before = generator;
    assert!(generator.handle_command(Command::ChangeNote(Note::C)).is_empty());
    assert!(generator.handle_command(Command::Quit).is_empty());
    assert_eq!(generator, before);
}

#[test]
fn exact_frequencies() {
    assert_eq!(frequency_centi_hz(Note::A, 4), Some(44000));
    assert_eq!(frequency_centi_hz(Note::C, 0), Some(1635));
    assert_eq!(frequency_centi_hz(Note::B, 1), Some(6174));
    assert_eq!(frequency_centi_hz(Note::A, -1), None);
    assert_eq!(frequency_centi_hz(Note::A, 200), None);
    assert_eq!(frequency_centi_hz(Note::C, 53), Some(1635u64 << 53));
    assert_eq!(frequency_centi_hz(Note::C, 54), None);
}

#[test]
fn wave_form_names() {
    assert_eq!(WaveForm::Sine.nick(), "sine");
    assert_eq!(WaveForm::Square.nick(), "square");
    assert_eq!(WaveForm::Saw.nick(), "saw");
    assert_eq!(WaveForm::Triangle.nick(), "triangle");
    assert_eq!(WaveForm::default(), WaveForm::Saw);
}
