//! The tone generator: how each command changes its state and what it asks the
//! audio elements to do.
//!
//! The application receives the commands, feeds them one by one to
//! [`SoundGenerator::handle_command`] and performs the returned actions in order.

use vstd::prelude::*;
use crate::types::{
    Command, Note, Setting, WaveForm, spec_nick, ATTACK_TIME_DEFAULT, OCTAVE_DEFAULT,
    RELEASE_TIME_DEFAULT,
};

verus! {

/// Something the generator asks of the audio elements.
#[derive(Clone, Copy, PartialEq, Eq, Structural, Debug)]
pub enum SynthAction {
    /// Cancel the fade-out that the last note started.
    AbortRelease,
    /// Raise the volume one attack step, for an attack lasting `attack_time` nanoseconds.
    Attack { attack_time: u64 },
    /// Tune the tone source to `note` in `octave`.
    SetFrequency { note: Note, octave: i32 },
    /// Start the fade-out of the note just played, lasting `release_time` nanoseconds.
    StartRelease { release_time: u64 },
    /// Switch the tone source to this wave form.
    SetWave(WaveForm),
    /// Stop handling commands.
    Stop,
}

/// The state of the tone generator.
#[derive(Clone, Copy, PartialEq, Eq, Structural, Debug)]
pub struct SoundGenerator {
    /// The octave in which notes are played.
    pub octave: i32,
    /// The wave form the tone source was last switched to.
    pub wave_form: WaveForm,
    /// Attack time, in nanoseconds.
    pub attack_time: u64,
    /// Release time, in nanoseconds.
    pub release_time: u64,
    /// Whether a note has started a fade-out whose handle is still held.
    pub release_pending: bool,
    /// Whether a `Quit` command has been handled.
    pub stopped: bool,
}

/// The generator as it starts: default octave, the saw wave, default envelope times.
pub open spec fn spec_new_generator() -> SoundGenerator {
    SoundGenerator {
        octave: OCTAVE_DEFAULT,
        wave_form: WaveForm::Saw,
        attack_time: ATTACK_TIME_DEFAULT,
        release_time: RELEASE_TIME_DEFAULT,
        release_pending: false,
        stopped: false,
    }
}

/// The actions that playing `note` from state `s` asks for.
pub open spec fn spec_note_actions(s: SoundGenerator, note: Note) -> Seq<SynthAction> {
    let played = seq![
        SynthAction::Attack { attack_time: s.attack_time },
        SynthAction::SetFrequency { note: note, octave: s.octave },
        SynthAction::StartRelease { release_time: s.release_time },
    ];
    if s.release_pending {
        seq![SynthAction::AbortRelease] + played
    } else {
        played
    }
}

/// The state after handling `c` in state `s`.
pub open spec fn spec_next(s: SoundGenerator, c: Command) -> SoundGenerator {
    if s.stopped {
        s
    } else {
        match c {
            Command::Quit => SoundGenerator { stopped: true, ..s },
            Command::ChangeNote(_) => SoundGenerator { release_pending: true, ..s },
            Command::ChangeWaveForm(w) => SoundGenerator { wave_form: w, ..s },
            Command::ChangeOctave(o) => SoundGenerator { octave: o, ..s },
            Command::ChangeSetting(Setting::AttackTime(t)) => SoundGenerator { attack_time: t, ..s },
            Command::ChangeSetting(Setting::ReleaseTime(t)) => SoundGenerator { release_time: t, ..s },
        }
    }
}

/// The actions that handling `c` in state `s` asks for, in order.
pub open spec fn spec_actions(s: SoundGenerator, c: Command) -> Seq<SynthAction> {
    if s.stopped {
        seq![]
    } else {
        match c {
            Command::Quit => seq![SynthAction::Stop],
            Command::ChangeNote(note) => spec_note_actions(s, note),
            Command::ChangeWaveForm(w) => if spec_nick(w) != spec_nick(s.wave_form) {
                seq![SynthAction::SetWave(w)]
            } else {
                seq![]
            },
            Command::ChangeOctave(_) => seq![],
            Command::ChangeSetting(_) => seq![],
        }
    }
}

impl SoundGenerator {
    /// Returns the generator as it starts.
    pub fn new() -> (g: SoundGenerator)
        ensures
            g == spec_new_generator(),
    {
        SoundGenerator {
            octave: OCTAVE_DEFAULT,
            wave_form: WaveForm::Saw,
            attack_time: ATTACK_TIME_DEFAULT,
            release_time: RELEASE_TIME_DEFAULT,
            release_pending: false,
            stopped: false,
        }
    }

    /// Handles one command and returns, in order, what the audio elements must do.
    ///
    /// A note cancels the fade-out of the previous note, raises the volume one
    /// attack step, tunes the source and starts its own fade-out. A wave form is
    /// passed on only when it differs from the current one. Octave and envelope
    /// settings only change the state. `Quit` stops the generator, which then
    /// ignores every further command.
    pub fn handle_command(&mut self, command: Command) -> (actions: Vec<SynthAction>)
        ensures
            *final(self) == spec_next(*old(self), command),
            actions@ == spec_actions(*old(self), command),
    {
        let mut actions: Vec<SynthAction> = Vec::new();
        if self.stopped {
            return actions;
        }
        match command {
            Command::Quit => {
                self.stopped = true;
                actions.push(SynthAction::Stop);
            },
            Command::ChangeNote(note) => {
                if self.release_pending {
                    actions.push(SynthAction::AbortRelease);
                }
                actions.push(SynthAction::Attack { attack_time: self.attack_time });
                actions.push(SynthAction::SetFrequency { note: note, octave: self.octave });
                actions.push(SynthAction::StartRelease { release_time: self.release_time });
                self.release_pending = true;
                proof {
                    if old(self).release_pending {
                        assert(actions@ =~= spec_note_actions(*old(self), note));
                    } else {
                        assert(actions@ =~= spec_note_actions(*old(self), note));
                    }
                }
            },
            Command::ChangeWaveForm(wave) => {
                let name = wave.nick();
                let current = self.wave_form.nick();
                if !str_equal(name, current) {
                    self.wave_form = wave;
                    actions.push(SynthAction::SetWave(wave));
                }
                proof {
                    crate::types::law_nick_injective(wave, old(self).wave_form);
                }
            },
            Command::ChangeOctave(value) => {
                self.octave = value;
            },
            Command::ChangeSetting(setting) => match setting {
                Setting::AttackTime(duration) => self.attack_time = duration,
                Setting::ReleaseTime(duration) => self.release_time = duration,
            },
        }
        actions
    }
}

/// Returns whether two strings hold the same characters.
fn str_equal(a: &str, b: &str) -> (r: bool)
    ensures
        r == (a@ == b@),
{
    let na = a.unicode_len();
    let nb = b.unicode_len();
    if na != nb {
        return false;
    }
    let mut i: usize = 0;
    while i < na
        invariant
            na == a@.len(),
            nb == b@.len(),
            na == nb,
            i <= na,
            forall|j: int| 0 <= j < i ==> a@[j] == b@[j],
        decreases na - i,
    {
        if a.get_char(i) != b.get_char(i) {
            return false;
        }
        i = i + 1;
    }
    assert(a@ =~= b@);
    true
}

} // verus!

verus! {

/// A note is played in the octave that the last octave command chose.
pub proof fn law_note_in_chosen_octave(s: SoundGenerator, octave: i32, note: Note)
    requires
        !s.stopped,
    ensures
        ({
            let t = spec_next(s, Command::ChangeOctave(octave));
            spec_actions(t, Command::ChangeNote(note)).contains(
                SynthAction::SetFrequency { note: note, octave: octave },
            )
        }),
{
    let t = spec_next(s, Command::ChangeOctave(octave));
    let a = spec_actions(t, Command::ChangeNote(note));
    if t.release_pending {
        assert(a[2] == SynthAction::SetFrequency { note: note, octave: octave });
    } else {
        assert(a[1] == SynthAction::SetFrequency { note: note, octave: octave });
    }
}

/// Asking twice for the same wave form switches the tone source at most once:
/// the second request changes nothing and asks for nothing.
pub proof fn law_wave_form_idempotent(s: SoundGenerator, w: WaveForm)
    ensures
        ({
            let t = spec_next(s, Command::ChangeWaveForm(w));
            &&& spec_actions(t, Command::ChangeWaveForm(w)) == Seq::<SynthAction>::empty()
            &&& spec_next(t, Command::ChangeWaveForm(w)) == t
        }),
{
    crate::types::law_nick_injective(w, s.wave_form);
}

/// After `Quit` the generator ignores every command: it asks for nothing and its state stays.
pub proof fn law_quit_is_final(s: SoundGenerator, c: Command)
    ensures
        ({
            let t = spec_next(s, Command::Quit);
            &&& t.stopped
            &&& spec_actions(t, c) == Seq::<SynthAction>::empty()
            &&& spec_next(t, c) == t
        }),
{
}

/// Octave and envelope commands only change the state; the sound changes with the next note.
pub proof fn law_settings_are_silent(s: SoundGenerator, c: Command)
    requires
        c is ChangeOctave || c is ChangeSetting,
    ensures
        spec_actions(s, c) == Seq::<SynthAction>::empty(),
{
}

/// A note is attacked and released with the envelope times last set.
pub proof fn law_note_uses_latest_envelope(s: SoundGenerator, attack: u64, release: u64, note: Note)
    requires
        !s.stopped,
    ensures
        ({
            let t1 = spec_next(s, Command::ChangeSetting(Setting::AttackTime(attack)));
            let t2 = spec_next(t1, Command::ChangeSetting(Setting::ReleaseTime(release)));
            let a = spec_actions(t2, Command::ChangeNote(note));
            &&& a.contains(SynthAction::Attack { attack_time: attack })
            &&& a.contains(SynthAction::StartRelease { release_time: release })
        }),
{
    let t1 = spec_next(s, Command::ChangeSetting(Setting::AttackTime(attack)));
    let t2 = spec_next(t1, Command::ChangeSetting(Setting::ReleaseTime(release)));
    let a = spec_actions(t2, Command::ChangeNote(note));
    let k: int = if t2.release_pending { 1 } else { 0 };
    assert(a[k] == SynthAction::Attack { attack_time: attack });
    assert(a[k + 2] == SynthAction::StartRelease { release_time: release });
}

/// The number of fade-outs running after the actions `a`, when `n` ran before them.
pub open spec fn releases_running(n: nat, a: Seq<SynthAction>) -> nat
    decreases a.len(),
{
    if a.len() == 0 {
        n
    } else {
        let m = match a[0] {
            SynthAction::AbortRelease => 0,
            SynthAction::StartRelease { .. } => n + 1,
            _ => n,
        };
        releases_running(m, a.drop_first())
    }
}

/// At most one fade-out runs at a time: if at most one ran before a command, and
/// one runs only while its handle is held, the same holds after the command.
pub proof fn law_one_release_at_a_time(s: SoundGenerator, n: nat, c: Command)
    requires
        n <= 1,
        n == 1 ==> s.release_pending,
    ensures
        releases_running(n, spec_actions(s, c)) <= 1,
        releases_running(n, spec_actions(s, c)) == 1 ==> spec_next(s, c).release_pending,
{
    let a = spec_actions(s, c);
    reveal_with_fuel(releases_running, 5);
    if !s.stopped {
        match c {
            Command::ChangeNote(note) => {
                if s.release_pending {
                    assert(a.drop_first().drop_first().drop_first().drop_first().len() == 0);
                } else {
                    assert(a.drop_first().drop_first().drop_first().len() == 0);
                }
            },
            Command::ChangeWaveForm(w) => {
                if a.len() > 0 {
                    assert(a.drop_first().len() == 0);
                }
            },
            Command::Quit => {
                assert(a.drop_first().len() == 0);
            },
            _ => {},
        }
    }
}

} // verus!

verus! {

/// Changing the attack time changes nothing but the attack time, and changing the
/// release time nothing but the release time; neither asks anything of the audio.
pub proof fn law_setting_changes_only_its_time(s: SoundGenerator, t: u64)
    requires
        !s.stopped,
    ensures
        ({
            let a = spec_next(s, Command::ChangeSetting(Setting::AttackTime(t)));
            &&& a.attack_time == t
            &&& a.release_time == s.release_time
            &&& a.octave == s.octave
            &&& a.wave_form == s.wave_form
            &&& a.release_pending == s.release_pending
            &&& a.stopped == s.stopped
        }),
        ({
            let r = spec_next(s, Command::ChangeSetting(Setting::ReleaseTime(t)));
            &&& r.release_time == t
            &&& r.attack_time == s.attack_time
            &&& r.octave == s.octave
            &&& r.wave_form == s.wave_form
            &&& r.release_pending == s.release_pending
            &&& r.stopped == s.stopped
        }),
        spec_actions(s, Command::ChangeSetting(Setting::AttackTime(t))).len() == 0,
        spec_actions(s, Command::ChangeSetting(Setting::ReleaseTime(t))).len() == 0,
{
}

/// The two envelope times are independent: a note after a new attack time still
/// fades out over the release time it had, and after a new release time is still
/// attacked as before.
pub proof fn law_envelope_times_independent(s: SoundGenerator, t: u64, note: Note)
    requires
        !s.stopped,
    ensures
        spec_actions(spec_next(s, Command::ChangeSetting(Setting::AttackTime(t))), Command::ChangeNote(note))
            .contains(SynthAction::StartRelease { release_time: s.release_time }),
        spec_actions(spec_next(s, Command::ChangeSetting(Setting::ReleaseTime(t))), Command::ChangeNote(note))
            .contains(SynthAction::Attack { attack_time: s.attack_time }),
{
    let a = spec_actions(spec_next(s, Command::ChangeSetting(Setting::AttackTime(t))), Command::ChangeNote(note));
    let b = spec_actions(spec_next(s, Command::ChangeSetting(Setting::ReleaseTime(t))), Command::ChangeNote(note));
    assert(a[a.len() - 1] == SynthAction::StartRelease { release_time: s.release_time });
    assert(b[b.len() - 3] == SynthAction::Attack { attack_time: s.attack_time });
}

/// A note tunes the source to that note in the current octave and to nothing else,
/// attacks with the current attack time, fades out over the current release time,
/// cancels the previous fade-out exactly when one was pending, and changes nothing
/// in the state but recording its own fade-out.
pub proof fn law_note_plays_exactly_it(s: SoundGenerator, note: Note)
    requires
        !s.stopped,
    ensures
        ({
            let a = spec_actions(s, Command::ChangeNote(note));
            let t = spec_next(s, Command::ChangeNote(note));
            &&& a.contains(SynthAction::SetFrequency { note: note, octave: s.octave })
            &&& forall|i: int| 0 <= i < a.len() && #[trigger] a[i] is SetFrequency
                ==> a[i] == SynthAction::SetFrequency { note: note, octave: s.octave }
            &&& forall|i: int| 0 <= i < a.len() && #[trigger] a[i] is Attack
                ==> a[i] == SynthAction::Attack { attack_time: s.attack_time }
            &&& forall|i: int| 0 <= i < a.len() && #[trigger] a[i] is StartRelease
                ==> a[i] == SynthAction::StartRelease { release_time: s.release_time }
            &&& a.contains(SynthAction::Attack { attack_time: s.attack_time })
            &&& a.last() == SynthAction::StartRelease { release_time: s.release_time }
            &&& (a.contains(SynthAction::AbortRelease) <==> s.release_pending)
            &&& !a.contains(SynthAction::Stop)
            &&& forall|i: int| 0 <= i < a.len() ==> !(#[trigger] a[i] is SetWave)
            &&& t.release_pending
            &&& t.octave == s.octave && t.wave_form == s.wave_form
            &&& t.attack_time == s.attack_time && t.release_time == s.release_time
            &&& !t.stopped
        }),
{
    let a = spec_actions(s, Command::ChangeNote(note));
    if s.release_pending {
        assert(a[1] == SynthAction::Attack { attack_time: s.attack_time });
        assert(a[2] == SynthAction::SetFrequency { note: note, octave: s.octave });
        assert(a[0] == SynthAction::AbortRelease);
    } else {
        assert(a[0] == SynthAction::Attack { attack_time: s.attack_time });
        assert(a[1] == SynthAction::SetFrequency { note: note, octave: s.octave });
        assert(!a.contains(SynthAction::AbortRelease)) by {
            if a.contains(SynthAction::AbortRelease) {
                let i = choose|i: int| 0 <= i < a.len() && a[i] == SynthAction::AbortRelease;
            }
        }
    }
    assert(!a.contains(SynthAction::Stop)) by {
        if a.contains(SynthAction::Stop) {
            let i = choose|i: int| 0 <= i < a.len() && a[i] == SynthAction::Stop;
        }
    }
}

/// An octave command changes only the octave, to exactly the one asked for.
pub proof fn law_octave_changes_only_octave(s: SoundGenerator, o: i32)
    requires
        !s.stopped,
    ensures
        spec_next(s, Command::ChangeOctave(o)) == (SoundGenerator { octave: o, ..s }),
        spec_next(s, Command::ChangeOctave(o)).octave == o,
        spec_next(s, Command::ChangeOctave(o)).release_time == s.release_time,
        spec_next(s, Command::ChangeOctave(o)).attack_time == s.attack_time,
        spec_next(s, Command::ChangeOctave(o)).wave_form == s.wave_form,
{
}

/// A wave-form command switches the source to that wave form exactly when it is a
/// different one, and otherwise changes only the recorded wave form.
pub proof fn law_wave_form_switches_to_it(s: SoundGenerator, w: WaveForm)
    requires
        !s.stopped,
    ensures
        spec_next(s, Command::ChangeWaveForm(w)).wave_form == w,
        spec_next(s, Command::ChangeWaveForm(w)).octave == s.octave,
        spec_next(s, Command::ChangeWaveForm(w)).attack_time == s.attack_time,
        spec_next(s, Command::ChangeWaveForm(w)).release_time == s.release_time,
        spec_next(s, Command::ChangeWaveForm(w)).release_pending == s.release_pending,
        w != s.wave_form ==> spec_actions(s, Command::ChangeWaveForm(w)) == seq![SynthAction::SetWave(w)],
        w == s.wave_form ==> spec_actions(s, Command::ChangeWaveForm(w)).len() == 0,
{
    crate::types::law_nick_injective(w, s.wave_form);
}

/// `Quit` asks for exactly one thing, to stop, and stops the generator.
pub proof fn law_quit_stops(s: SoundGenerator)
    requires
        !s.stopped,
    ensures
        spec_actions(s, Command::Quit) == seq![SynthAction::Stop],
        spec_next(s, Command::Quit).stopped,
{
}

} // verus!
