//! The pitch of a note: a base frequency for octave 0, doubled once per octave.
//!
//! Frequencies are counted in hundredths of a hertz, the precision of the
//! base table, so that every pitch of a non-negative octave is an exact integer.

use vstd::prelude::*;
use crate::types::Note;

verus! {

/// The frequency of a note in octave 0, in hundredths of a hertz.
pub open spec fn spec_base_centi_hz(note: Note) -> nat {
    match note {
        Note::C => 1635,
        Note::CSharp => 1732,
        Note::D => 1835,
        Note::DSharp => 1945,
        Note::E => 2060,
        Note::F => 2183,
        Note::FSharp => 2312,
        Note::G => 2450,
        Note::GSharp => 2596,
        Note::A => 2750,
        Note::ASharp => 2914,
        Note::B => 3087,
    }
}

/// Two to the power `n`.
pub open spec fn pow2(n: nat) -> nat
    decreases n,
{
    if n == 0 {
        1
    } else {
        2 * pow2((n - 1) as nat)
    }
}

/// The frequency of `note` in the non-negative octave `octave`, in hundredths of a hertz.
pub open spec fn spec_frequency_centi_hz(note: Note, octave: nat) -> nat {
    spec_base_centi_hz(note) * pow2(octave)
}

/// Returns the frequency of `note` in octave 0, in hundredths of a hertz.
pub fn base_centi_hz(note: Note) -> (f: u32)
    ensures
        f == spec_base_centi_hz(note),
{
    match note {
        Note::C => 1635,
        Note::CSharp => 1732,
        Note::D => 1835,
        Note::DSharp => 1945,
        Note::E => 2060,
        Note::F => 2183,
        Note::FSharp => 2312,
        Note::G => 2450,
        Note::GSharp => 2596,
        Note::A => 2750,
        Note::ASharp => 2914,
        Note::B => 3087,
    }
}

/// Powers of two grow with the exponent.
pub proof fn lemma_pow2_monotone(a: nat, b: nat)
    requires
        a <= b,
    ensures
        pow2(a) <= pow2(b),
        pow2(a) >= 1,
    decreases b,
{
    if b > 0 {
        if a < b {
            lemma_pow2_monotone(a, (b - 1) as nat);
        } else {
            lemma_pow2_monotone((b - 1) as nat, (b - 1) as nat);
        }
    }
}

/// Returns the frequency of `note` in `octave`, in hundredths of a hertz:
/// the base frequency doubled `octave` times. It is `None` exactly where that
/// value is no integer of `u64`: below octave 0, or past `u64::MAX`.
pub fn frequency_centi_hz(note: Note, octave: i32) -> (r: Option<u64>)
    ensures
        octave < 0 ==> r is None,
        octave >= 0 ==> (r is Some <==> spec_frequency_centi_hz(note, octave as nat) <= u64::MAX),
        r matches Some(f) ==> octave >= 0 && f == spec_frequency_centi_hz(note, octave as nat),
{
    if octave < 0 {
        return None;
    }
    let base = base_centi_hz(note) as u64;
    let mut f: u64 = base;
    let mut i: i32 = 0;
    while i < octave
        invariant
            0 <= i <= octave,
            f == spec_base_centi_hz(note) * pow2(i as nat),
        decreases octave - i,
    {
        if f > u64::MAX / 2 {
            proof {
                let b = spec_base_centi_hz(note);
                lemma_pow2_monotone((i + 1) as nat, octave as nat);
                assert(pow2((i + 1) as nat) == 2 * pow2(i as nat));
                assert(b * pow2((i + 1) as nat) == 2 * f) by (nonlinear_arith)
                    requires
                        pow2((i + 1) as nat) == 2 * pow2(i as nat),
                        f == b * pow2(i as nat),
                ;
                assert(b * pow2((i + 1) as nat) <= b * pow2(octave as nat)) by (nonlinear_arith)
                    requires
                        pow2((i + 1) as nat) <= pow2(octave as nat),
                ;
            }
            return None;
        }
        proof {
            assert(pow2((i + 1) as nat) == 2 * pow2(i as nat));
            assert(spec_base_centi_hz(note) * pow2((i + 1) as nat) == 2 * f) by (nonlinear_arith)
                requires
                    pow2((i + 1) as nat) == 2 * pow2(i as nat),
                    f == spec_base_centi_hz(note) * pow2(i as nat),
            ;
        }
        f = f * 2;
        i = i + 1;
    }
    Some(f)
}

/// One octave up doubles the frequency.
pub proof fn law_octave_doubles(note: Note, octave: nat)
    ensures
        spec_frequency_centi_hz(note, octave + 1) == 2 * spec_frequency_centi_hz(note, octave),
{
    assert(pow2(octave + 1) == 2 * pow2(octave));
    let b = spec_base_centi_hz(note);
    assert(b * pow2(octave + 1) == 2 * (b * pow2(octave))) by (nonlinear_arith)
        requires
            pow2(octave + 1) == 2 * pow2(octave),
    ;
}

/// The A of octave 4 is tuned to 440 Hz.
pub proof fn law_concert_pitch()
    ensures
        spec_frequency_centi_hz(Note::A, 4) == 44000,
{
    reveal_with_fuel(pow2, 5);
}

/// Within an octave, the notes rise in pitch from C to B.
pub proof fn law_notes_ascend(a: Note, b: Note, octave: nat)
    requires
        note_index(a) < note_index(b),
    ensures
        spec_frequency_centi_hz(a, octave) < spec_frequency_centi_hz(b, octave),
{
    lemma_pow2_monotone(0, octave);
    let p = pow2(octave);
    assert(spec_base_centi_hz(a) < spec_base_centi_hz(b));
    assert(spec_base_centi_hz(a) * p < spec_base_centi_hz(b) * p) by (nonlinear_arith)
        requires
            spec_base_centi_hz(a) < spec_base_centi_hz(b),
            p >= 1,
    ;
}

/// The position of a note within its octave, from 0 for C to 11 for B.
pub open spec fn note_index(note: Note) -> int {
    match note {
        Note::C => 0,
        Note::CSharp => 1,
        Note::D => 2,
        Note::DSharp => 3,
        Note::E => 4,
        Note::F => 5,
        Note::FSharp => 6,
        Note::G => 7,
        Note::GSharp => 8,
        Note::A => 9,
        Note::ASharp => 10,
        Note::B => 11,
    }
}

} // verus!

verus! {

/// The note a semitone above `note` within the octave (B has none).
pub open spec fn next_note(note: Note) -> Option<Note> {
    match note {
        Note::C => Some(Note::CSharp),
        Note::CSharp => Some(Note::D),
        Note::D => Some(Note::DSharp),
        Note::DSharp => Some(Note::E),
        Note::E => Some(Note::F),
        Note::F => Some(Note::FSharp),
        Note::FSharp => Some(Note::G),
        Note::G => Some(Note::GSharp),
        Note::GSharp => Some(Note::A),
        Note::A => Some(Note::ASharp),
        Note::ASharp => Some(Note::B),
        Note::B => None,
    }
}

/// The tuning is equal-tempered to within a tenth of a percent: every semitone step,
/// including the one from B up to the next octave's C, raises the frequency by a
/// factor between 1.059 and 1.060 (the twelfth root of two is about 1.0595).
pub proof fn law_equal_temperament(note: Note, octave: nat)
    ensures
        next_note(note) matches Some(up) ==> 1000 * spec_frequency_centi_hz(up, octave)
            > 1059 * spec_frequency_centi_hz(note, octave)
            && 1000 * spec_frequency_centi_hz(up, octave) < 1060 * spec_frequency_centi_hz(note, octave),
        note == Note::B ==> 1000 * spec_frequency_centi_hz(Note::C, octave + 1)
            > 1059 * spec_frequency_centi_hz(note, octave)
            && 1000 * spec_frequency_centi_hz(Note::C, octave + 1) < 1060 * spec_frequency_centi_hz(note, octave),
{
    let p = pow2(octave);
    lemma_pow2_monotone(0, octave);
    assert(pow2(octave + 1) == 2 * p);
    if let Some(up) = next_note(note) {
        let a = spec_base_centi_hz(note);
        let b = spec_base_centi_hz(up);
        assert(1000 * b > 1059 * a && 1000 * b < 1060 * a);
        assert(1000 * (b * p) > 1059 * (a * p) && 1000 * (b * p) < 1060 * (a * p)) by (nonlinear_arith)
            requires
                1000 * b > 1059 * a,
                1000 * b < 1060 * a,
                p >= 1,
        ;
    }
    if note == Note::B {
        let a = spec_base_centi_hz(Note::B);
        let c = spec_base_centi_hz(Note::C);
        assert(1000 * (c * (2 * p)) > 1059 * (a * p) && 1000 * (c * (2 * p)) < 1060 * (a * p)) by (nonlinear_arith)
            requires
                a == 3087,
                c == 1635,
                p >= 1,
        ;
    }
}

} // verus!
