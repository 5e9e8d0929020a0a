//! Tests of the note table, frequency construction and phase-step mapping.

use synth::Frequency;
use synth::Note;
use synth::Synth;

/// Fixed centi-hertz values of a few well-known notes.
#[test]
fn note_centi_hertz_values() {
    assert_eq!(Note::Rest.centi_hertz(), 0);
    assert_eq!(Note::C0.centi_hertz(), 1635);
    assert_eq!(Note::C4.centi_hertz(), 26163);
    assert_eq!(Note::A4.centi_hertz(), 44000);
    assert_eq!(Note::B8.centi_hertz(), 790213);
}

fn all_notes() -> Vec<Note> {
    vec![
        Note::Rest,
        Note::C0,
        Note::CsDb0,
        Note::D0,
        Note::DsEb0,
        Note::E0,
        Note::F0,
        Note::FsGb0,
        Note::G0,
        Note::GsAb0,
        Note::A0,
        Note::AsBb0,
        Note::B0,
        Note::C1,
        Note::CsDb1,
        Note::D1,
        Note::DsEb1,
        Note::E1,
        Note::F1,
        Note::FsGb1,
        Note::G1,
        Note::GsAb1,
        Note::A1,
        Note::AsBb1,
        Note::B1,
        Note::C2,
        Note::CsDb2,
        Note::D2,
        Note::DsEb2,
        Note::E2,
        Note::F2,
        Note::FsGb2,
        Note::G2,
        Note::GsAb2,
        Note::A2,
        Note::AsBb2,
        Note::B2,
        Note::C3,
        Note::CsDb3,
        Note::D3,
        Note::DsEb3,
        Note::E3,
        Note::F3,
        Note::FsGb3,
        Note::G3,
        Note::GsAb3,
        Note::A3,
        Note::AsBb3,
        Note::B3,
        Note::C4,
        Note::CsDb4,
        Note::D4,
        Note::DsEb4,
        Note::E4,
        Note::F4,
        Note::FsGb4,
        Note::G4,
        Note::GsAb4,
        Note::A4,
        Note::AsBb4,
        Note::B4,
        Note::C5,
        Note::CsDb5,
        Note::D5,
        Note::DsEb5,
        Note::E5,
        Note::F5,
        Note::FsGb5,
        Note::G5,
        Note::GsAb5,
        Note::A5,
        Note::AsBb5,
        Note::B5,
        Note::C6,
        Note::CsDb6,
        Note::D6,
        Note::DsEb6,
        Note::E6,
        Note::F6,
        Note::FsGb6,
        Note::G6,
        Note::GsAb6,
        Note::A6,
        Note::AsBb6,
        Note::B6,
        Note::C7,
        Note::CsDb7,
        Note::D7,
        Note::DsEb7,
        Note::E7,
        Note::F7,
        Note::FsGb7,
        Note::G7,
        Note::GsAb7,
        Note::A7,
        Note::AsBb7,
        Note::B7,
        Note::C8,
        Note::CsDb8,
        Note::D8,
        Note::DsEb8,
        Note::E8,
        Note::F8,
        Note::FsGb8,
        Note::G8,
        Note::GsAb8,
        Note::A8,
        Note::AsBb8,
        Note::B8
    ]
}

/// The centi-hertz value grows strictly with pitch across the whole
/// keyboard.
#[test]
fn note_centi_hertz_strictly_increasing() {
    let notes: Vec<Note> = all_notes();
    for pair in notes.windows(2) {
        assert!(
            pair[0].centi_hertz() < pair[1].centi_hertz(),
            "notes {:?} and {:?} are out of order",
            pair[0],
            pair[1]
        );
    }
}

/// At a fixed audio sample rate the phase step is strictly monotone in the
/// note's centi-hertz value.
#[test]
fn phase_step_strictly_monotone_over_notes() {
    let s: Synth = Synth::new(8000);
    let notes: Vec<Note> = all_notes();
    let mut prev: u16 = s.frequency_to_phase_step(notes[0].frequency());
    for note in &notes[1..] {
        let step: u16 = s.frequency_to_phase_step(note.frequency());
        assert!(
            prev < step,
            "phase step did not grow at {:?}: {} vs {}",
            note,
            prev,
            step
        );
        prev = step;
    }
}

/// Exact phase-step values: multiply by 256, divide by the rate, multiply
/// by 256, divide by 100, in that order.
#[test]
fn phase_step_values() {
    let s: Synth = Synth::new(8000);
    assert_eq!(s.frequency_to_phase_step(Frequency::from_centi_hertz(50000)), 4096);
    assert_eq!(s.frequency_to_phase_step(Frequency::from_centi_hertz(26163)), 2142);
    assert_eq!(s.frequency_to_phase_step(Frequency::from_centi_hertz(44000)), 3604);
    assert_eq!(s.frequency_to_phase_step(Frequency::from_centi_hertz(0)), 0);
}

/// A frequency built from whole hertz equals one built from a hundred
/// times as many centi-hertz.
#[test]
fn from_hertz_matches_centi_hertz() {
    assert_eq!(Frequency::from_hertz(440).centi_hertz(), 44000);
    assert_eq!(Frequency::from_hertz(0).centi_hertz(), 0);
    assert_eq!(
        Frequency::from_hertz(500),
        Frequency::from_centi_hertz(50000)
    );
}

/// Reading centi-hertz back returns what the frequency was built from.
#[test]
fn centi_hertz_round_trip() {
    assert_eq!(Frequency::from_centi_hertz(12345).centi_hertz(), 12345);
}

/// A note converts to the frequency holding its centi-hertz value.
#[test]
fn note_converts_to_frequency() {
    assert_eq!(Note::A4.frequency().centi_hertz(), 44000);
    let via_from: Frequency = Frequency::from(Note::C4);
    assert_eq!(via_from.centi_hertz(), 26163);
    let via_into: Frequency = Note::Rest.into();
    assert_eq!(via_into.centi_hertz(), 0);
}
