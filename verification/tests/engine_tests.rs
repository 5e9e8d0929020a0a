//! Tests of the synthesis engine: play, off, the duration gate, the
//! downmix/clip stage and the PCM conversion.

use synth::Channel;
use synth::Duration;
use synth::Frequency;
use synth::Note;
use synth::Sample;
use synth::Synth;
use synth::Waveform;
use synth::CHANNEL_1;
use synth::MAX_VOLUME;

/// A fresh synthesiser is silent on all channels and keeps its rate.
#[test]
fn new_synth_is_silent() {
    let mut s: Synth = Synth::new(8000);
    assert_eq!(s.sample_rate(), 8000);
    for _ in 0..16 {
        assert_eq!(s.next().0, 0);
    }
}

/// `off` makes the channel's contribution to the next downmixed sample
/// exactly zero.
#[test]
fn off_silences_channel() {
    let mut s: Synth = Synth::new(8000);
    s.play(
        Channel::Channel0,
        Frequency::from_centi_hertz(50000),
        None,
        MAX_VOLUME,
        Waveform::Square,
    );
    assert_eq!(s.next().0, 31);
    s.off(Channel::Channel0);
    for _ in 0..16 {
        assert_eq!(s.next().0, 0);
    }
}

/// A note with duration D is audible for exactly D samples; from sample
/// D + 1 on the channel is muted without any further call.
#[test]
fn duration_gate_mutes_after_d_samples() {
    let mut s: Synth = Synth::new(8000);
    s.play(
        Channel::Channel0,
        Frequency::from_centi_hertz(50000),
        Some(Duration::from_samples(5)),
        MAX_VOLUME,
        Waveform::Square,
    );
    for i in 0..5 {
        assert_eq!(s.next().0, 31, "sample {} should be audible", i);
    }
    for i in 5..20 {
        assert_eq!(s.next().0, 0, "sample {} should be muted", i);
    }
}

/// A note played with a duration of zero samples is silent from the start.
#[test]
fn zero_length_note_is_silent() {
    let mut s: Synth = Synth::new(8000);
    s.play(
        Channel::Channel0,
        Frequency::from_centi_hertz(50000),
        Some(Duration::from_samples(0)),
        MAX_VOLUME,
        Waveform::Square,
    );
    for _ in 0..4 {
        assert_eq!(s.next().0, 0);
    }
}

/// Frequency zero is a rest: it silences the channel even on a wavetable
/// whose first entry is not zero.
#[test]
fn rest_frequency_is_silent() {
    let mut s: Synth = Synth::new(8000);
    s.play(
        Channel::Channel0,
        Note::Rest.frequency(),
        None,
        MAX_VOLUME,
        Waveform::Square,
    );
    for _ in 0..4 {
        assert_eq!(s.next().0, 0);
    }
}

/// Exact downmix values: arithmetic shift right by 10, then a symmetric
/// clamp to [-128, 127].
#[test]
fn downmix_values() {
    assert_eq!(Synth::downmix(0).0, 0);
    assert_eq!(Synth::downmix(1023).0, 0);
    assert_eq!(Synth::downmix(1024).0, 1);
    assert_eq!(Synth::downmix(-1).0, -1);
    assert_eq!(Synth::downmix(-1024).0, -1);
    assert_eq!(Synth::downmix(129540).0, 126);
    assert_eq!(Synth::downmix(-130560).0, -128);
    assert_eq!(Synth::downmix(200000).0, 127);
    assert_eq!(Synth::downmix(i32::MAX).0, 127);
}

/// Regression for the clamp symmetry: a maximal-negative sum must clamp to
/// -128, not wrap around to a positive value.
#[test]
fn downmix_clamps_negative_symmetrically() {
    assert_eq!(Synth::downmix(-200000).0, -128);
    assert_eq!(Synth::downmix(-131072).0, -128);
    assert_eq!(Synth::downmix(i32::MIN).0, -128);
}

/// Four channels at full volume on the most negative wavetable entry reach
/// the downmix floor and stay in range.
#[test]
fn full_volume_four_channel_mix_stays_in_range() {
    let mut s: Synth = Synth::new(8000);
    let channels: [Channel; 4] = [
        Channel::Channel0,
        Channel::Channel1,
        Channel::Channel2,
        Channel::Channel3,
    ];
    for ch in channels {
        // Phase step 9984: the first tick reads noise entry 39, which is -128.
        s.play(
            ch,
            Frequency::from_centi_hertz(121875),
            None,
            MAX_VOLUME,
            Waveform::Noise,
        );
    }
    let first: Sample = s.next();
    assert_eq!(first.0, -128);
    let mut s2: Synth = Synth::new(8000);
    for ch in channels {
        s2.play(
            ch,
            Frequency::from_centi_hertz(50000),
            None,
            MAX_VOLUME,
            Waveform::Square,
        );
    }
    assert_eq!(s2.next().0, 126);
    // Whatever plays, every output stays inside the signed 8-bit range.
    for _ in 0..256 {
        let v: i8 = s.next().0;
        assert!((-128..=127).contains(&(v as i16)));
    }
}

/// Playing a tone at sample_rate / 16 with an exact phase step reproduces
/// one full sawtooth period as 16 evenly spaced table reads.
#[test]
fn uniform_sampling_reproduces_one_period() {
    let mut s: Synth = Synth::new(8000);
    // 500 Hz at 8000 samples/s: step 4096 = 65536 / 16 exactly.
    s.play(
        Channel::Channel0,
        Frequency::from_centi_hertz(50000),
        None,
        MAX_VOLUME,
        Waveform::Sawtooth,
    );
    let expected: [i8; 16] = [
        -28, -24, -20, -16, -12, -8, -4, 0, 3, 7, 11, 15, 19, 23, 27, -32,
    ];
    for (i, want) in expected.iter().enumerate() {
        assert_eq!(s.next().0, *want, "sample {} of the period", i);
    }
    // The next period repeats exactly: the phase is back at its start.
    for (i, want) in expected.iter().enumerate() {
        assert_eq!(s.next().0, *want, "sample {} of the second period", i);
    }
}

/// Frequency-accuracy regression: middle C on a sawtooth at 8000 samples/s
/// crosses zero about 2 * 261.63 times per second.
#[test]
fn sawtooth_zero_crossing_count() {
    let mut s: Synth = Synth::new(8000);
    s.play(
        Channel::Channel0,
        Frequency::from_centi_hertz(26163),
        None,
        MAX_VOLUME,
        Waveform::Sawtooth,
    );
    let mut prev: i8 = s.next().0;
    let mut crossings: u32 = 0;
    for _ in 1..8000 {
        let cur: i8 = s.next().0;
        if (prev < 0 && cur >= 0) || (prev >= 0 && cur < 0) {
            crossings += 1;
        }
        prev = cur;
    }
    assert!(
        (521..=525).contains(&crossings),
        "expected about 523 zero crossings, got {}",
        crossings
    );
}

/// The signed sample converts to unsigned 8-bit PCM by adding a bias of
/// 128.
#[test]
fn sample_to_unsigned_pcm() {
    assert_eq!(u8::from(Sample(-128)), 0);
    assert_eq!(u8::from(Sample(0)), 128);
    assert_eq!(u8::from(Sample(127)), 255);
    let pcm: u8 = Sample(-1).into();
    assert_eq!(pcm, 127);
}

/// Durations convert from milliseconds by `rate * millis / 1000`, rounding
/// down.
#[test]
fn duration_from_millis() {
    assert_eq!(Duration::from_millis(8000, 1000).samples(), 8000);
    assert_eq!(Duration::from_millis(44100, 10).samples(), 441);
    assert_eq!(Duration::from_millis(8000, 0).samples(), 0);
    let s: Synth = Synth::new(8000);
    assert_eq!(s.duration_ms_to_samples(250).samples(), 2000);
}

/// Playing on one channel leaves the others untouched.
#[test]
fn channels_are_independent() {
    let mut s: Synth = Synth::new(8000);
    s.play(
        CHANNEL_1,
        Frequency::from_centi_hertz(50000),
        None,
        MAX_VOLUME,
        Waveform::Square,
    );
    let mut reference: Synth = Synth::new(8000);
    reference.play(
        Channel::Channel1,
        Frequency::from_centi_hertz(50000),
        None,
        MAX_VOLUME,
        Waveform::Square,
    );
    // A later play on another channel with volume 0 changes nothing audible.
    s.play(
        Channel::Channel3,
        Frequency::from_centi_hertz(26163),
        None,
        0,
        Waveform::Sawtooth,
    );
    for _ in 0..64 {
        assert_eq!(s.next().0, reference.next().0);
    }
}
