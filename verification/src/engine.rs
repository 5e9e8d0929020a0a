//! The synthesis engine: per-channel oscillators, the duration gate, and the
//! downmix/clip stage that combines the four channels into one PCM sample.
//!
//! The behaviour of one channel over one output sample is captured by the
//! pure model [`OscState`] and its transition [`osc_tick`]: the phase
//! accumulator advances by the phase step (wrapping modulo 65536), the top 8
//! bits of the new phase select one of the 256 wavetable entries, the entry
//! is scaled by the channel volume, and an active duration counts down,
//! forcing the volume to zero once it runs out. `Synth::next` is verified to
//! step all four channels by exactly this transition and to return the
//! downmix of their contributions.

use vstd::prelude::*;

use crate::pitch::spec_phase_step;
use crate::pitch::Frequency;
use crate::tables::wave_entry;
use crate::tables::wave_lookup;
use crate::tables::Waveform;

verus! {

use vstd::arithmetic::div_mod::lemma_fundamental_div_mod;
use vstd::arithmetic::div_mod::lemma_fundamental_div_mod_converse;
use vstd::arithmetic::div_mod::lemma_small_mod;

/// The loudest per-channel volume.
pub const MAX_VOLUME: u8 = 255;

/// One of the four fixed channel slots of the synthesiser. Channels are a
/// closed enumeration: an out-of-range channel index is unrepresentable.
#[derive(Debug, Copy, Clone, PartialEq, Eq, Structural)]
pub enum Channel {
    Channel0,
    Channel1,
    Channel2,
    Channel3,
}

pub const CHANNEL_0: Channel = Channel::Channel0;

pub const CHANNEL_1: Channel = Channel::Channel1;

pub const CHANNEL_2: Channel = Channel::Channel2;

pub const CHANNEL_3: Channel = Channel::Channel3;

/// A single signed 8-bit audio sample.
#[derive(Debug, PartialEq, Eq, Structural)]
pub struct Sample(pub i8);

/// The length of a note, counted in output samples.
#[derive(Debug)]
pub struct Duration(u32);

impl Duration {
    /// The sample count this duration stands for.
    pub closed spec fn spec_samples(self) -> u32 {
        self.0
    }

    /// Converts a length in milliseconds into a sample count at the given
    /// sample rate, rounding down.
    pub fn from_millis(sample_rate: u32, millis: u32) -> (d: Duration)
        requires
            sample_rate * millis <= u32::MAX,
        ensures
            d.spec_samples() == sample_rate * millis / 1000,
    {
        Duration(sample_rate * millis / 1000)
    }

    /// A duration of exactly `samples` output samples.
    pub fn from_samples(samples: u32) -> (d: Duration)
        ensures
            d.spec_samples() == samples,
    {
        Duration(samples)
    }

    /// Reads the duration back as a sample count.
    pub fn samples(&self) -> (n: u32)
        ensures
            n == self.spec_samples(),
    {
        self.0
    }
}

/// The sample-count image of an optional duration; `None` plays forever.
pub open spec fn spec_duration_samples(duration: Option<Duration>) -> Option<u32> {
    match duration {
        None => None,
        Some(d) => Some(d.spec_samples()),
    }
}

/// The mathematical state of one channel's oscillator: everything the next
/// output sample of that channel depends on.
pub struct OscState {
    /// Which wavetable the channel reads.
    pub waveform: Waveform,
    /// Current position inside the waveform cycle, 8.8 fixed point.
    pub phase: u16,
    /// How far the phase advances per output sample, 8.8 fixed point.
    pub step: u16,
    /// Volume of this channel relative to the others; 0 is silent.
    pub volume: u8,
    /// Remaining samples before the channel is muted; `None` plays forever.
    pub duration: Option<u32>,
}

/// The phase accumulator after one tick: the step is added with wrapping
/// 16-bit arithmetic.
pub open spec fn advanced_phase(o: OscState) -> u16 {
    ((o.phase + o.step) % 0x10000) as u16
}

/// What the channel adds to the mix on the next tick: the wavetable entry
/// selected by the top 8 bits of the advanced phase, scaled by the volume.
/// The bottom 8 bits are fractional phase and select nothing (there is no
/// interpolation between entries).
pub open spec fn osc_contribution(o: OscState) -> int {
    wave_entry(o.waveform, advanced_phase(o) as int / 256) * o.volume
}

/// One tick of a channel: the phase advances (it keeps advancing even while
/// the channel is silent), and an active duration counts down; when it
/// reaches zero the volume is forced to zero until the next `play`.
pub open spec fn osc_tick(o: OscState) -> OscState {
    OscState {
        waveform: o.waveform,
        phase: advanced_phase(o),
        step: o.step,
        volume: match o.duration {
            None => o.volume,
            Some(d) => if d <= 1 { 0u8 } else { o.volume },
        },
        duration: match o.duration {
            None => None,
            Some(d) => Some(if d == 0 { 0u32 } else { (d - 1) as u32 }),
        },
    }
}

/// The state every channel starts in: silent, phase and step zero, reading
/// the sine table.
pub open spec fn initial_osc() -> OscState {
    OscState { waveform: Waveform::Sine, phase: 0, step: 0, volume: 0, duration: None }
}

/// The state a channel enters on `play`: phase reset to zero (the waveform
/// cycle restarts cleanly), the step computed from the frequency, and the
/// requested volume — except that frequency zero (a rest) and a duration
/// that has already reached zero both silence the channel instead of
/// producing a tone.
pub open spec fn played_osc(
    sample_rate: u32,
    frequency: Frequency,
    duration: Option<Duration>,
    volume: u8,
    waveform: Waveform,
) -> OscState {
    OscState {
        waveform: waveform,
        phase: 0,
        step: (spec_phase_step(sample_rate, frequency.spec_centi_hertz()) % 0x10000) as u16,
        volume: if frequency.spec_centi_hertz() == 0 || spec_duration_samples(duration)
            == Some(0u32) {
            0u8
        } else {
            volume
        },
        duration: spec_duration_samples(duration),
    }
}

/// The state a channel enters on `off`: silent, with phase, step and
/// duration cleared; only the selected wavetable is kept.
pub open spec fn off_osc(o: OscState) -> OscState {
    OscState { waveform: o.waveform, phase: 0, step: 0, volume: 0, duration: None }
}

/// The downmix of a summed multi-channel accumulator: rescaled by an
/// arithmetic right shift of 10 bits (floor division by 1024), then clamped
/// symmetrically to the signed 8-bit range.
pub open spec fn spec_downmix(accu: int) -> i8 {
    let shifted = accu / 1024;
    if shifted > 127 {
        127i8
    } else if shifted < -128 {
        -128i8
    } else {
        shifted as i8
    }
}

/// One channel's voice: the concrete oscillator state the engine mutates.
struct Oscillator {
    waveform: Waveform,
    phase_step: u16,
    phase_accumulator: u16,
    volume: u8,
    duration: Option<u32>,
}

impl Oscillator {
    /// The mathematical state this oscillator is in.
    spec fn model(&self) -> OscState {
        OscState {
            waveform: self.waveform,
            phase: self.phase_accumulator,
            step: self.phase_step,
            volume: self.volume,
            duration: self.duration,
        }
    }

    /// Advances this channel by one output sample and returns its (not yet
    /// downmixed) contribution to the mix.
    fn tick(&mut self) -> (contribution: i16)
        ensures
            final(self).model() == osc_tick(old(self).model()),
            contribution == osc_contribution(old(self).model()),
    {
        self.phase_accumulator = self.phase_accumulator.wrapping_add(self.phase_step);
        proof {
            let sum = old(self).phase_accumulator + old(self).phase_step;
            if sum <= u16::MAX {
                lemma_small_mod(sum as nat, 0x10000);
            } else {
                lemma_fundamental_div_mod_converse(sum, 0x10000, 1, sum - 0x10000);
            }
            assert(self.phase_accumulator == advanced_phase(old(self).model()));
        }
        let offset = self.phase_accumulator >> 8;
        proof {
            let pa = self.phase_accumulator;
            assert(pa >> 8 == pa / 256 && pa >> 8 < 256) by (bit_vector);
        }
        let entry = wave_lookup(self.waveform, offset as u8);
        let entry_wide: i16 = entry as i16;
        let volume_wide: i16 = self.volume as i16;
        proof {
            assert(-32640 <= entry_wide * volume_wide <= 32385) by (nonlinear_arith)
                requires
                    -128 <= entry_wide <= 127,
                    0 <= volume_wide <= 255,
            ;
        }
        let contribution = entry_wide * volume_wide;
        let silence = match self.duration {
            Some(d) => {
                let left = if d > 0 {
                    d - 1
                } else {
                    0
                };
                self.duration = Some(left);
                left == 0
            },
            None => false,
        };
        if silence {
            self.volume = 0;
        }
        contribution
    }
}

/// The synthesiser. Tell it to play notes on its four channels, then
/// repeatedly pull samples from it with `next`, exactly one call per output
/// sample at the configured sample rate. Each pull advances every channel by
/// one tick, sums the channel contributions and returns one clipped sample.
pub struct Synth {
    sample_rate: u32,
    osc0: Oscillator,
    osc1: Oscillator,
    osc2: Oscillator,
    osc3: Oscillator,
}

impl Synth {
    /// The sample rate this synthesiser was built with; fixed for its
    /// lifetime.
    pub closed spec fn spec_sample_rate(&self) -> u32 {
        self.sample_rate
    }

    /// The mathematical state of the addressed channel's oscillator.
    pub closed spec fn osc(&self, channel: Channel) -> OscState {
        match channel {
            Channel::Channel0 => self.osc0.model(),
            Channel::Channel1 => self.osc1.model(),
            Channel::Channel2 => self.osc2.model(),
            Channel::Channel3 => self.osc3.model(),
        }
    }

    /// Builds a synthesiser that produces `sample_rate` samples per second,
    /// with all four channels silent.
    pub fn new(sample_rate: u32) -> (s: Synth)
        ensures
            s.spec_sample_rate() == sample_rate,
            forall|c: Channel| s.osc(c) == initial_osc(),
    {
        let s = Synth {
            sample_rate,
            osc0: Oscillator {
                waveform: Waveform::Sine,
                phase_step: 0,
                phase_accumulator: 0,
                volume: 0,
                duration: None,
            },
            osc1: Oscillator {
                waveform: Waveform::Sine,
                phase_step: 0,
                phase_accumulator: 0,
                volume: 0,
                duration: None,
            },
            osc2: Oscillator {
                waveform: Waveform::Sine,
                phase_step: 0,
                phase_accumulator: 0,
                volume: 0,
                duration: None,
            },
            osc3: Oscillator {
                waveform: Waveform::Sine,
                phase_step: 0,
                phase_accumulator: 0,
                volume: 0,
                duration: None,
            },
        };
        proof {
            assert forall|c: Channel| s.osc(c) == initial_osc() by {
                lemma_channel_cases(c);
            }
        }
        s
    }

    /// Reads the configured sample rate back.
    pub fn sample_rate(&self) -> (r: u32)
        ensures
            r == self.spec_sample_rate(),
    {
        self.sample_rate
    }

    /// Converts a playback frequency into the 8.8 fixed-point amount the
    /// phase accumulator advances per output sample. The order of
    /// operations is deliberate: it keeps every intermediate value inside
    /// 32 bits for all audible frequencies (good up to roughly 167.8 kHz at
    /// typical audio sample rates), and a zero frequency yields a zero step
    /// with no division by the frequency anywhere on this path.
    pub fn frequency_to_phase_step(&self, frequency: Frequency) -> (step: u16)
        requires
            self.spec_sample_rate() >= 1,
            frequency.spec_centi_hertz() * 256 <= u32::MAX,
            frequency.spec_centi_hertz() * 256 / (self.spec_sample_rate() as int) * 256
                <= u32::MAX,
        ensures
            step == (spec_phase_step(self.spec_sample_rate(), frequency.spec_centi_hertz())
                % 0x10000) as u16,
            spec_phase_step(self.spec_sample_rate(), frequency.spec_centi_hertz()) < 0x10000
                ==> step == spec_phase_step(self.spec_sample_rate(), frequency.spec_centi_hertz()),
    {
        let mut step = frequency.centi_hertz() * 256;
        step /= self.sample_rate;
        step *= 256;
        step /= 100;
        proof {
            let exact = spec_phase_step(self.spec_sample_rate(), frequency.spec_centi_hertz());
            assert(step == exact);
            let s = step;
            assert(s as u16 == s % 0x10000) by (bit_vector);
            if exact < 0x10000 {
                lemma_small_mod(exact as nat, 0x10000);
            }
        }
        #[verifier::truncate] (step as u16)
    }

    /// Starts a note: the addressed channel restarts its waveform cycle at
    /// phase zero with the step matching `frequency`, the given volume and
    /// wavetable, and an optional duration (infinite when `None`). A zero
    /// frequency is a rest and silences the channel. The other channels are
    /// untouched.
    pub fn play(
        &mut self,
        channel: Channel,
        frequency: Frequency,
        duration: Option<Duration>,
        volume: u8,
        waveform: Waveform,
    )
        requires
            old(self).spec_sample_rate() >= 1,
            frequency.spec_centi_hertz() * 256 <= u32::MAX,
            frequency.spec_centi_hertz() * 256 / (old(self).spec_sample_rate() as int) * 256
                <= u32::MAX,
        ensures
            final(self).spec_sample_rate() == old(self).spec_sample_rate(),
            final(self).osc(channel) == played_osc(
                old(self).spec_sample_rate(),
                frequency,
                duration,
                volume,
                waveform,
            ),
            forall|c: Channel|
                c != channel ==> final(self).osc(c) == old(self).osc(c),
    {
        let step = self.frequency_to_phase_step(frequency);
        let samples = match duration {
            None => None,
            Some(d) => Some(d.samples()),
        };
        let zero_length = match samples {
            Some(n) => n == 0,
            None => false,
        };
        let volume = if frequency.centi_hertz() == 0 || zero_length {
            0
        } else {
            volume
        };
        let osc = Oscillator {
            waveform,
            phase_step: step,
            phase_accumulator: 0,
            volume,
            duration: samples,
        };
        match channel {
            Channel::Channel0 => self.osc0 = osc,
            Channel::Channel1 => self.osc1 = osc,
            Channel::Channel2 => self.osc2 = osc,
            Channel::Channel3 => self.osc3 = osc,
        }
        proof {
            assert forall|c: Channel| c != channel implies self.osc(c) == old(self).osc(c) by {
                lemma_channel_cases(c);
                lemma_channel_cases(channel);
            }
        }
    }

    /// Silences the addressed channel at once: volume, phase, step and
    /// duration are all cleared. This is the only way to end a note before
    /// its duration expires.
    pub fn off(&mut self, channel: Channel)
        ensures
            final(self).spec_sample_rate() == old(self).spec_sample_rate(),
            final(self).osc(channel) == off_osc(old(self).osc(channel)),
            forall|c: Channel|
                c != channel ==> final(self).osc(c) == old(self).osc(c),
    {
        let osc = match channel {
            Channel::Channel0 => &mut self.osc0,
            Channel::Channel1 => &mut self.osc1,
            Channel::Channel2 => &mut self.osc2,
            Channel::Channel3 => &mut self.osc3,
        };
        osc.volume = 0;
        osc.phase_accumulator = 0;
        osc.phase_step = 0;
        osc.duration = None;
        proof {
            assert forall|c: Channel| c != channel implies self.osc(c) == old(self).osc(c) by {
                lemma_channel_cases(c);
                lemma_channel_cases(channel);
            }
        }
    }

    /// Converts a length in milliseconds into a duration at this
    /// synthesiser's sample rate.
    pub fn duration_ms_to_samples(&self, millis: u32) -> (d: Duration)
        requires
            self.spec_sample_rate() * millis <= u32::MAX,
        ensures
            d.spec_samples() == self.spec_sample_rate() * millis / 1000,
    {
        Duration::from_millis(self.sample_rate, millis)
    }

    /// Produces the next output sample: every channel advances by one tick
    /// (phase moves on, active durations count down and mute their channel
    /// on expiry), and the four contributions are summed and downmixed.
    /// Call this exactly once per output sample at the configured rate.
    pub fn next(&mut self) -> (sample: Sample)
        ensures
            final(self).spec_sample_rate() == old(self).spec_sample_rate(),
            forall|c: Channel| final(self).osc(c) == osc_tick(old(self).osc(c)),
            sample.0 == spec_downmix(
                osc_contribution(old(self).osc(Channel::Channel0))
                    + osc_contribution(old(self).osc(Channel::Channel1))
                    + osc_contribution(old(self).osc(Channel::Channel2))
                    + osc_contribution(old(self).osc(Channel::Channel3)),
            ),
    {
        let c0 = self.osc0.tick();
        let c1 = self.osc1.tick();
        let c2 = self.osc2.tick();
        let c3 = self.osc3.tick();
        let accu: i32 = c0 as i32 + c1 as i32 + c2 as i32 + c3 as i32;
        proof {
            assert forall|c: Channel| self.osc(c) == osc_tick(old(self).osc(c)) by {
                lemma_channel_cases(c);
            }
        }
        Self::downmix(accu)
    }

    /// Rescales a summed multi-channel accumulator into one signed 8-bit
    /// sample: an arithmetic right shift by 10 bits (floor division by
    /// 1024, chosen so a worst-case four-channel full-volume sum lands in
    /// the 8-bit range), then a symmetric clamp to [-128, 127].
    pub fn downmix(hi_res_sample: i32) -> (sample: Sample)
        ensures
            sample.0 == spec_downmix(hi_res_sample as int),
    {
        let wide: i64 = hi_res_sample as i64;
        let shifted: i64 = if wide >= 0 {
            ((wide as u64) / 1024) as i64
        } else {
            proof {
                let w = wide as int;
                lemma_fundamental_div_mod(w, 1024);
                lemma_fundamental_div_mod_converse(
                    -w + 1023,
                    1024,
                    -(w / 1024),
                    1023 - (w % 1024),
                );
            }
            -((((-wide) as u64 + 1023) / 1024) as i64)
        };
        let clamped: i64 = if shifted > 127 {
            127
        } else if shifted < -128 {
            -128
        } else {
            shifted
        };
        Sample(clamped as i8)
    }
}

impl From<Sample> for u8 {
    /// Converts the signed sample to the unsigned 8-bit PCM convention by
    /// adding a bias of 128; the conversion is lossless.
    fn from(sample: Sample) -> (pcm: u8) {
        (sample.0 as i16 + 128) as u8
    }
}

impl vstd::std_specs::convert::FromSpecImpl<Sample> for u8 {
    open spec fn obeys_from_spec() -> bool {
        true
    }

    open spec fn from_spec(sample: Sample) -> u8 {
        (sample.0 + 128) as u8
    }
}

/// Every channel is one of the four enumerated slots.
proof fn lemma_channel_cases(c: Channel)
    ensures
        c == Channel::Channel0 || c == Channel::Channel1 || c == Channel::Channel2 || c
            == Channel::Channel3,
{
    match c {
        Channel::Channel0 => {},
        Channel::Channel1 => {},
        Channel::Channel2 => {},
        Channel::Channel3 => {},
    }
}

} // verus!
