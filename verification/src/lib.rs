//! A deterministic, allocation-free, four-channel wavetable synthesiser.
//!
//! Notes (or raw centi-hertz frequencies) are turned into a stream of signed
//! 8-bit PCM samples: each channel runs a phase-accumulator oscillator over a
//! fixed 256-entry single-cycle wavetable, an optional duration gate mutes the
//! channel when its sample countdown expires, and the four channel outputs are
//! summed, rescaled and symmetrically clamped into one output sample.

mod engine;
pub mod laws;
mod pitch;
mod tables;

pub use engine::advanced_phase;
pub use engine::initial_osc;
pub use engine::off_osc;
pub use engine::osc_contribution;
pub use engine::osc_tick;
pub use engine::played_osc;
pub use engine::spec_downmix;
pub use engine::spec_duration_samples;
pub use engine::Channel;
pub use engine::Duration;
pub use engine::OscState;
pub use engine::Sample;
pub use engine::Synth;
pub use engine::CHANNEL_0;
pub use engine::CHANNEL_1;
pub use engine::CHANNEL_2;
pub use engine::CHANNEL_3;
pub use engine::MAX_VOLUME;
pub use pitch::spec_phase_step;
pub use pitch::Frequency;
pub use pitch::Note;
pub use tables::wave_entry;
pub use tables::wave_lookup;
pub use tables::Waveform;
pub use tables::NOISE_256;
pub use tables::SAWTOOTH_256;
pub use tables::SINE_256;
pub use tables::SQUARE_256;
