//! Proved laws of the engine: facts that relate several operations or hold
//! over every input, stated over the oscillator model and checked once and
//! for all rather than sampled by tests.

use vstd::prelude::*;

use crate::engine::advanced_phase;
use crate::engine::off_osc;
use crate::engine::osc_contribution;
use crate::engine::osc_tick;
use crate::engine::played_osc;
use crate::engine::spec_downmix;
use crate::engine::Duration;
use crate::engine::OscState;
use crate::pitch::spec_phase_step;
use crate::pitch::Frequency;
use crate::tables::wave_entry;
use crate::tables::Waveform;

verus! {

use vstd::arithmetic::div_mod::lemma_add_mod_noop;
use vstd::arithmetic::div_mod::lemma_div_is_ordered;
use vstd::arithmetic::div_mod::lemma_hoist_over_denominator;
use vstd::arithmetic::div_mod::lemma_small_mod;
use vstd::arithmetic::mul::lemma_mul_is_distributive_add;
use vstd::arithmetic::mul::lemma_mul_is_distributive_add_other_way;

/// The oscillator state reached after `n` ticks (that is, after `n` output
/// samples have been pulled).
pub open spec fn osc_after(o: OscState, n: nat) -> OscState
    decreases n,
{
    if n == 0 {
        o
    } else {
        osc_tick(osc_after(o, (n - 1) as nat))
    }
}

/// A higher tone never gets a smaller phase step: the step grows (weakly)
/// with the centi-hertz value at any fixed sample rate. The growth is only
/// weak in general because the division by the sample rate rounds down, so
/// two close frequencies can share one step.
pub proof fn lemma_phase_step_monotone_weak(sample_rate: u32, lo: u32, hi: u32)
    requires
        sample_rate >= 1,
        lo <= hi,
    ensures
        spec_phase_step(sample_rate, lo) <= spec_phase_step(sample_rate, hi),
{
    let sr = sample_rate as int;
    lemma_div_is_ordered(lo * 256, hi * 256, sr);
    lemma_div_is_ordered(lo * 256 / sr * 256, hi * 256 / sr * 256, 100);
}

/// The strict form of step monotonicity: two centi-hertz values whose
/// first division (by the sample rate) lands in distinct buckets get
/// strictly increasing phase steps. The bucket hypothesis excludes exactly
/// the inputs on which strictness fails: when both values divide to the
/// same intermediate, the whole computation collapses to the same step.
pub proof fn lemma_phase_step_monotone(sample_rate: u32, lo: u32, hi: u32)
    requires
        sample_rate >= 1,
        lo < hi,
        lo * 256 / (sample_rate as int) < hi * 256 / (sample_rate as int),
    ensures
        spec_phase_step(sample_rate, lo) < spec_phase_step(sample_rate, hi),
{
    let sr = sample_rate as int;
    let a = lo * 256 / sr;
    let b = hi * 256 / sr;
    lemma_hoist_over_denominator(a * 256, 2, 100);
    assert(a * 256 / 100 + 2 == (a * 256 + 200) / 100);
    lemma_div_is_ordered(a * 256 + 200, b * 256, 100);
    assert((a + 1) * 256 == a * 256 + 256) by {
        lemma_mul_is_distributive_add(256, a, 1);
    }
}

/// A convenient sufficient condition for strict growth: once two
/// centi-hertz values are at least `sample_rate / 256` apart, their first
/// divisions cannot share a bucket, so the steps are strictly ordered. Any
/// two distinct notes of the scale differ by at least 97 centi-hertz, so
/// at sample rates up to 24832 this gives strict monotonicity across the
/// whole keyboard.
pub proof fn lemma_phase_step_monotone_separated(sample_rate: u32, lo: u32, hi: u32)
    requires
        sample_rate >= 1,
        lo < hi,
        (hi - lo) * 256 >= sample_rate,
    ensures
        spec_phase_step(sample_rate, lo) < spec_phase_step(sample_rate, hi),
{
    let sr = sample_rate as int;
    lemma_hoist_over_denominator(lo * 256, 1, sample_rate as nat);
    assert(lo * 256 / sr + 1 == (lo * 256 + sr) / sr);
    lemma_div_is_ordered(lo * 256 + sr, hi * 256, sr);
    lemma_phase_step_monotone(sample_rate, lo, hi);
}

/// The phase accumulator is a pure linear function of the tick count: after
/// `n` ticks it sits at `phase + n * step`, wrapped modulo 65536. Neither
/// the duration gate nor the volume influences the phase, so this holds
/// even for a channel that has gone silent.
pub proof fn lemma_phase_linear(o: OscState, n: nat)
    ensures
        osc_after(o, n).waveform == o.waveform,
        osc_after(o, n).step == o.step,
        osc_after(o, n).phase == (o.phase + n * o.step) % 0x10000,
    decreases n,
{
    if n == 0 {
        assert(n * o.step == 0);
        lemma_small_mod(o.phase as nat, 0x10000);
    } else {
        let m = (n - 1) as nat;
        lemma_phase_linear(o, m);
        let prev = osc_after(o, m);
        assert(osc_after(o, n).phase == (prev.phase + o.step) % 0x10000);
        lemma_small_mod(o.step as nat, 0x10000);
        lemma_add_mod_noop(o.phase + m * o.step, o.step as int, 0x10000);
        assert(n * o.step == m * o.step + o.step) by {
            lemma_mul_is_distributive_add_other_way(o.step as int, m as int, 1);
        }
    }
}

/// An infinite note (no duration) keeps its volume forever: only `off` or a
/// duration expiry can silence a channel.
pub proof fn lemma_infinite_note_keeps_volume(o: OscState, n: nat)
    requires
        o.duration is None,
    ensures
        osc_after(o, n).duration is None,
        osc_after(o, n).volume == o.volume,
    decreases n,
{
    if n > 0 {
        lemma_infinite_note_keeps_volume(o, (n - 1) as nat);
    }
}

/// Playing a tone whose step divides the phase range exactly reproduces one
/// full waveform period over `k` ticks: the `j`-th pulled sample reads the
/// table at the `j`-th of `k` evenly spaced phase positions, and after `k`
/// ticks the phase is back at its starting point.
pub proof fn lemma_uniform_sampling(o: OscState, k: nat, j: nat)
    requires
        o.phase == 0,
        o.duration is None,
        1 <= j <= k,
        k * o.step == 0x10000,
    ensures
        osc_contribution(osc_after(o, (j - 1) as nat)) == wave_entry(
            o.waveform,
            (j * o.step) % 0x10000 / 256,
        ) * o.volume,
        osc_after(o, k).phase == 0,
{
    let m = (j - 1) as nat;
    lemma_phase_linear(o, m);
    lemma_infinite_note_keeps_volume(o, m);
    let prev = osc_after(o, m);
    assert(advanced_phase(prev) == (prev.phase + o.step) % 0x10000);
    lemma_small_mod(o.step as nat, 0x10000);
    lemma_add_mod_noop(m * o.step, o.step as int, 0x10000);
    assert(j * o.step == m * o.step + o.step) by {
        lemma_mul_is_distributive_add_other_way(o.step as int, m as int, 1);
    }
    lemma_phase_linear(o, k);
    assert(k * o.step % 0x10000 == 0) by {
        lemma_small_mod(0, 0x10000);
    }
}

/// A channel with volume zero contributes exactly nothing to the mix,
/// whatever its phase, step and waveform.
pub proof fn lemma_silent_channel_contributes_nothing(o: OscState)
    requires
        o.volume == 0,
    ensures
        osc_contribution(o) == 0,
{
}

/// After `off`, a channel's contribution to the next downmixed sample is
/// exactly zero.
pub proof fn lemma_off_silences(o: OscState)
    ensures
        osc_contribution(off_osc(o)) == 0,
{
    lemma_silent_channel_contributes_nothing(off_osc(o));
}

/// A note with duration `d` is audible for exactly `d` ticks: through tick
/// `d` the channel keeps the volume it was played at, and from then on the
/// volume is forced to zero, with no further call to `play` or `off`. (The
/// sample pulled by tick `n + 1` uses the volume of the state after `n`
/// ticks, so samples 1 through `d` carry the played volume.)
pub proof fn lemma_duration_gate(o: OscState, d: u32, n: nat)
    requires
        o.duration == Some(d),
        d == 0 ==> o.volume == 0,
    ensures
        n < d ==> osc_after(o, n).volume == o.volume && osc_after(o, n).duration == Some(
            (d - n) as u32,
        ),
        n >= d ==> osc_after(o, n).volume == 0 && osc_after(o, n).duration == Some(0u32),
    decreases n,
{
    if n > 0 {
        lemma_duration_gate(o, d, (n - 1) as nat);
    }
}

/// A played note obeys the duration gate from the very state `play`
/// creates: with duration `d` the channel keeps its (possibly silenced)
/// play volume through tick `d`, and contributes exactly zero from tick
/// `d` on, with no further call to `play` or `off`.
pub proof fn lemma_played_note_is_gated(
    sample_rate: u32,
    frequency: Frequency,
    duration: Duration,
    volume: u8,
    waveform: Waveform,
    n: nat,
)
    ensures
        n < duration.spec_samples() ==> osc_after(
            played_osc(sample_rate, frequency, Some(duration), volume, waveform),
            n,
        ).volume == played_osc(sample_rate, frequency, Some(duration), volume, waveform).volume,
        n >= duration.spec_samples() ==> osc_contribution(
            osc_after(played_osc(sample_rate, frequency, Some(duration), volume, waveform), n),
        ) == 0,
{
    let o = played_osc(sample_rate, frequency, Some(duration), volume, waveform);
    let d = duration.spec_samples();
    lemma_duration_gate(o, d, n);
    if n >= d {
        lemma_silent_channel_contributes_nothing(osc_after(o, n));
    }
}

/// Once its duration has expired, a channel contributes exactly zero to
/// every further sample.
pub proof fn lemma_expired_note_is_silent(o: OscState, d: u32, n: nat)
    requires
        o.duration == Some(d),
        d == 0 ==> o.volume == 0,
        n >= d,
    ensures
        osc_contribution(osc_after(o, n)) == 0,
{
    lemma_duration_gate(o, d, n);
    lemma_silent_channel_contributes_nothing(osc_after(o, n));
}

/// One channel's contribution is bounded by the wavetable range times the
/// volume range.
pub proof fn lemma_contribution_bounded(o: OscState)
    ensures
        -32640 <= osc_contribution(o) <= 32385,
{
    let e = wave_entry(o.waveform, advanced_phase(o) as int / 256);
    let v = o.volume;
    assert(-32640 <= e * v <= 32385) by (nonlinear_arith)
        requires
            -128 <= e <= 127,
            0 <= v <= 255,
    ;
}

/// For every combination of per-channel volumes and phases, the summed
/// accumulator stays within the bound the downmix stage was designed for,
/// and the downmixed sample lies in the signed 8-bit range: the mix can
/// neither overflow nor wrap.
pub proof fn lemma_downmix_in_range(o0: OscState, o1: OscState, o2: OscState, o3: OscState)
    ensures
        -130560 <= osc_contribution(o0) + osc_contribution(o1) + osc_contribution(o2)
            + osc_contribution(o3) <= 129540,
        -128 <= spec_downmix(
            osc_contribution(o0) + osc_contribution(o1) + osc_contribution(o2)
                + osc_contribution(o3),
        ) <= 127,
{
    lemma_contribution_bounded(o0);
    lemma_contribution_bounded(o1);
    lemma_contribution_bounded(o2);
    lemma_contribution_bounded(o3);
}

} // verus!
