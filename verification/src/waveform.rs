use vstd::prelude::*;
use crate::sine::approx_sin;
use crate::sine::sine_at;

verus! {

/// Lower bound of the frequency sweep, in Hz-equivalent units.
pub const BASE_FREQ: u64 = 1000;

/// Upper bound of the frequency sweep, in Hz-equivalent units.
pub const PEAK_FREQ: u64 = 2000;

/// Frequency-sweep cycles completed per outer period.
pub const MODULATION_RATE: u64 = 4;

/// The waveform repeats identically after this many microseconds.
pub const OUTER_PERIOD_MICROS: u64 = 2000000;

/// Full scale of the angular domain the elapsed time is rescaled into.
pub const ANGULAR_SCALE: u64 = 32768;

/// Elapsed time reduced into one outer period and rescaled into the
/// angular domain by fixed-point division (truncating).
pub open spec fn scaled_time(t: int) -> int {
    (t % (OUTER_PERIOD_MICROS as int)) * (ANGULAR_SCALE as int) / (OUTER_PERIOD_MICROS as int)
}

/// Instantaneous frequency: linear interpolation between the two
/// frequency bounds, driven by a modulation magnitude in [0, 65534].
pub open spec fn modulated_freq(m: u16) -> int {
    BASE_FREQ + (PEAK_FREQ - BASE_FREQ) * m / (ANGULAR_SCALE as int)
}

/// The siren sample at elapsed time t: the modulation phase picks a
/// magnitude from the sine table, that magnitude fixes the frequency,
/// and the frequency-scaled phase picks the final amplitude.
pub open spec fn siren_at(t: int) -> u16 {
    let ts = scaled_time(t);
    let m = sine_at(ts * (MODULATION_RATE as int));
    sine_at(ts * modulated_freq(m))
}

/// The scaled time always lies below the angular full scale.
pub proof fn lemma_scaled_time_bounds(t: int)
    ensures
        0 <= scaled_time(t) < ANGULAR_SCALE,
{
    let w = t % (OUTER_PERIOD_MICROS as int);
    assert(0 <= w < OUTER_PERIOD_MICROS);
    assert(w * (ANGULAR_SCALE as int) < (OUTER_PERIOD_MICROS as int) * (ANGULAR_SCALE as int)) by (nonlinear_arith)
        requires
            0 <= w < OUTER_PERIOD_MICROS,
    ;
    assert(w * (ANGULAR_SCALE as int) >= 0) by (nonlinear_arith)
        requires
            w >= 0,
    ;
}

/// Whatever magnitude the modulation step produced, the interpolated
/// frequency is at least the base frequency and below 3000: a table
/// magnitude can reach twice the angular full scale, so the sweep tops
/// out just under base plus twice the bound gap.
pub proof fn lemma_freq_bounded(m: u16)
    ensures
        BASE_FREQ <= modulated_freq(m) < 3000,
{
    assert(1000 * m >= 0) by (nonlinear_arith);
    assert(1000 * m / 32768 >= 0) by (nonlinear_arith)
        requires
            1000 * m >= 0,
    ;
    assert(1000 * m / 32768 <= 1999) by (nonlinear_arith)
        requires
            m <= 65535,
    ;
}

/// For modulation magnitudes up to the angular full scale, the
/// interpolated frequency stays between the two sweep bounds.
pub proof fn lemma_freq_in_sweep_bounds(m: u16)
    requires
        m <= ANGULAR_SCALE,
    ensures
        BASE_FREQ <= modulated_freq(m) <= PEAK_FREQ,
{
    assert(1000 * m >= 0) by (nonlinear_arith);
    assert(1000 * m / 32768 >= 0) by (nonlinear_arith)
        requires
            1000 * m >= 0,
    ;
    assert(1000 * m / 32768 <= 1000) by (nonlinear_arith)
        requires
            m <= 32768,
    ;
}

/// The waveform is periodic: samples one outer period apart are equal.
pub proof fn lemma_siren_periodic(t: int)
    ensures
        siren_at(t + OUTER_PERIOD_MICROS) == siren_at(t),
{
    let p = OUTER_PERIOD_MICROS as int;
    assert((t + p) % p == t % p) by (nonlinear_arith);
}

pub fn sweep_freq(m: u16) -> (r: u64)
    ensures
        r == modulated_freq(m),
        BASE_FREQ <= r < 3000,
{
    proof {
        lemma_freq_bounded(m);
    }
    BASE_FREQ + (PEAK_FREQ - BASE_FREQ) * (m as u64) / ANGULAR_SCALE
}

pub fn siren_wave(t: u64) -> (r: u16)
    ensures
        r == siren_at(t as int),
        r <= 65534,
{
    let t_wrapped = t % OUTER_PERIOD_MICROS;
    proof {
        lemma_scaled_time_bounds(t as int);
    }
    let t_scaled = t_wrapped * ANGULAR_SCALE / OUTER_PERIOD_MICROS;
    let m = approx_sin(t_scaled * MODULATION_RATE);
    let freq = sweep_freq(m);
    proof {
        assert(t_scaled * freq < 32768 * 3000) by (nonlinear_arith)
            requires
                t_scaled < 32768,
                freq < 3000,
        ;
    }
    approx_sin(t_scaled * freq)
}

} // verus!
