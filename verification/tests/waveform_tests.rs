use siren::duty::duty_cycle;
use siren::sine::approx_sin;
use siren::sine::SINE_TABLE;
use siren::waveform::siren_wave;
use siren::waveform::sweep_freq;

#[test]
fn approx_sin_matches_table_entry() {
    let inputs: [u64; 8] = [0, 255, 256, 16384, 65535, 65536, 10_000_000, u64::MAX];
    for &x in inputs.iter() {
        let expected = SINE_TABLE[((x >> 8) % 256) as usize];
        assert_eq!(approx_sin(x), expected);
    }
}

#[test]
fn approx_sin_stays_in_sample_range() {
    let mut x: u64 = 0;
    while x < 200_000 {
        assert!(approx_sin(x) <= 65534);
        x += 97;
    }
}

#[test]
fn approx_sin_wraps_every_full_period() {
    let inputs: [u64; 6] = [0, 1, 255, 12345, 65535, 7_000_000];
    for &x in inputs.iter() {
        assert_eq!(approx_sin(x), approx_sin(x + 65536));
        assert_eq!(approx_sin(x), approx_sin(x + 4 * 65536));
    }
}

#[test]
fn approx_sin_reference_points() {
    assert_eq!(approx_sin(0), 32767);
    assert_eq!(approx_sin(16384), SINE_TABLE[64]);
    assert_eq!(approx_sin(16384), 65534);
    assert_eq!(approx_sin(32768), 32767);
    assert_eq!(approx_sin(49152), 0);
}

#[test]
fn sine_table_is_symmetric_about_its_extremes() {
    assert_eq!(SINE_TABLE[0], 32767);
    assert_eq!(SINE_TABLE[64], 65534);
    assert_eq!(SINE_TABLE[128], 32767);
    assert_eq!(SINE_TABLE[192], 0);
    let mut i: usize = 0;
    while i <= 64 {
        assert_eq!(SINE_TABLE[64 - i], SINE_TABLE[64 + i]);
        if i <= 63 {
            assert_eq!(SINE_TABLE[192 - i], SINE_TABLE[192 + i]);
        }
        i += 1;
    }
}

#[test]
fn siren_wave_at_zero() {
    assert_eq!(siren_wave(0), 32767);
}

#[test]
fn siren_wave_has_outer_period() {
    let inputs: [u64; 6] = [0, 1, 250_000, 123_456, 1_999_999, 5_432_109];
    for &t in inputs.iter() {
        assert_eq!(siren_wave(t), siren_wave(t + 2_000_000));
        assert_eq!(siren_wave(t), siren_wave(t + 6_000_000));
    }
}

#[test]
fn siren_wave_stays_in_sample_range() {
    let mut t: u64 = 0;
    while t < 2_000_000 {
        assert!(siren_wave(t) <= 65534);
        t += 1_009;
    }
}

#[test]
fn siren_wave_is_deterministic() {
    let inputs: [u64; 5] = [0, 17, 250_000, 1_234_567, u64::MAX];
    for &t in inputs.iter() {
        let first = siren_wave(t);
        let second = siren_wave(t);
        assert_eq!(first, second);
        assert_eq!(approx_sin(t), approx_sin(t));
    }
}

#[test]
fn sweep_freq_at_bounds() {
    assert_eq!(sweep_freq(0), 1000);
    assert_eq!(sweep_freq(32767), 1999);
    assert_eq!(sweep_freq(32768), 2000);
}

#[test]
fn sweep_freq_peak_magnitude_overshoots_nominal_bound() {
    assert_eq!(sweep_freq(65534), 2999);
}

#[test]
fn duty_cycle_spans_consumer_range() {
    assert_eq!(duty_cycle(0, 99), 0);
    assert_eq!(duty_cycle(65534, 99), 99);
    assert_eq!(duty_cycle(32767, 99), 49);
    assert_eq!(duty_cycle(65534, 65535), 65535);
}

#[test]
fn duty_cycle_never_exceeds_consumer_maximum() {
    let mut t: u64 = 0;
    while t < 2_000_000 {
        let sample = siren_wave(t);
        assert!(duty_cycle(sample, 99) <= 99);
        t += 9_973;
    }
}
