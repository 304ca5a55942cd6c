use vstd::prelude::*;

verus! {

/// Largest value a waveform sample can take.
pub const SAMPLE_MAX: u16 = 65534;

/// A sample rescaled proportionally into a consumer's duty-cycle range
/// [0, duty_max], using the sample's full scale as the divisor.
pub open spec fn duty_of(sample: u16, duty_max: u16) -> int {
    sample * duty_max / (SAMPLE_MAX as int)
}

pub fn duty_cycle(sample: u16, duty_max: u16) -> (r: u16)
    requires
        sample <= SAMPLE_MAX,
    ensures
        r == duty_of(sample, duty_max),
        r <= duty_max,
{
    proof {
        assert(sample * duty_max <= 65534 * duty_max) by (nonlinear_arith)
            requires
                sample <= 65534,
        ;
        assert(sample * duty_max >= 0) by (nonlinear_arith);
        assert(65534 * duty_max / 65534 == duty_max) by (nonlinear_arith);
    }
    let wide: u64 = (sample as u64) * (duty_max as u64) / (SAMPLE_MAX as u64);
    wide as u16
}

} // verus!
