use vstd::prelude::*;

verus! {

/// Number of samples covered by `milliseconds` at `sample_rate` Hz,
/// rounded down.
pub open spec fn samples_for(milliseconds: int, sample_rate: int) -> int {
    (milliseconds * sample_rate) / 1000
}

/// Converts a duration in milliseconds to a whole number of samples at
/// `sample_rate`, rounding down.
pub fn milliseconds_to_samples(milliseconds: u32, sample_rate: u32) -> (samples: u32)
    requires
        milliseconds * sample_rate <= u32::MAX,
    ensures
        samples == samples_for(milliseconds as int, sample_rate as int),
{
    (milliseconds * sample_rate) / 1000
}

/// `samples_for` rounds down: it is the largest count of whole samples
/// that fits in the duration, so one second is exactly `sample_rate`
/// samples and a longer duration never gives fewer samples.
pub proof fn law_samples_for(milliseconds: int, sample_rate: int, longer: int)
    requires
        milliseconds >= 0,
        sample_rate >= 0,
        longer >= milliseconds,
    ensures
        samples_for(milliseconds, sample_rate) * 1000 <= milliseconds * sample_rate,
        milliseconds * sample_rate < samples_for(milliseconds, sample_rate) * 1000 + 1000,
        samples_for(1000, sample_rate) == sample_rate,
        samples_for(milliseconds, sample_rate) <= samples_for(longer, sample_rate),
{
    let x = milliseconds * sample_rate;
    let y = longer * sample_rate;
    assert(x <= y) by (nonlinear_arith)
        requires
            milliseconds <= longer,
            sample_rate >= 0,
            x == milliseconds * sample_rate,
            y == longer * sample_rate,
    ;
    vstd::arithmetic::div_mod::lemma_fundamental_div_mod(x, 1000);
    vstd::arithmetic::div_mod::lemma_mod_bound(x, 1000);
    vstd::arithmetic::div_mod::lemma_div_is_ordered(x, y, 1000);
    vstd::arithmetic::div_mod::lemma_div_multiples_vanish(sample_rate, 1000);
}

} // verus!
