//! The integer core of the sensor readout: supersampled ADC conversions
//! arrive interleaved (sensor, temperature, sensor, temperature, ...) and
//! are summed per channel before the voltage and temperature arithmetic,
//! which the caller performs on the sums.

use vstd::prelude::*;

verus! {

/// The sum of one channel of an interleaved two-channel sample block:
/// channel 0 holds the even positions, channel 1 the odd ones. A trailing
/// half pair is ignored.
pub open spec fn interleaved_sum(samples: Seq<u16>, channel: int) -> int
    recommends
        0 <= channel < 2,
    decreases samples.len(),
{
    if samples.len() < 2 {
        0
    } else {
        samples[channel] + interleaved_sum(samples.skip(2), channel)
    }
}

/// Sums the two channels of an interleaved sample block.
pub fn sum_interleaved(samples: &[u16]) -> (r: (u64, u64))
    requires
        samples@.len() * 65535 <= u64::MAX,
    ensures
        r.0 == interleaved_sum(samples@, 0),
        r.1 == interleaved_sum(samples@, 1),
{
    let mut sum0: u64 = 0;
    let mut sum1: u64 = 0;
    let mut i: usize = 0;
    proof {
        assert(samples@.skip(0) =~= samples@);
    }
    while samples.len() - i >= 2
        invariant
            i <= samples@.len(),
            samples@.len() * 65535 <= u64::MAX,
            sum0 <= i * 65535,
            sum1 <= i * 65535,
            interleaved_sum(samples@, 0) == sum0 + interleaved_sum(samples@.skip(i as int), 0),
            interleaved_sum(samples@, 1) == sum1 + interleaved_sum(samples@.skip(i as int), 1),
        decreases samples@.len() - i,
    {
        proof {
            assert(samples@.skip(i as int).skip(2) =~= samples@.skip(i as int + 2));
            assert(samples@.skip(i as int)[0] == samples@[i as int]);
            assert(samples@.skip(i as int)[1] == samples@[i as int + 1]);
        }
        sum0 = sum0 + samples[i] as u64;
        sum1 = sum1 + samples[i + 1] as u64;
        i = i + 2;
    }
    proof {
        assert(interleaved_sum(samples@.skip(i as int), 0) == 0);
        assert(interleaved_sum(samples@.skip(i as int), 1) == 0);
    }
    (sum0, sum1)
}

} // verus!
