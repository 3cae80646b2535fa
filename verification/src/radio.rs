//! The integer core of the radio bring-up: the network stack wants a 64-bit
//! random seed, collected one hardware-entropy bit at a time; the caller
//! reads the bits, the library assembles them.

use vstd::prelude::*;

verus! {

/// The seed that a bit sequence assembles to, lowest bit first.
pub open spec fn seed_value(bits: Seq<bool>) -> u64
    decreases bits.len(),
{
    if bits.len() == 0 {
        0u64
    } else {
        seed_value(bits.drop_last()) | (if bits.last() {
            1u64 << ((bits.len() - 1) as u64)
        } else {
            0u64
        })
    }
}

/// Assembles the 64 collected entropy bits into the network stack seed,
/// lowest bit first.
pub fn seed_from_bits(bits: &[bool]) -> (r: u64)
    requires
        bits@.len() == 64,
    ensures
        r == seed_value(bits@),
{
    let mut seed: u64 = 0;
    let mut i: usize = 0;
    proof {
        assert(bits@.take(0) =~= Seq::<bool>::empty());
    }
    while i < 64
        invariant
            i <= 64,
            bits@.len() == 64,
            seed == seed_value(bits@.take(i as int)),
        decreases 64 - i,
    {
        if bits[i] {
            seed = seed | (1u64 << (i as u64));
        } else {
            proof {
                assert(seed | 0u64 == seed) by (bit_vector);
            }
        }
        i = i + 1;
        proof {
            assert(bits@.take(i as int).drop_last() =~= bits@.take(i as int - 1));
            assert(bits@.take(i as int).last() == bits@[i as int - 1]);
        }
    }
    proof {
        assert(bits@.take(64) =~= bits@);
    }
    seed
}

} // verus!
