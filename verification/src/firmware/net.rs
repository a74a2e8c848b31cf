//! The network stack of a device.

use vstd::prelude::*;

verus! {

/// Milliseconds between two looks at the state of the network stack.
pub const MILLISECONDS_TO_WAIT: u64 = 100;

/// The network stack builder.
pub struct NetworkStack;

impl NetworkStack {
    /// Makes the seed of the network stack from two random numbers: the
    /// first gives the high 32 bits, the second the low 32 bits.
    #[must_use]
    pub fn seed(high: u32, low: u32) -> (seed: u64)
        ensures
            seed == high * 0x1_0000_0000 + low,
    {
        let high: u64 = high as u64;
        let low: u64 = low as u64;
        assert(high << 32 == high * 0x1_0000_0000) by (bit_vector)
            requires
                high <= 0xFFFF_FFFF,
        ;
        assert((high << 32) | low == (high << 32) + low) by (bit_vector)
            requires
                high <= 0xFFFF_FFFF,
                low <= 0xFFFF_FFFF,
        ;
        high << 32 | low
    }
}

} // verus!
