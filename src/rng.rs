use vstd::prelude::*;

verus! {

/// A seeded source of pseudo-random draws (SplitMix64), so that a run is reproducible
/// from its seed.
pub struct Rng {
    state: u64,
}

impl Rng {
    /// A generator whose draws follow from `seed` alone.
    pub fn new(seed: u64) -> (r: Rng) {
        Rng { state: seed }
    }

    /// The next 64 random bits.
    pub fn next_u64(&mut self) -> u64 {
        self.state = self.state.wrapping_add(0x9E37_79B9_7F4A_7C15);
        let mut z = self.state;
        z = (z ^ (z >> 30u64)).wrapping_mul(0xBF58_476D_1CE4_E5B9);
        z = (z ^ (z >> 27u64)).wrapping_mul(0x94D0_49BB_1331_11EB);
        z ^ (z >> 31u64)
    }

    /// A draw below `n`.
    pub fn below(&mut self, n: usize) -> (r: usize)
        requires
            n > 0,
        ensures
            r < n,
    {
        let z = self.next_u64();
        (z % (n as u64)) as usize
    }
}

} // verus!
