//! The deterministic random source every fuzz test draws from.
//!
//! Each test seeds its own generator, either with a published constant or
//! with a digest of the test's name, so a reported failure reproduces
//! exactly: the whole sequence is a pure function of the seed, and no
//! operation consults time or system entropy.

use vstd::prelude::*;

verus! {

/// The generator state a zero seed falls back to; the generator must never
/// sit at zero, where a shift-and-xor step would stay forever.
pub open spec fn fallback_seed() -> u64 {
    0x9e37_79b9_7f4a_7c15u64
}

/// One step of the shift-and-xor generator.
pub open spec fn prng_step(s: u64) -> u64 {
    let a = s ^ (s << 13);
    let b = a ^ (a >> 7);
    b ^ (b << 17)
}

/// The 64-bit digest of a byte string used to derive a seed from a test
/// name: an offset-basis hash folded once per byte with xor and a wrapping
/// multiply.
pub open spec fn name_digest(bytes: Seq<u8>) -> u64
    decreases bytes.len(),
{
    if bytes.len() == 0 {
        0xcbf2_9ce4_8422_2325u64
    } else {
        vstd::wrapping::u64_specs::wrapping_mul(
            name_digest(bytes.drop_last()) ^ (bytes.last() as u64),
            0x0000_0100_0000_01b3u64,
        )
    }
}

/// A seeded deterministic pseudo-random generator.
pub struct Prng {
    /// The current generator state.
    pub state: u64,
}

impl Prng {
    /// A generator seeded with `seed`; a zero seed is replaced by the
    /// fallback so the state never starts at the fixed point.
    pub fn from_seed(seed: u64) -> (r: Prng)
        ensures
            r.state == if seed == 0 {
                fallback_seed()
            } else {
                seed
            },
    {
        if seed == 0 {
            Prng { state: 0x9e37_79b9_7f4a_7c15u64 }
        } else {
            Prng { state: seed }
        }
    }

    /// A generator seeded from a test name's bytes, so that each test has a
    /// fixed, reproducible stream of its own.
    pub fn from_name_bytes(name: &Vec<u8>) -> (r: Prng)
        ensures
            r.state == if name_digest(name@) == 0 {
                fallback_seed()
            } else {
                name_digest(name@)
            },
    {
        let mut digest: u64 = 0xcbf2_9ce4_8422_2325u64;
        let mut i: usize = 0;
        while i < name.len()
            invariant
                0 <= i <= name@.len(),
                digest == name_digest(name@.take(i as int)),
            decreases name@.len() - i,
        {
            proof {
                assert(name@.take(i as int + 1).drop_last() =~= name@.take(i as int));
            }
            digest = (digest ^ (name[i] as u64)).wrapping_mul(0x0000_0100_0000_01b3u64);
            i += 1;
        }
        proof {
            assert(name@.take(name@.len() as int) =~= name@);
        }
        Prng::from_seed(digest)
    }

    /// Draw the next value: step the state and hand it out.
    pub fn next_u64(&mut self) -> (r: u64)
        ensures
            final(self).state == prng_step(old(self).state),
            r == final(self).state,
    {
        let s = self.state;
        let a = s ^ (s << 13u64);
        let b = a ^ (a >> 7u64);
        let c = b ^ (b << 17u64);
        self.state = c;
        c
    }

    /// Draw a value below `bound`.
    pub fn next_below(&mut self, bound: u32) -> (r: u32)
        requires
            bound > 0,
        ensures
            final(self).state == prng_step(old(self).state),
            r == prng_step(old(self).state) as u64 % (bound as u64),
            r < bound,
    {
        let drawn = self.next_u64();
        (drawn % (bound as u64)) as u32
    }
}

} // verus!
