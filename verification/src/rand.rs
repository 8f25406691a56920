//! The randomness capability that the engine draws from, and the shuffle
//! primitive built on it.
//!
//! The engine never talks to the operating system itself: every random
//! decision is made through the [`RandomStream`] trait, which yields one byte
//! at a time and derives wider integers by concatenation. An entropy-backed
//! implementation belongs to the program around the library; the library
//! itself only ships [`RandomStreamForTest`], a deterministic stream for
//! reproducible runs.

use vstd::prelude::*;

verus! {

/// A source of random bytes. Wider integers are derived by concatenating
/// bytes. No distribution is promised: every contract in this crate states
/// what holds of every possible sequence of bytes.
pub trait RandomStream {
    fn read_u8(&mut self) -> u8;

    fn read_usize(&mut self) -> usize {
        let mut acc: usize = 0;
        let mut k: usize = 0;
        while k < 8
            decreases 8 - k,
        {
            let b = self.read_u8();
            acc = (acc << 8u32) | (b as usize);
            k = k + 1;
        }
        acc
    }
}

/// Fisher-Yates shuffle driven by the given random stream. Whatever bytes the
/// stream yields, the result holds exactly the elements it started with.
pub fn shuffle<T: Copy, R: RandomStream>(rand: &mut R, buf: &mut Vec<T>)
    ensures
        final(buf)@.len() == old(buf)@.len(),
        final(buf)@.to_multiset() == old(buf)@.to_multiset(),
        old(buf)@.len() <= 1 ==> final(buf)@ == old(buf)@ && *final(rand) == *old(rand),
{
    let mut i: usize = buf.len();
    while i > 1
        invariant
            i <= buf@.len(),
            buf@.len() == old(buf)@.len(),
            buf@.to_multiset() == old(buf)@.to_multiset(),
            old(buf)@.len() <= 1 ==> buf@ == old(buf)@ && *rand == *old(rand),
        decreases i,
    {
        i = i - 1;
        let k = rand.read_usize();
        let j = k % i;
        let ghost prev = buf@;
        let a = buf[i];
        let b = buf[j];
        buf.set(i, b);
        buf.set(j, a);
        proof {
            broadcast use vstd::seq_lib::group_to_multiset_ensures;

            assert(buf@.to_multiset() =~= prev.to_multiset());
        }
    }
}

/// A deterministic stream for reproducible tests: it returns the counting
/// sequence 1, 2, 3, ..., wrapping around after 255.
pub struct RandomStreamForTest {
    pub counter: u8,
}

impl RandomStreamForTest {
    pub fn new() -> (r: RandomStreamForTest)
        ensures
            r.counter == 0,
    {
        RandomStreamForTest { counter: 0 }
    }
}

impl RandomStream for RandomStreamForTest {
    fn read_u8(&mut self) -> (r: u8)
        ensures
            r as int == (old(self).counter + 1) % 256,
            final(self).counter == r,
    {
        self.counter = self.counter.wrapping_add(1);
        self.counter
    }
}

} // verus!
