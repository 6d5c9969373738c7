//! The pseudo-random stream that drives map generation, enemy behaviour and
//! particle cosmetics.

use vstd::prelude::*;

verus! {

/// One step of the stream: the state that follows `s`.
pub open spec fn xorshift(s: usize) -> usize {
    let a = s ^ (s << 13usize);
    let b = a ^ (a >> 17usize);
    b ^ (b << 5usize)
}

/// The state after `n` draws from state `s`.
pub open spec fn state_after(s: usize, n: nat) -> usize
    decreases n,
{
    if n == 0 {
        s
    } else {
        xorshift(state_after(s, (n - 1) as nat))
    }
}

/// A xorshift generator over one machine word. Each draw replaces the state by
/// its successor and returns the new state.
pub struct Rand(pub usize);

impl Rand {
    /// Advances the stream and returns the value drawn.
    pub fn next(&mut self) -> (r: usize)
        ensures
            r == xorshift(old(self).0),
            final(self).0 == r,
    {
        let a: usize = self.0 ^ (self.0 << 13usize);
        let b: usize = a ^ (a >> 17usize);
        let c: usize = b ^ (b << 5usize);
        self.0 = c;
        c
    }
}

} // verus!
