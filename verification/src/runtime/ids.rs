//! Stream identities: the numbers that tell the clones of a client handle
//! apart.

use vstd::prelude::*;

verus! {

/// The identity of a handle that was never cloned. Calls under it are not
/// tracked and cannot be cancelled.
pub const UNTRACKED: u64 = 0;

/// The counter from which the clones of one handle draw their identities.
/// The clones share one counter; it cannot be copied.
#[derive(Debug)]
pub struct IdSource {
    next: u64,
}

/// The number of values of `u64`.
pub open spec fn modulus() -> int {
    0x1_0000_0000_0000_0000
}

/// The identity that the draw number `n`, counted from 0, hands out of a
/// counter that stands at `first`.
pub open spec fn nth_identity(first: u64, n: nat) -> u64 {
    ((first + n) % modulus()) as u64
}

impl IdSource {
    /// The identity that the next clone gets.
    pub closed spec fn next(self) -> u64 {
        self.next
    }

    /// A counter from which no identity was drawn: the first is 1.
    pub fn new() -> (ids: IdSource)
        ensures
            ids.next() == 1,
    {
        IdSource { next: 1 }
    }

    /// Draws an identity: the counter's value, which then goes up by one and
    /// wraps at the end of `u64`.
    pub fn draw(&mut self) -> (id: u64)
        ensures
            id == old(self).next(),
            final(self).next() == nth_identity(old(self).next(), 1),
    {
        let id = self.next;
        self.next = self.next.wrapping_add(1);
        id
    }
}

/// The first draw hands out the value at which the counter stands.
pub proof fn lemma_first_draw(first: u64)
    ensures
        nth_identity(first, 0) == first,
{
    vstd::arithmetic::div_mod::lemma_small_mod(first as nat, modulus() as nat);
}

/// Drawing moves the counter on by one: what the draw number `n` hands out
/// after a draw is what the draw number `n + 1` handed out before it.
pub proof fn lemma_draw_moves_on(first: u64, n: nat)
    ensures
        nth_identity(nth_identity(first, 1), n) == nth_identity(first, n + 1),
{
    if first == u64::MAX {
        vstd::arithmetic::div_mod::lemma_mod_multiples_vanish(1, n as int, modulus());
    } else {
        assert(nth_identity(first, 1) == first + 1) by {
            vstd::arithmetic::div_mod::lemma_small_mod((first + 1) as nat, modulus() as nat);
        }
    }
}

/// Two clones never share an identity: two draws from one counter, fewer
/// than 2^64 draws apart, hand out different identities.
pub proof fn lemma_identities_differ(first: u64, i: nat, j: nat)
    requires
        i < j,
        j - i < modulus(),
    ensures
        nth_identity(first, i) != nth_identity(first, j),
{
    let m = modulus();
    let x = first + i;
    let y = first + j;
    if x % m == y % m {
        vstd::arithmetic::div_mod::lemma_fundamental_div_mod(x, m);
        vstd::arithmetic::div_mod::lemma_fundamental_div_mod(y, m);
        let q = y / m - x / m;
        assert(y - x == m * q) by (nonlinear_arith)
            requires
                x == m * (x / m) + x % m,
                y == m * (y / m) + y % m,
                x % m == y % m,
                q == y / m - x / m,
        ;
        assert(false) by (nonlinear_arith)
            requires
                y - x == m * q,
                0 < y - x < m,
        ;
    }
}

/// The identities of clones are tracked ones and go up: from a new counter
/// the draw number `n` hands out `n + 1`, as long as the counter has not
/// wrapped.
pub proof fn lemma_identities_go_up(n: nat)
    requires
        n < u64::MAX,
    ensures
        nth_identity(1, n) == n + 1,
        nth_identity(1, n) != UNTRACKED,
{
    vstd::arithmetic::div_mod::lemma_small_mod(1 + n, modulus() as nat);
}

} // verus!
