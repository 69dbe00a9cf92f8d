//! Random nonces.

use rand::rngs::SmallRng;
use rand::{Rng, SeedableRng};
use vstd::prelude::*;

verus! {

/// `rand::rngs::SmallRng`, a generator of random numbers. Its state is opaque.
#[verifier::external_type_specification]
#[verifier::external_body]
pub struct ExSmallRng(SmallRng);

/// The `u32` that a generator gives which `SmallRng::from_seed` made from the 32
/// bytes of `seed` and which has given `drawn` numbers of that type before.
///
/// It depends on nothing else. A seed of 32 bytes is taken only where `SmallRng`
/// is the 64-bit generator (`src/rngs/small.rs` of rand 0.8.8: `type Rng`, `type
/// Seed`), so there is one algorithm. Its state comes from the seed alone, and each
/// draw from the state alone (`src/rngs/xoshiro256plusplus.rs`: `from_seed`,
/// `next_u32`, `next_u64`; `src/distributions/integer.rs`: `Distribution<u32>`).
pub uninterp spec fn nth_nonce(seed: Seq<u8>, drawn: nat) -> u32;

/// A generator of nonces. It remembers what it was seeded with and how many it
/// has given.
pub struct NonceSource {
    rng: SmallRng,
    seed: Ghost<Seq<u8>>,
    drawn: Ghost<nat>,
}

/// What a [`NonceSource`] stands for: the row of nonces of a seed, and a place in
/// it.
#[verifier::ext_equal]
pub struct NonceSourceView {
    pub seed: Seq<u8>,
    pub drawn: nat,
}

impl NonceSourceView {
    /// The start of the row of `seed`.
    pub open spec fn start(seed: Seq<u8>) -> NonceSourceView {
        NonceSourceView { seed, drawn: 0 }
    }

    /// The next nonce.
    pub open spec fn nonce(self) -> u32 {
        nth_nonce(self.seed, self.drawn)
    }

    /// The place after `n` more nonces.
    pub open spec fn advanced(self, n: nat) -> NonceSourceView {
        NonceSourceView { drawn: self.drawn + n, ..self }
    }
}

impl View for NonceSource {
    type V = NonceSourceView;

    closed spec fn view(&self) -> NonceSourceView {
        NonceSourceView { seed: self.seed@, drawn: self.drawn@ }
    }
}

/// A generator that is seeded with `seed` and has given nothing.
///
/// Calls `SmallRng::from_seed`. The contract only records the seed: what it leads
/// to is said where numbers are drawn.
#[verifier::external_body]
fn seeded_source(seed: [u8; 32]) -> (source: NonceSource)
    ensures
        source@ == NonceSourceView::start(seed@),
{
    NonceSource { rng: SmallRng::from_seed(seed), seed: Ghost(seed@), drawn: Ghost(0) }
}

/// The next number of a generator.
///
/// Calls `Rng::gen` for `u32`. The contract says that the number is the one that
/// the seed and the count of earlier draws lead to, and that the generator has
/// then given one more.
#[verifier::external_body]
fn draw_nonce(source: &mut NonceSource) -> (nonce: u32)
    ensures
        nonce == nth_nonce(old(source)@.seed, old(source)@.drawn),
        final(source)@ == old(source)@.advanced(1),
{
    source.drawn = Ghost((source.drawn@ + 1) as nat);
    source.rng.gen()
}

impl NonceSource {
    /// The nonces of `seed`, from the first on.
    pub fn new(seed: [u8; 32]) -> (source: Self)
        ensures
            source@ == NonceSourceView::start(seed@),
    {
        seeded_source(seed)
    }

    /// Gives the next nonce.
    pub fn give(&mut self) -> (nonce: u32)
        ensures
            nonce == old(self)@.nonce(),
            final(self)@ == old(self)@.advanced(1),
    {
        draw_nonce(self)
    }
}

/// The row of a seed starts at its first nonce, and its place moves on by as many
/// nonces as were given.
pub proof fn law_row_of_nonces(source: NonceSourceView, seed: Seq<u8>, n: nat)
    ensures
        NonceSourceView::start(seed).seed == seed,
        NonceSourceView::start(seed).drawn == 0,
        NonceSourceView::start(seed).nonce() == nth_nonce(seed, 0),
        source.nonce() == nth_nonce(source.seed, source.drawn),
        source.advanced(n).seed == source.seed,
        source.advanced(n).drawn == source.drawn + n,
{
}

} // verus!
