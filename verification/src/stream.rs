//! The deterministic random stream: a ChaCha20 generator keyed by a 32-byte
//! seed.  Given the same seed and the same sequence of draws it yields
//! byte-identical output, which is what the reproducibility guarantee of the
//! whole harness rests on.
//!
//! The generator state is modelled by the seed it was built from and an
//! abstract position that advances with every draw.  The outcome of each draw
//! is named as a mathematical function of seed and position, so every
//! consumer's contract can pin its result down as a function of the seed
//! alone.

use vstd::prelude::*;

verus! {

#[verifier::external_type_specification]
#[verifier::external_body]
pub struct ExChaCha20Rng(rand_chacha::ChaCha20Rng);

/// The bytes produced by a ChaCha20 stream with the given seed at the given
/// abstract position when asked for `n` bytes, together with the position the
/// stream is at afterwards.
pub uninterp spec fn chacha_fill(seed: Seq<u8>, pos: int, n: int) -> (Seq<u8>, int);

/// The value drawn by uniform range sampling below `bound` from a ChaCha20
/// stream with the given seed at the given abstract position, together with
/// the position the stream is at afterwards.
pub uninterp spec fn chacha_range(seed: Seq<u8>, pos: int, bound: int) -> (int, int);

/// A deterministic random stream for one test case.  Two streams built from
/// the same seed yield byte-identical output for the same sequence of draws.
pub struct DeterministicStream {
    rng: rand_chacha::ChaCha20Rng,
    seed_g: Ghost<Seq<u8>>,
    pos_g: Ghost<int>,
}

impl DeterministicStream {
    /// The seed this stream was built from.
    pub closed spec fn seed(&self) -> Seq<u8> {
        self.seed_g@
    }

    /// The abstract position within the stream: how far it has been drawn.
    pub closed spec fn pos(&self) -> int {
        self.pos_g@
    }

    /// Build the stream for a seed.  The underlying generator starts at the
    /// beginning of the ChaCha20 output stream keyed by that seed.
    pub fn from_seed(seed: [u8; 32]) -> (s: DeterministicStream)
        ensures
            s.seed() == seed@,
            s.pos() == 0,
    {
        DeterministicStream { rng: chacha_from_seed(seed), seed_g: Ghost(seed@), pos_g: Ghost(0int) }
    }

    /// Relies on `Rng::fill_bytes` of `rand_core`: it fills the whole buffer
    /// with the next bytes of the generator, deterministically in the
    /// generator state and the buffer length.
    #[verifier::external_body]
    pub fn fill(&mut self, buf: &mut Vec<u8>)
        ensures
            final(self).seed() == old(self).seed(),
            final(buf)@.len() == old(buf)@.len(),
            final(buf)@ == chacha_fill(old(self).seed(), old(self).pos(), old(buf)@.len() as int).0,
            final(self).pos() == chacha_fill(
                old(self).seed(),
                old(self).pos(),
                old(buf)@.len() as int,
            ).1,
    {
        rand_chacha::rand_core::Rng::fill_bytes(&mut self.rng, buf.as_mut_slice());
    }

    /// Relies on `RngExt::random_range` of `rand` over `0..bound`: a uniform
    /// draw below `bound`, deterministic in the generator state and the
    /// bound, and documented to sample `usize` portably.
    #[verifier::external_body]
    pub fn random_below(&mut self, bound: usize) -> (r: usize)
        requires
            bound >= 1,
        ensures
            r < bound,
            final(self).seed() == old(self).seed(),
            r as int == chacha_range(old(self).seed(), old(self).pos(), bound as int).0,
            final(self).pos() == chacha_range(old(self).seed(), old(self).pos(), bound as int).1,
    {
        rand::RngExt::random_range(&mut self.rng, 0..bound)
    }
}

/// Relies on `ChaCha20Rng::from_seed` (via `SeedableRng`): a pure function of
/// the seed, with no dependence on time or global state, that yields the
/// generator at the start of the seed's output stream.
#[verifier::external_body]
fn chacha_from_seed(seed: [u8; 32]) -> rand_chacha::ChaCha20Rng {
    <rand_chacha::ChaCha20Rng as rand_chacha::rand_core::SeedableRng>::from_seed(seed)
}

/// Relies on `rand::random`: 32 bytes drawn from the operating system-seeded
/// generator.  Nothing is promised of the value; it is only the key that
/// makes a case reproducible once reported.
#[verifier::external_body]
pub(crate) fn fresh_seed_bytes() -> (r: [u8; 32]) {
    rand::random::<[u8; 32]>()
}

} // verus!
