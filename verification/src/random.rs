use vstd::prelude::*;

verus! {

/// `rand::rngs::StdRng`, carried through as an opaque value.
#[verifier::external_type_specification]
#[verifier::external_body]
pub struct ExStdRng(rand::rngs::StdRng);

/// Calls `rand::random::<u8>()`, which draws from the thread's generator. Any
/// byte may come back.
#[verifier::external_body]
pub(crate) fn random_byte() -> (byte: u8) {
    rand::random::<u8>()
}

/// Calls `rand::Rng::gen_range` with the range `0..bound` on the thread's
/// generator, `rand::thread_rng()`. The result lies in that range; an empty
/// range would panic, so `bound` is positive.
#[verifier::external_body]
pub(crate) fn random_below(bound: u64) -> (drawn: u64)
    requires
        bound > 0,
    ensures
        drawn < bound,
{
    rand::Rng::gen_range(&mut rand::thread_rng(), 0..bound)
}

/// Calls `rand::SeedableRng::from_entropy` for a `StdRng`, seeded by the
/// operating system. Nothing is known of the generator that comes back. Where
/// the operating system has no entropy to give, the call does not return.
#[verifier::external_body]
pub(crate) fn entropy_rng() -> (rng: rand::rngs::StdRng) {
    rand::SeedableRng::from_entropy()
}

/// Calls `rand::Rng::gen_range` with the range `0..bound` on the given
/// generator. The result lies in that range; an empty range would panic, so
/// `bound` is positive.
#[verifier::external_body]
pub(crate) fn draw_below(rng: &mut rand::rngs::StdRng, bound: u64) -> (drawn: u64)
    requires
        bound > 0,
    ensures
        drawn < bound,
{
    rand::Rng::gen_range(rng, 0..bound)
}

} // verus!
