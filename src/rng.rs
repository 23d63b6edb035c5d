use rand::rngs::SmallRng;
use rand::{Rng, SeedableRng};
use vstd::prelude::*;

verus! {

#[verifier::external_type_specification]
#[verifier::external_body]
pub struct ExSmallRng(SmallRng);

/// The byte that the `i`-th next draw of a `u8` (counting from 0) takes from
/// generator `r`: a draw is `next_u32() as u8`, a fixed function of the
/// generator's state.
pub uninterp spec fn drawn_byte(r: SmallRng, i: nat) -> u8;

/// The `i`-th byte (counting from 0) that successive draws of a `u8` take from
/// `SmallRng::seed_from_u64(seed)`; seeding is a fixed function of the seed.
pub uninterp spec fn seeded_byte(seed: u64, i: nat) -> u8;

/// Relies on `SeedableRng::seed_from_u64` for `SmallRng`: the stream of bytes
/// the new generator yields is determined by the seed.
#[verifier::external_body]
pub(crate) fn seeded_rng(seed: u64) -> (r: SmallRng)
    ensures
        forall|i: nat| #[trigger] drawn_byte(r, i) == seeded_byte(seed, i),
{
    SmallRng::seed_from_u64(seed)
}

/// Relies on `Rng::gen::<u8>` for `SmallRng`: it returns the next byte of the
/// generator's stream and advances the stream by one draw.
#[verifier::external_body]
pub(crate) fn draw_byte(rng: &mut SmallRng) -> (b: u8)
    ensures
        b == drawn_byte(*old(rng), 0),
        forall|i: nat| #[trigger] drawn_byte(*final(rng), i) == drawn_byte(*old(rng), i + 1),
{
    rng.gen::<u8>()
}

/// Relies on `rand::random`, drawn from the thread-local generator: nothing is
/// known of the value.
pub assume_specification<T>[ rand::random::<T> ]() -> (r: T)
    where
        rand::distributions::Standard: rand::distributions::Distribution<T>,
;

} // verus!
