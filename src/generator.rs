//! The generator core: the xoshiro256** generator of `rand_xoshiro`, held as
//! an opaque value, and the mathematical model that the rest of the library
//! states its contracts over.

use vstd::prelude::*;
use rand::RngCore;
use rand::SeedableRng;
use rand_seeder::Seeder;
use rand_xoshiro::Xoshiro256StarStar;

verus! {

#[verifier::external_type_specification]
#[verifier::external_body]
pub struct ExXoshiro256StarStar(rand_xoshiro::Xoshiro256StarStar);

#[verifier::external_type_specification]
#[verifier::external_body]
pub struct ExRandError(rand::Error);

/// Relies on the derived `Clone` of `Xoshiro256StarStar`, which copies its
/// state.
pub assume_specification[ <rand_xoshiro::Xoshiro256StarStar as std::clone::Clone>::clone ](g: &rand_xoshiro::Xoshiro256StarStar) -> (r: rand_xoshiro::Xoshiro256StarStar)
    ensures
        r == *g,
;

/// What one `next_u64` call does to a generator in state `g`: the value it
/// returns and the state it leaves behind.
pub uninterp spec fn xoshiro_next(g: Xoshiro256StarStar) -> (u64, Xoshiro256StarStar);

/// The state that `seed_from_u64(n)` builds.
pub uninterp spec fn xoshiro_from_u64(n: u64) -> Xoshiro256StarStar;

/// The state that a `Seeder` built from the text `s` makes.
pub uninterp spec fn xoshiro_from_text(s: Seq<char>) -> Xoshiro256StarStar;

/// The state that `from_seed` builds from the little-endian bytes of the
/// four words `w`.
pub uninterp spec fn xoshiro_from_words(w: Seq<u64>) -> Xoshiro256StarStar;

/// The next value a generator in state `g` hands out.
pub open spec fn draw(g: Xoshiro256StarStar) -> u64 {
    xoshiro_next(g).0
}

/// The state of `g` after one draw.
pub open spec fn advance(g: Xoshiro256StarStar) -> Xoshiro256StarStar {
    xoshiro_next(g).1
}

/// The state of `g` after `k` draws.
pub open spec fn advance_by(g: Xoshiro256StarStar, k: nat) -> Xoshiro256StarStar
    decreases k,
{
    if k == 0 {
        g
    } else {
        advance_by(advance(g), (k - 1) as nat)
    }
}

/// The next `k` values a generator in state `g` hands out, in order.
pub open spec fn draws(g: Xoshiro256StarStar, k: nat) -> Seq<u64>
    decreases k,
{
    if k == 0 {
        Seq::empty()
    } else {
        seq![draw(g)] + draws(advance(g), (k - 1) as nat)
    }
}

/// The 32-bit value handed out for the 64-bit draw `x`: its upper half.
pub open spec fn upper_half(x: u64) -> u32 {
    (x >> 32u64) as u32
}

/// The number of 64-bit draws that seeding a child consumes from its parent.
pub const SEED_WORDS: usize = 4;

/// The state of a child seeded from a parent in state `g`.
pub open spec fn child_of(g: Xoshiro256StarStar) -> Xoshiro256StarStar {
    xoshiro_from_words(draws(g, SEED_WORDS as nat))
}

/// Relies on `RngCore::next_u64` of `Xoshiro256StarStar`: one step of the
/// generator, which depends on its state alone.
#[verifier::external_body]
pub(crate) fn next_u64_of(g: &mut Xoshiro256StarStar) -> (r: u64)
    ensures
        (r, *final(g)) == xoshiro_next(*old(g)),
{
    g.next_u64()
}

/// Relies on `RngCore::next_u32` of `Xoshiro256StarStar`, which takes one
/// 64-bit step and keeps its upper 32 bits.
#[verifier::external_body]
pub(crate) fn next_u32_of(g: &mut Xoshiro256StarStar) -> (r: u32)
    ensures
        r == upper_half(draw(*old(g))),
        *final(g) == advance(*old(g)),
{
    g.next_u32()
}

/// Relies on `SeedableRng::seed_from_u64` of `Xoshiro256StarStar`: the state
/// is a function of `n` alone.
#[verifier::external_body]
pub(crate) fn from_u64(n: u64) -> (r: Xoshiro256StarStar)
    ensures
        r == xoshiro_from_u64(n),
{
    Xoshiro256StarStar::seed_from_u64(n)
}

/// Relies on `Seeder::from` over a `&str` and `Seeder::make_rng`: the text is
/// hashed into a seed, so the state is a function of the characters alone.
#[verifier::external_body]
pub(crate) fn from_text(s: &str) -> (r: Xoshiro256StarStar)
    ensures
        r == xoshiro_from_text(s@),
{
    Seeder::from(s).make_rng::<Xoshiro256StarStar>()
}

/// Relies on `SeedableRng::from_entropy`, which reads the operating system's
/// randomness and panics when none is available: nothing is known of the
/// state it returns.
#[verifier::external_body]
pub(crate) fn from_entropy() -> (r: Xoshiro256StarStar)
{
    Xoshiro256StarStar::from_entropy()
}

/// Relies on `SeedableRng::from_rng` over a `&mut Xoshiro256StarStar`: it
/// fills a 32-byte seed through the parent's `try_fill_bytes`, which for this
/// generator takes four `next_u64` steps and never fails, and hands the seed
/// to `from_seed`.
#[verifier::external_body]
pub(crate) fn from_parent(g: &mut Xoshiro256StarStar) -> (r: Result<Xoshiro256StarStar, rand::Error>)
    ensures
        r is Ok,
        r matches Ok(c) && c == xoshiro_from_words(draws(*old(g), SEED_WORDS as nat)),
        *final(g) == advance_by(*old(g), SEED_WORDS as nat),
{
    Xoshiro256StarStar::from_rng(&mut *g)
}

} // verus!
