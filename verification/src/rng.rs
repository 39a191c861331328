//! Reproducible random source.
//!
//! The simulator draws from [`ChaCha8Rng`] rather than rand's `StdRng`: the
//! algorithm of the latter may change between rand versions, which would
//! break "the same seed gives the same result".  ChaCha8's output is fixed by
//! its specification, independent of platform and version.
use vstd::prelude::*;

use rand::RngCore;
use rand::SeedableRng;
use rand_chacha::ChaCha8Rng;
use std::time::{Duration, SystemTime, SystemTimeError, UNIX_EPOCH};

use crate::gacha::{RandomSource, shift};

verus! {

#[verifier::external_type_specification]
#[verifier::external_body]
pub struct ExChaCha8Rng(ChaCha8Rng);

#[verifier::external_type_specification]
#[verifier::external_body]
pub struct ExSystemTime(SystemTime);

#[verifier::external_type_specification]
#[verifier::external_body]
pub struct ExSystemTimeError(SystemTimeError);

/// The `index`-th 64-bit output (counted from 0) of the ChaCha8 generator
/// seeded with `seed`.  ChaCha8's output is fixed by its specification, so it
/// depends on the seed and the position in the stream alone.
pub uninterp spec fn chacha8_draw(seed: u64, index: nat) -> u64;

/// A ChaCha8 generator that remembers its seed and how many outputs it has given.
///
/// The fields are private and the type has no `Clone`: a `SeededRng` is made
/// only by [`seeded_model`] and advanced only by [`seeded_next_u64`], so the
/// recorded seed and position always describe the generator inside.
pub struct SeededRng {
    rng: ChaCha8Rng,
    seed: Ghost<u64>,
    position: Ghost<nat>,
}

impl SeededRng {
    /// The seed the generator was made from.
    pub closed spec fn seed(self) -> u64 {
        self.seed@
    }

    /// The number of outputs given so far.
    pub closed spec fn position(self) -> nat {
        self.position@
    }
}

/// A ChaCha8 generator seeded with `seed`, with `seed` recorded beside it and
/// no output given yet.
///
/// Trusted: calls `rand_core::SeedableRng::seed_from_u64` for `ChaCha8Rng`,
/// which expands the seed with PCG32 and never fails.  The contract claims
/// that the recorded seed is the one the generator was made from, and that
/// the generator is at the start of its stream.
#[verifier::external_body]
fn seeded_model(seed: u64) -> (r: SeededRng)
    ensures
        r.seed() == seed,
        r.position() == 0,
{
    SeededRng { rng: ChaCha8Rng::seed_from_u64(seed), seed: Ghost(seed), position: Ghost(0) }
}

/// The next output of `r`'s generator.
///
/// Trusted: calls `rand_core::RngCore::next_u64` of `ChaCha8Rng`, which never
/// fails.  Since `seeded_model` makes every `SeededRng` and only this function
/// advances one, its generator has given exactly `position` outputs since
/// being seeded with `seed`; the contract claims that the result is the next
/// output of that seed's stream, and counts it.
#[verifier::external_body]
fn seeded_next_u64(r: &mut SeededRng) -> (draw: u64)
    ensures
        draw == chacha8_draw(old(r).seed(), old(r).position()),
        final(r).seed() == old(r).seed(),
        final(r).position() == old(r).position() + 1,
{
    RngCore::next_u64(&mut r.rng)
}

/// A random source seeded with `seed`.
///
/// The same seed always gives the same sequence of draws, so a run is
/// reproducible from its seed: the draws are the ChaCha8 stream of `seed`,
/// from its start.
pub fn seeded(seed: u64) -> (rng: SeededRng)
    ensures
        rng.seed() == seed,
        rng.position() == 0,
        rng.obeys_stream(),
        rng.future() == (|i: nat| chacha8_draw(seed, i)),
{
    let r = seeded_model(seed);
    assert(r.future() =~= (|i: nat| chacha8_draw(seed, i)));
    r
}

impl RandomSource for SeededRng {
    open spec fn obeys_stream(&self) -> bool {
        true
    }

    closed spec fn future(&self) -> spec_fn(nat) -> u64 {
        |i: nat| chacha8_draw(self.seed@, self.position@ + i)
    }

    fn next_u64(&mut self) -> (r: u64) {
        let r = seeded_next_u64(self);
        assert(self.future() =~= shift(old(self).future(), 1));
        r
    }
}

/// The current time of the system clock.
///
/// Trusted: calls `std::time::SystemTime::now`; the contract states nothing of the time.
#[verifier::external_body]
fn clock_now() -> (t: SystemTime) {
    SystemTime::now()
}

/// The time elapsed from the Unix epoch to `t`, or an error when `t` is earlier.
///
/// Trusted: calls `std::time::SystemTime::duration_since` with `UNIX_EPOCH`;
/// the contract states nothing of the opaque result.
#[verifier::external_body]
fn since_unix_epoch(t: &SystemTime) -> (d: Result<Duration, SystemTimeError>) {
    t.duration_since(UNIX_EPOCH)
}

/// The whole number of nanoseconds in `d`.
///
/// Trusted: calls `std::time::Duration::as_nanos`; the contract states nothing
/// of the result, since a `Duration` is opaque here.
#[verifier::external_body]
fn duration_nanos(d: &Duration) -> (n: u128) {
    d.as_nanos()
}

/// The seed used when the clock reads before the Unix epoch.
pub const FALLBACK_SEED: u64 = 0x9E37_79B9_7F4A_7C15;

/// The seed derived from a clock reading: the low 64 bits of the nanoseconds
/// since the Unix epoch, or [`FALLBACK_SEED`] when there is no such reading.
pub fn seed_from_clock(nanos: Option<u128>) -> (seed: u64)
    ensures
        nanos is None ==> seed == FALLBACK_SEED,
        nanos matches Some(n) ==> seed as int == n as int % 0x1_0000_0000_0000_0000,
{
    match nanos {
        None => FALLBACK_SEED,
        Some(n) => {
            let seed = n as u64;
            assert(seed == n % 0x1_0000_0000_0000_0000) by (bit_vector)
                requires
                    seed == n as u64,
            ;
            seed
        },
    }
}

/// The seed of the `run`-th of repeated runs (counted from 0) started from
/// `base`: `base + run`, wrapping around at `2^64`.
pub fn run_seed(base: u64, run: u64) -> (seed: u64)
    ensures
        seed as int == (base as int + run as int) % 0x1_0000_0000_0000_0000,
{
    let seed = base.wrapping_add(run);
    seed
}

/// The seed used when none is given: the current time in nanoseconds.
///
/// The program prints the seed it used, so that the run can be repeated.
pub fn time_seed() -> (seed: u64) {
    let now = clock_now();
    match since_unix_epoch(&now) {
        Ok(d) => seed_from_clock(Some(duration_nanos(&d))),
        Err(_) => seed_from_clock(None),
    }
}

} // verus!
