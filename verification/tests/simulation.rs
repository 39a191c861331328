//! Unit tests of the probability model, the pity state machine, coral and statistics.

use wuwa_gacha_sim::gacha::{
    Banner, CORAL_4STAR, CORAL_4STAR_MAXED_BONUS, CORAL_5STAR_LIMITED, CORAL_5STAR_STANDARD,
    CORAL_STANDARD_5STAR_BONUS, Item, P4_HARD_PITY, P5_HARD_PITY, RandomSource, p4, p5,
};
use wuwa_gacha_sim::rng;
use wuwa_gacha_sim::stats::{Ratio, Stats};
use wuwa_gacha_sim::theory;

// ─────────────────────────── helpers ───────────────────────────

/// A random source whose every draw is the same value.
///
/// A draw `d` stands for `(d >> 11) / 2^53`, so `0` makes every check succeed
/// and `u64::MAX` makes every check with a chance below 1 fail (a chance of
/// exactly 1, the hard pity, still succeeds).
struct FixedRng(u64);

impl FixedRng {
    /// Every check succeeds.
    const PASS: Self = Self(0);
    /// Every check with a chance below 1 fails.
    const FAIL: Self = Self(u64::MAX);
}

impl RandomSource for FixedRng {
    fn next_u64(&mut self) -> u64 {
        self.0
    }
}

/// Runs `pulls` pulls with the given source; returns each item and the statistics.
fn run<R: RandomSource>(rng: R, pulls: u64) -> (Vec<Item>, Stats) {
    let mut banner = Banner::new(rng);
    let mut stats = Stats::new();
    let mut items = Vec::with_capacity(pulls as usize);
    for index in 1..=pulls {
        let outcome = banner.pull();
        items.push(outcome.item);
        stats.record(index, outcome, true);
    }
    (items, stats)
}

/// The value of a per-mille chance.
fn chance(per_mille: u32) -> f64 {
    f64::from(per_mille) / 1000.0
}

/// The value of an exact ratio.
fn value(r: Ratio) -> f64 {
    r.num as f64 / r.den as f64
}

/// The value of a reference rate given in millionths.
fn rate(millionths: u64) -> f64 {
    millionths as f64 / theory::MILLIONTHS as f64
}

/// Whether `actual` is within `tolerance` (relative) of `expected`.
fn within(actual: f64, expected: f64, tolerance: f64) -> bool {
    (actual - expected).abs() <= expected.abs() * tolerance
}

// ───────────────────────── the probability curves ─────────────────────────

#[test]
fn p5_curve_matches_spec() {
    assert!((chance(p5(1)) - 0.008).abs() < 1e-12, "p5(1) = {}", p5(1));
    assert!((chance(p5(2)) - 0.008).abs() < 1e-12);
    assert!((chance(p5(65)) - 0.008).abs() < 1e-12, "p5(65) = {}", p5(65));
    assert!((chance(p5(66)) - 0.068).abs() < 1e-12, "p5(66) = {}", p5(66));
    assert!((chance(p5(67)) - 0.128).abs() < 1e-12);
    assert!((chance(p5(79)) - 0.848).abs() < 1e-12, "p5(79) = {}", p5(79));
    assert!((chance(p5(80)) - 1.0).abs() < 1e-12, "p5(80) = {}", p5(80));
}

#[test]
fn p5_is_monotonic_and_bounded() {
    let mut previous = 0.0;
    for n in 1..=P5_HARD_PITY {
        let current = chance(p5(n));
        assert!(current >= previous, "p5 decreased at n={n}");
        assert!((0.0..=1.0).contains(&current), "p5({n}) = {current} out of range");
        previous = current;
    }
    // Beyond the hard pity the chance stays 1.
    assert!((chance(p5(P5_HARD_PITY + 10)) - 1.0).abs() < 1e-12);
}

#[test]
fn p4_curve_matches_spec() {
    for n in 1..P4_HARD_PITY {
        assert!((chance(p4(n)) - 0.06).abs() < 1e-12, "p4({n}) = {}", p4(n));
    }
    assert!((chance(p4(P4_HARD_PITY)) - 1.0).abs() < 1e-12);
    assert!((chance(p4(P4_HARD_PITY + 5)) - 1.0).abs() < 1e-12);
}

// ───────────────────────── pity and control flow ─────────────────────────

#[test]
fn five_star_hard_pity_hits_at_pull_80() {
    // FAIL makes every check below 1 fail, so a 5★ can only come from the hard pity at pull 80.
    let (items, stats) = run(FixedRng::FAIL, 80);

    for (i, item) in items.iter().enumerate().take(79) {
        assert!(!item.is_five_star(), "pull {} must not be a 5★", i + 1);
    }
    assert_eq!(items[79], Item::Standard5, "pull 80 must be the hard-pity 5★");
    assert_eq!(stats.five_star_total(), 1);
}

#[test]
fn pity5_resets_after_gold() {
    let (_, stats) = run(FixedRng::FAIL, 80);
    // The only 5★ of these 80 pulls is pull 80, so both the shortest and the longest stretch are 80.
    assert_eq!(stats.min_gap(), Some(80));
    assert_eq!(stats.max_gap(), Some(80));
}

#[test]
fn five_star_guarantee_alternates_after_losing_5050() {
    // With FAIL every 50/50 is lost, so the next 5★ is the guaranteed limited one.
    let (items, stats) = run(FixedRng::FAIL, 160);

    assert_eq!(stats.standard5, 1, "the first 5★ loses the 50/50");
    assert_eq!(stats.limited5, 1, "the second 5★ is the guaranteed limited one");
    assert_eq!(items[79], Item::Standard5);
    assert_eq!(items[159], Item::Limited5);
}

#[test]
fn pass_rng_yields_five_star_every_pull() {
    // PASS makes every 5★ check succeed, and every 50/50 as well.
    let (items, stats) = run(FixedRng::PASS, 10);
    assert!(items.iter().all(|i| *i == Item::Limited5));
    assert_eq!(stats.limited5, 10);
    assert_eq!(stats.four, 0);
    assert_eq!(stats.three, 0);
}

#[test]
fn pity4_is_reset_by_five_star() {
    // With FAIL, 4★ come at pulls 10, 20, …, 70; pull 80 is the hard-pity 5★,
    // which resets the 4★ counter, so the next 4★ is pull 90 and not pull 81.
    let (items, _) = run(FixedRng::FAIL, 100);

    let four_star_pulls: Vec<usize> = items
        .iter()
        .enumerate()
        .filter(|(_, item)| **item == Item::Four)
        .map(|(i, _)| i + 1)
        .collect();

    assert_eq!(
        four_star_pulls,
        vec![10, 20, 30, 40, 50, 60, 70, 90, 100],
        "a 5★ must reset the 4★ counter; 81 would mean it did not"
    );
    assert_eq!(items[79], Item::Standard5, "pull 80 is the 5★");
    assert_eq!(items[80], Item::Three, "pull 81 is a 3★ (the 4★ counter was reset)");
}

// ───────────────────────────── coral ─────────────────────────────

#[test]
fn coral_constants_match_rules() {
    assert_eq!(CORAL_5STAR_LIMITED, 15);
    assert_eq!(CORAL_5STAR_STANDARD, 45);
    assert_eq!(CORAL_4STAR, 8);
    // A standard 5★ pays exactly 30 more than a limited one.
    assert_eq!(CORAL_5STAR_STANDARD - CORAL_5STAR_LIMITED, CORAL_STANDARD_5STAR_BONUS);
    assert_eq!(CORAL_STANDARD_5STAR_BONUS, 30);
    // The 8 of a 4★ is 3 base + 5 from resonance conversion.
    assert_eq!(CORAL_4STAR - CORAL_4STAR_MAXED_BONUS, 3);
}

#[test]
fn only_three_star_weapons_produce_no_coral() {
    // Within 5 pulls neither pity is reached, so every item is a 3★ weapon.
    let (items, stats) = run(FixedRng::FAIL, 5);
    assert!(items.iter().all(|i| *i == Item::Three));
    assert_eq!(stats.coral, 0);
    assert_eq!(stats.exchangeable_pulls(), 0);
}

#[test]
fn coral_identity_holds_over_a_large_run() {
    let (_, stats) = run(rng::seeded(20240614), 200_000);

    let expected = stats.limited5 * u64::from(CORAL_5STAR_LIMITED)
        + stats.standard5 * u64::from(CORAL_5STAR_STANDARD)
        + stats.four * u64::from(CORAL_4STAR);
    assert_eq!(
        stats.coral, expected,
        "coral must equal limited 5★ × 15 + standard 5★ × 45 + 4★ × 8"
    );

    // The three rarities share all pulls.
    assert_eq!(
        stats.limited5 + stats.standard5 + stats.four + stats.three,
        stats.pulls
    );
}

// ───────────────────────── reproducibility and edges ─────────────────────────

#[test]
fn same_seed_produces_identical_results() {
    let a = run(rng::seeded(42), 5_000).1;
    let b = run(rng::seeded(42), 5_000).1;

    assert_eq!(a.limited5, b.limited5);
    assert_eq!(a.standard5, b.standard5);
    assert_eq!(a.four, b.four);
    assert_eq!(a.three, b.three);
    assert_eq!(a.coral, b.coral);
    assert_eq!(a.min_gap(), b.min_gap());
    assert_eq!(a.max_gap(), b.max_gap());
    assert_eq!(a.details, b.details, "the details must be identical too");
}

#[test]
fn different_seeds_produce_different_results() {
    let a = run(rng::seeded(1), 5_000).1;
    let b = run(rng::seeded(2), 5_000).1;
    assert!(
        a.coral != b.coral || a.details != b.details,
        "different seeds must not give the very same simulation"
    );
}

#[test]
fn zero_pulls_is_safe() {
    let stats = Stats::new();
    assert_eq!(stats.pulls, 0);
    assert_eq!(stats.coral, 0);
    assert_eq!(stats.exchangeable_pulls(), 0);
    assert_eq!(stats.five_star_total(), 0);
    // With a zero denominator there is no ratio at all (the report shows '-').
    assert!(stats.five_star_rate().is_none());
    assert!(stats.four_star_rate().is_none());
    assert!(stats.mean_pulls_per_5star().is_none());
    assert!(stats.mean_pulls_per_4star().is_none());
    assert!(stats.coral_per_pull().is_none());
    assert!(stats.min_gap().is_none());
    assert!(stats.max_gap().is_none());
}

// ───────────────────────── reference values ─────────────────────────

#[test]
fn theory_constants_are_self_consistent() {
    let p5 = rate(theory::P5);
    let p4 = rate(theory::P4);
    let p3 = rate(theory::P3);
    let p5_limited = rate(theory::P5_LIMITED);
    let p5_standard = rate(theory::P5_STANDARD);
    let mean = theory::MEAN_PULLS_PER_5STAR as f64 / theory::THOUSANDTHS as f64;
    let coral_per_pull = rate(theory::CORAL_PER_PULL);

    let sum = p5 + p4 + p3;
    assert!((sum - 1.0).abs() < 1e-9, "the three rates must add up to 100%, got {sum}");
    assert!((p5_limited + p5_standard - p5).abs() < 1e-12);
    assert!((mean - 1.0 / p5).abs() < 0.01);

    let expected_coral = p5_limited * f64::from(CORAL_5STAR_LIMITED)
        + p5_standard * f64::from(CORAL_5STAR_STANDARD)
        + p4 * f64::from(CORAL_4STAR);
    assert!((coral_per_pull - expected_coral).abs() < 1e-12);
}

// ───────────────────────── large sample ─────────────────────────

/// Two million pulls checked against the reference values.
#[test]
fn large_sample_matches_theory() {
    const PULLS: u64 = 2_000_000;
    let (_, stats) = run(rng::seeded(7), PULLS);

    let five_star_rate = value(stats.five_star_rate().expect("pulls are not 0"));
    let mean_per_5star = value(stats.mean_pulls_per_5star().expect("pulls are not 0"));
    let four_star_rate = value(stats.four_star_rate().expect("pulls are not 0"));
    let coral_per_pull = value(stats.coral_per_pull().expect("pulls are not 0"));

    assert!(
        (0.0183..=0.0190).contains(&five_star_rate),
        "5★ rate {five_star_rate} outside [1.83%, 1.90%]"
    );
    assert!(
        (52.5..=54.8).contains(&mean_per_5star),
        "mean pulls per 5★ {mean_per_5star} outside [52.5, 54.8]"
    );
    // The upper bound 12.5% fails if a 5★ did not reset the 4★ counter (12.7%).
    assert!(
        (0.118..=0.125).contains(&four_star_rate),
        "4★ rate {four_star_rate} outside [11.8%, 12.5%]"
    );
    assert!(
        (1.40..=1.48).contains(&coral_per_pull),
        "coral per pull {coral_per_pull} outside [1.40, 1.48]"
    );

    assert!(within(five_star_rate, rate(theory::P5), 0.05));
    assert!(within(four_star_rate, rate(theory::P4), 0.05));
    assert!(within(coral_per_pull, rate(theory::CORAL_PER_PULL), 0.05));
}
