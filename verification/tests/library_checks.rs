//! Checks of the library's own functions and laws on concrete values.

use wuwa_gacha_sim::gacha::{
    Banner, Item, P5_UP_CHANCE, PER_MILLE, PityState, RandomSource, UNIT_SCALE, draw_hits,
    four_star_hit, five_star_hit, p4, p5, up_hit,
};
use wuwa_gacha_sim::layout::{
    DETAIL_THRESHOLD, LABEL_WIDTH, Painter, RULE_WIDTH, char_width, display_width, pad_display,
    row, rule, show_detail, with_theory,
};
use wuwa_gacha_sim::rng::{self, FALLBACK_SEED, run_seed, seed_from_clock};
use wuwa_gacha_sim::stats::{Detail, Ratio, Stats, ratio, simulate};
use wuwa_gacha_sim::theory::{
    self, LIMITED_LANDING, STANDARD_LANDING, Successors, TABLE_LEN, lane_index, successors,
};

/// A source that always gives the same draw.
struct Constant(u64);

impl RandomSource for Constant {
    fn next_u64(&mut self) -> u64 {
        self.0
    }
}

/// A source that gives the listed draws in turn, then repeats the last one.
struct Script(Vec<u64>, usize);

impl RandomSource for Script {
    fn next_u64(&mut self) -> u64 {
        let d = self.0[self.1.min(self.0.len() - 1)];
        self.1 += 1;
        d
    }
}

/// A draw whose top 53 bits are `unit`.
fn draw_of(unit: u64) -> u64 {
    unit << 11
}

// ───────────────────────────── draws ─────────────────────────────

#[test]
fn draw_hits_compares_the_top_53_bits() {
    // 500‰: unit / 2^53 < 1/2  <=>  unit < 2^52.
    let half = UNIT_SCALE / 2;
    assert!(draw_hits(draw_of(half - 1), 500));
    assert!(!draw_hits(draw_of(half), 500));
    // The low 11 bits do not matter.
    assert!(draw_hits(draw_of(half - 1) | 0x7ff, 500));
    // 1000‰ always hits, 0‰ never does.
    assert!(draw_hits(u64::MAX, PER_MILLE));
    assert!(!draw_hits(0, 0));
    assert!(up_hit(0));
    assert!(!up_hit(u64::MAX));
    assert_eq!(P5_UP_CHANCE, 500);
}

#[test]
fn checks_are_certain_only_at_the_hard_pities() {
    assert!(five_star_hit(79, u64::MAX));
    assert!(!five_star_hit(78, u64::MAX));
    assert!(four_star_hit(9, u64::MAX));
    assert!(!four_star_hit(8, u64::MAX));
    // 8‰ of 2^53 is 72057594037927.936: unit 72057594037927 hits, 72057594037928 does not.
    assert!(five_star_hit(0, draw_of(72_057_594_037_927)));
    assert!(!five_star_hit(0, draw_of(72_057_594_037_928)));
}

#[test]
fn probability_curves_exact_values() {
    assert_eq!(p5(1), 8);
    assert_eq!(p5(65), 8);
    assert_eq!(p5(66), 68);
    assert_eq!(p5(79), 848);
    assert_eq!(p5(80), 1000);
    assert_eq!(p5(u32::MAX), 1000);
    assert_eq!(p4(1), 60);
    assert_eq!(p4(9), 60);
    assert_eq!(p4(10), 1000);
}

// ───────────────────────────── items ─────────────────────────────

#[test]
fn item_payouts_and_labels() {
    assert_eq!(Item::Limited5.coral(), 15);
    assert_eq!(Item::Standard5.coral(), 45);
    assert_eq!(Item::Four.coral(), 8);
    assert_eq!(Item::Three.coral(), 0);
    assert!(Item::Limited5.is_five_star() && Item::Standard5.is_five_star());
    assert!(!Item::Four.is_five_star() && !Item::Three.is_five_star());
    assert_eq!(Item::Limited5.rarity_label(), "5★  限定");
    assert_eq!(Item::Standard5.rarity_label(), "5★  常驻");
    assert_eq!(Item::Four.rarity_label(), "4★  内容");
    assert_eq!(Item::Three.rarity_label(), "3★  武器");
}

// ───────────────────────────── banner ─────────────────────────────

#[test]
fn a_new_banner_is_fresh() {
    let banner = Banner::new(Constant(0));
    assert_eq!(banner.pity5(), 0);
    assert_eq!(banner.pity4(), 0);
    assert!(!banner.guaranteed5());
}

#[test]
fn counters_follow_the_pulls() {
    let mut banner = Banner::new(Constant(u64::MAX));
    for n in 1..=9 {
        assert_eq!(banner.pull().item, Item::Three);
        assert_eq!(banner.pity5(), n);
        assert_eq!(banner.pity4(), n);
    }
    // The 10th pull is the 4★ hard pity.
    assert_eq!(banner.pull().item, Item::Four);
    assert_eq!((banner.pity5(), banner.pity4()), (10, 0));
}

#[test]
fn a_lost_50_50_sets_the_guarantee_and_the_next_5star_uses_it() {
    // 5★ check hits (0), 50/50 lost (MAX), then 5★ check hits again.
    let mut banner = Banner::new(Script(vec![0, u64::MAX, 0], 0));
    let first = banner.pull();
    assert_eq!(first.item, Item::Standard5);
    assert!(!first.used_guarantee);
    assert!(banner.guaranteed5());
    let second = banner.pull();
    assert_eq!(second.item, Item::Limited5);
    assert!(second.used_guarantee);
    assert!(!banner.guaranteed5());
}

#[test]
fn a_won_50_50_keeps_no_guarantee() {
    let mut banner = Banner::new(Constant(0));
    let out = banner.pull();
    assert_eq!(out.item, Item::Limited5);
    assert!(!out.used_guarantee);
    assert!(!banner.guaranteed5());
    assert_eq!((banner.pity5(), banner.pity4()), (0, 0));
}

#[test]
fn every_window_of_ten_pulls_has_a_four_star_or_better() {
    let mut banner = Banner::new(rng::seeded(99));
    let items: Vec<Item> = (0..5_000).map(|_| banner.pull().item).collect();
    for window in items.windows(10) {
        assert!(window.iter().any(|i| *i != Item::Three));
    }
    for window in items.windows(80) {
        assert!(window.iter().any(|i| i.is_five_star()));
    }
}

#[test]
fn one_step_from_given_draws() {
    let s = PityState { pity5: 10, pity4: 3, guaranteed5: true };
    // A guaranteed 5★ needs no second draw and is the limited character.
    assert!(!s.needs_second_draw(0));
    let (t, out) = s.step(0, u64::MAX);
    assert_eq!(t, PityState { pity5: 0, pity4: 0, guaranteed5: false });
    assert_eq!(out.item, Item::Limited5);
    assert!(out.used_guarantee);
    // No 5★: a second draw decides the 4★ check.
    assert!(s.needs_second_draw(u64::MAX));
    let (t, out) = s.step(u64::MAX, 0);
    assert_eq!(t, PityState { pity5: 11, pity4: 0, guaranteed5: true });
    assert_eq!(out.item, Item::Four);
    let (t, out) = s.step(u64::MAX, u64::MAX);
    assert_eq!(t, PityState { pity5: 11, pity4: 4, guaranteed5: true });
    assert_eq!(out.item, Item::Three);
    // Without the guarantee a 5★ needs the 50/50 draw.
    let fresh = PityState { pity5: 0, pity4: 0, guaranteed5: false };
    assert!(fresh.needs_second_draw(0));
    let (t, out) = fresh.step(0, u64::MAX);
    assert_eq!(t, PityState { pity5: 0, pity4: 0, guaranteed5: true });
    assert_eq!(out.item, Item::Standard5);
    assert!(!out.used_guarantee);
}

#[test]
fn default_statistics_are_empty() {
    let stats = Stats::default();
    assert_eq!(stats.pulls, 0);
    assert!(stats.gaps.is_empty() && stats.details.is_empty());
}

// ───────────────────────────── statistics ─────────────────────────────

#[test]
fn ratio_is_none_only_for_a_zero_denominator() {
    assert_eq!(ratio(3, 0), None);
    assert_eq!(ratio(3, 4), Some(Ratio { num: 3, den: 4 }));
    assert_eq!(ratio(0, 1), Some(Ratio { num: 0, den: 1 }));
}

#[test]
fn record_counts_pays_and_numbers_details() {
    let mut banner = Banner::new(Script(vec![u64::MAX, 0, 0, u64::MAX, 0], 0));
    let mut stats = Stats::new();
    // Pull 1: no 5★, 4★ hit → Four.  Pull 2: 5★ hit, 50/50 lost → Standard5.
    // Pull 3: 5★ hit with the guarantee → Limited5.
    for index in 1..=3 {
        let outcome = banner.pull();
        stats.record(index, outcome, true);
    }
    assert_eq!((stats.four, stats.standard5, stats.limited5, stats.three), (1, 1, 1, 0));
    assert_eq!(stats.coral, 8 + 45 + 15);
    assert_eq!(stats.pulls, 3);
    assert_eq!(stats.gaps, vec![2, 1]);
    assert_eq!(stats.since5, 0);
    assert_eq!(
        stats.details,
        vec![
            Detail { seq: 1, pull_index: 1, item: Item::Four, used_guarantee: false },
            Detail { seq: 2, pull_index: 2, item: Item::Standard5, used_guarantee: false },
            Detail { seq: 3, pull_index: 3, item: Item::Limited5, used_guarantee: true },
        ]
    );
    assert_eq!(stats.min_gap(), Some(1));
    assert_eq!(stats.max_gap(), Some(2));
    assert_eq!(stats.exchangeable_pulls(), 68 / 8);
    assert_eq!(stats.five_star_rate(), Some(Ratio { num: 2, den: 3 }));
    assert_eq!(stats.limited5_rate(), Some(Ratio { num: 1, den: 3 }));
    assert_eq!(stats.mean_pulls_per_5star(), Some(Ratio { num: 3, den: 2 }));
    assert_eq!(stats.four_star_rate(), Some(Ratio { num: 1, den: 3 }));
    assert_eq!(stats.mean_pulls_per_4star(), Some(Ratio { num: 3, den: 1 }));
    assert_eq!(stats.three_star_rate(), Some(Ratio { num: 0, den: 3 }));
    assert_eq!(stats.coral_per_pull(), Some(Ratio { num: 68, den: 3 }));
}

#[test]
fn record_without_details_keeps_none() {
    let mut banner = Banner::new(Constant(0));
    let mut stats = Stats::new();
    for index in 1..=5 {
        let outcome = banner.pull();
        stats.record(index, outcome, false);
    }
    assert!(stats.details.is_empty());
    assert_eq!(stats.limited5, 5);
    assert_eq!(stats.gaps, vec![1, 1, 1, 1, 1]);
}

#[test]
fn simulate_with_failing_draws() {
    let mut banner = Banner::new(Constant(u64::MAX));
    let stats = simulate(&mut banner, 200, true);
    assert_eq!(stats.pulls, 200);
    assert_eq!(stats.limited5 + stats.standard5 + stats.four + stats.three, 200);
    assert_eq!((stats.standard5, stats.limited5), (1, 1));
    assert_eq!(stats.gaps, vec![80, 80]);
    assert_eq!(stats.since5, 40);
    assert_eq!(banner.pity5(), 40);
    // At least ⌊200 / 80⌋ 5★.
    assert!(stats.limited5 + stats.standard5 >= 200 / 80);
    assert_eq!(
        stats.details.len() as u64,
        stats.limited5 + stats.standard5 + stats.four
    );
    assert!(stats.details.iter().enumerate().all(|(i, d)| d.seq == i as u64 + 1));
}

#[test]
fn simulate_bounds_every_stretch_by_the_hard_pity() {
    let mut banner = Banner::new(rng::seeded(2024));
    let stats = simulate(&mut banner, 20_000, false);
    assert!(stats.details.is_empty());
    assert!(stats.max_gap().unwrap() <= 80);
    assert!(stats.gaps.iter().all(|g| *g >= 1));
    assert_eq!(stats.gaps.iter().sum::<u64>() + stats.since5, 20_000);
    assert!(stats.limited5 + stats.standard5 >= 20_000 / 80);
    let pending = u64::from(banner.guaranteed5());
    assert!(stats.standard5 <= stats.limited5 + pending);
    assert_eq!(
        stats.coral,
        stats.limited5 * 15 + stats.standard5 * 45 + stats.four * 8
    );
}

// ───────────────────────────── reference values and table ─────────────────────────────

#[test]
fn reference_values_exact() {
    assert_eq!(theory::P5_LIMITED, 12_432);
    assert_eq!(theory::P5_STANDARD, 6_216);
    assert_eq!(theory::P3, 860_145);
    assert_eq!(theory::CORAL_PER_PULL, 1_435_856);
}

#[test]
fn table_lanes() {
    assert_eq!(lane_index(0, 0, 0), LIMITED_LANDING);
    assert_eq!(lane_index(0, 1, 0), STANDARD_LANDING);
    assert_eq!(lane_index(1, 0, 0), 60);
    assert_eq!(lane_index(0, 0, 1), 3);
    assert_eq!(lane_index(79, 1, 9) + 3, TABLE_LEN);
    assert_eq!(
        successors(5, 1, 3),
        Successors {
            base: lane_index(5, 1, 3),
            hit_four: lane_index(6, 1, 0),
            miss: lane_index(6, 1, 4),
        }
    );
    // The last states are capped.
    assert_eq!(
        successors(79, 0, 9),
        Successors {
            base: lane_index(79, 0, 9),
            hit_four: lane_index(79, 0, 0),
            miss: lane_index(79, 0, 9),
        }
    );
}

// ───────────────────────────── layout ─────────────────────────────

#[test]
fn widths_of_characters_and_texts() {
    assert_eq!(char_width('中'), 2);
    assert_eq!(char_width('a'), 1);
    assert_eq!(char_width('★'), 1);
    assert_eq!(char_width('─'), 1);
    assert_eq!(char_width('（'), 2);
    assert_eq!(display_width("5★ 总数"), 7);
    assert_eq!(display_width(""), 0);
}

#[test]
fn padding_counts_columns() {
    assert_eq!(pad_display("限定", 6), "限定  ");
    assert_eq!(pad_display("abcdef", 3), "abcdef");
    let cell = pad_display("  常驻 5★(歪)", LABEL_WIDTH);
    assert_eq!(display_width(&cell), LABEL_WIDTH);
}

#[test]
fn rules_take_the_same_width() {
    for title in ["汇总", "大珊瑚（余波珊瑚）明细", "结束状态", "明细"] {
        let line = rule(title);
        assert!(line.starts_with(&format!("── {title} ")));
        assert_eq!(display_width(&line), RULE_WIDTH);
    }
}

#[test]
fn rows_and_reference_cells() {
    let mut out = String::from("x\n");
    row(&mut out, "4★ 总数", "12");
    assert_eq!(out, format!("x\n4★ 总数{}: 12\n", " ".repeat(LABEL_WIDTH - 7)));
    assert_eq!(with_theory("1.00%".to_string(), "1.86%"), "1.00%   [理论 1.86%]");
    assert_eq!(with_theory("123456789".to_string(), "x"), "123456789[理论 x]");
}

#[test]
fn painter_wraps_only_when_enabled() {
    let on = Painter::new(true);
    let off = Painter::new(false);
    assert_eq!(on.bold("a"), "\u{1b}[1ma\u{1b}[0m");
    assert_eq!(on.cyan("b"), "\u{1b}[36mb\u{1b}[0m");
    assert_eq!(on.paint("4", "c"), "\u{1b}[4mc\u{1b}[0m");
    assert_eq!(off.cyan("b"), "b");
}

#[test]
fn detail_shown_by_default_for_small_single_runs() {
    assert!(show_detail(DETAIL_THRESHOLD, 1, false, false));
    assert!(!show_detail(DETAIL_THRESHOLD + 1, 1, false, false));
    assert!(!show_detail(10, 3, false, false));
    assert!(show_detail(500, 3, false, true));
    assert!(!show_detail(10, 1, true, false));
}

// ───────────────────────────── seeds ─────────────────────────────

#[test]
fn seeds_from_the_clock_and_for_repeats() {
    assert_eq!(seed_from_clock(None), FALLBACK_SEED);
    assert_eq!(seed_from_clock(Some((1u128 << 64) + 5)), 5);
    assert_eq!(seed_from_clock(Some(123)), 123);
    assert_eq!(run_seed(42, 3), 45);
    assert_eq!(run_seed(u64::MAX, 1), 0);
    let _ = rng::time_seed();
}

#[test]
fn seeded_sources_repeat_their_draws() {
    let mut a = rng::seeded(5);
    let mut b = rng::seeded(5);
    let mut c = rng::seeded(6);
    let xs: Vec<u64> = (0..8).map(|_| a.next_u64()).collect();
    let ys: Vec<u64> = (0..8).map(|_| b.next_u64()).collect();
    let zs: Vec<u64> = (0..8).map(|_| c.next_u64()).collect();
    assert_eq!(xs, ys);
    assert_ne!(xs, zs);
}

#[test]
fn detail_flags_apply_call_by_call() {
    let mut banner = Banner::new(Constant(0));
    let mut stats = Stats::new();
    let mut flagged = 0u64;
    for index in 1..=40u64 {
        let outcome = banner.pull();
        let flag = index % 2 == 0;
        if flag && outcome.item != Item::Three {
            flagged += 1;
        }
        stats.record(index, outcome, flag);
    }
    assert_eq!(stats.pulls, 40);
    assert_eq!(stats.limited5 + stats.standard5 + stats.four + stats.three, 40);
    assert_eq!(stats.details.len() as u64, flagged);
    for (j, d) in stats.details.iter().enumerate() {
        assert_eq!(d.seq, j as u64 + 1);
        assert_eq!(d.pull_index % 2, 0);
        assert_ne!(d.item, Item::Three);
    }
    assert!(flagged > 0);
}
