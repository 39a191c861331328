//! Checks of the report text and of reproducible runs.

use wuwa_gacha_sim::gacha::{Banner, Item, PityState, RandomSource};
use wuwa_gacha_sim::layout::{Painter, decimal, left_align, pad_display, right_align};
use wuwa_gacha_sim::report::{
    ReportCells, RunReport, coral_section, render_report, detail_line, details_section, end_state_section, light_line,
    render_header, render_run, repeat_title, summary_section,
};
use wuwa_gacha_sim::rng;
use wuwa_gacha_sim::stats::{Detail, Stats, simulate, simulate_runs, simulate_seeded};

fn cells() -> ReportCells {
    ReportCells {
        five_star_rate: "1.50%".to_string(),
        five_star_rate_ref: "1.86%".to_string(),
        mean_pulls_per_5star: "66.67".to_string(),
        mean_pulls_per_5star_ref: "53.62".to_string(),
        four_star_rate: "12.00%".to_string(),
        four_star_rate_ref: "12.12%".to_string(),
        mean_pulls_per_4star: "8.33".to_string(),
        mean_pulls_per_4star_ref: "8.25".to_string(),
        coral_per_pull: "1.40".to_string(),
        coral_per_pull_ref: "1.44".to_string(),
        coral_per_100: "140.0".to_string(),
        coral_per_100_ref: "143.6".to_string(),
        expected_five_star: "3.73".to_string(),
        deviation: "      (偏差 -19.6%)".to_string(),
        expected_limited: "2.49".to_string(),
        expected_four: "24.2".to_string(),
        expected_coral: "287.2".to_string(),
    }
}

fn seeded_stats(seed: u64, pulls: u64) -> (Stats, PityState) {
    simulate_seeded(seed, pulls, true)
}

#[test]
fn numerals_and_alignment_match_std_formatting() {
    for n in [0u64, 7, 10, 99, 100, 1234, 4_294_967_296, u64::MAX] {
        assert_eq!(decimal(n), n.to_string());
        assert_eq!(right_align(decimal(n), 4), format!("{n:>4}"));
        assert_eq!(left_align(decimal(n), 3), format!("{n:<3}"));
    }
}

#[test]
fn detail_lines_match_their_layout() {
    let cases = [
        Detail { seq: 1, pull_index: 10, item: Item::Four, used_guarantee: false },
        Detail { seq: 2, pull_index: 80, item: Item::Standard5, used_guarantee: false },
        Detail { seq: 12, pull_index: 1234, item: Item::Limited5, used_guarantee: true },
        Detail { seq: 123, pull_index: 7, item: Item::Limited5, used_guarantee: false },
    ];
    for d in cases {
        let note = match d.item {
            Item::Limited5 if d.used_guarantee => "   (歪后大保底)",
            Item::Limited5 => "   (50/50 成功)",
            Item::Standard5 => "   (50/50 失败 → 下次必限定)",
            Item::Four | Item::Three => "",
        };
        let expected = format!(
            "#{:<3}第 {:>4} 抽   {} {:<4}大珊瑚{}\n",
            d.seq,
            d.pull_index,
            pad_display(d.item.rarity_label(), 10),
            format!("+{}", d.item.coral()),
            note
        );
        assert_eq!(detail_line(&d), expected);
    }
}

#[test]
fn sections_come_in_order_with_details_last() {
    let (stats, end) = seeded_stats(42, 200);
    let c = cells();
    let p = Painter::new(false);
    let full = render_run(&stats, end, true, &c, &p);
    let positions: Vec<usize> = ["── 汇总 ", "── 大珊瑚（余波珊瑚）明细 ", "── 结束状态 ", "── 与理论值对比 ", "── 明细 "]
        .iter()
        .map(|t| full.find(t).expect("section present"))
        .collect();
    assert!(positions.windows(2).all(|w| w[0] < w[1]));
    assert_eq!(
        full,
        [
            summary_section(&stats, &c, &p),
            coral_section(&stats, &c, &p),
            end_state_section(end, &p),
            wuwa_gacha_sim::report::comparison_section(&stats, &c, &p),
            details_section(&stats, &p),
        ]
        .concat()
    );
    for gone in ["歪(50/50 失败)", "3★ 武器", "最欧", "可兑换限定抽数"] {
        assert!(!full.contains(gone), "{gone} must not be in the report");
    }
    let summary_only = render_run(&stats, end, false, &c, &p);
    assert!(!summary_only.contains("── 明细 "));
    assert!(full.starts_with(&summary_only));
}

#[test]
fn summary_rows_read_back() {
    let (stats, end) = seeded_stats(42, 200);
    let text = render_run(&stats, end, false, &cells(), &Painter::new(false));
    let field = |label: &str| -> u64 {
        text.lines()
            .find(|l| l.contains(label))
            .and_then(|l| l.rsplit_once(':'))
            .map(|(_, v)| v.trim().parse().unwrap())
            .unwrap()
    };
    assert_eq!(field("  限定 5★"), stats.limited5);
    assert_eq!(field("  常驻 5★"), stats.standard5);
    assert_eq!(field("5★ 总数"), stats.limited5 + stats.standard5);
    assert_eq!(field("4★ 总数"), stats.four);
    assert_eq!(field("总获取量"), stats.coral);
    assert!(text.contains("  综合出金率     : 1.50%   [理论 1.86%]\n"));
    assert!(text.contains(&format!(
        "（距硬保底还差 {} 抽）",
        80 - end.pity5
    )));
}

#[test]
fn empty_details_say_so() {
    let stats = Stats::new();
    let text = details_section(&stats, &Painter::new(false));
    assert!(text.contains("（本次没有 5★ 或 4★ 产出）\n"));
}

#[test]
fn header_and_light_lines() {
    let p = Painter::new(false);
    assert_eq!(
        render_header(200, 42, 1, true, &p),
        "=== 鸣潮 · 角色活动唤取 模拟 ===\n随机种子 : 42\n抽卡次数 : 200\n"
    );
    assert_eq!(
        render_header(200, 42, 8, true, &p),
        "=== 鸣潮 · 角色活动唤取 模拟 ===\n重复次数 : 8\n基准种子 : 42\n抽卡次数 : 200\n"
    );
    assert_eq!(
        render_header(200, 42, 1, false, &p),
        "=== 鸣潮 · 角色活动唤取 模拟 ===\n抽卡次数 : 200\n"
    );
    let (stats, _) = seeded_stats(42, 200);
    assert_eq!(
        light_line(42, &stats),
        format!("seed=42  限定 {}  常驻 {}\n", stats.limited5, stats.standard5)
    );
    let title = repeat_title(3, 44, &p);
    assert!(title.starts_with("── 第 3 次（seed=44） "));
    assert!(title.ends_with("─\n\n"));
    assert!(!Painter::new(true).bold("x").is_empty());
}

#[test]
fn a_seed_fixes_the_whole_run() {
    let (a, end_a) = seeded_stats(42, 5_000);
    let (b, end_b) = seeded_stats(42, 5_000);
    assert_eq!(end_a, end_b);
    assert_eq!(
        (a.limited5, a.standard5, a.four, a.three, a.coral),
        (b.limited5, b.standard5, b.four, b.three, b.coral)
    );
    assert_eq!(a.details, b.details);
    assert_eq!(a.gaps, b.gaps);
    // The same run as a banner over the seeded source.
    let mut banner = Banner::new(rng::seeded(42));
    let c = simulate(&mut banner, 5_000, true);
    assert_eq!(c.details, a.details);
    assert_eq!(banner.pity_state(), end_a);
}

#[test]
fn a_pull_takes_one_draw_only_for_a_guaranteed_five_star() {
    let mut banner = Banner::new(rng::seeded(11));
    let mut source = rng::seeded(11);
    let mut state = PityState { pity5: 0, pity4: 0, guaranteed5: false };
    for _ in 0..3_000 {
        let out = banner.pull();
        let first = source.next_u64();
        let second = if state.needs_second_draw(first) { source.next_u64() } else { 0 };
        let (next, expected) = state.step(first, second);
        assert_eq!(out.item, expected.item);
        assert_eq!(out.used_guarantee, expected.used_guarantee);
        state = next;
        assert_eq!(banner.pity_state(), state);
    }
}

#[test]
fn whole_output_for_single_repeated_and_light_runs() {
    let p = Painter::new(false);
    let make = |seed: u64| {
        let (stats, end) = seeded_stats(seed, 200);
        RunReport { seed, stats, end, cells: cells() }
    };
    let single = vec![make(42)];
    let text = render_report(200, 42, &single, true, false, &p);
    assert_eq!(
        text,
        format!(
            "{}\n{}",
            render_header(200, 42, 1, true, &p),
            render_run(&single[0].stats, single[0].end, true, &single[0].cells, &p)
        )
    );
    assert!(!text.contains("重复次数") && !text.contains("基准种子"));

    let three = vec![make(42), make(43), make(44)];
    let text = render_report(200, 42, &three, false, false, &p);
    assert_eq!(text.matches("── 第 ").count(), 3);
    assert!(!text.contains("── 明细 "));

    let light = render_report(200, 42, &three, false, true, &p);
    let lines: Vec<&str> = light.lines().filter(|l| l.contains("seed=")).collect();
    assert_eq!(lines.len(), 3);
    for (i, line) in lines.iter().enumerate() {
        assert!(line.starts_with(&format!("seed={}  限定 ", 42 + i)));
    }
    for absent in ["── 汇总 ", "大珊瑚", "结束状态", "与理论值对比", "4★"] {
        assert!(!light.contains(absent));
    }
    let single_light = render_report(200, 42, &single, false, true, &p);
    assert_eq!(single_light.lines().filter(|l| !l.trim().is_empty()).count(), 3);
}

#[test]
fn seed_42_over_200_pulls_gives_one_limited_and_one_standard() {
    let (stats, _) = seeded_stats(42, 200);
    assert_eq!((stats.limited5, stats.standard5), (1, 1));
}

#[test]
fn a_report_ends_with_its_last_line() {
    let (stats, end) = seeded_stats(42, 200);
    let c = cells();
    let p = Painter::new(false);
    for show in [false, true] {
        let text = render_run(&stats, end, show, &c, &p);
        assert!(text.ends_with('\n') && !text.ends_with("\n\n"));
    }
    let with_details = render_run(&stats, end, true, &c, &p);
    assert!(with_details.contains(" 实际 ") && with_details.contains("\n\n── 明细 "));
    let empty = details_section(&Stats::new(), &p);
    assert!(empty.starts_with("\n── 明细 "));
    assert!(empty.ends_with("（本次没有 5★ 或 4★ 产出）\n"));
}

#[test]
fn repeated_runs_are_set_apart_by_blank_lines() {
    let p = Painter::new(false);
    let runs: Vec<RunReport> = simulate_runs(42, 3, 200, false)
        .into_iter()
        .map(|r| RunReport { seed: r.seed, stats: r.stats, end: r.end, cells: cells() })
        .collect();
    let text = render_report(200, 42, &runs, false, false, &p);
    assert!(text.contains("\n\n── 第 2 次（seed=43） "));
    assert!(text.contains("\n\n── 第 3 次（seed=44） "));
    assert!(text.ends_with('\n') && !text.ends_with("\n\n"));
}

#[test]
fn an_end_state_at_the_hard_pities_leaves_zero_pulls() {
    let end = PityState { pity5: 80, pity4: 10, guaranteed5: true };
    let text = end_state_section(end, &Painter::new(false));
    assert!(text.contains("80/80（距硬保底还差 0 抽）"));
    assert!(text.contains("10/10（距 4★ 保底还差 0 抽）"));
}

#[test]
fn repeated_runs_count_seeds_up_from_the_base_and_wrap() {
    let runs = simulate_runs(u64::MAX, 3, 300, true);
    assert_eq!(runs.len(), 3);
    let seeds: Vec<u64> = runs.iter().map(|r| r.seed).collect();
    assert_eq!(seeds, vec![u64::MAX, 0, 1]);
    for r in &runs {
        let (stats, end) = simulate_seeded(r.seed, 300, true);
        assert_eq!(r.end, end);
        assert_eq!(r.stats.details, stats.details);
        assert_eq!(
            (r.stats.limited5, r.stats.standard5, r.stats.four, r.stats.three, r.stats.coral),
            (stats.limited5, stats.standard5, stats.four, stats.three, stats.coral)
        );
    }
    assert!(simulate_runs(7, 0, 300, true).is_empty());
}
