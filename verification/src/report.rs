//! The text of the report.
//!
//! A run's report holds, in this order: the summary, the coral breakdown,
//! the end state, the comparison with the reference values, and, last, the
//! detail lines when asked for.  The floating-point cells (rates, means,
//! reference values and expected counts) are formatted by the caller and
//! handed in as text; everything else is laid out here.
use vstd::prelude::*;

use crate::gacha::{
    CORAL_4STAR, CORAL_4STAR_MAXED_BONUS, CORAL_5STAR_LIMITED, CORAL_5STAR_STANDARD,
    CORAL_STANDARD_5STAR_BONUS, Item, P4_HARD_PITY, P5_HARD_PITY, PityState,
};
use crate::layout::{
    LABEL_WIDTH, Painter, RULE_WIDTH, decimal, decimal_spec, digit_char, display_width_spec, repeated,
    rule_head, left_align, left_aligned, lemma_u64_decimal_len,
    pad_display, padded, painted, right_align, right_aligned, row, row_spec, rule, rule_spec,
    with_theory,
};
use crate::stats::{Detail, Stats, StatsView};

verus! {

/// The floating-point cells of a run's report, already formatted.
pub struct ReportCells {
    /// 5★ rate of the run, e.g. `1.50%`, or `-`.
    pub five_star_rate: String,
    /// Reference 5★ rate.
    pub five_star_rate_ref: String,
    /// Mean pulls per 5★ of the run, or `-`.
    pub mean_pulls_per_5star: String,
    /// Reference mean pulls per 5★.
    pub mean_pulls_per_5star_ref: String,
    /// 4★ rate of the run, or `-`.
    pub four_star_rate: String,
    /// Reference 4★ rate.
    pub four_star_rate_ref: String,
    /// Mean pulls per 4★ of the run, or `-`.
    pub mean_pulls_per_4star: String,
    /// Reference mean pulls per 4★.
    pub mean_pulls_per_4star_ref: String,
    /// Coral per pull of the run, or `-`.
    pub coral_per_pull: String,
    /// Reference coral per pull.
    pub coral_per_pull_ref: String,
    /// Coral per 100 pulls of the run, or `-`.
    pub coral_per_100: String,
    /// Reference coral per 100 pulls.
    pub coral_per_100_ref: String,
    /// Expected number of 5★.
    pub expected_five_star: String,
    /// Deviation of the 5★ count from the expectation, with its leading spaces, or empty.
    pub deviation: String,
    /// Expected number of limited 5★.
    pub expected_limited: String,
    /// Expected number of 4★.
    pub expected_four: String,
    /// Expected coral.
    pub expected_coral: String,
}

/// The counts of `v` are small enough for the report: the coral each rarity
/// brings fits in 64 bits, and so does the number of 5★.
pub open spec fn counts_printable(v: StatsView) -> bool {
    &&& v.limited5 * CORAL_5STAR_LIMITED <= u64::MAX
    &&& v.standard5 * CORAL_5STAR_STANDARD <= u64::MAX
    &&& v.four * CORAL_4STAR <= u64::MAX
}

/// The counters of `end` are within their hard pities, so the pulls left to
/// each are not negative.
pub open spec fn end_printable(end: PityState) -> bool {
    &&& end.pity5 <= P5_HARD_PITY
    &&& end.pity4 <= P4_HARD_PITY
}

/// The decimal numeral of `n`.
pub open spec fn dec(n: int) -> Seq<char> {
    decimal_spec(n as nat)
}

/// A value followed by its reference value: `value` left-aligned in 8
/// characters, then `[理论 reference]`.
pub open spec fn with_theory_spec(value: Seq<char>, reference: Seq<char>) -> Seq<char> {
    left_aligned(value, 8) + "[理论 "@ + reference + "]"@
}

/// A section title: the painted rule of `title` and a line break.
pub open spec fn section_title_spec(enabled: bool, title: Seq<char>) -> Seq<char> {
    painted(enabled, "36"@, rule_spec(title)) + "\n"@
}

/// The summary section.
pub open spec fn summary_spec(v: StatsView, c: ReportCells, enabled: bool) -> Seq<char> {
    Seq::<char>::empty() + section_title_spec(enabled, "汇总"@) + row_spec(
        "5★ 总数"@,
        dec(v.limited5 + v.standard5),
    ) + row_spec("  限定 5★"@, dec(v.limited5 as int)) + row_spec(
        "  常驻 5★(歪)"@,
        dec(v.standard5 as int),
    ) + row_spec("  综合出金率"@, with_theory_spec(c.five_star_rate@, c.five_star_rate_ref@))
        + row_spec(
        "  平均出金抽数"@,
        with_theory_spec(c.mean_pulls_per_5star@, c.mean_pulls_per_5star_ref@),
    ) + "\n"@ + row_spec("4★ 总数"@, dec(v.four as int)) + row_spec(
        "  4★ 出率"@,
        with_theory_spec(c.four_star_rate@, c.four_star_rate_ref@),
    ) + row_spec(
        "  平均每 4★ 抽数"@,
        with_theory_spec(c.mean_pulls_per_4star@, c.mean_pulls_per_4star_ref@),
    ) + "\n"@
}

/// `count × unit = product`, the product right-aligned in 4 characters.
pub open spec fn product_spec(count: int, unit: int) -> Seq<char> {
    dec(count) + " × "@ + dec(unit) + " = "@ + right_aligned(dec(count * unit), 4)
}

/// The coral section.
pub open spec fn coral_section_spec(v: StatsView, c: ReportCells, enabled: bool) -> Seq<char> {
    Seq::<char>::empty() + section_title_spec(enabled, "大珊瑚（余波珊瑚）明细"@) + row_spec(
        "总获取量"@,
        dec(v.coral as int),
    ) + row_spec("  限定 5★"@, product_spec(v.limited5 as int, CORAL_5STAR_LIMITED as int))
        + row_spec(
        "  常驻 5★(歪)"@,
        product_spec(v.standard5 as int, CORAL_5STAR_STANDARD as int) + "    ("@ + dec(
            CORAL_5STAR_LIMITED as int,
        ) + " 基础 + "@ + dec(CORAL_STANDARD_5STAR_BONUS as int) + " 歪补偿)"@,
    ) + row_spec(
        "  4★（按满链）"@,
        product_spec(v.four as int, CORAL_4STAR as int) + "    (3 基础 + "@ + dec(
            CORAL_4STAR_MAXED_BONUS as int,
        ) + " 满链转化)"@,
    ) + row_spec("平均每抽"@, with_theory_spec(c.coral_per_pull@, c.coral_per_pull_ref@))
        + row_spec("平均每 100 抽"@, with_theory_spec(c.coral_per_100@, c.coral_per_100_ref@))
        + "\n"@
}

/// The end-state section.
pub open spec fn end_state_spec(end: PityState, enabled: bool) -> Seq<char> {
    Seq::<char>::empty() + section_title_spec(enabled, "结束状态"@) + row_spec(
        "5★ 保底计数"@,
        dec(end.pity5 as int) + "/"@ + dec(P5_HARD_PITY as int) + "（距硬保底还差 "@ + dec(
            P5_HARD_PITY - end.pity5,
        ) + " 抽）"@,
    ) + row_spec(
        "下次 5★"@,
        if end.guaranteed5 {
            "大保底（必为限定）"@
        } else {
            "非大保底（50/50）"@
        },
    ) + row_spec(
        "4★ 保底计数"@,
        dec(end.pity4 as int) + "/"@ + dec(P4_HARD_PITY as int) + "（距 4★ 保底还差 "@ + dec(
            P4_HARD_PITY - end.pity4,
        ) + " 抽）"@,
    ) + "\n"@
}

/// The section comparing the run with the reference values.
pub open spec fn comparison_spec(v: StatsView, c: ReportCells, enabled: bool) -> Seq<char> {
    Seq::<char>::empty() + section_title_spec(enabled, "与理论值对比"@) + row_spec(
        "期望 5★ 总数"@,
        c.expected_five_star@ + "   实际 "@ + dec(v.limited5 + v.standard5) + c.deviation@,
    ) + row_spec("期望限定 5★"@, c.expected_limited@ + "   实际 "@ + dec(v.limited5 as int))
        + row_spec("期望 4★ 总数"@, c.expected_four@ + "   实际 "@ + dec(v.four as int))
        + row_spec("期望大珊瑚"@, c.expected_coral@ + "   实际 "@ + dec(v.coral as int))
}

/// The note after a detail line.
pub open spec fn detail_note(d: Detail) -> Seq<char> {
    match d.item {
        Item::Limited5 => if d.used_guarantee {
            "   (歪后大保底)"@
        } else {
            "   (50/50 成功)"@
        },
        Item::Standard5 => "   (50/50 失败 → 下次必限定)"@,
        Item::Four | Item::Three => ""@,
    }
}

/// One detail line: number, pull, rarity, coral and note.
pub open spec fn detail_line_spec(d: Detail) -> Seq<char> {
    "#"@ + left_aligned(dec(d.seq as int), 3) + "第 "@ + right_aligned(dec(d.pull_index as int), 4)
        + " 抽   "@ + padded(d.item.rarity_label_spec(), 10) + " "@ + left_aligned(
        "+"@ + dec(d.item.coral_spec()),
        4,
    ) + "大珊瑚"@ + detail_note(d) + "\n"@
}

/// The detail lines of `ds`, in order.
pub open spec fn detail_lines(ds: Seq<Detail>) -> Seq<char>
    decreases ds.len(),
{
    if ds.len() == 0 {
        Seq::empty()
    } else {
        detail_lines(ds.drop_last()) + detail_line_spec(ds.last())
    }
}

/// The details section, set off from the section before it by a blank line.
pub open spec fn details_spec(v: StatsView, enabled: bool) -> Seq<char> {
    "\n"@ + section_title_spec(enabled, "明细"@) + (if v.details.len() == 0 {
        "（本次没有 5★ 或 4★ 产出）\n"@
    } else {
        detail_lines(v.details)
    })
}

/// The report of one run: summary, coral, end state, comparison, and the
/// details last when `show_detail`.
#[verifier::opaque]
pub open spec fn report_spec(
    v: StatsView,
    end: PityState,
    show_detail: bool,
    c: ReportCells,
    enabled: bool,
) -> Seq<char> {
    Seq::<char>::empty() + summary_spec(v, c, enabled) + coral_section_spec(v, c, enabled)
        + end_state_spec(end, enabled) + comparison_spec(v, c, enabled) + if show_detail {
        details_spec(v, enabled)
    } else {
        Seq::<char>::empty()
    }
}

/// The title line and the run parameters: the repeat count and base seed
/// for repeated runs, else the seed when `with_seed`, then the pull count.
pub open spec fn header_spec(pulls: u64, seed: u64, runs: u64, with_seed: bool, enabled: bool) -> Seq<char> {
    Seq::<char>::empty() + painted(enabled, "1"@, "=== 鸣潮 · 角色活动唤取 模拟 ==="@) + "\n"@ + (if runs
        > 1 {
        "重复次数 : "@ + dec(runs as int) + "\n"@ + "基准种子 : "@ + dec(seed as int) + "\n"@
    } else if with_seed {
        "随机种子 : "@ + dec(seed as int) + "\n"@
    } else {
        Seq::<char>::empty()
    }) + "抽卡次数 : "@ + dec(pulls as int) + "\n"@
}

/// The one line of a run in the light report: its seed and its limited and standard 5★.
pub open spec fn light_line_spec(seed: u64, v: StatsView) -> Seq<char> {
    "seed="@ + dec(seed as int) + "  限定 "@ + dec(v.limited5 as int) + "  常驻 "@ + dec(
        v.standard5 as int,
    ) + "\n"@
}

/// The title of the `number`-th of repeated runs.
#[verifier::opaque]
pub open spec fn repeat_title_spec(number: u64, seed: u64, enabled: bool) -> Seq<char> {
    painted(
        enabled,
        "1"@,
        rule_spec("第 "@ + dec(number as int) + " 次（seed="@ + dec(seed as int) + "）"@),
    ) + "\n\n"@
}

/// `t` occurs in `s` as a run of consecutive characters.
pub open spec fn contains_text(s: Seq<char>, t: Seq<char>) -> bool {
    exists|a: Seq<char>, b: Seq<char>| s == a + t + b
}

/// No character of `s` is `c`.
spec fn lacks(s: Seq<char>, c: char) -> bool {
    forall|i: int| 0 <= i < s.len() ==> s[i] != c
}

/// A text lacking `c` does not contain any text in which `c` occurs.
proof fn lemma_lacks_excludes(s: Seq<char>, t: Seq<char>, k: int, c: char)
    requires
        lacks(s, c),
        0 <= k < t.len(),
        t[k] == c,
    ensures
        !contains_text(s, t),
{
    if contains_text(s, t) {
        let (a, b) = choose|a: Seq<char>, b: Seq<char>| s == a + t + b;
        assert(s[a.len() + k] == t[k]);
    }
}

/// Joining two texts lacking `c` gives a text lacking `c`.
proof fn lemma_lacks_join(a: Seq<char>, b: Seq<char>, c: char)
    requires
        lacks(a, c),
        lacks(b, c),
    ensures
        lacks(a + b, c),
{
    assert forall|i: int| 0 <= i < (a + b).len() implies (a + b)[i] != c by {
        if i >= a.len() {
            assert((a + b)[i] == b[i - a.len()]);
        }
    }
}

/// A decimal numeral holds digits only.
proof fn lemma_decimal_lacks(n: nat, c: char)
    requires
        c == '非' || c == '必',
    ensures
        lacks(decimal_spec(n), c),
    decreases n,
{
    if n >= 10 {
        lemma_decimal_lacks(n / 10, c);
        let d = digit_char((n % 10) as int);
        assert(d != c);
        assert(decimal_spec(n) == decimal_spec(n / 10).push(d));
        lemma_lacks_join(decimal_spec(n / 10), seq![d], c);
    } else {
        assert(digit_char(n as int) != c);
    }
}

/// A row lacks `c` when its label and value do.
proof fn lemma_row_lacks(label: Seq<char>, value: Seq<char>, c: char)
    requires
        c == '非' || c == '必',
        lacks(label, c),
        lacks(value, c),
    ensures
        lacks(row_spec(label, value), c),
{
    reveal_strlit(": ");
    reveal_strlit("\n");
    let w = display_width_spec(label);
    let pad = padded(label, LABEL_WIDTH as int);
    if pad != label {
        lemma_lacks_join(label, repeated(' ', LABEL_WIDTH as int - w), c);
    }
    assert(lacks(pad, c));
    assert(lacks(": "@, c));
    assert(lacks("\n"@, c));
    lemma_lacks_join(pad, ": "@, c);
    lemma_lacks_join(pad + ": "@, value, c);
    lemma_lacks_join(pad + ": "@ + value, "\n"@, c);
}

/// The end-state section lacks `c` everywhere but in the name of the next 5★.
proof fn lemma_end_state_parts_lack(end: PityState, enabled: bool, c: char)
    requires
        c == '非' || c == '必',
    ensures
        lacks(section_title_spec(enabled, "结束状态"@), c),
        lacks(
            row_spec(
                "5★ 保底计数"@,
                dec(end.pity5 as int) + "/"@ + dec(P5_HARD_PITY as int) + "（距硬保底还差 "@ + dec(
                    P5_HARD_PITY - end.pity5,
                ) + " 抽）"@,
            ),
            c,
        ),
        lacks(
            row_spec(
                "4★ 保底计数"@,
                dec(end.pity4 as int) + "/"@ + dec(P4_HARD_PITY as int) + "（距 4★ 保底还差 "@ + dec(
                    P4_HARD_PITY - end.pity4,
                ) + " 抽）"@,
            ),
            c,
        ),
        lacks("下次 5★"@, c),
        lacks("\n"@, c),
{
    reveal_strlit("结束状态");
    reveal_strlit("── ");
    reveal_strlit(" ");
    reveal_strlit("\x1b[");
    reveal_strlit("36");
    reveal_strlit("m");
    reveal_strlit("\x1b[0m");
    reveal_strlit("\n");
    reveal_strlit("5★ 保底计数");
    reveal_strlit("4★ 保底计数");
    reveal_strlit("/");
    reveal_strlit("（距硬保底还差 ");
    reveal_strlit("（距 4★ 保底还差 ");
    reveal_strlit(" 抽）");
    reveal_strlit("下次 5★");
    // The title: its rule, painted or not, then a line break.
    let title = "结束状态"@;
    assert(lacks(title, c));
    let head = rule_head(title);
    lemma_lacks_join("── "@, title, c);
    lemma_lacks_join("── "@ + title, " "@, c);
    let r = rule_spec(title);
    let w = display_width_spec(head);
    lemma_lacks_join(head, repeated('─', if w >= RULE_WIDTH { 0 } else { RULE_WIDTH - w }), c);
    assert(lacks(r, c));
    let painted_rule = painted(enabled, "36"@, r);
    if enabled {
        lemma_lacks_join("\x1b["@, "36"@, c);
        lemma_lacks_join("\x1b["@ + "36"@, "m"@, c);
        lemma_lacks_join("\x1b["@ + "36"@ + "m"@, r, c);
        lemma_lacks_join("\x1b["@ + "36"@ + "m"@ + r, "\x1b[0m"@, c);
    }
    assert(lacks(painted_rule, c));
    lemma_lacks_join(painted_rule, "\n"@, c);
    // The two counter rows.
    let a5 = dec(end.pity5 as int);
    let b5 = dec(P5_HARD_PITY as int);
    let c5 = dec(P5_HARD_PITY - end.pity5);
    lemma_decimal_lacks(end.pity5 as nat, c);
    lemma_decimal_lacks(P5_HARD_PITY as nat, c);
    lemma_decimal_lacks((P5_HARD_PITY - end.pity5) as nat, c);
    lemma_lacks_join(a5, "/"@, c);
    lemma_lacks_join(a5 + "/"@, b5, c);
    lemma_lacks_join(a5 + "/"@ + b5, "（距硬保底还差 "@, c);
    lemma_lacks_join(a5 + "/"@ + b5 + "（距硬保底还差 "@, c5, c);
    lemma_lacks_join(a5 + "/"@ + b5 + "（距硬保底还差 "@ + c5, " 抽）"@, c);
    lemma_row_lacks("5★ 保底计数"@, a5 + "/"@ + b5 + "（距硬保底还差 "@ + c5 + " 抽）"@, c);
    let a4 = dec(end.pity4 as int);
    let b4 = dec(P4_HARD_PITY as int);
    let c4 = dec(P4_HARD_PITY - end.pity4);
    lemma_decimal_lacks(end.pity4 as nat, c);
    lemma_decimal_lacks(P4_HARD_PITY as nat, c);
    lemma_decimal_lacks((P4_HARD_PITY - end.pity4) as nat, c);
    lemma_lacks_join(a4, "/"@, c);
    lemma_lacks_join(a4 + "/"@, b4, c);
    lemma_lacks_join(a4 + "/"@ + b4, "（距 4★ 保底还差 "@, c);
    lemma_lacks_join(a4 + "/"@ + b4 + "（距 4★ 保底还差 "@, c4, c);
    lemma_lacks_join(a4 + "/"@ + b4 + "（距 4★ 保底还差 "@ + c4, " 抽）"@, c);
    lemma_row_lacks("4★ 保底计数"@, a4 + "/"@ + b4 + "（距 4★ 保底还差 "@ + c4 + " 抽）"@, c);
}

/// The end-state section names the next 5★ after the state it shows: it
/// reads "大保底（必为限定）" exactly when the guarantee is pending, and
/// "非大保底（50/50）" exactly when the next 5★ is a 50/50.
pub proof fn law_end_state_names_the_next_five_star(end: PityState, enabled: bool)
    requires
        end_printable(end),
    ensures
        contains_text(end_state_spec(end, enabled), "大保底（必为限定）"@) <==> end.guaranteed5,
        contains_text(end_state_spec(end, enabled), "非大保底（50/50）"@) <==> !end.guaranteed5,
{
    reveal_strlit("大保底（必为限定）");
    reveal_strlit("非大保底（50/50）");
    let title = section_title_spec(enabled, "结束状态"@);
    let row5 = row_spec(
        "5★ 保底计数"@,
        dec(end.pity5 as int) + "/"@ + dec(P5_HARD_PITY as int) + "（距硬保底还差 "@ + dec(
            P5_HARD_PITY - end.pity5,
        ) + " 抽）"@,
    );
    let row4 = row_spec(
        "4★ 保底计数"@,
        dec(end.pity4 as int) + "/"@ + dec(P4_HARD_PITY as int) + "（距 4★ 保底还差 "@ + dec(
            P4_HARD_PITY - end.pity4,
        ) + " 抽）"@,
    );
    let yes = "大保底（必为限定）"@;
    let no = "非大保底（50/50）"@;
    let label = if end.guaranteed5 { yes } else { no };
    let other = if end.guaranteed5 { no } else { yes };
    let sec = end_state_spec(end, enabled);
    let pad = padded("下次 5★"@, LABEL_WIDTH as int);
    let before = Seq::<char>::empty() + title + row5 + pad + ": "@;
    let after = "\n"@ + row4 + "\n"@;
    assert(sec =~= before + label + after);
    assert(contains_text(sec, label));
    // The other name holds a character found nowhere else in the section.
    let c = if end.guaranteed5 { '非' } else { '必' };
    let k: int = if end.guaranteed5 { 0 } else { 4 };
    assert(other[k] == c);
    lemma_end_state_parts_lack(end, enabled, c);
    assert(lacks(label, c));
    lemma_row_lacks("下次 5★"@, label, c);
    let e = Seq::<char>::empty();
    assert(lacks(e, c));
    lemma_lacks_join(e, title, c);
    lemma_lacks_join(e + title, row5, c);
    lemma_lacks_join(e + title + row5, row_spec("下次 5★"@, label), c);
    lemma_lacks_join(e + title + row5 + row_spec("下次 5★"@, label), row4, c);
    lemma_lacks_join(e + title + row5 + row_spec("下次 5★"@, label) + row4, "\n"@, c);
    assert(sec == e + title + row5 + row_spec("下次 5★"@, label) + row4 + "\n"@);
    lemma_lacks_excludes(sec, other, k, c);
}

/// A section title.
fn section_title(p: &Painter, title: &str) -> (r: String)
    requires
        title@.len() <= 64,
    ensures
        r@ == section_title_spec(p.enabled, title@),
{
    let line = rule(title);
    let mut t = p.cyan(line.as_str());
    t.append("\n");
    t
}

/// `count × unit = product`.
fn product(count: u64, unit: u64) -> (r: String)
    requires
        count * unit <= u64::MAX,
    ensures
        r@ == product_spec(count as int, unit as int),
{
    let mut s = decimal(count);
    s.append(" × ");
    s.append(decimal(unit).as_str());
    s.append(" = ");
    s.append(right_align(decimal(count * unit), 4).as_str());
    s
}

/// The summary section.
pub fn summary_section(stats: &Stats, c: &ReportCells, p: &Painter) -> (r: String)
    requires
        counts_printable(stats@),
    ensures
        r@ == summary_spec(stats@, *c, p.enabled),
{
    proof {
        reveal_strlit("汇总");
        reveal_strlit("5★ 总数");
        reveal_strlit("  限定 5★");
        reveal_strlit("  常驻 5★(歪)");
        reveal_strlit("  综合出金率");
        reveal_strlit("  平均出金抽数");
        reveal_strlit("4★ 总数");
        reveal_strlit("  4★ 出率");
        reveal_strlit("  平均每 4★ 抽数");
    }
    let mut out = String::new();
    out.append(section_title(p, "汇总").as_str());
    row(&mut out, "5★ 总数", decimal(stats.limited5 + stats.standard5).as_str());
    row(&mut out, "  限定 5★", decimal(stats.limited5).as_str());
    row(&mut out, "  常驻 5★(歪)", decimal(stats.standard5).as_str());
    row(
        &mut out,
        "  综合出金率",
        with_theory(c.five_star_rate.clone(), c.five_star_rate_ref.as_str()).as_str(),
    );
    row(
        &mut out,
        "  平均出金抽数",
        with_theory(c.mean_pulls_per_5star.clone(), c.mean_pulls_per_5star_ref.as_str()).as_str(),
    );
    out.append("\n");
    row(&mut out, "4★ 总数", decimal(stats.four).as_str());
    row(
        &mut out,
        "  4★ 出率",
        with_theory(c.four_star_rate.clone(), c.four_star_rate_ref.as_str()).as_str(),
    );
    row(
        &mut out,
        "  平均每 4★ 抽数",
        with_theory(c.mean_pulls_per_4star.clone(), c.mean_pulls_per_4star_ref.as_str()).as_str(),
    );
    out.append("\n");
    out
}

/// The coral section.
pub fn coral_section(stats: &Stats, c: &ReportCells, p: &Painter) -> (r: String)
    requires
        counts_printable(stats@),
    ensures
        r@ == coral_section_spec(stats@, *c, p.enabled),
{
    proof {
        reveal_strlit("大珊瑚（余波珊瑚）明细");
        reveal_strlit("总获取量");
        reveal_strlit("  限定 5★");
        reveal_strlit("  常驻 5★(歪)");
        reveal_strlit("  4★（按满链）");
        reveal_strlit("平均每抽");
        reveal_strlit("平均每 100 抽");
    }
    let mut out = String::new();
    out.append(section_title(p, "大珊瑚（余波珊瑚）明细").as_str());
    row(&mut out, "总获取量", decimal(stats.coral).as_str());
    row(
        &mut out,
        "  限定 5★",
        product(stats.limited5, CORAL_5STAR_LIMITED as u64).as_str(),
    );
    let mut standard = product(stats.standard5, CORAL_5STAR_STANDARD as u64);
    standard.append("    (");
    standard.append(decimal(CORAL_5STAR_LIMITED as u64).as_str());
    standard.append(" 基础 + ");
    standard.append(decimal(CORAL_STANDARD_5STAR_BONUS as u64).as_str());
    standard.append(" 歪补偿)");
    row(&mut out, "  常驻 5★(歪)", standard.as_str());
    let mut four = product(stats.four, CORAL_4STAR as u64);
    four.append("    (3 基础 + ");
    four.append(decimal(CORAL_4STAR_MAXED_BONUS as u64).as_str());
    four.append(" 满链转化)");
    row(&mut out, "  4★（按满链）", four.as_str());
    row(
        &mut out,
        "平均每抽",
        with_theory(c.coral_per_pull.clone(), c.coral_per_pull_ref.as_str()).as_str(),
    );
    row(
        &mut out,
        "平均每 100 抽",
        with_theory(c.coral_per_100.clone(), c.coral_per_100_ref.as_str()).as_str(),
    );
    out.append("\n");
    out
}

/// The end-state section.
pub fn end_state_section(end: PityState, p: &Painter) -> (r: String)
    requires
        end_printable(end),
    ensures
        r@ == end_state_spec(end, p.enabled),
        contains_text(r@, "大保底（必为限定）"@) <==> end.guaranteed5,
        contains_text(r@, "非大保底（50/50）"@) <==> !end.guaranteed5,
{
    proof {
        law_end_state_names_the_next_five_star(end, p.enabled);
    }
    proof {
        reveal_strlit("结束状态");
        reveal_strlit("5★ 保底计数");
        reveal_strlit("下次 5★");
        reveal_strlit("4★ 保底计数");
    }
    let mut out = String::new();
    out.append(section_title(p, "结束状态").as_str());
    let mut five = decimal(end.pity5 as u64);
    five.append("/");
    five.append(decimal(P5_HARD_PITY as u64).as_str());
    five.append("（距硬保底还差 ");
    five.append(decimal((P5_HARD_PITY - end.pity5) as u64).as_str());
    five.append(" 抽）");
    row(&mut out, "5★ 保底计数", five.as_str());
    let next = if end.guaranteed5 {
        "大保底（必为限定）"
    } else {
        "非大保底（50/50）"
    };
    row(&mut out, "下次 5★", next);
    let mut four = decimal(end.pity4 as u64);
    four.append("/");
    four.append(decimal(P4_HARD_PITY as u64).as_str());
    four.append("（距 4★ 保底还差 ");
    four.append(decimal((P4_HARD_PITY - end.pity4) as u64).as_str());
    four.append(" 抽）");
    row(&mut out, "4★ 保底计数", four.as_str());
    out.append("\n");
    out
}

/// The section comparing the run with the reference values.
pub fn comparison_section(stats: &Stats, c: &ReportCells, p: &Painter) -> (r: String)
    requires
        counts_printable(stats@),
    ensures
        r@ == comparison_spec(stats@, *c, p.enabled),
{
    proof {
        reveal_strlit("与理论值对比");
        reveal_strlit("期望 5★ 总数");
        reveal_strlit("期望限定 5★");
        reveal_strlit("期望 4★ 总数");
        reveal_strlit("期望大珊瑚");
    }
    let mut out = String::new();
    out.append(section_title(p, "与理论值对比").as_str());
    let mut five = c.expected_five_star.clone();
    five.append("   实际 ");
    five.append(decimal(stats.limited5 + stats.standard5).as_str());
    five.append(c.deviation.as_str());
    row(&mut out, "期望 5★ 总数", five.as_str());
    let mut limited = c.expected_limited.clone();
    limited.append("   实际 ");
    limited.append(decimal(stats.limited5).as_str());
    row(&mut out, "期望限定 5★", limited.as_str());
    let mut four = c.expected_four.clone();
    four.append("   实际 ");
    four.append(decimal(stats.four).as_str());
    row(&mut out, "期望 4★ 总数", four.as_str());
    let mut coral = c.expected_coral.clone();
    coral.append("   实际 ");
    coral.append(decimal(stats.coral).as_str());
    row(&mut out, "期望大珊瑚", coral.as_str());
    out
}

/// One detail line.
pub fn detail_line(d: &Detail) -> (r: String)
    ensures
        r@ == detail_line_spec(*d),
{
    let label = d.item.rarity_label();
    let mut out = String::from_str("#");
    out.append(left_align(decimal(d.seq), 3).as_str());
    out.append("第 ");
    out.append(right_align(decimal(d.pull_index), 4).as_str());
    out.append(" 抽   ");
    out.append(pad_display(label, 10).as_str());
    out.append(" ");
    let mut coral = String::from_str("+");
    coral.append(decimal(d.item.coral() as u64).as_str());
    out.append(left_align(coral, 4).as_str());
    out.append("大珊瑚");
    let note = match d.item {
        Item::Limited5 => if d.used_guarantee {
            "   (歪后大保底)"
        } else {
            "   (50/50 成功)"
        },
        Item::Standard5 => "   (50/50 失败 → 下次必限定)",
        Item::Four | Item::Three => "",
    };
    out.append(note);
    out.append("\n");
    out
}

/// The details section.
pub fn details_section(stats: &Stats, p: &Painter) -> (r: String)
    ensures
        r@ == details_spec(stats@, p.enabled),
{
    proof {
        reveal_strlit("明细");
    }
    let mut out = String::from_str("\n");
    out.append(section_title(p, "明细").as_str());
    if stats.details.len() == 0 {
        out.append("（本次没有 5★ 或 4★ 产出）\n");
    } else {
        let mut lines = String::new();
        let mut i: usize = 0;
        while i < stats.details.len()
            invariant
                i <= stats.details@.len(),
                lines@ == detail_lines(stats.details@.subrange(0, i as int)),
            decreases stats.details@.len() - i,
        {
            proof {
                assert(stats.details@.subrange(0, i as int) == Seq::<Detail>::empty() ==> detail_lines(stats.details@.subrange(0, i as int)) == Seq::<char>::empty());
            }
            lines.append(detail_line(&stats.details[i]).as_str());
            i = i + 1;
            assert(stats.details@.subrange(0, i as int).drop_last() == stats.details@.subrange(0, i - 1));
        }
        assert(stats.details@.subrange(0, i as int) == stats.details@);
        out.append(lines.as_str());
    }
    out
}

/// The report of one run: summary, coral, end state, comparison, and the
/// details last when `show_detail`.
pub fn render_run(stats: &Stats, end: PityState, show_detail: bool, c: &ReportCells, p: &Painter) -> (r: String)
    requires
        counts_printable(stats@),
        end_printable(end),
    ensures
        r@ == report_spec(stats@, end, show_detail, *c, p.enabled),
{
    reveal(report_spec);
    let mut out = String::new();
    out.append(summary_section(stats, c, p).as_str());
    out.append(coral_section(stats, c, p).as_str());
    out.append(end_state_section(end, p).as_str());
    out.append(comparison_section(stats, c, p).as_str());
    if show_detail {
        out.append(details_section(stats, p).as_str());
    } else {
        out.append("");
        proof {
            reveal_strlit("");
        }
    }
    out
}

/// The title line and the run parameters.
pub fn render_header(pulls: u64, seed: u64, runs: u64, with_seed: bool, p: &Painter) -> (r: String)
    ensures
        r@ == header_spec(pulls, seed, runs, with_seed, p.enabled),
{
    let mut out = String::new();
    out.append(p.bold("=== 鸣潮 · 角色活动唤取 模拟 ===").as_str());
    out.append("\n");
    let mut middle = String::new();
    if runs > 1 {
        middle.append("重复次数 : ");
        middle.append(decimal(runs).as_str());
        middle.append("\n");
        middle.append("基准种子 : ");
        middle.append(decimal(seed).as_str());
        middle.append("\n");
        assert(middle@ =~= "重复次数 : "@ + dec(runs as int) + "\n"@ + "基准种子 : "@ + dec(seed as int) + "\n"@);
    } else if with_seed {
        middle.append("随机种子 : ");
        middle.append(decimal(seed).as_str());
        middle.append("\n");
        assert(middle@ =~= "随机种子 : "@ + dec(seed as int) + "\n"@);
    }
    out.append(middle.as_str());
    out.append("抽卡次数 : ");
    out.append(decimal(pulls).as_str());
    out.append("\n");
    out
}

/// The one line of a run in the light report.
pub fn light_line(seed: u64, stats: &Stats) -> (r: String)
    ensures
        r@ == light_line_spec(seed, stats@),
{
    let mut out = String::from_str("seed=");
    out.append(decimal(seed).as_str());
    out.append("  限定 ");
    out.append(decimal(stats.limited5).as_str());
    out.append("  常驻 ");
    out.append(decimal(stats.standard5).as_str());
    out.append("\n");
    out
}

/// The title of the `number`-th of repeated runs.
pub fn repeat_title(number: u64, seed: u64, p: &Painter) -> (r: String)
    ensures
        r@ == repeat_title_spec(number, seed, p.enabled),
{
    reveal(repeat_title_spec);
    let mut title = String::from_str("第 ");
    title.append(decimal(number).as_str());
    title.append(" 次（seed=");
    title.append(decimal(seed).as_str());
    title.append("）");
    proof {
        lemma_u64_decimal_len(number);
        lemma_u64_decimal_len(seed);
        reveal_strlit("第 ");
        reveal_strlit(" 次（seed=");
        reveal_strlit("）");
    }
    let line = rule(title.as_str());
    let mut out = p.bold(line.as_str());
    out.append("\n\n");
    out
}

/// One simulated run, ready for the report.
pub struct RunReport {
    /// The seed of the run.
    pub seed: u64,
    /// Its statistics.
    pub stats: Stats,
    /// The banner's state at its end.
    pub end: PityState,
    /// Its floating-point cells, formatted.
    pub cells: ReportCells,
}

/// Every run can be reported: its counts and its end state are printable.
pub open spec fn runs_wf(runs: Seq<RunReport>) -> bool {
    forall|i: int|
        0 <= i < runs.len() ==> counts_printable((#[trigger] runs[i]).stats@) && end_printable(
            runs[i].end,
        )
}

/// The full reports of `runs` in order, set apart by blank lines, each after
/// its numbered title when `numbered`.
pub open spec fn runs_spec(runs: Seq<RunReport>, show_detail: bool, numbered: bool, enabled: bool) -> Seq<char>
    decreases runs.len(),
{
    if runs.len() == 0 {
        Seq::empty()
    } else {
        let last = runs.last();
        runs_spec(runs.drop_last(), show_detail, numbered, enabled) + (if runs.len() > 1 {
            "\n"@
        } else {
            Seq::<char>::empty()
        }) + (if numbered {
            repeat_title_spec(runs.len() as u64, last.seed, enabled)
        } else {
            Seq::<char>::empty()
        }) + report_spec(last.stats@, last.end, show_detail, last.cells, enabled)
    }
}

/// The light lines of `runs` in order.
pub open spec fn light_lines_spec(runs: Seq<RunReport>) -> Seq<char>
    decreases runs.len(),
{
    if runs.len() == 0 {
        Seq::empty()
    } else {
        light_lines_spec(runs.drop_last()) + light_line_spec(runs.last().seed, runs.last().stats@)
    }
}

/// The whole output: for `light`, the header without the seed and one line
/// per run; otherwise the header with the seed (or the repeat count and base
/// seed), a blank line, and the report of each run, numbered when there are
/// several.
pub open spec fn output_spec(
    pulls: u64,
    base_seed: u64,
    runs: Seq<RunReport>,
    show_detail: bool,
    light: bool,
    enabled: bool,
) -> Seq<char> {
    if light {
        header_spec(pulls, base_seed, runs.len() as u64, false, enabled) + light_lines_spec(runs)
    } else {
        header_spec(pulls, base_seed, runs.len() as u64, true, enabled) + "\n"@ + runs_spec(
            runs,
            show_detail,
            runs.len() > 1,
            enabled,
        )
    }
}

/// The whole output of the program for `runs`, made with `pulls` pulls each
/// from seeds counted from `base_seed`.
pub fn render_report(
    pulls: u64,
    base_seed: u64,
    runs: &Vec<RunReport>,
    show_detail: bool,
    light: bool,
    p: &Painter,
) -> (r: String)
    requires
        runs_wf(runs@),
    ensures
        r@ == output_spec(pulls, base_seed, runs@, show_detail, light, p.enabled),
{
    let n = runs.len() as u64;
    let mut out = render_header(pulls, base_seed, n, !light, p);
    let ghost head = out@;
    if light {
        let mut i: usize = 0;
        while i < runs.len()
            invariant
                i <= runs@.len(),
                out@ == head + light_lines_spec(runs@.subrange(0, i as int)),
            decreases runs@.len() - i,
        {
            let ghost before = out@;
            out.append(light_line(runs[i].seed, &runs[i].stats).as_str());
            i = i + 1;
            assert(runs@.subrange(0, i as int).drop_last() == runs@.subrange(0, i - 1));
            assert(out@ =~= head + light_lines_spec(runs@.subrange(0, i as int)));
        }
        assert(runs@.subrange(0, i as int) == runs@);
    } else {
        out.append("\n");
        let ghost head2 = out@;
        let numbered = runs.len() > 1;
        let mut i: usize = 0;
        while i < runs.len()
            invariant
                i <= runs@.len(),
                runs_wf(runs@),
                numbered == (runs@.len() > 1),
                out@ == head2 + runs_spec(runs@.subrange(0, i as int), show_detail, numbered, p.enabled),
            decreases runs@.len() - i,
        {
            let ghost before = out@;
            let mut part = String::new();
            if i > 0 {
                part.append("\n");
            }
            if numbered {
                part.append(repeat_title((i + 1) as u64, runs[i].seed, p).as_str());
            }
            assert(counts_printable(runs@[i as int].stats@));
            part.append(
                render_run(&runs[i].stats, runs[i].end, show_detail, &runs[i].cells, p).as_str(),
            );
            out.append(part.as_str());
            i = i + 1;
            let ghost sub = runs@.subrange(0, i as int);
            assert(sub.drop_last() == runs@.subrange(0, i - 1));
            assert(sub.last() == runs@[i - 1]);
            assert(out@ =~= head2 + runs_spec(sub, show_detail, numbered, p.enabled));
        }
        assert(runs@.subrange(0, i as int) == runs@);
    }
    out
}

} // verus!
