//! Aggregated statistics of a run.
//!
//! [`Stats::record`] is the only way in, and it also pays out the coral.
//! Since coral is only paid there, the identity
//! `coral == limited 5★ × 15 + standard 5★ × 45 + 4★ × 8`
//! holds by construction, not by the callers' care.
use vstd::prelude::*;

use crate::rng::{chacha8_draw, run_seed, seeded};
use crate::gacha::{
    shift, Banner, PityState, lemma_play_extend, lemma_play_reads_prefix, lemma_run_len, one_pull, outcomes, play, run, state_after, stream_of,
    CORAL_4STAR, CORAL_5STAR_LIMITED, CORAL_5STAR_STANDARD, CORAL_PER_PULL_EXCHANGE,
    Item, P5_HARD_PITY, PullOutcome, RandomSource, law_guarantee, law_pity_counting, pull_step,
};

verus! {

/// A recorded 5★ or 4★.
#[derive(Clone, Copy, Debug, PartialEq, Eq, Structural)]
pub struct Detail {
    /// Number of the event; 5★ and 4★ share the numbering, which starts at 1.
    pub seq: u64,
    /// Which pull of the whole run gave it.
    pub pull_index: u64,
    /// The item obtained.
    pub item: Item,
    /// Whether this 5★ was given by the guarantee.
    pub used_guarantee: bool,
}

/// An exact ratio `num / den` of two counts, with `den > 0`.
#[derive(Clone, Copy, Debug, PartialEq, Eq, Structural)]
pub struct Ratio {
    /// The numerator.
    pub num: u64,
    /// The denominator, never zero.
    pub den: u64,
}

/// `num / den`, or `None` when `den == 0` (never a division by zero).
pub fn ratio(num: u64, den: u64) -> (r: Option<Ratio>)
    ensures
        den == 0 ==> r is None,
        den != 0 ==> r == Some(Ratio { num, den }),
{
    if den == 0 {
        None
    } else {
        Some(Ratio { num, den })
    }
}

/// The sum of a sequence of counts.
pub open spec fn seq_sum(s: Seq<u64>) -> int
    decreases s.len(),
{
    if s.len() == 0 {
        0
    } else {
        seq_sum(s.drop_last()) + s.last()
    }
}

/// A sum of counts is never negative.
proof fn lemma_seq_sum_nonneg(s: Seq<u64>)
    ensures
        seq_sum(s) >= 0,
    decreases s.len(),
{
    if s.len() > 0 {
        lemma_seq_sum_nonneg(s.drop_last());
    }
}

/// A sum of counts each at most `bound` is at most `bound` times their number.
proof fn lemma_seq_sum_bounded(s: Seq<u64>, bound: int)
    requires
        forall|i: int| 0 <= i < s.len() ==> #[trigger] s[i] <= bound,
    ensures
        seq_sum(s) <= bound * s.len(),
    decreases s.len(),
{
    if s.len() > 0 {
        let t = s.drop_last();
        assert forall|i: int| 0 <= i < t.len() implies #[trigger] t[i] <= bound by {
            assert(t[i] == s[i]);
        }
        lemma_seq_sum_bounded(t, bound);
        assert(bound * s.len() == bound * t.len() + bound) by (nonlinear_arith)
            requires
                s.len() == t.len() + 1,
        ;
    }
}

/// The abstract content of [`Stats`]: its counters, details and stretch history.
pub struct StatsView {
    pub pulls: u64,
    pub limited5: u64,
    pub standard5: u64,
    pub four: u64,
    pub three: u64,
    pub coral: u64,
    pub details: Seq<Detail>,
    pub gaps: Seq<u64>,
    pub since5: u64,
}

impl StatsView {
    /// No pull recorded.
    pub open spec fn empty() -> StatsView {
        StatsView {
            pulls: 0,
            limited5: 0,
            standard5: 0,
            four: 0,
            three: 0,
            coral: 0,
            details: Seq::empty(),
            gaps: Seq::empty(),
            since5: 0,
        }
    }

    /// The number of pulls recorded, summed over the rarities.
    pub open spec fn recorded(self) -> int {
        self.limited5 + self.standard5 + self.four + self.three
    }

    /// The coral that the counted items pay out.
    pub open spec fn coral_of_counts(self) -> int {
        self.limited5 * CORAL_5STAR_LIMITED + self.standard5 * CORAL_5STAR_STANDARD + self.four
            * CORAL_4STAR
    }

    /// Coral matches the counts, one stretch ends at each 5★, stretches and
    /// the open stretch cover every pull, and details are numbered from 1
    /// without 3★ among them.
    pub open spec fn wf(self) -> bool {
        &&& self.coral == self.coral_of_counts()
        &&& self.gaps.len() == self.limited5 + self.standard5
        &&& seq_sum(self.gaps) + self.since5 == self.recorded()
        &&& forall|i: int| 0 <= i < self.gaps.len() ==> #[trigger] self.gaps[i] >= 1
        &&& self.details.len() <= self.limited5 + self.standard5 + self.four
        &&& forall|i: int|
            0 <= i < self.details.len() ==> (#[trigger] self.details[i]).seq == i + 1 && !(
            self.details[i].item is Three)
    }
}

/// Recording pull number `index` with `outcome` into `v`, keeping a detail
/// when `record_detail` is set.
pub open spec fn record_view(v: StatsView, index: u64, outcome: PullOutcome, record_detail: bool) -> StatsView {
    let five = outcome.item.is_five_star_spec();
    StatsView {
        pulls: index,
        limited5: if outcome.item is Limited5 { (v.limited5 + 1) as u64 } else { v.limited5 },
        standard5: if outcome.item is Standard5 { (v.standard5 + 1) as u64 } else { v.standard5 },
        four: if outcome.item is Four { (v.four + 1) as u64 } else { v.four },
        three: if outcome.item is Three { (v.three + 1) as u64 } else { v.three },
        coral: (v.coral + outcome.item.coral_spec()) as u64,
        details: if record_detail && !(outcome.item is Three) {
            v.details.push(
                Detail {
                    seq: (v.details.len() + 1) as u64,
                    pull_index: index,
                    item: outcome.item,
                    used_guarantee: five && outcome.used_guarantee,
                },
            )
        } else {
            v.details
        },
        gaps: if five { v.gaps.push((v.since5 + 1) as u64) } else { v.gaps },
        since5: if five { 0 } else { (v.since5 + 1) as u64 },
    }
}

/// Recording the outcomes `outs` as pulls number `1, 2, …` into empty statistics.
pub open spec fn replay(outs: Seq<PullOutcome>, record_detail: bool) -> StatsView
    decreases outs.len(),
{
    if outs.len() == 0 {
        StatsView::empty()
    } else {
        record_view(replay(outs.drop_last(), record_detail), outs.len() as u64, outs.last(), record_detail)
    }
}

/// Recording one more pull keeps abstract statistics consistent.
pub proof fn lemma_record_view_wf(v: StatsView, index: u64, outcome: PullOutcome, record_detail: bool)
    requires
        v.wf(),
        v.recorded() < u64::MAX,
        v.coral + outcome.item.coral_spec() <= u64::MAX,
    ensures
        record_view(v, index, outcome, record_detail).wf(),
        record_view(v, index, outcome, record_detail).recorded() == v.recorded() + 1,
{
    lemma_seq_sum_nonneg(v.gaps);
    let w = record_view(v, index, outcome, record_detail);
    if outcome.item.is_five_star_spec() {
        assert(w.gaps.drop_last() == v.gaps);
    }
}

/// Recording the outcomes `outs` as pulls number `1, 2, …` into empty
/// statistics, the pull at position `i` (counted from 0) keeping its detail
/// when `flags[i]` is set.
pub open spec fn replay_flags(outs: Seq<PullOutcome>, flags: Seq<bool>) -> StatsView
    decreases outs.len(),
{
    if outs.len() == 0 {
        StatsView::empty()
    } else {
        record_view(
            replay_flags(outs.drop_last(), flags),
            outs.len() as u64,
            outs.last(),
            flags[outs.len() - 1],
        )
    }
}

/// Recording every pull with the same flag `record_detail` is replaying with
/// that flag at every position.
pub proof fn law_replay_one_flag(outs: Seq<PullOutcome>, record_detail: bool, flags: Seq<bool>)
    requires
        flags.len() == outs.len(),
        forall|i: int| 0 <= i < flags.len() ==> #[trigger] flags[i] == record_detail,
    ensures
        replay(outs, record_detail) == replay_flags(outs, flags),
    decreases outs.len(),
{
    if outs.len() > 0 {
        let prev = outs.drop_last();
        law_replay_one_flag(prev, record_detail, flags.drop_last());
        lemma_replay_flags_prefix(prev, flags.drop_last(), flags);
        assert(flags[outs.len() - 1] == record_detail);
    }
}

/// Replaying reads no flag past the outcomes it records.
proof fn lemma_replay_flags_prefix(outs: Seq<PullOutcome>, f: Seq<bool>, g: Seq<bool>)
    requires
        outs.len() <= f.len(),
        outs.len() <= g.len(),
        forall|i: int| 0 <= i < outs.len() ==> #[trigger] f[i] == g[i],
    ensures
        replay_flags(outs, f) == replay_flags(outs, g),
    decreases outs.len(),
{
    if outs.len() > 0 {
        lemma_replay_flags_prefix(outs.drop_last(), f, g);
        assert(f[outs.len() - 1] == g[outs.len() - 1]);
    }
}

/// Recording one more pull, numbered after those replayed, into replayed
/// statistics is replaying the longer run: so statistics made by
/// [`Stats::new`] and `k` calls of [`Stats::record`] with the numbers
/// `1, …, k` are [`replay_flags`] of the outcomes and flags of those calls.
pub proof fn law_record_extends_replay(
    outs: Seq<PullOutcome>,
    flags: Seq<bool>,
    outcome: PullOutcome,
    record_detail: bool,
)
    requires
        flags.len() == outs.len(),
    ensures
        record_view(replay_flags(outs, flags), (outs.len() + 1) as u64, outcome, record_detail)
            == replay_flags(outs.push(outcome), flags.push(record_detail)),
{
    let outs1 = outs.push(outcome);
    let flags1 = flags.push(record_detail);
    assert(outs1.drop_last() == outs);
    lemma_replay_flags_prefix(outs, flags, flags1);
    assert(flags1[outs1.len() - 1] == record_detail);
}

/// Recording the outcomes of `k` pulls as pulls number `1, …, k`, each with
/// its own detail flag, gives consistent statistics whose pull count is `k`
/// and whose rarities share the `k` pulls (the coral identity, the stretch
/// bookkeeping, and details numbered from 1 with no 3★ among them, see
/// [`StatsView::wf`]).
pub proof fn law_replay(outs: Seq<PullOutcome>, flags: Seq<bool>)
    requires
        outs.len() <= u64::MAX / (CORAL_5STAR_STANDARD as u64),
        flags.len() == outs.len(),
    ensures
        replay_flags(outs, flags).wf(),
        replay_flags(outs, flags).pulls == outs.len(),
        replay_flags(outs, flags).recorded() == outs.len(),
        replay_flags(outs, flags).limited5 + replay_flags(outs, flags).standard5
            + replay_flags(outs, flags).four + replay_flags(outs, flags).three == outs.len(),
    decreases outs.len(),
{
    if outs.len() == 0 {
        assert(seq_sum(Seq::<u64>::empty()) == 0);
    } else {
        let prev = outs.drop_last();
        let fp = flags.drop_last();
        law_replay(prev, fp);
        lemma_replay_flags_prefix(prev, fp, flags);
        let v = replay_flags(prev, flags);
        assert(v.coral <= 45 * v.recorded());
        assert(45 * outs.len() <= u64::MAX) by (nonlinear_arith)
            requires
                outs.len() <= u64::MAX / (CORAL_5STAR_STANDARD as u64),
                CORAL_5STAR_STANDARD == 45,
        ;
        lemma_record_view_wf(v, outs.len() as u64, outs.last(), flags[outs.len() - 1]);
    }
}

/// The positions (counted from 1) of the 5★ among `outs`, in order.
pub open spec fn five_star_positions(outs: Seq<PullOutcome>) -> Seq<int>
    decreases outs.len(),
{
    if outs.len() == 0 {
        Seq::empty()
    } else {
        let p = five_star_positions(outs.drop_last());
        if outs.last().item.is_five_star_spec() {
            p.push(outs.len() as int)
        } else {
            p
        }
    }
}

/// The position of the last 5★ among `outs`, or 0 without any.
pub open spec fn last_five_star(outs: Seq<PullOutcome>) -> int {
    let p = five_star_positions(outs);
    if p.len() == 0 {
        0
    } else {
        p.last()
    }
}

/// The stretches recorded are the distances between consecutive 5★ (the
/// first counted from pull 0), and the open stretch is the distance from the
/// last 5★ to the last pull.
pub proof fn law_replay_stretches(outs: Seq<PullOutcome>, flags: Seq<bool>)
    requires
        outs.len() <= u64::MAX / (CORAL_5STAR_STANDARD as u64),
        flags.len() == outs.len(),
    ensures
        ({
            let v = replay_flags(outs, flags);
            let p = five_star_positions(outs);
            &&& v.gaps.len() == p.len()
            &&& forall|j: int|
                0 <= j < p.len() ==> #[trigger] v.gaps[j] == p[j] - (if j == 0 {
                    0
                } else {
                    p[j - 1]
                })
            &&& v.since5 == outs.len() - last_five_star(outs)
        }),
    decreases outs.len(),
{
    if outs.len() > 0 {
        let prev = outs.drop_last();
        let fp = flags.drop_last();
        law_replay_stretches(prev, fp);
        law_replay(prev, fp);
        lemma_replay_flags_prefix(prev, fp, flags);
        let v0 = replay_flags(prev, flags);
        let p0 = five_star_positions(prev);
        let v = replay_flags(outs, flags);
        let p = five_star_positions(outs);
        lemma_seq_sum_nonneg(v0.gaps);
        assert(v0.since5 <= v0.recorded());
        assert(v0.since5 + 1 <= u64::MAX);
        if outs.last().item.is_five_star_spec() {
            assert(p.len() == p0.len() + 1);
            assert(v.gaps == v0.gaps.push((v0.since5 + 1) as u64));
            assert(v.gaps[p0.len() as int] == v0.since5 + 1);
            assert(p[p0.len() as int] == outs.len());
            if p0.len() > 0 {
                assert(p[p0.len() - 1] == p0.last());
            }
            assert(last_five_star(outs) == outs.len());
        } else {
            assert(p == p0);
        }
        if outs.last().item.is_five_star_spec() {
            assert forall|j: int| 0 <= j < p.len() implies #[trigger] v.gaps[j] == p[j] - (if j
                == 0 {
                0
            } else {
                p[j - 1]
            }) by {
                if j < p0.len() {
                    assert(v.gaps[j] == v0.gaps[j]);
                    assert(p[j] == p0[j]);
                    if j > 0 {
                        assert(p[j - 1] == p0[j - 1]);
                    }
                } else {
                    if j > 0 {
                        assert(p[j - 1] == p0[j - 1]);
                    }
                }
            }
        }
    }
}

/// The statistics of one simulation.
#[derive(Debug)]
pub struct Stats {
    /// Index of the last recorded pull (the total number of pulls).
    pub pulls: u64,
    /// Number of limited 5★.
    pub limited5: u64,
    /// Number of standard 5★ (the number of lost 50/50s).
    pub standard5: u64,
    /// Number of 4★ items.
    pub four: u64,
    /// Number of 3★ weapons.
    pub three: u64,
    /// Coral obtained in total.
    pub coral: u64,
    /// Recorded 5★ and 4★ events, kept only when asked for.
    pub details: Vec<Detail>,
    /// Lengths of the completed stretches up to and including each 5★, oldest first.
    pub gaps: Vec<u64>,
    /// Pulls recorded since the last 5★ (the open stretch).
    pub since5: u64,
}

impl View for Stats {
    type V = StatsView;

    open spec fn view(&self) -> StatsView {
        StatsView {
            pulls: self.pulls,
            limited5: self.limited5,
            standard5: self.standard5,
            four: self.four,
            three: self.three,
            coral: self.coral,
            details: self.details@,
            gaps: self.gaps@,
            since5: self.since5,
        }
    }
}

impl Stats {
    /// Lengths, in pulls, of the completed stretches that end in a 5★, oldest first.
    pub open spec fn gap_history(self) -> Seq<u64> {
        self.gaps@
    }

    /// Pulls recorded since the last 5★.
    pub open spec fn since_five_star(self) -> int {
        self.since5 as int
    }

    /// The number of pulls recorded, summed over the rarities.
    pub open spec fn recorded(self) -> int {
        self.limited5 + self.standard5 + self.four + self.three
    }

    /// The coral that the counted items pay out.
    pub open spec fn coral_of_counts(self) -> int {
        self.limited5 * CORAL_5STAR_LIMITED + self.standard5 * CORAL_5STAR_STANDARD + self.four
            * CORAL_4STAR
    }

    /// The statistics describe a sequence of recorded pulls: coral matches the
    /// counts, one stretch ends at each 5★, stretches and the open stretch
    /// cover every pull, and details are numbered from 1 without 3★ among them.
    pub open spec fn wf(self) -> bool {
        &&& self.coral == self.coral_of_counts()
        &&& self.gaps@.len() == self.limited5 + self.standard5
        &&& seq_sum(self.gaps@) + self.since5 == self.recorded()
        &&& forall|i: int| 0 <= i < self.gaps@.len() ==> #[trigger] self.gaps@[i] >= 1
        &&& self.details@.len() <= self.limited5 + self.standard5 + self.four
        &&& forall|i: int|
            0 <= i < self.details@.len() ==> (#[trigger] self.details@[i]).seq == i + 1 && !(
            self.details@[i].item is Three)
    }

    /// Empty statistics.
    pub fn new() -> (s: Self)
        ensures
            s.wf(),
            s.pulls == 0 && s.limited5 == 0 && s.standard5 == 0 && s.four == 0 && s.three == 0,
            s.coral == 0,
            s.details@.len() == 0,
            s.gap_history().len() == 0,
            s.since_five_star() == 0,
            s@ == StatsView::empty(),
    {
        let s = Stats {
            pulls: 0,
            limited5: 0,
            standard5: 0,
            four: 0,
            three: 0,
            coral: 0,
            details: Vec::new(),
            gaps: Vec::new(),
            since5: 0,
        };
        assert(s.details@ =~= Seq::<Detail>::empty());
        assert(s.gaps@ =~= Seq::<u64>::empty());
        s
    }

    /// Coral always equals limited 5★ × 15 + standard 5★ × 45 + 4★ × 8.
    pub proof fn law_coral_identity(self)
        requires
            self.wf(),
        ensures
            self.coral == self.coral_of_counts(),
    {
    }

    /// Every recorded pull lies in exactly one stretch: the completed stretches,
    /// one per 5★ and each at least one pull long, and the open one add up to
    /// the number of pulls recorded.
    pub proof fn law_stretches_cover_pulls(self)
        requires
            self.wf(),
        ensures
            self.gap_history().len() == self.limited5 + self.standard5,
            seq_sum(self.gap_history()) + self.since_five_star() == self.recorded(),
            forall|i: int|
                0 <= i < self.gap_history().len() ==> #[trigger] self.gap_history()[i] >= 1,
    {
    }

    /// Details are numbered 1, 2, 3, … in the order recorded, and hold no 3★.
    pub proof fn law_details_numbered(self)
        requires
            self.wf(),
        ensures
            forall|i: int|
                0 <= i < self.details@.len() ==> (#[trigger] self.details@[i]).seq == i + 1 && !(
                self.details@[i].item is Three),
    {
    }

    /// Records pull number `pull_index` (counted from 1) with its outcome.
    /// When `record_detail` is `false` no detail is kept, which saves memory
    /// on large runs.
    pub fn record(&mut self, pull_index: u64, outcome: PullOutcome, record_detail: bool)
        requires
            old(self).wf(),
            old(self).recorded() < u64::MAX,
            old(self).coral + outcome.item.coral_spec() <= u64::MAX,
        ensures
            final(self).wf(),
            final(self)@ == record_view(old(self)@, pull_index, outcome, record_detail),
            final(self).pulls == pull_index,
            final(self).limited5 == old(self).limited5 + if outcome.item is Limited5 { 1int } else { 0 },
            final(self).standard5 == old(self).standard5 + if outcome.item is Standard5 { 1int } else { 0 },
            final(self).four == old(self).four + if outcome.item is Four { 1int } else { 0 },
            final(self).three == old(self).three + if outcome.item is Three { 1int } else { 0 },
            final(self).recorded() == old(self).recorded() + 1,
            final(self).coral == old(self).coral + outcome.item.coral_spec(),
            outcome.item.is_five_star_spec() ==> final(self).gap_history()
                == old(self).gap_history().push((old(self).since_five_star() + 1) as u64)
                && final(self).since_five_star() == 0,
            !outcome.item.is_five_star_spec() ==> final(self).gap_history()
                == old(self).gap_history()
                && final(self).since_five_star() == old(self).since_five_star() + 1,
            record_detail && !(outcome.item is Three) ==> final(self).details@
                == old(self).details@.push(
                Detail {
                    seq: (old(self).details@.len() + 1) as u64,
                    pull_index,
                    item: outcome.item,
                    used_guarantee: outcome.item.is_five_star_spec() && outcome.used_guarantee,
                },
            ),
            !(record_detail && !(outcome.item is Three)) ==> final(self).details@
                == old(self).details@,
    {
        let ghost old_gaps = self.gaps@;
        proof {
            lemma_seq_sum_nonneg(self.gaps@);
        }
        self.pulls = pull_index;
        self.since5 = self.since5 + 1;
        self.coral = self.coral + outcome.item.coral() as u64;
        match outcome.item {
            Item::Limited5 | Item::Standard5 => {
                if outcome.item == Item::Limited5 {
                    self.limited5 = self.limited5 + 1;
                } else {
                    self.standard5 = self.standard5 + 1;
                }
                self.gaps.push(self.since5);
                self.since5 = 0;
                assert(self.gaps@.drop_last() == old_gaps);
                if record_detail {
                    let seq = self.details.len() as u64 + 1;
                    self.details.push(
                        Detail {
                            seq,
                            pull_index,
                            item: outcome.item,
                            used_guarantee: outcome.used_guarantee,
                        },
                    );
                }
            },
            Item::Four => {
                self.four = self.four + 1;
                if record_detail {
                    let seq = self.details.len() as u64 + 1;
                    self.details.push(
                        Detail { seq, pull_index, item: outcome.item, used_guarantee: false },
                    );
                }
            },
            Item::Three => {
                self.three = self.three + 1;
            },
        }
    }

    /// Number of 5★.
    pub fn five_star_total(&self) -> (r: u64)
        requires
            self.limited5 + self.standard5 <= u64::MAX,
        ensures
            r == self.limited5 + self.standard5,
    {
        self.limited5 + self.standard5
    }

    /// 5★ per pull, or `None` before any pull.
    pub fn five_star_rate(&self) -> (r: Option<Ratio>)
        requires
            self.limited5 + self.standard5 <= u64::MAX,
        ensures
            self.pulls == 0 ==> r is None,
            self.pulls != 0 ==> r == Some(
                Ratio { num: (self.limited5 + self.standard5) as u64, den: self.pulls },
            ),
    {
        ratio(self.five_star_total(), self.pulls)
    }

    /// Limited 5★ per pull, or `None` before any pull.
    pub fn limited5_rate(&self) -> (r: Option<Ratio>)
        ensures
            self.pulls == 0 ==> r is None,
            self.pulls != 0 ==> r == Some(Ratio { num: self.limited5, den: self.pulls }),
    {
        ratio(self.limited5, self.pulls)
    }

    /// Average number of pulls per 5★, or `None` without any 5★.
    pub fn mean_pulls_per_5star(&self) -> (r: Option<Ratio>)
        requires
            self.limited5 + self.standard5 <= u64::MAX,
        ensures
            self.limited5 + self.standard5 == 0 ==> r is None,
            self.limited5 + self.standard5 != 0 ==> r == Some(
                Ratio { num: self.pulls, den: (self.limited5 + self.standard5) as u64 },
            ),
    {
        ratio(self.pulls, self.five_star_total())
    }

    /// 4★ per pull, or `None` before any pull.
    pub fn four_star_rate(&self) -> (r: Option<Ratio>)
        ensures
            self.pulls == 0 ==> r is None,
            self.pulls != 0 ==> r == Some(Ratio { num: self.four, den: self.pulls }),
    {
        ratio(self.four, self.pulls)
    }

    /// Average number of pulls per 4★, or `None` without any 4★.
    pub fn mean_pulls_per_4star(&self) -> (r: Option<Ratio>)
        ensures
            self.four == 0 ==> r is None,
            self.four != 0 ==> r == Some(Ratio { num: self.pulls, den: self.four }),
    {
        ratio(self.pulls, self.four)
    }

    /// 3★ per pull, or `None` before any pull.
    pub fn three_star_rate(&self) -> (r: Option<Ratio>)
        ensures
            self.pulls == 0 ==> r is None,
            self.pulls != 0 ==> r == Some(Ratio { num: self.three, den: self.pulls }),
    {
        ratio(self.three, self.pulls)
    }

    /// Coral per pull, or `None` before any pull.
    pub fn coral_per_pull(&self) -> (r: Option<Ratio>)
        ensures
            self.pulls == 0 ==> r is None,
            self.pulls != 0 ==> r == Some(Ratio { num: self.coral, den: self.pulls }),
    {
        ratio(self.coral, self.pulls)
    }

    /// The shortest stretch ending in a 5★ (the luckiest); `None` without any 5★.
    pub fn min_gap(&self) -> (r: Option<u64>)
        ensures
            r is None <==> self.gap_history().len() == 0,
            r matches Some(m) ==> self.gap_history().contains(m) && forall|i: int|
                0 <= i < self.gap_history().len() ==> m <= #[trigger] self.gap_history()[i],
    {
        let mut best: Option<u64> = None;
        let mut i: usize = 0;
        while i < self.gaps.len()
            invariant
                i <= self.gaps@.len(),
                best is None <==> i == 0,
                best matches Some(m) ==> (exists|j: int| 0 <= j < i && self.gaps@[j] == m)
                    && forall|j: int| 0 <= j < i ==> m <= #[trigger] self.gaps@[j],
            decreases self.gaps@.len() - i,
        {
            let g = self.gaps[i];
            best = match best {
                None => Some(g),
                Some(m) => if g < m {
                    Some(g)
                } else {
                    Some(m)
                },
            };
            i = i + 1;
        }
        best
    }

    /// The longest stretch ending in a 5★ (the unluckiest); `None` without any 5★.
    pub fn max_gap(&self) -> (r: Option<u64>)
        ensures
            r is None <==> self.gap_history().len() == 0,
            r matches Some(m) ==> self.gap_history().contains(m) && forall|i: int|
                0 <= i < self.gap_history().len() ==> #[trigger] self.gap_history()[i] <= m,
    {
        let mut best: Option<u64> = None;
        let mut i: usize = 0;
        while i < self.gaps.len()
            invariant
                i <= self.gaps@.len(),
                best is None <==> i == 0,
                best matches Some(m) ==> (exists|j: int| 0 <= j < i && self.gaps@[j] == m)
                    && forall|j: int| 0 <= j < i ==> #[trigger] self.gaps@[j] <= m,
            decreases self.gaps@.len() - i,
        {
            let g = self.gaps[i];
            best = match best {
                None => Some(g),
                Some(m) => if g > m {
                    Some(g)
                } else {
                    Some(m)
                },
            };
            i = i + 1;
        }
        best
    }

    /// Pulls that the coral can be exchanged for, rounded down.
    pub fn exchangeable_pulls(&self) -> (r: u64)
        ensures
            r == self.coral as int / (CORAL_PER_PULL_EXCHANGE as int),
    {
        self.coral / CORAL_PER_PULL_EXCHANGE as u64
    }
}

impl Default for Stats {
    /// Empty statistics, as [`Stats::new`].
    fn default() -> (s: Self)
        ensures
            s.wf(),
            s.pulls == 0 && s.recorded() == 0 && s.coral == 0,
            s.details@.len() == 0,
            s.gap_history().len() == 0,
            s.since_five_star() == 0,
            s@ == StatsView::empty(),
    {
        Stats::new()
    }
}

/// Makes `pulls` pulls on `banner`, recording pull number `1, 2, …, pulls`;
/// details are kept when `record_detail` is set.
///
/// Each stretch ending in a 5★ is at most 80 pulls long, since the open
/// stretch never exceeds the banner's 5★ counter; so `n` pulls give at least
/// `⌊n / 80⌋` 5★.  A standard 5★ sets the guarantee, so the run never has more
/// standard 5★ than limited ones, but for one whose guarantee is still pending.
pub fn simulate<R: RandomSource>(banner: &mut Banner<R>, pulls: u64, record_detail: bool) -> (stats:
    Stats)
    requires
        old(banner).state().wf(),
        pulls <= u64::MAX / (CORAL_5STAR_STANDARD as u64),
    ensures
        final(banner).state().wf(),
        stats.wf(),
        stats.pulls == pulls,
        stats.recorded() == pulls,
        stats.since_five_star() <= final(banner).state().pity5,
        forall|i: int|
            0 <= i < stats.gap_history().len() ==> #[trigger] stats.gap_history()[i]
                <= P5_HARD_PITY,
        !record_detail ==> stats.details@.len() == 0,
        record_detail ==> stats.details@.len() == stats.limited5 + stats.standard5 + stats.four,
        stats.limited5 + stats.standard5 >= pulls as int / (P5_HARD_PITY as int),
        stats.standard5 + (if old(banner).state().guaranteed5 { 1int } else { 0 })
            <= stats.limited5 + (if final(banner).state().guaranteed5 { 1int } else { 0 }),
        ({
            let before = old(banner).taken();
            let after = final(banner).taken();
            let new = after.subrange(before.len() as int, after.len() as int);
            let s = old(banner).state();
            let (pairs, used) = play(s, stream_of(new), pulls as nat);
            &&& after.len() >= before.len()
            &&& after.subrange(0, before.len() as int) == before
            &&& used == new.len()
            &&& final(banner).state() == state_after(s, run(s, pairs))
            &&& stats@ == replay(outcomes(run(s, pairs)), record_detail)
            &&& old(banner).source().obeys_stream() ==> {
                &&& final(banner).source().obeys_stream()
                &&& forall|i: nat|
                    i < new.len() ==> #[trigger] new[i as int] == (old(banner).source().future())(
                        i,
                    )
                &&& final(banner).source().future() == shift(
                    old(banner).source().future(),
                    new.len(),
                )
            }
        }),
{
    let ghost s0 = banner.state();
    let ghost h0 = banner.taken();
    let ghost f0 = banner.source().future();
    let ghost ob = banner.source().obeys_stream();
    let mut stats = Stats::new();
    let mut index: u64 = 0;
    proof {
        let a = banner.taken().subrange(h0.len() as int, h0.len() as int);
        assert(a == Seq::<u64>::empty());
        assert(banner.taken().subrange(0, h0.len() as int) == h0);
        assert(run(s0, Seq::<(u64, u64)>::empty()) == Seq::<(PityState, PullOutcome)>::empty());
        assert(outcomes(Seq::<(PityState, PullOutcome)>::empty()) == Seq::<PullOutcome>::empty());
        assert(stats.details@ =~= Seq::<Detail>::empty());
        assert(stats.gaps@ =~= Seq::<u64>::empty());
        assert(stats@ == StatsView::empty());
        assert(banner.source().future() =~= shift(f0, 0));
    }
    while index < pulls
        invariant
            index <= pulls,
            pulls <= u64::MAX / (CORAL_5STAR_STANDARD as u64),
            banner.state().wf(),
            stats.wf(),
            stats.pulls == index,
            stats.recorded() == index,
            stats.since_five_star() <= banner.state().pity5,
            forall|i: int|
                0 <= i < stats.gap_history().len() ==> #[trigger] stats.gap_history()[i]
                    <= P5_HARD_PITY,
            !record_detail ==> stats.details@.len() == 0,
            record_detail ==> stats.details@.len() == stats.limited5 + stats.standard5
                + stats.four,
            stats.standard5 + (if s0.guaranteed5 { 1int } else { 0 })
                <= stats.limited5 + (if banner.state().guaranteed5 { 1int } else { 0 }),
            s0 == old(banner).state(),
            h0 == old(banner).taken(),
            banner.taken().len() >= h0.len(),
            banner.taken().subrange(0, h0.len() as int) == h0,
            ({
                let cur = banner.taken();
                let a = cur.subrange(h0.len() as int, cur.len() as int);
                let (pairs, used) = play(s0, stream_of(a), index as nat);
                &&& used == a.len()
                &&& banner.state() == state_after(s0, run(s0, pairs))
                &&& stats@ == replay(outcomes(run(s0, pairs)), record_detail)
                &&& ob ==> {
                    &&& banner.source().obeys_stream()
                    &&& forall|i: nat| i < a.len() ==> #[trigger] a[i as int] == f0(i)
                    &&& banner.source().future() == shift(f0, a.len())
                }
            }),
            f0 == old(banner).source().future(),
            ob == old(banner).source().obeys_stream(),
        decreases pulls - index,
    {
        let ghost before = banner.state();
        let ghost old_stats = stats;
        let ghost cur0 = banner.taken();
        let ghost a = cur0.subrange(h0.len() as int, cur0.len() as int);
        let ghost pk = play(s0, stream_of(a), index as nat).0;
        let outcome = banner.pull();
        proof {
            reveal(one_pull);
            let cur1 = banner.taken();
            let delta = cur1.subrange(cur0.len() as int, cur1.len() as int);
            let a1 = cur1.subrange(h0.len() as int, cur1.len() as int);
            assert(cur1.subrange(0, cur0.len() as int) == cur0);
            assert forall|i: int| 0 <= i < cur0.len() implies cur1[i] == cur0[i] by {
                assert(cur1.subrange(0, cur0.len() as int)[i] == cur1[i]);
            }
            assert(a1 =~= a + delta);
            assert(cur1.subrange(0, h0.len() as int) =~= h0) by {
                assert forall|i: int| 0 <= i < h0.len() implies cur1[i] == h0[i] by {
                    assert(cur0.subrange(0, h0.len() as int)[i] == cur0[i]);
                }
            }
            lemma_play_extend(s0, a, delta, index as nat);
            if ob {
                let f1 = banner.source().future();
                assert(f1 =~= shift(f0, a1.len()));
                assert forall|i: nat| i < a1.len() implies #[trigger] a1[i as int] == f0(i) by {
                    if i >= a.len() {
                        let j = (i - a.len()) as nat;
                        assert(a1[i as int] == delta[j as int]);
                        assert(cur1[cur0.len() + j as int] == delta[j as int]);
                    }
                }
            }
            let p = play(before, stream_of(delta), 1).0[0];
            assert(seq![pull_step(before, p.0, p.1)][0] == seq![(banner.state(), outcome)][0]);
            assert(pull_step(before, p.0, p.1) == (banner.state(), outcome));
            law_pity_counting(before, p.0, p.1);
            law_guarantee(before, p.0, p.1);
            let steps = run(s0, pk);
            let steps1 = steps.push(pull_step(before, p.0, p.1));
            assert(outcomes(steps1) == outcomes(steps).push(outcome));
            assert(outcomes(steps1).drop_last() == outcomes(steps));
            assert(state_after(s0, steps1) == banner.state());
        }
        assert(stats.coral_of_counts() <= 45 * stats.recorded());
        assert(45 * (index + 1) <= u64::MAX) by (nonlinear_arith)
            requires
                index < pulls,
                pulls <= u64::MAX / (CORAL_5STAR_STANDARD as u64),
                CORAL_5STAR_STANDARD == 45,
        ;
        index = index + 1;
        stats.record(index, outcome, record_detail);
        proof {
            let steps = run(s0, pk);
            assert(outcomes(steps).len() == index - 1) by {
                lemma_run_len(s0, pk);
            }
        }
        assert forall|i: int|
            0 <= i < stats.gap_history().len() implies #[trigger] stats.gap_history()[i]
            <= P5_HARD_PITY by {
            if i < old_stats.gap_history().len() {
                assert(stats.gap_history()[i] == old_stats.gap_history()[i]);
            }
        }
    }
    proof {
        lemma_seq_sum_bounded(stats.gap_history(), P5_HARD_PITY as int);
        let k = stats.gap_history().len() as int;
        assert(pulls <= 80 * k + 79);
        assert(k >= pulls / 80) by (nonlinear_arith)
            requires
                pulls <= 80 * k + 79,
                k >= 0,
        ;
    }
    stats
}

/// The steps of `pulls` pulls from a fresh banner drawing from the ChaCha8
/// stream of `seed`.
pub open spec fn seeded_run(seed: u64, pulls: nat) -> Seq<(PityState, PullOutcome)> {
    run(PityState::fresh(), play(PityState::fresh(), |i: nat| chacha8_draw(seed, i), pulls).0)
}

/// Makes `pulls` pulls on a fresh banner seeded with `seed` and records them;
/// returns the statistics and the banner's end state.
///
/// Both are functions of `seed`, `pulls` and `record_detail` alone: the same
/// seed always gives the same run.
pub fn simulate_seeded(seed: u64, pulls: u64, record_detail: bool) -> (r: (Stats, PityState))
    requires
        pulls <= u64::MAX / (CORAL_5STAR_STANDARD as u64),
    ensures
        r.0@ == replay(outcomes(seeded_run(seed, pulls as nat)), record_detail),
        r.1 == state_after(PityState::fresh(), seeded_run(seed, pulls as nat)),
        r.0.wf(),
        r.1.wf(),
        r.0.pulls == pulls,
        r.0.recorded() == pulls,
        forall|i: int|
            0 <= i < r.0.gap_history().len() ==> #[trigger] r.0.gap_history()[i] <= P5_HARD_PITY,
        r.0.limited5 + r.0.standard5 >= pulls as int / (P5_HARD_PITY as int),
{
    let mut banner = Banner::new(seeded(seed));
    let stats = simulate(&mut banner, pulls, record_detail);
    let end = banner.pity_state();
    proof {
        let fresh = PityState::fresh();
        let after = banner.taken();
        let new = after.subrange(0, after.len() as int);
        let g = |i: nat| chacha8_draw(seed, i);
        assert forall|i: nat| i < play(fresh, stream_of(new), pulls as nat).1 implies #[trigger] stream_of(new)(i) == g(i) by {
            assert(new[i as int] == g(i));
        }
        lemma_play_reads_prefix(fresh, stream_of(new), g, pulls as nat);
    }
    (stats, end)
}

/// One of repeated seeded runs: its seed, its statistics and the banner's end state.
pub struct SeededRun {
    /// The seed of the run.
    pub seed: u64,
    /// Its statistics.
    pub stats: Stats,
    /// The banner's state at its end.
    pub end: PityState,
}

/// The seed of run `i` of repeated runs from `base`: `base + i`, wrapping around at `2^64`.
pub open spec fn nth_seed(base: u64, i: int) -> u64 {
    ((base + i) % 0x1_0000_0000_0000_0000) as u64
}

/// Makes `runs` runs of `pulls` pulls each, each on a fresh banner; run `i`
/// (counted from 0) is seeded with `base_seed + i`, wrapping around at `2^64`,
/// and is exactly [`simulate_seeded`] with that seed.
pub fn simulate_runs(base_seed: u64, runs: u64, pulls: u64, record_detail: bool) -> (r: Vec<
    SeededRun,
>)
    requires
        pulls <= u64::MAX / (CORAL_5STAR_STANDARD as u64),
    ensures
        r@.len() == runs,
        forall|i: int|
            0 <= i < runs ==> {
                let seed = nth_seed(base_seed, i);
                &&& (#[trigger] r@[i]).seed == seed
                &&& r@[i].stats@ == replay(outcomes(seeded_run(seed, pulls as nat)), record_detail)
                &&& r@[i].end == state_after(PityState::fresh(), seeded_run(seed, pulls as nat))
                &&& r@[i].stats.wf()
                &&& r@[i].end.wf()
                &&& r@[i].stats.pulls == pulls
            },
{
    let mut out: Vec<SeededRun> = Vec::new();
    let mut i: u64 = 0;
    while i < runs
        invariant
            i <= runs,
            pulls <= u64::MAX / (CORAL_5STAR_STANDARD as u64),
            out@.len() == i,
            forall|j: int|
                0 <= j < i ==> {
                    let seed = nth_seed(base_seed, j);
                    &&& (#[trigger] out@[j]).seed == seed
                    &&& out@[j].stats@ == replay(
                        outcomes(seeded_run(seed, pulls as nat)),
                        record_detail,
                    )
                    &&& out@[j].end == state_after(
                        PityState::fresh(),
                        seeded_run(seed, pulls as nat),
                    )
                    &&& out@[j].stats.wf()
                    &&& out@[j].end.wf()
                    &&& out@[j].stats.pulls == pulls
                },
        decreases runs - i,
    {
        let seed = run_seed(base_seed, i);
        let (stats, end) = simulate_seeded(seed, pulls, record_detail);
        out.push(SeededRun { seed, stats, end });
        i = i + 1;
    }
    out
}

} // verus!
