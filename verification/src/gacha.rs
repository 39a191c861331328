//! Probability model, pity state machine and coral payouts.
//!
//! All probabilities are exact rationals in per mille (thousandths).  A draw is
//! a `u64` of the random source; as in rand's uniform `f64` sampling, its top
//! 53 bits `u` stand for the real number `u / 2^53` in `[0, 1)`, and a check
//! with probability `p` per mille succeeds exactly when `u / 2^53 < p / 1000`.
//!
//! A 5★ also resets the 4★ pity counter: the rule reads "at most 10 pulls give at
//! least one 4★ **or better**", and a 5★ satisfies it.
use vstd::prelude::*;

verus! {

// ───────────────────────── 5★ probability model ─────────────────────────

/// The unit in which probabilities are expressed: per mille.
pub const PER_MILLE: u32 = 1000;
/// Base 5★ probability: 8‰ (0.8%).
pub const P5_BASE: u32 = 8;
/// First pull (counted since the last 5★) at which the soft pity raises the chance.
pub const P5_SOFT_START: u32 = 66;
/// Increase of the 5★ chance per pull of soft pity: 60‰.
pub const P5_SOFT_STEP: u32 = 60;
/// Hard pity: the 80th pull since the last 5★ is always a 5★.
pub const P5_HARD_PITY: u32 = 80;
/// Chance that a 5★ outside the guarantee is the featured limited character: 500‰.
pub const P5_UP_CHANCE: u32 = 500;

// ───────────────────────── 4★ probability model ─────────────────────────

/// Base probability of a 4★ item: 60‰ (6%).
pub const P4_BASE: u32 = 60;
/// Hard pity for "4★ or better".
pub const P4_HARD_PITY: u32 = 10;

// ─────────────────────────── coral payouts ───────────────────────────

/// Limited 5★ character: base 15.
pub const CORAL_5STAR_LIMITED: u32 = 15;
/// Standard 5★ character (a lost 50/50): 15 base + 30 compensation.
pub const CORAL_5STAR_STANDARD: u32 = 45;
/// The compensation part of a standard 5★, for display only.
pub const CORAL_STANDARD_5STAR_BONUS: u32 = 30;
/// 4★ item: 3 base + 5 (4★ characters assumed fully resonated).
pub const CORAL_4STAR: u32 = 8;
/// The resonance-conversion part of a 4★, for display only.
pub const CORAL_4STAR_MAXED_BONUS: u32 = 5;
/// Coral needed to exchange for one pull.
pub const CORAL_PER_PULL_EXCHANGE: u32 = 8;

/// The 5★ chance, in per mille, of the `n`-th pull since the last 5★.
pub open spec fn p5_spec(n: int) -> int {
    if n >= P5_HARD_PITY {
        PER_MILLE as int
    } else if n >= P5_SOFT_START {
        P5_BASE + P5_SOFT_STEP * (n - (P5_SOFT_START - 1))
    } else {
        P5_BASE as int
    }
}

/// The 4★-or-better chance, in per mille, of the `n`-th pull since the last one.
pub open spec fn p4_spec(n: int) -> int {
    if n >= P4_HARD_PITY {
        PER_MILLE as int
    } else {
        P4_BASE as int
    }
}

/// Chance of a 5★ on the `n`-th pull since the last 5★, in per mille.
///
/// | n | chance |
/// | --- | --- |
/// | 1..=65 | 8‰ |
/// | 66 | 68‰ |
/// | 79 | 848‰ |
/// | 80 | 1000‰ |
pub fn p5(n: u32) -> (r: u32)
    ensures
        r == p5_spec(n as int),
{
    if n >= P5_HARD_PITY {
        PER_MILLE
    } else if n >= P5_SOFT_START {
        P5_BASE + P5_SOFT_STEP * (n - (P5_SOFT_START - 1))
    } else {
        P5_BASE
    }
}

/// Chance of a 4★-or-better item on the `n`-th pull since the last one, in per mille.
///
/// The simulator does not split 4★ items into featured and others.
pub fn p4(n: u32) -> (r: u32)
    ensures
        r == p4_spec(n as int),
{
    if n >= P4_HARD_PITY {
        PER_MILLE
    } else {
        P4_BASE
    }
}

/// The 5★ chance never decreases with the pity count and stays a probability.
pub proof fn lemma_p5_monotonic_and_bounded(n: int, m: int)
    requires
        n <= m,
    ensures
        p5_spec(n) <= p5_spec(m),
        0 < p5_spec(n) <= PER_MILLE,
        p5_spec(n) == PER_MILLE <==> n >= P5_HARD_PITY,
{
}

/// The 5★ chance curve: 8‰ up to the 65th pull since the last 5★; from the
/// 66th to the 79th each pull raises it by exactly 60‰ over the pull before,
/// so the `n`-th has `8 + 60 × (n − 65)`‰ (68‰ at 66, 848‰ at 79); and the
/// 80th pull is certain.
pub proof fn law_five_star_chance_curve(n: int)
    ensures
        n <= 65 ==> p5_spec(n) == 8,
        65 <= n < 79 ==> p5_spec(n + 1) == p5_spec(n) + 60,
        66 <= n < 80 ==> p5_spec(n) == 8 + 60 * (n - 65),
        n >= 80 ==> p5_spec(n) == 1000,
{
}

/// The 4★-or-better chance: 60‰ for the first nine pulls since the last
/// one, certain from the 10th on.
pub proof fn law_four_star_chance_curve(n: int)
    ensures
        n < 10 ==> p4_spec(n) == 60,
        n >= 10 ==> p4_spec(n) == 1000,
{
}

/// The 4★ chance is a probability that is certain exactly from the hard pity on.
pub proof fn lemma_p4_bounded(n: int)
    ensures
        0 < p4_spec(n) <= PER_MILLE,
        p4_spec(n) == PER_MILLE <==> n >= P4_HARD_PITY,
{
}


// ──────────────────────────── draws ────────────────────────────

/// `2^53`: the number of equally likely values of the top 53 bits of a draw.
pub const UNIT_SCALE: u64 = 0x20_0000_0000_0000;

/// The top 53 bits of a draw, which stand for `unit_draw(d) / 2^53` in `[0, 1)`.
pub open spec fn unit_draw(draw: u64) -> int {
    draw as int / 2048
}

/// A check with `per_mille` chance succeeds on `draw`: `unit_draw / 2^53 < per_mille / 1000`.
pub open spec fn hits(draw: u64, per_mille: int) -> bool {
    unit_draw(draw) * PER_MILLE < per_mille * UNIT_SCALE
}

/// Decides a check of `per_mille` chance with the draw `draw`.
pub fn draw_hits(draw: u64, per_mille: u32) -> (r: bool)
    requires
        per_mille <= PER_MILLE,
    ensures
        r == hits(draw, per_mille as int),
{
    let unit = draw >> 11;
    assert(unit == draw / 2048) by (bit_vector)
        requires
            unit == draw >> 11,
    ;
    let scale = PER_MILLE as u64;
    assert(scale == 1000);
    unit * scale < (per_mille as u64) * UNIT_SCALE
}

/// A check with the chance 1000‰ succeeds on every draw.
pub proof fn lemma_certain_check_always_hits(draw: u64)
    ensures
        hits(draw, PER_MILLE as int),
{
}

// ──────────────────────────── items ────────────────────────────

/// What a single pull yields.
#[derive(Clone, Copy, Debug, PartialEq, Eq, Structural)]
pub enum Item {
    /// The featured limited 5★ character.
    Limited5,
    /// A standard 5★ character: a lost 50/50.
    Standard5,
    /// A 4★ item (character or weapon).
    Four,
    /// A 3★ weapon.
    Three,
}

impl Item {
    /// Coral paid out for this item.
    pub open spec fn coral_spec(self) -> int {
        match self {
            Item::Limited5 => CORAL_5STAR_LIMITED as int,
            Item::Standard5 => CORAL_5STAR_STANDARD as int,
            Item::Four => CORAL_4STAR as int,
            Item::Three => 0,
        }
    }

    /// Whether this item is a 5★.
    pub open spec fn is_five_star_spec(self) -> bool {
        self is Limited5 || self is Standard5
    }

    /// Coral paid out for this item.
    pub fn coral(self) -> (r: u32)
        ensures
            r == self.coral_spec(),
    {
        match self {
            Item::Limited5 => CORAL_5STAR_LIMITED,
            Item::Standard5 => CORAL_5STAR_STANDARD,
            Item::Four => CORAL_4STAR,
            Item::Three => 0,
        }
    }

    /// Whether this item is a 5★.
    pub fn is_five_star(self) -> (r: bool)
        ensures
            r == self.is_five_star_spec(),
    {
        match self {
            Item::Limited5 | Item::Standard5 => true,
            Item::Four | Item::Three => false,
        }
    }

    /// The rarity label shown in the detail lines.
    pub open spec fn rarity_label_spec(self) -> Seq<char> {
        match self {
            Item::Limited5 => "5★  限定"@,
            Item::Standard5 => "5★  常驻"@,
            Item::Four => "4★  内容"@,
            Item::Three => "3★  武器"@,
        }
    }

    /// The rarity label shown in the detail lines.
    pub fn rarity_label(self) -> (r: &'static str)
        ensures
            r@ == self.rarity_label_spec(),
            r@.len() == 6,
    {
        proof {
            reveal_strlit("5★  限定");
            reveal_strlit("5★  常驻");
            reveal_strlit("4★  内容");
            reveal_strlit("3★  武器");
        }
        match self {
            Item::Limited5 => "5★  限定",
            Item::Standard5 => "5★  常驻",
            Item::Four => "4★  内容",
            Item::Three => "3★  武器",
        }
    }
}

/// The result of a single pull.
#[derive(Clone, Copy, Debug)]
pub struct PullOutcome {
    /// The item obtained.
    pub item: Item,
    /// Whether this 5★ was given by the guarantee after a lost 50/50 (only meaningful for 5★).
    pub used_guarantee: bool,
}

// ───────────────────────── the pity state machine ─────────────────────────

/// The pity state of a banner.
#[derive(Clone, Copy, Debug, PartialEq, Eq, Structural)]
pub struct PityState {
    /// Pulls since the last 5★, in `0..=79`.
    pub pity5: u32,
    /// Pulls since the last 4★-or-better item, in `0..=9`.
    pub pity4: u32,
    /// `true` when the next 5★ is certain to be the limited character.
    pub guaranteed5: bool,
}

impl PityState {
    /// The counters are below their hard pities.
    pub open spec fn wf(self) -> bool {
        &&& self.pity5 < P5_HARD_PITY
        &&& self.pity4 < P4_HARD_PITY
    }

    /// The state every run starts from: no pity accumulated, no guarantee.
    pub open spec fn fresh() -> PityState {
        PityState { pity5: 0, pity4: 0, guaranteed5: false }
    }

    /// Whether a pull from this state whose first draw is `first` needs a
    /// second draw: every pull does but a 5★ given by the guarantee.
    pub fn needs_second_draw(self, first: u64) -> (r: bool)
        requires
            self.wf(),
        ensures
            r == !(five_star_hits(self.pity5, first) && self.guaranteed5),
    {
        !(five_star_hit(self.pity5, first) && self.guaranteed5)
    }

    /// One pull from this state with the draws `first` and `second`.
    pub fn step(self, first: u64, second: u64) -> (r: (PityState, PullOutcome))
        requires
            self.wf(),
        ensures
            r == pull_step(self, first, second),
    {
        if five_star_hit(self.pity5, first) {
            let limited = self.guaranteed5 || up_hit(second);
            // A 5★ is "4★ or better", so it resets the 4★ pity as well.
            (
                PityState { pity5: 0, pity4: 0, guaranteed5: !limited },
                PullOutcome {
                    item: if limited { Item::Limited5 } else { Item::Standard5 },
                    used_guarantee: self.guaranteed5,
                },
            )
        } else {
            proof {
                lemma_certain_check_always_hits(first);
            }
            if four_star_hit(self.pity4, second) {
                (
                    PityState { pity5: self.pity5 + 1, pity4: 0, guaranteed5: self.guaranteed5 },
                    PullOutcome { item: Item::Four, used_guarantee: false },
                )
            } else {
                proof {
                    lemma_certain_check_always_hits(second);
                }
                (
                    PityState {
                        pity5: self.pity5 + 1,
                        pity4: self.pity4 + 1,
                        guaranteed5: self.guaranteed5,
                    },
                    PullOutcome { item: Item::Three, used_guarantee: false },
                )
            }
        }
    }
}

/// The 5★ check of a pull made with `pity5` pulls since the last 5★.
pub open spec fn five_star_hits(pity5: u32, draw: u64) -> bool {
    hits(draw, p5_spec(pity5 + 1))
}

/// The 4★ check of a pull made with `pity4` pulls since the last 4★ or better.
pub open spec fn four_star_hits(pity4: u32, draw: u64) -> bool {
    hits(draw, p4_spec(pity4 + 1))
}

/// The 50/50 check that decides whether a 5★ is the limited character.
pub open spec fn up_hits(draw: u64) -> bool {
    hits(draw, P5_UP_CHANCE as int)
}

/// One pull from state `s`.  `first` decides whether it is a 5★; `second`
/// decides the 50/50 of a 5★ made without the guarantee, or the 4★ check
/// otherwise (a guaranteed 5★ uses no second draw).
pub open spec fn pull_step(s: PityState, first: u64, second: u64) -> (PityState, PullOutcome) {
    if five_star_hits(s.pity5, first) {
        let limited = s.guaranteed5 || up_hits(second);
        (
            PityState { pity5: 0, pity4: 0, guaranteed5: !limited },
            PullOutcome {
                item: if limited { Item::Limited5 } else { Item::Standard5 },
                used_guarantee: s.guaranteed5,
            },
        )
    } else if four_star_hits(s.pity4, second) {
        (
            PityState { pity5: (s.pity5 + 1) as u32, pity4: 0, guaranteed5: s.guaranteed5 },
            PullOutcome { item: Item::Four, used_guarantee: false },
        )
    } else {
        (
            PityState {
                pity5: (s.pity5 + 1) as u32,
                pity4: (s.pity4 + 1) as u32,
                guaranteed5: s.guaranteed5,
            },
            PullOutcome { item: Item::Three, used_guarantee: false },
        )
    }
}

/// The 5★ check of a pull made with `pity5` pulls since the last 5★.
pub fn five_star_hit(pity5: u32, draw: u64) -> (r: bool)
    requires
        pity5 < P5_HARD_PITY,
    ensures
        r == five_star_hits(pity5, draw),
{
    draw_hits(draw, p5(pity5 + 1))
}

/// The 4★ check of a pull made with `pity4` pulls since the last 4★ or better.
pub fn four_star_hit(pity4: u32, draw: u64) -> (r: bool)
    requires
        pity4 < P4_HARD_PITY,
    ensures
        r == four_star_hits(pity4, draw),
{
    draw_hits(draw, p4(pity4 + 1))
}

/// The 50/50 check of a 5★ made without the guarantee: won by the lower half
/// of the draws.
pub fn up_hit(draw: u64) -> (r: bool)
    ensures
        r == up_hits(draw),
        r == (draw < 0x8000_0000_0000_0000),
{
    proof {
        law_fifty_fifty_is_even(draw);
    }
    draw_hits(draw, P5_UP_CHANCE)
}

/// The 50/50 is even: it is won exactly when the draw's unit value
/// `unit_draw / 2^53` is below 1/2, that is by the lower half of all draws.
pub proof fn law_fifty_fifty_is_even(draw: u64)
    ensures
        up_hits(draw) <==> unit_draw(draw) < 0x10_0000_0000_0000,
        up_hits(draw) <==> draw < 0x8000_0000_0000_0000,
{
    assert(draw as int / 2048 < 0x10_0000_0000_0000 <==> draw < 0x8000_0000_0000_0000)
        by (nonlinear_arith);
}

/// A 5★ made without the guarantee is the limited character exactly when
/// its second draw lies in the lower half of the draws; losing leaves the
/// guarantee set, winning leaves it unset.
pub proof fn law_fifty_fifty_decides_the_five_star(s: PityState, first: u64, second: u64)
    requires
        !s.guaranteed5,
        five_star_hits(s.pity5, first),
    ensures
        pull_step(s, first, second).1.item == (if second < 0x8000_0000_0000_0000 {
            Item::Limited5
        } else {
            Item::Standard5
        }),
        pull_step(s, first, second).0.guaranteed5 == (second >= 0x8000_0000_0000_0000),
        !pull_step(s, first, second).1.used_guarantee,
{
    law_fifty_fifty_is_even(second);
}

// ───────────────────────── laws of a single pull ─────────────────────────

/// A pull from a well-formed state leads to a well-formed state: the 5★
/// counter stays in `0..=79` and the 4★ counter in `0..=9`.
pub proof fn law_pull_keeps_state_wf(s: PityState, first: u64, second: u64)
    requires
        s.wf(),
    ensures
        pull_step(s, first, second).0.wf(),
{
    lemma_certain_check_always_hits(first);
    lemma_certain_check_always_hits(second);
}

/// Hard pity: the 80th pull since the last 5★ is always a 5★.
pub proof fn law_five_star_hard_pity(s: PityState, first: u64, second: u64)
    requires
        s.wf(),
        s.pity5 == P5_HARD_PITY - 1,
    ensures
        pull_step(s, first, second).1.item.is_five_star_spec(),
{
    lemma_certain_check_always_hits(first);
}

/// Hard pity of 4★: the 10th pull since the last 4★-or-better item is never a 3★.
pub proof fn law_four_star_hard_pity(s: PityState, first: u64, second: u64)
    requires
        s.wf(),
        s.pity4 == P4_HARD_PITY - 1,
    ensures
        !(pull_step(s, first, second).1.item is Three),
{
    lemma_certain_check_always_hits(second);
}

/// How the counters move: a 5★ resets both of them (a 5★ counts as "4★ or
/// better"); any other pull raises the 5★ counter by one; a 4★ resets the
/// 4★ counter and a 3★ raises it by one.
pub proof fn law_pity_counting(s: PityState, first: u64, second: u64)
    requires
        s.wf(),
    ensures
        ({
            let (t, out) = pull_step(s, first, second);
            &&& out.item.is_five_star_spec() ==> t.pity5 == 0 && t.pity4 == 0
            &&& !out.item.is_five_star_spec() ==> t.pity5 == s.pity5 + 1
            &&& out.item is Four ==> t.pity4 == 0
            &&& out.item is Three ==> t.pity4 == s.pity4 + 1
        }),
{
}

/// The 50/50 and its guarantee: a lost 50/50 (a standard 5★) sets the
/// guarantee; with the guarantee the next 5★ is the limited character and is
/// marked as given by it; a limited 5★ clears the guarantee; other pulls keep it.
pub proof fn law_guarantee(s: PityState, first: u64, second: u64)
    ensures
        ({
            let (t, out) = pull_step(s, first, second);
            &&& out.item is Standard5 ==> t.guaranteed5 && !s.guaranteed5
            &&& out.item is Limited5 ==> !t.guaranteed5
            &&& s.guaranteed5 && out.item.is_five_star_spec() ==> out.item is Limited5
            &&& out.used_guarantee <==> (s.guaranteed5 && out.item.is_five_star_spec())
            &&& !out.item.is_five_star_spec() ==> t.guaranteed5 == s.guaranteed5
        }),
{
}

// ─────────────────────────── laws of a run ───────────────────────────

/// The states and outcomes of consecutive pulls from `s`, the `k`-th pull
/// using the pair of draws `draws[k]`.
pub open spec fn run(s: PityState, draws: Seq<(u64, u64)>) -> Seq<(PityState, PullOutcome)>
    decreases draws.len(),
{
    if draws.len() == 0 {
        Seq::empty()
    } else {
        let prev = run(s, draws.drop_last());
        prev.push(pull_step(state_before(s, prev, prev.len() as int), draws.last().0, draws.last().1))
    }
}

/// The state before the `k`-th pull of a run from `s` whose steps are `steps`.
pub open spec fn state_before(s: PityState, steps: Seq<(PityState, PullOutcome)>, k: int) -> PityState {
    if k == 0 {
        s
    } else {
        steps[k - 1].0
    }
}

/// Each element of a run is one pull from the state before it, and every state is well formed.
pub proof fn lemma_run_steps(s: PityState, draws: Seq<(u64, u64)>)
    requires
        s.wf(),
    ensures
        run(s, draws).len() == draws.len(),
        forall|k: int|
            0 <= k < draws.len() ==> #[trigger] run(s, draws)[k] == pull_step(
                state_before(s, run(s, draws), k),
                draws[k].0,
                draws[k].1,
            ),
        forall|k: int| 0 <= k < draws.len() ==> (#[trigger] run(s, draws)[k]).0.wf(),
    decreases draws.len(),
{
    if draws.len() > 0 {
        let d = draws.drop_last();
        lemma_run_steps(s, d);
        let prev = run(s, d);
        let r = run(s, draws);
        let n = prev.len() as int;
        let before = state_before(s, prev, n);
        assert(before.wf());
        law_pull_keeps_state_wf(before, draws.last().0, draws.last().1);
        assert forall|k: int| 0 <= k < draws.len() implies #[trigger] r[k] == pull_step(
            state_before(s, r, k),
            draws[k].0,
            draws[k].1,
        ) && r[k].0.wf() by {
            if k < n {
                assert(d[k] == draws[k]);
                assert(r[k] == prev[k]);
                if k > 0 {
                    assert(r[k - 1] == prev[k - 1]);
                }
            } else {
                if k > 0 {
                    assert(r[k - 1] == prev[k - 1]);
                }
            }
        }
    }
}

/// After `m` consecutive pulls without a 5★ (and without a 3★) starting at pull
/// `i`, the counters have grown by `m`.
proof fn lemma_counters_grow(s: PityState, draws: Seq<(u64, u64)>, i: int, m: int)
    requires
        s.wf(),
        0 <= i,
        1 <= m,
        i + m <= draws.len(),
    ensures
        (forall|j: int| i <= j < i + m ==> !(#[trigger] run(s, draws)[j]).1.item.is_five_star_spec())
            ==> run(s, draws)[i + m - 1].0.pity5 == state_before(s, run(s, draws), i).pity5 + m,
        (forall|j: int| i <= j < i + m ==> (#[trigger] run(s, draws)[j]).1.item is Three)
            ==> run(s, draws)[i + m - 1].0.pity4 == state_before(s, run(s, draws), i).pity4 + m,
    decreases m,
{
    lemma_run_steps(s, draws);
    let r = run(s, draws);
    let k = i + m - 1;
    let before = state_before(s, r, k);
    assert(r[k] == pull_step(before, draws[k].0, draws[k].1));
    if k > 0 {
        assert(r[k - 1].0.wf());
    }
    law_pity_counting(before, draws[k].0, draws[k].1);
    if m > 1 {
        lemma_counters_grow(s, draws, i, m - 1);
    }
}

/// Within any 80 consecutive pulls from a well-formed state there is a 5★.
pub proof fn law_five_star_within_hard_pity(s: PityState, draws: Seq<(u64, u64)>, i: int)
    requires
        s.wf(),
        0 <= i,
        i + P5_HARD_PITY <= draws.len(),
    ensures
        exists|j: int|
            i <= j < i + P5_HARD_PITY && (#[trigger] run(s, draws)[j]).1.item.is_five_star_spec(),
{
    lemma_run_steps(s, draws);
    let r = run(s, draws);
    if forall|j: int| i <= j < i + P5_HARD_PITY ==> !(#[trigger] r[j]).1.item.is_five_star_spec() {
        lemma_counters_grow(s, draws, i, P5_HARD_PITY as int);
        assert(r[i + P5_HARD_PITY - 1].0.wf());
        if i > 0 {
            assert(r[i - 1].0.wf());
        }
        assert(false);
    }
}

/// Within any 10 consecutive pulls from a well-formed state there is a 4★ or better.
pub proof fn law_four_star_within_hard_pity(s: PityState, draws: Seq<(u64, u64)>, i: int)
    requires
        s.wf(),
        0 <= i,
        i + P4_HARD_PITY <= draws.len(),
    ensures
        exists|j: int| i <= j < i + P4_HARD_PITY && !((#[trigger] run(s, draws)[j]).1.item is Three),
{
    lemma_run_steps(s, draws);
    let r = run(s, draws);
    if forall|j: int| i <= j < i + P4_HARD_PITY ==> (#[trigger] r[j]).1.item is Three {
        lemma_counters_grow(s, draws, i, P4_HARD_PITY as int);
        assert(r[i + P4_HARD_PITY - 1].0.wf());
        if i > 0 {
            assert(r[i - 1].0.wf());
        }
        assert(false);
    }
}

/// After a lost 50/50 the guarantee stays set until the next 5★.
proof fn lemma_guarantee_persists(s: PityState, draws: Seq<(u64, u64)>, i: int, j: int)
    requires
        s.wf(),
        0 <= i < j <= draws.len(),
        run(s, draws)[i].1.item is Standard5,
        forall|k: int| i < k < j ==> !(#[trigger] run(s, draws)[k]).1.item.is_five_star_spec(),
    ensures
        state_before(s, run(s, draws), j).guaranteed5,
    decreases j - i,
{
    lemma_run_steps(s, draws);
    let r = run(s, draws);
    if j == i + 1 {
        law_guarantee(state_before(s, r, i), draws[i].0, draws[i].1);
    } else {
        lemma_guarantee_persists(s, draws, i, j - 1);
        law_guarantee(state_before(s, r, j - 1), draws[j - 1].0, draws[j - 1].1);
    }
}

/// After a lost 50/50, the next 5★ is the limited character, given by the guarantee.
pub proof fn law_next_five_star_after_loss_is_limited(
    s: PityState,
    draws: Seq<(u64, u64)>,
    i: int,
    j: int,
)
    requires
        s.wf(),
        0 <= i < j < draws.len(),
        run(s, draws)[i].1.item is Standard5,
        run(s, draws)[j].1.item.is_five_star_spec(),
        forall|k: int| i < k < j ==> !(#[trigger] run(s, draws)[k]).1.item.is_five_star_spec(),
    ensures
        run(s, draws)[j].1.item is Limited5,
        run(s, draws)[j].1.used_guarantee,
{
    lemma_run_steps(s, draws);
    lemma_guarantee_persists(s, draws, i, j);
    law_guarantee(state_before(s, run(s, draws), j), draws[j].0, draws[j].1);
}

/// A source of uniformly distributed 64-bit draws.
pub trait RandomSource {
    /// Whether this source gives the draws of [`RandomSource::future`] in
    /// order.  A source that does not define it promises nothing.
    open spec fn obeys_stream(&self) -> bool {
        false
    }

    /// The draws this source will give from now on, in order; meaningful
    /// only where [`RandomSource::obeys_stream`] holds.
    open spec fn future(&self) -> spec_fn(nat) -> u64 {
        |i: nat| 0u64
    }

    /// The next draw: for a source that obeys its stream, the first draw of
    /// [`RandomSource::future`], which then moves on by one.
    fn next_u64(&mut self) -> (r: u64)
        ensures
            old(self).obeys_stream() ==> {
                &&& final(self).obeys_stream()
                &&& r == (old(self).future())(0)
                &&& final(self).future() == shift(old(self).future(), 1)
            },
    ;
}

/// The stream `f` without its first `n` draws.
pub open spec fn shift(f: spec_fn(nat) -> u64, n: nat) -> spec_fn(nat) -> u64 {
    |i: nat| f(i + n)
}

/// How many draws a pull from `s` takes when its first draw is `first`: one
/// for a 5★ given by the guarantee, two otherwise.
pub open spec fn draws_taken(s: PityState, first: u64) -> nat {
    if five_star_hits(s.pity5, first) && s.guaranteed5 {
        1
    } else {
        2
    }
}

/// The pair of draws a pull from `s` uses when the stream's next draw is at `at`.
pub open spec fn pair_at(s: PityState, stream: spec_fn(nat) -> u64, at: nat) -> (u64, u64) {
    let first = stream(at);
    (first, if draws_taken(s, first) == 2 { stream(at + 1) } else { 0 })
}

/// `k` pulls from `s` drawing from `stream`, starting at its first draw: the
/// pairs of draws the pulls use, and how many draws of the stream they take.
pub open spec fn play(s: PityState, stream: spec_fn(nat) -> u64, k: nat) -> (Seq<(u64, u64)>, nat)
    decreases k,
{
    if k == 0 {
        (Seq::empty(), 0)
    } else {
        let (pairs, used) = play(s, stream, (k - 1) as nat);
        let t = state_after(s, run(s, pairs));
        let p = pair_at(t, stream, used);
        (pairs.push(p), used + draws_taken(t, p.0))
    }
}

/// The finite stream `draws`, read as an endless one (zeros past its end).
pub open spec fn stream_of(draws: Seq<u64>) -> spec_fn(nat) -> u64 {
    |i: nat| if i < draws.len() { draws[i as int] } else { 0 }
}

/// The state after all the steps of a run from `s`.
pub open spec fn state_after(s: PityState, steps: Seq<(PityState, PullOutcome)>) -> PityState {
    state_before(s, steps, steps.len() as int)
}

/// The outcomes of the steps of a run, in order.
pub open spec fn outcomes(steps: Seq<(PityState, PullOutcome)>) -> Seq<PullOutcome> {
    Seq::new(steps.len(), |i: int| steps[i].1)
}

/// Extending the pairs of a run by one extends the run by that pull.
pub proof fn lemma_run_push(s: PityState, pairs: Seq<(u64, u64)>, p: (u64, u64))
    ensures
        run(s, pairs.push(p)) == run(s, pairs).push(
            pull_step(state_after(s, run(s, pairs)), p.0, p.1),
        ),
{
    assert(pairs.push(p).drop_last() == pairs);
}

/// A run has one step per pair of draws.
pub proof fn lemma_run_len(s: PityState, pairs: Seq<(u64, u64)>)
    ensures
        run(s, pairs).len() == pairs.len(),
    decreases pairs.len(),
{
    if pairs.len() > 0 {
        lemma_run_len(s, pairs.drop_last());
    }
}

/// `play` takes one pair per pull, and reads no draw at or past the count it reports.
pub proof fn lemma_play_reads_prefix(
    s: PityState,
    f: spec_fn(nat) -> u64,
    g: spec_fn(nat) -> u64,
    k: nat,
)
    requires
        forall|i: nat| i < play(s, f, k).1 ==> #[trigger] f(i) == g(i),
    ensures
        play(s, f, k) == play(s, g, k),
        play(s, f, k).0.len() == k,
    decreases k,
{
    if k > 0 {
        let (pairs, used) = play(s, f, (k - 1) as nat);
        let t = state_after(s, run(s, pairs));
        assert(draws_taken(t, f(used)) >= 1);
        lemma_play_reads_prefix(s, f, g, (k - 1) as nat);
        assert(f(used) == g(used));
        if draws_taken(t, f(used)) == 2 {
            assert(f(used + 1) == g(used + 1));
        }
    }
}

/// Playing `k` pulls over the draws `a`, then one more pull over the draws
/// `delta`, is playing `k + 1` pulls over `a + delta`.
pub proof fn lemma_play_extend(s: PityState, a: Seq<u64>, delta: Seq<u64>, k: nat)
    requires
        play(s, stream_of(a), k).1 == a.len(),
        play(state_after(s, run(s, play(s, stream_of(a), k).0)), stream_of(delta), 1).1
            == delta.len(),
    ensures
        ({
            let pk = play(s, stream_of(a), k).0;
            let t = state_after(s, run(s, pk));
            let p = play(t, stream_of(delta), 1).0[0];
            &&& play(s, stream_of(a + delta), k + 1) == (pk.push(p), (a + delta).len())
            &&& run(s, pk.push(p)) == run(s, pk).push(pull_step(t, p.0, p.1))
            &&& run(t, play(t, stream_of(delta), 1).0) == seq![pull_step(t, p.0, p.1)]
            &&& pk.len() == k
        }),
{
    let b = a + delta;
    let fa = stream_of(a);
    let fb = stream_of(b);
    let fd = stream_of(delta);
    assert forall|i: nat| i < play(s, fa, k).1 implies #[trigger] fa(i) == fb(i) by {
        assert(b[i as int] == a[i as int]);
    }
    lemma_play_reads_prefix(s, fa, fb, k);
    let pk = play(s, fa, k).0;
    let t = state_after(s, run(s, pk));
    let e = Seq::<(u64, u64)>::empty();
    assert(play(t, fd, 0) == (e, 0nat));
    assert(state_before(t, run(t, e), 0) == t);
    let p = pair_at(t, fd, 0);
    assert(play(t, fd, 1) == (e.push(p), draws_taken(t, p.0)));
    assert(fb(a.len()) == fd(0)) by {
        assert(b[a.len() as int] == delta[0]);
    }
    if draws_taken(t, p.0) == 2 {
        assert(fb(a.len() + 1) == fd(1)) by {
            assert(b[a.len() as int + 1] == delta[1]);
        }
    }
    assert(pair_at(t, fb, a.len()) == p);
    assert(play(t, fd, 1).0[0] == p);
    assert(play(s, fb, k) == (pk, a.len()));
    assert(((k + 1) as nat - 1) as nat == k);
    assert(play(s, fb, k + 1) == (pk.push(p), a.len() + draws_taken(t, p.0)));
    lemma_run_push(s, pk, p);
    lemma_run_push(t, e, p);
    assert(run(t, e) == Seq::<(PityState, PullOutcome)>::empty());
    assert(state_after(t, run(t, e)) == t);
    assert(e.push(p) == seq![p]);
    assert(run(t, e).push(pull_step(t, p.0, p.1)) == seq![pull_step(t, p.0, p.1)]);
}

/// One pull from `s` taking exactly the draws `new` leads to `t` with the outcome `out`.
#[verifier::opaque]
pub open spec fn one_pull(s: PityState, new: Seq<u64>, t: PityState, out: PullOutcome) -> bool {
    &&& play(s, stream_of(new), 1).1 == new.len()
    &&& run(s, play(s, stream_of(new), 1).0) == seq![(t, out)]
}

/// A banner: a random source and the pity state.
///
/// Every banner starts fresh (no pity, no guarantee); there is no way to
/// resume from an earlier state.
pub struct Banner<R: RandomSource> {
    rng: R,
    state: PityState,
    taken: Ghost<Seq<u64>>,
}

impl<R: RandomSource> Banner<R> {
    /// The pity state of the banner.
    pub closed spec fn state(self) -> PityState {
        self.state
    }

    /// The draws the banner has taken from its source, oldest first.
    pub closed spec fn taken(self) -> Seq<u64> {
        self.taken@
    }

    /// The random source the banner draws from.
    pub closed spec fn source(self) -> R {
        self.rng
    }

    /// A fresh banner drawing from `rng`, which it keeps untouched.
    pub fn new(rng: R) -> (b: Self)
        ensures
            b.state() == PityState::fresh(),
            b.source() == rng,
            b.taken() == Seq::<u64>::empty(),
    {
        Banner {
            rng,
            state: PityState { pity5: 0, pity4: 0, guaranteed5: false },
            taken: Ghost(Seq::empty()),
        }
    }

    /// The pity state.
    pub fn pity_state(&self) -> (r: PityState)
        ensures
            r == self.state(),
    {
        self.state
    }

    /// Pulls since the last 5★.
    pub fn pity5(&self) -> (r: u32)
        ensures
            r == self.state().pity5,
    {
        self.state.pity5
    }

    /// Pulls since the last 4★-or-better item.
    pub fn pity4(&self) -> (r: u32)
        ensures
            r == self.state().pity4,
    {
        self.state.pity4
    }

    /// Whether the next 5★ is guaranteed to be the limited character.
    pub fn guaranteed5(&self) -> (r: bool)
        ensures
            r == self.state().guaranteed5,
    {
        self.state.guaranteed5
    }

    /// Makes one pull: one draw for the 5★ check, and a second one for the
    /// 50/50 or the 4★ check unless the 5★ comes with the guarantee.
    /// The draws it takes are appended to [`Banner::taken`], and the new state
    /// and outcome are the one pull of [`play`] over them; for a source that
    /// obeys its stream, they are the next draws of [`RandomSource::future`].
    pub fn pull(&mut self) -> (out: PullOutcome)
        requires
            old(self).state().wf(),
        ensures
            final(self).state().wf(),
            ({
                let before = old(self).taken();
                let after = final(self).taken();
                let new = after.subrange(before.len() as int, after.len() as int);
                &&& after.len() >= before.len()
                &&& after.subrange(0, before.len() as int) == before
                &&& one_pull(old(self).state(), new, final(self).state(), out)
                &&& old(self).source().obeys_stream() ==> {
                    &&& final(self).source().obeys_stream()
                    &&& forall|i: nat|
                        i < new.len() ==> #[trigger] new[i as int] == (old(
                            self,
                        ).source().future())(i)
                    &&& final(self).source().future() == shift(
                        old(self).source().future(),
                        new.len(),
                    )
                }
            }),
    {
        let s = self.state;
        let ghost fut = self.rng.future();
        let ghost obeys = self.rng.obeys_stream();
        let first = self.rng.next_u64();
        let second = if s.needs_second_draw(first) {
            self.rng.next_u64()
        } else {
            0
        };
        let (next, out) = s.step(first, second);
        let ghost new: Seq<u64> = if draws_taken(s, first) == 2 {
            seq![first, second]
        } else {
            seq![first]
        };
        proof {
            reveal(one_pull);
            law_pull_keeps_state_wf(s, first, second);
            let f = stream_of(new);
            let (p0, u0) = play(s, f, 0);
            assert(state_before(s, run(s, p0), p0.len() as int) == s);
            assert(pair_at(s, f, 0) == (first, second));
            lemma_run_push(s, p0, (first, second));
            assert(p0.push((first, second)) == seq![(first, second)]);
            if draws_taken(s, first) == 2 {
                assert(obeys ==> self.rng.future() =~= shift(fut, 2));
            } else {
                assert(obeys ==> self.rng.future() =~= shift(fut, 1));
            }
            let t0 = self.taken@;
            self.taken@ = t0 + new;
            assert(self.taken@.subrange(0, t0.len() as int) =~= t0);
            assert(self.taken@.subrange(t0.len() as int, self.taken@.len() as int) =~= new);
        }
        self.state = next;
        out
    }
}

} // verus!
