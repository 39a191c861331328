//! Reference values of the model, and the state indexing of the exact
//! expectation table.
//!
//! The reference rates are the long-run values: the 5★ figures are exact
//! analytic results, the 4★/3★ and coral figures were measured on a reference
//! simulation of twenty million pulls.  They are kept here as exact integers:
//! rates in millionths, mean pull counts in thousandths.
//!
//! A run starts from a fresh pity state, so over its first pulls the soft pity
//! has not kicked in yet and the real expectation is well below
//! `pulls × long-run rate`.  The exact expectation is computed by dynamic
//! programming over the states `(pity5, guaranteed, pity4)`, each holding three
//! lanes: expected limited 5★, standard 5★ and 4★.  This module fixes where each
//! state and lane lives in the table and which states a pull leads to.
use vstd::prelude::*;

use crate::gacha::{
    CORAL_4STAR, CORAL_5STAR_LIMITED, CORAL_5STAR_STANDARD, P4_HARD_PITY, P5_HARD_PITY, PityState,
    law_pull_keeps_state_wf, lemma_certain_check_always_hits, pull_step,
};

verus! {

/// The unit of the reference rates.
pub const MILLIONTHS: u64 = 1_000_000;
/// The unit of the reference mean pull counts.
pub const THOUSANDTHS: u64 = 1_000;

/// Long-run 5★ rate, pity included: 1.8648%.
pub const P5: u64 = 18_648;
/// Long-run mean number of pulls per 5★: 53.625.
pub const MEAN_PULLS_PER_5STAR: u64 = 53_625;
/// Long-run limited 5★ rate: two thirds of the 5★ rate.
pub const P5_LIMITED: u64 = P5 * 2 / 3;
/// Long-run standard 5★ rate: one third of the 5★ rate.
pub const P5_STANDARD: u64 = P5 / 3;
/// Long-run 4★ rate: 12.1207%.
pub const P4: u64 = 121_207;
/// Long-run mean number of pulls per 4★: 8.25.
pub const MEAN_PULLS_PER_4STAR: u64 = 8_250;
/// Long-run 3★ rate: what is left.
pub const P3: u64 = MILLIONTHS - P5 - P4;
/// Long-run coral per pull, in millionths of coral.
#[verifier::nonlinear]
pub const CORAL_PER_PULL: u64 = P5_LIMITED * (CORAL_5STAR_LIMITED as u64) + P5_STANDARD * (
CORAL_5STAR_STANDARD as u64) + P4 * (CORAL_4STAR as u64);

/// The reference values agree with each other: the three rarities share all
/// pulls, the limited and standard 5★ rates make up the 5★ rate in the ratio
/// 2 : 1, coral per pull is what the rates pay out, and the mean pulls per 5★
/// is the reciprocal of the 5★ rate up to 0.01 pulls.
pub proof fn law_reference_values_consistent()
    ensures
        P5 + P4 + P3 == MILLIONTHS,
        P5_LIMITED + P5_STANDARD == P5,
        P5_LIMITED == 2 * P5_STANDARD,
        CORAL_PER_PULL == P5_LIMITED * CORAL_5STAR_LIMITED + P5_STANDARD * CORAL_5STAR_STANDARD
            + P4 * CORAL_4STAR,
        ({
            let gap = MEAN_PULLS_PER_5STAR * P5 - MILLIONTHS * THOUSANDTHS;
            -(P5 * 10) < gap < P5 * 10
        }),
{
}

// ───────────────────────── the expectation table ─────────────────────────

/// States of the 5★ counter: `0..=79`.
pub const P5_STATES: usize = 80;
/// States of the 4★ counter: `0..=9`.
pub const P4_STATES: usize = 10;
/// "Guaranteed" or not.
pub const G_STATES: usize = 2;
/// Expected values per state: limited 5★, standard 5★, 4★.
pub const LANES: usize = 3;
/// Lane of the expected number of limited 5★.
pub const LANE_LIMITED: usize = 0;
/// Lane of the expected number of standard 5★.
pub const LANE_STANDARD: usize = 1;
/// Lane of the expected number of 4★.
pub const LANE_FOUR: usize = 2;
/// Length of the table.
pub const TABLE_LEN: usize = 4800;

/// Where the lanes of state `(pity5, guaranteed, pity4)` start in the table.
pub open spec fn lane_index_spec(pity5: int, guaranteed: int, pity4: int) -> int {
    ((pity5 * G_STATES + guaranteed) * P4_STATES + pity4) * LANES
}

/// A state index is in range.
pub open spec fn state_in_range(pity5: int, guaranteed: int, pity4: int) -> bool {
    &&& 0 <= pity5 < P5_STATES
    &&& 0 <= guaranteed < G_STATES
    &&& 0 <= pity4 < P4_STATES
}

/// Where the lanes of a pity state start in the table.
pub open spec fn state_lane(s: PityState) -> int {
    lane_index_spec(s.pity5 as int, if s.guaranteed5 { 1 } else { 0 }, s.pity4 as int)
}

/// Where the lanes of state `(pity5, guaranteed, pity4)` start in the table.
pub fn lane_index(pity5: usize, guaranteed: usize, pity4: usize) -> (r: usize)
    requires
        state_in_range(pity5 as int, guaranteed as int, pity4 as int),
    ensures
        r == lane_index_spec(pity5 as int, guaranteed as int, pity4 as int),
        r + LANES <= TABLE_LEN,
{
    ((pity5 * G_STATES + guaranteed) * P4_STATES + pity4) * LANES
}

/// Distinct states own disjoint lanes, all inside the table.
pub proof fn law_lanes_disjoint(a5: int, ag: int, a4: int, b5: int, bg: int, b4: int)
    requires
        state_in_range(a5, ag, a4),
        state_in_range(b5, bg, b4),
        (a5, ag, a4) != (b5, bg, b4),
    ensures
        lane_index_spec(a5, ag, a4) + LANES <= lane_index_spec(b5, bg, b4) || lane_index_spec(
            b5,
            bg,
            b4,
        ) + LANES <= lane_index_spec(a5, ag, a4),
        0 <= lane_index_spec(a5, ag, a4),
        lane_index_spec(a5, ag, a4) + LANES <= TABLE_LEN,
{
}

/// Where a state's lanes start, and the states a pull from it may lead to
/// other than through a 5★.
#[derive(Clone, Copy, Debug, PartialEq, Eq, Structural)]
pub struct Successors {
    /// The state itself.
    pub base: usize,
    /// After a pull that gives a 4★.
    pub hit_four: usize,
    /// After a pull that gives a 3★.
    pub miss: usize,
}

/// Where the table lands after a limited 5★: no pity, no guarantee.
pub const LIMITED_LANDING: usize = 0;
/// Where the table lands after a standard 5★: no pity, guaranteed.
pub const STANDARD_LANDING: usize = 30;

/// `n + 1`, but at most `cap`.
pub open spec fn step_capped(n: int, cap: int) -> int {
    if n + 1 < cap {
        n + 1
    } else {
        cap
    }
}

/// The lanes of state `(pity5, guaranteed, pity4)` and of the states reached
/// from it by a 4★ and by a 3★.  The counters are capped at their last state,
/// which no pull can leave without a reset.
pub fn successors(pity5: usize, guaranteed: usize, pity4: usize) -> (s: Successors)
    requires
        state_in_range(pity5 as int, guaranteed as int, pity4 as int),
    ensures
        s.base == lane_index_spec(pity5 as int, guaranteed as int, pity4 as int),
        s.hit_four == lane_index_spec(
            step_capped(pity5 as int, P5_STATES - 1),
            guaranteed as int,
            0,
        ),
        s.miss == lane_index_spec(
            step_capped(pity5 as int, P5_STATES - 1),
            guaranteed as int,
            step_capped(pity4 as int, P4_STATES - 1),
        ),
        s.base + LANES <= TABLE_LEN,
        s.hit_four + LANES <= TABLE_LEN,
        s.miss + LANES <= TABLE_LEN,
{
    let next_pity5 = if pity5 + 1 < P5_STATES - 1 {
        pity5 + 1
    } else {
        P5_STATES - 1
    };
    let next_pity4 = if pity4 + 1 < P4_STATES - 1 {
        pity4 + 1
    } else {
        P4_STATES - 1
    };
    Successors {
        base: lane_index(pity5, guaranteed, pity4),
        hit_four: lane_index(next_pity5, guaranteed, 0),
        miss: lane_index(next_pity5, guaranteed, next_pity4),
    }
}

/// The table follows the banner: from any well-formed state, the state a pull
/// leads to is the landing of a limited or standard 5★, or the 4★ or 3★
/// successor of [`successors`], according to the item obtained.
pub proof fn law_successors_follow_pull(s: PityState, first: u64, second: u64)
    requires
        s.wf(),
    ensures
        ({
            let (t, out) = pull_step(s, first, second);
            let g = if s.guaranteed5 { 1int } else { 0int };
            &&& out.item is Limited5 ==> state_lane(t) == LIMITED_LANDING
            &&& out.item is Standard5 ==> state_lane(t) == STANDARD_LANDING
            &&& out.item is Four ==> state_lane(t) == lane_index_spec(
                step_capped(s.pity5 as int, P5_STATES - 1),
                g,
                0,
            )
            &&& out.item is Three ==> state_lane(t) == lane_index_spec(
                step_capped(s.pity5 as int, P5_STATES - 1),
                g,
                step_capped(s.pity4 as int, P4_STATES - 1),
            )
        }),
{
    lemma_certain_check_always_hits(first);
    lemma_certain_check_always_hits(second);
    law_pull_keeps_state_wf(s, first, second);
    assert(P5_HARD_PITY == P5_STATES && P4_HARD_PITY == P4_STATES);
}

} // verus!
