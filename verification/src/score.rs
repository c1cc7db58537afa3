//! Per-participant rating record and the Elo-style rating engine.
//!
//! The engine follows the classic logistic update rule with a smoothing
//! constant of 400 rating points and a sensitivity ("K-factor") that drops in
//! tiers at 2100 and 2400. All arithmetic is exact fixed-point integer
//! arithmetic: the expected-score term is computed per mille (`ELO_SCALE`)
//! from the decay factor `10^(-1/400)` held in 32.32 fixed point, and the
//! final change is the floor of `K * (actual - expected)`.

use vstd::prelude::*;
use vstd::arithmetic::div_mod::*;
use vstd::arithmetic::mul::*;

verus! {

/// Rating every participant starts from.
pub const BASE_ELO: i32 = 1500;

/// Denominator of the per-mille expected-score term.
pub const ELO_SCALE: u64 = 1000;

/// `1.0` in 32.32 fixed point.
pub const FIXED_ONE: u64 = 0x1_0000_0000;

/// `10^(-1/400)` in 32.32 fixed point, rounded to nearest: one step of the
/// logistic decay per point of rating difference.
pub const DECAY_FACTOR: u64 = 4270314501;

/// `10^(-d/400)` in 32.32 fixed point, evaluated by repeated multiplication
/// with `DECAY_FACTOR`, truncating after each step.
pub open spec fn decay(d: nat) -> int
    decreases d,
{
    if d == 0 {
        FIXED_ONE as int
    } else {
        (decay((d - 1) as nat) * (DECAY_FACTOR as int)) / (FIXED_ONE as int)
    }
}

/// The expected-score term for the lower-rated (or equal) side of a rating
/// gap `d`, per mille: `1000 * 10^(-d/400) / (1 + 10^(-d/400))`.
pub open spec fn spec_half_expected(d: nat) -> int {
    (ELO_SCALE as int) * decay(d) / (FIXED_ONE as int + decay(d))
}

/// The expected score, per mille, of a participant rated `own` against one
/// rated `opp`: the logistic curve `1 / (1 + 10^((opp - own)/400))`, with the
/// higher-rated side's value defined as the exact complement of the
/// lower-rated side's so that the two always sum to `ELO_SCALE`.
pub open spec fn spec_expected(own: int, opp: int) -> int {
    if opp >= own {
        spec_half_expected((opp - own) as nat)
    } else {
        ELO_SCALE as int - spec_half_expected((own - opp) as nat)
    }
}

/// The sensitivity tier for a participant currently rated `elo`: higher-rated
/// participants move fewer points per game.
pub open spec fn spec_k_factor(elo: int) -> int {
    if elo <= 2100 {
        40
    } else if elo <= 2400 {
        25
    } else {
        15
    }
}

/// The signed rating change of a participant rated `own` after a game against
/// one rated `opp`: the floor of `K * (actual - expected)` where `actual` is
/// the full scale for a win and `0` for a loss, both per mille.
pub open spec fn spec_elo_change(own: int, opp: int, outcome: Outcome) -> int {
    let actual = if outcome is Win {
        ELO_SCALE as int
    } else {
        0
    };
    spec_k_factor(own) * (actual - spec_expected(own, opp)) / (ELO_SCALE as int)
}

/// The decay term never leaves `[0, 1.0]` in fixed point.
pub proof fn lemma_decay_bounds(d: nat)
    ensures
        0 <= decay(d) <= FIXED_ONE,
    decreases d,
{
    let one = FIXED_ONE as int;
    let f = DECAY_FACTOR as int;
    if d > 0 {
        lemma_decay_bounds((d - 1) as nat);
        let prev = decay((d - 1) as nat);
        lemma_mul_nonnegative(prev, f);
        lemma_div_pos_is_pos(prev * f, one);
        lemma_mul_inequality(prev, one, f);
        lemma_div_is_ordered(prev * f, one * f, one);
        lemma_div_multiples_vanish(f, one);
    }
}

/// Once the decay term has been truncated to zero it stays zero.
proof fn lemma_decay_zero_stays(i: nat, j: nat)
    requires
        decay(i) == 0,
        i <= j,
    ensures
        decay(j) == 0,
    decreases j,
{
    if j > i {
        lemma_decay_zero_stays(i, (j - 1) as nat);
    }
}

/// The lower-rated side's expected-score term lies in `[0, 500]` per mille.
pub proof fn lemma_half_expected_range(d: nat)
    ensures
        0 <= spec_half_expected(d) <= 500,
{
    let one = FIXED_ONE as int;
    lemma_decay_bounds(d);
    let t = decay(d);
    lemma_mul_nonnegative(ELO_SCALE as int, t);
    lemma_div_pos_is_pos(1000 * t, one + t);
    assert(1000 * t <= 500 * (one + t));
    lemma_div_is_ordered(1000 * t, 500 * (one + t), one + t);
    lemma_div_multiples_vanish(500, one + t);
    assert(500 * (one + t) == (one + t) * 500) by (nonlinear_arith);
}

/// The expected score lies in `[0, 1000]` per mille.
pub proof fn lemma_expected_range(own: int, opp: int)
    ensures
        0 <= spec_expected(own, opp) <= ELO_SCALE,
{
    if opp >= own {
        lemma_half_expected_range((opp - own) as nat);
    } else {
        lemma_half_expected_range((own - opp) as nat);
    }
}

/// The two sides' expected scores are exact complements: they always sum to
/// `ELO_SCALE`, as the real-valued logistic terms do.
pub proof fn lemma_expected_complement(a: int, b: int)
    ensures
        spec_expected(a, b) + spec_expected(b, a) == ELO_SCALE,
{
    if a == b {
        assert(decay(0) == FIXED_ONE as int);
        lemma_fundamental_div_mod_converse_div(
            1000 * (FIXED_ONE as int),
            FIXED_ONE as int + FIXED_ONE as int,
            500,
            0,
        );
    }
}

/// For a nonnegative dividend and positive divisor, negating the dividend
/// turns the floor into a ceiling, and the ceiling exceeds the floor by at
/// most one.
proof fn lemma_div_ceil_facts(n: int, s: int)
    requires
        n >= 0,
        s > 0,
    ensures
        (-n) / s == -((n + s - 1) / s),
        n / s <= (n + s - 1) / s <= n / s + 1,
{
    let q = n / s;
    let r = n % s;
    lemma_fundamental_div_mod(n, s);
    lemma_mod_division_less_than_divisor(n, s);
    lemma_div_pos_is_pos(n, s);
    if r == 0 {
        assert(-n == (-q) * s + 0) by (nonlinear_arith)
            requires
                n == s * q,
        ;
        lemma_fundamental_div_mod_converse_div(-n, s, -q, 0);
        assert(n + s - 1 == q * s + (s - 1)) by (nonlinear_arith)
            requires
                n == s * q,
        ;
        lemma_fundamental_div_mod_converse_div(n + s - 1, s, q, s - 1);
    } else {
        assert(-n == (-q - 1) * s + (s - r)) by (nonlinear_arith)
            requires
                n == s * q + r,
        ;
        lemma_fundamental_div_mod_converse_div(-n, s, -q - 1, s - r);
        assert(n + s - 1 == (q + 1) * s + (r - 1)) by (nonlinear_arith)
            requires
                n == s * q + r,
        ;
        lemma_fundamental_div_mod_converse_div(n + s - 1, s, q + 1, r - 1);
    }
}

/// A win never lowers a rating and a loss never raises one: the change is
/// monotonic in the outcome for any pair of ratings.
pub proof fn lemma_update_monotonic(own: int, opp: int)
    ensures
        spec_elo_change(own, opp, Outcome::Win) >= 0,
        spec_elo_change(own, opp, Outcome::Loss) <= 0,
        -(spec_k_factor(own)) <= spec_elo_change(own, opp, Outcome::Loss),
        spec_elo_change(own, opp, Outcome::Win) <= spec_k_factor(own),
{
    let k = spec_k_factor(own);
    let e = spec_expected(own, opp);
    let scale = ELO_SCALE as int;
    lemma_expected_range(own, opp);
    lemma_mul_nonnegative(k, scale - e);
    lemma_div_pos_is_pos(k * (scale - e), scale);
    lemma_mul_inequality(scale - e, scale, k);
    assert((scale - e) * k == k * (scale - e)) by (nonlinear_arith);
    assert(scale * k == k * scale) by (nonlinear_arith);
    lemma_div_is_ordered(k * (scale - e), k * scale, scale);
    lemma_div_multiples_vanish(k, scale);
    assert(k * scale == scale * k) by (nonlinear_arith);

    let nl = k * e;
    lemma_mul_nonnegative(k, e);
    assert(k * (0 - e) == -(k * e)) by (nonlinear_arith);
    lemma_div_ceil_facts(nl, scale);
    lemma_mul_inequality(e, scale, k);
    assert(e * k == k * e) by (nonlinear_arith);
    assert(nl + scale - 1 <= k * scale + scale - 1);
    lemma_div_is_ordered(nl + scale - 1, k * scale + scale - 1, scale);
    lemma_fundamental_div_mod_converse_div(k * scale + scale - 1, scale, k, scale - 1);
}

/// The round trip of one decided game between two participants in the same
/// sensitivity tier: the winner's gain and the loser's drop agree to within
/// one point (the floor truncates them in opposite directions).
pub proof fn lemma_rating_round_trip(winner_elo: int, loser_elo: int)
    requires
        spec_k_factor(winner_elo) == spec_k_factor(loser_elo),
    ensures
        spec_elo_change(winner_elo, loser_elo, Outcome::Win) >= 0,
        spec_elo_change(loser_elo, winner_elo, Outcome::Loss) <= 0,
        spec_elo_change(winner_elo, loser_elo, Outcome::Win)
            <= -spec_elo_change(loser_elo, winner_elo, Outcome::Loss),
        -spec_elo_change(loser_elo, winner_elo, Outcome::Loss)
            <= spec_elo_change(winner_elo, loser_elo, Outcome::Win) + 1,
{
    let k = spec_k_factor(winner_elo);
    let e = spec_expected(winner_elo, loser_elo);
    let scale = ELO_SCALE as int;
    lemma_expected_range(winner_elo, loser_elo);
    lemma_expected_complement(winner_elo, loser_elo);
    lemma_update_monotonic(winner_elo, loser_elo);
    lemma_update_monotonic(loser_elo, winner_elo);
    let x = k * (scale - e);
    lemma_mul_nonnegative(k, scale - e);
    assert(k * (0 - spec_expected(loser_elo, winner_elo)) == -x) by (nonlinear_arith)
        requires
            spec_expected(loser_elo, winner_elo) == scale - e,
            x == k * (scale - e),
    ;
    lemma_div_ceil_facts(x, scale);
}

/// Whether a concluded match was a win or a loss for a given participant.
#[derive(Debug, Clone, Copy, PartialEq, Eq, Structural, Default)]
pub enum Outcome {
    #[default]
    Loss,
    Win,
}

impl Outcome {
    /// The same game seen from the other participant.
    pub fn opposite(self) -> (r: Outcome)
        ensures
            r == self.spec_opposite(),
    {
        match self {
            Outcome::Loss => Outcome::Win,
            Outcome::Win => Outcome::Loss,
        }
    }

    pub open spec fn spec_opposite(self) -> Outcome {
        match self {
            Outcome::Loss => Outcome::Win,
            Outcome::Win => Outcome::Loss,
        }
    }
}

impl From<bool> for Outcome {
    /// `true` means a win.
    fn from(value: bool) -> (r: Outcome) {
        if value {
            Outcome::Win
        } else {
            Outcome::Loss
        }
    }
}

impl vstd::std_specs::convert::FromSpecImpl<bool> for Outcome {
    open spec fn obeys_from_spec() -> bool {
        true
    }

    open spec fn from_spec(value: bool) -> Outcome {
        if value {
            Outcome::Win
        } else {
            Outcome::Loss
        }
    }
}

/// `10^(-d/400)` in 32.32 fixed point, by repeated truncating multiplication,
/// stopping early once the value has decayed to zero.
fn decay_pow(d: u64) -> (r: u64)
    ensures
        r as int == decay(d as nat),
        r <= FIXED_ONE,
{
    let mut acc: u64 = FIXED_ONE;
    let mut i: u64 = 0;
    while i < d && acc > 0
        invariant
            0 <= i <= d,
            acc as int == decay(i as nat),
            acc <= FIXED_ONE,
        decreases d - i,
    {
        proof {
            lemma_mul_inequality(acc as int, FIXED_ONE as int, DECAY_FACTOR as int);
            lemma_mul_nonnegative(acc as int, DECAY_FACTOR as int);
            lemma_decay_bounds((i + 1) as nat);
        }
        let wide: u128 = (acc as u128) * (DECAY_FACTOR as u128);
        acc = (wide / (FIXED_ONE as u128)) as u64;
        i = i + 1;
    }
    proof {
        if i < d {
            lemma_decay_zero_stays(i as nat, d as nat);
        }
    }
    acc
}

/// The expected score, per mille, of a participant rated `own` against one
/// rated `opp`.
pub fn expected_score(own: i32, opp: i32) -> (e: u64)
    ensures
        e as int == spec_expected(own as int, opp as int),
        e <= ELO_SCALE,
{
    let diff: i64 = opp as i64 - own as i64;
    if diff >= 0 {
        let t = decay_pow(diff as u64);
        proof {
            lemma_half_expected_range((opp - own) as nat);
        }
        (ELO_SCALE * t) / (FIXED_ONE + t)
    } else {
        let t = decay_pow((-diff) as u64);
        proof {
            lemma_half_expected_range((own - opp) as nat);
        }
        ELO_SCALE - (ELO_SCALE * t) / (FIXED_ONE + t)
    }
}

/// The sensitivity tier for a participant currently rated `elo`.
pub fn k_factor(elo: i32) -> (k: u64)
    ensures
        k as int == spec_k_factor(elo as int),
{
    if elo <= 2100 {
        40
    } else if elo <= 2400 {
        25
    } else {
        15
    }
}

/// One participant's record within one community: win and loss counters and
/// the current rating.
#[derive(Debug, Clone, Copy, PartialEq, Eq, Structural)]
pub struct Score {
    pub wins: u32,
    pub losses: u32,
    pub elo: i32,
}

impl Default for Score {
    /// A fresh record: no games played, rating `BASE_ELO`.
    fn default() -> (r: Self)
        ensures
            r == (Score { wins: 0, losses: 0, elo: BASE_ELO }),
    {
        Score { wins: 0, losses: 0, elo: BASE_ELO }
    }
}

impl Score {
    /// How many games this record has seen.
    pub fn total_games(&self) -> (r: u32)
        requires
            self.wins + self.losses <= u32::MAX,
        ensures
            r == self.wins + self.losses,
    {
        self.wins + self.losses
    }

    /// Counts one more won match.
    pub fn increment_wins(&mut self)
        requires
            old(self).wins < u32::MAX,
        ensures
            *final(self) == (Score { wins: (old(self).wins + 1) as u32, ..*old(self) }),
    {
        self.wins = self.wins + 1;
    }

    /// Counts one more lost match.
    pub fn increment_losses(&mut self)
        requires
            old(self).losses < u32::MAX,
        ensures
            *final(self) == (Score { losses: (old(self).losses + 1) as u32, ..*old(self) }),
    {
        self.losses = self.losses + 1;
    }

    /// The signed rating change this record would take from a game against a
    /// participant rated `opponent_elo`: never below zero for a win, never
    /// above zero for a loss, and never more than the sensitivity tier.
    pub fn elo_change(&self, opponent_elo: i32, outcome: Outcome) -> (c: i32)
        ensures
            c as int == spec_elo_change(self.elo as int, opponent_elo as int, outcome),
            outcome is Win ==> 0 <= c <= spec_k_factor(self.elo as int),
            outcome is Loss ==> -spec_k_factor(self.elo as int) <= c <= 0,
    {
        proof {
            lemma_update_monotonic(self.elo as int, opponent_elo as int);
            lemma_expected_range(self.elo as int, opponent_elo as int);
        }
        let e = expected_score(self.elo, opponent_elo);
        let k = k_factor(self.elo);
        match outcome {
            Outcome::Win => ((k * (ELO_SCALE - e)) / ELO_SCALE) as i32,
            Outcome::Loss => {
                proof {
                    lemma_div_ceil_facts((k * e) as int, ELO_SCALE as int);
                    assert((k as int) * (0 - e as int) == -((k * e) as int)) by (nonlinear_arith)
                        requires
                            k * e <= 40000,
                    ;
                }
                -(((k * e + (ELO_SCALE - 1)) / ELO_SCALE) as i32)
            },
        }
    }

    /// Recomputes the rating from a game against a participant rated
    /// `opponent_elo`; the counters are untouched. Returns the new rating.
    pub fn update_elo(&mut self, opponent_elo: i32, outcome: Outcome) -> (new_elo: i32)
        requires
            i32::MIN + 40 <= old(self).elo <= i32::MAX - 40,
        ensures
            final(self).elo as int == old(self).elo
                + spec_elo_change(old(self).elo as int, opponent_elo as int, outcome),
            final(self).wins == old(self).wins,
            final(self).losses == old(self).losses,
            new_elo == final(self).elo,
    {
        let change = self.elo_change(opponent_elo, outcome);
        self.elo = self.elo + change;
        self.elo
    }
}

} // verus!
