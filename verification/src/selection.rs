//! The two sides of a duel and the three values a round's choice can take,
//! together with the cyclic beats-relation that resolves a round.

use vstd::prelude::*;

verus! {

/// One of the two fixed roles in a duel, assigned when the challenge is made
/// and never re-derived from the order in which responses arrive.
#[derive(Debug, Clone, Copy, PartialEq, Eq, Structural)]
pub enum Side {
    Challenger,
    Opponent,
}

impl Side {
    /// The other side: the loser of a round when `self` won it, and vice versa.
    pub fn other(self) -> (r: Side)
        ensures
            r == self.spec_other(),
    {
        match self {
            Side::Challenger => Side::Opponent,
            Side::Opponent => Side::Challenger,
        }
    }

    pub open spec fn spec_other(self) -> Side {
        match self {
            Side::Challenger => Side::Opponent,
            Side::Opponent => Side::Challenger,
        }
    }
}

/// One of the three cyclic values a participant may choose in a round.
#[derive(Debug, Clone, Copy, PartialEq, Eq, Structural)]
pub enum Selection {
    Rock,
    Paper,
    Scissors,
}

/// The beats-relation: Rock beats Scissors, Paper beats Rock, Scissors beats
/// Paper; every other pairing (including equal choices) does not beat.
pub open spec fn spec_beats(a: Selection, b: Selection) -> bool {
    match (a, b) {
        (Selection::Rock, Selection::Scissors) => true,
        (Selection::Paper, Selection::Rock) => true,
        (Selection::Scissors, Selection::Paper) => true,
        _ => false,
    }
}

/// The side that wins a round in which the challenger chose `challenger` and
/// the opponent chose `opponent`; `None` exactly when the round is a tie.
pub open spec fn spec_round_winner(challenger: Selection, opponent: Selection) -> Option<Side> {
    if spec_beats(challenger, opponent) {
        Some(Side::Challenger)
    } else if spec_beats(opponent, challenger) {
        Some(Side::Opponent)
    } else {
        None
    }
}

impl Selection {
    /// Whether `self` beats `other` under the cyclic beats-relation.
    pub fn beats(self, other: Selection) -> (r: bool)
        ensures
            r == spec_beats(self, other),
    {
        match (self, other) {
            (Selection::Rock, Selection::Scissors) => true,
            (Selection::Paper, Selection::Rock) => true,
            (Selection::Scissors, Selection::Paper) => true,
            _ => false,
        }
    }

    /// Every selection, in a fixed order, each mapped through `f`; the
    /// executable stand-in for iterating the enum.
    pub fn map_all<T>(f: impl Fn(Selection) -> T) -> (r: Vec<T>)
        requires
            forall|s: Selection| #[trigger] f.requires((s,)),
        ensures
            r@.len() == 3,
            f.ensures((Selection::Rock,), r@[0]),
            f.ensures((Selection::Paper,), r@[1]),
            f.ensures((Selection::Scissors,), r@[2]),
    {
        let mut out: Vec<T> = Vec::new();
        out.push(f(Selection::Rock));
        out.push(f(Selection::Paper));
        out.push(f(Selection::Scissors));
        out
    }

    /// The emoji shown on this selection's button.
    pub fn emoji(self) -> (r: char)
        ensures
            r == self.spec_emoji(),
    {
        match self {
            Selection::Rock => '\u{270a}',
            Selection::Paper => '\u{1f590}',
            Selection::Scissors => '\u{270c}',
        }
    }

    pub open spec fn spec_emoji(self) -> char {
        match self {
            Selection::Rock => '\u{270a}',
            Selection::Paper => '\u{1f590}',
            Selection::Scissors => '\u{270c}',
        }
    }

    /// This selection's display name.
    pub fn as_str(self) -> (r: &'static str)
        ensures
            r@ == self.spec_name(),
    {
        proof {
            reveal_strlit("Rock");
            reveal_strlit("Paper");
            reveal_strlit("Scissors");
        }
        match self {
            Selection::Rock => "Rock",
            Selection::Paper => "Paper",
            Selection::Scissors => "Scissors",
        }
    }

    pub open spec fn spec_name(self) -> Seq<char> {
        match self {
            Selection::Rock => "Rock"@,
            Selection::Paper => "Paper"@,
            Selection::Scissors => "Scissors"@,
        }
    }
}

/// The winning side of a round, or `None` on a tie.
pub fn round_winner(challenger: Selection, opponent: Selection) -> (r: Option<Side>)
    ensures
        r == spec_round_winner(challenger, opponent),
{
    if challenger.beats(opponent) {
        Some(Side::Challenger)
    } else if opponent.beats(challenger) {
        Some(Side::Opponent)
    } else {
        None
    }
}

/// For distinct selections exactly one direction of the beats-relation holds,
/// and a selection never beats itself: every round between distinct choices is
/// decisive and every round between equal choices is a tie.
pub proof fn lemma_beats_total()
    ensures
        forall|a: Selection, b: Selection|
            a != b ==> (#[trigger] spec_beats(a, b) <==> !spec_beats(b, a)),
        forall|a: Selection| !#[trigger] spec_beats(a, a),
        forall|a: Selection, b: Selection|
            a != b ==> #[trigger] spec_round_winner(a, b) is Some,
        forall|a: Selection| #[trigger] spec_round_winner(a, a) is None,
{
}

} // verus!
