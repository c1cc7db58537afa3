//! A pair of values, one per side of a duel, with the small combinators the
//! session logic uses to treat both sides uniformly.

use vstd::prelude::*;
use crate::selection::Side;

verus! {

/// One value for the challenger and one for the opponent.
#[derive(Debug, Clone, Copy, PartialEq, Eq, Structural)]
pub struct ChallengerOpponentPair<T> {
    pub challenger: T,
    pub opponent: T,
}

impl<T> ChallengerOpponentPair<T> {
    pub fn new(challenger: T, opponent: T) -> (r: Self)
        ensures
            r.challenger == challenger,
            r.opponent == opponent,
    {
        Self { challenger, opponent }
    }

    /// Both values, challenger first.
    pub fn tuple(self) -> (r: (T, T))
        ensures
            r.0 == self.challenger,
            r.1 == self.opponent,
    {
        (self.challenger, self.opponent)
    }

    /// Builds a pair by applying `generator` to one argument per side.
    pub fn generate<U>(challenger_arg: U, opponent_arg: U, generator: impl Fn(U) -> T) -> (r: Self)
        requires
            generator.requires((challenger_arg,)),
            generator.requires((opponent_arg,)),
        ensures
            generator.ensures((challenger_arg,), r.challenger),
            generator.ensures((opponent_arg,), r.opponent),
    {
        Self { challenger: generator(challenger_arg), opponent: generator(opponent_arg) }
    }

    /// Applies `transform` to both values.
    pub fn map<U>(self, transform: impl Fn(T) -> U) -> (r: ChallengerOpponentPair<U>)
        requires
            transform.requires((self.challenger,)),
            transform.requires((self.opponent,)),
        ensures
            transform.ensures((self.challenger,), r.challenger),
            transform.ensures((self.opponent,), r.opponent),
    {
        ChallengerOpponentPair {
            challenger: transform(self.challenger),
            opponent: transform(self.opponent),
        }
    }

    /// Applies `transform` to both values by reference.
    pub fn map_ref<U>(&self, transform: impl Fn(&T) -> U) -> (r: ChallengerOpponentPair<U>)
        requires
            transform.requires((&self.challenger,)),
            transform.requires((&self.opponent,)),
        ensures
            transform.ensures((&self.challenger,), r.challenger),
            transform.ensures((&self.opponent,), r.opponent),
    {
        ChallengerOpponentPair {
            challenger: transform(&self.challenger),
            opponent: transform(&self.opponent),
        }
    }

    /// Combines each value with the matching side's extra argument.
    pub fn gen_map<U, V>(
        self,
        challenger_arg: V,
        opponent_arg: V,
        generator: impl Fn(T, V) -> U,
    ) -> (r: ChallengerOpponentPair<U>)
        requires
            generator.requires((self.challenger, challenger_arg)),
            generator.requires((self.opponent, opponent_arg)),
        ensures
            generator.ensures((self.challenger, challenger_arg), r.challenger),
            generator.ensures((self.opponent, opponent_arg), r.opponent),
    {
        ChallengerOpponentPair {
            challenger: generator(self.challenger, challenger_arg),
            opponent: generator(self.opponent, opponent_arg),
        }
    }

    /// Consumes both values, challenger first.
    pub fn for_each(self, func: impl Fn(T))
        requires
            func.requires((self.challenger,)),
            func.requires((self.opponent,)),
    {
        func(self.challenger);
        func(self.opponent);
    }

    /// Pairs each value with the matching value of `other`.
    pub fn zip<U>(self, other: ChallengerOpponentPair<U>) -> (r: ChallengerOpponentPair<(T, U)>)
        ensures
            r.challenger == (self.challenger, other.challenger),
            r.opponent == (self.opponent, other.opponent),
    {
        ChallengerOpponentPair {
            challenger: (self.challenger, other.challenger),
            opponent: (self.opponent, other.opponent),
        }
    }

    /// A pair of references into this pair.
    pub fn as_ref(&self) -> (r: ChallengerOpponentPair<&T>)
        ensures
            r.challenger == &self.challenger,
            r.opponent == &self.opponent,
    {
        ChallengerOpponentPair { challenger: &self.challenger, opponent: &self.opponent }
    }

    /// The same pair with the sides swapped.
    pub fn flip(self) -> (r: Self)
        ensures
            r.challenger == self.opponent,
            r.opponent == self.challenger,
    {
        Self { challenger: self.opponent, opponent: self.challenger }
    }

    /// The value a given side holds.
    pub open spec fn spec_by_side(self, side: Side) -> T {
        match side {
            Side::Challenger => self.challenger,
            Side::Opponent => self.opponent,
        }
    }

    /// The value a given side holds, by reference.
    pub fn by_side(&self, side: Side) -> (r: &T)
        ensures
            *r == self.spec_by_side(side),
    {
        match side {
            Side::Challenger => &self.challenger,
            Side::Opponent => &self.opponent,
        }
    }
}

impl<T> ChallengerOpponentPair<Option<T>> {
    /// `Some` of both inner values exactly when both sides hold one.
    pub fn zipped(self) -> (r: Option<(T, T)>)
        ensures
            match r {
                Some(both) => self.challenger == Some(both.0) && self.opponent == Some(both.1),
                None => self.challenger is None || self.opponent is None,
            },
    {
        match (self.challenger, self.opponent) {
            (Some(c), Some(o)) => Some((c, o)),
            _ => None,
        }
    }
}

} // verus!
