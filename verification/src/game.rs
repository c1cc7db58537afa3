//! The duel state machine: challenge handshake, per-round simultaneous
//! choice collection, and round and match resolution.
//!
//! The whole lifecycle is an explicit tagged state machine, so that illegal
//! states (a concluded session with a pending choice, a score past the
//! threshold) are unrepresentable. Every executable transition is pinned to
//! the spec-level transition function [`spec_record_choice`], over which the
//! session laws are proved.

use vstd::prelude::*;
use crate::pair::ChallengerOpponentPair;
use crate::selection::{Selection, Side, spec_round_winner, round_winner};

verus! {

/// The opaque, stable identifier of a participant (the platform user id).
pub type PlayerId = u64;

/// What the state machine rejects without mutating anything.
#[derive(Debug, Clone, Copy, PartialEq, Eq, Structural)]
pub enum DuelError {
    /// The score threshold handed to the constructor was zero.
    InvalidConfiguration,
    /// The responder is not one of the two participants.
    UnknownParticipant,
    /// The responding side has already chosen this round.
    AlreadyChosen,
}

/// Where in its lifecycle a duel stands.
#[derive(Debug, Clone, Copy, PartialEq, Eq, Structural)]
pub enum DuelState {
    /// Challenge sent; waiting for the challenged participant to accept.
    AwaitingAcceptance,
    /// Round `round_no` is open; each side may still owe its choice.
    InRound { round_no: u32, choices: ChallengerOpponentPair<Option<Selection>> },
    /// A side reached the threshold; a match outcome has been produced.
    Concluded,
    /// Declined or timed out; no outcome was or ever will be produced.
    Abandoned,
}

/// The immutable snapshot produced exactly once, by the round transition that
/// first brings a side's score to the threshold.
#[derive(Debug, Clone, Copy, PartialEq, Eq, Structural)]
pub struct MatchOutcome {
    pub players: ChallengerOpponentPair<PlayerId>,
    pub scores: ChallengerOpponentPair<u32>,
    pub winner: Side,
}

impl MatchOutcome {
    /// The challenger's identifier.
    pub fn challenger(&self) -> (r: PlayerId)
        ensures
            r == self.players.challenger,
    {
        self.players.challenger
    }

    /// The opponent's identifier.
    pub fn opponent(&self) -> (r: PlayerId)
        ensures
            r == self.players.opponent,
    {
        self.players.opponent
    }

    /// The side that won the match.
    pub fn winning_side(&self) -> (r: Side)
        ensures
            r == self.winner,
    {
        self.winner
    }

    /// The side that lost the match.
    pub fn losing_side(&self) -> (r: Side)
        ensures
            r == self.winner.spec_other(),
    {
        self.winner.other()
    }

    /// The winning participant's identifier.
    pub fn winner_id(&self) -> (r: PlayerId)
        ensures
            r == self.players.spec_by_side(self.winner),
    {
        *self.players.by_side(self.winner)
    }

    /// The losing participant's identifier.
    pub fn loser_id(&self) -> (r: PlayerId)
        ensures
            r == self.players.spec_by_side(self.winner.spec_other()),
    {
        *self.players.by_side(self.winner.other())
    }
}

/// What one accepted choice did to the open round.
#[derive(Debug, Clone, Copy, PartialEq, Eq, Structural)]
pub enum RoundResult {
    /// The other side has not chosen yet; the round stays open.
    Pending,
    /// Both chose the same value: no score change, next round opens.
    Tie { choices: ChallengerOpponentPair<Selection> },
    /// One side won the round. `outcome` carries the match outcome exactly
    /// when that side's new score reached the threshold.
    Decisive {
        winner: Side,
        choices: ChallengerOpponentPair<Selection>,
        outcome: Option<MatchOutcome>,
    },
}

/// One duel between two fixed participants, first to `first_to` round wins.
#[derive(Debug, Clone, Copy, PartialEq, Eq, Structural)]
pub struct DuelSession {
    pub players: ChallengerOpponentPair<PlayerId>,
    pub first_to: u32,
    pub scores: ChallengerOpponentPair<u32>,
    pub state: DuelState,
}

impl DuelSession {
    /// Well-formedness: the threshold is positive, scores never reach it
    /// while a round is open, and nothing is owed before acceptance.
    pub open spec fn spec_wf(self) -> bool {
        &&& self.first_to >= 1
        &&& match self.state {
            DuelState::AwaitingAcceptance => self.scores.challenger == 0 && self.scores.opponent
                == 0,
            DuelState::InRound { round_no, choices } => round_no >= 1
                && self.scores.challenger < self.first_to && self.scores.opponent < self.first_to,
            DuelState::Concluded => true,
            DuelState::Abandoned => true,
        }
    }

    /// The choices of the open round, or none when no round is open.
    pub open spec fn spec_choices(self) -> ChallengerOpponentPair<Option<Selection>> {
        match self.state {
            DuelState::InRound { round_no, choices } => choices,
            _ => ChallengerOpponentPair { challenger: None, opponent: None },
        }
    }

    /// The choice a side has made in the open round, if any.
    pub open spec fn spec_choice_of(self, side: Side) -> Option<Selection> {
        self.spec_choices().spec_by_side(side)
    }

    /// The number of the open round, or zero when no round is open.
    pub open spec fn spec_round_no(self) -> u32 {
        match self.state {
            DuelState::InRound { round_no, choices } => round_no,
            _ => 0,
        }
    }

    /// Creates the session in the acceptance handshake. Rejected exactly when
    /// the threshold is zero, constructing nothing.
    pub fn new(challenger: PlayerId, opponent: PlayerId, first_to: u32) -> (r: Result<
        DuelSession,
        DuelError,
    >)
        ensures
            first_to == 0 ==> r == Err::<DuelSession, DuelError>(DuelError::InvalidConfiguration),
            first_to >= 1 ==> r == Ok::<DuelSession, DuelError>(
                DuelSession {
                    players: ChallengerOpponentPair { challenger, opponent },
                    first_to,
                    scores: ChallengerOpponentPair { challenger: 0, opponent: 0 },
                    state: DuelState::AwaitingAcceptance,
                },
            ),
    {
        if first_to == 0 {
            Err(DuelError::InvalidConfiguration)
        } else {
            Ok(
                DuelSession {
                    players: ChallengerOpponentPair { challenger, opponent },
                    first_to,
                    scores: ChallengerOpponentPair { challenger: 0, opponent: 0 },
                    state: DuelState::AwaitingAcceptance,
                },
            )
        }
    }

    /// The side a participant identifier plays on, if either.
    pub fn side_of(&self, id: PlayerId) -> (r: Option<Side>)
        ensures
            r == self.spec_side_of(id),
    {
        if id == self.players.challenger {
            Some(Side::Challenger)
        } else if id == self.players.opponent {
            Some(Side::Opponent)
        } else {
            None
        }
    }

    pub open spec fn spec_side_of(self, id: PlayerId) -> Option<Side> {
        if id == self.players.challenger {
            Some(Side::Challenger)
        } else if id == self.players.opponent {
            Some(Side::Opponent)
        } else {
            None
        }
    }

    /// The side currently ahead on score, if the scores differ.
    pub fn current_winner(&self) -> (r: Option<Side>)
        ensures
            self.scores.challenger > self.scores.opponent ==> r == Some(Side::Challenger),
            self.scores.challenger < self.scores.opponent ==> r == Some(Side::Opponent),
            self.scores.challenger == self.scores.opponent ==> r is None,
    {
        if self.scores.challenger > self.scores.opponent {
            Some(Side::Challenger)
        } else if self.scores.challenger < self.scores.opponent {
            Some(Side::Opponent)
        } else {
            None
        }
    }

    /// The challenged participant accepted: round one opens.
    pub fn accept(&mut self)
        requires
            old(self).spec_wf(),
            old(self).state is AwaitingAcceptance,
        ensures
            *final(self) == (DuelSession {
                state: DuelState::InRound {
                    round_no: 1,
                    choices: ChallengerOpponentPair { challenger: None, opponent: None },
                },
                ..*old(self)
            }),
            final(self).spec_wf(),
    {
        self.state = DuelState::InRound {
            round_no: 1,
            choices: ChallengerOpponentPair { challenger: None, opponent: None },
        };
    }

    /// The challenge was declined or a bounded wait elapsed: the session is
    /// abandoned for good and will never produce an outcome.
    pub fn abandon(&mut self)
        ensures
            *final(self) == (DuelSession { state: DuelState::Abandoned, ..*old(self) }),
    {
        self.state = DuelState::Abandoned;
    }

    /// Sets the named side's choice for the current round if and only if that
    /// side has not already chosen; a re-submission is rejected with
    /// `AlreadyChosen` and changes nothing. Once both sides have chosen, the
    /// round resolves: a tie changes no score, a decisive round gives the
    /// winning side one point, and the session concludes exactly when that
    /// point reaches the threshold. The whole effect equals the spec-level
    /// transition [`spec_record_choice`].
    pub fn record_choice(&mut self, side: Side, choice: Selection) -> (r: Result<
        RoundResult,
        DuelError,
    >)
        requires
            old(self).spec_wf(),
            old(self).state is InRound,
            old(self).spec_round_no() < u32::MAX,
        ensures
            (*final(self), r) == spec_record_choice(*old(self), side, choice),
            final(self).spec_wf(),
            final(self).scores.challenger >= old(self).scores.challenger,
            final(self).scores.opponent >= old(self).scores.opponent,
            final(self).state is InRound ==> final(self).spec_round_no() >= old(
                self,
            ).spec_round_no(),
    {
        let (round_no, choices) = match self.state {
            DuelState::InRound { round_no, choices } => (round_no, choices),
            _ => unreached(),
        };
        if choices.by_side(side).is_some() {
            return Err(DuelError::AlreadyChosen);
        }
        let new_choices = match side {
            Side::Challenger => ChallengerOpponentPair {
                challenger: Some(choice),
                opponent: choices.opponent,
            },
            Side::Opponent => ChallengerOpponentPair {
                challenger: choices.challenger,
                opponent: Some(choice),
            },
        };
        match new_choices.zipped() {
            None => {
                self.state = DuelState::InRound { round_no, choices: new_choices };
                Ok(RoundResult::Pending)
            },
            Some((c, o)) => {
                let picked = ChallengerOpponentPair { challenger: c, opponent: o };
                match round_winner(c, o) {
                    None => {
                        self.state = DuelState::InRound {
                            round_no: round_no + 1,
                            choices: ChallengerOpponentPair { challenger: None, opponent: None },
                        };
                        Ok(RoundResult::Tie { choices: picked })
                    },
                    Some(w) => {
                        let new_scores = match w {
                            Side::Challenger => ChallengerOpponentPair {
                                challenger: self.scores.challenger + 1,
                                opponent: self.scores.opponent,
                            },
                            Side::Opponent => ChallengerOpponentPair {
                                challenger: self.scores.challenger,
                                opponent: self.scores.opponent + 1,
                            },
                        };
                        self.scores = new_scores;
                        if *new_scores.by_side(w) >= self.first_to {
                            self.state = DuelState::Concluded;
                            Ok(
                                RoundResult::Decisive {
                                    winner: w,
                                    choices: picked,
                                    outcome: Some(
                                        MatchOutcome {
                                            players: self.players,
                                            scores: new_scores,
                                            winner: w,
                                        },
                                    ),
                                },
                            )
                        } else {
                            self.state = DuelState::InRound {
                                round_no: round_no + 1,
                                choices: ChallengerOpponentPair {
                                    challenger: None,
                                    opponent: None,
                                },
                            };
                            Ok(RoundResult::Decisive { winner: w, choices: picked, outcome: None })
                        }
                    },
                }
            },
        }
    }

    /// Routes a participant's submission to their side; a submission from
    /// anyone else is rejected with `UnknownParticipant` and changes nothing.
    pub fn record_choice_by_id(&mut self, id: PlayerId, choice: Selection) -> (r: Result<
        RoundResult,
        DuelError,
    >)
        requires
            old(self).spec_wf(),
            old(self).state is InRound,
            old(self).spec_round_no() < u32::MAX,
        ensures
            match old(self).spec_side_of(id) {
                Some(side) => (*final(self), r) == spec_record_choice(*old(self), side, choice),
                None => *final(self) == *old(self) && r == Err::<RoundResult, DuelError>(
                    DuelError::UnknownParticipant,
                ),
            },
            final(self).spec_wf(),
    {
        match self.side_of(id) {
            Some(side) => self.record_choice(side, choice),
            None => Err(DuelError::UnknownParticipant),
        }
    }
}

/// `choices` with the named side's entry set.
pub open spec fn spec_with_choice(
    choices: ChallengerOpponentPair<Option<Selection>>,
    side: Side,
    choice: Selection,
) -> ChallengerOpponentPair<Option<Selection>> {
    match side {
        Side::Challenger => ChallengerOpponentPair { challenger: Some(choice), ..choices },
        Side::Opponent => ChallengerOpponentPair { opponent: Some(choice), ..choices },
    }
}

/// `scores` with one more point for the named side.
pub open spec fn spec_add_point(scores: ChallengerOpponentPair<u32>, side: Side) -> ChallengerOpponentPair<u32> {
    match side {
        Side::Challenger => ChallengerOpponentPair {
            challenger: (scores.challenger + 1) as u32,
            ..scores
        },
        Side::Opponent => ChallengerOpponentPair { opponent: (scores.opponent + 1) as u32, ..scores },
    }
}

/// The spec-level transition taken by [`DuelSession::record_choice`]: the
/// session after the call and the result it returns.
pub open spec fn spec_record_choice(s: DuelSession, side: Side, choice: Selection) -> (
    DuelSession,
    Result<RoundResult, DuelError>,
)
    recommends
        s.spec_wf(),
        s.state is InRound,
{
    let round_no = s.spec_round_no();
    let choices = s.spec_choices();
    if choices.spec_by_side(side) is Some {
        (s, Err(DuelError::AlreadyChosen))
    } else {
        let new_choices = spec_with_choice(choices, side, choice);
        match (new_choices.challenger, new_choices.opponent) {
            (Some(c), Some(o)) => {
                let picked = ChallengerOpponentPair { challenger: c, opponent: o };
                match spec_round_winner(c, o) {
                    None => (
                        DuelSession {
                            state: DuelState::InRound {
                                round_no: (round_no + 1) as u32,
                                choices: ChallengerOpponentPair {
                                    challenger: None,
                                    opponent: None,
                                },
                            },
                            ..s
                        },
                        Ok(RoundResult::Tie { choices: picked }),
                    ),
                    Some(w) => {
                        let new_scores = spec_add_point(s.scores, w);
                        if new_scores.spec_by_side(w) >= s.first_to {
                            (
                                DuelSession {
                                    scores: new_scores,
                                    state: DuelState::Concluded,
                                    ..s
                                },
                                Ok(
                                    RoundResult::Decisive {
                                        winner: w,
                                        choices: picked,
                                        outcome: Some(
                                            MatchOutcome {
                                                players: s.players,
                                                scores: new_scores,
                                                winner: w,
                                            },
                                        ),
                                    },
                                ),
                            )
                        } else {
                            (
                                DuelSession {
                                    scores: new_scores,
                                    state: DuelState::InRound {
                                        round_no: (round_no + 1) as u32,
                                        choices: ChallengerOpponentPair {
                                            challenger: None,
                                            opponent: None,
                                        },
                                    },
                                    ..s
                                },
                                Ok(RoundResult::Decisive { winner: w, choices: picked, outcome: None }),
                            )
                        }
                    },
                }
            },
            _ => (
                DuelSession { state: DuelState::InRound { round_no, choices: new_choices }, ..s },
                Ok(RoundResult::Pending),
            ),
        }
    }
}

/// Re-submitting a choice for a side that has already chosen, without an
/// intervening round completion, is rejected every time with `AlreadyChosen`,
/// changes nothing, and leaves the first submitted choice stored.
pub proof fn lemma_repeat_choice_rejected(
    s: DuelSession,
    side: Side,
    c1: Selection,
    c2: Selection,
    c3: Selection,
)
    requires
        s.spec_wf(),
        s.state is InRound,
        s.spec_choice_of(side) is None,
        s.spec_choice_of(side.spec_other()) is None,
    ensures
        ({
            let (s1, r1) = spec_record_choice(s, side, c1);
            let (s2, r2) = spec_record_choice(s1, side, c2);
            let (s3, r3) = spec_record_choice(s2, side, c3);
            &&& r1 == Ok::<RoundResult, DuelError>(RoundResult::Pending)
            &&& s1.spec_choice_of(side) == Some(c1)
            &&& r2 == Err::<RoundResult, DuelError>(DuelError::AlreadyChosen)
            &&& s2 == s1
            &&& r3 == Err::<RoundResult, DuelError>(DuelError::AlreadyChosen)
            &&& s3 == s1
            &&& s3.spec_choice_of(side) == Some(c1)
        }),
{
}

/// The round accounting behind match conclusion. A pending or rejected
/// submission changes no score; a tie changes no score and opens the next
/// round; a decisive round adds exactly one point, to the winning side — so
/// reaching a score of `first_to` takes at least `first_to` decisive rounds.
/// The match concludes exactly on the round whose resolution brings a side's
/// score to the threshold: at conclusion the winner's score equals `first_to`
/// (never exceeds it), the loser's is below it, and the total number of
/// decisive rounds played — the sum of both scores — is at least `first_to`.
pub proof fn lemma_conclusion_at_threshold(s: DuelSession, side: Side, choice: Selection)
    requires
        s.spec_wf(),
        s.state is InRound,
        s.spec_round_no() < u32::MAX,
    ensures
        ({
            let (s2, r) = spec_record_choice(s, side, choice);
            match r {
                Ok(RoundResult::Decisive { winner, choices, outcome }) => {
                    &&& s2.scores == spec_add_point(s.scores, winner)
                    &&& s2.scores.challenger + s2.scores.opponent == s.scores.challenger
                        + s.scores.opponent + 1
                    &&& (outcome is Some <==> s.scores.spec_by_side(winner) + 1 == s.first_to)
                    &&& match outcome {
                        Some(mo) => {
                            &&& mo.scores.spec_by_side(winner) == s.first_to
                            &&& mo.scores.spec_by_side(winner.spec_other()) < s.first_to
                            &&& s.first_to <= mo.scores.challenger + mo.scores.opponent
                            &&& mo.winner == winner
                            &&& s2.state is Concluded
                        },
                        None => s2.state is InRound,
                    }
                },
                Ok(RoundResult::Tie { choices }) => s2.scores == s.scores
                    && s2.spec_round_no() == s.spec_round_no() + 1,
                Ok(RoundResult::Pending) => s2.scores == s.scores && s2.spec_round_no()
                    == s.spec_round_no(),
                Err(e) => s2 == s,
            }
        }),
{
}

} // verus!
