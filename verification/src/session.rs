//! The decision core of the session runner: one full duel is driven by
//! feeding it, one at a time, the discrete events the transport collects
//! (a response to the challenge prompt, a choice click, an elapsed wait),
//! and performing the action it returns. The runner outside this crate owns
//! the waits and the announcements; every decision is made here.

use vstd::prelude::*;
use crate::game::{DuelError, DuelSession, DuelState, MatchOutcome, PlayerId, RoundResult, spec_record_choice};
use crate::kv::spec_lookup;
use crate::leaderboard::{Leaderboard, spec_score_or_default};
use crate::pair::ChallengerOpponentPair;
use crate::score::{Outcome, Score, spec_elo_change};
use crate::selection::{Selection, Side};

verus! {

/// How a finished session is reported to the caller: a completed match is
/// distinct from a declined challenge and from an elapsed wait.
#[derive(Debug, Clone, Copy, PartialEq, Eq, Structural)]
pub enum SessionResult {
    Concluded(MatchOutcome),
    Declined,
    TimedOut,
}

/// What the transport hands back from one bounded wait.
#[derive(Debug, Clone, Copy, PartialEq, Eq, Structural)]
pub enum SessionEvent {
    /// Someone answered the challenge prompt.
    AcceptanceResponse { responder: PlayerId, accepted: bool },
    /// Someone clicked a choice on the round prompt.
    ChoiceResponse { responder: PlayerId, choice: Selection },
    /// The bounded wait elapsed before a usable response arrived.
    TimedOut,
}

/// What the runner must do before feeding the next event.
#[derive(Debug, Clone, Copy, PartialEq, Eq, Structural)]
pub enum SessionAction {
    /// Tell `responder` their response was not valid here and keep waiting;
    /// the session is unchanged.
    RejectResponder { responder: PlayerId, reason: DuelError },
    /// The challenge was accepted: announce it and prompt round one.
    ChallengeAccepted,
    /// A choice was stored; the other side's is still owed. Keep waiting.
    ContinueRound,
    /// Both chose the same value: announce the tie and prompt the next round.
    AnnounceTie { choices: ChallengerOpponentPair<Selection> },
    /// A side won the round but not yet the match: announce and prompt on.
    AnnounceRound { winner: Side, choices: ChallengerOpponentPair<Selection> },
    /// The session is over; stop waiting and report this result.
    Finish(SessionResult),
}

/// The session after one event, and the action the runner owes for it.
pub open spec fn spec_handle_event(s: DuelSession, event: SessionEvent) -> (
    DuelSession,
    SessionAction,
) {
    match s.state {
        DuelState::AwaitingAcceptance => match event {
            SessionEvent::TimedOut => (
                DuelSession { state: DuelState::Abandoned, ..s },
                SessionAction::Finish(SessionResult::TimedOut),
            ),
            SessionEvent::AcceptanceResponse { responder, accepted } => {
                if responder != s.players.opponent {
                    (
                        s,
                        SessionAction::RejectResponder {
                            responder,
                            reason: DuelError::UnknownParticipant,
                        },
                    )
                } else if accepted {
                    (
                        DuelSession {
                            state: DuelState::InRound {
                                round_no: 1,
                                choices: ChallengerOpponentPair {
                                    challenger: None,
                                    opponent: None,
                                },
                            },
                            ..s
                        },
                        SessionAction::ChallengeAccepted,
                    )
                } else {
                    (
                        DuelSession { state: DuelState::Abandoned, ..s },
                        SessionAction::Finish(SessionResult::Declined),
                    )
                }
            },
            SessionEvent::ChoiceResponse { responder, choice } => (
                s,
                SessionAction::RejectResponder {
                    responder,
                    reason: DuelError::UnknownParticipant,
                },
            ),
        },
        DuelState::InRound { round_no, choices } => match event {
            SessionEvent::TimedOut => (
                DuelSession { state: DuelState::Abandoned, ..s },
                SessionAction::Finish(SessionResult::TimedOut),
            ),
            SessionEvent::AcceptanceResponse { responder, accepted } => (
                s,
                SessionAction::RejectResponder {
                    responder,
                    reason: DuelError::UnknownParticipant,
                },
            ),
            SessionEvent::ChoiceResponse { responder, choice } => match s.spec_side_of(
                responder,
            ) {
                None => (
                    s,
                    SessionAction::RejectResponder {
                        responder,
                        reason: DuelError::UnknownParticipant,
                    },
                ),
                Some(side) => {
                    let (s2, r) = spec_record_choice(s, side, choice);
                    match r {
                        Err(e) => (
                            s2,
                            SessionAction::RejectResponder { responder, reason: e },
                        ),
                        Ok(RoundResult::Pending) => (s2, SessionAction::ContinueRound),
                        Ok(RoundResult::Tie { choices }) => (
                            s2,
                            SessionAction::AnnounceTie { choices },
                        ),
                        Ok(RoundResult::Decisive { winner, choices, outcome }) => match outcome {
                            None => (s2, SessionAction::AnnounceRound { winner, choices }),
                            Some(mo) => (
                                s2,
                                SessionAction::Finish(SessionResult::Concluded(mo)),
                            ),
                        },
                    }
                },
            },
        },
        _ => (s, SessionAction::Finish(SessionResult::TimedOut)),
    }
}

impl DuelSession {
    /// Feeds one collected event to the session. A timed-out wait abandons
    /// the session for good; a response from the wrong participant, a stale
    /// response, or a re-submission rejects without mutating; everything else
    /// advances the state machine, and the match outcome is reported exactly
    /// when a side's score reaches the threshold.
    pub fn handle_event(&mut self, event: SessionEvent) -> (a: SessionAction)
        requires
            old(self).spec_wf(),
            old(self).state is AwaitingAcceptance || old(self).state is InRound,
            old(self).spec_round_no() < u32::MAX,
        ensures
            (*final(self), a) == spec_handle_event(*old(self), event),
            final(self).spec_wf(),
    {
        match self.state {
            DuelState::AwaitingAcceptance => match event {
                SessionEvent::TimedOut => {
                    self.abandon();
                    SessionAction::Finish(SessionResult::TimedOut)
                },
                SessionEvent::AcceptanceResponse { responder, accepted } => {
                    if responder != self.players.opponent {
                        SessionAction::RejectResponder {
                            responder,
                            reason: DuelError::UnknownParticipant,
                        }
                    } else if accepted {
                        self.accept();
                        SessionAction::ChallengeAccepted
                    } else {
                        self.abandon();
                        SessionAction::Finish(SessionResult::Declined)
                    }
                },
                SessionEvent::ChoiceResponse { responder, choice } => {
                    SessionAction::RejectResponder {
                        responder,
                        reason: DuelError::UnknownParticipant,
                    }
                },
            },
            DuelState::InRound { round_no, choices } => match event {
                SessionEvent::TimedOut => {
                    self.abandon();
                    SessionAction::Finish(SessionResult::TimedOut)
                },
                SessionEvent::AcceptanceResponse { responder, accepted } => {
                    SessionAction::RejectResponder {
                        responder,
                        reason: DuelError::UnknownParticipant,
                    }
                },
                SessionEvent::ChoiceResponse { responder, choice } => {
                    match self.side_of(responder) {
                        None => SessionAction::RejectResponder {
                            responder,
                            reason: DuelError::UnknownParticipant,
                        },
                        Some(side) => match self.record_choice(side, choice) {
                            Err(e) => SessionAction::RejectResponder { responder, reason: e },
                            Ok(RoundResult::Pending) => SessionAction::ContinueRound,
                            Ok(RoundResult::Tie { choices }) => SessionAction::AnnounceTie {
                                choices,
                            },
                            Ok(RoundResult::Decisive { winner, choices, outcome }) => {
                                match outcome {
                                    None => SessionAction::AnnounceRound { winner, choices },
                                    Some(mo) => SessionAction::Finish(
                                        SessionResult::Concluded(mo),
                                    ),
                                }
                            },
                        },
                    }
                },
            },
            _ => unreached(),
        }
    }
}

/// The record a participant ends a concluded match with: the matching counter
/// one higher and the rating recomputed against the opponent's pre-update
/// rating.
pub open spec fn spec_after_match(own: Score, opp_elo: int, outcome: Outcome) -> Score {
    Score {
        wins: if outcome is Win {
            (own.wins + 1) as u32
        } else {
            own.wins
        },
        losses: if outcome is Loss {
            (own.losses + 1) as u32
        } else {
            own.losses
        },
        elo: (own.elo + spec_elo_change(own.elo as int, opp_elo, outcome)) as i32,
    }
}

/// Writes one concluded match into the store: both ratings are recomputed
/// from a single consistent snapshot of the two pre-update ratings (a record
/// missing from the store counts as the default record), the winner's win
/// counter and the loser's loss counter each go up by one, and no other
/// participant's record changes. Returns each side's (old, new) rating,
/// challenger first.
pub fn update_leaderboard(
    leaderboard: &mut Leaderboard,
    match_outcome: &MatchOutcome,
) -> (r: ChallengerOpponentPair<(i32, i32)>)
    requires
        old(leaderboard).spec_wf(),
        match_outcome.players.challenger != match_outcome.players.opponent,
        i32::MIN + 40 <= spec_score_or_default(
            old(leaderboard)@,
            match_outcome.players.challenger,
        ).elo <= i32::MAX - 40,
        i32::MIN + 40 <= spec_score_or_default(
            old(leaderboard)@,
            match_outcome.players.opponent,
        ).elo <= i32::MAX - 40,
        spec_score_or_default(
            old(leaderboard)@,
            match_outcome.players.spec_by_side(match_outcome.winner),
        ).wins < u32::MAX,
        spec_score_or_default(
            old(leaderboard)@,
            match_outcome.players.spec_by_side(match_outcome.winner.spec_other()),
        ).losses < u32::MAX,
    ensures
        final(leaderboard).spec_wf(),
        ({
            let c_id = match_outcome.players.challenger;
            let o_id = match_outcome.players.opponent;
            let c_old = spec_score_or_default(old(leaderboard)@, c_id);
            let o_old = spec_score_or_default(old(leaderboard)@, o_id);
            let c_out = if match_outcome.winner is Challenger {
                Outcome::Win
            } else {
                Outcome::Loss
            };
            &&& spec_lookup(final(leaderboard)@, c_id) == Some(
                spec_after_match(c_old, o_old.elo as int, c_out),
            )
            &&& spec_lookup(final(leaderboard)@, o_id) == Some(
                spec_after_match(o_old, c_old.elo as int, c_out.spec_opposite()),
            )
            &&& forall|x: PlayerId|
                x != c_id && x != o_id ==> #[trigger] spec_lookup(final(leaderboard)@, x)
                    == spec_lookup(old(leaderboard)@, x)
            &&& r.challenger == (
                c_old.elo,
                spec_after_match(c_old, o_old.elo as int, c_out).elo,
            )
            &&& r.opponent == (
                o_old.elo,
                spec_after_match(o_old, c_old.elo as int, c_out.spec_opposite()).elo,
            )
        }),
{
    let c_id = match_outcome.challenger();
    let o_id = match_outcome.opponent();
    let c_old: Score = match leaderboard.score(c_id) {
        Some(s) => *s,
        None => Score::default(),
    };
    let o_old: Score = match leaderboard.score(o_id) {
        Some(s) => *s,
        None => Score::default(),
    };
    let challenger_won = match match_outcome.winning_side() {
        Side::Challenger => true,
        Side::Opponent => false,
    };
    let c_out = Outcome::from(challenger_won);
    let o_out = c_out.opposite();
    let new_c_elo = leaderboard.score_mut(c_id).update_elo(o_old.elo, c_out);
    let new_o_elo = leaderboard.score_mut(o_id).update_elo(c_old.elo, o_out);
    if challenger_won {
        leaderboard.score_mut(c_id).increment_wins();
        leaderboard.score_mut(o_id).increment_losses();
    } else {
        leaderboard.score_mut(o_id).increment_wins();
        leaderboard.score_mut(c_id).increment_losses();
    }
    ChallengerOpponentPair { challenger: (c_old.elo, new_c_elo), opponent: (o_old.elo, new_o_elo) }
}

} // verus!
