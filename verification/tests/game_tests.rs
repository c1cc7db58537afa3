use appalachia::game::{DuelError, DuelSession, DuelState, MatchOutcome, RoundResult};
use appalachia::selection::{Selection, Side};

const ALICE: u64 = 11;
const BOB: u64 = 22;
const STRANGER: u64 = 99;

fn started(first_to: u32) -> DuelSession {
    let mut s = DuelSession::new(ALICE, BOB, first_to).unwrap();
    s.accept();
    s
}

#[test]
fn zero_threshold_is_rejected_at_construction() {
    assert_eq!(DuelSession::new(ALICE, BOB, 0), Err(DuelError::InvalidConfiguration));
}

#[test]
fn construction_awaits_acceptance() {
    let s = DuelSession::new(ALICE, BOB, 1).unwrap();
    assert_eq!(s.state, DuelState::AwaitingAcceptance);
    assert_eq!(s.scores.challenger, 0);
    assert_eq!(s.scores.opponent, 0);
    assert_eq!(s.players.challenger, ALICE);
    assert_eq!(s.players.opponent, BOB);
}

#[test]
fn acceptance_opens_round_one() {
    let s = started(1);
    match s.state {
        DuelState::InRound { round_no, choices } => {
            assert_eq!(round_no, 1);
            assert_eq!(choices.challenger, None);
            assert_eq!(choices.opponent, None);
        }
        other => panic!("not in a round: {:?}", other),
    }
}

#[test]
fn side_of_knows_both_players_only() {
    let s = started(1);
    assert_eq!(s.side_of(ALICE), Some(Side::Challenger));
    assert_eq!(s.side_of(BOB), Some(Side::Opponent));
    assert_eq!(s.side_of(STRANGER), None);
}

#[test]
fn first_choice_is_pending() {
    let mut s = started(1);
    assert_eq!(s.record_choice(Side::Challenger, Selection::Rock), Ok(RoundResult::Pending));
    match s.state {
        DuelState::InRound { round_no, choices } => {
            assert_eq!(round_no, 1);
            assert_eq!(choices.challenger, Some(Selection::Rock));
            assert_eq!(choices.opponent, None);
        }
        other => panic!("not in a round: {:?}", other),
    }
}

#[test]
fn resubmission_is_rejected_and_first_choice_stays() {
    let mut s = started(1);
    assert_eq!(s.record_choice(Side::Challenger, Selection::Rock), Ok(RoundResult::Pending));
    let before = s;
    assert_eq!(s.record_choice(Side::Challenger, Selection::Paper), Err(DuelError::AlreadyChosen));
    assert_eq!(s, before);
    assert_eq!(
        s.record_choice(Side::Challenger, Selection::Scissors),
        Err(DuelError::AlreadyChosen)
    );
    assert_eq!(s, before);
    match s.state {
        DuelState::InRound { choices, .. } => {
            assert_eq!(choices.challenger, Some(Selection::Rock));
        }
        other => panic!("not in a round: {:?}", other),
    }
}

#[test]
fn unknown_participant_never_mutates() {
    let mut s = started(1);
    let before = s;
    assert_eq!(
        s.record_choice_by_id(STRANGER, Selection::Rock),
        Err(DuelError::UnknownParticipant)
    );
    assert_eq!(s, before);
}

#[test]
fn tie_clears_choices_and_advances_the_round_without_scoring() {
    let mut s = started(1);
    assert_eq!(s.record_choice(Side::Challenger, Selection::Paper), Ok(RoundResult::Pending));
    let r = s.record_choice(Side::Opponent, Selection::Paper);
    match r {
        Ok(RoundResult::Tie { choices }) => {
            assert_eq!(choices.challenger, Selection::Paper);
            assert_eq!(choices.opponent, Selection::Paper);
        }
        other => panic!("not a tie: {:?}", other),
    }
    assert_eq!(s.scores.challenger, 0);
    assert_eq!(s.scores.opponent, 0);
    match s.state {
        DuelState::InRound { round_no, choices } => {
            assert_eq!(round_no, 2);
            assert_eq!(choices.challenger, None);
            assert_eq!(choices.opponent, None);
        }
        other => panic!("not in a round: {:?}", other),
    }
}

#[test]
fn match_concludes_when_the_threshold_is_reached() {
    let mut s = started(1);
    assert_eq!(s.record_choice_by_id(BOB, Selection::Scissors), Ok(RoundResult::Pending));
    let r = s.record_choice_by_id(ALICE, Selection::Rock);
    match r {
        Ok(RoundResult::Decisive { winner, choices, outcome }) => {
            assert_eq!(winner, Side::Challenger);
            assert_eq!(choices.challenger, Selection::Rock);
            assert_eq!(choices.opponent, Selection::Scissors);
            let mo: MatchOutcome = outcome.expect("the match should be over");
            assert_eq!(mo.winner, Side::Challenger);
            assert_eq!(mo.winning_side(), Side::Challenger);
            assert_eq!(mo.losing_side(), Side::Opponent);
            assert_eq!(mo.challenger(), ALICE);
            assert_eq!(mo.opponent(), BOB);
            assert_eq!(mo.winner_id(), ALICE);
            assert_eq!(mo.loser_id(), BOB);
            assert_eq!(mo.scores.challenger, 1);
            assert_eq!(mo.scores.opponent, 0);
        }
        other => panic!("not decisive: {:?}", other),
    }
    assert_eq!(s.state, DuelState::Concluded);
}

#[test]
fn first_to_two_match_runs_to_exactly_two_wins() {
    // A wins round 1, round 2 ties, A wins round 3: 2-0, three rounds played.
    let mut s = started(2);
    assert_eq!(s.record_choice(Side::Challenger, Selection::Rock), Ok(RoundResult::Pending));
    match s.record_choice(Side::Opponent, Selection::Scissors) {
        Ok(RoundResult::Decisive { winner, outcome, .. }) => {
            assert_eq!(winner, Side::Challenger);
            assert!(outcome.is_none());
        }
        other => panic!("not decisive: {:?}", other),
    }
    assert_eq!(s.scores.challenger, 1);
    assert_eq!(s.scores.opponent, 0);

    assert_eq!(s.record_choice(Side::Challenger, Selection::Paper), Ok(RoundResult::Pending));
    assert!(matches!(
        s.record_choice(Side::Opponent, Selection::Paper),
        Ok(RoundResult::Tie { .. })
    ));
    match s.state {
        DuelState::InRound { round_no, .. } => assert_eq!(round_no, 3),
        other => panic!("not in a round: {:?}", other),
    }

    assert_eq!(s.record_choice(Side::Challenger, Selection::Scissors), Ok(RoundResult::Pending));
    match s.record_choice(Side::Opponent, Selection::Paper) {
        Ok(RoundResult::Decisive { winner, outcome, .. }) => {
            assert_eq!(winner, Side::Challenger);
            let mo = outcome.expect("the match should be over");
            assert_eq!(mo.scores.challenger, 2);
            assert_eq!(mo.scores.opponent, 0);
            assert_eq!(mo.winner_id(), ALICE);
        }
        other => panic!("not decisive: {:?}", other),
    }
    assert_eq!(s.state, DuelState::Concluded);
}

#[test]
fn winner_score_equals_threshold_at_conclusion() {
    // Mixed wins: A, B, A, A with first_to = 3... A reaches exactly 3.
    let mut s = started(3);
    let rounds = [
        (Selection::Rock, Selection::Scissors),
        (Selection::Rock, Selection::Paper),
        (Selection::Paper, Selection::Rock),
        (Selection::Scissors, Selection::Paper),
    ];
    let mut concluded = false;
    for (c, o) in rounds {
        assert_eq!(s.record_choice(Side::Challenger, c), Ok(RoundResult::Pending));
        if let Ok(RoundResult::Decisive { outcome, .. }) = s.record_choice(Side::Opponent, o) {
            if let Some(mo) = outcome {
                assert_eq!(mo.scores.challenger, 3);
                assert_eq!(mo.scores.opponent, 1);
                concluded = true;
            }
        } else {
            panic!("every round here is decisive");
        }
    }
    assert!(concluded);
    assert_eq!(s.state, DuelState::Concluded);
}

#[test]
fn current_winner_tracks_the_score() {
    let mut s = started(3);
    assert_eq!(s.current_winner(), None);
    s.record_choice(Side::Challenger, Selection::Rock).unwrap();
    s.record_choice(Side::Opponent, Selection::Scissors).unwrap();
    assert_eq!(s.current_winner(), Some(Side::Challenger));
    s.record_choice(Side::Challenger, Selection::Rock).unwrap();
    s.record_choice(Side::Opponent, Selection::Paper).unwrap();
    assert_eq!(s.current_winner(), None);
    s.record_choice(Side::Challenger, Selection::Rock).unwrap();
    s.record_choice(Side::Opponent, Selection::Paper).unwrap();
    assert_eq!(s.current_winner(), Some(Side::Opponent));
}

#[test]
fn abandoning_produces_no_outcome_state() {
    let mut s = DuelSession::new(ALICE, BOB, 2).unwrap();
    s.abandon();
    assert_eq!(s.state, DuelState::Abandoned);
}
