use appalachia::game::{DuelError, DuelSession, DuelState};
use appalachia::leaderboard::Leaderboard;
use appalachia::score::Score;
use appalachia::selection::{Selection, Side};
use appalachia::session::{
    update_leaderboard, SessionAction, SessionEvent, SessionResult,
};

const ALICE: u64 = 11;
const BOB: u64 = 22;
const STRANGER: u64 = 99;

fn fresh(first_to: u32) -> DuelSession {
    DuelSession::new(ALICE, BOB, first_to).unwrap()
}

fn choice_of(responder: u64, choice: Selection) -> SessionEvent {
    SessionEvent::ChoiceResponse { responder, choice }
}

#[test]
fn acceptance_timeout_finishes_with_timed_out_and_no_rating_change() {
    let lb = Leaderboard::new();
    let mut s = fresh(2);
    let a = s.handle_event(SessionEvent::TimedOut);
    assert_eq!(a, SessionAction::Finish(SessionResult::TimedOut));
    assert_eq!(s.state, DuelState::Abandoned);
    // No outcome was produced, so nothing was ever written to the store:
    // neither participant has a record.
    assert_eq!(lb.len(), 0);
    assert!(lb.score(ALICE).is_none());
    assert!(lb.score(BOB).is_none());
}

#[test]
fn decline_finishes_with_declined() {
    let mut s = fresh(1);
    let a = s.handle_event(SessionEvent::AcceptanceResponse { responder: BOB, accepted: false });
    assert_eq!(a, SessionAction::Finish(SessionResult::Declined));
    assert_eq!(s.state, DuelState::Abandoned);
}

#[test]
fn only_the_challenged_participant_may_answer_the_challenge() {
    let mut s = fresh(1);
    let before = s;
    let a = s.handle_event(SessionEvent::AcceptanceResponse { responder: ALICE, accepted: true });
    assert_eq!(
        a,
        SessionAction::RejectResponder {
            responder: ALICE,
            reason: DuelError::UnknownParticipant
        }
    );
    assert_eq!(s, before);
    let a = s.handle_event(SessionEvent::AcceptanceResponse { responder: BOB, accepted: true });
    assert_eq!(a, SessionAction::ChallengeAccepted);
    assert!(matches!(s.state, DuelState::InRound { round_no: 1, .. }));
}

#[test]
fn round_timeout_abandons_mid_match() {
    let mut s = fresh(2);
    s.handle_event(SessionEvent::AcceptanceResponse { responder: BOB, accepted: true });
    s.handle_event(choice_of(ALICE, Selection::Rock));
    let a = s.handle_event(SessionEvent::TimedOut);
    assert_eq!(a, SessionAction::Finish(SessionResult::TimedOut));
    assert_eq!(s.state, DuelState::Abandoned);
}

#[test]
fn rejections_keep_the_wait_going() {
    let mut s = fresh(1);
    s.handle_event(SessionEvent::AcceptanceResponse { responder: BOB, accepted: true });
    let a = s.handle_event(choice_of(STRANGER, Selection::Rock));
    assert_eq!(
        a,
        SessionAction::RejectResponder {
            responder: STRANGER,
            reason: DuelError::UnknownParticipant
        }
    );
    let a = s.handle_event(choice_of(ALICE, Selection::Rock));
    assert_eq!(a, SessionAction::ContinueRound);
    let a = s.handle_event(choice_of(ALICE, Selection::Paper));
    assert_eq!(
        a,
        SessionAction::RejectResponder { responder: ALICE, reason: DuelError::AlreadyChosen }
    );
}

#[test]
fn full_first_to_two_session_updates_both_ratings() {
    // A (1500) and B (1500) play first-to-2: A wins round 1 (Rock beats
    // Scissors), round 2 ties (Paper vs Paper), round 3 A wins again
    // (Scissors beats Paper). Outcome: A wins 2-0; A gains what B loses.
    let mut lb = Leaderboard::new();
    let mut s = fresh(2);

    let a = s.handle_event(SessionEvent::AcceptanceResponse { responder: BOB, accepted: true });
    assert_eq!(a, SessionAction::ChallengeAccepted);

    assert_eq!(s.handle_event(choice_of(ALICE, Selection::Rock)), SessionAction::ContinueRound);
    let a = s.handle_event(choice_of(BOB, Selection::Scissors));
    assert!(matches!(a, SessionAction::AnnounceRound { winner: Side::Challenger, .. }));

    assert_eq!(s.handle_event(choice_of(ALICE, Selection::Paper)), SessionAction::ContinueRound);
    let a = s.handle_event(choice_of(BOB, Selection::Paper));
    assert!(matches!(a, SessionAction::AnnounceTie { .. }));
    assert!(matches!(s.state, DuelState::InRound { round_no: 3, .. }));

    assert_eq!(
        s.handle_event(choice_of(ALICE, Selection::Scissors)),
        SessionAction::ContinueRound
    );
    let a = s.handle_event(choice_of(BOB, Selection::Paper));
    let mo = match a {
        SessionAction::Finish(SessionResult::Concluded(mo)) => mo,
        other => panic!("the match should be over: {:?}", other),
    };
    assert_eq!(mo.winner_id(), ALICE);
    assert_eq!(mo.scores.challenger, 2);
    assert_eq!(mo.scores.opponent, 0);

    let changes = update_leaderboard(&mut lb, &mo);
    assert_eq!(changes.challenger, (1500, 1520));
    assert_eq!(changes.opponent, (1500, 1480));

    let a_score = *lb.score(ALICE).unwrap();
    let b_score = *lb.score(BOB).unwrap();
    assert!(a_score.elo > 1500 && 1500 > b_score.elo);
    assert_eq!(a_score, Score { wins: 1, losses: 0, elo: 1520 });
    assert_eq!(b_score, Score { wins: 0, losses: 1, elo: 1480 });
}

#[test]
fn update_leaderboard_uses_one_snapshot_of_both_ratings() {
    // The winner's new rating must be computed against the loser's
    // pre-update rating, not the already-lowered one.
    let mut lb = Leaderboard::new();
    lb.set_score(ALICE, Score { wins: 0, losses: 0, elo: 1500 });
    lb.set_score(BOB, Score { wins: 0, losses: 0, elo: 1600 });

    let mut s = fresh(1);
    s.handle_event(SessionEvent::AcceptanceResponse { responder: BOB, accepted: true });
    s.handle_event(choice_of(ALICE, Selection::Rock));
    let a = s.handle_event(choice_of(BOB, Selection::Scissors));
    let mo = match a {
        SessionAction::Finish(SessionResult::Concluded(mo)) => mo,
        other => panic!("the match should be over: {:?}", other),
    };

    let changes = update_leaderboard(&mut lb, &mo);
    // Against a 1600 opponent a 1500 winner gains 25; against a 1500
    // opponent a 1600 loser drops 26.
    assert_eq!(changes.challenger, (1500, 1525));
    assert_eq!(changes.opponent, (1600, 1574));
    assert_eq!(*lb.score(ALICE).unwrap(), Score { wins: 1, losses: 0, elo: 1525 });
    assert_eq!(*lb.score(BOB).unwrap(), Score { wins: 0, losses: 1, elo: 1574 });
}

#[test]
fn update_leaderboard_touches_no_other_record() {
    let mut lb = Leaderboard::new();
    lb.set_score(STRANGER, Score { wins: 7, losses: 7, elo: 1234 });

    let mut s = fresh(1);
    s.handle_event(SessionEvent::AcceptanceResponse { responder: BOB, accepted: true });
    s.handle_event(choice_of(ALICE, Selection::Paper));
    let a = s.handle_event(choice_of(BOB, Selection::Rock));
    let mo = match a {
        SessionAction::Finish(SessionResult::Concluded(mo)) => mo,
        other => panic!("the match should be over: {:?}", other),
    };
    update_leaderboard(&mut lb, &mo);
    assert_eq!(*lb.score(STRANGER).unwrap(), Score { wins: 7, losses: 7, elo: 1234 });
    assert_eq!(lb.len(), 3);
}

#[test]
fn stale_acceptance_click_during_a_round_is_rejected() {
    let mut s = fresh(1);
    s.handle_event(SessionEvent::AcceptanceResponse { responder: BOB, accepted: true });
    let before = s;
    let a = s.handle_event(SessionEvent::AcceptanceResponse { responder: BOB, accepted: true });
    assert_eq!(
        a,
        SessionAction::RejectResponder { responder: BOB, reason: DuelError::UnknownParticipant }
    );
    assert_eq!(s, before);
}
