use appalachia::selection::{round_winner, Selection, Side};

#[test]
fn beats_covers_all_decisive_pairs() {
    assert!(Selection::Rock.beats(Selection::Scissors));
    assert!(Selection::Paper.beats(Selection::Rock));
    assert!(Selection::Scissors.beats(Selection::Paper));
    assert!(!Selection::Scissors.beats(Selection::Rock));
    assert!(!Selection::Rock.beats(Selection::Paper));
    assert!(!Selection::Paper.beats(Selection::Scissors));
}

#[test]
fn nothing_beats_itself() {
    for s in [Selection::Rock, Selection::Paper, Selection::Scissors] {
        assert!(!s.beats(s));
        assert_eq!(round_winner(s, s), None);
    }
}

#[test]
fn exactly_one_direction_wins_each_distinct_pair() {
    let all = [Selection::Rock, Selection::Paper, Selection::Scissors];
    for a in all {
        for b in all {
            if a != b {
                assert!(a.beats(b) != b.beats(a));
                assert!(round_winner(a, b).is_some());
            }
        }
    }
}

#[test]
fn round_winner_names_the_right_side() {
    assert_eq!(round_winner(Selection::Rock, Selection::Scissors), Some(Side::Challenger));
    assert_eq!(round_winner(Selection::Scissors, Selection::Rock), Some(Side::Opponent));
    assert_eq!(round_winner(Selection::Paper, Selection::Rock), Some(Side::Challenger));
    assert_eq!(round_winner(Selection::Rock, Selection::Paper), Some(Side::Opponent));
    assert_eq!(round_winner(Selection::Scissors, Selection::Paper), Some(Side::Challenger));
    assert_eq!(round_winner(Selection::Paper, Selection::Scissors), Some(Side::Opponent));
}

#[test]
fn side_other_swaps() {
    assert_eq!(Side::Challenger.other(), Side::Opponent);
    assert_eq!(Side::Opponent.other(), Side::Challenger);
}

#[test]
fn selection_names_and_emoji() {
    assert_eq!(Selection::Rock.as_str(), "Rock");
    assert_eq!(Selection::Paper.as_str(), "Paper");
    assert_eq!(Selection::Scissors.as_str(), "Scissors");
    assert_eq!(Selection::Rock.emoji(), '\u{270a}');
    assert_eq!(Selection::Paper.emoji(), '\u{1f590}');
    assert_eq!(Selection::Scissors.emoji(), '\u{270c}');
}

#[test]
fn map_all_visits_every_selection_in_order() {
    let names = Selection::map_all(|s| s.as_str());
    assert_eq!(names, vec!["Rock", "Paper", "Scissors"]);
}
