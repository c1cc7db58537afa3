use std::cell::Cell;

use appalachia::config::Config;
use appalachia::pair::ChallengerOpponentPair;
use appalachia::roster::{eligible_members, pick_member, NoMembersError};
use appalachia::selection::Side;

#[test]
fn config_defaults() {
    let c = Config::default();
    assert_eq!(c.token, "");
    assert_eq!(c.prefix, "~");
    assert_eq!(c.data_directory, "data/");
    assert!(c.status.is_none());
    assert_eq!(Config::default_prefix(), "~");
    assert_eq!(Config::default_data_dir(), "data/");
}

#[test]
fn eligible_members_excludes_the_caller_unless_included() {
    let members = vec![(1u64, false), (2, false), (3, false)];
    assert_eq!(eligible_members(&members, 2, false, false), vec![1, 3]);
    assert_eq!(eligible_members(&members, 2, true, false), vec![1, 2, 3]);
}

#[test]
fn eligible_members_excludes_bots_unless_included() {
    let members = vec![(1u64, false), (2, true), (3, false), (4, true)];
    assert_eq!(eligible_members(&members, 0, true, false), vec![1, 3]);
    assert_eq!(eligible_members(&members, 0, true, true), vec![1, 2, 3, 4]);
}

#[test]
fn eligible_members_applies_both_exclusions() {
    let members = vec![(1u64, false), (2, true), (3, false)];
    assert_eq!(eligible_members(&members, 3, false, false), vec![1]);
}

#[test]
fn pick_member_fails_only_on_an_empty_roster() {
    let nobody: Vec<u64> = Vec::new();
    assert_eq!(pick_member(&nobody, 5), Err(NoMembersError));
    let members = vec![10u64, 20, 30];
    assert_eq!(pick_member(&members, 0), Ok(10));
    assert_eq!(pick_member(&members, 4), Ok(20));
    assert_eq!(pick_member(&members, 29), Ok(30));
}

#[test]
fn no_members_error_message() {
    assert_eq!(NoMembersError.message(), "No members found in guild!");
}

#[test]
fn pair_combinators_behave_pointwise() {
    let p = ChallengerOpponentPair::new(1u64, 2u64);
    assert_eq!(p.tuple(), (1, 2));
    assert_eq!(p.flip().tuple(), (2, 1));
    let doubled = p.map(|x| x * 2);
    assert_eq!(doubled.tuple(), (2, 4));
    let summed = p.zip(doubled).map(|(a, b)| a + b);
    assert_eq!(summed.tuple(), (3, 6));
    let viewed = p.map_ref(|x| *x + 10);
    assert_eq!(viewed.tuple(), (11, 12));
    let generated = ChallengerOpponentPair::generate(5u64, 6u64, |x| x + 1);
    assert_eq!(generated.tuple(), (6, 7));
    let combined = p.gen_map(100u64, 200u64, |x, y| x + y);
    assert_eq!(combined.tuple(), (101, 202));
    let refs = p.as_ref();
    assert_eq!((*refs.challenger, *refs.opponent), (1, 2));
    let both = ChallengerOpponentPair::new(Some(1u64), Some(2u64));
    assert_eq!(both.zipped(), Some((1, 2)));
    let half = ChallengerOpponentPair::new(Some(1u64), None);
    assert_eq!(half.zipped(), None);
}

#[test]
fn pair_indexes_by_side_and_visits_both_values() {
    let p = ChallengerOpponentPair::new(10u64, 20u64);
    assert_eq!(*p.by_side(Side::Challenger), 10);
    assert_eq!(*p.by_side(Side::Opponent), 20);
    let seen = Cell::new(0u64);
    p.for_each(|x| seen.set(seen.get() * 100 + x));
    assert_eq!(seen.get(), 1020);
}
