//! The per-community rating store: a mapping from participant identifier to
//! [`Score`], with a deterministically ranked, tie-broken enumeration.

use vstd::prelude::*;
use vstd::relations::{sorted_by, total_ordering};
use vstd::seq_lib::lemma_sorted_unique;
use vstd::multiset::Multiset;
use crate::game::PlayerId;
use crate::kv::{spec_lookup, spec_unique_keys, lemma_lookup_at, lemma_lookup_after_update, lemma_lookup_after_push};
use crate::score::{Score, BASE_ELO};

verus! {

broadcast use vstd::seq_lib::group_to_multiset_ensures, vstd::multiset::group_multiset_axioms;

/// The leaderboard order on records alone: rating descending, then wins
/// descending, then losses ascending.
pub open spec fn spec_score_leq(a: Score, b: Score) -> bool {
    if a.elo != b.elo {
        a.elo > b.elo
    } else if a.wins != b.wins {
        a.wins > b.wins
    } else {
        a.losses <= b.losses
    }
}

/// The full enumeration order: by record, with exact record ties broken by
/// participant identifier so that repeated calls return one stable order.
pub open spec fn entry_leq(a: (PlayerId, Score), b: (PlayerId, Score)) -> bool {
    if a.1 == b.1 {
        a.0 <= b.0
    } else {
        spec_score_leq(a.1, b.1)
    }
}

/// The enumeration order as a relation value.
pub open spec fn entry_order() -> spec_fn((PlayerId, Score), (PlayerId, Score)) -> bool {
    |a: (PlayerId, Score), b: (PlayerId, Score)| entry_leq(a, b)
}

/// The enumeration order is a total ordering, so a sequence has exactly one
/// sorted arrangement under it.
pub proof fn lemma_entry_order_total()
    ensures
        total_ordering(entry_order()),
{
    let leq = entry_order();
    assert forall|a: (PlayerId, Score), b: (PlayerId, Score)|
        #[trigger] leq(a, b) && #[trigger] leq(b, a) implies a == b by {
        assert(a.1 == b.1 && a.0 == b.0);
    }
    assert forall|a: (PlayerId, Score), b: (PlayerId, Score), c: (PlayerId, Score)|
        #[trigger] leq(a, b) && #[trigger] leq(b, c) implies leq(a, c) by {}
    assert forall|a: (PlayerId, Score), b: (PlayerId, Score)| #[trigger]
        leq(a, b) || #[trigger] leq(b, a) by {}
}

/// In a sequence sorted by the enumeration order, entries with equal records
/// form one contiguous block.
pub proof fn lemma_equal_scores_contiguous(s: Seq<(PlayerId, Score)>, i: int, k: int, j: int)
    requires
        sorted_by(s, entry_order()),
        0 <= i <= k <= j < s.len(),
        s[i].1 == s[j].1,
    ensures
        s[k].1 == s[i].1,
{
    let leq = entry_order();
    if i < k {
        assert(leq(s[i], s[k]));
    }
    if k < j {
        assert(leq(s[k], s[j]));
    }
}

/// The record a participant is treated as holding before their first game.
pub open spec fn spec_default_score() -> Score {
    Score { wins: 0, losses: 0, elo: BASE_ELO }
}

/// The record stored for `id`, or the default record when none is.
pub open spec fn spec_score_or_default(s: Seq<(PlayerId, Score)>, id: PlayerId) -> Score {
    match spec_lookup(s, id) {
        Some(sc) => sc,
        None => spec_default_score(),
    }
}

/// Whether `a` precedes `b` in the enumeration order.
fn entry_le(a: &(PlayerId, Score), b: &(PlayerId, Score)) -> (r: bool)
    ensures
        r == entry_leq(*a, *b),
{
    if a.1.elo != b.1.elo {
        a.1.elo > b.1.elo
    } else if a.1.wins != b.1.wins {
        a.1.wins > b.1.wins
    } else if a.1.losses != b.1.losses {
        a.1.losses < b.1.losses
    } else {
        a.0 <= b.0
    }
}

/// Selection sort into the enumeration order: the result is exactly the
/// spec-level sorted arrangement of the input.
#[verifier::loop_isolation(false)]
fn sort_entries(input: &Vec<(PlayerId, Score)>) -> (out: Vec<(PlayerId, Score)>)
    ensures
        out@ == input@.sort_by(entry_order()),
        sorted_by(out@, entry_order()),
        out@.len() == input@.len(),
{
    let ghost leq = entry_order();
    proof {
        lemma_entry_order_total();
        input@.lemma_sort_by_ensures(leq);
    }
    let mut rest: Vec<(PlayerId, Score)> = Vec::new();
    let mut c: usize = 0;
    while c < input.len()
        invariant
            c <= input@.len(),
            rest@ == input@.take(c as int),
        decreases input@.len() - c,
    {
        rest.push(input[c]);
        proof {
            assert(rest@ =~= input@.take(c + 1));
        }
        c = c + 1;
    }
    proof {
        assert(rest@ =~= input@);
    }
    let mut out: Vec<(PlayerId, Score)> = Vec::new();
    while rest.len() > 0
        invariant
            out@.to_multiset().add(rest@.to_multiset()) =~= input@.to_multiset(),
            sorted_by(out@, leq),
            forall|i: int, j: int|
                #![trigger out@[i], rest@[j]]
                0 <= i < out@.len() && 0 <= j < rest@.len() ==> leq(out@[i], rest@[j]),
        decreases rest@.len(),
    {
        let mut m: usize = 0;
        let mut k: usize = 1;
        while k < rest.len()
            invariant
                m < k <= rest@.len(),
                forall|j: int| 0 <= j < k ==> leq(rest@[m as int], #[trigger] rest@[j]),
            decreases rest@.len() - k,
        {
            if entry_le(&rest[k], &rest[m]) {
                m = k;
            }
            k = k + 1;
        }
        let ghost old_out = out@;
        let ghost old_rest = rest@;
        let e = rest.remove(m);
        out.push(e);
        proof {
            assert(old_rest.contains(e));
            assert(old_rest.to_multiset().count(e) > 0);
            assert(out@.to_multiset().add(rest@.to_multiset()) =~= input@.to_multiset());
            assert forall|i: int, j: int|
                #![trigger out@[i], rest@[j]]
                0 <= i < out@.len() && 0 <= j < rest@.len() implies leq(out@[i], rest@[j]) by {
                assert(rest@[j] == if j < m { old_rest[j] } else { old_rest[j + 1] });
                if i < old_out.len() {
                    assert(leq(old_out[i], rest@[j]));
                } else {
                    assert(leq(e, rest@[j]));
                }
            }
            assert forall|i: int, j: int| 0 <= i < j < out@.len() implies leq(
                #[trigger] out@[i],
                #[trigger] out@[j],
            ) by {
                if j < old_out.len() {
                    assert(leq(old_out[i], old_out[j]));
                } else {
                    assert(out@[j] == e);
                    assert(leq(old_out[i], old_rest[m as int]));
                }
            }
        }
    }
    proof {
        assert(rest@.to_multiset() =~= Multiset::<(PlayerId, Score)>::empty());
        assert(out@.to_multiset() =~= input@.to_multiset());
        lemma_sorted_unique(out@, input@.sort_by(leq), leq);
        assert(out@ == input@.sort_by(leq));
        assert(out@.to_multiset().len() == out@.len());
        assert(input@.to_multiset().len() == input@.len());
    }
    out
}

/// One line of the ranked enumeration: a participant, their dense rank, and
/// their record.
#[derive(Debug, Clone, Copy, PartialEq, Eq, Structural)]
pub struct LeaderboardEntry {
    pub user: PlayerId,
    pub rank: u32,
    pub score: Score,
}

impl LeaderboardEntry {
    pub fn new(id: PlayerId, rank: u32, score: Score) -> (r: LeaderboardEntry)
        ensures
            r == (LeaderboardEntry { user: id, rank, score }),
    {
        LeaderboardEntry { user: id, rank, score }
    }

    /// The participant this line is about.
    pub fn user(&self) -> (r: PlayerId)
        ensures
            r == self.user,
    {
        self.user
    }

    /// The line's 1-based dense rank.
    pub fn rank(&self) -> (r: u32)
        ensures
            r == self.rank,
    {
        self.rank
    }

    /// The participant's record.
    pub fn score(&self) -> (r: &Score)
        ensures
            *r == self.score,
    {
        &self.score
    }
}

/// Mapping from participant identifier to rating record, created lazily and
/// default-constructed per entry on first mutating touch.
#[derive(Debug)]
pub struct Leaderboard {
    entries: Vec<(PlayerId, Score)>,
}

impl View for Leaderboard {
    type V = Seq<(PlayerId, Score)>;

    closed spec fn view(&self) -> Seq<(PlayerId, Score)> {
        self.entries@
    }
}

impl Leaderboard {
    /// Well-formedness: no participant has two entries.
    pub open spec fn spec_wf(self) -> bool {
        spec_unique_keys(self@)
    }

    /// An empty store.
    pub fn new() -> (r: Leaderboard)
        ensures
            r@ == Seq::<(PlayerId, Score)>::empty(),
            r.spec_wf(),
    {
        Leaderboard { entries: Vec::new() }
    }

    /// How many participants have a record.
    pub fn len(&self) -> (r: usize)
        ensures
            r == self@.len(),
    {
        self.entries.len()
    }

    /// The stored entries, in storage order: identifier and record pairs.
    pub fn as_entries(&self) -> (r: &Vec<(PlayerId, Score)>)
        ensures
            r@ == self@,
    {
        &self.entries
    }

    /// Read-only lookup: absent exactly when the participant never played.
    pub fn score(&self, player: PlayerId) -> (r: Option<&Score>)
        requires
            self.spec_wf(),
        ensures
            match r {
                Some(sc) => spec_lookup(self@, player) == Some(*sc),
                None => spec_lookup(self@, player) is None,
            },
    {
        let i = self.find_index(player);
        if i < self.entries.len() {
            Some(&self.entries[i].1)
        } else {
            None
        }
    }

    /// The index of `player`'s entry, or the store's length when absent.
    fn find_index(&self, player: PlayerId) -> (r: usize)
        requires
            self.spec_wf(),
        ensures
            r <= self@.len(),
            r < self@.len() ==> self@[r as int].0 == player && spec_lookup(self@, player)
                == Some(self@[r as int].1),
            r == self@.len() ==> spec_lookup(self@, player) is None,
    {
        let n = self.entries.len();
        let mut i: usize = 0;
        while i < n
            invariant
                0 <= i <= n == self@.len(),
                self.spec_wf(),
                forall|j: int| 0 <= j < i ==> (#[trigger] self@[j]).0 != player,
            decreases n - i,
        {
            if self.entries[i].0 == player {
                return i;
            }
            i = i + 1;
        }
        n
    }

    /// Mutable access to `player`'s record, creating the default record on
    /// first access. Every other participant's record is untouched.
    pub fn score_mut(&mut self, player: PlayerId) -> (r: &mut Score)
        requires
            old(self).spec_wf(),
        ensures
            *r == spec_score_or_default(old(self)@, player),
            spec_lookup(final(self)@, player) == Some(*final(r)),
            forall|x: PlayerId|
                x != player ==> #[trigger] spec_lookup(final(self)@, x) == spec_lookup(
                    old(self)@,
                    x,
                ),
            final(self)@.len() == old(self)@.len() + (
            if spec_lookup(old(self)@, player) is Some {
                0int
            } else {
                1int
            }),
            final(self).spec_wf(),
    {
        let idx = self.find_index(player);
        let ghost was_present = idx < old(self)@.len();
        if idx == self.entries.len() {
            proof {
                lemma_lookup_after_push(old(self)@, player, spec_default_score());
            }
            self.entries.push((player, Score::default()));
        }
        let ghost mid = self@;
        let r = &mut self.entries[idx].1;
        proof {
            assert(after_borrow(self)@ =~= mid.update(idx as int, (player, *final(r))));
            lemma_lookup_after_update(mid, idx as int, player, *final(r));
            if was_present {
                lemma_lookup_at(old(self)@, player, idx as int);
            }
        }
        r
    }

    /// Stores `sc` as `player`'s record, replacing any existing record.
    pub fn set_score(&mut self, player: PlayerId, sc: Score)
        requires
            old(self).spec_wf(),
        ensures
            spec_lookup(final(self)@, player) == Some(sc),
            forall|x: PlayerId|
                x != player ==> #[trigger] spec_lookup(final(self)@, x) == spec_lookup(
                    old(self)@,
                    x,
                ),
            final(self)@.len() == old(self)@.len() + (
            if spec_lookup(old(self)@, player) is Some {
                0int
            } else {
                1int
            }),
            final(self).spec_wf(),
    {
        let slot = self.score_mut(player);
        *slot = sc;
    }

    /// The deterministically ranked enumeration, best record first.
    ///
    /// The output is the prefix, of length `limit` when one is given, of the
    /// full enumeration of the store sorted by [`entry_leq`]. Ranks are
    /// 1-based, dense, and reflect position in the full unlimited ordering:
    /// the sequence of ranks never decreases, entries with identical records
    /// share one rank, and the entry after a block of tied records gets that
    /// block's rank plus one, whatever the block's size.
    #[verifier::loop_isolation(false)]
    pub fn ordered_scores(&self, limit: Option<usize>) -> (r: Vec<LeaderboardEntry>)
        requires
            self@.len() < u32::MAX,
        ensures
            ({
                let sorted = self@.sort_by(entry_order());
                let n = spec_output_len(self@.len() as int, limit);
                &&& r@.len() == n
                &&& forall|i: int|
                    0 <= i < n ==> ((#[trigger] r@[i]).user, r@[i].score) == sorted[i]
                &&& forall|i: int, j: int|
                    #![trigger r@[i].user, r@[j].user]
                    0 <= i < j < n ==> entry_leq(
                        (r@[i].user, r@[i].score),
                        (r@[j].user, r@[j].score),
                    )
                &&& n > 0 ==> r@[0].rank == 1
                &&& forall|i: int|
                    1 <= i < n ==> (#[trigger] r@[i]).rank as int == (
                    if r@[i].score == r@[i - 1].score {
                        r@[i - 1].rank as int
                    } else {
                        r@[i - 1].rank + 1
                    })
                &&& forall|i: int, j: int|
                    #![trigger r@[i].rank, r@[j].rank]
                    0 <= i <= j < n ==> r@[i].rank <= r@[j].rank
                &&& forall|i: int, j: int|
                    #![trigger r@[i].score, r@[j].score]
                    0 <= i < j < n && r@[i].score == r@[j].score ==> r@[i].rank == r@[j].rank
                &&& forall|i: int| 0 <= i < n ==> 1 <= (#[trigger] r@[i]).rank <= i + 1
            }),
    {
        let sorted = sort_entries(&self.entries);
        let total = sorted.len();
        let cap = match limit {
            Some(l) => if l < total {
                l
            } else {
                total
            },
            None => total,
        };
        let mut r: Vec<LeaderboardEntry> = Vec::new();
        let mut rank: u32 = 0;
        let mut k: usize = 0;
        while k < cap
            invariant
                cap <= total == sorted@.len(),
                cap == spec_output_len(self@.len() as int, limit),
                r@.len() == k <= cap,
                k > 0 ==> rank == r@[k - 1].rank,
                forall|i: int|
                    0 <= i < k ==> ((#[trigger] r@[i]).user, r@[i].score) == sorted@[i],
                k > 0 ==> r@[0].rank == 1,
                forall|i: int|
                    1 <= i < k ==> (#[trigger] r@[i]).rank as int == (
                    if r@[i].score == r@[i - 1].score {
                        r@[i - 1].rank as int
                    } else {
                        r@[i - 1].rank + 1
                    }),
                forall|i: int, j: int|
                    #![trigger r@[i].rank, r@[j].rank]
                    0 <= i <= j < k ==> r@[i].rank <= r@[j].rank,
                forall|i: int, j: int|
                    #![trigger r@[i].score, r@[j].score]
                    0 <= i < j < k && r@[i].score == r@[j].score ==> r@[i].rank == r@[j].rank,
                forall|i: int| 0 <= i < k ==> 1 <= (#[trigger] r@[i]).rank <= i + 1,
            decreases cap - k,
        {
            let entry = sorted[k];
            let new_rank: u32 = if k == 0 {
                1
            } else if entry.1 == r[k - 1].score {
                rank
            } else {
                rank + 1
            };
            r.push(LeaderboardEntry { user: entry.0, rank: new_rank, score: entry.1 });
            proof {
                let rv = r@;
                assert forall|i: int, j: int|
                    #![trigger rv[i].score, rv[j].score]
                    0 <= i < j < k + 1 && rv[i].score == rv[j].score implies rv[i].rank
                    == rv[j].rank by {
                    if j == k && i < k {
                        lemma_equal_scores_contiguous(sorted@, i, k - 1, k as int);
                        assert(rv[k - 1].score == rv[i].score);
                    }
                }
            }
            rank = new_rank;
            k = k + 1;
        }
        proof {
            assert forall|i: int, j: int|
                #![trigger r@[i].user, r@[j].user]
                0 <= i < j < r@.len() implies entry_leq(
                (r@[i].user, r@[i].score),
                (r@[j].user, r@[j].score),
            ) by {
                assert(entry_order()(sorted@[i], sorted@[j]));
            }
        }
        r
    }
}

/// The length of the ranked enumeration's output: the whole store, truncated
/// to `limit` entries when a limit is given.
pub open spec fn spec_output_len(total: int, limit: Option<usize>) -> int {
    match limit {
        Some(l) => if l as int <= total {
            l as int
        } else {
            total
        },
        None => total,
    }
}

} // verus!
