//! Picking a random member of a community: which members are eligible, and
//! how a drawn random number selects one of them. Fetching the member list
//! and drawing the number happen outside this crate.

use vstd::prelude::*;

verus! {

/// There was nobody to pick from.
#[derive(Debug, Clone, Copy, PartialEq, Eq, Structural)]
pub struct NoMembersError;

impl NoMembersError {
    /// The message shown for this error.
    pub fn message(&self) -> (r: &'static str)
        ensures
            r@ == spec_no_members_message(),
    {
        proof {
            reveal_strlit("No members found in guild!");
        }
        "No members found in guild!"
    }
}

/// The text of [`NoMembersError::message`].
pub open spec fn spec_no_members_message() -> Seq<char> {
    "No members found in guild!"@
}

/// Whether a member — an identifier and a bot flag — may be picked: the
/// caller only when `include_self`, bots only when `include_bots`.
pub open spec fn spec_eligible(
    member: (u64, bool),
    caller: u64,
    include_self: bool,
    include_bots: bool,
) -> bool {
    !(!include_self && member.0 == caller) && !(!include_bots && member.1)
}

/// The identifiers of the members eligible for the pick, in the order given.
#[verifier::loop_isolation(false)]
pub fn eligible_members(
    members: &Vec<(u64, bool)>,
    caller: u64,
    include_self: bool,
    include_bots: bool,
) -> (r: Vec<u64>)
    ensures
        r@ == members@.filter(
            |m: (u64, bool)| spec_eligible(m, caller, include_self, include_bots),
        ).map_values(|m: (u64, bool)| m.0),
{
    let ghost pred = |m: (u64, bool)| spec_eligible(m, caller, include_self, include_bots);
    let mut r: Vec<u64> = Vec::new();
    let mut i: usize = 0;
    while i < members.len()
        invariant
            i <= members@.len(),
            r@ == members@.take(i as int).filter(pred).map_values(|m: (u64, bool)| m.0),
        decreases members@.len() - i,
    {
        let m = members[i];
        let keep = !(!include_self && m.0 == caller) && !(!include_bots && m.1);
        if keep {
            r.push(m.0);
        }
        proof {
            let prefix = members@.take(i as int);
            let next = members@.take(i + 1);
            assert(next.drop_last() =~= prefix);
            assert(next.last() == m);
            reveal_with_fuel(Seq::filter, 1);
            if pred(m) {
                assert(next.filter(pred) == prefix.filter(pred).push(m));
            } else {
                assert(next.filter(pred) == prefix.filter(pred));
            }
            assert(r@ =~= next.filter(pred).map_values(|x: (u64, bool)| x.0));
        }
        i = i + 1;
    }
    proof {
        assert(members@.take(members@.len() as int) =~= members@);
    }
    r
}

/// Selects the member a drawn random number lands on: the draw reduced modulo
/// the number of eligible members. Fails exactly when there is none.
pub fn pick_member(members: &Vec<u64>, draw: usize) -> (r: Result<u64, NoMembersError>)
    ensures
        members@.len() == 0 ==> r == Err::<u64, NoMembersError>(NoMembersError),
        members@.len() > 0 ==> r == Ok::<u64, NoMembersError>(
            members@[(draw as int) % (members@.len() as int)],
        ),
{
    if members.len() == 0 {
        Err(NoMembersError)
    } else {
        Ok(members[draw % members.len()])
    }
}

} // verus!
