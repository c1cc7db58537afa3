//! Per-community data and the persistence gate around it.
//!
//! [`DataManager`] owns every community's data behind one handle and wraps it
//! with a dirty flag. A mutating access first calls [`DataManager::begin_mutation`],
//! which sets the flag and reports whether a previous, still unflushed
//! mutation is pending — in that case the caller must flush the current state
//! to durable storage before mutating, so that no mutation is ever silently
//! coalesced with an unrelated earlier one without a durable checkpoint
//! between them. An explicit sync — [`DataManager::export`] followed by a
//! durable write and [`DataManager::mark_synced`] — always flushes and clears
//! the flag. The durable write itself (the file, the format) lives outside
//! this crate; flush failure there leaves the in-memory state untouched.

use vstd::prelude::*;
use crate::kv::{spec_lookup, spec_unique_keys, lemma_lookup_at, lemma_lookup_after_update, lemma_lookup_after_push};
use crate::leaderboard::Leaderboard;

verus! {

/// The identifier of one community (a guild).
pub type GuildId = u64;

/// One community's data: the configured role and channel, and the duel
/// rating store.
#[derive(Debug)]
pub struct GuildData {
    pub autorole: Option<u64>,
    pub quotes_channel: Option<u64>,
    pub rps_leaderboard: Leaderboard,
}

impl GuildData {
    /// Fresh community data: nothing configured, an empty rating store.
    pub fn new() -> (r: GuildData)
        ensures
            r.autorole is None,
            r.quotes_channel is None,
            r.rps_leaderboard@ == Seq::<(u64, crate::score::Score)>::empty(),
            r.rps_leaderboard.spec_wf(),
    {
        GuildData { autorole: None, quotes_channel: None, rps_leaderboard: Leaderboard::new() }
    }

    /// The role handed to new members, if one is configured.
    pub fn autorole(&self) -> (r: Option<u64>)
        ensures
            r == self.autorole,
    {
        self.autorole
    }

    /// Configures or clears the role handed to new members.
    pub fn set_autorole(&mut self, role: Option<u64>)
        ensures
            *final(self) == (GuildData { autorole: role, ..*old(self) }),
    {
        self.autorole = role;
    }

    /// The channel quotes are pulled from, if one is configured.
    pub fn quotes_channel(&self) -> (r: Option<u64>)
        ensures
            r == self.quotes_channel,
    {
        self.quotes_channel
    }

    /// Configures or clears the channel quotes are pulled from.
    pub fn set_quotes_channel(&mut self, quotes_channel: Option<u64>)
        ensures
            *final(self) == (GuildData { quotes_channel, ..*old(self) }),
    {
        self.quotes_channel = quotes_channel;
    }

    /// The community's rating store.
    pub fn leaderboard(&self) -> (r: &Leaderboard)
        ensures
            r == &self.rps_leaderboard,
    {
        &self.rps_leaderboard
    }

    /// Mutable access to the community's rating store.
    pub fn leaderboard_mut(&mut self) -> (r: &mut Leaderboard)
        ensures
            *r == old(self).rps_leaderboard,
            *final(self) == (GuildData { rps_leaderboard: *final(r), ..*old(self) }),
    {
        &mut self.rps_leaderboard
    }
}

/// Every community's data behind one handle, wrapped in the dirty-flag
/// persistence gate.
#[derive(Debug)]
pub struct DataManager {
    unsynced: bool,
    guilds: Vec<(GuildId, GuildData)>,
}

impl DataManager {
    /// The gated data: one entry per community that has any.
    pub closed spec fn view(self) -> Seq<(GuildId, GuildData)> {
        self.guilds@
    }

    /// Whether an unflushed mutation is pending.
    pub closed spec fn spec_unsynced(self) -> bool {
        self.unsynced
    }

    /// Well-formedness: no community has two entries.
    pub open spec fn spec_wf(self) -> bool {
        spec_unique_keys(self@)
    }

    /// An empty manager with nothing pending.
    pub fn new() -> (r: DataManager)
        ensures
            r@ == Seq::<(GuildId, GuildData)>::empty(),
            !r.spec_unsynced(),
            r.spec_wf(),
    {
        DataManager { unsynced: false, guilds: Vec::new() }
    }

    /// Whether an unflushed mutation is pending: `true` after a mutating
    /// access until the next flush.
    pub fn needs_flush(&self) -> (r: bool)
        ensures
            r == self.spec_unsynced(),
    {
        self.unsynced
    }

    /// Announces a mutating access: sets the dirty flag and returns whether a
    /// previous mutation is still unflushed — in that case flush the current
    /// state (the previous mutation's outcome) to durable storage before
    /// mutating, so the two mutations get a durable checkpoint between them.
    pub fn begin_mutation(&mut self) -> (flush_first: bool)
        ensures
            flush_first == old(self).spec_unsynced(),
            final(self).spec_unsynced(),
            final(self)@ == old(self)@,
    {
        let was = self.unsynced;
        self.unsynced = true;
        was
    }

    /// Records that the current state has just been flushed to durable
    /// storage: clears the dirty flag and touches nothing else.
    pub fn mark_synced(&mut self)
        ensures
            !final(self).spec_unsynced(),
            final(self)@ == old(self)@,
    {
        self.unsynced = false;
    }

    /// The data in storage order, for the caller's durable write.
    pub fn export(&self) -> (r: &Vec<(GuildId, GuildData)>)
        ensures
            r@ == self@,
    {
        &self.guilds
    }

    /// One community's data, absent when that community has none yet.
    pub fn guild_data(&self, guild: GuildId) -> (r: Option<&GuildData>)
        requires
            self.spec_wf(),
        ensures
            match r {
                Some(gd) => spec_lookup(self@, guild) == Some(*gd),
                None => spec_lookup(self@, guild) is None,
            },
    {
        let i = self.find_guild(guild);
        if i < self.guilds.len() {
            Some(&self.guilds[i].1)
        } else {
            None
        }
    }

    /// The index of `guild`'s entry, or the number of entries when absent.
    fn find_guild(&self, guild: GuildId) -> (r: usize)
        requires
            self.spec_wf(),
        ensures
            r <= self@.len(),
            r < self@.len() ==> self@[r as int].0 == guild && spec_lookup(self@, guild) == Some(
                self@[r as int].1,
            ),
            r == self@.len() ==> spec_lookup(self@, guild) is None,
    {
        let n = self.guilds.len();
        let mut i: usize = 0;
        while i < n
            invariant
                0 <= i <= n == self@.len(),
                self.spec_wf(),
                forall|j: int| 0 <= j < i ==> (#[trigger] self@[j]).0 != guild,
            decreases n - i,
        {
            if self.guilds[i].0 == guild {
                return i;
            }
            i = i + 1;
        }
        n
    }

    /// Mutable access to one community's data, created fresh on first touch.
    /// Every other community's data is untouched. The caller owes a
    /// [`DataManager::begin_mutation`] before this.
    pub fn guild_data_mut(&mut self, guild: GuildId) -> (r: &mut GuildData)
        requires
            old(self).spec_wf(),
        ensures
            spec_lookup(final(self)@, guild) == Some(*final(r)),
            forall|x: GuildId|
                x != guild ==> #[trigger] spec_lookup(final(self)@, x) == spec_lookup(
                    old(self)@,
                    x,
                ),
            final(self)@.len() == old(self)@.len() + (
            if spec_lookup(old(self)@, guild) is Some {
                0int
            } else {
                1int
            }),
            spec_lookup(old(self)@, guild) is Some ==> spec_lookup(old(self)@, guild) == Some(*r),
            spec_lookup(old(self)@, guild) is None ==> r.autorole is None && r.quotes_channel
                is None && r.rps_leaderboard@ == Seq::<(u64, crate::score::Score)>::empty()
                && r.rps_leaderboard.spec_wf(),
            final(self).spec_wf(),
            final(self).spec_unsynced() == old(self).spec_unsynced(),
    {
        let idx = self.find_guild(guild);
        let ghost was_present = idx < old(self)@.len();
        if idx == self.guilds.len() {
            self.guilds.push((guild, GuildData::new()));
            proof {
                lemma_lookup_after_push(old(self)@, guild, self@[idx as int].1);
            }
        }
        let ghost mid = self@;
        let r = &mut self.guilds[idx].1;
        proof {
            assert(after_borrow(self)@ =~= mid.update(idx as int, (guild, *final(r))));
            lemma_lookup_after_update(mid, idx as int, guild, *final(r));
            if was_present {
                lemma_lookup_at(old(self)@, guild, idx as int);
            }
        }
        r
    }
}

} // verus!
