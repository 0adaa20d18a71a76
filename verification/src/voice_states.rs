//! The voice states of a guild: which voice channel, if any, each member is in.
use vstd::prelude::*;

verus! {

/// The voice state of each member of a guild, keyed by user id.
/// A later entry for a user replaces an earlier one.
#[derive(Clone, Debug)]
pub struct VoiceStates {
    entries: Vec<(u64, Option<u64>)>,
}

/// The map that a list of (user, channel) entries describes, later entries winning.
pub open spec fn entries_map(entries: Seq<(u64, Option<u64>)>) -> Map<u64, Option<u64>>
    decreases entries.len(),
{
    if entries.len() == 0 {
        Map::empty()
    } else {
        entries_map(entries.drop_last()).insert(entries.last().0, entries.last().1)
    }
}

impl View for VoiceStates {
    type V = Map<u64, Option<u64>>;

    closed spec fn view(&self) -> Map<u64, Option<u64>> {
        entries_map(self.entries@)
    }
}

impl VoiceStates {
    /// No member in any voice state.
    pub fn new() -> (s: Self)
        ensures
            s@ == Map::<u64, Option<u64>>::empty(),
    {
        VoiceStates { entries: Vec::new() }
    }

    /// Records that `user` is in `channel` (`None`: in no channel).
    pub fn insert(&mut self, user: u64, channel: Option<u64>)
        ensures
            final(self)@ == old(self)@.insert(user, channel),
    {
        let ghost before = self.entries@;
        self.entries.push((user, channel));
        assert(self.entries@.drop_last() =~= before);
    }

    /// The voice state of `user`, if the guild has one: `Some(channel)`.
    pub fn get(&self, user: u64) -> (r: Option<Option<u64>>)
        ensures
            r == (if self@.contains_key(user) { Some(self@[user]) } else { None::<Option<u64>> }),
    {
        let mut found: Option<Option<u64>> = None;
        let mut i: usize = 0;
        while i < self.entries.len()
            invariant
                i <= self.entries@.len(),
                found == (if entries_map(self.entries@.take(i as int)).contains_key(user) {
                    Some(entries_map(self.entries@.take(i as int))[user])
                } else {
                    None::<Option<u64>>
                }),
            decreases self.entries.len() - i,
        {
            let (u, c) = self.entries[i];
            assert(self.entries@.take(i + 1).drop_last() =~= self.entries@.take(i as int));
            if u == user {
                found = Some(c);
            }
            i = i + 1;
        }
        assert(self.entries@.take(i as int) =~= self.entries@);
        found
    }
}

} // verus!
