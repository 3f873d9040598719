use vstd::prelude::*;
use std::collections::HashMap;

verus! {

broadcast use vstd::std_specs::hash::group_hash_axioms;

/// What moderation does about a member, by how many violations they have.
#[derive(Clone, Copy, Debug, PartialEq, Eq, Structural)]
pub enum ModAction {
    /// A warning only.
    Warn,
    /// A timeout of this many seconds.
    Mute(u64),
    Ban,
}

/// The violation counts at which each action starts, and the mute lengths
/// in seconds.
#[derive(Clone, Copy, Debug, PartialEq, Eq, Structural)]
pub struct ViolationThresholds {
    pub short_mute_min: u32,
    pub long_mute_min: u32,
    pub ban_min: u32,
    pub short_mute_secs: u64,
    pub long_mute_secs: u64,
}

impl Default for ViolationThresholds {
    fn default() -> (r: Self)
        ensures
            r == (ViolationThresholds {
                short_mute_min: 2,
                long_mute_min: 5,
                ban_min: 7,
                short_mute_secs: 60,
                long_mute_secs: 3600,
            }),
    {
        ViolationThresholds {
            short_mute_min: 2,
            long_mute_min: 5,
            ban_min: 7,
            short_mute_secs: 60,
            long_mute_secs: 3600,
        }
    }
}

/// The action for a member with `count` violations.
pub open spec fn action_for(count: u32, t: ViolationThresholds) -> ModAction {
    if count < t.short_mute_min {
        ModAction::Warn
    } else if count < t.long_mute_min {
        ModAction::Mute(t.short_mute_secs)
    } else if count < t.ban_min {
        ModAction::Mute(t.long_mute_secs)
    } else {
        ModAction::Ban
    }
}

/// The number of violations of each member, by user id.
pub struct ViolationsTracker {
    violations: HashMap<u64, u32>,
}

impl ViolationsTracker {
    /// The violations recorded for each member that has any.
    pub closed spec fn counts(&self) -> Map<u64, u32> {
        self.violations@
    }

    /// The violations recorded for `user_id` (0 when none).
    pub open spec fn count_of(&self, user_id: u64) -> u32 {
        if self.counts().contains_key(user_id) {
            self.counts()[user_id]
        } else {
            0
        }
    }

    pub fn new() -> (r: ViolationsTracker)
        ensures
            r.counts() == Map::<u64, u32>::empty(),
    {
        ViolationsTracker { violations: HashMap::new() }
    }

    /// Counts one more violation for `user_id`; the count stops at `u32::MAX`.
    pub fn increment_violations(&mut self, user_id: u64)
        ensures
            final(self).counts() == old(self).counts().insert(
                user_id,
                if old(self).count_of(user_id) == u32::MAX {
                    u32::MAX
                } else {
                    (old(self).count_of(user_id) + 1) as u32
                },
            ),
    {
        let current = self.get_violation_count(user_id);
        let next = if current == u32::MAX {
            u32::MAX
        } else {
            current + 1
        };
        self.violations.insert(user_id, next);
    }

    pub fn get_violation_count(&self, user_id: u64) -> (r: u32)
        ensures
            r == self.count_of(user_id),
    {
        match self.violations.get(&user_id) {
            Some(v) => *v,
            None => 0,
        }
    }

    /// The action that `user_id`'s violation count calls for under `thresholds`.
    pub fn get_appropriate_action(&self, user_id: u64, thresholds: &ViolationThresholds) -> (r: ModAction)
        ensures
            r == action_for(self.count_of(user_id), *thresholds),
    {
        let v = self.get_violation_count(user_id);
        if v < thresholds.short_mute_min {
            ModAction::Warn
        } else if v < thresholds.long_mute_min {
            ModAction::Mute(thresholds.short_mute_secs)
        } else if v < thresholds.ban_min {
            ModAction::Mute(thresholds.long_mute_secs)
        } else {
            ModAction::Ban
        }
    }
}

} // verus!
