use vstd::prelude::*;
use std::collections::HashMap;

verus! {

broadcast use vstd::std_specs::hash::group_hash_axioms;

/// The length of a burst window, in milliseconds.
pub const WINDOW_MS: u64 = 5000;

/// The most messages a member may send within one window.
pub const MAX_MESSAGES_PER_WINDOW: u32 = 5;

/// A member's current burst: when its first message came (milliseconds on a
/// monotonic clock) and how many messages it holds.
#[derive(Clone, Copy, Debug, PartialEq, Eq, Structural)]
pub struct MessageTracker {
    pub first_message_ms: u64,
    pub message_count: u32,
}

/// A member's burst after one more message at `now_ms`, and whether that
/// message is spam: a message more than a window after the burst began
/// starts a new burst; otherwise it joins the burst, and is spam when the
/// burst then holds more than the allowed number of messages.
pub open spec fn after_message(t: Option<MessageTracker>, now_ms: u64) -> (MessageTracker, bool) {
    match t {
        None => (MessageTracker { first_message_ms: now_ms, message_count: 1 }, false),
        Some(t) => if now_ms - t.first_message_ms > WINDOW_MS {
            (MessageTracker { first_message_ms: now_ms, message_count: 1 }, false)
        } else {
            let c = if t.message_count == u32::MAX {
                u32::MAX
            } else {
                (t.message_count + 1) as u32
            };
            (MessageTracker { first_message_ms: t.first_message_ms, message_count: c }, c
                > MAX_MESSAGES_PER_WINDOW)
        },
    }
}

/// The bursts of each member, by user id.
pub struct SpamChecker {
    message_tracker: HashMap<u64, MessageTracker>,
}

impl SpamChecker {
    pub closed spec fn trackers(&self) -> Map<u64, MessageTracker> {
        self.message_tracker@
    }

    pub open spec fn tracker_of(&self, user_id: u64) -> Option<MessageTracker> {
        if self.trackers().contains_key(user_id) {
            Some(self.trackers()[user_id])
        } else {
            None
        }
    }

    pub fn new() -> (r: SpamChecker)
        ensures
            r.trackers() == Map::<u64, MessageTracker>::empty(),
    {
        SpamChecker { message_tracker: HashMap::new() }
    }

    /// Counts a message of `user_id` at `now_ms` and tells whether it is spam.
    pub fn is_spam(&mut self, user_id: u64, now_ms: u64) -> (r: bool)
        ensures
            final(self).trackers() == old(self).trackers().insert(
                user_id,
                after_message(old(self).tracker_of(user_id), now_ms).0,
            ),
            r == after_message(old(self).tracker_of(user_id), now_ms).1,
    {
        let current = match self.message_tracker.get(&user_id) {
            Some(t) => Some(*t),
            None => None,
        };
        let (next, spam) = match current {
            None => (MessageTracker { first_message_ms: now_ms, message_count: 1 }, false),
            Some(t) => {
                let elapsed = if now_ms >= t.first_message_ms {
                    now_ms - t.first_message_ms
                } else {
                    0
                };
                if elapsed > WINDOW_MS {
                    (MessageTracker { first_message_ms: now_ms, message_count: 1 }, false)
                } else {
                    let c = if t.message_count == u32::MAX {
                        u32::MAX
                    } else {
                        t.message_count + 1
                    };
                    (
                        MessageTracker { first_message_ms: t.first_message_ms, message_count: c },
                        c > MAX_MESSAGES_PER_WINDOW,
                    )
                }
            },
        };
        self.message_tracker.insert(user_id, next);
        spam
    }
}

} // verus!
