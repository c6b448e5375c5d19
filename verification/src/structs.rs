//! Small records that the bot keeps about users and guilds.

use vstd::prelude::*;

verus! {

/// Tells an error that comes from a cooldown from any other.
#[derive(Debug)]
pub struct InvocationData {
    pub cooldown_remaining: Option<std::time::Duration>,
}

/// What is remembered of a user's activity in direct messages.
#[derive(Clone, Copy, Debug, PartialEq, Eq, Structural)]
pub struct DmActivity {
    pub last_announced: i64,
    pub until: Option<i64>,
    pub count: i16,
}

impl DmActivity {
    /// The record with these three values.
    pub fn new(last_announced: i64, until: Option<i64>, count: i16) -> (r: DmActivity)
        ensures
            r == (DmActivity { last_announced, until, count }),
    {
        DmActivity { last_announced, until, count }
    }
}

/// Seconds without a deleted message after which a guild's count decays.
pub const DECAY_AFTER: u64 = 5;

/// How many messages were deleted in a guild of late, and when the count was
/// last touched, in seconds.
#[derive(Clone, Copy, Debug, PartialEq, Eq, Structural)]
pub struct Decay {
    pub val: u16,
    pub last_update: u64,
}

impl Decay {
    /// Whether more than [`DECAY_AFTER`] seconds have passed at `now` since
    /// the last update.
    pub open spec fn is_due(self, now: u64) -> bool {
        now > self.last_update && now - self.last_update > DECAY_AFTER
    }

    /// The count after a look at `now`: one less where the decay is due.
    pub open spec fn decayed(self, now: u64) -> Decay {
        if self.is_due(now) {
            Decay { val: (self.val - 1) as u16, ..self }
        } else {
            self
        }
    }

    /// Lets the count decay at `now`. Returns whether the count has reached
    /// zero, so that the record is to be dropped.
    pub fn decay(&mut self, now: u64) -> (spent: bool)
        requires
            old(self).is_due(now) ==> old(self).val > 0,
        ensures
            *final(self) == old(self).decayed(now),
            spent == (final(self).val == 0),
    {
        if now > self.last_update && now - self.last_update > DECAY_AFTER {
            self.val = self.val - 1;
        }
        self.val == 0
    }
}

} // verus!
