//! The timer wheel: pending timers, one for each key, kept in the order in
//! which they fall due.

use vstd::prelude::*;
use crate::permissions::{ChannelId, UserId};

verus! {

/// What a timer is for. Two timers with the same key are the same timer:
/// scheduling one replaces the other.
#[derive(Clone, Copy, Debug, PartialEq, Eq, Structural)]
pub enum TimerKey {
    /// The user asked for a room too soon after the last one.
    Cooldown(UserId),
    /// The channel was seen empty.
    Leave(ChannelId),
    /// The owner left the channel.
    OwnerAbsence(ChannelId, UserId),
}

/// A pending timer. `display_name` is the name that the user had when a
/// cooldown was scheduled; other timers carry an empty name.
#[derive(Debug)]
pub struct Timer {
    pub key: TimerKey,
    pub deadline: u64,
    pub display_name: String,
}

/// What a [`Timer`] holds, as mathematical values.
pub struct TimerView {
    pub key: TimerKey,
    pub deadline: u64,
    pub display_name: Seq<char>,
}

impl View for Timer {
    type V = TimerView;

    open spec fn view(&self) -> TimerView {
        TimerView { key: self.key, deadline: self.deadline, display_name: self.display_name@ }
    }
}

/// The instant that lies `timeout` milliseconds after `now`, or the last
/// instant there is where that would be later still.
pub open spec fn deadline_after(now: u64, timeout: u64) -> u64 {
    if now + timeout > u64::MAX {
        u64::MAX
    } else {
        (now + timeout) as u64
    }
}

/// The keys of the timers, in their order.
pub open spec fn keys_of(timers: Seq<TimerView>) -> Seq<TimerKey> {
    timers.map_values(|t: TimerView| t.key)
}

/// No two timers have the same key.
pub open spec fn keys_unique(timers: Seq<TimerView>) -> bool {
    forall|i: int, j: int|
        0 <= i < timers.len() && 0 <= j < timers.len() && i != j ==> (#[trigger] timers[i]).key != (
        #[trigger] timers[j]).key
}

/// A timer never stands before one that falls due earlier.
pub open spec fn in_due_order(timers: Seq<TimerView>) -> bool {
    forall|i: int, j: int|
        0 <= i <= j < timers.len() ==> (#[trigger] timers[i]).deadline <= (
        #[trigger] timers[j]).deadline
}

/// What holds of the timers of every wheel.
pub open spec fn wheel_wf(timers: Seq<TimerView>) -> bool {
    keys_unique(timers) && in_due_order(timers)
}

/// Whether a timer with this key is pending.
pub open spec fn is_pending(timers: Seq<TimerView>, key: TimerKey) -> bool {
    keys_of(timers).contains(key)
}

/// The deadline of the pending timer with this key.
pub open spec fn deadline_of(timers: Seq<TimerView>, key: TimerKey) -> Option<u64> {
    match keys_of(timers).index_of_first(key) {
        Some(i) => Some(timers[i].deadline),
        None => None,
    }
}

/// The timers without the one that has this key.
pub open spec fn without(timers: Seq<TimerView>, key: TimerKey) -> Seq<TimerView> {
    match keys_of(timers).index_of_first(key) {
        Some(i) => timers.remove(i),
        None => timers,
    }
}

/// How many timers at the front fall due at `deadline` or before it: the place
/// of a new timer with that deadline, behind all that are due no later.
pub open spec fn slot(timers: Seq<TimerView>, deadline: u64) -> int
    decreases timers.len(),
{
    if timers.len() == 0 || timers[0].deadline > deadline {
        0
    } else {
        1 + slot(timers.drop_first(), deadline)
    }
}

/// The timers after `timer` was scheduled: a pending timer with its key is
/// gone, and `timer` stands behind all that fall due no later than it.
pub open spec fn scheduled(timers: Seq<TimerView>, timer: TimerView) -> Seq<TimerView> {
    let rest = without(timers, timer.key);
    rest.insert(slot(rest, timer.deadline), timer)
}

/// The timers after the one with this key was moved to `deadline`. Without
/// such a timer nothing changes.
pub open spec fn rescheduled(timers: Seq<TimerView>, key: TimerKey, deadline: u64) -> Seq<
    TimerView,
> {
    match keys_of(timers).index_of_first(key) {
        Some(i) => scheduled(timers, TimerView { deadline, ..timers[i] }),
        None => timers,
    }
}

/// `slot` counts a prefix, and splits the timers at the deadline.
pub proof fn lemma_slot(timers: Seq<TimerView>, deadline: u64)
    requires
        in_due_order(timers),
    ensures
        0 <= slot(timers, deadline) <= timers.len(),
        forall|i: int| 0 <= i < slot(timers, deadline) ==> (#[trigger] timers[i]).deadline <= deadline,
        forall|i: int|
            slot(timers, deadline) <= i < timers.len() ==> (#[trigger] timers[i]).deadline > deadline,
    decreases timers.len(),
{
    if timers.len() == 0 || timers[0].deadline > deadline {
        assert forall|i: int| 0 <= i < timers.len() implies (#[trigger] timers[i]).deadline
            > deadline by {
            assert(timers[0].deadline <= timers[i].deadline);
        }
    } else {
        let rest = timers.drop_first();
        assert forall|i: int, j: int| 0 <= i <= j < rest.len() implies (#[trigger] rest[i]).deadline
            <= (#[trigger] rest[j]).deadline by {
            assert(rest[i] == timers[i + 1] && rest[j] == timers[j + 1]);
        }
        lemma_slot(rest, deadline);
        assert forall|i: int| 0 <= i < slot(timers, deadline) implies (
        #[trigger] timers[i]).deadline <= deadline by {
            if i > 0 {
                assert(timers[i] == rest[i - 1]);
            }
        }
        assert forall|i: int| slot(timers, deadline) <= i < timers.len() implies (
        #[trigger] timers[i]).deadline > deadline by {
            assert(timers[i] == rest[i - 1]);
        }
    }
}

/// Taking a timer out keeps the wheel in order, and no timer with that key
/// is left.
pub proof fn lemma_without(timers: Seq<TimerView>, key: TimerKey)
    requires
        wheel_wf(timers),
    ensures
        wheel_wf(without(timers, key)),
        !is_pending(without(timers, key), key),
        forall|other: TimerKey|
            other != key ==> deadline_of(without(timers, key), other) == deadline_of(timers, other),
        forall|other: TimerKey|
            other != key ==> is_pending(without(timers, key), other) == is_pending(timers, other),
{
    let ks = keys_of(timers);
    ks.index_of_first_ensures(key);
    let rest = without(timers, key);
    let rks = keys_of(rest);
    match ks.index_of_first(key) {
        Some(i) => {
            assert forall|a: int| 0 <= a < rest.len() implies #[trigger] rest[a] == timers[if a
                < i {
                a
            } else {
                a + 1
            }] by {}
            assert forall|a: int, b: int|
                0 <= a < rest.len() && 0 <= b < rest.len() && a != b implies (
            #[trigger] rest[a]).key != (#[trigger] rest[b]).key by {
                let a0 = if a < i { a } else { a + 1 };
                let b0 = if b < i { b } else { b + 1 };
                assert(rest[a] == timers[a0] && rest[b] == timers[b0]);
            }
            assert forall|a: int, b: int| 0 <= a <= b < rest.len() implies (
            #[trigger] rest[a]).deadline <= (#[trigger] rest[b]).deadline by {
                let a0 = if a < i { a } else { a + 1 };
                let b0 = if b < i { b } else { b + 1 };
                assert(rest[a] == timers[a0] && rest[b] == timers[b0]);
            }
            if rks.contains(key) {
                let a = choose|a: int| 0 <= a < rks.len() && rks[a] == key;
                let a0 = if a < i { a } else { a + 1 };
                assert(rest[a] == timers[a0]);
                assert(timers[a0].key == timers[i].key);
                assert(false);
            }
            assert forall|other: TimerKey| other != key implies deadline_of(rest, other)
                == deadline_of(timers, other) && is_pending(rest, other) == is_pending(
                timers,
                other,
            ) by {
                ks.index_of_first_ensures(other);
                rks.index_of_first_ensures(other);
                match ks.index_of_first(other) {
                    Some(j) => {
                        let j1 = if j < i { j } else { j - 1 };
                        assert(rest[j1] == timers[j]);
                        assert(rks[j1] == other);
                        let m = rks.index_of_first(other).unwrap();
                        let m0 = if m < i { m } else { m + 1 };
                        assert(rest[m] == timers[m0]);
                        assert(timers[m0].key == timers[j].key);
                        assert(m0 == j);
                    },
                    None => {
                        if rks.contains(other) {
                            let m = choose|m: int| 0 <= m < rks.len() && rks[m] == other;
                            let m0 = if m < i { m } else { m + 1 };
                            assert(rest[m] == timers[m0]);
                            assert(ks[m0] == other);
                            assert(false);
                        }
                    },
                }
            }
        },
        None => {},
    }
}

/// Scheduling a timer keeps the wheel in order. The timer is then pending
/// with its deadline, and every other timer is as it was.
pub proof fn lemma_scheduled(timers: Seq<TimerView>, timer: TimerView)
    requires
        wheel_wf(timers),
    ensures
        wheel_wf(scheduled(timers, timer)),
        is_pending(scheduled(timers, timer), timer.key),
        deadline_of(scheduled(timers, timer), timer.key) == Some(timer.deadline),
        forall|other: TimerKey|
            other != timer.key ==> deadline_of(scheduled(timers, timer), other) == deadline_of(
                timers,
                other,
            ),
        forall|other: TimerKey|
            other != timer.key ==> is_pending(scheduled(timers, timer), other) == is_pending(
                timers,
                other,
            ),
{
    lemma_without(timers, timer.key);
    let rest = without(timers, timer.key);
    lemma_slot(rest, timer.deadline);
    let at = slot(rest, timer.deadline);
    let next = scheduled(timers, timer);
    let rks = keys_of(rest);
    let nks = keys_of(next);
    assert(next[at] == timer);
    assert forall|a: int| 0 <= a < next.len() && a != at implies #[trigger] next[a] == rest[if a
        < at {
        a
    } else {
        a - 1
    }] by {}
    assert forall|a: int| 0 <= a < next.len() && a != at implies (#[trigger] next[a]).key
        != timer.key by {
        let a0 = if a < at { a } else { a - 1 };
        assert(next[a] == rest[a0]);
        assert(rks[a0] == rest[a0].key);
    }
    assert forall|a: int, b: int|
        0 <= a < next.len() && 0 <= b < next.len() && a != b implies (#[trigger] next[a]).key != (
    #[trigger] next[b]).key by {
        if a != at && b != at {
            let a0 = if a < at { a } else { a - 1 };
            let b0 = if b < at { b } else { b - 1 };
            assert(next[a] == rest[a0] && next[b] == rest[b0]);
        }
    }
    assert forall|a: int, b: int| 0 <= a <= b < next.len() implies (#[trigger] next[a]).deadline
        <= (#[trigger] next[b]).deadline by {
        let a0 = if a < at { a } else { a - 1 };
        let b0 = if b < at { b } else { b - 1 };
        if a != at {
            assert(next[a] == rest[a0]);
        }
        if b != at {
            assert(next[b] == rest[b0]);
        }
    }
    nks.index_of_first_ensures(timer.key);
    assert(nks[at] == timer.key);
    assert forall|other: TimerKey| other != timer.key implies deadline_of(next, other)
        == deadline_of(rest, other) && is_pending(next, other) == is_pending(rest, other) by {
        rks.index_of_first_ensures(other);
        nks.index_of_first_ensures(other);
        match rks.index_of_first(other) {
            Some(j) => {
                let j1 = if j < at { j } else { j + 1 };
                assert(next[j1] == rest[j]);
                assert(nks[j1] == other);
                let m = nks.index_of_first(other).unwrap();
                assert(m != at);
                let m0 = if m < at { m } else { m - 1 };
                assert(next[m] == rest[m0]);
                assert(rest[m0].key == rest[j].key);
                assert(m0 == j);
            },
            None => {
                if nks.contains(other) {
                    let m = choose|m: int| 0 <= m < nks.len() && nks[m] == other;
                    assert(m != at);
                    let m0 = if m < at { m } else { m - 1 };
                    assert(next[m] == rest[m0]);
                    assert(rks[m0] == other);
                    assert(false);
                }
            },
        }
    }
}

/// The first timer of a wheel falls due no later than any other.
pub proof fn lemma_front_is_earliest(timers: Seq<TimerView>)
    requires
        wheel_wf(timers),
        timers.len() > 0,
    ensures
        forall|i: int| 0 <= i < timers.len() ==> timers[0].deadline <= (#[trigger] timers[i]).deadline,
        wheel_wf(timers.drop_first()),
        !is_pending(timers.drop_first(), timers[0].key),
{
    let rest = timers.drop_first();
    assert forall|a: int| 0 <= a < rest.len() implies #[trigger] rest[a] == timers[a + 1] by {}
    assert forall|a: int, b: int|
        0 <= a < rest.len() && 0 <= b < rest.len() && a != b implies (#[trigger] rest[a]).key != (
    #[trigger] rest[b]).key by {
        assert(rest[a] == timers[a + 1] && rest[b] == timers[b + 1]);
    }
    assert forall|a: int, b: int| 0 <= a <= b < rest.len() implies (#[trigger] rest[a]).deadline
        <= (#[trigger] rest[b]).deadline by {
        assert(rest[a] == timers[a + 1] && rest[b] == timers[b + 1]);
    }
    let rks = keys_of(rest);
    if rks.contains(timers[0].key) {
        let a = choose|a: int| 0 <= a < rks.len() && rks[a] == timers[0].key;
        assert(rest[a] == timers[a + 1]);
        assert(false);
    }
}

/// The timers that have fallen due at `now`, in due order.
pub open spec fn due(timers: Seq<TimerView>, now: u64) -> Seq<TimerView> {
    timers.take(slot(timers, now))
}

/// The timers that have not fallen due at `now`, in due order.
pub open spec fn upcoming(timers: Seq<TimerView>, now: u64) -> Seq<TimerView> {
    timers.skip(slot(timers, now))
}

/// The due timers are exactly the pending timers whose deadline has come:
/// a timer is among them when its deadline is `now` or earlier, and among
/// the upcoming ones when it is later.
pub proof fn lemma_due(timers: Seq<TimerView>, now: u64, key: TimerKey)
    requires
        wheel_wf(timers),
    ensures
        wheel_wf(due(timers, now)),
        wheel_wf(upcoming(timers, now)),
        due(timers, now) + upcoming(timers, now) == timers,
        is_pending(due(timers, now), key) == (deadline_of(timers, key) is Some && deadline_of(
            timers,
            key,
        ).unwrap() <= now),
        is_pending(upcoming(timers, now), key) == (deadline_of(timers, key) is Some && deadline_of(
            timers,
            key,
        ).unwrap() > now),
{
    lemma_slot(timers, now);
    let at = slot(timers, now);
    let front = due(timers, now);
    let back = upcoming(timers, now);
    assert(front + back =~= timers);
    assert forall|i: int| 0 <= i < front.len() implies #[trigger] front[i] == timers[i] by {}
    assert forall|i: int| 0 <= i < back.len() implies #[trigger] back[i] == timers[i + at] by {}
    assert forall|a: int, b: int|
        0 <= a < front.len() && 0 <= b < front.len() && a != b implies (#[trigger] front[a]).key != (
    #[trigger] front[b]).key by {
        assert(front[a] == timers[a] && front[b] == timers[b]);
    }
    assert forall|a: int, b: int| 0 <= a <= b < front.len() implies (#[trigger] front[a]).deadline
        <= (#[trigger] front[b]).deadline by {
        assert(front[a] == timers[a] && front[b] == timers[b]);
    }
    assert forall|a: int, b: int|
        0 <= a < back.len() && 0 <= b < back.len() && a != b implies (#[trigger] back[a]).key != (
    #[trigger] back[b]).key by {
        assert(back[a] == timers[a + at] && back[b] == timers[b + at]);
    }
    assert forall|a: int, b: int| 0 <= a <= b < back.len() implies (#[trigger] back[a]).deadline
        <= (#[trigger] back[b]).deadline by {
        assert(back[a] == timers[a + at] && back[b] == timers[b + at]);
    }
    let ks = keys_of(timers);
    ks.index_of_first_ensures(key);
    if is_pending(front, key) {
        let i = choose|i: int| 0 <= i < keys_of(front).len() && keys_of(front)[i] == key;
        assert(front[i] == timers[i]);
        assert(ks[i] == key);
        let j = ks.index_of_first(key).unwrap();
        assert(timers[j].key == timers[i].key);
        assert(j == i);
    }
    if is_pending(back, key) {
        let i = choose|i: int| 0 <= i < keys_of(back).len() && keys_of(back)[i] == key;
        assert(back[i] == timers[i + at]);
        assert(ks[i + at] == key);
        let j = ks.index_of_first(key).unwrap();
        assert(timers[j].key == timers[i + at].key);
        assert(j == i + at);
    }
    match ks.index_of_first(key) {
        Some(j) => {
            assert(ks[j] == timers[j].key);
            if j < at {
                assert(front[j] == timers[j]);
                assert(keys_of(front)[j] == key);
            } else {
                assert(back[j - at] == timers[j]);
                assert(keys_of(back)[j - at] == key);
            }
        },
        None => {},
    }
}

/// The pending timers of the actor, at most one for each key, first the one
/// that falls due first; of two with the same deadline, the one scheduled
/// first.
pub struct TimerWheel {
    timers: Vec<Timer>,
}

impl View for TimerWheel {
    type V = Seq<TimerView>;

    closed spec fn view(&self) -> Seq<TimerView> {
        self.timers@.map_values(|t: Timer| t@)
    }
}

impl TimerWheel {
    /// What holds of every wheel: no key twice, and the timers in due order.
    pub open spec fn wf(&self) -> bool {
        wheel_wf(self@)
    }

    /// A wheel without timers.
    pub fn new() -> (r: TimerWheel)
        ensures
            r@ == Seq::<TimerView>::empty(),
            r.wf(),
    {
        let r = TimerWheel { timers: Vec::new() };
        assert(r@ =~= Seq::<TimerView>::empty());
        r
    }

    /// The number of pending timers.
    pub fn len(&self) -> (r: usize)
        ensures
            r == self@.len(),
    {
        self.timers.len()
    }

    /// Whether no timer is pending.
    pub fn is_empty(&self) -> (r: bool)
        ensures
            r == (self@.len() == 0),
    {
        self.timers.len() == 0
    }

    /// Where the timer with this key stands.
    fn find(&self, key: TimerKey) -> (r: Option<usize>)
        ensures
            match r {
                Some(i) => i < self@.len() && keys_of(self@).index_of_first(key) == Some(i as int),
                None => keys_of(self@).index_of_first(key) == None::<int>,
            },
    {
        let ghost ks = keys_of(self@);
        let mut i: usize = 0;
        while i < self.timers.len()
            invariant
                i <= self.timers.len(),
                ks == keys_of(self@),
                forall|j: int| 0 <= j < i ==> ks[j] != key,
            decreases self.timers.len() - i,
        {
            if self.timers[i].key == key {
                proof {
                    ks.index_of_first_ensures(key);
                    assert(ks[i as int] == key);
                }
                return Some(i);
            }
            i += 1;
        }
        proof {
            ks.index_of_first_ensures(key);
        }
        None
    }

    /// Whether a timer with this key is pending.
    pub fn contains(&self, key: TimerKey) -> (r: bool)
        ensures
            r == is_pending(self@, key),
    {
        proof {
            keys_of(self@).index_of_first_ensures(key);
        }
        self.find(key).is_some()
    }

    /// The deadline of the pending timer with this key.
    pub fn deadline(&self, key: TimerKey) -> (r: Option<u64>)
        ensures
            r == deadline_of(self@, key),
    {
        match self.find(key) {
            Some(i) => Some(self.timers[i].deadline),
            None => None,
        }
    }

    /// The deadline of the timer that falls due first.
    pub fn next_deadline(&self) -> (r: Option<u64>)
        ensures
            r == if self@.len() == 0 {
                None
            } else {
                Some(self@[0].deadline)
            },
    {
        if self.timers.len() == 0 {
            None
        } else {
            Some(self.timers[0].deadline)
        }
    }

    /// Takes the timer with this key off the wheel. Returns whether there was
    /// one.
    pub fn cancel(&mut self, key: TimerKey) -> (r: bool)
        requires
            old(self).wf(),
        ensures
            final(self).wf(),
            final(self)@ == without(old(self)@, key),
            r == is_pending(old(self)@, key),
    {
        proof {
            lemma_without(self@, key);
            keys_of(self@).index_of_first_ensures(key);
        }
        match self.find(key) {
            Some(i) => {
                let ghost before = self@;
                self.timers.remove(i);
                assert(self@ =~= before.remove(i as int));
                true
            },
            None => false,
        }
    }

    /// Schedules a timer for the instant `deadline`. A pending timer with the
    /// same key is replaced.
    pub fn insert_at(&mut self, key: TimerKey, display_name: String, deadline: u64)
        requires
            old(self).wf(),
        ensures
            final(self).wf(),
            final(self)@ == scheduled(
                old(self)@,
                TimerView { key, deadline, display_name: display_name@ },
            ),
    {
        let ghost timer = TimerView { key, deadline, display_name: display_name@ };
        let ghost before = self@;
        proof {
            lemma_scheduled(before, timer);
        }
        self.cancel(key);
        let ghost rest = self@;
        proof {
            lemma_slot(rest, deadline);
        }
        let mut i: usize = 0;
        assert(rest.skip(0) =~= rest);
        while i < self.timers.len() && self.timers[i].deadline <= deadline
            invariant
                i <= self.timers.len(),
                self@ == rest,
                slot(rest, deadline) == i + slot(rest.skip(i as int), deadline),
            decreases self.timers.len() - i,
        {
            proof {
                let tail = rest.skip(i as int);
                assert(tail[0] == rest[i as int]);
                assert(tail.drop_first() =~= rest.skip(i as int + 1));
            }
            i += 1;
        }
        proof {
            let tail = rest.skip(i as int);
            if i < rest.len() {
                assert(tail[0] == rest[i as int]);
            }
            assert(slot(tail, deadline) == 0);
        }
        self.timers.insert(i, Timer { key, deadline, display_name });
        assert(self@ =~= rest.insert(i as int, timer));
    }

    /// Schedules a timer `timeout` milliseconds after `now`. A pending timer
    /// with the same key is replaced.
    pub fn insert(&mut self, key: TimerKey, display_name: String, now: u64, timeout: u64)
        requires
            old(self).wf(),
        ensures
            final(self).wf(),
            final(self)@ == scheduled(
                old(self)@,
                TimerView { key, deadline: deadline_after(now, timeout), display_name: display_name@ },
            ),
    {
        let deadline = now.saturating_add(timeout);
        self.insert_at(key, display_name, deadline);
    }

    /// Moves the pending timer with this key to the instant `deadline`.
    /// Returns whether there was one.
    pub fn reschedule(&mut self, key: TimerKey, deadline: u64) -> (r: bool)
        requires
            old(self).wf(),
        ensures
            final(self).wf(),
            final(self)@ == rescheduled(old(self)@, key, deadline),
            r == is_pending(old(self)@, key),
    {
        proof {
            keys_of(self@).index_of_first_ensures(key);
        }
        let ghost before = self@;
        match self.find(key) {
            Some(i) => {
                let timer = self.timers.remove(i);
                assert(self@ =~= before.remove(i as int));
                proof {
                    lemma_without(before, key);
                    keys_of(self@).index_of_first_ensures(key);
                    assert(without(self@, key) == self@);
                    assert(timer@ == before[i as int]);
                }
                self.insert_at(key, timer.display_name, deadline);
                true
            },
            None => false,
        }
    }

    /// Takes the first timer off the wheel if it has fallen due at `now`. The
    /// timer that comes out is due no later than any that stays.
    pub fn pop_expired(&mut self, now: u64) -> (r: Option<Timer>)
        requires
            old(self).wf(),
        ensures
            final(self).wf(),
            match r {
                Some(timer) => {
                    &&& old(self)@.len() > 0
                    &&& timer@ == old(self)@[0]
                    &&& timer.deadline <= now
                    &&& final(self)@ == old(self)@.drop_first()
                    &&& forall|i: int|
                        0 <= i < final(self)@.len() ==> timer.deadline <= (
                        #[trigger] final(self)@[i]).deadline
                },
                None => {
                    &&& final(self)@ == old(self)@
                    &&& forall|i: int| 0 <= i < old(self)@.len() ==> (#[trigger] old(self)@[i]).deadline > now
                },
            },
    {
        let ghost before = self@;
        if self.timers.len() > 0 && self.timers[0].deadline <= now {
            proof {
                lemma_front_is_earliest(before);
            }
            let timer = self.timers.remove(0);
            assert(self@ =~= before.drop_first());
            assert forall|i: int| 0 <= i < self@.len() implies timer.deadline <= (
            #[trigger] self@[i]).deadline by {
                assert(self@[i] == before[i + 1]);
            }
            Some(timer)
        } else {
            assert forall|i: int| 0 <= i < before.len() implies (#[trigger] before[i]).deadline
                > now by {
                assert(before[0].deadline <= before[i].deadline);
            }
            None
        }
    }

    /// Takes every timer off the wheel that has fallen due at `now`, and
    /// returns them in due order.
    pub fn pop_all_expired(&mut self, now: u64) -> (r: Vec<Timer>)
        requires
            old(self).wf(),
        ensures
            final(self).wf(),
            r@.map_values(|t: Timer| t@) == due(old(self)@, now),
            final(self)@ == upcoming(old(self)@, now),
    {
        let ghost before = self@;
        let mut r: Vec<Timer> = Vec::new();
        proof {
            assert(r@.map_values(|t: Timer| t@) + self@ =~= before);
        }
        loop
            invariant
                self.wf(),
                wheel_wf(before),
                r@.map_values(|t: Timer| t@) + self@ == before,
                forall|i: int| 0 <= i < r@.len() ==> (#[trigger] r@[i]).deadline <= now,
            ensures
                self.wf(),
                r@.map_values(|t: Timer| t@) + self@ == before,
                forall|i: int| 0 <= i < r@.len() ==> (#[trigger] r@[i]).deadline <= now,
                forall|i: int| 0 <= i < self@.len() ==> (#[trigger] self@[i]).deadline > now,
            decreases self@.len(),
        {
            let ghost taken = r@.map_values(|t: Timer| t@);
            let ghost left = self@;
            match self.pop_expired(now) {
                Some(timer) => {
                    r.push(timer);
                    proof {
                        assert(r@.map_values(|t: Timer| t@) =~= taken.push(timer@));
                        assert(taken.push(left[0]) + left.drop_first() =~= taken + left);
                    }
                },
                None => {
                    break ;
                },
            }
        }
        proof {
            let taken = r@.map_values(|t: Timer| t@);
            lemma_slot(before, now);
            let at = slot(before, now);
            let n = taken.len() as int;
            assert(forall|i: int| 0 <= i < n ==> #[trigger] before[i] == taken[i]);
            assert(forall|i: int| 0 <= i < self@.len() ==> #[trigger] before[i + n] == self@[i]);
            if at < n {
                assert(before[at] == taken[at]);
                assert(r@[at].deadline <= now);
            }
            if at > n {
                assert(before[n] == self@[0]);
            }
            assert(taken =~= due(before, now));
            assert(self@ =~= upcoming(before, now));
        }
        r
    }
}

} // verus!
