//! Session-scoped deadlines. A kernel arms a watchdog for some milliseconds and
//! must clear it before the time is up; the session polls `expired` on every
//! pass while a kernel runs.

use vstd::prelude::*;

verus! {

/// How many watchdogs one session can have armed at a time.
pub const MAX_WATCHDOGS: usize = 16;

/// One slot of the set. An armed slot remembers when it was armed and for how
/// long, so that its deadline, the sum of the two, never has to fit a machine word.
#[derive(Clone, Copy, Debug, PartialEq, Eq)]
pub struct Watchdog {
    pub active: bool,
    pub armed_at: u64,
    pub interval: u64,
}

impl Watchdog {
    /// The deadline of an armed slot in milliseconds, `None` for a free one.
    pub open spec fn deadline(self) -> Option<int> {
        if self.active {
            Some(self.armed_at + self.interval)
        } else {
            None
        }
    }
}

/// The deadlines of one session, by slot.
#[derive(Clone, Copy, Debug, PartialEq, Eq)]
pub struct WatchdogSet {
    pub watchdogs: [Watchdog; 16],
}

/// Slot `id` of `slots` is armed.
pub open spec fn armed(slots: Seq<Option<int>>, id: int) -> bool {
    0 <= id < slots.len() && slots[id] is Some
}

/// The lowest free slot of `slots`, or `slots.len()` where every slot is armed.
pub open spec fn lowest_free(slots: Seq<Option<int>>) -> int
    decreases slots.len(),
{
    if slots.len() == 0 {
        0
    } else if slots[0] is None {
        0
    } else {
        1 + lowest_free(slots.subrange(1, slots.len() as int))
    }
}

/// Every slot of `slots` is armed.
pub open spec fn full(slots: Seq<Option<int>>) -> bool {
    forall|j: int| 0 <= j < slots.len() ==> (#[trigger] slots[j]) is Some
}

/// Some armed deadline of `slots` is at or before `now`.
pub open spec fn expired_at(slots: Seq<Option<int>>, now: int) -> bool {
    exists|j: int| 0 <= j < slots.len() && (#[trigger] slots[j]) is Some && slots[j]->0 <= now
}

/// `slots` after arming the lowest free slot at `now` for `ms` milliseconds;
/// unchanged where the set is full.
pub open spec fn after_set(slots: Seq<Option<int>>, now: int, ms: int) -> Seq<Option<int>> {
    if full(slots) {
        slots
    } else {
        slots.update(lowest_free(slots), Some(now + ms))
    }
}

/// `slots` after clearing slot `id`; unchanged where there is no such slot.
pub open spec fn after_clear(slots: Seq<Option<int>>, id: int) -> Seq<Option<int>> {
    if 0 <= id < slots.len() {
        slots.update(id, None)
    } else {
        slots
    }
}

/// The lowest free slot is a slot, is free, and has only armed slots below it.
pub proof fn lemma_lowest_free(slots: Seq<Option<int>>)
    ensures
        0 <= lowest_free(slots) <= slots.len(),
        lowest_free(slots) < slots.len() ==> slots[lowest_free(slots)] is None,
        forall|j: int| 0 <= j < lowest_free(slots) ==> (#[trigger] slots[j]) is Some,
        lowest_free(slots) == slots.len() <==> full(slots),
    decreases slots.len(),
{
    if slots.len() != 0 && slots[0] is Some {
        let rest = slots.subrange(1, slots.len() as int);
        lemma_lowest_free(rest);
        assert forall|j: int| 0 <= j < lowest_free(slots) implies (#[trigger] slots[j]) is Some by {
            if j > 0 {
                assert(rest[j - 1] is Some);
            }
        }
        if full(rest) {
            assert forall|j: int| 0 <= j < slots.len() implies (#[trigger] slots[j]) is Some by {
                if j > 0 {
                    assert(rest[j - 1] is Some);
                }
            }
        }
        if full(slots) {
            assert forall|j: int| 0 <= j < rest.len() implies (#[trigger] rest[j]) is Some by {
                assert(slots[j + 1] is Some);
            }
        }
    }
}

/// One operation on a set of watchdogs.
pub enum WatchdogOp {
    /// Arm the lowest free slot at `now` for `ms` milliseconds.
    Arm { now: int, ms: int },
    /// Free slot `id`.
    Clear { id: int },
}

/// `slots` after `op`.
pub open spec fn after_op(slots: Seq<Option<int>>, op: WatchdogOp) -> Seq<Option<int>> {
    match op {
        WatchdogOp::Arm { now, ms } => after_set(slots, now, ms),
        WatchdogOp::Clear { id } => after_clear(slots, id),
    }
}

/// `slots` after the operations `ops`, first to last.
pub open spec fn after_ops(slots: Seq<Option<int>>, ops: Seq<WatchdogOp>) -> Seq<Option<int>>
    decreases ops.len(),
{
    if ops.len() == 0 {
        slots
    } else {
        after_ops(after_op(slots, ops[0]), ops.subrange(1, ops.len() as int))
    }
}

/// A watchdog that is armed stays armed, with its deadline, through every
/// operation that does not clear it; so from its deadline on the set counts
/// as expired, whatever else was armed or cleared in the meantime.
pub proof fn lemma_armed_until_cleared(
    slots: Seq<Option<int>>,
    ops: Seq<WatchdogOp>,
    id: int,
    now: int,
)
    requires
        armed(slots, id),
        forall|k: int| 0 <= k < ops.len() ==> ops[k] != (WatchdogOp::Clear { id }),
    ensures
        after_ops(slots, ops).len() == slots.len(),
        after_ops(slots, ops)[id] == slots[id],
        slots[id]->0 <= now ==> expired_at(after_ops(slots, ops), now),
    decreases ops.len(),
{
    if ops.len() == 0 {
        assert(after_ops(slots, ops) == slots);
    } else {
        let next = after_op(slots, ops[0]);
        let rest = ops.subrange(1, ops.len() as int);
        lemma_lowest_free(slots);
        assert(ops[0] != (WatchdogOp::Clear { id }));
        assert(next.len() == slots.len() && next[id] == slots[id]);
        assert forall|k: int| 0 <= k < rest.len() implies rest[k] != (WatchdogOp::Clear { id }) by {
            assert(rest[k] == ops[k + 1]);
        }
        lemma_armed_until_cleared(next, rest, id, now);
    }
    if slots[id]->0 <= now {
        let end = after_ops(slots, ops);
        assert(end[id] is Some && end[id]->0 <= now);
    }
}

/// Arming a watchdog on a full set changes nothing.
pub proof fn lemma_full_set_refuses(slots: Seq<Option<int>>, now: int, ms: int)
    requires
        full(slots),
    ensures
        after_set(slots, now, ms) == slots,
{
}

impl View for WatchdogSet {
    type V = Seq<Option<int>>;

    /// The deadline of each slot in milliseconds, `None` where the slot is free.
    open spec fn view(&self) -> Seq<Option<int>> {
        Seq::new(16, |i: int| self.watchdogs[i].deadline())
    }
}

impl WatchdogSet {
    /// A set with every slot free.
    pub fn new() -> (set: WatchdogSet)
        ensures
            set@ == Seq::new(16, |i: int| None::<int>),
    {
        WatchdogSet { watchdogs: [Watchdog { active: false, armed_at: 0, interval: 0 }; 16] }
    }

    /// Arms the lowest free slot to expire `ms` milliseconds after `now` and
    /// returns its number; fails, changing nothing, when every slot is armed.
    pub fn set_ms(&mut self, now: u64, ms: u64) -> (result: Result<usize, ()>)
        ensures
            final(self)@ == after_set(old(self)@, now as int, ms as int),
            result is Err <==> full(old(self)@),
            result is Ok ==> result->Ok_0 == lowest_free(old(self)@),
    {
        let mut index: usize = 0;
        while index < MAX_WATCHDOGS
            invariant
                index <= MAX_WATCHDOGS,
                *self == *old(self),
                forall|j: int| 0 <= j < index ==> (#[trigger] self@[j]) is Some,
            decreases MAX_WATCHDOGS - index,
        {
            if !self.watchdogs[index].active {
                proof {
                    lemma_lowest_free(self@);
                    assert(self@[index as int] is None);
                }
                self.watchdogs[index] = Watchdog { active: true, armed_at: now, interval: ms };
                assert(self@ =~= old(self)@.update(index as int, Some(now + ms)));
                return Ok(index);
            }
            assert(self@[index as int] is Some);
            index += 1;
        }
        proof {
            lemma_lowest_free(self@);
        }
        Err(())
    }

    /// Frees slot `id`; does nothing where `id` names no slot.
    pub fn clear(&mut self, id: usize)
        ensures
            final(self)@ == after_clear(old(self)@, id as int),
    {
        if id < MAX_WATCHDOGS {
            self.watchdogs[id] = Watchdog { active: false, armed_at: 0, interval: 0 };
            assert(self@ =~= old(self)@.update(id as int, None));
        }
    }

    /// Whether some armed deadline is at or before `now`.
    pub fn expired(&self, now: u64) -> (result: bool)
        ensures
            result == expired_at(self@, now as int),
    {
        let mut index: usize = 0;
        while index < MAX_WATCHDOGS
            invariant
                index <= MAX_WATCHDOGS,
                forall|j: int| 0 <= j < index ==> !((#[trigger] self@[j]) is Some && self@[j]->0 <= now),
            decreases MAX_WATCHDOGS - index,
        {
            let watchdog = self.watchdogs[index];
            if watchdog.active && now >= watchdog.armed_at && now - watchdog.armed_at >= watchdog.interval {
                assert(self@[index as int] is Some && self@[index as int]->0 <= now);
                return true;
            }
            assert(!(self@[index as int] is Some && self@[index as int]->0 <= now));
            index += 1;
        }
        false
    }
}

} // verus!
