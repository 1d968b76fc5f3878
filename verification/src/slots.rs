//! How many matches a node runs at once.

use crate::types::NodeAssignment;
use vstd::prelude::*;

verus! {

/// The number of matches that run, and the most that may.
#[derive(Debug)]
pub struct MatchSlots {
    pub active: u32,
    pub max_concurrent: u32,
}

/// What happens to the slots: a match asks for one, or a match gives one back.
pub enum SlotOp {
    Acquire,
    Release,
}

/// The number of running matches after one more operation. A slot is granted only while fewer
/// matches run than may; giving one back when none is taken wraps around.
pub open spec fn slots_after_op(active: u32, max: u32, op: SlotOp) -> u32 {
    match op {
        SlotOp::Acquire => if active < max {
            (active + 1) as u32
        } else {
            active
        },
        SlotOp::Release => if active > 0 {
            (active - 1) as u32
        } else {
            u32::MAX
        },
    }
}

/// How many of `wanted` matches can be started.
pub open spec fn startable(active: u32, max: u32, wanted: nat) -> nat {
    if active >= max {
        0
    } else if wanted <= max - active {
        wanted
    } else {
        (max - active) as nat
    }
}

impl MatchSlots {
    /// Slots for `max_concurrent` matches, none of them taken.
    pub fn new(max_concurrent: u32) -> (r: Self)
        ensures
            r.active == 0,
            r.max_concurrent == max_concurrent,
    {
        MatchSlots { active: 0, max_concurrent }
    }

    /// Whether no further match can be started.
    pub fn is_full(&self) -> (r: bool)
        ensures
            r == (self.active >= self.max_concurrent),
    {
        self.active >= self.max_concurrent
    }

    /// Takes a slot, if one is free, before a match is started; tells whether it did.
    pub fn try_acquire(&mut self) -> (r: bool)
        ensures
            r == (old(self).active < old(self).max_concurrent),
            final(self).active == slots_after_op(
                old(self).active,
                old(self).max_concurrent,
                SlotOp::Acquire,
            ),
            final(self).max_concurrent == old(self).max_concurrent,
    {
        if self.active >= self.max_concurrent {
            return false;
        }
        self.active = self.active + 1;
        true
    }

    /// Gives back the slot of a match that is over.
    pub fn release(&mut self)
        ensures
            final(self).active == slots_after_op(
                old(self).active,
                old(self).max_concurrent,
                SlotOp::Release,
            ),
            final(self).max_concurrent == old(self).max_concurrent,
    {
        self.active = self.active.wrapping_sub(1);
    }

    /// Takes slots for as many of `assignments` as there are free ones, in their order, and
    /// returns those that got one.
    pub fn reserve(&mut self, assignments: Vec<NodeAssignment>) -> (r: Vec<NodeAssignment>)
        ensures
            r@ == assignments@.take(
                startable(
                    old(self).active,
                    old(self).max_concurrent,
                    assignments@.len(),
                ) as int,
            ),
            final(self).active == old(self).active + r@.len(),
            final(self).max_concurrent == old(self).max_concurrent,
    {
        let mut accepted: Vec<NodeAssignment> = assignments;
        let mut n: usize = 0;
        while n < accepted.len()
            invariant_except_break
                n <= accepted.len(),
                accepted@ == assignments@,
                self.active == old(self).active + n,
                self.max_concurrent == old(self).max_concurrent,
                n > 0 ==> self.active <= self.max_concurrent,
            ensures
                n <= accepted.len(),
                accepted@ == assignments@,
                self.active == old(self).active + n,
                self.max_concurrent == old(self).max_concurrent,
                n == startable(
                    old(self).active,
                    old(self).max_concurrent,
                    assignments@.len(),
                ),
            decreases accepted.len() - n,
        {
            if !self.try_acquire() {
                break ;
            }
            n = n + 1;
        }
        accepted.truncate(n);
        accepted
    }
}

/// The number of running matches after a sequence of operations.
pub open spec fn slots_after(active: u32, max: u32, ops: Seq<SlotOp>) -> u32
    decreases ops.len(),
{
    if ops.len() == 0 {
        active
    } else {
        slots_after_op(slots_after(active, max, ops.drop_last()), max, ops.last())
    }
}

/// Whether only slots that were granted before are given back.
pub open spec fn gives_back_its_own(active: u32, max: u32, ops: Seq<SlotOp>) -> bool
    decreases ops.len(),
{
    ops.len() > 0 ==> {
        &&& gives_back_its_own(active, max, ops.drop_last())
        &&& ops.last() is Release ==> slots_after(active, max, ops.drop_last()) > 0
    }
}

/// How many slots a sequence of operations was granted.
pub open spec fn grants(active: u32, max: u32, ops: Seq<SlotOp>) -> nat
    decreases ops.len(),
{
    if ops.len() == 0 {
        0
    } else {
        let before = ops.drop_last();
        grants(active, max, before) + if ops.last() is Acquire && slots_after(active, max, before)
            < max {
            1nat
        } else {
            0nat
        }
    }
}

/// How many slots a sequence of operations gives back.
pub open spec fn releases(ops: Seq<SlotOp>) -> nat
    decreases ops.len(),
{
    if ops.len() == 0 {
        0
    } else {
        releases(ops.drop_last()) + if ops.last() is Release {
            1nat
        } else {
            0nat
        }
    }
}

/// Law: the node is never overcommitted. In whatever order matches ask for slots and give them
/// back, never more of them run than may, the number that runs is that of the slots granted and
/// not given back, and so none is taken once all are given back.
pub proof fn never_overcommitted(max: u32, ops: Seq<SlotOp>)
    requires
        gives_back_its_own(0, max, ops),
    ensures
        slots_after(0, max, ops) <= max,
        slots_after(0, max, ops) == grants(0, max, ops) - releases(ops),
        grants(0, max, ops) == releases(ops) ==> slots_after(0, max, ops) == 0,
    decreases ops.len(),
{
    if ops.len() > 0 {
        never_overcommitted(max, ops.drop_last());
    }
}

/// A sequence of `n` requests for a slot.
pub open spec fn requests(n: nat) -> Seq<SlotOp> {
    Seq::new(n, |i: int| SlotOp::Acquire)
}

/// Law: taking slots for several matches at once comes to the same as asking for them one by
/// one, so the node is not overcommitted by it either.
pub proof fn reserving_is_asking_one_by_one(active: u32, max: u32, wanted: nat)
    ensures
        slots_after(active, max, requests(wanted)) == active + startable(active, max, wanted),
        grants(active, max, requests(wanted)) == startable(active, max, wanted),
    decreases wanted,
{
    if wanted > 0 {
        reserving_is_asking_one_by_one(active, max, (wanted - 1) as nat);
        assert(requests(wanted).drop_last() =~= requests((wanted - 1) as nat));
    }
}

/// Law: a refused request leaves no trace, and a slot that was taken and given back leaves the
/// number of running matches as it was.
pub proof fn refusals_and_returns_leave_no_trace(active: u32, max: u32)
    ensures
        active >= max ==> slots_after_op(active, max, SlotOp::Acquire) == active,
        active < max ==> slots_after_op(
            slots_after_op(active, max, SlotOp::Acquire),
            max,
            SlotOp::Release,
        ) == active,
{
}

} // verus!
