//! The cooperative schedule: counters that let a task run once in so many
//! rounds of the main loop, and the slot that says which axis the timer
//! serves next.

use vstd::prelude::*;
use crate::xyz::XYZId;

verus! {

/// Lets a task run once in every 256 rounds: in the round in which the
/// counter stands at `target`.
#[derive(Clone, Copy, Debug)]
pub struct PollCounter {
    pub counter: u8,
    pub target: u8,
}

impl PollCounter {
    /// A counter that stands at zero.
    pub fn new(target: u8) -> (r: Self)
        ensures
            r.target == target,
            r.counter == 0,
    {
        Self { target, counter: 0 }
    }

    /// Counts one round. Returns the count of the round if it is the
    /// task's round. The counter starts again at zero after 255.
    pub fn poll_check(&mut self) -> (r: Option<u8>)
        ensures
            final(self).target == old(self).target,
            final(self).counter == (old(self).counter + 1) % 256,
            r == (if old(self).counter == old(self).target {
                Some(old(self).counter)
            } else {
                None
            }),
    {
        let c: u8 = self.counter;
        self.counter = if c == 255 {
            0
        } else {
            c + 1
        };
        if c == self.target {
            Some(c)
        } else {
            None
        }
    }
}

/// The slot of the timer's round robin. Each tick serves one slot: the idle
/// slot, then X, Y and Z, and so on in a circle, so that no tick advances
/// more than one axis.
#[derive(Clone, Copy, Debug)]
pub struct AxisSlot {
    pub slot: u8,
}

/// The axis that a slot serves; the slot zero and any slot above three are
/// idle.
pub open spec fn axis_of_slot(slot: u8) -> Option<XYZId> {
    if slot == 1 {
        Some(XYZId::X)
    } else if slot == 2 {
        Some(XYZId::Y)
    } else if slot == 3 {
        Some(XYZId::Z)
    } else {
        None
    }
}

/// The slot that follows `slot`.
pub open spec fn slot_after(slot: u8) -> u8 {
    if slot >= 3 {
        0
    } else {
        (slot + 1) as u8
    }
}

impl AxisSlot {
    /// The round robin before its first tick: the idle slot is served
    /// first.
    pub fn new() -> (r: Self)
        ensures
            r.slot == 0,
    {
        Self { slot: 0 }
    }

    /// Serves one tick: returns the axis of the present slot, if it has
    /// one, and moves on to the next slot.
    pub fn tick(&mut self) -> (r: Option<XYZId>)
        ensures
            r == axis_of_slot(old(self).slot),
            final(self).slot == slot_after(old(self).slot),
    {
        let now: u8 = self.slot;
        self.slot = if now >= 3 {
            0
        } else {
            now + 1
        };
        if now == 1 {
            Some(XYZId::X)
        } else if now == 2 {
            Some(XYZId::Y)
        } else if now == 3 {
            Some(XYZId::Z)
        } else {
            None
        }
    }
}

/// The round robin serves every axis once in four ticks, and never the same
/// axis on two ticks in a row.
pub proof fn lemma_round_robin(slot: u8, axis: XYZId)
    requires
        slot <= 3,
    ensures
        slot_after(slot_after(slot_after(slot_after(slot)))) == slot,
        axis_of_slot(slot) == Some(axis) || axis_of_slot(slot_after(slot)) == Some(axis)
            || axis_of_slot(slot_after(slot_after(slot))) == Some(axis) || axis_of_slot(
            slot_after(slot_after(slot_after(slot))),
        ) == Some(axis),
        axis_of_slot(slot) is Some ==> axis_of_slot(slot) != axis_of_slot(slot_after(slot)),
{
}

} // verus!
