//! The reply slot: a single-use, single-producer/single-consumer handoff
//! cell correlating one request with exactly one reply. The worker holds
//! the write right; the waiting caller holds the read right. A write
//! after the first, or after the reader gave up, is a detectable no-op,
//! never a panic and never a corruption of the first result.

use vstd::prelude::*;

use crate::instance::RROResult;

verus! {

/// The lifecycle of a reply slot.
#[derive(Debug)]
pub enum SlotState {
    /// No write and no read has happened yet.
    Empty,
    /// The worker wrote this outcome; the reader has not taken it.
    Written(RROResult),
    /// The reader took the written outcome.
    Taken,
    /// The reader gave up (timeout or drop); any write is discarded.
    Abandoned,
}

/// A single-use completion cell.
#[derive(Debug)]
pub struct ReplySlot {
    pub state: SlotState,
}

/// What a write does: it fills an empty slot and reports success; on any
/// other state it changes nothing and reports failure.
pub open spec fn write_spec(s: SlotState, r: RROResult) -> (SlotState, bool) {
    if s is Empty {
        (SlotState::Written(r), true)
    } else {
        (s, false)
    }
}

/// What a take does: it consumes a written outcome; on any other state
/// it changes nothing and yields nothing.
pub open spec fn take_spec(s: SlotState) -> (SlotState, Option<RROResult>) {
    match s {
        SlotState::Written(r) => (SlotState::Taken, Some(r)),
        _ => (s, None),
    }
}

/// What abandoning does: the reader gives up; an empty or written slot
/// becomes abandoned (a written outcome is discarded), a consumed or
/// already abandoned slot is unchanged.
pub open spec fn abandon_spec(s: SlotState) -> SlotState {
    match s {
        SlotState::Empty => SlotState::Abandoned,
        SlotState::Written(_) => SlotState::Abandoned,
        _ => s,
    }
}

impl ReplySlot {
    /// A fresh, empty slot.
    pub fn new() -> (s: ReplySlot)
        ensures
            s.state is Empty,
    {
        ReplySlot { state: SlotState::Empty }
    }

    /// Write the outcome of a request. Succeeds exactly once, on the
    /// first write into an empty slot; every later attempt reports
    /// failure and leaves the slot as it was.
    pub fn write(&mut self, r: RROResult) -> (ok: bool)
        ensures
            (final(self).state, ok) == write_spec(old(self).state, r),
    {
        match self.state {
            SlotState::Empty => {
                self.state = SlotState::Written(r);
                true
            },
            _ => false,
        }
    }

    /// Take the written outcome, if one is there.
    pub fn take(&mut self) -> (r: Option<RROResult>)
        ensures
            (final(self).state, r) == take_spec(old(self).state),
    {
        let mut prior = SlotState::Taken;
        core::mem::swap(&mut prior, &mut self.state);
        match prior {
            SlotState::Written(r) => Some(r),
            other => {
                self.state = other;
                None
            },
        }
    }

    /// The reader gives up on this slot. Any outcome already written is
    /// discarded; any outcome written later is discarded by `write`.
    pub fn abandon(&mut self)
        ensures
            final(self).state == abandon_spec(old(self).state),
    {
        match self.state {
            SlotState::Empty => {
                self.state = SlotState::Abandoned;
            },
            SlotState::Written(_) => {
                self.state = SlotState::Abandoned;
            },
            _ => {},
        }
    }
}

/// The reply slot is written at most once: once a write has succeeded,
/// any further write fails and the slot still holds the first outcome.
pub proof fn lemma_at_most_one_write(s: SlotState, r1: RROResult, r2: RROResult)
    ensures
        write_spec(s, r1).1 ==> {
            let after_first = write_spec(s, r1).0;
            &&& after_first == SlotState::Written(r1)
            &&& write_spec(after_first, r2).1 == false
            &&& write_spec(after_first, r2).0 == SlotState::Written(r1)
        },
{
}

/// A write into a slot whose reader gave up is discarded without error:
/// the slot stays abandoned and the write reports failure, never a panic.
pub proof fn lemma_write_after_abandon_discards(s: SlotState, r: RROResult)
    ensures
        write_spec(abandon_spec(s), r).1 == false || s is Taken,
        (s is Empty || s is Written || s is Abandoned) ==> write_spec(
            abandon_spec(s),
            r,
        ) == (SlotState::Abandoned, false),
{
}

} // verus!
