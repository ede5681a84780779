//! The worker lifecycle and request channel, as one state machine:
//!
//! `Starting -> Accepting -> Draining -> Reclaiming -> Terminated`.
//!
//! `Accepting` is the only state in which a request can be enqueued.
//! Disposal closes the channel (`Draining`), the dispatch loop finishes
//! the buffered messages and exits (`Reclaiming`), and the termination
//! signal fires only once no spawned task still holds the engine
//! (`Terminated`). No transition skips a state: every phase-changing
//! step moves to the immediately following phase.
//!
//! Each buffered or in-flight message carries the index of its reply
//! slot; the count of spawned, unfinished tasks stands for the engine
//! references held beside the worker's own.

use vstd::prelude::*;

use crate::engine::EngineState;
use crate::instance::RRORequest;
use crate::instance::RROResult;
use crate::reply_slot::abandon_spec;
use crate::reply_slot::take_spec;
use crate::reply_slot::write_spec;
use crate::reply_slot::ReplySlot;
use crate::reply_slot::SlotState;

verus! {

/// The lifecycle phase of the worker, as the handle observes it.
#[derive(Clone, Copy, Debug, PartialEq, Eq, Structural)]
pub enum Phase {
    /// The engine is being constructed; the loop has not started.
    Starting,
    /// The loop runs and the channel accepts requests.
    Accepting,
    /// The channel is closed; buffered messages are still dispatched.
    Draining,
    /// The loop has exited; the worker waits for spawned tasks to
    /// release the engine.
    Reclaiming,
    /// The engine was released and the termination signal has fired.
    Terminated,
}

/// The position of a phase in the lifecycle order.
pub open spec fn phase_rank(p: Phase) -> int {
    match p {
        Phase::Starting => 0,
        Phase::Accepting => 1,
        Phase::Draining => 2,
        Phase::Reclaiming => 3,
        Phase::Terminated => 4,
    }
}

/// One unit of the channel: a request paired with the index of its
/// reply slot.
#[derive(Debug)]
pub struct Message {
    pub slot: usize,
    pub request: RRORequest,
}

/// What the channel reports for one send attempt.
#[derive(Clone, Copy, Debug, PartialEq, Eq, Structural)]
pub enum SendOutcome {
    /// The message was buffered; the caller waits on this slot.
    Queued(usize),
    /// The buffer is at capacity; the sender must wait and retry.
    Full,
    /// The channel is closed; the instance no longer accepts work.
    Closed,
}

/// The bridge between one handle and its worker: the channel buffer,
/// the reply slots, the task count and the engine, in one place.
#[derive(Debug)]
pub struct Bridge {
    /// Lifecycle phase.
    pub phase: Phase,
    /// Capacity of the bounded channel buffer.
    pub capacity: usize,
    /// Buffered messages, oldest first.
    pub queue: Vec<Message>,
    /// Spawned request tasks that have not yet finished; each holds an
    /// engine reference beside the worker's own.
    pub tasks: usize,
    /// Every reply slot ever created, indexed by the messages.
    pub slots: Vec<ReplySlot>,
    /// The engine the worker owns.
    pub engine: EngineState,
    /// Whether the one-shot termination signal has fired.
    pub terminated: bool,
}

impl Bridge {
    /// The bridge invariant.
    pub open spec fn wf(self) -> bool {
        &&& self.capacity >= 1
        &&& self.queue@.len() <= self.capacity
        &&& self.tasks + self.queue@.len() <= self.slots@.len()
        &&& forall|i: int|
            0 <= i < self.queue@.len() ==> (#[trigger] self.queue@[i]).slot < self.slots@.len()
        &&& self.terminated <==> self.phase is Terminated
        &&& self.phase is Terminated ==> self.tasks == 0 && self.queue@.len() == 0
        &&& self.phase is Reclaiming ==> self.queue@.len() == 0
        &&& self.phase is Starting ==> self.tasks == 0 && self.queue@.len() == 0
        &&& self.engine.wf()
    }

    /// A fresh bridge: still starting, nothing buffered, no task, the
    /// signal not fired.
    pub fn new(capacity: usize, engine: EngineState) -> (b: Bridge)
        requires
            capacity >= 1,
            engine.wf(),
        ensures
            b.wf(),
            b.phase is Starting,
            b.capacity == capacity,
            b.queue@.len() == 0,
            b.tasks == 0,
            b.slots@.len() == 0,
            b.engine == engine,
            !b.terminated,
    {
        Bridge {
            phase: Phase::Starting,
            capacity,
            queue: Vec::new(),
            tasks: 0,
            slots: Vec::new(),
            engine,
            terminated: false,
        }
    }

    /// The engine is fully constructed: the loop starts accepting.
    /// Moves one phase forward, from `Starting` to `Accepting`.
    pub fn begin_accepting(&mut self)
        requires
            old(self).wf(),
            old(self).phase is Starting,
        ensures
            final(self).wf(),
            *final(self) == (Bridge { phase: Phase::Accepting, ..*old(self) }),
            phase_rank(final(self).phase) == phase_rank(old(self).phase) + 1,
    {
        self.phase = Phase::Accepting;
    }

    /// Try to enqueue one request, creating its reply slot.
    pub fn try_send(&mut self, req: RRORequest) -> (r: SendOutcome)
        requires
            old(self).wf(),
        ensures
            final(self).wf(),
            sent_from(*old(self), req, *final(self), r),
    {
        if !matches!(self.phase, Phase::Accepting) {
            return SendOutcome::Closed;
        }
        if self.queue.len() == self.capacity {
            return SendOutcome::Full;
        }
        let id = self.slots.len();
        self.slots.push(ReplySlot::new());
        self.queue.push(Message { slot: id, request: req });
        SendOutcome::Queued(id)
    }

    /// The dispatch loop receives the oldest buffered message and
    /// spawns a task for it; the task takes an engine reference.
    pub fn spawn_next(&mut self) -> (m: Option<Message>)
        requires
            old(self).wf(),
        ensures
            final(self).wf(),
            spawned_from(*old(self), *final(self), m),
    {
        let receiving = matches!(self.phase, Phase::Accepting) || matches!(
            self.phase,
            Phase::Draining,
        );
        if receiving && self.queue.len() > 0 {
            let m = self.queue.remove(0);
            let slot_count = self.slots.len();
            proof {
                assert(self.tasks < slot_count);
            }
            self.tasks = self.tasks + 1;
            Some(m)
        } else {
            None
        }
    }

    /// A spawned task finished: it writes its outcome into its reply
    /// slot and releases its engine reference. A write into a slot whose
    /// reader gave up is discarded and reported, never an error.
    pub fn finish_task(&mut self, slot: usize, res: RROResult) -> (delivered: bool)
        requires
            old(self).wf(),
            slot < old(self).slots@.len(),
            old(self).tasks >= 1,
        ensures
            final(self).wf(),
            finished_from(*old(self), slot as int, res, *final(self), delivered),
    {
        let mut s = self.slots.remove(slot);
        let delivered = s.write(res);
        self.slots.insert(slot, s);
        self.tasks = self.tasks - 1;
        proof {
            assert(self.slots@ =~= old(self).slots@.update(
                slot as int,
                ReplySlot { state: write_spec(old(self).slots@[slot as int].state, res).0 },
            ));
        }
        delivered
    }

    /// The waiting caller takes the reply out of its slot, if one is
    /// there.
    pub fn take_reply(&mut self, slot: usize) -> (r: Option<RROResult>)
        requires
            old(self).wf(),
            slot < old(self).slots@.len(),
        ensures
            final(self).wf(),
            took_from(*old(self), slot as int, *final(self), r),
    {
        let mut s = self.slots.remove(slot);
        let r = s.take();
        self.slots.insert(slot, s);
        proof {
            assert(self.slots@ =~= old(self).slots@.update(
                slot as int,
                ReplySlot { state: take_spec(old(self).slots@[slot as int].state).0 },
            ));
        }
        r
    }

    /// The waiting caller gives up on its slot (timeout or drop). Any
    /// outcome already there, or written later, is discarded.
    pub fn abandon_reply(&mut self, slot: usize)
        requires
            old(self).wf(),
            slot < old(self).slots@.len(),
        ensures
            final(self).wf(),
            abandoned_from(*old(self), slot as int, *final(self)),
    {
        let mut s = self.slots.remove(slot);
        s.abandon();
        self.slots.insert(slot, s);
        proof {
            assert(self.slots@ =~= old(self).slots@.update(
                slot as int,
                ReplySlot { state: abandon_spec(old(self).slots@[slot as int].state) },
            ));
        }
    }

    /// Disposal begins: close the channel. From `Accepting` this moves
    /// one phase forward, to `Draining`; in any other phase it changes
    /// nothing, so a second disposal attempt is a no-op.
    pub fn close(&mut self)
        requires
            old(self).wf(),
        ensures
            final(self).wf(),
            closed_from(*old(self), *final(self)),
            old(self).phase is Accepting ==> phase_rank(final(self).phase) == phase_rank(
                old(self).phase,
            ) + 1,
            !(old(self).phase is Accepting) ==> *final(self) == *old(self),
    {
        if matches!(self.phase, Phase::Accepting) {
            self.phase = Phase::Draining;
        }
    }

    /// The channel is closed and drained: the dispatch loop exits.
    /// From `Draining` with an empty buffer this moves one phase
    /// forward, to `Reclaiming`; otherwise it changes nothing.
    pub fn finish_draining(&mut self)
        requires
            old(self).wf(),
        ensures
            final(self).wf(),
            drained_from(*old(self), *final(self)),
            old(self).phase is Draining && old(self).queue@.len() == 0 ==> phase_rank(
                final(self).phase,
            ) == phase_rank(old(self).phase) + 1,
            !(old(self).phase is Draining && old(self).queue@.len() == 0) ==> *final(self) == *old(
                self,
            ),
    {
        if matches!(self.phase, Phase::Draining) && self.queue.len() == 0 {
            self.phase = Phase::Reclaiming;
        }
    }

    /// One reclamation attempt: it succeeds exactly when no spawned
    /// task still holds an engine reference, and only then fires the
    /// one-shot termination signal and moves one phase forward, to
    /// `Terminated`.
    pub fn try_reclaim(&mut self) -> (ok: bool)
        requires
            old(self).wf(),
        ensures
            final(self).wf(),
            reclaimed_from(*old(self), *final(self), ok),
            ok ==> phase_rank(final(self).phase) == phase_rank(old(self).phase) + 1,
            !ok ==> *final(self) == *old(self),
    {
        if matches!(self.phase, Phase::Reclaiming) && self.tasks == 0 {
            self.phase = Phase::Terminated;
            self.terminated = true;
            true
        } else {
            false
        }
    }

    /// Whether the send endpoint is open: a liveness signal only, not a
    /// confirmation that the worker makes progress.
    pub fn is_open(&self) -> (r: bool)
        ensures
            r == (self.phase is Accepting),
    {
        matches!(self.phase, Phase::Accepting)
    }
}

/// The send transition: refused on a closed channel, refused with
/// backpressure on a full buffer, and otherwise it appends one fresh
/// empty slot and one message carrying that slot.
pub open spec fn sent_from(b0: Bridge, req: RRORequest, b1: Bridge, r: SendOutcome) -> bool {
    if !(b0.phase is Accepting) {
        &&& r == SendOutcome::Closed
        &&& b1 == b0
    } else if b0.queue@.len() == b0.capacity {
        &&& r == SendOutcome::Full
        &&& b1 == b0
    } else {
        &&& r matches SendOutcome::Queued(id)
        &&& r matches SendOutcome::Queued(id) ==> {
            &&& id == b0.slots@.len()
            &&& b1.slots@ == b0.slots@.push(ReplySlot { state: SlotState::Empty })
            &&& b1.queue@ == b0.queue@.push(Message { slot: id, request: req })
            &&& b1.phase == b0.phase
            &&& b1.capacity == b0.capacity
            &&& b1.tasks == b0.tasks
            &&& b1.engine == b0.engine
            &&& b1.terminated == b0.terminated
        }
    }
}

/// The receive transition: while the loop runs and the buffer is not
/// empty, the oldest message leaves the buffer and one more task runs.
pub open spec fn spawned_from(b0: Bridge, b1: Bridge, m: Option<Message>) -> bool {
    if (b0.phase is Accepting || b0.phase is Draining) && b0.queue@.len() > 0 {
        &&& m == Some(b0.queue@[0])
        &&& b1.queue@ == b0.queue@.remove(0)
        &&& b1.tasks == b0.tasks + 1
        &&& b1.phase == b0.phase
        &&& b1.capacity == b0.capacity
        &&& b1.slots == b0.slots
        &&& b1.engine == b0.engine
        &&& b1.terminated == b0.terminated
    } else {
        &&& m is None
        &&& b1 == b0
    }
}

/// The completion transition: the task's outcome goes through the
/// single-use slot discipline and the task count drops by one.
pub open spec fn finished_from(
    b0: Bridge,
    slot: int,
    res: RROResult,
    b1: Bridge,
    delivered: bool,
) -> bool {
    &&& b1.slots@ == b0.slots@.update(
        slot,
        ReplySlot { state: write_spec(b0.slots@[slot].state, res).0 },
    )
    &&& delivered == write_spec(b0.slots@[slot].state, res).1
    &&& b1.tasks == b0.tasks - 1
    &&& b1.phase == b0.phase
    &&& b1.capacity == b0.capacity
    &&& b1.queue == b0.queue
    &&& b1.engine == b0.engine
    &&& b1.terminated == b0.terminated
}

/// The read transition of a reply slot.
pub open spec fn took_from(b0: Bridge, slot: int, b1: Bridge, r: Option<RROResult>) -> bool {
    &&& b1.slots@ == b0.slots@.update(
        slot,
        ReplySlot { state: take_spec(b0.slots@[slot].state).0 },
    )
    &&& r == take_spec(b0.slots@[slot].state).1
    &&& b1.phase == b0.phase
    &&& b1.capacity == b0.capacity
    &&& b1.queue == b0.queue
    &&& b1.tasks == b0.tasks
    &&& b1.engine == b0.engine
    &&& b1.terminated == b0.terminated
}

/// The abandonment transition of a reply slot.
pub open spec fn abandoned_from(b0: Bridge, slot: int, b1: Bridge) -> bool {
    &&& b1.slots@ == b0.slots@.update(
        slot,
        ReplySlot { state: abandon_spec(b0.slots@[slot].state) },
    )
    &&& b1.phase == b0.phase
    &&& b1.capacity == b0.capacity
    &&& b1.queue == b0.queue
    &&& b1.tasks == b0.tasks
    &&& b1.engine == b0.engine
    &&& b1.terminated == b0.terminated
}

/// The closing transition: from `Accepting` to `Draining`, otherwise a
/// no-op.
pub open spec fn closed_from(b0: Bridge, b1: Bridge) -> bool {
    if b0.phase is Accepting {
        b1 == (Bridge { phase: Phase::Draining, ..b0 })
    } else {
        b1 == b0
    }
}

/// The loop-exit transition: from `Draining` with an empty buffer to
/// `Reclaiming`, otherwise a no-op.
pub open spec fn drained_from(b0: Bridge, b1: Bridge) -> bool {
    if b0.phase is Draining && b0.queue@.len() == 0 {
        b1 == (Bridge { phase: Phase::Reclaiming, ..b0 })
    } else {
        b1 == b0
    }
}

/// The reclamation transition: it succeeds exactly when no task is
/// left, and only then the termination signal fires.
pub open spec fn reclaimed_from(b0: Bridge, b1: Bridge, ok: bool) -> bool {
    if b0.phase is Reclaiming && b0.tasks == 0 {
        &&& ok
        &&& b1 == (Bridge { phase: Phase::Terminated, terminated: true, ..b0 })
    } else {
        &&& !ok
        &&& b1 == b0
    }
}

/// Once disposal has begun, any subsequent send attempt is refused with
/// the closed-channel outcome and changes nothing: no new request can
/// reach the engine after the channel is closed.
pub proof fn lemma_no_send_after_close(
    b0: Bridge,
    b1: Bridge,
    b2: Bridge,
    req: RRORequest,
    r: SendOutcome,
)
    requires
        b0.wf(),
        !(b0.phase is Starting),
        closed_from(b0, b1),
        sent_from(b1, req, b2, r),
    ensures
        r == SendOutcome::Closed,
        b2 == b1,
        !(b1.phase is Accepting),
{
}

/// Reclamation never succeeds while a spawned task still holds an
/// engine reference, and the termination signal does not fire.
pub proof fn lemma_reclaim_waits_for_tasks(b0: Bridge, b1: Bridge, ok: bool)
    requires
        b0.wf(),
        b0.tasks > 0,
        reclaimed_from(b0, b1, ok),
    ensures
        !ok,
        b1 == b0,
        !b1.terminated,
{
}

/// Whenever the termination signal has fired, every spawned task has
/// completed and the buffer is empty: the engine is unshared.
pub proof fn lemma_signal_implies_quiescent(b: Bridge)
    requires
        b.wf(),
        b.terminated,
    ensures
        b.tasks == 0,
        b.queue@.len() == 0,
        b.phase is Terminated,
{
}

/// Immediately after the channel is closed the handle reports
/// unhealthy, even while the worker is still draining.
pub proof fn lemma_unhealthy_after_close(b0: Bridge, b1: Bridge)
    requires
        b0.wf(),
        closed_from(b0, b1),
    ensures
        !(b1.phase is Accepting),
{
}

/// Timeout independence: when the waiting caller has given up on its
/// slot and the handling task later completes, the task's outcome is
/// discarded without error — the write is reported undelivered, the
/// slot stays abandoned, and nothing else of the bridge is disturbed.
pub proof fn lemma_timeout_discards_reply(
    b0: Bridge,
    slot: int,
    b1: Bridge,
    res: RROResult,
    b2: Bridge,
    delivered: bool,
)
    requires
        b0.wf(),
        0 <= slot < b0.slots@.len(),
        !(b0.slots@[slot].state is Written),
        abandoned_from(b0, slot, b1),
        finished_from(b1, slot, res, b2, delivered),
    ensures
        !delivered || b0.slots@[slot].state is Taken,
        b0.slots@[slot].state is Empty ==> !delivered && b2.slots@[slot].state is Abandoned,
        b2.engine == b0.engine,
        b2.queue == b0.queue,
{
}

/// No transition skips a lifecycle state: every phase-changing step of
/// the bridge moves to the immediately following phase, and the
/// remaining steps leave the phase alone.
pub proof fn lemma_no_phase_is_skipped(b0: Bridge, b1: Bridge)
    requires
        b0.wf(),
        closed_from(b0, b1) || drained_from(b0, b1) || reclaimed_from(b0, b1, true)
            || reclaimed_from(b0, b1, false),
    ensures
        b1.phase == b0.phase || phase_rank(b1.phase) == phase_rank(b0.phase) + 1,
{
}

} // verus!
