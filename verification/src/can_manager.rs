//! CAN dispatch decisions: interrupt triage, filter pre-match, bounded
//! ingress and egress queues, and the transmit-worker checks.
//!
//! The hardware controller itself stays outside: an interrupt handler feeds
//! [`triage_notification`], a receive worker feeds [`process_raw_frame`],
//! and a transmit worker consults [`plan_transmission`] before handing a
//! frame to the controller.

use vstd::prelude::*;

verus! {

/// Capacity of the append-only filter id table.
pub const MAX_FILTERS: usize = 8;

/// Capacity of the ingress queue filled from interrupt context.
pub const RX_QUEUE_CAPACITY: usize = 32;

/// Capacity of the egress queue drained by the transmit worker.
pub const TX_QUEUE_CAPACITY: usize = 16;

/// A CAN frame: arbitration id and up to 8 data bytes.
#[derive(Debug)]
pub struct CanMessage {
    pub id: u32,
    pub data: Vec<u8>,
}

/// What the CAN controller reported to the interrupt handler.
#[derive(Debug, Clone, Copy, PartialEq, Eq, Structural)]
pub enum CanNotification {
    /// A frame was received.
    Rx,
    /// A frame finished transmitting.
    Tx,
    /// The controller signalled an error.
    Error,
}

/// What the interrupt handler must do for a notification. Interrupt context
/// may only push onto the ingress queue or raise the one-shot reset signal.
#[derive(Debug, Clone, Copy, PartialEq, Eq, Structural)]
pub enum IsrAction {
    /// Copy the frame onto the ingress queue.
    EnqueueFrame,
    /// Raise the reset-requested signal for the supervisor task.
    RequestReset,
    /// Nothing to do.
    Nothing,
}

/// Decides the interrupt handler's action: a receive notification with a
/// frame enqueues it, an error notification requests a controller reset,
/// and everything else is ignored.
pub fn triage_notification(notification: CanNotification, frame_present: bool) -> (r: IsrAction)
    ensures
        r == IsrAction::EnqueueFrame <==> (notification == CanNotification::Rx && frame_present),
        r == IsrAction::RequestReset <==> notification == CanNotification::Error,
{
    match notification {
        CanNotification::Rx => {
            if frame_present {
                IsrAction::EnqueueFrame
            } else {
                IsrAction::Nothing
            }
        },
        CanNotification::Error => IsrAction::RequestReset,
        CanNotification::Tx => IsrAction::Nothing,
    }
}

/// The append-only table of reply arbitration ids that the receive worker
/// matches incoming frames against.
#[derive(Debug)]
pub struct CanFilterTable {
    ids: Vec<u32>,
}

impl CanFilterTable {
    /// The registered ids, in registration order.
    pub closed spec fn view(&self) -> Seq<u32> {
        self.ids@
    }

    /// The table is within its capacity.
    pub closed spec fn wf(&self) -> bool {
        self.ids@.len() <= MAX_FILTERS
    }

    pub fn new() -> (r: CanFilterTable)
        ensures
            r.wf(),
            r@ == Seq::<u32>::empty(),
    {
        CanFilterTable { ids: Vec::new() }
    }

    /// Registers a reply arbitration id; fails exactly when the table is full.
    pub fn register_isotp_filter(&mut self, response_id: u32) -> (r: bool)
        requires
            old(self).wf(),
        ensures
            final(self).wf(),
            r <==> old(self)@.len() < MAX_FILTERS,
            r ==> final(self)@ == old(self)@ + seq![response_id],
            !r ==> final(self)@ == old(self)@,
    {
        if self.ids.len() < MAX_FILTERS {
            self.ids.push(response_id);
            true
        } else {
            false
        }
    }

    /// Whether a frame with arbitration id `id` passes the pre-match.
    pub fn matches_filter(&self, id: u32) -> (r: bool)
        ensures
            r == self@.contains(id),
    {
        let mut i: usize = 0;
        while i < self.ids.len()
            invariant
                i <= self.ids@.len(),
                forall|j: int| 0 <= j < i ==> self.ids@[j] != id,
            decreases self.ids@.len() - i,
        {
            if self.ids[i] == id {
                return true;
            }
            i = i + 1;
        }
        false
    }

    /// How many ids are registered.
    pub fn filter_count(&self) -> (r: usize)
        ensures
            r == self@.len(),
    {
        self.ids.len()
    }
}

/// The receive worker's handling of one raw frame from the ingress queue:
/// the frame is kept only if its declared length fits a classic CAN frame
/// and its id matches a registered filter; the data is cut to that length.
pub fn process_raw_frame(table: &CanFilterTable, id: u32, dlc: u32, raw: &[u8; 8]) -> (r: Option<
    CanMessage,
>)
    ensures
        r is Some <==> (dlc <= 8 && table@.contains(id)),
        r matches Some(m) ==> m.id == id && m.data@ == raw@.take(dlc as int),
{
    if dlc > 8 {
        return None;
    }
    if !table.matches_filter(id) {
        return None;
    }
    let data = vstd::slice::slice_to_vec(
        vstd::slice::slice_subrange(raw.as_slice(), 0, dlc as usize),
    );
    assert(data@ =~= raw@.take(dlc as int));
    Some(CanMessage { id, data })
}

/// What the transmit worker does with a frame from the egress queue.
#[derive(Debug, Clone, Copy, PartialEq, Eq, Structural)]
pub enum TxDecision {
    /// Hand the frame to the controller.
    Transmit,
    /// Refuse it: the data is not the padded 8 bytes the core always emits.
    RefusedLength,
    /// Drop it: the controller is not initialized.
    NotReady,
    /// Drop it: the controller has no free transmit slot.
    NoSlot,
}

/// Decides what to do with an outbound frame, in the order the worker
/// checks: the length invariant first, then controller readiness, then a
/// free transmit slot.
pub fn plan_transmission(frame: &CanMessage, controller_ready: bool, tx_slots_free: i32) -> (r:
    TxDecision)
    ensures
        frame.data@.len() != 8 ==> r == TxDecision::RefusedLength,
        frame.data@.len() == 8 && !controller_ready ==> r == TxDecision::NotReady,
        frame.data@.len() == 8 && controller_ready && tx_slots_free <= 0 ==> r == TxDecision::NoSlot,
        frame.data@.len() == 8 && controller_ready && tx_slots_free > 0 ==> r
            == TxDecision::Transmit,
{
    if frame.data.len() != 8 {
        TxDecision::RefusedLength
    } else if !controller_ready {
        TxDecision::NotReady
    } else if tx_slots_free <= 0 {
        TxDecision::NoSlot
    } else {
        TxDecision::Transmit
    }
}

/// A bounded FIFO of CAN frames. The ingress queue (capacity 32) is filled
/// from interrupt context and must drop rather than block when full; the
/// egress queue (capacity 16) carries frames to the transmit worker and
/// reports a full queue to the caller.
#[derive(Debug)]
pub struct CanFrameQueue {
    frames: Vec<CanMessage>,
    capacity: usize,
}

impl CanFrameQueue {
    /// The queued frames as (id, data) pairs, oldest first.
    pub closed spec fn view(&self) -> Seq<(u32, Seq<u8>)> {
        self.frames@.map(|i: int, m: CanMessage| (m.id, m.data@))
    }

    /// The queue is within its capacity.
    pub closed spec fn wf(&self) -> bool {
        self.frames@.len() <= self.capacity
    }

    /// The bound the queue was created with.
    pub closed spec fn spec_capacity(&self) -> int {
        self.capacity as int
    }

    /// An ingress queue, as the interrupt handoff uses.
    pub fn new_ingress() -> (r: CanFrameQueue)
        ensures
            r.wf(),
            r@ == Seq::<(u32, Seq<u8>)>::empty(),
            r.spec_capacity() == RX_QUEUE_CAPACITY,
    {
        CanFrameQueue { frames: Vec::new(), capacity: RX_QUEUE_CAPACITY }
    }

    /// An egress queue, as the transmit path uses.
    pub fn new_egress() -> (r: CanFrameQueue)
        ensures
            r.wf(),
            r@ == Seq::<(u32, Seq<u8>)>::empty(),
            r.spec_capacity() == TX_QUEUE_CAPACITY,
    {
        CanFrameQueue { frames: Vec::new(), capacity: TX_QUEUE_CAPACITY }
    }

    /// A queue with a chosen bound, for harnesses that force a full queue.
    pub fn with_capacity(capacity: usize) -> (r: CanFrameQueue)
        ensures
            r.wf(),
            r@ == Seq::<(u32, Seq<u8>)>::empty(),
            r.spec_capacity() == capacity,
    {
        CanFrameQueue { frames: Vec::new(), capacity }
    }

    /// Appends a frame; fails exactly when the queue is full.
    pub fn push(&mut self, frame: CanMessage) -> (r: bool)
        requires
            old(self).wf(),
        ensures
            final(self).wf(),
            final(self).spec_capacity() == old(self).spec_capacity(),
            r <==> old(self)@.len() < old(self).spec_capacity(),
            r ==> final(self)@ == old(self)@ + seq![(frame.id, frame.data@)],
            !r ==> final(self)@ == old(self)@,
    {
        if self.frames.len() < self.capacity {
            self.frames.push(frame);
            assert(self@ =~= old(self)@ + seq![(frame.id, frame.data@)]);
            true
        } else {
            false
        }
    }

    /// Removes and returns the oldest frame.
    pub fn pop(&mut self) -> (r: Option<CanMessage>)
        requires
            old(self).wf(),
        ensures
            final(self).wf(),
            final(self).spec_capacity() == old(self).spec_capacity(),
            old(self)@.len() == 0 ==> r is None && final(self)@ == old(self)@,
            old(self)@.len() > 0 ==> {
                &&& r matches Some(m) && (m.id, m.data@) == old(self)@[0]
                &&& final(self)@ == old(self)@.skip(1)
            },
    {
        if self.frames.len() == 0 {
            None
        } else {
            let m = self.frames.remove(0);
            assert(self@ =~= old(self)@.skip(1));
            Some(m)
        }
    }

    /// How many frames are queued.
    pub fn len(&self) -> (r: usize)
        ensures
            r == self@.len(),
    {
        self.frames.len()
    }
}

} // verus!
