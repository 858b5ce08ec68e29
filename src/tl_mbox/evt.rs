//! Event packet layout, the single-owner event handle, and the bounded
//! queue of handles between the interrupt handler and the application.
use crate::ipcc::Ipcc;
use crate::tl_mbox::linked_list::{ListNode, NodePool};
use crate::tl_mbox::mm::{drop_step, evt_drop, mm_frame, mm_model, mm_ready};
use vstd::prelude::*;

verus! {

/// Command-status event body.
#[derive(Clone, Copy)]
pub struct CsEvt {
    pub status: u8,
    pub numcmd: u8,
    pub cmdcode: u16,
}

/// Command-complete event body; `payload` is its first parameter byte.
#[derive(Clone, Copy)]
pub struct CcEvt {
    pub numcmd: u8,
    pub cmdcode: u16,
    pub payload: [u8; 1],
}

/// Vendor-specific event body; `payload` is its first byte.
#[derive(Clone, Copy)]
pub struct AsynchEvt {
    pub subevtcode: u16,
    pub payload: [u8; 1],
}

/// Event header: code, parameter length and the first parameter byte.
#[derive(Clone, Copy)]
pub struct Evt {
    pub evtcode: u8,
    pub plen: u8,
    pub payload: [u8; 1],
}

/// An event as it comes on the wire: kind tag, then the event.
#[derive(Clone, Copy)]
pub struct EvtSerial {
    pub kind: u8,
    pub evt: Evt,
}

/// An event buffer: list links, then the serial event.
#[derive(Clone, Copy)]
pub struct EvtPacket {
    pub header: ListNode,
    pub evtserial: EvtSerial,
}

impl EvtPacket {
    /// The kind tag of the packet.
    pub fn kind(&self) -> (r: u8)
        ensures
            r == self.evtserial.kind,
    {
        self.evtserial.kind
    }

    /// The event header of the packet.
    pub fn evt(&self) -> (r: &Evt)
        ensures
            *r == self.evtserial.evt,
    {
        &self.evtserial.evt
    }
}

/// Sole owner of one received event buffer, named by its node. It is
/// neither `Copy` nor `Clone`: it is consumed by `release`, which hands the
/// buffer back to the peer, so each buffer is returned exactly once.
pub struct EvtBox {
    node: usize,
}

impl EvtBox {
    pub closed spec fn spec_node(&self) -> usize {
        self.node
    }

    /// Takes ownership of the buffer at `node`.
    pub fn new(node: usize) -> (r: EvtBox)
        ensures
            r.spec_node() == node,
    {
        EvtBox { node }
    }

    /// The node of the owned buffer.
    pub fn node(&self) -> (r: usize)
        ensures
            r == self.spec_node(),
    {
        self.node
    }

    /// A copy of the owned packet, for inspection outside shared memory.
    pub fn evt(&self, packets: &Vec<EvtPacket>) -> (r: EvtPacket)
        requires
            self.spec_node() < packets@.len(),
        ensures
            r == packets@[self.spec_node() as int],
    {
        packets[self.node]
    }

    /// Gives the buffer back to the memory manager.
    pub fn release(self, pool: &mut NodePool, ipcc: &mut Ipcc)
        requires
            mm_ready(*old(pool)),
            old(pool).is_free(self.spec_node()),
            old(ipcc).wf(),
        ensures
            mm_frame(*old(pool), *final(pool), *old(ipcc), *final(ipcc)),
            final(pool).owner@.dom() == old(pool).owner@.dom().insert(self.spec_node()),
            mm_model(*final(pool), *final(ipcc)) == drop_step(
                mm_model(*old(pool), *old(ipcc)),
                self.spec_node(),
            ),
    {
        evt_drop(pool, ipcc, self.node);
    }
}

/// Most handles the queue holds at once. Its storage has one slot more,
/// which always stays unused.
pub const EVT_QUEUE_CAPACITY: usize = 32;

/// The bounded first-in first-out queue of received event buffers, kept in
/// a `heapless::spsc::Queue` with 33 slots.
#[verifier::external_body]
pub struct EvtQueue {
    q: heapless::spsc::Queue<usize, 33>,
}

/// The nodes held by the queue, front first.
pub uninterp spec fn evt_queue_items(q: EvtQueue) -> Seq<usize>;

/// Relies on `heapless::spsc::Queue::new`: an empty queue.
#[verifier::external_body]
fn queue_new() -> (r: EvtQueue)
    ensures
        evt_queue_items(r) == Seq::<usize>::empty(),
{
    EvtQueue { q: heapless::spsc::Queue::new() }
}

/// Relies on `heapless::spsc::Queue::enqueue`: with fewer than `N - 1`
/// items the item goes to the back; when full the item comes back and the
/// queue is unchanged.
#[verifier::external_body]
fn queue_enqueue(q: &mut EvtQueue, item: usize) -> (r: bool)
    ensures
        evt_queue_items(*old(q)).len() < EVT_QUEUE_CAPACITY ==> r && evt_queue_items(*final(q))
            == evt_queue_items(*old(q)).push(item),
        evt_queue_items(*old(q)).len() >= EVT_QUEUE_CAPACITY ==> !r && evt_queue_items(*final(q))
            == evt_queue_items(*old(q)),
{
    q.q.enqueue(item).is_ok()
}

/// Relies on `heapless::spsc::Queue::dequeue`: the front item, or `None`
/// when empty.
#[verifier::external_body]
fn queue_dequeue(q: &mut EvtQueue) -> (r: Option<usize>)
    ensures
        evt_queue_items(*old(q)).len() == 0 ==> r.is_none() && evt_queue_items(*final(q))
            == evt_queue_items(*old(q)),
        evt_queue_items(*old(q)).len() > 0 ==> r == Some(evt_queue_items(*old(q))[0])
            && evt_queue_items(*final(q)) == evt_queue_items(*old(q)).drop_first(),
{
    q.q.dequeue()
}

/// Relies on `heapless::spsc::Queue::len`: the number of items.
#[verifier::external_body]
fn queue_len(q: &EvtQueue) -> (r: usize)
    ensures
        r == evt_queue_items(*q).len(),
{
    q.q.len()
}

impl EvtQueue {
    /// An empty queue.
    pub fn new() -> (r: EvtQueue)
        ensures
            evt_queue_items(r) == Seq::<usize>::empty(),
    {
        queue_new()
    }

    /// Appends `b`'s buffer; gives the handle back if the queue is full.
    pub fn enqueue(&mut self, b: EvtBox) -> (r: Result<(), EvtBox>)
        ensures
            evt_queue_items(*old(self)).len() < EVT_QUEUE_CAPACITY ==> r is Ok
                && evt_queue_items(*final(self)) == evt_queue_items(*old(self)).push(b.spec_node()),
            evt_queue_items(*old(self)).len() >= EVT_QUEUE_CAPACITY ==> (r matches Err(e)
                && e.spec_node() == b.spec_node() && evt_queue_items(*final(self))
                == evt_queue_items(*old(self))),
    {
        let n = b.node;
        if queue_enqueue(self, n) {
            Ok(())
        } else {
            Err(b)
        }
    }

    /// Takes the handle at the front, if any.
    pub fn dequeue(&mut self) -> (r: Option<EvtBox>)
        ensures
            evt_queue_items(*old(self)).len() == 0 ==> r.is_none() && evt_queue_items(*final(self))
                == evt_queue_items(*old(self)),
            evt_queue_items(*old(self)).len() > 0 ==> (r matches Some(b) && b.spec_node()
                == evt_queue_items(*old(self))[0] && evt_queue_items(*final(self))
                == evt_queue_items(*old(self)).drop_first()),
    {
        match queue_dequeue(self) {
            Some(n) => Some(EvtBox { node: n }),
            None => None,
        }
    }

    /// Number of handles waiting.
    pub fn len(&self) -> (r: usize)
        ensures
            r == evt_queue_items(*self).len(),
    {
        queue_len(self)
    }
}

} // verus!
