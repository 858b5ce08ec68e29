//! Memory manager: hands released event buffers back to the peer, ringing
//! the release doorbell at most once per acknowledgement.
use crate::ipcc::{Ipcc, IpccChannel};
use crate::tl_mbox::channel::IPCC_MM_RELEASE_BUFFER_CHANNEL;
use crate::tl_mbox::linked_list::{insert_tail, is_empty, remove_head, NodePool};
use crate::tl_mbox::{FREE_BUF_QUEUE, LOCAL_FREE_BUF_QUEUE};
use vstd::prelude::*;

verus! {

/// What the memory manager's behaviour depends on, as plain values.
pub struct MmModel {
    /// Host-private staging queue.
    pub local: Seq<usize>,
    /// Shared free queue the peer drains.
    pub shared: Seq<usize>,
    /// The release doorbell is rung and not yet acknowledged.
    pub busy: bool,
    /// Buffers were staged while busy; the "channel free" interrupt is on.
    pub pending: bool,
    /// Every doorbell the host rang, in order.
    pub rings: Seq<IpccChannel>,
}

/// The model of a pool and channel controller.
pub open spec fn mm_model(pool: NodePool, ipcc: Ipcc) -> MmModel {
    MmModel {
        local: pool.list(LOCAL_FREE_BUF_QUEUE),
        shared: pool.list(FREE_BUF_QUEUE),
        busy: ipcc.busy(IPCC_MM_RELEASE_BUFFER_CHANNEL),
        pending: ipcc.tx_enabled(IPCC_MM_RELEASE_BUFFER_CHANNEL),
        rings: ipcc.rings@,
    }
}

/// Moving every staged buffer to the shared queue.
pub open spec fn send_step(m: MmModel) -> MmModel {
    MmModel { local: Seq::empty(), shared: m.shared + m.local, ..m }
}

/// `evt_drop(b)`: stage `b`; if the channel is busy only note that work is
/// pending, otherwise hand everything over and ring the doorbell.
pub open spec fn drop_step(m: MmModel, b: usize) -> MmModel {
    let staged = MmModel { local: m.local.push(b), ..m };
    if m.busy {
        MmModel { pending: true, ..staged }
    } else {
        MmModel {
            busy: true,
            rings: m.rings.push(IPCC_MM_RELEASE_BUFFER_CHANNEL),
            ..send_step(staged)
        }
    }
}

/// `free_buf_handler()`: clear the pending mark, hand everything over, and
/// ring again only if something new was handed over and the channel is free.
pub open spec fn handler_step(m: MmModel) -> MmModel {
    let moved = MmModel { pending: false, ..send_step(m) };
    if m.local.len() > 0 && !m.busy {
        MmModel { busy: true, rings: m.rings.push(IPCC_MM_RELEASE_BUFFER_CHANNEL), ..moved }
    } else {
        moved
    }
}

/// The peer acknowledges the release doorbell, and the handler runs.
pub open spec fn ack_step(m: MmModel) -> MmModel {
    handler_step(MmModel { busy: false, ..m })
}

/// The pool holds the two free-buffer queues.
pub open spec fn mm_ready(pool: NodePool) -> bool {
    &&& pool.wf()
    &&& pool.is_head(LOCAL_FREE_BUF_QUEUE)
    &&& pool.is_head(FREE_BUF_QUEUE)
}

/// Nothing but the two free-buffer queues and the release channel changed.
pub open spec fn mm_frame(old_pool: NodePool, pool: NodePool, old_ipcc: Ipcc, ipcc: Ipcc) -> bool {
    &&& mm_ready(pool)
    &&& pool.len() == old_pool.len()
    &&& pool.lists@.dom() == old_pool.lists@.dom()
    &&& forall|h: usize|
        #![trigger pool.lists@[h]]
        pool.lists@.contains_key(h) && h != LOCAL_FREE_BUF_QUEUE && h != FREE_BUF_QUEUE
            ==> pool.lists@[h] == old_pool.lists@[h]
    &&& ipcc.wf()
    &&& ipcc.c2_flag@ == old_ipcc.c2_flag@
    &&& ipcc.c1_rx_enabled@ == old_ipcc.c1_rx_enabled@
    &&& forall|ch: IpccChannel|
        ch != IPCC_MM_RELEASE_BUFFER_CHANNEL ==> #[trigger] ipcc.busy(ch) == old_ipcc.busy(ch)
            && ipcc.tx_enabled(ch) == old_ipcc.tx_enabled(ch)
}

/// The handle that owns the free-buffer queues.
pub struct MemoryManager {
    pub local_free_buf_queue: usize,
    pub free_buf_queue: usize,
}

impl MemoryManager {
    /// Sets up both free-buffer queues, empty, in a pool where neither head
    /// is in use yet.
    pub fn new(pool: &mut NodePool) -> (r: MemoryManager)
        requires
            old(pool).wf(),
            old(pool).is_free(LOCAL_FREE_BUF_QUEUE),
            old(pool).is_free(FREE_BUF_QUEUE),
        ensures
            mm_ready(*final(pool)),
            final(pool).len() == old(pool).len(),
            final(pool).lists@ == old(pool).lists@.insert(FREE_BUF_QUEUE, Seq::empty()).insert(
                LOCAL_FREE_BUF_QUEUE,
                Seq::empty(),
            ),
            final(pool).owner@ == old(pool).owner@.insert(FREE_BUF_QUEUE, FREE_BUF_QUEUE).insert(
                LOCAL_FREE_BUF_QUEUE,
                LOCAL_FREE_BUF_QUEUE,
            ),
            r.local_free_buf_queue == LOCAL_FREE_BUF_QUEUE,
            r.free_buf_queue == FREE_BUF_QUEUE,
    {
        crate::tl_mbox::linked_list::init_head(pool, FREE_BUF_QUEUE);
        crate::tl_mbox::linked_list::init_head(pool, LOCAL_FREE_BUF_QUEUE);
        MemoryManager {
            local_free_buf_queue: LOCAL_FREE_BUF_QUEUE,
            free_buf_queue: FREE_BUF_QUEUE,
        }
    }
}

/// Moves every staged buffer, in order, to the tail of the shared queue.
pub fn send_free_buf(pool: &mut NodePool)
    requires
        mm_ready(*old(pool)),
    ensures
        mm_ready(*final(pool)),
        final(pool).len() == old(pool).len(),
        final(pool).lists@ == old(pool).lists@.insert(
            FREE_BUF_QUEUE,
            old(pool).list(FREE_BUF_QUEUE) + old(pool).list(LOCAL_FREE_BUF_QUEUE),
        ).insert(LOCAL_FREE_BUF_QUEUE, Seq::empty()),
        final(pool).owner@.dom() == old(pool).owner@.dom(),
{
    let ghost l0 = pool.lists@[LOCAL_FREE_BUF_QUEUE];
    let ghost f0 = pool.lists@[FREE_BUF_QUEUE];
    let ghost lists0 = pool.lists@;
    let ghost owner0 = pool.owner@;
    let ghost mut i: int = 0;
    proof {
        assert(f0 + l0.subrange(0, 0) =~= f0);
        assert(l0.subrange(0, l0.len() as int) =~= l0);
        assert(lists0 =~= lists0.insert(FREE_BUF_QUEUE, f0 + l0.subrange(0, 0)).insert(
            LOCAL_FREE_BUF_QUEUE,
            l0.subrange(0, l0.len() as int),
        ));
    }
    while !is_empty(pool, LOCAL_FREE_BUF_QUEUE)
        invariant
            mm_ready(*pool),
            pool.len() == old(pool).len(),
            0 <= i <= l0.len(),
            pool.lists@ == lists0.insert(FREE_BUF_QUEUE, f0 + l0.subrange(0, i)).insert(
                LOCAL_FREE_BUF_QUEUE,
                l0.subrange(i, l0.len() as int),
            ),
            pool.owner@.dom() == owner0.dom(),
        decreases l0.len() - i,
    {
        let n = remove_head(pool, LOCAL_FREE_BUF_QUEUE);
        insert_tail(pool, FREE_BUF_QUEUE, n);
        proof {
            assert(l0.subrange(i, l0.len() as int).drop_first() =~= l0.subrange(
                i + 1,
                l0.len() as int,
            ));
            assert((f0 + l0.subrange(0, i)).push(n) =~= f0 + l0.subrange(0, i + 1));
            i = i + 1;
            assert(pool.lists@ =~= lists0.insert(FREE_BUF_QUEUE, f0 + l0.subrange(0, i)).insert(
                LOCAL_FREE_BUF_QUEUE,
                l0.subrange(i, l0.len() as int),
            ));
            assert(pool.owner@.dom() =~= owner0.dom());
        }
    }
    proof {
        assert(l0.subrange(i, l0.len() as int).len() == 0);
        assert(l0.subrange(0, i) =~= l0);
        assert(l0.subrange(i, l0.len() as int) =~= Seq::<usize>::empty());
    }
}

/// Releases the event buffer `evt` back to the peer.
pub fn evt_drop(pool: &mut NodePool, ipcc: &mut Ipcc, evt: usize)
    requires
        mm_ready(*old(pool)),
        old(pool).is_free(evt),
        old(ipcc).wf(),
    ensures
        mm_frame(*old(pool), *final(pool), *old(ipcc), *final(ipcc)),
        final(pool).owner@.dom() == old(pool).owner@.dom().insert(evt),
        mm_model(*final(pool), *final(ipcc)) == drop_step(mm_model(*old(pool), *old(ipcc)), evt),
{
    insert_tail(pool, LOCAL_FREE_BUF_QUEUE, evt);
    let channel_is_busy = ipcc.c1_is_active_flag(IPCC_MM_RELEASE_BUFFER_CHANNEL);
    if channel_is_busy {
        ipcc.c1_set_tx_channel(IPCC_MM_RELEASE_BUFFER_CHANNEL, true);
    } else {
        send_free_buf(pool);
        ipcc.c1_set_flag_channel(IPCC_MM_RELEASE_BUFFER_CHANNEL);
    }
    proof {
        assert(pool.owner@.dom() =~= old(pool).owner@.dom().insert(evt));
        assert(pool.lists@.dom() =~= old(pool).lists@.dom());
    }
}

/// Runs when the peer has acknowledged the release doorbell.
pub fn free_buf_handler(pool: &mut NodePool, ipcc: &mut Ipcc)
    requires
        mm_ready(*old(pool)),
        old(ipcc).wf(),
    ensures
        mm_frame(*old(pool), *final(pool), *old(ipcc), *final(ipcc)),
        final(pool).owner@.dom() == old(pool).owner@.dom(),
        mm_model(*final(pool), *final(ipcc)) == handler_step(mm_model(*old(pool), *old(ipcc))),
{
    ipcc.c1_set_tx_channel(IPCC_MM_RELEASE_BUFFER_CHANNEL, false);
    let produced = !is_empty(pool, LOCAL_FREE_BUF_QUEUE);
    send_free_buf(pool);
    if produced && !ipcc.c1_is_active_flag(IPCC_MM_RELEASE_BUFFER_CHANNEL) {
        ipcc.c1_set_flag_channel(IPCC_MM_RELEASE_BUFFER_CHANNEL);
    }
    proof {
        assert(pool.lists@.dom() =~= old(pool).lists@.dom());
    }
}

/// What can happen to the memory manager: a buffer is released, or the
/// peer acknowledges the release doorbell and the handler runs.
pub enum MmEvent {
    Drop(usize),
    Ack,
}

pub open spec fn mm_step(m: MmModel, e: MmEvent) -> MmModel {
    match e {
        MmEvent::Drop(b) => drop_step(m, b),
        MmEvent::Ack => ack_step(m),
    }
}

/// The model after the events `es`, in order.
pub open spec fn mm_run(m: MmModel, es: Seq<MmEvent>) -> MmModel
    decreases es.len(),
{
    if es.len() == 0 {
        m
    } else {
        mm_run(mm_step(m, es[0]), es.drop_first())
    }
}

/// The buffers released by `es`, in order.
pub open spec fn released(es: Seq<MmEvent>) -> Seq<usize>
    decreases es.len(),
{
    if es.len() == 0 {
        Seq::empty()
    } else {
        match es[0] {
            MmEvent::Drop(b) => seq![b] + released(es.drop_first()),
            MmEvent::Ack => released(es.drop_first()),
        }
    }
}

/// The model after releasing each of `bs`, in turn, with no acknowledgement.
pub open spec fn drop_all(m: MmModel, bs: Seq<usize>) -> MmModel
    decreases bs.len(),
{
    if bs.len() == 0 {
        m
    } else {
        drop_all(drop_step(m, bs[0]), bs.drop_first())
    }
}

/// Every released buffer reaches the shared queue exactly once, in the
/// order of release, whatever acknowledgements come in between: after any
/// events, the shared queue followed by the staged buffers is the initial
/// content followed by the released buffers, and one more `send_free_buf`
/// leaves exactly that on the shared queue. Distinct buffers therefore each
/// appear once.
pub proof fn lemma_release_reaches_peer(m: MmModel, es: Seq<MmEvent>)
    ensures
        mm_run(m, es).shared + mm_run(m, es).local == m.shared + m.local + released(es),
        send_step(mm_run(m, es)).shared == m.shared + m.local + released(es),
        send_step(mm_run(m, es)).local.len() == 0,
        (m.shared + m.local + released(es)).no_duplicates() ==> send_step(
            mm_run(m, es),
        ).shared.no_duplicates(),
    decreases es.len(),
{
    if es.len() == 0 {
        assert(m.shared + m.local + Seq::<usize>::empty() =~= m.shared + m.local);
    } else {
        let m1 = mm_step(m, es[0]);
        lemma_release_reaches_peer(m1, es.drop_first());
        match es[0] {
            MmEvent::Drop(b) => {
                assert(m1.shared + m1.local =~= (m.shared + m.local).push(b));
                assert(m.shared + m.local + released(es) =~= (m.shared + m.local).push(b)
                    + released(es.drop_first()));
            },
            MmEvent::Ack => {
                assert(m1.shared + m1.local =~= m.shared + m.local);
            },
        }
    }
}

proof fn lemma_drop_all_busy(m: MmModel, bs: Seq<usize>)
    requires
        m.busy,
    ensures
        drop_all(m, bs).busy,
        drop_all(m, bs).rings == m.rings,
        drop_all(m, bs).shared == m.shared,
        drop_all(m, bs).local == m.local + bs,
        drop_all(m, bs).pending == (m.pending || bs.len() > 0),
    decreases bs.len(),
{
    if bs.len() == 0 {
        assert(m.local + bs =~= m.local);
    } else {
        lemma_drop_all_busy(drop_step(m, bs[0]), bs.drop_first());
        assert(m.local.push(bs[0]) + bs.drop_first() =~= m.local + bs);
    }
}

/// Coalescing: releasing `k >= 1` buffers while the release channel is busy
/// rings no doorbell; when the peer's acknowledgement comes, exactly one
/// doorbell rings, and at that point all `k` buffers are on the shared queue.
pub proof fn lemma_coalescing(m: MmModel, bs: Seq<usize>)
    requires
        m.busy,
        bs.len() > 0,
    ensures
        drop_all(m, bs).rings == m.rings,
        drop_all(m, bs).pending,
        ack_step(drop_all(m, bs)).rings == m.rings.push(IPCC_MM_RELEASE_BUFFER_CHANNEL),
        ack_step(drop_all(m, bs)).shared == m.shared + m.local + bs,
        ack_step(drop_all(m, bs)).local.len() == 0,
        ack_step(drop_all(m, bs)).busy,
        !ack_step(drop_all(m, bs)).pending,
{
    lemma_drop_all_busy(m, bs);
    assert(m.shared + (m.local + bs) =~= m.shared + m.local + bs);
}

proof fn lemma_drop_all_content(m: MmModel, bs: Seq<usize>)
    ensures
        drop_all(m, bs).shared + drop_all(m, bs).local == m.shared + m.local + bs,
    decreases bs.len(),
{
    if bs.len() == 0 {
        assert(m.shared + m.local + bs =~= m.shared + m.local);
    } else {
        let m1 = drop_step(m, bs[0]);
        lemma_drop_all_content(m1, bs.drop_first());
        assert(m1.shared + m1.local =~= (m.shared + m.local).push(bs[0]));
        assert((m.shared + m.local).push(bs[0]) + bs.drop_first() =~= m.shared + m.local + bs);
    }
}

/// Releasing `k` event handles for `k` distinct buffers, in any order,
/// returns exactly those `k` buffers to the pool, each once: what the pool
/// gains is the release order itself.
pub proof fn lemma_release_each_once(m: MmModel, bs: Seq<usize>)
    requires
        bs.no_duplicates(),
    ensures
        (drop_all(m, bs).shared + drop_all(m, bs).local).len() == m.shared.len() + m.local.len()
            + bs.len(),
        (drop_all(m, bs).shared + drop_all(m, bs).local).subrange(
            (m.shared.len() + m.local.len()) as int,
            (m.shared.len() + m.local.len() + bs.len()) as int,
        ) == bs,
        (drop_all(m, bs).shared + drop_all(m, bs).local).subrange(
            (m.shared.len() + m.local.len()) as int,
            (m.shared.len() + m.local.len() + bs.len()) as int,
        ).no_duplicates(),
{
    lemma_drop_all_content(m, bs);
    let n0 = (m.shared.len() + m.local.len()) as int;
    assert((m.shared + m.local + bs).subrange(n0, n0 + bs.len()) =~= bs);
}

} // verus!
