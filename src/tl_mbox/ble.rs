//! BLE endpoint: commands and ACL data out, events in.
use crate::ipcc::{Ipcc, IpccChannel};
use crate::tl_mbox::acl::AclDataPacket;
use crate::tl_mbox::channel::{IPCC_BLE_CMD_CHANNEL, IPCC_BLE_EVENT_CHANNEL, IPCC_HCI_ACL_DATA_CHANNEL};
use crate::tl_mbox::cmd::CmdPacket;
use crate::tl_mbox::consts::{
    ACL_SERIAL_BODY_SIZE, CMD_SERIAL_BODY_SIZE, TL_ACL_DATA_PKT_TYPE, TL_BLECMD_PKT_TYPE,
};
use crate::tl_mbox::evt::{evt_queue_items, EvtBox, EvtQueue, EVT_QUEUE_CAPACITY};
use crate::tl_mbox::linked_list::{init_head, is_empty, remove_head, NodePool};
use crate::tl_mbox::EVT_QUEUE;
use vstd::prelude::*;

verus! {

/// Why a send was refused.
#[derive(Clone, Copy, Debug, PartialEq, Eq, Structural)]
pub enum BleError {
    /// The bytes do not fit the fixed buffer after its kind tag.
    PayloadTooLarge,
}

/// `buf` after the kind tag `kind`, over the first bytes of `old`; the
/// rest of `old` is kept.
pub open spec fn tagged_copy(old: Seq<u8>, kind: u8, buf: Seq<u8>) -> Seq<u8> {
    seq![kind] + buf + old.subrange(1 + buf.len() as int, old.len() as int)
}

/// Copies `buf` into `dst` from index 1 on, then sets `dst[0]` to `kind`.
fn write_tagged(dst: &mut Vec<u8>, kind: u8, buf: &[u8])
    requires
        1 + buf@.len() <= old(dst)@.len(),
    ensures
        final(dst)@ == tagged_copy(old(dst)@, kind, buf@),
{
    let mut i: usize = 0;
    while i < buf.len()
        invariant
            i <= buf@.len(),
            1 + buf@.len() <= dst@.len(),
            dst@.len() == old(dst)@.len(),
            dst@[0] == old(dst)@[0],
            dst@.subrange(1, 1 + i as int) == buf@.subrange(0, i as int),
            dst@.subrange(1 + i as int, dst@.len() as int) == old(dst)@.subrange(
                1 + i as int,
                old(dst)@.len() as int,
            ),
        decreases buf@.len() - i,
    {
        let ghost before = dst@;
        dst.set(i + 1, buf[i]);
        proof {
            assert(dst@.subrange(1, 2 + i as int) =~= before.subrange(1, 1 + i as int).push(
                buf@[i as int],
            ));
            assert(buf@.subrange(0, i + 1 as int) =~= buf@.subrange(0, i as int).push(
                buf@[i as int],
            ));
            assert(dst@.subrange(2 + i as int, dst@.len() as int) =~= before.subrange(
                2 + i as int,
                dst@.len() as int,
            ));
            assert(before.subrange(2 + i as int, dst@.len() as int) =~= before.subrange(
                1 + i as int,
                dst@.len() as int,
            ).drop_first());
        }
        i = i + 1;
    }
    dst.set(0, kind);
    proof {
        let s = dst@;
        let t = tagged_copy(old(dst)@, kind, buf@);
        assert(buf@.subrange(0, buf@.len() as int) =~= buf@);
        assert forall|j: int| 0 <= j < s.len() implies s[j] == t[j] by {
            if 1 <= j < 1 + buf@.len() {
                assert(s[j] == s.subrange(1, 1 + buf@.len() as int)[j - 1]);
            } else if j >= 1 + buf@.len() {
                assert(s[j] == s.subrange(1 + buf@.len() as int, s.len() as int)[j - 1
                    - buf@.len()]);
            }
        }
        assert(s =~= t);
    }
}

/// `n` is among the first `i` members of `e`.
pub open spec fn in_prefix(e: Seq<usize>, i: int, n: usize) -> bool {
    exists|k: int| 0 <= k < i && e[k] == n
}

/// Doorbell state after ringing `ch`.
pub open spec fn rang(old_ipcc: Ipcc, ipcc: Ipcc, ch: IpccChannel) -> bool {
    &&& ipcc.wf()
    &&& ipcc.c1_flag@ == old_ipcc.c1_flag@.update(ch.spec_index(), true)
    &&& ipcc.rings@ == old_ipcc.rings@.push(ch)
    &&& ipcc.c1_rx_enabled@ == old_ipcc.c1_rx_enabled@
    &&& ipcc.c2_flag@ == old_ipcc.c2_flag@
}

/// The BLE endpoint.
pub struct Ble {
    pub evt_queue: usize,
}

impl Ble {
    /// Sets up the shared event queue, empty, and listens on the event
    /// channel.
    pub fn new(pool: &mut NodePool, ipcc: &mut Ipcc) -> (r: Ble)
        requires
            old(pool).wf(),
            old(pool).is_free(EVT_QUEUE),
            old(ipcc).wf(),
        ensures
            final(pool).wf(),
            final(pool).len() == old(pool).len(),
            final(pool).lists@ == old(pool).lists@.insert(EVT_QUEUE, Seq::empty()),
            final(pool).owner@ == old(pool).owner@.insert(EVT_QUEUE, EVT_QUEUE),
            final(ipcc).wf(),
            final(ipcc).c1_rx_enabled@ == old(ipcc).c1_rx_enabled@.update(
                IPCC_BLE_EVENT_CHANNEL.spec_index(),
                true,
            ),
            final(ipcc).c1_flag@ == old(ipcc).c1_flag@,
            final(ipcc).c1_tx_enabled@ == old(ipcc).c1_tx_enabled@,
            final(ipcc).c2_flag@ == old(ipcc).c2_flag@,
            final(ipcc).rings@ == old(ipcc).rings@,
            r.evt_queue == EVT_QUEUE,
    {
        init_head(pool, EVT_QUEUE);
        ipcc.c1_set_rx_channel(IPCC_BLE_EVENT_CHANNEL, true);
        Ble { evt_queue: EVT_QUEUE }
    }

    /// Puts `buf` in the command buffer after the command kind tag and rings
    /// the command doorbell. Refused, with nothing changed, when `buf` does
    /// not fit.
    pub fn send_cmd(&mut self, cmd: &mut CmdPacket, ipcc: &mut Ipcc, buf: &[u8]) -> (r: Result<
        (),
        BleError,
    >)
        requires
            old(cmd).serial@.len() == 1 + CMD_SERIAL_BODY_SIZE,
            old(ipcc).wf(),
        ensures
            (r is Ok) == (buf@.len() <= CMD_SERIAL_BODY_SIZE),
            r is Ok ==> final(cmd).serial@ == tagged_copy(old(cmd).serial@, TL_BLECMD_PKT_TYPE, buf@),
            r is Ok ==> rang(*old(ipcc), *final(ipcc), IPCC_BLE_CMD_CHANNEL)
                && final(ipcc).c1_tx_enabled@ == old(ipcc).c1_tx_enabled@,
            r is Err ==> r == Err::<(), BleError>(BleError::PayloadTooLarge) && *final(cmd)
                == *old(cmd) && *final(ipcc) == *old(ipcc),
            final(cmd).header == old(cmd).header,
    {
        if buf.len() > CMD_SERIAL_BODY_SIZE {
            return Err(BleError::PayloadTooLarge);
        }
        write_tagged(&mut cmd.serial, TL_BLECMD_PKT_TYPE, buf);
        ipcc.c1_set_flag_channel(IPCC_BLE_CMD_CHANNEL);
        Ok(())
    }

    /// Puts `buf` in the ACL buffer after the ACL kind tag, rings the ACL
    /// doorbell and enables its "channel free" interrupt. Refused, with
    /// nothing changed, when `buf` does not fit.
    pub fn send_acl_data(&mut self, acl: &mut AclDataPacket, ipcc: &mut Ipcc, buf: &[u8]) -> (r:
        Result<(), BleError>)
        requires
            old(acl).serial@.len() == 1 + ACL_SERIAL_BODY_SIZE,
            old(ipcc).wf(),
        ensures
            (r is Ok) == (buf@.len() <= ACL_SERIAL_BODY_SIZE),
            r is Ok ==> final(acl).serial@ == tagged_copy(
                old(acl).serial@,
                TL_ACL_DATA_PKT_TYPE,
                buf@,
            ),
            r is Ok ==> rang(*old(ipcc), *final(ipcc), IPCC_HCI_ACL_DATA_CHANNEL)
                && final(ipcc).c1_tx_enabled@ == old(ipcc).c1_tx_enabled@.update(
                IPCC_HCI_ACL_DATA_CHANNEL.spec_index(),
                true,
            ),
            r is Err ==> r == Err::<(), BleError>(BleError::PayloadTooLarge) && *final(acl)
                == *old(acl) && *final(ipcc) == *old(ipcc),
            final(acl).header == old(acl).header,
    {
        if buf.len() > ACL_SERIAL_BODY_SIZE {
            return Err(BleError::PayloadTooLarge);
        }
        write_tagged(&mut acl.serial, TL_ACL_DATA_PKT_TYPE, buf);
        ipcc.c1_set_flag_channel(IPCC_HCI_ACL_DATA_CHANNEL);
        ipcc.c1_set_tx_channel(IPCC_HCI_ACL_DATA_CHANNEL, true);
        Ok(())
    }

    /// The peer finished with the ACL buffer: stop waiting for it.
    pub fn acl_data_evt_handler(&mut self, ipcc: &mut Ipcc)
        requires
            old(ipcc).wf(),
        ensures
            final(ipcc).wf(),
            final(ipcc).c1_tx_enabled@ == old(ipcc).c1_tx_enabled@.update(
                IPCC_HCI_ACL_DATA_CHANNEL.spec_index(),
                false,
            ),
            final(ipcc).c1_flag@ == old(ipcc).c1_flag@,
            final(ipcc).c1_rx_enabled@ == old(ipcc).c1_rx_enabled@,
            final(ipcc).c2_flag@ == old(ipcc).c2_flag@,
            final(ipcc).rings@ == old(ipcc).rings@,
    {
        ipcc.c1_set_tx_channel(IPCC_HCI_ACL_DATA_CHANNEL, false);
    }

    /// Moves every event of the shared event queue, in order, to the back
    /// of `queue` as handles, then clears the event doorbell. The queue must
    /// have room for all of them.
    pub fn evt_handler(&mut self, pool: &mut NodePool, ipcc: &mut Ipcc, queue: &mut EvtQueue)
        requires
            old(pool).wf(),
            old(pool).is_head(EVT_QUEUE),
            old(ipcc).wf(),
            evt_queue_items(*old(queue)).len() + old(pool).list(EVT_QUEUE).len()
                <= EVT_QUEUE_CAPACITY,
        ensures
            final(pool).wf(),
            final(pool).len() == old(pool).len(),
            final(pool).lists@ == old(pool).lists@.insert(EVT_QUEUE, Seq::empty()),
            forall|n: usize|
                #[trigger] final(pool).owner@.contains_key(n) <==> (old(pool).owner@.contains_key(n)
                    && !old(pool).list(EVT_QUEUE).contains(n)),
            evt_queue_items(*final(queue)) == evt_queue_items(*old(queue)) + old(pool).list(
                EVT_QUEUE,
            ),
            final(ipcc).wf(),
            final(ipcc).c2_flag@ == old(ipcc).c2_flag@.update(
                IPCC_BLE_EVENT_CHANNEL.spec_index(),
                false,
            ),
            final(ipcc).c1_flag@ == old(ipcc).c1_flag@,
            final(ipcc).c1_tx_enabled@ == old(ipcc).c1_tx_enabled@,
            final(ipcc).c1_rx_enabled@ == old(ipcc).c1_rx_enabled@,
            final(ipcc).rings@ == old(ipcc).rings@,
    {
        let ghost e0 = pool.lists@[EVT_QUEUE];
        let ghost q0 = evt_queue_items(*queue);
        let ghost lists0 = pool.lists@;
        let ghost owner0 = pool.owner@;
        let ghost mut i: int = 0;
        proof {
            assert(e0.subrange(0, e0.len() as int) =~= e0);
            assert(lists0 =~= lists0.insert(EVT_QUEUE, e0.subrange(0, e0.len() as int)));
            assert(q0 + e0.subrange(0, 0) =~= q0);
        }
        while !is_empty(pool, EVT_QUEUE)
            invariant
                pool.wf(),
                pool.is_head(EVT_QUEUE),
                pool.len() == old(pool).len(),
                0 <= i <= e0.len(),
                q0.len() + e0.len() <= EVT_QUEUE_CAPACITY,
                pool.lists@ == lists0.insert(EVT_QUEUE, e0.subrange(i, e0.len() as int)),
                forall|n: usize|
                    #[trigger] pool.owner@.contains_key(n) <==> (owner0.contains_key(n)
                        && !in_prefix(e0, i, n)),
                evt_queue_items(*queue) == q0 + e0.subrange(0, i),
            decreases e0.len() - i,
        {
            let n = remove_head(pool, EVT_QUEUE);
            let res = queue.enqueue(EvtBox::new(n));
            proof {
                assert(e0.subrange(i, e0.len() as int)[0] == e0[i]);
                assert(e0.subrange(i, e0.len() as int).drop_first() =~= e0.subrange(
                    i + 1,
                    e0.len() as int,
                ));
                assert((q0 + e0.subrange(0, i)).push(n) =~= q0 + e0.subrange(0, i + 1));
                assert forall|m: usize|
                    #[trigger] pool.owner@.contains_key(m) <==> (owner0.contains_key(m)
                        && !in_prefix(e0, i + 1, m)) by {
                    if m == n {
                        assert(e0[i] == m);
                    }
                    if in_prefix(e0, i + 1, m) && m != n {
                        let k = choose|k: int| 0 <= k < i + 1 && e0[k] == m;
                        assert(k < i);
                    }
                }
                i = i + 1;
                assert(pool.lists@ =~= lists0.insert(EVT_QUEUE, e0.subrange(i, e0.len() as int)));
            }
        }
        proof {
            assert(e0.subrange(i, e0.len() as int) =~= Seq::<usize>::empty());
            assert(e0.subrange(0, i) =~= e0);
            assert(pool.lists@ =~= lists0.insert(EVT_QUEUE, Seq::empty()));
            assert forall|m: usize| in_prefix(e0, i, m) == e0.contains(m) by {}
        }
        ipcc.c1_clear_flag_channel(IPCC_BLE_EVENT_CHANNEL);
    }
}

} // verus!
