//! Shared-memory mailbox between the host core and the radio core.
use crate::ipcc::{Ipcc, IpccChannel};
use crate::tl_mbox::acl::AclDataPacket;
use crate::tl_mbox::ble::Ble;
use crate::tl_mbox::channel::IPCC_BLE_EVENT_CHANNEL;
use crate::tl_mbox::cmd::CmdPacket;
use crate::tl_mbox::consts::{ACL_SERIAL_BODY_SIZE, CMD_SERIAL_BODY_SIZE, TL_EVT_HDR_SIZE, TL_PACKET_HEADER_SIZE};
use crate::tl_mbox::evt::{Evt, EvtPacket, EvtSerial};
use crate::tl_mbox::linked_list::{ListNode, NodePool};
use crate::tl_mbox::mm::MemoryManager;
use vstd::prelude::*;

pub mod acl;
pub mod ble;
pub mod channel;
pub mod cmd;
pub mod consts;
pub mod evt;
pub mod linked_list;
pub mod mm;

verus! {

/// Head of the queue in which the peer posts BLE events.
pub const EVT_QUEUE: usize = 0;

/// Head of the queue in which the peer posts system events.
pub const SYSTEM_EVT_QUEUE: usize = 1;

/// Head of the shared queue of event buffers handed back to the peer.
pub const FREE_BUF_QUEUE: usize = 2;

/// Head of the queue of trace events.
pub const TRACES_EVT_QUEUE: usize = 3;

/// Head of the host-private staging queue of released event buffers.
pub const LOCAL_FREE_BUF_QUEUE: usize = 4;

/// First node slot that is a buffer rather than a queue head.
pub const FIRST_BUFFER_NODE: usize = 5;

/// Number of BLE event buffers in the event pool.
pub const CFG_TLBLE_EVT_QUEUE_LENGTH: usize = 5;

/// Largest BLE event payload.
pub const CFG_TLBLE_MOST_EVENT_PAYLOAD_SIZE: usize = 255;

/// Event header plus the largest payload.
pub const TL_BLE_EVENT_FRAME_SIZE: usize = TL_EVT_HDR_SIZE + CFG_TLBLE_MOST_EVENT_PAYLOAD_SIZE;

/// Bytes of the event pool: `CFG_TLBLE_EVT_QUEUE_LENGTH` buffers of a packet
/// header and an event frame (266 bytes), each rounded up to whole 32-bit
/// words (67 words).
pub const POOL_SIZE: usize = 1340;

/// `x / y`, rounded up.
pub fn divc(x: usize, y: usize) -> (r: usize)
    requires
        y > 0,
        x + y <= usize::MAX,
    ensures
        r == (x + y - 1) / y as int,
{
    (x + y - 1) / y
}

pub struct SafeBootInfoTable {
    pub version: u32,
}

pub struct FusInfoTable {
    pub version: u32,
    pub memory_size: u32,
    pub fus_info: u32,
}

pub struct WirelessFwInfoTable {
    pub version: u32,
    pub memory_size: u32,
    pub info_stack: u32,
    pub reserved: u32,
}

pub struct DeviceInfoTable {
    pub safe_boot_info_table: SafeBootInfoTable,
    pub fus_info_table: FusInfoTable,
    pub wireless_fw_info_table: WirelessFwInfoTable,
}

pub struct BleTable {
    pub pcmd_buffer: u32,
    pub pcs_buffer: u32,
    pub pevt_queue: u32,
    pub phci_acl_data_buffer: u32,
}

pub struct ThreadTable {
    pub notack_buffer: u32,
    pub clicmdrsp_buffer: u32,
    pub otcmdrsp_buffer: u32,
    pub clinot_buffer: u32,
}

pub struct LldTestsTable {
    pub clicmdrsp_buffer: u32,
    pub m0cmd_buffer: u32,
}

pub struct BleLldTable {
    pub cmdrsp_buffer: u32,
    pub m0cmd_buffer: u32,
}

pub struct ZigbeeTable {
    pub notif_m0_to_m4_buffer: u32,
    pub appli_cmd_m4_to_m0_buffer: u32,
    pub request_m0_to_m4_buffer: u32,
}

pub struct SysTable {
    pub pcmd_buffer: u32,
    pub sys_queue: u32,
}

pub struct MemManagerTable {
    pub spare_ble_buffer: u32,
    pub spare_sys_buffer: u32,
    pub blepool: u32,
    pub blepoolsize: u32,
    pub pevt_free_buffer_queue: u32,
    pub traces_evt_pool: u32,
    pub tracespoolsize: u32,
}

pub struct TracesTable {
    pub traces_queue: u32,
}

pub struct Mac802_15_4 {
    pub p_cmdrsp_buffer: u32,
    pub p_notack_buffer: u32,
    pub evt_queue: u32,
}

/// The root table the peer reads at boot: the address of every second-level
/// table.
pub struct RefTable {
    pub p_device_info_table: u32,
    pub p_ble_table: u32,
    pub p_thread_table: u32,
    pub p_sys_table: u32,
    pub p_mem_manager_table: u32,
    pub p_traces_table: u32,
    pub p_mac_802_15_4_table: u32,
    pub p_zigbee_table: u32,
    pub p_lld_tests_table: u32,
    pub p_ble_lld_table: u32,
}

/// Where the link-time placement put each shared structure.
pub struct MailboxLayout {
    pub device_info_table: u32,
    pub ble_table: u32,
    pub thread_table: u32,
    pub sys_table: u32,
    pub mem_manager_table: u32,
    pub traces_table: u32,
    pub mac_802_15_4_table: u32,
    pub zigbee_table: u32,
    pub lld_tests_table: u32,
    pub ble_lld_table: u32,
    pub ble_cmd_buffer: u32,
    pub cs_buffer: u32,
    pub evt_queue: u32,
    pub hci_acl_data_buffer: u32,
    pub free_buf_queue: u32,
    pub ble_spare_evt_buf: u32,
    pub sys_spare_evt_buf: u32,
    pub evt_pool: u32,
}

/// The mailbox: every shared table and buffer, the node pool, and the two
/// endpoints that use them.
pub struct TlMbox {
    pub ble: Ble,
    pub mm: MemoryManager,
    pub pool: NodePool,
    pub ref_table: RefTable,
    pub device_info_table: DeviceInfoTable,
    pub ble_table: BleTable,
    pub thread_table: ThreadTable,
    pub sys_table: SysTable,
    pub mem_manager_table: MemManagerTable,
    pub traces_table: TracesTable,
    pub mac_802_15_4_table: Mac802_15_4,
    pub zigbee_table: ZigbeeTable,
    pub lld_tests_table: LldTestsTable,
    pub ble_lld_table: BleLldTable,
    pub cmd_buffer: CmdPacket,
    pub acl_buffer: AclDataPacket,
    pub evt_packets: Vec<EvtPacket>,
}

/// Every byte of the event packet `p` is zero.
pub open spec fn evt_zeroed(p: EvtPacket) -> bool {
    &&& p.header.next == 0
    &&& p.header.prev == 0
    &&& p.evtserial.kind == 0
    &&& p.evtserial.evt.evtcode == 0
    &&& p.evtserial.evt.plen == 0
    &&& p.evtserial.evt.payload@[0] == 0
}

/// Every byte of a packet header and its serial bytes is zero.
pub open spec fn serial_zeroed(header: ListNode, serial: Seq<u8>) -> bool {
    &&& header.next == 0
    &&& header.prev == 0
    &&& forall|i: int| 0 <= i < serial.len() ==> serial[i] == 0
}

/// A zeroed event packet.
fn zero_evt_packet() -> (r: EvtPacket)
    ensures
        evt_zeroed(r),
{
    EvtPacket {
        header: ListNode { next: 0, prev: 0 },
        evtserial: EvtSerial { kind: 0, evt: Evt { evtcode: 0, plen: 0, payload: [0u8] } },
    }
}

impl TlMbox {
    /// What `tl_init` publishes: every table zeroed but for the addresses of
    /// the structures the peer needs.
    pub open spec fn published(&self, l: MailboxLayout) -> bool {
        &&& self.ref_table == RefTable {
            p_device_info_table: l.device_info_table,
            p_ble_table: l.ble_table,
            p_thread_table: l.thread_table,
            p_sys_table: l.sys_table,
            p_mem_manager_table: l.mem_manager_table,
            p_traces_table: l.traces_table,
            p_mac_802_15_4_table: l.mac_802_15_4_table,
            p_zigbee_table: l.zigbee_table,
            p_lld_tests_table: l.lld_tests_table,
            p_ble_lld_table: l.ble_lld_table,
        }
        &&& self.ble_table == BleTable {
            pcmd_buffer: l.ble_cmd_buffer,
            pcs_buffer: l.cs_buffer,
            pevt_queue: l.evt_queue,
            phci_acl_data_buffer: l.hci_acl_data_buffer,
        }
        &&& self.mem_manager_table == MemManagerTable {
            spare_ble_buffer: l.ble_spare_evt_buf,
            spare_sys_buffer: l.sys_spare_evt_buf,
            blepool: l.evt_pool,
            blepoolsize: POOL_SIZE as u32,
            pevt_free_buffer_queue: l.free_buf_queue,
            traces_evt_pool: 0,
            tracespoolsize: 0,
        }
        &&& self.thread_table == ThreadTable {
            notack_buffer: 0,
            clicmdrsp_buffer: 0,
            otcmdrsp_buffer: 0,
            clinot_buffer: 0,
        }
        &&& self.sys_table == SysTable { pcmd_buffer: 0, sys_queue: 0 }
        &&& self.traces_table == TracesTable { traces_queue: 0 }
        &&& self.mac_802_15_4_table == Mac802_15_4 {
            p_cmdrsp_buffer: 0,
            p_notack_buffer: 0,
            evt_queue: 0,
        }
        &&& self.zigbee_table == ZigbeeTable {
            notif_m0_to_m4_buffer: 0,
            appli_cmd_m4_to_m0_buffer: 0,
            request_m0_to_m4_buffer: 0,
        }
        &&& self.device_info_table == DeviceInfoTable {
            safe_boot_info_table: SafeBootInfoTable { version: 0 },
            fus_info_table: FusInfoTable { version: 0, memory_size: 0, fus_info: 0 },
            wireless_fw_info_table: WirelessFwInfoTable {
                version: 0,
                memory_size: 0,
                info_stack: 0,
                reserved: 0,
            },
        }
        &&& self.lld_tests_table == LldTestsTable { clicmdrsp_buffer: 0, m0cmd_buffer: 0 }
        &&& self.ble_lld_table == BleLldTable { cmdrsp_buffer: 0, m0cmd_buffer: 0 }
    }

    /// Builds the mailbox with `n_buffers` event buffer nodes after the
    /// queue heads: tables filled from `layout`, the event queue and both
    /// free-buffer queues empty, every buffer free, buffers zeroed, and the
    /// host listening on the event channel.
    pub fn tl_init(layout: MailboxLayout, n_buffers: usize) -> (r: (TlMbox, Ipcc))
        requires
            n_buffers + FIRST_BUFFER_NODE <= usize::MAX,
        ensures
            r.0.published(layout),
            r.0.pool.wf(),
            r.0.pool.len() == FIRST_BUFFER_NODE + n_buffers,
            r.0.pool.lists@ == Map::<usize, Seq<usize>>::empty().insert(
                EVT_QUEUE,
                Seq::empty(),
            ).insert(FREE_BUF_QUEUE, Seq::empty()).insert(LOCAL_FREE_BUF_QUEUE, Seq::empty()),
            forall|n: usize|
                FIRST_BUFFER_NODE <= n < FIRST_BUFFER_NODE + n_buffers ==> #[trigger] r.0.pool.is_free(n),
            r.0.evt_packets@.len() == r.0.pool.len(),
            forall|i: int| 0 <= i < r.0.evt_packets@.len() ==> evt_zeroed(#[trigger] r.0.evt_packets@[i]),
            r.0.cmd_buffer.serial@.len() == 1 + CMD_SERIAL_BODY_SIZE,
            serial_zeroed(r.0.cmd_buffer.header, r.0.cmd_buffer.serial@),
            r.0.acl_buffer.serial@.len() == 1 + ACL_SERIAL_BODY_SIZE,
            serial_zeroed(r.0.acl_buffer.header, r.0.acl_buffer.serial@),
            r.1.wf(),
            r.1.rings@ == Seq::<IpccChannel>::empty(),
            forall|ch: IpccChannel|
                !r.1.busy(ch) && !r.1.tx_enabled(ch) && !r.1.peer_flag(ch) && r.1.rx_enabled(ch)
                    == (ch == IPCC_BLE_EVENT_CHANNEL),
    {
        let n = FIRST_BUFFER_NODE + n_buffers;
        let mut pool = NodePool::new(n);
        let mut ipcc = Ipcc::new();
        let ghost ipcc_fresh = ipcc;
        let ble = Ble::new(&mut pool, &mut ipcc);
        let mm = MemoryManager::new(&mut pool);
        let mut evt_packets: Vec<EvtPacket> = Vec::new();
        let mut i: usize = 0;
        while i < n
            invariant
                i <= n,
                evt_packets@.len() == i,
                forall|j: int| 0 <= j < i ==> evt_zeroed(#[trigger] evt_packets@[j]),
            decreases n - i,
        {
            evt_packets.push(zero_evt_packet());
            i = i + 1;
        }
        let mbox = TlMbox {
            ble,
            mm,
            pool,
            ref_table: RefTable {
                p_device_info_table: layout.device_info_table,
                p_ble_table: layout.ble_table,
                p_thread_table: layout.thread_table,
                p_sys_table: layout.sys_table,
                p_mem_manager_table: layout.mem_manager_table,
                p_traces_table: layout.traces_table,
                p_mac_802_15_4_table: layout.mac_802_15_4_table,
                p_zigbee_table: layout.zigbee_table,
                p_lld_tests_table: layout.lld_tests_table,
                p_ble_lld_table: layout.ble_lld_table,
            },
            device_info_table: DeviceInfoTable {
                safe_boot_info_table: SafeBootInfoTable { version: 0 },
                fus_info_table: FusInfoTable { version: 0, memory_size: 0, fus_info: 0 },
                wireless_fw_info_table: WirelessFwInfoTable {
                    version: 0,
                    memory_size: 0,
                    info_stack: 0,
                    reserved: 0,
                },
            },
            ble_table: BleTable {
                pcmd_buffer: layout.ble_cmd_buffer,
                pcs_buffer: layout.cs_buffer,
                pevt_queue: layout.evt_queue,
                phci_acl_data_buffer: layout.hci_acl_data_buffer,
            },
            thread_table: ThreadTable {
                notack_buffer: 0,
                clicmdrsp_buffer: 0,
                otcmdrsp_buffer: 0,
                clinot_buffer: 0,
            },
            sys_table: SysTable { pcmd_buffer: 0, sys_queue: 0 },
            mem_manager_table: MemManagerTable {
                spare_ble_buffer: layout.ble_spare_evt_buf,
                spare_sys_buffer: layout.sys_spare_evt_buf,
                blepool: layout.evt_pool,
                blepoolsize: POOL_SIZE as u32,
                pevt_free_buffer_queue: layout.free_buf_queue,
                traces_evt_pool: 0,
                tracespoolsize: 0,
            },
            traces_table: TracesTable { traces_queue: 0 },
            mac_802_15_4_table: Mac802_15_4 { p_cmdrsp_buffer: 0, p_notack_buffer: 0, evt_queue: 0 },
            zigbee_table: ZigbeeTable {
                notif_m0_to_m4_buffer: 0,
                appli_cmd_m4_to_m0_buffer: 0,
                request_m0_to_m4_buffer: 0,
            },
            lld_tests_table: LldTestsTable { clicmdrsp_buffer: 0, m0cmd_buffer: 0 },
            ble_lld_table: BleLldTable { cmdrsp_buffer: 0, m0cmd_buffer: 0 },
            cmd_buffer: CmdPacket::new(),
            acl_buffer: AclDataPacket::new(),
            evt_packets,
        };
        proof {
            assert forall|ch: IpccChannel|
                !ipcc.busy(ch) && !ipcc.tx_enabled(ch) && !ipcc.peer_flag(ch) && ipcc.rx_enabled(ch)
                    == (ch == IPCC_BLE_EVENT_CHANNEL) by {
                assert(!ipcc_fresh.rx_enabled(ch) && !ipcc_fresh.busy(ch) && !ipcc_fresh.tx_enabled(ch) && !ipcc_fresh.peer_flag(ch));
            }
            assert(mbox.pool.lists@ =~= Map::<usize, Seq<usize>>::empty().insert(
                EVT_QUEUE,
                Seq::empty(),
            ).insert(FREE_BUF_QUEUE, Seq::empty()).insert(LOCAL_FREE_BUF_QUEUE, Seq::empty()));
        }
        (mbox, ipcc)
    }
}

} // verus!
