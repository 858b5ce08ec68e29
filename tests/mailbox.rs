use stm32wb_hal::tl_mbox::ble::BleError;
use stm32wb_hal::tl_mbox::channel::{
    IPCC_BLE_CMD_CHANNEL, IPCC_BLE_EVENT_CHANNEL, IPCC_HCI_ACL_DATA_CHANNEL,
    IPCC_MM_RELEASE_BUFFER_CHANNEL,
};
use stm32wb_hal::tl_mbox::consts::{TL_ACL_DATA_PKT_TYPE, TL_BLECMD_PKT_TYPE};
use stm32wb_hal::tl_mbox::evt::{EvtBox, EvtQueue};
use stm32wb_hal::tl_mbox::linked_list::{
    get_next_node, get_prev_node, get_size, init_head, insert_head, insert_node_after,
    insert_node_before, insert_tail, is_empty, remove_head, remove_node, remove_tail, NodePool,
};
use stm32wb_hal::tl_mbox::mm::{evt_drop, free_buf_handler, send_free_buf};
use stm32wb_hal::tl_mbox::{
    divc, MailboxLayout, TlMbox, EVT_QUEUE, FIRST_BUFFER_NODE, FREE_BUF_QUEUE,
    LOCAL_FREE_BUF_QUEUE, POOL_SIZE,
};

fn layout() -> MailboxLayout {
    MailboxLayout {
        device_info_table: 0x2003_0000,
        ble_table: 0x2003_0010,
        thread_table: 0x2003_0020,
        sys_table: 0x2003_0030,
        mem_manager_table: 0x2003_0040,
        traces_table: 0x2003_0050,
        mac_802_15_4_table: 0x2003_0060,
        zigbee_table: 0x2003_0070,
        lld_tests_table: 0x2003_0080,
        ble_lld_table: 0x2003_0090,
        ble_cmd_buffer: 0x2003_1000,
        cs_buffer: 0x2003_1200,
        evt_queue: 0x2003_0100,
        hci_acl_data_buffer: 0x2003_1300,
        free_buf_queue: 0x2003_0108,
        ble_spare_evt_buf: 0x2003_1400,
        sys_spare_evt_buf: 0x2003_1500,
        evt_pool: 0x2003_2000,
    }
}

/// Walks the list of `head` forward and returns its members.
fn members(pool: &NodePool, head: usize) -> Vec<usize> {
    let mut out = Vec::new();
    let mut n = get_next_node(pool, head);
    while n != head {
        out.push(n);
        n = get_next_node(pool, n);
    }
    out
}

/// Walks the list of `head` backward and returns its members, last first.
fn members_backward(pool: &NodePool, head: usize) -> Vec<usize> {
    let mut out = Vec::new();
    let mut n = get_prev_node(pool, head);
    while n != head {
        out.push(n);
        n = get_prev_node(pool, n);
    }
    out
}

fn pool_with_head(n: usize) -> NodePool {
    let mut pool = NodePool::new(n);
    init_head(&mut pool, 0);
    pool
}

#[test]
fn empty_list_links_to_itself() {
    let pool = pool_with_head(4);
    assert!(is_empty(&pool, 0));
    assert_eq!(get_size(&pool, 0), 0);
    assert_eq!(get_next_node(&pool, 0), 0);
    assert_eq!(get_prev_node(&pool, 0), 0);
}

#[test]
fn links_stay_consistent_after_mixed_operations() {
    let mut pool = pool_with_head(8);
    insert_tail(&mut pool, 0, 1);
    insert_tail(&mut pool, 0, 2);
    insert_head(&mut pool, 0, 3);
    insert_node_after(&mut pool, 4, 1);
    insert_node_before(&mut pool, 5, 2);
    remove_node(&mut pool, 1);
    assert_eq!(members(&pool, 0), vec![3, 4, 5, 2]);
    let mut back = members_backward(&pool, 0);
    back.reverse();
    assert_eq!(back, vec![3, 4, 5, 2]);
    for n in [0usize, 3, 4, 5, 2] {
        assert_eq!(get_next_node(&pool, get_prev_node(&pool, n)), n);
        assert_eq!(get_prev_node(&pool, get_next_node(&pool, n)), n);
    }
    assert_eq!(get_size(&pool, 0), 4);
    assert!(!is_empty(&pool, 0));
}

#[test]
fn fifo_round_trip() {
    let mut pool = pool_with_head(6);
    for n in 1..6 {
        insert_tail(&mut pool, 0, n);
    }
    let mut out = Vec::new();
    for _ in 1..6 {
        out.push(remove_head(&mut pool, 0));
    }
    assert_eq!(out, vec![1, 2, 3, 4, 5]);
    assert!(is_empty(&pool, 0));
    assert_eq!(get_size(&pool, 0), 0);
}

#[test]
fn lifo_round_trip() {
    let mut pool = pool_with_head(6);
    for n in 1..6 {
        insert_head(&mut pool, 0, n);
    }
    let mut out = Vec::new();
    for _ in 1..6 {
        out.push(remove_head(&mut pool, 0));
    }
    assert_eq!(out, vec![5, 4, 3, 2, 1]);
    assert!(is_empty(&pool, 0));
}

#[test]
fn remove_tail_takes_the_last_member() {
    let mut pool = pool_with_head(4);
    insert_tail(&mut pool, 0, 1);
    insert_tail(&mut pool, 0, 2);
    insert_tail(&mut pool, 0, 3);
    assert_eq!(remove_tail(&mut pool, 0), 3);
    assert_eq!(members(&pool, 0), vec![1, 2]);
}

#[test]
fn two_lists_share_one_pool() {
    let mut pool = NodePool::new(6);
    init_head(&mut pool, 0);
    init_head(&mut pool, 1);
    insert_tail(&mut pool, 0, 2);
    insert_tail(&mut pool, 1, 3);
    insert_tail(&mut pool, 0, 4);
    let n = remove_head(&mut pool, 0);
    insert_tail(&mut pool, 1, n);
    assert_eq!(members(&pool, 0), vec![4]);
    assert_eq!(members(&pool, 1), vec![3, 2]);
}

#[test]
fn tl_init_publishes_every_table() {
    let (mbox, ipcc) = TlMbox::tl_init(layout(), 5);
    assert_eq!(mbox.ref_table.p_device_info_table, 0x2003_0000);
    assert_eq!(mbox.ref_table.p_ble_table, 0x2003_0010);
    assert_eq!(mbox.ref_table.p_ble_lld_table, 0x2003_0090);
    assert_eq!(mbox.ble_table.pcmd_buffer, 0x2003_1000);
    assert_eq!(mbox.ble_table.pevt_queue, 0x2003_0100);
    assert_eq!(mbox.ble_table.phci_acl_data_buffer, 0x2003_1300);
    assert_eq!(mbox.mem_manager_table.pevt_free_buffer_queue, 0x2003_0108);
    assert_eq!(mbox.mem_manager_table.blepool, 0x2003_2000);
    assert_eq!(mbox.mem_manager_table.blepoolsize, 1340);
    assert_eq!(mbox.mem_manager_table.traces_evt_pool, 0);
    assert_eq!(mbox.sys_table.pcmd_buffer, 0);
    assert!(is_empty(&mbox.pool, EVT_QUEUE));
    assert!(is_empty(&mbox.pool, FREE_BUF_QUEUE));
    assert!(is_empty(&mbox.pool, LOCAL_FREE_BUF_QUEUE));
    assert_eq!(mbox.pool.size(), FIRST_BUFFER_NODE + 5);
    assert!(ipcc.c1_rx_enabled[IPCC_BLE_EVENT_CHANNEL.index()]);
    assert!(!ipcc.c1_flag[IPCC_BLE_CMD_CHANNEL.index()]);
}

#[test]
fn pool_size_rounds_each_buffer_to_words() {
    assert_eq!(divc(266, 4), 67);
    assert_eq!(divc(8, 4), 2);
    assert_eq!(POOL_SIZE, 5 * 4 * divc(8 + 3 + 255, 4));
}

#[test]
fn evt_handler_moves_three_events_in_order() {
    let (mut mbox, mut ipcc) = TlMbox::tl_init(layout(), 5);
    let a = FIRST_BUFFER_NODE;
    insert_tail(&mut mbox.pool, EVT_QUEUE, a + 2);
    insert_tail(&mut mbox.pool, EVT_QUEUE, a);
    insert_tail(&mut mbox.pool, EVT_QUEUE, a + 4);
    ipcc.peer_signalled(IPCC_BLE_EVENT_CHANNEL);
    let mut queue = EvtQueue::new();
    mbox.ble.evt_handler(&mut mbox.pool, &mut ipcc, &mut queue);
    assert_eq!(queue.len(), 3);
    assert_eq!(queue.dequeue().unwrap().node(), a + 2);
    assert_eq!(queue.dequeue().unwrap().node(), a);
    assert_eq!(queue.dequeue().unwrap().node(), a + 4);
    assert!(queue.dequeue().is_none());
    assert!(is_empty(&mbox.pool, EVT_QUEUE));
    assert!(!ipcc.c2_flag[IPCC_BLE_EVENT_CHANNEL.index()]);
}

#[test]
fn evt_handler_fills_the_queue_to_its_capacity() {
    let (mut mbox, mut ipcc) = TlMbox::tl_init(layout(), 3);
    let mut queue = EvtQueue::new();
    for n in 100..129 {
        assert!(queue.enqueue(EvtBox::new(n)).is_ok());
    }
    let a = FIRST_BUFFER_NODE;
    for n in [a, a + 1, a + 2] {
        insert_tail(&mut mbox.pool, EVT_QUEUE, n);
    }
    assert_eq!(queue.len() + get_size(&mbox.pool, EVT_QUEUE), 32);
    mbox.ble.evt_handler(&mut mbox.pool, &mut ipcc, &mut queue);
    assert_eq!(queue.len(), 32);
    for n in 100..129 {
        assert_eq!(queue.dequeue().unwrap().node(), n);
    }
    assert_eq!(queue.dequeue().unwrap().node(), a);
    assert_eq!(queue.dequeue().unwrap().node(), a + 1);
    assert_eq!(queue.dequeue().unwrap().node(), a + 2);
    assert!(is_empty(&mbox.pool, EVT_QUEUE));
}

#[test]
fn tl_init_zeroes_every_buffer() {
    let (mbox, _ipcc) = TlMbox::tl_init(layout(), 4);
    assert!(mbox.cmd_buffer.serial.iter().all(|&b| b == 0));
    assert!(mbox.acl_buffer.serial.iter().all(|&b| b == 0));
    assert!(mbox.evt_packets.iter().all(|p| p.kind() == 0 && p.evt().evtcode == 0 && p.evt().plen == 0));
    assert_eq!(mbox.device_info_table.fus_info_table.version, 0);
}

#[test]
fn send_cmd_writes_tag_then_bytes_and_rings() {
    let (mut mbox, mut ipcc) = TlMbox::tl_init(layout(), 1);
    let bytes = [0x03u8, 0x0c, 0x00];
    let r = mbox.ble.send_cmd(&mut mbox.cmd_buffer, &mut ipcc, &bytes);
    assert_eq!(r, Ok(()));
    assert_eq!(&mbox.cmd_buffer.serial[..4], &[TL_BLECMD_PKT_TYPE, 0x03, 0x0c, 0x00]);
    assert!(mbox.cmd_buffer.serial[4..].iter().all(|&b| b == 0));
    let serial = mbox.cmd_buffer.cmdserial();
    assert_eq!(serial.kind, TL_BLECMD_PKT_TYPE);
    assert_eq!(serial.cmd.cmdcode, 0x0c03);
    assert_eq!(serial.cmd.plen, 0);
    assert!(ipcc.c1_flag[IPCC_BLE_CMD_CHANNEL.index()]);
}

#[test]
fn send_cmd_accepts_the_largest_payload() {
    let (mut mbox, mut ipcc) = TlMbox::tl_init(layout(), 1);
    let bytes = vec![0xAAu8; 258];
    assert_eq!(mbox.ble.send_cmd(&mut mbox.cmd_buffer, &mut ipcc, &bytes), Ok(()));
    assert_eq!(mbox.cmd_buffer.serial[0], TL_BLECMD_PKT_TYPE);
    assert!(mbox.cmd_buffer.serial[1..].iter().all(|&b| b == 0xAA));
}

#[test]
fn send_cmd_refuses_oversized_input() {
    let (mut mbox, mut ipcc) = TlMbox::tl_init(layout(), 1);
    let bytes = vec![0xAAu8; 259];
    let r = mbox.ble.send_cmd(&mut mbox.cmd_buffer, &mut ipcc, &bytes);
    assert_eq!(r, Err(BleError::PayloadTooLarge));
    assert!(mbox.cmd_buffer.serial.iter().all(|&b| b == 0));
    assert!(!ipcc.c1_flag[IPCC_BLE_CMD_CHANNEL.index()]);
}

#[test]
fn send_acl_data_tags_rings_and_waits() {
    let (mut mbox, mut ipcc) = TlMbox::tl_init(layout(), 1);
    let bytes = [0x01u8, 0x00, 0x02, 0x00, 0xAB, 0xCD];
    assert_eq!(mbox.ble.send_acl_data(&mut mbox.acl_buffer, &mut ipcc, &bytes), Ok(()));
    assert_eq!(&mbox.acl_buffer.serial[..7], &[TL_ACL_DATA_PKT_TYPE, 1, 0, 2, 0, 0xAB, 0xCD]);
    let serial = mbox.acl_buffer.acl_data_serial();
    assert_eq!(serial.handle, 0x0001);
    assert_eq!(serial.length, 0x0002);
    assert!(ipcc.c1_flag[IPCC_HCI_ACL_DATA_CHANNEL.index()]);
    assert!(ipcc.c1_tx_enabled[IPCC_HCI_ACL_DATA_CHANNEL.index()]);
    mbox.ble.acl_data_evt_handler(&mut ipcc);
    assert!(!ipcc.c1_tx_enabled[IPCC_HCI_ACL_DATA_CHANNEL.index()]);
    let too_long = vec![0u8; 256];
    assert_eq!(
        mbox.ble.send_acl_data(&mut mbox.acl_buffer, &mut ipcc, &too_long),
        Err(BleError::PayloadTooLarge)
    );
}

#[test]
fn evt_drop_on_free_channel_hands_over_and_rings() {
    let (mut mbox, mut ipcc) = TlMbox::tl_init(layout(), 3);
    let b = FIRST_BUFFER_NODE;
    evt_drop(&mut mbox.pool, &mut ipcc, b);
    assert_eq!(members(&mbox.pool, FREE_BUF_QUEUE), vec![b]);
    assert!(is_empty(&mbox.pool, LOCAL_FREE_BUF_QUEUE));
    assert!(ipcc.c1_flag[IPCC_MM_RELEASE_BUFFER_CHANNEL.index()]);
}

#[test]
fn evt_drop_while_busy_coalesces_into_one_ring() {
    let (mut mbox, mut ipcc) = TlMbox::tl_init(layout(), 4);
    let b = FIRST_BUFFER_NODE;
    // First release rings; the channel stays busy until the peer answers.
    evt_drop(&mut mbox.pool, &mut ipcc, b);
    assert!(ipcc.c1_flag[IPCC_MM_RELEASE_BUFFER_CHANNEL.index()]);
    assert_eq!(members(&mbox.pool, FREE_BUF_QUEUE), vec![b]);
    // Three more while busy: staged only, the shared queue is untouched.
    evt_drop(&mut mbox.pool, &mut ipcc, b + 1);
    evt_drop(&mut mbox.pool, &mut ipcc, b + 2);
    evt_drop(&mut mbox.pool, &mut ipcc, b + 3);
    assert_eq!(members(&mbox.pool, FREE_BUF_QUEUE), vec![b]);
    assert_eq!(members(&mbox.pool, LOCAL_FREE_BUF_QUEUE), vec![b + 1, b + 2, b + 3]);
    assert!(ipcc.c1_tx_enabled[IPCC_MM_RELEASE_BUFFER_CHANNEL.index()]);
    // The peer acknowledges: the doorbell rings again, everything handed over.
    ipcc.peer_acknowledged(IPCC_MM_RELEASE_BUFFER_CHANNEL);
    assert!(!ipcc.c1_flag[IPCC_MM_RELEASE_BUFFER_CHANNEL.index()]);
    free_buf_handler(&mut mbox.pool, &mut ipcc);
    assert!(ipcc.c1_flag[IPCC_MM_RELEASE_BUFFER_CHANNEL.index()]);
    assert_eq!(members(&mbox.pool, FREE_BUF_QUEUE), vec![b, b + 1, b + 2, b + 3]);
    assert!(is_empty(&mbox.pool, LOCAL_FREE_BUF_QUEUE));
    assert!(!ipcc.c1_tx_enabled[IPCC_MM_RELEASE_BUFFER_CHANNEL.index()]);
}

#[test]
fn free_buf_handler_with_nothing_staged_does_not_ring() {
    let (mut mbox, mut ipcc) = TlMbox::tl_init(layout(), 1);
    free_buf_handler(&mut mbox.pool, &mut ipcc);
    assert!(!ipcc.c1_flag[IPCC_MM_RELEASE_BUFFER_CHANNEL.index()]);
}

#[test]
fn send_free_buf_keeps_release_order() {
    let (mut mbox, _ipcc) = TlMbox::tl_init(layout(), 3);
    let b = FIRST_BUFFER_NODE;
    insert_tail(&mut mbox.pool, LOCAL_FREE_BUF_QUEUE, b + 2);
    insert_tail(&mut mbox.pool, LOCAL_FREE_BUF_QUEUE, b);
    send_free_buf(&mut mbox.pool);
    assert_eq!(members(&mbox.pool, FREE_BUF_QUEUE), vec![b + 2, b]);
    assert!(is_empty(&mbox.pool, LOCAL_FREE_BUF_QUEUE));
}

#[test]
fn released_event_boxes_return_each_buffer_once() {
    let (mut mbox, mut ipcc) = TlMbox::tl_init(layout(), 3);
    let b = FIRST_BUFFER_NODE;
    for n in [b, b + 1, b + 2] {
        insert_tail(&mut mbox.pool, EVT_QUEUE, n);
    }
    let mut queue = EvtQueue::new();
    mbox.ble.evt_handler(&mut mbox.pool, &mut ipcc, &mut queue);
    let first = queue.dequeue().unwrap();
    let second = queue.dequeue().unwrap();
    let third = queue.dequeue().unwrap();
    // Release out of order, with an acknowledgement in between.
    third.release(&mut mbox.pool, &mut ipcc);
    ipcc.peer_acknowledged(IPCC_MM_RELEASE_BUFFER_CHANNEL);
    free_buf_handler(&mut mbox.pool, &mut ipcc);
    first.release(&mut mbox.pool, &mut ipcc);
    second.release(&mut mbox.pool, &mut ipcc);
    ipcc.peer_acknowledged(IPCC_MM_RELEASE_BUFFER_CHANNEL);
    free_buf_handler(&mut mbox.pool, &mut ipcc);
    let mut back = members(&mbox.pool, FREE_BUF_QUEUE);
    assert_eq!(back, vec![b + 2, b, b + 1]);
    back.sort();
    back.dedup();
    assert_eq!(back.len(), 3);
}

#[test]
fn event_box_copies_its_packet() {
    let (mut mbox, _ipcc) = TlMbox::tl_init(layout(), 2);
    let b = FIRST_BUFFER_NODE + 1;
    mbox.evt_packets[b].evtserial.kind = 0x04;
    mbox.evt_packets[b].evtserial.evt.evtcode = 0x0e;
    let boxed = EvtBox::new(b);
    let copy = boxed.evt(&mbox.evt_packets);
    assert_eq!(copy.kind(), 0x04);
    assert_eq!(copy.evt().evtcode, 0x0e);
}

#[test]
fn event_queue_refuses_a_thirty_third_handle() {
    let mut queue = EvtQueue::new();
    for n in 0..32 {
        assert!(queue.enqueue(EvtBox::new(n)).is_ok());
    }
    let back = queue.enqueue(EvtBox::new(99));
    assert_eq!(back.err().unwrap().node(), 99);
    assert_eq!(queue.len(), 32);
}

