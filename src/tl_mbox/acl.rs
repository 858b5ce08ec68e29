//! ACL data packet layout.
use crate::tl_mbox::cmd::le16;
use crate::tl_mbox::linked_list::ListNode;
use vstd::prelude::*;

verus! {

/// ACL data as it goes on the wire: kind tag, connection handle, length,
/// then the data.
pub struct AclDataSerial {
    pub kind: u8,
    pub handle: u16,
    pub length: u16,
    pub acl_data: Vec<u8>,
}

/// The fixed ACL buffer: list links, then the serial bytes, of which
/// `serial[0]` is the kind tag.
pub struct AclDataPacket {
    pub header: ListNode,
    pub serial: Vec<u8>,
}

impl AclDataPacket {
    /// A zeroed ACL buffer.
    pub fn new() -> (r: AclDataPacket)
        ensures
            r.serial@.len() == 1 + crate::tl_mbox::consts::ACL_SERIAL_BODY_SIZE,
            forall|i: int| 0 <= i < r.serial@.len() ==> r.serial@[i] == 0,
            r.header.next == 0,
            r.header.prev == 0,
    {
        let mut serial: Vec<u8> = Vec::new();
        let mut i: usize = 0;
        while i < 1 + crate::tl_mbox::consts::ACL_SERIAL_BODY_SIZE
            invariant
                i <= 1 + crate::tl_mbox::consts::ACL_SERIAL_BODY_SIZE,
                serial@.len() == i,
                forall|j: int| 0 <= j < i ==> serial@[j] == 0,
            decreases 1 + crate::tl_mbox::consts::ACL_SERIAL_BODY_SIZE - i,
        {
            serial.push(0);
            i = i + 1;
        }
        AclDataPacket { header: ListNode { next: 0, prev: 0 }, serial }
    }

    /// The serial bytes read as ACL data: kind, little-endian handle and
    /// length, then the data bytes.
    pub fn acl_data_serial(&self) -> (r: AclDataSerial)
        requires
            self.serial@.len() >= 5,
        ensures
            r.kind == self.serial@[0],
            r.handle == le16(self.serial@[1], self.serial@[2]),
            r.length == le16(self.serial@[3], self.serial@[4]),
            r.acl_data@ == self.serial@.subrange(5, self.serial@.len() as int),
    {
        let mut data: Vec<u8> = Vec::new();
        let mut i: usize = 5;
        while i < self.serial.len()
            invariant
                5 <= i <= self.serial@.len(),
                data@ == self.serial@.subrange(5, i as int),
            decreases self.serial@.len() - i,
        {
            data.push(self.serial[i]);
            i = i + 1;
            proof {
                assert(data@ =~= self.serial@.subrange(5, i as int));
            }
        }
        let handle = self.serial[1] as u16 + (self.serial[2] as u16) * 256;
        let length = self.serial[3] as u16 + (self.serial[4] as u16) * 256;
        AclDataSerial { kind: self.serial[0], handle, length, acl_data: data }
    }
}

} // verus!
