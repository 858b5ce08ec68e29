//! Command packet layout.
use crate::tl_mbox::linked_list::ListNode;
use vstd::prelude::*;

verus! {

/// HCI command: opcode, parameter length and parameters.
pub struct Cmd {
    pub cmdcode: u16,
    pub plen: u8,
    pub payload: Vec<u8>,
}

/// A command as it goes on the wire: kind tag, then the command.
pub struct CmdSerial {
    pub kind: u8,
    pub cmd: Cmd,
}

/// The fixed command buffer: list links, then the serial bytes, of which
/// `serial[0]` is the kind tag.
pub struct CmdPacket {
    pub header: ListNode,
    pub serial: Vec<u8>,
}

/// Little-endian 16-bit value of two bytes.
pub open spec fn le16(lo: u8, hi: u8) -> int {
    lo as int + 256 * (hi as int)
}

impl CmdPacket {
    /// A zeroed command buffer.
    pub fn new() -> (r: CmdPacket)
        ensures
            r.serial@.len() == 1 + crate::tl_mbox::consts::CMD_SERIAL_BODY_SIZE,
            forall|i: int| 0 <= i < r.serial@.len() ==> r.serial@[i] == 0,
            r.header.next == 0,
            r.header.prev == 0,
    {
        let mut serial: Vec<u8> = Vec::new();
        let mut i: usize = 0;
        while i < 1 + crate::tl_mbox::consts::CMD_SERIAL_BODY_SIZE
            invariant
                i <= 1 + crate::tl_mbox::consts::CMD_SERIAL_BODY_SIZE,
                serial@.len() == i,
                forall|j: int| 0 <= j < i ==> serial@[j] == 0,
            decreases 1 + crate::tl_mbox::consts::CMD_SERIAL_BODY_SIZE - i,
        {
            serial.push(0);
            i = i + 1;
        }
        CmdPacket { header: ListNode { next: 0, prev: 0 }, serial }
    }

    /// The serial bytes read as a command: kind, little-endian opcode,
    /// length, then the payload bytes.
    pub fn cmdserial(&self) -> (r: CmdSerial)
        requires
            self.serial@.len() >= 4,
        ensures
            r.kind == self.serial@[0],
            r.cmd.cmdcode == le16(self.serial@[1], self.serial@[2]),
            r.cmd.plen == self.serial@[3],
            r.cmd.payload@ == self.serial@.subrange(4, self.serial@.len() as int),
    {
        let mut payload: Vec<u8> = Vec::new();
        let mut i: usize = 4;
        while i < self.serial.len()
            invariant
                4 <= i <= self.serial@.len(),
                payload@ == self.serial@.subrange(4, i as int),
            decreases self.serial@.len() - i,
        {
            payload.push(self.serial[i]);
            i = i + 1;
            proof {
                assert(payload@ =~= self.serial@.subrange(4, i as int));
            }
        }
        let cmdcode = self.serial[1] as u16 + (self.serial[2] as u16) * 256;
        CmdSerial { kind: self.serial[0], cmd: Cmd { cmdcode, plen: self.serial[3], payload } }
    }
}

} // verus!
