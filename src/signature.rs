//! Device signature: unique id and flash size.
use vstd::prelude::*;

verus! {

/// The 96-bit unique device id.
#[derive(Clone, Copy, Debug)]
pub struct Uid {
    pub x: u16,
    pub y: u16,
    pub waf_lot: [u8; 8],
}

impl Uid {
    /// X coordinate on the wafer.
    pub fn x(&self) -> (r: u16)
        ensures
            r == self.x,
    {
        self.x
    }

    /// Y coordinate on the wafer.
    pub fn y(&self) -> (r: u16)
        ensures
            r == self.y,
    {
        self.y
    }

    /// Wafer number.
    pub fn waf_num(&self) -> (r: u8)
        ensures
            r == self.waf_lot@[0],
    {
        self.waf_lot[0]
    }

    /// The seven ASCII bytes of the lot number.
    pub fn lot_num(&self) -> (r: Vec<u8>)
        ensures
            r@ == self.waf_lot@.subrange(1, 8),
    {
        let mut v: Vec<u8> = Vec::new();
        let mut i: usize = 1;
        while i < 8
            invariant
                1 <= i <= 8,
                v@ == self.waf_lot@.subrange(1, i as int),
            decreases 8 - i,
        {
            v.push(self.waf_lot[i]);
            i = i + 1;
            proof {
                assert(v@ =~= self.waf_lot@.subrange(1, i as int));
            }
        }
        v
    }
}

/// Flash size in kilobytes.
#[derive(Clone, Copy, Debug, PartialEq, Eq, Structural)]
pub struct FlashSize {
    kb: u16,
}

impl FlashSize {
    pub closed spec fn spec_kilo_bytes(self) -> u16 {
        self.kb
    }

    pub fn new(kb: u16) -> (r: FlashSize)
        ensures
            r.spec_kilo_bytes() == kb,
    {
        FlashSize { kb }
    }

    pub fn kilo_bytes(&self) -> (r: u16)
        ensures
            r == self.spec_kilo_bytes(),
    {
        self.kb
    }

    pub fn bytes(&self) -> (r: usize)
        ensures
            r == self.spec_kilo_bytes() * 1024,
    {
        self.kilo_bytes() as usize * 1024
    }
}

} // verus!
