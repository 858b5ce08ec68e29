//! Model of the inter-processor communication controller: one doorbell flag
//! per channel and direction, plus the interrupt enables of the host side.
//!
//! The model holds the register contents as plain values; whatever drives the
//! hardware copies them to and from the peripheral.
use vstd::prelude::*;

verus! {

/// One of the six channels of each direction.
#[derive(Clone, Copy, Debug, PartialEq, Eq, Structural)]
pub enum IpccChannel {
    Channel1,
    Channel2,
    Channel3,
    Channel4,
    Channel5,
    Channel6,
}

impl IpccChannel {
    pub open spec fn spec_index(self) -> int {
        match self {
            IpccChannel::Channel1 => 0,
            IpccChannel::Channel2 => 1,
            IpccChannel::Channel3 => 2,
            IpccChannel::Channel4 => 3,
            IpccChannel::Channel5 => 4,
            IpccChannel::Channel6 => 5,
        }
    }

    /// Zero-based position of the channel.
    pub fn index(self) -> (r: usize)
        ensures
            r == self.spec_index(),
            r < 6,
    {
        match self {
            IpccChannel::Channel1 => 0,
            IpccChannel::Channel2 => 1,
            IpccChannel::Channel3 => 2,
            IpccChannel::Channel4 => 3,
            IpccChannel::Channel5 => 4,
            IpccChannel::Channel6 => 5,
        }
    }
}

/// Channel flags and enables. `c1_*` is the host-to-peer direction, `c2_*`
/// the peer-to-host one. `rings` records, in order, every channel on which the
/// host rang the peer's doorbell.
///
/// Register by register: `c1_flag` is the host-to-peer status register
/// (C1TOC2SR), set through the set bits of C1SCR and cleared by the peer;
/// `c2_flag` is the peer-to-host status register (C2TOC1SR), cleared through
/// the clear bits of C1SCR; `c1_rx_enabled` and `c1_tx_enabled` are the
/// occupied and free interrupt masks of C1MR, inverted.
pub struct Ipcc {
    pub c1_flag: Vec<bool>,
    pub c1_tx_enabled: Vec<bool>,
    pub c1_rx_enabled: Vec<bool>,
    pub c2_flag: Vec<bool>,
    pub rings: Ghost<Seq<IpccChannel>>,
}

impl Ipcc {
    pub open spec fn wf(&self) -> bool {
        &&& self.c1_flag@.len() == 6
        &&& self.c1_tx_enabled@.len() == 6
        &&& self.c1_rx_enabled@.len() == 6
        &&& self.c2_flag@.len() == 6
    }

    /// Whether the host's doorbell on `ch` is still unacknowledged.
    pub open spec fn busy(&self, ch: IpccChannel) -> bool {
        self.c1_flag@[ch.spec_index()]
    }

    pub open spec fn tx_enabled(&self, ch: IpccChannel) -> bool {
        self.c1_tx_enabled@[ch.spec_index()]
    }

    pub open spec fn rx_enabled(&self, ch: IpccChannel) -> bool {
        self.c1_rx_enabled@[ch.spec_index()]
    }

    /// Whether the peer's doorbell on `ch` is set.
    pub open spec fn peer_flag(&self, ch: IpccChannel) -> bool {
        self.c2_flag@[ch.spec_index()]
    }

    /// All flags clear, all interrupts disabled, nothing rung yet.
    pub fn new() -> (r: Ipcc)
        ensures
            r.wf(),
            r.rings@ == Seq::<IpccChannel>::empty(),
            forall|ch: IpccChannel|
                !r.busy(ch) && !r.tx_enabled(ch) && !r.rx_enabled(ch) && !r.peer_flag(ch),
    {
        Ipcc {
            c1_flag: vec![false, false, false, false, false, false],
            c1_tx_enabled: vec![false, false, false, false, false, false],
            c1_rx_enabled: vec![false, false, false, false, false, false],
            c2_flag: vec![false, false, false, false, false, false],
            rings: Ghost(Seq::empty()),
        }
    }

    /// Rings the peer's doorbell on `ch`.
    pub fn c1_set_flag_channel(&mut self, ch: IpccChannel)
        requires
            old(self).wf(),
        ensures
            final(self).wf(),
            final(self).c1_flag@ == old(self).c1_flag@.update(ch.spec_index(), true),
            final(self).c1_tx_enabled@ == old(self).c1_tx_enabled@,
            final(self).c1_rx_enabled@ == old(self).c1_rx_enabled@,
            final(self).c2_flag@ == old(self).c2_flag@,
            final(self).rings@ == old(self).rings@.push(ch),
    {
        let i = ch.index();
        self.c1_flag.set(i, true);
        proof {
            self.rings@ = self.rings@.push(ch);
        }
    }

    /// Acknowledges the peer's doorbell on `ch`.
    pub fn c1_clear_flag_channel(&mut self, ch: IpccChannel)
        requires
            old(self).wf(),
        ensures
            final(self).wf(),
            final(self).c2_flag@ == old(self).c2_flag@.update(ch.spec_index(), false),
            final(self).c1_flag@ == old(self).c1_flag@,
            final(self).c1_tx_enabled@ == old(self).c1_tx_enabled@,
            final(self).c1_rx_enabled@ == old(self).c1_rx_enabled@,
            final(self).rings@ == old(self).rings@,
    {
        let i = ch.index();
        self.c2_flag.set(i, false);
    }

    /// Whether the host's doorbell on `ch` is still set.
    pub fn c1_is_active_flag(&self, ch: IpccChannel) -> (r: bool)
        requires
            self.wf(),
        ensures
            r == self.busy(ch),
    {
        self.c1_flag[ch.index()]
    }

    /// Enables or disables the "channel free" interrupt of `ch`.
    pub fn c1_set_tx_channel(&mut self, ch: IpccChannel, enabled: bool)
        requires
            old(self).wf(),
        ensures
            final(self).wf(),
            final(self).c1_tx_enabled@ == old(self).c1_tx_enabled@.update(ch.spec_index(), enabled),
            final(self).c1_flag@ == old(self).c1_flag@,
            final(self).c1_rx_enabled@ == old(self).c1_rx_enabled@,
            final(self).c2_flag@ == old(self).c2_flag@,
            final(self).rings@ == old(self).rings@,
    {
        let i = ch.index();
        self.c1_tx_enabled.set(i, enabled);
    }

    /// Enables or disables the "message received" interrupt of `ch`.
    pub fn c1_set_rx_channel(&mut self, ch: IpccChannel, enabled: bool)
        requires
            old(self).wf(),
        ensures
            final(self).wf(),
            final(self).c1_rx_enabled@ == old(self).c1_rx_enabled@.update(ch.spec_index(), enabled),
            final(self).c1_flag@ == old(self).c1_flag@,
            final(self).c1_tx_enabled@ == old(self).c1_tx_enabled@,
            final(self).c2_flag@ == old(self).c2_flag@,
            final(self).rings@ == old(self).rings@,
    {
        let i = ch.index();
        self.c1_rx_enabled.set(i, enabled);
    }

    /// Records that the peer acknowledged the host's doorbell on `ch`.
    pub fn peer_acknowledged(&mut self, ch: IpccChannel)
        requires
            old(self).wf(),
        ensures
            final(self).wf(),
            final(self).c1_flag@ == old(self).c1_flag@.update(ch.spec_index(), false),
            final(self).c1_tx_enabled@ == old(self).c1_tx_enabled@,
            final(self).c1_rx_enabled@ == old(self).c1_rx_enabled@,
            final(self).c2_flag@ == old(self).c2_flag@,
            final(self).rings@ == old(self).rings@,
    {
        let i = ch.index();
        self.c1_flag.set(i, false);
    }

    /// Records that the peer rang the host's doorbell on `ch`.
    pub fn peer_signalled(&mut self, ch: IpccChannel)
        requires
            old(self).wf(),
        ensures
            final(self).wf(),
            final(self).c2_flag@ == old(self).c2_flag@.update(ch.spec_index(), true),
            final(self).c1_flag@ == old(self).c1_flag@,
            final(self).c1_tx_enabled@ == old(self).c1_tx_enabled@,
            final(self).c1_rx_enabled@ == old(self).c1_rx_enabled@,
            final(self).rings@ == old(self).rings@,
    {
        let i = ch.index();
        self.c2_flag.set(i, true);
    }
}

} // verus!
