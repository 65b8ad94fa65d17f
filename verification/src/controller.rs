//! A model of the underlying bus driver's observable state.
//!
//! The vendor driver performs the register-level work; what this layer relies
//! on is only its documented, observable behaviour: a controller is
//! initialized at most once, devices are attached append-only, exclusive bus
//! ownership is acquired and released in strict pairs, transfers run one at a
//! time, and the bytes the peripheral shifts in arrive in order. The
//! [`SpiController`] value holds exactly that state, so every operation of
//! the layer can state precisely how it changes it.

use vstd::prelude::*;

verus! {

/// One observable step of the driver on the physical bus, in the order the
/// steps happened. The log of these events is ghost state: it exists only to
/// state and prove the ordering guarantees of the layer.
pub enum BusEvent {
    /// A device took exclusive ownership of the bus.
    Acquired { device: nat },
    /// A device gave exclusive ownership of the bus back.
    Released { device: nat },
    /// A transfer of the given bit lengths began on the bus.
    TransferStarted { device: nat, length_bits: nat, rx_bits: nat },
    /// The transfer that was in flight reported completion.
    TransferCompleted { device: nat },
}

/// The device an event belongs to.
pub open spec fn event_device(e: BusEvent) -> nat {
    match e {
        BusEvent::Acquired { device } => device,
        BusEvent::Released { device } => device,
        BusEvent::TransferStarted { device, .. } => device,
        BusEvent::TransferCompleted { device } => device,
    }
}

/// Transfers on the bus never overlap: every start event is immediately
/// followed by the matching completion event, so no second transfer begins
/// while one is in flight.
pub open spec fn transfers_paired(log: Seq<BusEvent>) -> bool {
    forall|i: int|
        #![trigger log[i]]
        0 <= i < log.len() ==> (log[i] matches BusEvent::TransferStarted { device, .. }
            ==> i + 1 < log.len() && log[i + 1] == (BusEvent::TransferCompleted { device }))
}

/// The observable state of the driver for one physical bus controller.
pub struct SpiController {
    /// Whether the controller has been initialized and not yet torn down.
    pub initialized: bool,
    /// The maximum size of a single transfer, in bytes, fixed at
    /// initialization.
    pub max_transfer_bytes: u32,
    /// The device currently holding exclusive ownership of the bus, if any.
    pub holder: Option<u32>,
    /// How many times exclusive ownership of the bus was acquired.
    pub acquire_count: u64,
    /// How many times exclusive ownership of the bus was released.
    pub release_count: u64,
    /// How many transfers completed on the bus.
    pub transfer_count: u64,
    /// How many devices are attached; device identifiers are below it.
    pub device_count: u32,
    /// The bytes the attached peripheral will shift in, oldest first. The
    /// environment supplies them; once exhausted, an idle data-in line reads
    /// as zero.
    pub incoming: Vec<u8>,
    /// How many of the incoming bytes have already been shifted in.
    pub rx_cursor: usize,
    /// Every byte that was shifted out on the bus, in order.
    pub outgoing: Vec<u8>,
    /// The ordered log of observable bus events.
    pub log: Ghost<Seq<BusEvent>>,
}

/// The next byte the peripheral will shift in: the first unconsumed incoming
/// byte, or zero once the supplied bytes are exhausted.
pub open spec fn next_word(c: SpiController) -> u8 {
    if c.rx_cursor < c.incoming@.len() {
        c.incoming@[c.rx_cursor as int]
    } else {
        0u8
    }
}

/// The `n` bytes a transfer started in state `c` shifts in: the unconsumed
/// incoming bytes in order, padded with zeroes once they are exhausted.
pub open spec fn shifted_in(c: SpiController, n: nat) -> Seq<u8> {
    Seq::new(
        n,
        |j: int|
            if c.rx_cursor + j < c.incoming@.len() {
                c.incoming@[c.rx_cursor + j]
            } else {
                0u8
            },
    )
}

/// How many bytes carry a transfer of `rx_bits` bits.
pub open spec fn rx_byte_len(rx_bits: nat) -> nat {
    (rx_bits + 7) / 8
}

/// Where the incoming cursor stands after shifting in `n` bytes in state `c`.
pub open spec fn advanced_cursor(c: SpiController, n: nat) -> nat {
    if c.rx_cursor + n <= c.incoming@.len() {
        (c.rx_cursor + n) as nat
    } else {
        c.incoming@.len()
    }
}

/// The static configuration of the controller is the same in both states.
pub open spec fn same_config(a: SpiController, b: SpiController) -> bool {
    &&& a.initialized == b.initialized
    &&& a.max_transfer_bytes == b.max_transfer_bytes
    &&& a.device_count == b.device_count
}

/// The data lines of the controller are the same in both states: nothing was
/// shifted in or out between them.
pub open spec fn same_line(a: SpiController, b: SpiController) -> bool {
    &&& a.incoming@ == b.incoming@
    &&& a.rx_cursor == b.rx_cursor
    &&& a.outgoing@ == b.outgoing@
}

/// Exclusive ownership of the bus is balanced: it has been released as often
/// as it was acquired.
pub open spec fn balanced(c: SpiController) -> bool {
    c.acquire_count == c.release_count
}

impl SpiController {
    /// Well-formedness of the modeled driver state: the incoming cursor is in
    /// range, ownership bookkeeping matches the holder, only attached devices
    /// hold the bus, an uninitialized controller has no devices, and the
    /// event log shows no overlapping transfers.
    pub open spec fn wf(self) -> bool {
        &&& self.rx_cursor <= self.incoming@.len()
        &&& match self.holder {
            Some(d) => self.acquire_count == self.release_count + 1 && d < self.device_count,
            None => self.acquire_count == self.release_count,
        }
        &&& !self.initialized ==> self.device_count == 0
        &&& transfers_paired(self.log@)
    }

    /// A controller that has never been initialized: no devices, no
    /// ownership, nothing on the lines.
    pub fn new() -> (r: SpiController)
        ensures
            !r.initialized,
            r.max_transfer_bytes == 0,
            r.holder is None,
            r.acquire_count == 0,
            r.release_count == 0,
            r.transfer_count == 0,
            r.device_count == 0,
            r.incoming@ == Seq::<u8>::empty(),
            r.rx_cursor == 0,
            r.outgoing@ == Seq::<u8>::empty(),
            r.log@ == Seq::<BusEvent>::empty(),
            r.wf(),
    {
        SpiController {
            initialized: false,
            max_transfer_bytes: 0,
            holder: None,
            acquire_count: 0,
            release_count: 0,
            transfer_count: 0,
            device_count: 0,
            incoming: Vec::new(),
            rx_cursor: 0,
            outgoing: Vec::new(),
            log: Ghost(Seq::empty()),
        }
    }

    /// Append bytes for the peripheral to shift in on coming transfers. In a
    /// deployment the peripheral hardware determines these; here the
    /// environment supplies them.
    pub fn feed_incoming(&mut self, bytes: &[u8])
        requires
            old(self).wf(),
        ensures
            final(self).incoming@ == old(self).incoming@ + bytes@,
            final(self).rx_cursor == old(self).rx_cursor,
            final(self).outgoing@ == old(self).outgoing@,
            final(self).holder == old(self).holder,
            final(self).acquire_count == old(self).acquire_count,
            final(self).release_count == old(self).release_count,
            final(self).transfer_count == old(self).transfer_count,
            same_config(*final(self), *old(self)),
            final(self).log@ == old(self).log@,
            final(self).wf(),
    {
        let mut i: usize = 0;
        while i < bytes.len()
            invariant
                i <= bytes@.len(),
                self.incoming@ == old(self).incoming@ + bytes@.take(i as int),
                self.rx_cursor == old(self).rx_cursor,
                self.outgoing@ == old(self).outgoing@,
                self.holder == old(self).holder,
                self.acquire_count == old(self).acquire_count,
                self.release_count == old(self).release_count,
                self.transfer_count == old(self).transfer_count,
                self.initialized == old(self).initialized,
                self.max_transfer_bytes == old(self).max_transfer_bytes,
                self.device_count == old(self).device_count,
                self.log@ == old(self).log@,
                old(self).wf(),
            decreases bytes@.len() - i,
        {
            self.incoming.push(bytes[i]);
            i = i + 1;
            proof {
                assert(self.incoming@ =~= old(self).incoming@ + bytes@.take(i as int));
            }
        }
        proof {
            assert(self.incoming@ =~= old(self).incoming@ + bytes@);
        }
    }

    /// Take exclusive ownership of the bus for `device`. Models the driver's
    /// bus-acquisition primitive at the moment its unbounded wait returns.
    pub(crate) fn acquire(&mut self, device: u32)
        requires
            old(self).wf(),
            old(self).holder is None,
            device < old(self).device_count,
            old(self).acquire_count < u64::MAX,
        ensures
            final(self).holder == Some(device),
            final(self).acquire_count == old(self).acquire_count + 1,
            final(self).release_count == old(self).release_count,
            final(self).transfer_count == old(self).transfer_count,
            same_config(*final(self), *old(self)),
            same_line(*final(self), *old(self)),
            final(self).log@ == old(self).log@.push(BusEvent::Acquired { device: device as nat }),
            final(self).wf(),
    {
        self.holder = Some(device);
        self.acquire_count = self.acquire_count + 1;
        self.log = Ghost(self.log@.push(BusEvent::Acquired { device: device as nat }));
    }

    /// Give exclusive ownership of the bus back. Models the driver's
    /// bus-release primitive.
    pub(crate) fn release(&mut self, device: u32)
        requires
            old(self).wf(),
            old(self).holder == Some(device),
        ensures
            final(self).holder is None,
            final(self).release_count == old(self).release_count + 1,
            final(self).acquire_count == old(self).acquire_count,
            final(self).transfer_count == old(self).transfer_count,
            same_config(*final(self), *old(self)),
            same_line(*final(self), *old(self)),
            final(self).log@ == old(self).log@.push(BusEvent::Released { device: device as nat }),
            final(self).wf(),
    {
        self.holder = None;
        self.release_count = self.release_count + 1;
        self.log = Ghost(self.log@.push(BusEvent::Released { device: device as nat }));
    }

    /// One complete exchange on the bus: `tx` is shifted out while
    /// `rx_byte_len(rx_bits)` bytes are shifted in. Models the driver's
    /// polling transmit between its start and its completion; the caller must
    /// hold the bus.
    pub(crate) fn exchange(&mut self, device: u32, tx: Option<&Vec<u8>>, length_bits: usize, rx_bits: usize) -> (r: Vec<u8>)
        requires
            old(self).wf(),
            old(self).holder == Some(device),
            old(self).transfer_count < u64::MAX,
        ensures
            r@ == shifted_in(*old(self), rx_byte_len(rx_bits as nat)),
            final(self).rx_cursor == advanced_cursor(*old(self), rx_byte_len(rx_bits as nat)),
            final(self).incoming@ == old(self).incoming@,
            final(self).outgoing@ == old(self).outgoing@ + (match tx {
                Some(b) => b@,
                None => Seq::<u8>::empty(),
            }),
            final(self).transfer_count == old(self).transfer_count + 1,
            final(self).holder == old(self).holder,
            final(self).acquire_count == old(self).acquire_count,
            final(self).release_count == old(self).release_count,
            same_config(*final(self), *old(self)),
            final(self).log@ == old(self).log@.push(
                BusEvent::TransferStarted {
                    device: device as nat,
                    length_bits: length_bits as nat,
                    rx_bits: rx_bits as nat,
                },
            ).push(BusEvent::TransferCompleted { device: device as nat }),
            final(self).wf(),
    {
        let n: usize = rx_bits / 8 + if rx_bits % 8 != 0 {
            1
        } else {
            0
        };
        proof {
            assert(n as nat == rx_byte_len(rx_bits as nat)) by (nonlinear_arith)
                requires
                    n == rx_bits / 8 + if rx_bits % 8 != 0 { 1int } else { 0int },
            ;
        }
        let ghost c0 = *self;
        let mut r: Vec<u8> = Vec::new();
        let mut j: usize = 0;
        while j < n
            invariant
                j <= n,
                r@ == shifted_in(c0, j as nat),
                self.rx_cursor == advanced_cursor(c0, j as nat),
                self.incoming@ == c0.incoming@,
                self.outgoing@ == c0.outgoing@,
                self.holder == c0.holder,
                self.acquire_count == c0.acquire_count,
                self.release_count == c0.release_count,
                self.transfer_count == c0.transfer_count,
                self.initialized == c0.initialized,
                self.max_transfer_bytes == c0.max_transfer_bytes,
                self.device_count == c0.device_count,
                self.log@ == c0.log@,
                c0.wf(),
                self.rx_cursor <= self.incoming@.len(),
            decreases n - j,
        {
            let b: u8;
            if self.rx_cursor < self.incoming.len() {
                b = self.incoming[self.rx_cursor];
                self.rx_cursor = self.rx_cursor + 1;
            } else {
                b = 0;
            }
            r.push(b);
            j = j + 1;
            proof {
                assert(r@ =~= shifted_in(c0, j as nat));
            }
        }
        if let Some(buf) = tx {
            let mut k: usize = 0;
            while k < buf.len()
                invariant
                    k <= buf@.len(),
                    r@ == shifted_in(c0, n as nat),
                    self.rx_cursor == advanced_cursor(c0, n as nat),
                    self.incoming@ == c0.incoming@,
                    self.outgoing@ == c0.outgoing@ + buf@.take(k as int),
                    self.holder == c0.holder,
                    self.acquire_count == c0.acquire_count,
                    self.release_count == c0.release_count,
                    self.transfer_count == c0.transfer_count,
                    self.initialized == c0.initialized,
                    self.max_transfer_bytes == c0.max_transfer_bytes,
                    self.device_count == c0.device_count,
                    self.log@ == c0.log@,
                    c0.wf(),
                    n as nat == rx_byte_len(rx_bits as nat),
                decreases buf@.len() - k,
            {
                self.outgoing.push(buf[k]);
                k = k + 1;
                proof {
                    assert(self.outgoing@ =~= c0.outgoing@ + buf@.take(k as int));
                }
            }
            proof {
                assert(self.outgoing@ =~= c0.outgoing@ + buf@);
            }
        } else {
            proof {
                assert(self.outgoing@ =~= c0.outgoing@ + Seq::<u8>::empty());
            }
        }
        self.transfer_count = self.transfer_count + 1;
        self.log = Ghost(
            self.log@.push(
                BusEvent::TransferStarted {
                    device: device as nat,
                    length_bits: length_bits as nat,
                    rx_bits: rx_bits as nat,
                },
            ).push(BusEvent::TransferCompleted { device: device as nat }),
        );
        r
    }
}

} // verus!
