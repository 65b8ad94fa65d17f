//! The serial-bus layer: bus manager, device handles, transaction
//! descriptors and the exclusive-ownership guard.
//!
//! A [`SpiBus`] initializes one physical controller and attaches devices to
//! it; each attached device is handed back wrapped in a
//! [`SpiDeviceBusLock`], which issues single transactions directly or takes
//! an explicit [`SpiBusGuard`] for a multi-transaction sequence. Every
//! operation states exactly how it changes the modeled driver state, a
//! [`SpiController`] value passed in explicitly.

use vstd::prelude::*;

use crate::controller::advanced_cursor;
use crate::controller::next_word;
use crate::controller::rx_byte_len;
use crate::controller::same_config;
use crate::controller::same_line;
use crate::controller::shifted_in;
use crate::controller::BusEvent;
use crate::controller::SpiController;
use crate::gpio::GpioPin;
use crate::status::esp_err_t;
use crate::status::ESP_ERR_INVALID_ARG;
use crate::status::ESP_ERR_INVALID_STATE;
use crate::status::ESP_OK;

verus! {

/// Which physical controller a bus runs on.
#[derive(Clone, Copy, PartialEq, Eq, Structural, Debug)]
pub enum SpiHostDevice {
    Spi,
    Hspi,
    Vspi,
}

impl SpiHostDevice {
    /// The controller identifier of this host in the driver's numbering.
    pub open spec fn spec_index(self) -> u32 {
        match self {
            SpiHostDevice::Spi => 0,
            SpiHostDevice::Hspi => 1,
            SpiHostDevice::Vspi => 2,
        }
    }

    /// The controller identifier of this host in the driver's numbering.
    pub fn index(self) -> (r: u32)
        ensures
            r == self.spec_index(),
    {
        match self {
            SpiHostDevice::Spi => 0,
            SpiHostDevice::Hspi => 1,
            SpiHostDevice::Vspi => 2,
        }
    }
}

/// Pin assignment and transfer limit of one physical bus.
#[derive(Clone, Copy, PartialEq, Eq, Structural, Debug)]
pub struct SpiBusConfig {
    pub mosi_pin: GpioPin,
    pub miso_pin: GpioPin,
    pub sclk_pin: GpioPin,
    /// Write-protect pin for quad mode, if wired.
    pub quadwp_pin: Option<GpioPin>,
    /// Hold pin for quad mode, if wired.
    pub quadhd_pin: Option<GpioPin>,
    /// The maximum size of a single transfer, in bytes.
    pub max_transfer_size: u32,
}

/// One of the four fixed clock polarity/phase modes.
#[derive(Clone, Copy, PartialEq, Eq, Structural, Debug)]
pub enum SpiMode {
    Mode0,
    Mode1,
    Mode2,
    Mode3,
}

impl SpiMode {
    /// The driver's number of this mode.
    pub open spec fn spec_number(self) -> u8 {
        match self {
            SpiMode::Mode0 => 0,
            SpiMode::Mode1 => 1,
            SpiMode::Mode2 => 2,
            SpiMode::Mode3 => 3,
        }
    }

    /// The driver's number of this mode.
    pub fn number(self) -> (r: u8)
        ensures
            r == self.spec_number(),
    {
        match self {
            SpiMode::Mode0 => 0,
            SpiMode::Mode1 => 1,
            SpiMode::Mode2 => 2,
            SpiMode::Mode3 => 3,
        }
    }
}

impl Default for SpiMode {
    /// Devices default to mode 0.
    fn default() -> (r: Self)
        ensures
            r == SpiMode::Mode0,
    {
        SpiMode::Mode0
    }
}

/// The configuration of one attached device, immutable after attachment.
#[derive(Clone, Copy, PartialEq, Eq, Structural, Debug)]
pub struct SpiDeviceInterfaceConfig {
    pub command_bits: u8,
    pub address_bits: u8,
    pub dummy_bits: u8,
    pub mode: SpiMode,
    pub duty_cycle_pos: u8,
    /// Chip-select setup time before a transaction, in bus cycles.
    pub cs_ena_pretrans: u8,
    /// Chip-select hold time after a transaction, in bus cycles.
    pub cs_ena_posttrans: u8,
    pub clock_speed_hz: i32,
    pub input_delay_ns: i32,
    /// The chip-select pin the driver toggles around each transaction; if
    /// absent, the caller asserts and releases chip-select manually.
    pub cs_pin: Option<GpioPin>,
    /// How many transactions the driver may queue for this device.
    pub queue_size: u8,
}

impl Default for SpiDeviceInterfaceConfig {
    /// All widths and delays zero, mode 0, manual chip-select, and the
    /// driver's customary queue depth of eight transactions.
    fn default() -> (r: Self)
        ensures
            r.command_bits == 0,
            r.address_bits == 0,
            r.dummy_bits == 0,
            r.mode == SpiMode::Mode0,
            r.duty_cycle_pos == 0,
            r.cs_ena_pretrans == 0,
            r.cs_ena_posttrans == 0,
            r.clock_speed_hz == 0,
            r.input_delay_ns == 0,
            r.cs_pin is None,
            r.queue_size == 8,
    {
        SpiDeviceInterfaceConfig {
            command_bits: 0,
            address_bits: 0,
            dummy_bits: 0,
            mode: SpiMode::Mode0,
            duty_cycle_pos: 0,
            cs_ena_pretrans: 0,
            cs_ena_posttrans: 0,
            clock_speed_hz: 0,
            input_delay_ns: 0,
            cs_pin: None,
            queue_size: 8,
        }
    }
}

/// One data exchange against a device: write-only, read-only or full-duplex.
/// Constructed fresh per call and consumed by it; bit lengths are derived
/// from the byte lengths of the buffers.
pub struct SpiTransaction<T> {
    pub flags: u32,
    pub cmd: u16,
    pub addr: u64,
    /// Transmit bit length; for a read-only transaction, the receive bit
    /// length stands here and `rxlength` is zero, following the driver's
    /// convention that a receive length of zero means "same as `length`".
    pub length: usize,
    /// Receive bit length, if the transaction receives at all.
    pub rxlength: Option<usize>,
    /// The bytes to shift out, if the transaction transmits at all.
    pub tx_buffer: Option<Vec<u8>>,
    /// Opaque context handed to the device's pre/post transfer hooks.
    pub user: T,
}

impl<T> SpiTransaction<T> {
    /// The number of bits this transaction shifts out: none unless it
    /// transmits at all.
    pub open spec fn tx_bits(self) -> nat {
        if self.tx_buffer is Some {
            self.length as nat
        } else {
            0
        }
    }

    /// The transaction length in bits as the driver sees it.
    pub open spec fn total_bits(self) -> nat {
        self.length as nat
    }

    /// The number of bits this transaction shifts in: none unless it
    /// receives, and a stored receive length of zero means "same as
    /// `length`".
    pub open spec fn rx_bits(self) -> nat {
        match self.rxlength {
            None => 0,
            Some(n) => if n == 0 {
                self.length as nat
            } else {
                n as nat
            },
        }
    }

    /// A write-only transaction: shifts out all of `tx_buffer`, receives
    /// nothing.
    pub fn new_write(tx_buffer: Vec<u8>, user: T) -> (r: Self)
        requires
            8 * tx_buffer@.len() <= usize::MAX,
        ensures
            r.length == 8 * tx_buffer@.len(),
            r.tx_bits() == 8 * tx_buffer@.len(),
            r.rx_bits() == 0,
            r.rxlength is None,
            r.tx_buffer is Some,
            r.tx_buffer == Some(tx_buffer),
            r.flags == 0,
            r.cmd == 0,
            r.addr == 0,
            r.user == user,
    {
        let length: usize = tx_buffer.len() * 8;
        SpiTransaction {
            flags: 0,
            cmd: 0,
            addr: 0,
            length,
            rxlength: None,
            tx_buffer: Some(tx_buffer),
            user,
        }
    }

    /// A read-only transaction: shifts in `rx_len` bytes, transmits nothing.
    pub fn new_read(rx_len: usize, user: T) -> (r: Self)
        requires
            8 * rx_len <= usize::MAX,
        ensures
            r.length == 8 * rx_len,
            r.tx_bits() == 0,
            r.rx_bits() == 8 * rx_len,
            r.rxlength == Some(0usize),
            r.tx_buffer is None,
            r.flags == 0,
            r.cmd == 0,
            r.addr == 0,
            r.user == user,
    {
        let length: usize = rx_len * 8;
        SpiTransaction {
            flags: 0,
            cmd: 0,
            addr: 0,
            length,
            rxlength: Some(0),
            tx_buffer: None,
            user,
        }
    }

    /// A full-duplex transaction: shifts out all of `tx_buffer` while
    /// shifting in `rx_len` bytes; the two lengths are independent. A
    /// receive length of zero falls back to the driver's convention that it
    /// then equals the transmit length.
    pub fn new_both(tx_buffer: Vec<u8>, rx_len: usize, user: T) -> (r: Self)
        requires
            8 * tx_buffer@.len() <= usize::MAX,
            8 * rx_len <= usize::MAX,
        ensures
            r.length == 8 * tx_buffer@.len(),
            r.tx_bits() == 8 * tx_buffer@.len(),
            rx_len > 0 ==> r.rx_bits() == 8 * rx_len,
            rx_len == 0 ==> r.rx_bits() == 8 * tx_buffer@.len(),
            r.rxlength == Some((8 * rx_len) as usize),
            r.tx_buffer is Some,
            r.tx_buffer == Some(tx_buffer),
            r.flags == 0,
            r.cmd == 0,
            r.addr == 0,
            r.user == user,
    {
        let length: usize = tx_buffer.len() * 8;
        let rxlength: usize = rx_len * 8;
        SpiTransaction {
            flags: 0,
            cmd: 0,
            addr: 0,
            length,
            rxlength: Some(rxlength),
            tx_buffer: Some(tx_buffer),
            user,
        }
    }

    /// The transaction length in bits as the driver sees it.
    pub fn bit_length(&self) -> (r: usize)
        ensures
            r == self.total_bits(),
    {
        self.length
    }

    /// The receive bit length of this transaction.
    pub fn rx_bit_length(&self) -> (r: usize)
        ensures
            r == self.rx_bits(),
    {
        match self.rxlength {
            None => 0,
            Some(n) => if n == 0 {
                self.length
            } else {
                n
            },
        }
    }
}

/// The pre/post transfer hooks of one device. The driver invokes `pre`
/// immediately before and `post` immediately after the low-level exchange,
/// passing back only the transaction's opaque context value. Hook bodies must
/// not issue further bus operations.
pub trait SpiHooks {
    /// The opaque per-transaction context the hooks receive.
    type Context;

    fn pre_transfer(&mut self, user: &Self::Context);

    fn post_transfer(&mut self, user: &Self::Context);
}

/// Hooks that do nothing, for devices that need no pin toggling around
/// transfers.
pub struct NoopHooks;

impl SpiHooks for NoopHooks {
    type Context = ();

    fn pre_transfer(&mut self, _user: &()) {
    }

    fn post_transfer(&mut self, _user: &()) {
    }
}

/// Both lengths of a transfer lie within the bus's single-transfer limit.
pub open spec fn within_limit(c: SpiController, length_bits: nat, rx_bits: nat) -> bool {
    &&& length_bits <= 8 * c.max_transfer_bytes
    &&& rx_bits <= 8 * c.max_transfer_bytes
}

/// The bytes a transaction shifts out: its transmit buffer, if any.
pub open spec fn tx_view<T>(t: SpiTransaction<T>) -> Seq<u8> {
    match t.tx_buffer {
        Some(b) => b@,
        None => Seq::<u8>::empty(),
    }
}

/// The bus events one executed transfer appends to the log: the exchange
/// itself, wrapped in an acquire/release pair when the caller did not already
/// hold the bus (`auto`).
pub open spec fn transfer_events(auto: bool, device: nat, length_bits: nat, rx_bits: nat) -> Seq<
    BusEvent,
> {
    if auto {
        seq![
            BusEvent::Acquired { device },
            BusEvent::TransferStarted { device, length_bits, rx_bits },
            BusEvent::TransferCompleted { device },
            BusEvent::Released { device },
        ]
    } else {
        seq![
            BusEvent::TransferStarted { device, length_bits, rx_bits },
            BusEvent::TransferCompleted { device },
        ]
    }
}

/// An owned copy of a borrowed byte slice.
fn copy_bytes(words: &[u8]) -> (r: Vec<u8>)
    ensures
        r@ == words@,
{
    let mut r: Vec<u8> = Vec::new();
    let mut i: usize = 0;
    while i < words.len()
        invariant
            i <= words@.len(),
            r@ == words@.take(i as int),
        decreases words@.len() - i,
    {
        r.push(words[i]);
        i = i + 1;
        proof {
            assert(r@ =~= words@.take(i as int));
        }
    }
    proof {
        assert(r@ =~= words@);
    }
    r
}

/// One attached peripheral: a driver-level handle bound to one immutable
/// configuration, the pre/post transfer hooks, and the most recently received
/// byte of the one-byte duplex convenience.
pub struct SpiDevice<H: SpiHooks> {
    /// The driver's identifier for this device on its bus.
    pub id: u32,
    /// The device configuration, immutable after attachment.
    pub config: SpiDeviceInterfaceConfig,
    /// The hooks the driver invokes around every transfer of this device.
    pub hooks: H,
    /// The byte shifted in by the most recent `send`, read back by `read`.
    pub last_word: u8,
}

impl<H: SpiHooks> SpiDevice<H> {
    /// A freshly attached device, wrapped for shared ownership.
    pub(crate) fn new(id: u32, config: SpiDeviceInterfaceConfig, hooks: H) -> (r: SpiDeviceBusLock<
        H,
    >)
        ensures
            r.device.id == id,
            r.device.config == config,
            r.device.hooks == hooks,
            r.device.last_word == 0,
    {
        SpiDeviceBusLock::new(SpiDevice { id, config, hooks, last_word: 0 })
    }

    /// Execute one transaction against this device.
    ///
    /// The transaction is translated into a transfer descriptor for the
    /// driver: a transfer whose lengths exceed the bus's single-transfer
    /// limit is rejected with `ESP_ERR_INVALID_ARG` and nothing happens.
    /// Otherwise the driver acquires the bus if the caller does not already
    /// hold it, invokes the pre hook, runs the exchange, invokes the post
    /// hook, and releases the bus again exactly when it acquired it — also on
    /// every failure path, so no exclusive ownership ever leaks.
    pub fn transfer(&mut self, ctrl: &mut SpiController, transaction: SpiTransaction<H::Context>) -> (r:
        Result<Vec<u8>, esp_err_t>)
        requires
            old(ctrl).wf(),
            old(self).id < old(ctrl).device_count,
            match old(ctrl).holder {
                None => true,
                Some(d) => d == old(self).id,
            },
            old(ctrl).holder is None ==> old(ctrl).acquire_count < u64::MAX,
            old(ctrl).transfer_count < u64::MAX,
        ensures
            final(ctrl).wf(),
            final(self).id == old(self).id,
            final(self).config == old(self).config,
            final(self).last_word == old(self).last_word,
            same_config(*final(ctrl), *old(ctrl)),
            final(ctrl).holder == old(ctrl).holder,
            final(ctrl).acquire_count - old(ctrl).acquire_count == final(ctrl).release_count
                - old(ctrl).release_count,
            r is Ok <==> within_limit(
                *old(ctrl),
                transaction.total_bits(),
                transaction.rx_bits(),
            ),
            r matches Err(e) ==> e == ESP_ERR_INVALID_ARG,
            r is Err ==> *final(ctrl) == *old(ctrl) && *final(self) == *old(self),
            r matches Ok(rx) ==> rx@ == shifted_in(
                *old(ctrl),
                rx_byte_len(transaction.rx_bits()),
            ),
            r is Ok ==> final(ctrl).transfer_count == old(ctrl).transfer_count + 1,
            r is Ok ==> final(ctrl).rx_cursor == advanced_cursor(
                *old(ctrl),
                rx_byte_len(transaction.rx_bits()),
            ),
            r is Ok ==> final(ctrl).incoming@ == old(ctrl).incoming@,
            r is Ok ==> final(ctrl).outgoing@ == old(ctrl).outgoing@ + tx_view(transaction),
            r is Ok ==> final(ctrl).acquire_count == old(ctrl).acquire_count + (
            if old(ctrl).holder is None {
                1int
            } else {
                0int
            }),
            r is Ok ==> final(ctrl).log@ == old(ctrl).log@ + transfer_events(
                old(ctrl).holder is None,
                old(self).id as nat,
                transaction.total_bits(),
                transaction.rx_bits(),
            ),
    {
        let length_bits: usize = transaction.length;
        let rx_bits: usize = transaction.rx_bit_length();
        let limit: u64 = 8 * (ctrl.max_transfer_bytes as u64);
        if (length_bits as u64) > limit || (rx_bits as u64) > limit {
            return Err(ESP_ERR_INVALID_ARG);
        }
        let auto = ctrl.holder.is_none();
        if auto {
            ctrl.acquire(self.id);
        }
        let ghost c_held = *ctrl;
        self.hooks.pre_transfer(&transaction.user);
        let rx = ctrl.exchange(self.id, transaction.tx_buffer.as_ref(), length_bits, rx_bits);
        self.hooks.post_transfer(&transaction.user);
        if auto {
            ctrl.release(self.id);
        }
        proof {
            assert(shifted_in(c_held, rx_byte_len(rx_bits as nat)) =~= shifted_in(
                *old(ctrl),
                rx_byte_len(rx_bits as nat),
            ));
            assert(ctrl.log@ =~= old(ctrl).log@ + transfer_events(
                old(ctrl).holder is None,
                old(self).id as nat,
                transaction.total_bits(),
                transaction.rx_bits(),
            ));
        }
        Ok(rx)
    }
}

/// The bus manager: owns one physical controller's configuration,
/// initializes the controller once, and attaches devices to it.
pub struct SpiBus {
    pub host_device: SpiHostDevice,
    pub config: SpiBusConfig,
    pub dma_channel: i32,
}

impl SpiBus {
    /// Initialize the physical controller and take ownership of it.
    ///
    /// Fails with `ESP_ERR_INVALID_STATE` if the controller is already
    /// initialized; on success the returned bus owns the controller until
    /// `free` tears it down.
    pub fn new(
        host_device: SpiHostDevice,
        config: SpiBusConfig,
        dma_channel: i32,
        ctrl: &mut SpiController,
    ) -> (r: Result<SpiBus, esp_err_t>)
        requires
            old(ctrl).wf(),
        ensures
            final(ctrl).wf(),
            r is Ok <==> !old(ctrl).initialized,
            r matches Err(e) ==> e == ESP_ERR_INVALID_STATE && *final(ctrl) == *old(ctrl),
            r matches Ok(bus) ==> bus.host_device == host_device && bus.config == config
                && bus.dma_channel == dma_channel,
            r is Ok ==> final(ctrl).initialized && final(ctrl).max_transfer_bytes
                == config.max_transfer_size && final(ctrl).device_count == 0,
            r is Ok ==> final(ctrl).holder == old(ctrl).holder && final(ctrl).acquire_count
                == old(ctrl).acquire_count && final(ctrl).release_count == old(ctrl).release_count
                && final(ctrl).transfer_count == old(ctrl).transfer_count,
            same_line(*final(ctrl), *old(ctrl)),
            final(ctrl).log@ == old(ctrl).log@,
    {
        if ctrl.initialized {
            return Err(ESP_ERR_INVALID_STATE);
        }
        ctrl.initialized = true;
        ctrl.max_transfer_bytes = config.max_transfer_size;
        Ok(SpiBus { host_device, config, dma_channel })
    }

    /// Attach a new device to the bus. Attachment is append-only: devices
    /// cannot be detached. The hooks are invoked by the driver around every
    /// transfer issued on the device, receiving the transaction's opaque
    /// context value.
    pub fn add_device<H: SpiHooks>(
        &mut self,
        ctrl: &mut SpiController,
        config: SpiDeviceInterfaceConfig,
        hooks: H,
    ) -> (r: Result<SpiDeviceBusLock<H>, esp_err_t>)
        requires
            old(ctrl).wf(),
            old(ctrl).initialized,
            old(ctrl).device_count < u32::MAX,
        ensures
            final(ctrl).wf(),
            *final(self) == *old(self),
            r is Ok,
            r matches Ok(d) ==> d.device.id == old(ctrl).device_count && d.device.config == config
                && d.device.last_word == 0 && d.device.hooks == hooks,
            final(ctrl).device_count == old(ctrl).device_count + 1,
            final(ctrl).initialized == old(ctrl).initialized,
            final(ctrl).max_transfer_bytes == old(ctrl).max_transfer_bytes,
            final(ctrl).holder == old(ctrl).holder,
            final(ctrl).acquire_count == old(ctrl).acquire_count,
            final(ctrl).release_count == old(ctrl).release_count,
            final(ctrl).transfer_count == old(ctrl).transfer_count,
            same_line(*final(ctrl), *old(ctrl)),
            final(ctrl).log@ == old(ctrl).log@,
    {
        let id = ctrl.device_count;
        ctrl.device_count = ctrl.device_count + 1;
        Ok(SpiDevice::new(id, config, hooks))
    }

    /// Tear the controller down, consuming the bus: the symmetric release of
    /// `new`. The driver refuses the teardown with `ESP_ERR_INVALID_STATE`
    /// while devices are still attached, or if the controller is not
    /// initialized.
    pub fn free(self, ctrl: &mut SpiController) -> (r: esp_err_t)
        requires
            old(ctrl).wf(),
        ensures
            final(ctrl).wf(),
            r == ESP_OK <==> old(ctrl).initialized && old(ctrl).device_count == 0,
            r != ESP_OK ==> r == ESP_ERR_INVALID_STATE && *final(ctrl) == *old(ctrl),
            r == ESP_OK ==> !final(ctrl).initialized && final(ctrl).device_count == 0,
            r == ESP_OK ==> final(ctrl).holder == old(ctrl).holder && final(ctrl).acquire_count
                == old(ctrl).acquire_count && final(ctrl).release_count == old(ctrl).release_count
                && final(ctrl).transfer_count == old(ctrl).transfer_count,
            same_line(*final(ctrl), *old(ctrl)),
            final(ctrl).log@ == old(ctrl).log@,
    {
        if ctrl.initialized && ctrl.device_count == 0 {
            ctrl.initialized = false;
            ESP_OK
        } else {
            ESP_ERR_INVALID_STATE
        }
    }
}

/// The exclusive-access wrapper around one attached device: issues single
/// transactions directly, or hands out a scoped [`SpiBusGuard`] for a
/// multi-transaction sequence under one bus acquisition.
pub struct SpiDeviceBusLock<H: SpiHooks> {
    pub device: SpiDevice<H>,
}

/// Exclusive ownership of the bus, taken by [`SpiDeviceBusLock::lock`] and
/// given back by [`SpiBusGuard::release`], which every exit path of the
/// guarded sequence must reach exactly once.
pub struct SpiBusGuard {
    /// The device the bus was acquired for.
    pub device_id: u32,
}

impl<H: SpiHooks> SpiDeviceBusLock<H> {
    pub(crate) fn new(device: SpiDevice<H>) -> (r: Self)
        ensures
            r.device == device,
    {
        SpiDeviceBusLock { device }
    }

    /// Acquire exclusive ownership of the bus for this device.
    ///
    /// Models the driver's bus-acquisition primitive with an unbounded wait:
    /// the call returns once no other holder remains, so a free bus is
    /// demanded up front and the acquisition itself always succeeds.
    pub fn lock(&self, ctrl: &mut SpiController) -> (r: Result<SpiBusGuard, esp_err_t>)
        requires
            old(ctrl).wf(),
            old(ctrl).holder is None,
            self.device.id < old(ctrl).device_count,
            old(ctrl).acquire_count < u64::MAX,
        ensures
            final(ctrl).wf(),
            r is Ok,
            r matches Ok(g) ==> g.device_id == self.device.id,
            final(ctrl).holder == Some(self.device.id),
            final(ctrl).acquire_count == old(ctrl).acquire_count + 1,
            final(ctrl).release_count == old(ctrl).release_count,
            final(ctrl).transfer_count == old(ctrl).transfer_count,
            same_config(*final(ctrl), *old(ctrl)),
            same_line(*final(ctrl), *old(ctrl)),
            final(ctrl).log@ == old(ctrl).log@.push(
                BusEvent::Acquired { device: self.device.id as nat },
            ),
    {
        ctrl.acquire(self.device.id);
        Ok(SpiBusGuard { device_id: self.device.id })
    }
}

impl<H: SpiHooks<Context = ()>> SpiDevice<H> {
    /// Write-only transfer of `words` against this device: the blocking
    /// byte-write interface of a device used directly, without a guard.
    pub fn write(&mut self, ctrl: &mut SpiController, words: &[u8]) -> (r: Result<(), esp_err_t>)
        requires
            old(ctrl).wf(),
            old(self).id < old(ctrl).device_count,
            match old(ctrl).holder {
                None => true,
                Some(d) => d == old(self).id,
            },
            old(ctrl).holder is None ==> old(ctrl).acquire_count < u64::MAX,
            old(ctrl).transfer_count < u64::MAX,
            8 * words@.len() <= usize::MAX,
        ensures
            final(ctrl).wf(),
            final(self).id == old(self).id,
            final(self).config == old(self).config,
            final(self).last_word == old(self).last_word,
            same_config(*final(ctrl), *old(ctrl)),
            final(ctrl).holder == old(ctrl).holder,
            final(ctrl).acquire_count - old(ctrl).acquire_count == final(ctrl).release_count
                - old(ctrl).release_count,
            r is Ok <==> 8 * words@.len() <= 8 * old(ctrl).max_transfer_bytes,
            r matches Err(e) ==> e == ESP_ERR_INVALID_ARG && *final(ctrl) == *old(ctrl),
            r is Ok ==> final(ctrl).transfer_count == old(ctrl).transfer_count + 1,
            r is Ok ==> final(ctrl).acquire_count == old(ctrl).acquire_count + (
            if old(ctrl).holder is None {
                1int
            } else {
                0int
            }),
            r is Ok ==> final(ctrl).outgoing@ == old(ctrl).outgoing@ + words@,
            r is Ok ==> final(ctrl).incoming@ == old(ctrl).incoming@ && final(ctrl).rx_cursor
                == old(ctrl).rx_cursor,
            r is Ok ==> final(ctrl).log@ == old(ctrl).log@ + transfer_events(
                old(ctrl).holder is None,
                old(self).id as nat,
                (8 * words@.len()) as nat,
                0,
            ),
    {
        let buf = copy_bytes(words);
        let t = SpiTransaction::new_write(buf, ());
        match self.transfer(ctrl, t) {
            Ok(_) => Ok(()),
            Err(e) => Err(e),
        }
    }
}

impl<H: SpiHooks<Context = ()>> SpiDeviceBusLock<H> {
    /// Write-only transfer of `words`, acquiring the bus for the call: the
    /// blocking byte-write interface of the wrapped device.
    pub fn write(&mut self, ctrl: &mut SpiController, words: &[u8]) -> (r: Result<(), esp_err_t>)
        requires
            old(ctrl).wf(),
            old(self).device.id < old(ctrl).device_count,
            old(ctrl).holder is None,
            old(ctrl).acquire_count < u64::MAX,
            old(ctrl).transfer_count < u64::MAX,
            8 * words@.len() <= usize::MAX,
        ensures
            final(ctrl).wf(),
            final(self).device.id == old(self).device.id,
            final(self).device.config == old(self).device.config,
            final(self).device.last_word == old(self).device.last_word,
            same_config(*final(ctrl), *old(ctrl)),
            final(ctrl).holder is None,
            final(ctrl).acquire_count == old(ctrl).acquire_count + 1,
            final(ctrl).release_count == old(ctrl).release_count + 1,
            r is Ok <==> 8 * words@.len() <= 8 * old(ctrl).max_transfer_bytes,
            r matches Err(e) ==> e == ESP_ERR_INVALID_ARG,
            r is Err ==> same_line(*final(ctrl), *old(ctrl)) && final(ctrl).transfer_count == old(
                ctrl,
            ).transfer_count,
            r is Ok ==> final(ctrl).transfer_count == old(ctrl).transfer_count + 1,
            r is Ok ==> final(ctrl).outgoing@ == old(ctrl).outgoing@ + words@,
            r is Ok ==> final(ctrl).incoming@ == old(ctrl).incoming@ && final(ctrl).rx_cursor
                == old(ctrl).rx_cursor,
            r is Ok ==> final(ctrl).log@ == old(ctrl).log@ + seq![
                BusEvent::Acquired { device: old(self).device.id as nat },
            ] + transfer_events(false, old(self).device.id as nat, (8 * words@.len()) as nat, 0)
                + seq![BusEvent::Released { device: old(self).device.id as nat }],
            r is Err ==> final(ctrl).log@ == old(ctrl).log@ + seq![
                BusEvent::Acquired { device: old(self).device.id as nat },
                BusEvent::Released { device: old(self).device.id as nat },
            ],
    {
        let g = match self.lock(ctrl) {
            Ok(g) => g,
            Err(e) => {
                return Err(e);
            },
        };
        let r = self.device.write(ctrl, words);
        g.release(ctrl);
        proof {
            if r is Ok {
                assert(ctrl.log@ =~= old(ctrl).log@ + seq![
                    BusEvent::Acquired { device: old(self).device.id as nat },
                ] + transfer_events(
                    false,
                    old(self).device.id as nat,
                    (8 * words@.len()) as nat,
                    0,
                ) + seq![BusEvent::Released { device: old(self).device.id as nat }]);
            } else {
                assert(ctrl.log@ =~= old(ctrl).log@ + seq![
                    BusEvent::Acquired { device: old(self).device.id as nat },
                    BusEvent::Released { device: old(self).device.id as nat },
                ]);
            }
        }
        r
    }

    /// The byte shifted in by the most recent `send`; zero on a freshly
    /// attached device. The driver's per-call acquire/release wraps the
    /// access, matching the full-duplex interface this pair serves.
    pub fn read(&self, ctrl: &mut SpiController) -> (r: Result<u8, esp_err_t>)
        requires
            old(ctrl).wf(),
            old(ctrl).holder is None,
            self.device.id < old(ctrl).device_count,
            old(ctrl).acquire_count < u64::MAX,
        ensures
            final(ctrl).wf(),
            r == Ok::<u8, esp_err_t>(self.device.last_word),
            final(ctrl).holder is None,
            final(ctrl).acquire_count == old(ctrl).acquire_count + 1,
            final(ctrl).release_count == old(ctrl).release_count + 1,
            final(ctrl).transfer_count == old(ctrl).transfer_count,
            same_config(*final(ctrl), *old(ctrl)),
            same_line(*final(ctrl), *old(ctrl)),
            final(ctrl).log@ == old(ctrl).log@ + seq![
                BusEvent::Acquired { device: self.device.id as nat },
                BusEvent::Released { device: self.device.id as nat },
            ],
    {
        let g = match self.lock(ctrl) {
            Ok(g) => g,
            Err(e) => {
                return Err(e);
            },
        };
        let w = self.device.last_word;
        g.release(ctrl);
        proof {
            assert(ctrl.log@ =~= old(ctrl).log@ + seq![
                BusEvent::Acquired { device: self.device.id as nat },
                BusEvent::Released { device: self.device.id as nat },
            ]);
        }
        Ok(w)
    }

    /// One-byte full-duplex exchange: shifts `word` out and caches the byte
    /// shifted in during the same exchange, for the paired `read`. A `send`
    /// not followed by a `read` before the next `send` silently discards
    /// that byte.
    pub fn send(&mut self, ctrl: &mut SpiController, word: u8) -> (r: Result<(), esp_err_t>)
        requires
            old(ctrl).wf(),
            old(ctrl).holder is None,
            old(self).device.id < old(ctrl).device_count,
            old(ctrl).acquire_count < u64::MAX,
            old(ctrl).transfer_count < u64::MAX,
        ensures
            final(ctrl).wf(),
            final(self).device.id == old(self).device.id,
            final(self).device.config == old(self).device.config,
            same_config(*final(ctrl), *old(ctrl)),
            final(ctrl).holder is None,
            final(ctrl).acquire_count == old(ctrl).acquire_count + 1,
            final(ctrl).release_count == old(ctrl).release_count + 1,
            r is Ok <==> 1 <= old(ctrl).max_transfer_bytes,
            r matches Err(e) ==> e == ESP_ERR_INVALID_ARG,
            r is Err ==> final(self).device.last_word == old(self).device.last_word && same_line(
                *final(ctrl),
                *old(ctrl),
            ) && final(ctrl).transfer_count == old(ctrl).transfer_count,
            r is Ok ==> final(self).device.last_word == next_word(*old(ctrl)),
            r is Ok ==> final(ctrl).transfer_count == old(ctrl).transfer_count + 1,
            r is Ok ==> final(ctrl).outgoing@ == old(ctrl).outgoing@ + seq![word],
            r is Ok ==> final(ctrl).incoming@ == old(ctrl).incoming@ && final(ctrl).rx_cursor
                == advanced_cursor(*old(ctrl), 1),
            r is Ok ==> final(ctrl).log@ == old(ctrl).log@ + seq![
                BusEvent::Acquired { device: old(self).device.id as nat },
            ] + transfer_events(false, old(self).device.id as nat, 8, 8) + seq![
                BusEvent::Released { device: old(self).device.id as nat },
            ],
            r is Err ==> final(ctrl).log@ == old(ctrl).log@ + seq![
                BusEvent::Acquired { device: old(self).device.id as nat },
                BusEvent::Released { device: old(self).device.id as nat },
            ],
    {
        let g = match self.lock(ctrl) {
            Ok(g) => g,
            Err(e) => {
                return Err(e);
            },
        };
        let mut tx: Vec<u8> = Vec::new();
        tx.push(word);
        let t = SpiTransaction::new_both(tx, 1, ());
        match self.device.transfer(ctrl, t) {
            Ok(rx) => {
                proof {
                    assert(rx@.len() == 1);
                    assert(rx@[0] == next_word(*old(ctrl)));
                }
                self.device.last_word = rx[0];
                g.release(ctrl);
                proof {
                    assert(ctrl.log@ =~= old(ctrl).log@ + seq![
                        BusEvent::Acquired { device: old(self).device.id as nat },
                    ] + transfer_events(false, old(self).device.id as nat, 8, 8) + seq![
                        BusEvent::Released { device: old(self).device.id as nat },
                    ]);
                }
                Ok(())
            },
            Err(e) => {
                g.release(ctrl);
                proof {
                    assert(ctrl.log@ =~= old(ctrl).log@ + seq![
                        BusEvent::Acquired { device: old(self).device.id as nat },
                        BusEvent::Released { device: old(self).device.id as nat },
                    ]);
                }
                Err(e)
            },
        }
    }

    /// A combined command+data write: the one-byte command, then the
    /// payload, as two write transfers issued under a single bus
    /// acquisition. The first failure aborts the sequence, is surfaced to
    /// the caller, and still releases the bus.
    pub fn write_cmd_data(&mut self, ctrl: &mut SpiController, cmd: u8, data: &[u8]) -> (r: Result<
        (),
        esp_err_t,
    >)
        requires
            old(ctrl).wf(),
            old(ctrl).holder is None,
            old(self).device.id < old(ctrl).device_count,
            old(ctrl).acquire_count < u64::MAX,
            old(ctrl).transfer_count < u64::MAX - 1,
            8 * data@.len() <= usize::MAX,
        ensures
            final(ctrl).wf(),
            final(self).device.id == old(self).device.id,
            final(self).device.config == old(self).device.config,
            final(self).device.last_word == old(self).device.last_word,
            same_config(*final(ctrl), *old(ctrl)),
            final(ctrl).holder is None,
            final(ctrl).acquire_count == old(ctrl).acquire_count + 1,
            final(ctrl).release_count == old(ctrl).release_count + 1,
            final(ctrl).incoming@ == old(ctrl).incoming@,
            final(ctrl).rx_cursor == old(ctrl).rx_cursor,
            r is Ok <==> 1 <= old(ctrl).max_transfer_bytes && 8 * data@.len() <= 8 * old(
                ctrl,
            ).max_transfer_bytes,
            r matches Err(e) ==> e == ESP_ERR_INVALID_ARG,
            r is Ok ==> final(ctrl).transfer_count == old(ctrl).transfer_count + 2,
            r is Ok ==> final(ctrl).outgoing@ == old(ctrl).outgoing@ + seq![cmd] + data@,
            old(ctrl).max_transfer_bytes == 0 ==> final(ctrl).transfer_count == old(
                ctrl,
            ).transfer_count && final(ctrl).outgoing@ == old(ctrl).outgoing@,
            1 <= old(ctrl).max_transfer_bytes && 8 * data@.len() > 8 * old(
                ctrl,
            ).max_transfer_bytes ==> final(ctrl).transfer_count == old(ctrl).transfer_count + 1
                && final(ctrl).outgoing@ == old(ctrl).outgoing@ + seq![cmd],
            r is Ok ==> final(ctrl).log@ == old(ctrl).log@ + seq![
                BusEvent::Acquired { device: old(self).device.id as nat },
            ] + transfer_events(false, old(self).device.id as nat, 8, 0) + transfer_events(
                false,
                old(self).device.id as nat,
                (8 * data@.len()) as nat,
                0,
            ) + seq![BusEvent::Released { device: old(self).device.id as nat }],
            old(ctrl).max_transfer_bytes == 0 ==> final(ctrl).log@ == old(ctrl).log@ + seq![
                BusEvent::Acquired { device: old(self).device.id as nat },
                BusEvent::Released { device: old(self).device.id as nat },
            ],
            1 <= old(ctrl).max_transfer_bytes && 8 * data@.len() > 8 * old(
                ctrl,
            ).max_transfer_bytes ==> final(ctrl).log@ == old(ctrl).log@ + seq![
                BusEvent::Acquired { device: old(self).device.id as nat },
            ] + transfer_events(false, old(self).device.id as nat, 8, 0) + seq![
                BusEvent::Released { device: old(self).device.id as nat },
            ],
    {
        let g = match self.lock(ctrl) {
            Ok(g) => g,
            Err(e) => {
                return Err(e);
            },
        };
        let mut cbuf: Vec<u8> = Vec::new();
        cbuf.push(cmd);
        let tc = SpiTransaction::new_write(cbuf, ());
        match self.device.transfer(ctrl, tc) {
            Ok(_) => {
            },
            Err(e) => {
                g.release(ctrl);
                proof {
                    assert(ctrl.log@ =~= old(ctrl).log@ + seq![
                        BusEvent::Acquired { device: old(self).device.id as nat },
                        BusEvent::Released { device: old(self).device.id as nat },
                    ]);
                }
                return Err(e);
            },
        }
        let dbuf = copy_bytes(data);
        let td = SpiTransaction::new_write(dbuf, ());
        let r = self.device.transfer(ctrl, td);
        g.release(ctrl);
        proof {
            if r is Ok {
                assert(ctrl.log@ =~= old(ctrl).log@ + seq![
                    BusEvent::Acquired { device: old(self).device.id as nat },
                ] + transfer_events(false, old(self).device.id as nat, 8, 0) + transfer_events(
                    false,
                    old(self).device.id as nat,
                    (8 * data@.len()) as nat,
                    0,
                ) + seq![BusEvent::Released { device: old(self).device.id as nat }]);
            } else {
                assert(ctrl.log@ =~= old(ctrl).log@ + seq![
                    BusEvent::Acquired { device: old(self).device.id as nat },
                ] + transfer_events(false, old(self).device.id as nat, 8, 0) + seq![
                    BusEvent::Released { device: old(self).device.id as nat },
                ]);
            }
        }
        match r {
            Ok(_) => Ok(()),
            Err(e) => Err(e),
        }
    }
}

impl SpiBusGuard {
    /// Release exclusive ownership of the bus, consuming the guard.
    pub fn release(self, ctrl: &mut SpiController)
        requires
            old(ctrl).wf(),
            old(ctrl).holder == Some(self.device_id),
        ensures
            final(ctrl).wf(),
            final(ctrl).holder is None,
            final(ctrl).release_count == old(ctrl).release_count + 1,
            final(ctrl).acquire_count == old(ctrl).acquire_count,
            final(ctrl).transfer_count == old(ctrl).transfer_count,
            same_config(*final(ctrl), *old(ctrl)),
            same_line(*final(ctrl), *old(ctrl)),
            final(ctrl).log@ == old(ctrl).log@.push(
                BusEvent::Released { device: self.device_id as nat },
            ),
    {
        ctrl.release(self.device_id);
    }
}

} // verus!
