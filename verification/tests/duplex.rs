use peripheral::controller::SpiController;
use peripheral::gpio::GpioPin;
use peripheral::spi::NoopHooks;
use peripheral::spi::SpiBus;
use peripheral::spi::SpiBusConfig;
use peripheral::spi::SpiDeviceBusLock;
use peripheral::spi::SpiDeviceInterfaceConfig;
use peripheral::spi::SpiHostDevice;

fn setup() -> (SpiController, SpiDeviceBusLock<NoopHooks>) {
    let mut ctrl = SpiController::new();
    let config = SpiBusConfig {
        mosi_pin: GpioPin { number: 23 },
        miso_pin: GpioPin { number: 19 },
        sclk_pin: GpioPin { number: 18 },
        quadwp_pin: None,
        quadhd_pin: None,
        max_transfer_size: 64,
    };
    let mut bus = SpiBus::new(SpiHostDevice::Vspi, config, 0, &mut ctrl).unwrap();
    let dev = bus
        .add_device(&mut ctrl, SpiDeviceInterfaceConfig::default(), NoopHooks)
        .unwrap();
    (ctrl, dev)
}

#[test]
fn read_without_send_returns_zero_when_fresh() {
    let (mut ctrl, dev) = setup();
    assert_eq!(dev.read(&mut ctrl), Ok(0));
}

#[test]
fn send_then_read_returns_shifted_in_byte() {
    let (mut ctrl, mut dev) = setup();
    ctrl.feed_incoming(&[0xA5]);
    dev.send(&mut ctrl, 0x3C).unwrap();
    assert_eq!(dev.read(&mut ctrl), Ok(0xA5));
    // the word that was shifted out went over the wire
    assert_eq!(ctrl.outgoing, vec![0x3C]);
}

#[test]
fn unread_byte_is_discarded_by_next_send() {
    let (mut ctrl, mut dev) = setup();
    ctrl.feed_incoming(&[0x11, 0x22]);
    dev.send(&mut ctrl, 1).unwrap();
    dev.send(&mut ctrl, 2).unwrap();
    assert_eq!(dev.read(&mut ctrl), Ok(0x22));
    assert_eq!(dev.read(&mut ctrl), Ok(0x22));
}

#[test]
fn exhausted_line_shifts_in_zero() {
    let (mut ctrl, mut dev) = setup();
    ctrl.feed_incoming(&[0x7F]);
    dev.send(&mut ctrl, 10).unwrap();
    dev.send(&mut ctrl, 11).unwrap();
    assert_eq!(dev.read(&mut ctrl), Ok(0x00));
}

#[test]
fn sequential_sends_complete_one_at_a_time() {
    let (mut ctrl, mut dev) = setup();
    ctrl.feed_incoming(&[1, 2, 3]);
    for (i, w) in [10u8, 11, 12].iter().enumerate() {
        dev.send(&mut ctrl, *w).unwrap();
        // each exchange has completed before the next begins: the driver
        // reports one more finished transfer and no held ownership
        assert_eq!(ctrl.transfer_count, (i + 1) as u64);
        assert_eq!(ctrl.holder, None);
        assert_eq!(ctrl.acquire_count, ctrl.release_count);
    }
    assert_eq!(ctrl.outgoing, vec![10, 11, 12]);
}

#[test]
fn duplex_read_populates_from_line_in_order() {
    let (mut ctrl, mut dev) = setup();
    ctrl.feed_incoming(&[9, 8]);
    dev.send(&mut ctrl, 0).unwrap();
    assert_eq!(dev.read(&mut ctrl), Ok(9));
    dev.send(&mut ctrl, 0).unwrap();
    assert_eq!(dev.read(&mut ctrl), Ok(8));
}
