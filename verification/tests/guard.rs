use peripheral::controller::SpiController;
use peripheral::gpio::GpioPin;
use peripheral::spi::NoopHooks;
use peripheral::spi::SpiBus;
use peripheral::spi::SpiBusConfig;
use peripheral::spi::SpiDeviceBusLock;
use peripheral::spi::SpiDeviceInterfaceConfig;
use peripheral::spi::SpiHostDevice;
use peripheral::status::ESP_ERR_INVALID_ARG;

fn setup(max_transfer_size: u32) -> (SpiController, SpiDeviceBusLock<NoopHooks>) {
    let mut ctrl = SpiController::new();
    let config = SpiBusConfig {
        mosi_pin: GpioPin { number: 23 },
        miso_pin: GpioPin { number: 19 },
        sclk_pin: GpioPin { number: 18 },
        quadwp_pin: None,
        quadhd_pin: None,
        max_transfer_size,
    };
    let mut bus = SpiBus::new(SpiHostDevice::Vspi, config, 0, &mut ctrl).unwrap();
    let dev = bus
        .add_device(&mut ctrl, SpiDeviceInterfaceConfig::default(), NoopHooks)
        .unwrap();
    (ctrl, dev)
}

#[test]
fn lock_then_release_leaves_no_ownership() {
    let (mut ctrl, dev) = setup(16);
    assert_eq!(ctrl.acquire_count, 0);
    let guard = dev.lock(&mut ctrl).unwrap();
    assert_eq!(ctrl.holder, Some(0));
    assert_eq!(ctrl.acquire_count, 1);
    assert_eq!(ctrl.release_count, 0);
    guard.release(&mut ctrl);
    assert_eq!(ctrl.holder, None);
    assert_eq!(ctrl.acquire_count, ctrl.release_count);
    assert_eq!(ctrl.transfer_count, 0);
}

#[test]
fn guarded_sequence_uses_one_acquisition() {
    let (mut ctrl, mut dev) = setup(16);
    let guard = dev.lock(&mut ctrl).unwrap();
    dev.device.write(&mut ctrl, &[0x10]).unwrap();
    dev.device.write(&mut ctrl, &[0x20, 0x21]).unwrap();
    guard.release(&mut ctrl);
    assert_eq!(ctrl.acquire_count, 1);
    assert_eq!(ctrl.release_count, 1);
    assert_eq!(ctrl.transfer_count, 2);
    assert_eq!(ctrl.outgoing, vec![0x10, 0x20, 0x21]);
}

#[test]
fn failed_send_still_releases_the_bus() {
    // A bus whose transfer limit is zero bytes rejects even a one-byte
    // duplex exchange.
    let (mut ctrl, mut dev) = setup(0);
    let r = dev.send(&mut ctrl, 0x55);
    assert_eq!(r, Err(ESP_ERR_INVALID_ARG));
    assert_eq!(ctrl.holder, None);
    assert_eq!(ctrl.acquire_count, 1);
    assert_eq!(ctrl.release_count, 1);
    assert_eq!(ctrl.transfer_count, 0);
    assert_eq!(dev.device.last_word, 0);
}

#[test]
fn failed_write_still_releases_the_bus() {
    let (mut ctrl, mut dev) = setup(2);
    let r = dev.write(&mut ctrl, &[1, 2, 3]);
    assert_eq!(r, Err(ESP_ERR_INVALID_ARG));
    assert_eq!(ctrl.holder, None);
    assert_eq!(ctrl.acquire_count, ctrl.release_count);
    assert_eq!(ctrl.transfer_count, 0);
    assert!(ctrl.outgoing.is_empty());
}

#[test]
fn cmd_data_failure_after_command_still_releases() {
    let (mut ctrl, mut dev) = setup(1);
    let r = dev.write_cmd_data(&mut ctrl, 0x36, &[0x08, 0x09]);
    assert_eq!(r, Err(ESP_ERR_INVALID_ARG));
    // the one-byte command went out before the over-long payload was
    // rejected, and the bus was still released exactly once
    assert_eq!(ctrl.transfer_count, 1);
    assert_eq!(ctrl.outgoing, vec![0x36]);
    assert_eq!(ctrl.holder, None);
    assert_eq!(ctrl.acquire_count, 1);
    assert_eq!(ctrl.release_count, 1);
}

#[test]
fn direct_transfer_auto_acquires_and_releases() {
    let (mut ctrl, mut dev) = setup(8);
    dev.device.write(&mut ctrl, &[0x42]).unwrap();
    assert_eq!(ctrl.acquire_count, 1);
    assert_eq!(ctrl.release_count, 1);
    assert_eq!(ctrl.holder, None);
}
