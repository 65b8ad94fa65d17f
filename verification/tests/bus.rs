use peripheral::controller::SpiController;
use peripheral::gpio::GpioPin;
use peripheral::spi::NoopHooks;
use peripheral::spi::SpiBus;
use peripheral::spi::SpiBusConfig;
use peripheral::spi::SpiDeviceInterfaceConfig;
use peripheral::spi::SpiHostDevice;
use peripheral::spi::SpiMode;
use peripheral::status::ESP_ERR_INVALID_STATE;
use peripheral::status::ESP_OK;

fn bus_config(max_transfer_size: u32) -> SpiBusConfig {
    SpiBusConfig {
        mosi_pin: GpioPin { number: 23 },
        miso_pin: GpioPin { number: 19 },
        sclk_pin: GpioPin { number: 18 },
        quadwp_pin: None,
        quadhd_pin: None,
        max_transfer_size,
    }
}

#[test]
fn initialize_succeeds_once() {
    let mut ctrl = SpiController::new();
    let bus = SpiBus::new(SpiHostDevice::Vspi, bus_config(1024), 0, &mut ctrl);
    assert!(bus.is_ok());
    assert!(ctrl.initialized);
    assert_eq!(ctrl.max_transfer_bytes, 1024);
}

#[test]
fn initialize_twice_is_rejected() {
    let mut ctrl = SpiController::new();
    let first = SpiBus::new(SpiHostDevice::Hspi, bus_config(64), 0, &mut ctrl);
    assert!(first.is_ok());
    let second = SpiBus::new(SpiHostDevice::Hspi, bus_config(64), 0, &mut ctrl);
    assert_eq!(second.err(), Some(ESP_ERR_INVALID_STATE));
}

#[test]
fn free_tears_the_controller_down() {
    let mut ctrl = SpiController::new();
    let bus = SpiBus::new(SpiHostDevice::Spi, bus_config(16), 0, &mut ctrl).unwrap();
    assert_eq!(bus.free(&mut ctrl), ESP_OK);
    assert!(!ctrl.initialized);
    let again = SpiBus::new(SpiHostDevice::Spi, bus_config(16), 0, &mut ctrl);
    assert!(again.is_ok());
}

#[test]
fn free_with_devices_attached_is_rejected() {
    let mut ctrl = SpiController::new();
    let mut bus = SpiBus::new(SpiHostDevice::Vspi, bus_config(16), 0, &mut ctrl).unwrap();
    let _dev = bus
        .add_device(&mut ctrl, SpiDeviceInterfaceConfig::default(), NoopHooks)
        .unwrap();
    assert_eq!(bus.free(&mut ctrl), ESP_ERR_INVALID_STATE);
    assert!(ctrl.initialized);
}

#[test]
fn devices_attach_append_only() {
    let mut ctrl = SpiController::new();
    let mut bus = SpiBus::new(SpiHostDevice::Vspi, bus_config(32), 0, &mut ctrl).unwrap();
    let first = bus
        .add_device(&mut ctrl, SpiDeviceInterfaceConfig::default(), NoopHooks)
        .unwrap();
    let second = bus
        .add_device(&mut ctrl, SpiDeviceInterfaceConfig::default(), NoopHooks)
        .unwrap();
    assert_eq!(first.device.id, 0);
    assert_eq!(second.device.id, 1);
    assert_eq!(ctrl.device_count, 2);
    assert_eq!(first.device.last_word, 0);
    assert_eq!(second.device.last_word, 0);
}

#[test]
fn device_config_defaults() {
    let c = SpiDeviceInterfaceConfig::default();
    assert_eq!(c.mode, SpiMode::Mode0);
    assert_eq!(c.command_bits, 0);
    assert_eq!(c.clock_speed_hz, 0);
    assert!(c.cs_pin.is_none());
    assert_eq!(c.queue_size, 8);
}

#[test]
fn host_and_mode_numbering() {
    assert_eq!(SpiHostDevice::Spi.index(), 0);
    assert_eq!(SpiHostDevice::Hspi.index(), 1);
    assert_eq!(SpiHostDevice::Vspi.index(), 2);
    assert_eq!(SpiMode::default().number(), 0);
    assert_eq!(SpiMode::Mode3.number(), 3);
}

#[test]
fn gpio_pin_numbers_are_validated() {
    assert_eq!(GpioPin::new(33).map(|p| p.number), Some(33));
    assert!(GpioPin::new(40).is_none());
}
