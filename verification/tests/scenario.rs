use peripheral::controller::SpiController;
use peripheral::gpio::GpioPin;
use peripheral::spi::NoopHooks;
use peripheral::spi::SpiBus;
use peripheral::spi::SpiBusConfig;
use peripheral::spi::SpiDeviceInterfaceConfig;
use peripheral::spi::SpiHostDevice;
use peripheral::spi::SpiMode;
use peripheral::spi::SpiTransaction;
use peripheral::status::AsResult;

#[test]
fn mode0_device_write_read_and_cmd_data() {
    let mut ctrl = SpiController::new();
    let config = SpiBusConfig {
        mosi_pin: GpioPin { number: 23 },
        miso_pin: GpioPin { number: 19 },
        sclk_pin: GpioPin { number: 18 },
        quadwp_pin: None,
        quadhd_pin: None,
        max_transfer_size: 1024,
    };
    let mut bus = SpiBus::new(SpiHostDevice::Vspi, config, 0, &mut ctrl).unwrap();

    let device_config = SpiDeviceInterfaceConfig {
        cs_pin: GpioPin::new(14),
        clock_speed_hz: 10_000_000,
        ..SpiDeviceInterfaceConfig::default()
    };
    assert_eq!(device_config.mode, SpiMode::Mode0);
    let mut dev = bus.add_device(&mut ctrl, device_config, NoopHooks).unwrap();

    // one-byte write: success, 8 bits
    let t = SpiTransaction::new_write(vec![0x01u8], ());
    assert_eq!(t.bit_length(), 8);
    let r = dev.device.transfer(&mut ctrl, t);
    assert!(r.is_ok());
    assert_eq!(ctrl.transfer_count, 1);

    // three-byte read: success, buffer populated, 24 bits
    ctrl.feed_incoming(&[0xDE, 0xAD, 0xBE]);
    let t = SpiTransaction::<()>::new_read(3, ());
    assert_eq!(t.bit_length(), 24);
    assert_eq!(t.rx_bit_length(), 24);
    let rx = dev.device.transfer(&mut ctrl, t).unwrap();
    assert_eq!(rx, vec![0xDE, 0xAD, 0xBE]);
    assert_eq!(ctrl.transfer_count, 2);

    // combined command+data write: two underlying transfers, both successful
    let before = ctrl.transfer_count;
    let r = dev.write_cmd_data(&mut ctrl, 0x36, &[0x08]);
    assert!(r.is_ok());
    assert_eq!(ctrl.transfer_count, before + 2);
    assert_eq!(ctrl.outgoing, vec![0x01, 0x36, 0x08]);
    assert_eq!(ctrl.acquire_count, ctrl.release_count);
    assert_eq!(ctrl.holder, None);
}

#[test]
fn status_codes_read_as_results() {
    let ok: Result<(), i32> = 0i32.as_result();
    assert_eq!(ok, Ok(()));
    let err: Result<(), i32> = 0x103i32.as_result();
    assert_eq!(err, Err(0x103));
}
