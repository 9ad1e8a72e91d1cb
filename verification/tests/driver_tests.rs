use lsm6ds3tr::{
    config_g_op, config_xl_op, i16_from_le_bytes, is_expected_whoami, new_data_op, read_g_raw_op,
    read_temp_raw_op, read_whoami_op, read_xl_raw_op, reset_op, temp_raw_from_bytes,
    triple_from_bytes, BusOp, FsG, FsXl, I2cTransport, Lsm6ds3tr, NewDataAvailable,
    NormalizationError, OdrG, OdrXl, LSM6DS3TR_ID, WHO_AM_I_ID,
};

#[test]
fn bus_operations() {
    assert_eq!(read_whoami_op(), BusOp::Read { register: 0x0F, len: 1 });
    assert_eq!(reset_op(), BusOp::Write { register: 0x12, value: 0x05 });
    assert_eq!(new_data_op(), BusOp::Read { register: 0x1E, len: 1 });
    assert_eq!(read_temp_raw_op(), BusOp::Read { register: 0x20, len: 2 });
    assert_eq!(read_xl_raw_op(), BusOp::Read { register: 0x28, len: 6 });
    assert_eq!(read_g_raw_op(), BusOp::Read { register: 0x22, len: 6 });
}

#[test]
fn configuration_writes() {
    assert_eq!(
        config_xl_op(OdrXl::new_at_least(5), FsXl::G4),
        BusOp::Write { register: 0x10, value: 0x18 }
    );
    assert_eq!(
        config_xl_op(OdrXl::Hz6k66, FsXl::G16),
        BusOp::Write { register: 0x10, value: 0xA4 }
    );
    assert_eq!(
        config_g_op(OdrG::new_at_least(100), FsG::Dps500),
        BusOp::Write { register: 0x11, value: 0x44 }
    );
    assert_eq!(
        config_g_op(OdrG::PowerDown, FsG::Dps245),
        BusOp::Write { register: 0x11, value: 0x00 }
    );
}

#[test]
fn who_am_i() {
    assert_eq!(WHO_AM_I_ID, 0b0110_1010);
    assert!(is_expected_whoami(0x6A));
    assert!(!is_expected_whoami(0x69));
    assert!(!is_expected_whoami(0x00));
}

#[test]
fn little_endian_values() {
    assert_eq!(i16_from_le_bytes(0x34, 0x12), 0x1234);
    assert_eq!(i16_from_le_bytes(0xFF, 0xFF), -1);
    assert_eq!(i16_from_le_bytes(0x00, 0x80), i16::MIN);
    assert_eq!(i16_from_le_bytes(0xFF, 0x7F), i16::MAX);
    assert_eq!(i16_from_le_bytes(0x00, 0x00), 0);
    assert_eq!(i16_from_le_bytes(0x00, 0xFF), -256);
}

#[test]
fn little_endian_round_trip() {
    for v in i16::MIN..=i16::MAX {
        let [lo, hi] = v.to_le_bytes();
        assert_eq!(i16_from_le_bytes(lo, hi), v);
    }
    for lo in 0u8..=255 {
        for hi in [0u8, 1, 0x7F, 0x80, 0xFE, 0xFF] {
            assert_eq!(i16_from_le_bytes(lo, hi), i16::from_le_bytes([lo, hi]));
        }
    }
}

#[test]
fn temperature_and_axes() {
    assert_eq!(temp_raw_from_bytes([0x00, 0x01]), 256);
    assert_eq!(temp_raw_from_bytes([0x00, 0xFF]), -256);
    assert_eq!(
        triple_from_bytes([0x01, 0x00, 0xFF, 0xFF, 0x00, 0x40]),
        (1, -1, 0x4000)
    );
}

#[test]
fn new_data_flags() {
    assert_eq!(
        NewDataAvailable::from_status(0x05),
        NewDataAvailable { temp: true, gyro: false, accelerometer: true }
    );
    assert_eq!(
        NewDataAvailable::from_status(0x02),
        NewDataAvailable { temp: false, gyro: true, accelerometer: false }
    );
    assert_eq!(
        NewDataAvailable::from_status(0xF8),
        NewDataAvailable { temp: false, gyro: false, accelerometer: false }
    );
}

#[test]
fn new_device_is_unconfigured() {
    let mut imu = Lsm6ds3tr::new(17u32);
    assert_eq!(LSM6DS3TR_ID, 0x6A);
    assert!(imu.xl_config().is_none());
    assert!(imu.g_config().is_none());
    assert_eq!(imu.xl_scale::<()>(), Err(NormalizationError::NotConfigured));
    assert_eq!(imu.g_scale::<()>(), Err(NormalizationError::NotConfigured));
    let t: &mut I2cTransport<u32> = imu.transport();
    assert_eq!(t.address, 0x6A);
    assert_eq!(t.i2c, 17);
}

#[test]
fn configuration_is_kept_only_when_written() {
    let mut imu = Lsm6ds3tr::new(());
    assert_eq!(imu.finish_config_xl(OdrXl::Hz52, FsXl::G8, Err::<(), u8>(3)), Err(3));
    assert!(imu.xl_config().is_none());
    assert_eq!(imu.xl_scale::<u8>(), Err(NormalizationError::NotConfigured));
    assert_eq!(imu.finish_config_xl(OdrXl::Hz52, FsXl::G8, Ok::<(), u8>(())), Ok(()));
    assert_eq!(imu.xl_config(), Some((OdrXl::Hz52, FsXl::G8)));
    assert_eq!(imu.xl_scale::<u8>(), Ok(FsXl::G8));
    assert!(imu.g_config().is_none());
    assert_eq!(imu.finish_config_xl(OdrXl::Hz104, FsXl::G2, Err::<(), u8>(1)), Err(1));
    assert_eq!(imu.xl_scale::<u8>(), Ok(FsXl::G8));

    assert_eq!(imu.finish_config_g(OdrG::Hz208, FsG::Dps1000, Ok::<(), u8>(())), Ok(()));
    assert_eq!(imu.g_config(), Some((OdrG::Hz208, FsG::Dps1000)));
    assert_eq!(imu.g_scale::<u8>(), Ok(FsG::Dps1000));
    assert_eq!(imu.xl_config(), Some((OdrXl::Hz52, FsXl::G8)));
    assert_eq!(imu.finish_config_g(OdrG::Hz12_5, FsG::Dps125, Err::<(), u8>(9)), Err(9));
    assert_eq!(imu.g_config(), Some((OdrG::Hz208, FsG::Dps1000)));
}

#[test]
fn transport_error_converts() {
    let e: NormalizationError<u8> = NormalizationError::from(5u8);
    assert_eq!(e, NormalizationError::Transport(5));
    assert_ne!(e, NormalizationError::NotConfigured);
}

#[test]
fn configuration_writes_read_back() {
    let rates_xl = [OdrXl::PowerDown, OdrXl::Hz12_5, OdrXl::Hz833, OdrXl::Hz6k66, OdrXl::Hz1_6];
    let ranges_xl = [FsXl::G2, FsXl::G4, FsXl::G8, FsXl::G16];
    for odr in rates_xl {
        for fs in ranges_xl {
            match config_xl_op(odr, fs) {
                BusOp::Write { register, value } => {
                    assert_eq!(register, 0x10);
                    assert_eq!(value & 1, 0);
                    assert_eq!((value >> 1) & 1, 0);
                    assert_eq!(FsXl::from_bits((value >> 2) & 3), fs);
                    assert_eq!(OdrXl::from_bits(value >> 4), odr);
                }
                BusOp::Read { .. } => panic!("configuration must write"),
            }
        }
    }
    let rates_g = [OdrG::PowerDown, OdrG::Hz26, OdrG::Hz3k33, OdrG::Hz6k66];
    let ranges_g = [FsG::Dps125, FsG::Dps245, FsG::Dps500, FsG::Dps1000, FsG::Dps2000];
    for odr in rates_g {
        for fs in ranges_g {
            match config_g_op(odr, fs) {
                BusOp::Write { register, value } => {
                    assert_eq!(register, 0x11);
                    assert_eq!(value & 1, 0);
                    assert_eq!(FsG::from_bits((value >> 1) & 7), fs);
                    assert_eq!(OdrG::from_bits(value >> 4), odr);
                }
                BusOp::Read { .. } => panic!("configuration must write"),
            }
        }
    }
}
