use lsm6ds3tr::{
    Bw0Xl, Ctrl1Struct, Ctrl2Struct, Ctrl3CStruct, FsG, FsXl, OdrG, OdrXl, RegisterAddress,
    StatusRegStruct,
};

const ALL_ODR_XL: [OdrXl; 13] = [
    OdrXl::PowerDown,
    OdrXl::Hz12_5,
    OdrXl::Hz26,
    OdrXl::Hz52,
    OdrXl::Hz104,
    OdrXl::Hz208,
    OdrXl::Hz416,
    OdrXl::Hz833,
    OdrXl::Hz1k66,
    OdrXl::Hz3k33,
    OdrXl::Hz6k66,
    OdrXl::Hz1_6,
    OdrXl::Reserved,
];

const ALL_ODR_G: [OdrG; 12] = [
    OdrG::PowerDown,
    OdrG::Hz12_5,
    OdrG::Hz26,
    OdrG::Hz52,
    OdrG::Hz104,
    OdrG::Hz208,
    OdrG::Hz416,
    OdrG::Hz833,
    OdrG::Hz1k66,
    OdrG::Hz3k33,
    OdrG::Hz6k66,
    OdrG::Reserved,
];

const ALL_FS_G: [FsG; 6] = [
    FsG::Dps125,
    FsG::Dps245,
    FsG::Dps500,
    FsG::Dps1000,
    FsG::Dps2000,
    FsG::Reserved,
];

const ALL_FS_XL: [FsXl; 4] = [FsXl::G2, FsXl::G16, FsXl::G4, FsXl::G8];

// Nominal rates in tenths of a hertz, `None` where the sensor does not sample.
fn odr_xl_dhz(o: OdrXl) -> Option<u32> {
    match o {
        OdrXl::PowerDown | OdrXl::Reserved => None,
        OdrXl::Hz1_6 => Some(16),
        OdrXl::Hz12_5 => Some(125),
        OdrXl::Hz26 => Some(260),
        OdrXl::Hz52 => Some(520),
        OdrXl::Hz104 => Some(1040),
        OdrXl::Hz208 => Some(2080),
        OdrXl::Hz416 => Some(4160),
        OdrXl::Hz833 => Some(8330),
        OdrXl::Hz1k66 => Some(16600),
        OdrXl::Hz3k33 => Some(33300),
        OdrXl::Hz6k66 => Some(66600),
    }
}

fn odr_g_dhz(o: OdrG) -> Option<u32> {
    match o {
        OdrG::PowerDown | OdrG::Reserved => None,
        OdrG::Hz12_5 => Some(125),
        OdrG::Hz26 => Some(260),
        OdrG::Hz52 => Some(520),
        OdrG::Hz104 => Some(1040),
        OdrG::Hz208 => Some(2080),
        OdrG::Hz416 => Some(4160),
        OdrG::Hz833 => Some(8330),
        OdrG::Hz1k66 => Some(16600),
        OdrG::Hz3k33 => Some(33300),
        OdrG::Hz6k66 => Some(66600),
    }
}

#[test]
fn register_addresses() {
    assert_eq!(RegisterAddress::WhoAmI.addr(), 0x0F);
    assert_eq!(RegisterAddress::Ctrl1Xl.addr(), 0x10);
    assert_eq!(RegisterAddress::Ctrl2G.addr(), 0x11);
    assert_eq!(RegisterAddress::Ctrl3C.addr(), 0x12);
    assert_eq!(RegisterAddress::StatusReg.addr(), 0x1E);
    assert_eq!(RegisterAddress::OutTempL.addr(), 0x20);
    assert_eq!(RegisterAddress::OutTempH.addr(), 0x21);
    assert_eq!(RegisterAddress::OutXLG.addr(), 0x22);
    assert_eq!(RegisterAddress::OutZHG.addr(), 0x27);
    assert_eq!(RegisterAddress::OutXLXl.addr(), 0x28);
    assert_eq!(RegisterAddress::OutZHXl.addr(), 0x2D);
}

#[test]
fn odr_xl_new_at_least_thresholds() {
    assert_eq!(OdrXl::new_at_least(0), OdrXl::Hz12_5);
    assert_eq!(OdrXl::new_at_least(1), OdrXl::Hz12_5);
    assert_eq!(OdrXl::new_at_least(5), OdrXl::Hz12_5);
    assert_eq!(OdrXl::new_at_least(11), OdrXl::Hz12_5);
    assert_eq!(OdrXl::new_at_least(12), OdrXl::Hz12_5);
    assert_eq!(OdrXl::new_at_least(13), OdrXl::Hz26);
    assert_eq!(OdrXl::new_at_least(26), OdrXl::Hz26);
    assert_eq!(OdrXl::new_at_least(27), OdrXl::Hz52);
    assert_eq!(OdrXl::new_at_least(100), OdrXl::Hz104);
    assert_eq!(OdrXl::new_at_least(208), OdrXl::Hz208);
    assert_eq!(OdrXl::new_at_least(416), OdrXl::Hz416);
    assert_eq!(OdrXl::new_at_least(833), OdrXl::Hz833);
    assert_eq!(OdrXl::new_at_least(834), OdrXl::Hz1k66);
    assert_eq!(OdrXl::new_at_least(1660), OdrXl::Hz1k66);
    assert_eq!(OdrXl::new_at_least(3330), OdrXl::Hz3k33);
    assert_eq!(OdrXl::new_at_least(3331), OdrXl::Hz6k66);
    assert_eq!(OdrXl::new_at_least(6660), OdrXl::Hz6k66);
    assert_eq!(OdrXl::new_at_least(u16::MAX), OdrXl::Hz6k66);
}

#[test]
fn odr_g_new_at_least_thresholds() {
    assert_eq!(OdrG::new_at_least(0), OdrG::Hz12_5);
    assert_eq!(OdrG::new_at_least(12), OdrG::Hz12_5);
    assert_eq!(OdrG::new_at_least(13), OdrG::Hz26);
    assert_eq!(OdrG::new_at_least(52), OdrG::Hz52);
    assert_eq!(OdrG::new_at_least(100), OdrG::Hz104);
    assert_eq!(OdrG::new_at_least(105), OdrG::Hz208);
    assert_eq!(OdrG::new_at_least(417), OdrG::Hz833);
    assert_eq!(OdrG::new_at_least(1000), OdrG::Hz1k66);
    assert_eq!(OdrG::new_at_least(3000), OdrG::Hz3k33);
    assert_eq!(OdrG::new_at_least(6000), OdrG::Hz6k66);
    assert_eq!(OdrG::new_at_least(u16::MAX), OdrG::Hz6k66);
}

#[test]
fn odr_xl_new_at_least_picks_slowest_sufficient_rate() {
    for freq in 2u16..=7000 {
        let chosen = odr_xl_dhz(OdrXl::new_at_least(freq)).unwrap();
        let wanted = 10 * freq as u32;
        if freq <= 6660 {
            assert!(chosen >= wanted);
            for o in ALL_ODR_XL {
                if let Some(r) = odr_xl_dhz(o) {
                    if r >= wanted {
                        assert!(chosen <= r);
                    }
                }
            }
        } else {
            for o in ALL_ODR_XL {
                if let Some(r) = odr_xl_dhz(o) {
                    assert!(r <= chosen);
                }
            }
        }
    }
}

#[test]
fn odr_xl_new_at_least_skips_low_power_rate() {
    // 1.6 Hz would suffice for 1 Hz, but only the regular rates are chosen.
    assert_eq!(OdrXl::new_at_least(1), OdrXl::Hz12_5);
}

#[test]
fn odr_g_new_at_least_picks_slowest_sufficient_rate() {
    for freq in 1u16..=7000 {
        let chosen = odr_g_dhz(OdrG::new_at_least(freq)).unwrap();
        let wanted = 10 * freq as u32;
        if freq <= 6660 {
            assert!(chosen >= wanted);
            for o in ALL_ODR_G {
                if let Some(r) = odr_g_dhz(o) {
                    if r >= wanted {
                        assert!(chosen <= r);
                    }
                }
            }
        } else {
            for o in ALL_ODR_G {
                if let Some(r) = odr_g_dhz(o) {
                    assert!(r <= chosen);
                }
            }
        }
    }
}

#[test]
fn field_codes() {
    assert_eq!(OdrXl::PowerDown.bits(), 0);
    assert_eq!(OdrXl::Hz6k66.bits(), 0b1010);
    assert_eq!(OdrXl::Hz1_6.bits(), 0b1011);
    assert_eq!(OdrXl::Reserved.bits(), 12);
    assert_eq!(OdrG::Hz6k66.bits(), 0b1010);
    assert_eq!(OdrG::Reserved.bits(), 11);
    assert_eq!(FsXl::G2.bits(), 0b00);
    assert_eq!(FsXl::G16.bits(), 0b01);
    assert_eq!(FsXl::G4.bits(), 0b10);
    assert_eq!(FsXl::G8.bits(), 0b11);
    assert_eq!(Bw0Xl::Hz1k5.bits(), 0);
    assert_eq!(Bw0Xl::Hz400.bits(), 1);
    assert_eq!(FsG::Dps125.bits(), 0b001);
    assert_eq!(FsG::Dps245.bits(), 0b000);
    assert_eq!(FsG::Dps500.bits(), 0b010);
    assert_eq!(FsG::Dps1000.bits(), 0b100);
    assert_eq!(FsG::Dps2000.bits(), 0b110);
    assert_eq!(FsG::Reserved.bits(), 0b111);
}

#[test]
fn settings_decode_from_their_own_codes() {
    for o in ALL_ODR_XL {
        assert_eq!(OdrXl::from_bits(o.bits()), o);
    }
    for o in ALL_ODR_G {
        assert_eq!(OdrG::from_bits(o.bits()), o);
    }
    for f in ALL_FS_XL {
        assert_eq!(FsXl::from_bits(f.bits()), f);
    }
    for f in ALL_FS_G {
        assert_eq!(FsG::from_bits(f.bits()), f);
    }
    for b in [Bw0Xl::Hz1k5, Bw0Xl::Hz400] {
        assert_eq!(Bw0Xl::from_bits(b.bits()), b);
    }
}

#[test]
fn unassigned_codes_decode_to_reserved() {
    for b in 12u8..16 {
        assert_eq!(OdrXl::from_bits(b), OdrXl::Reserved);
    }
    for b in 11u8..16 {
        assert_eq!(OdrG::from_bits(b), OdrG::Reserved);
    }
    assert_eq!(FsG::from_bits(3), FsG::Reserved);
    assert_eq!(FsG::from_bits(5), FsG::Reserved);
    assert_eq!(FsG::from_bits(7), FsG::Reserved);
    for b in 0u8..16 {
        assert_eq!(OdrXl::from_bits(b).bits() == b, b <= 12);
        assert_eq!(OdrG::from_bits(b).bits() == b, b <= 11);
    }
    for b in 0u8..8 {
        assert_eq!(FsG::from_bits(b).bits() == b, b != 3 && b != 5);
    }
}

#[test]
fn sensitivities() {
    assert_eq!(FsXl::G2.sensitivity_ug_lsb(), 61);
    assert_eq!(FsXl::G4.sensitivity_ug_lsb(), 122);
    assert_eq!(FsXl::G8.sensitivity_ug_lsb(), 244);
    assert_eq!(FsXl::G16.sensitivity_ug_lsb(), 488);
    assert_eq!(FsG::Dps125.sensitivity_udps_lsb(), 4375);
    assert_eq!(FsG::Dps245.sensitivity_udps_lsb(), 8750);
    assert_eq!(FsG::Dps500.sensitivity_udps_lsb(), 17500);
    assert_eq!(FsG::Dps1000.sensitivity_udps_lsb(), 35000);
    assert_eq!(FsG::Dps2000.sensitivity_udps_lsb(), 70000);
    assert_eq!(FsG::Reserved.sensitivity_udps_lsb(), 0);
}

#[test]
fn sensitivities_match_datasheet_in_float_units() {
    assert_eq!(FsXl::G2.sensitivity_ug_lsb() as f32 / 1000.0, 0.061f32);
    assert_eq!(FsXl::G4.sensitivity_ug_lsb() as f32 / 1000.0, 0.122f32);
    assert_eq!(FsXl::G8.sensitivity_ug_lsb() as f32 / 1000.0, 0.244f32);
    assert_eq!(FsXl::G16.sensitivity_ug_lsb() as f32 / 1000.0, 0.488f32);
    assert_eq!(FsG::Dps125.sensitivity_udps_lsb() as f32 / 1000.0, 4.375f32);
    assert_eq!(FsG::Dps245.sensitivity_udps_lsb() as f32 / 1000.0, 8.75f32);
    assert_eq!(FsG::Dps500.sensitivity_udps_lsb() as f32 / 1000.0, 17.50f32);
    assert_eq!(FsG::Dps1000.sensitivity_udps_lsb() as f32 / 1000.0, 35.0f32);
    assert_eq!(FsG::Dps2000.sensitivity_udps_lsb() as f32 / 1000.0, 70.0f32);
    assert_eq!(FsG::Reserved.sensitivity_udps_lsb() as f32 / 1000.0, 0.0f32);
}

#[test]
fn sensitivity_is_range_over_half_the_codes() {
    for (f, range) in [(FsXl::G2, 2u64), (FsXl::G4, 4), (FsXl::G8, 8), (FsXl::G16, 16)] {
        let s = f.sensitivity_ug_lsb() as u64;
        assert!(s * 32768 <= range * 1_000_000);
        assert!(range * 1_000_000 < (s + 1) * 32768);
    }
}

#[test]
fn ctrl1_packing() {
    assert_eq!(Ctrl1Struct::new(Bw0Xl::Hz1k5, false, FsXl::G4, OdrXl::Hz104).value, 0x48);
    assert_eq!(Ctrl1Struct::new(Bw0Xl::Hz400, true, FsXl::G8, OdrXl::Hz6k66).value, 0xAF);
    assert_eq!(Ctrl1Struct::new(Bw0Xl::Hz1k5, false, FsXl::G2, OdrXl::PowerDown).value, 0x00);
    assert_eq!(Ctrl1Struct::new(Bw0Xl::Hz1k5, false, FsXl::G16, OdrXl::Reserved).value, 0xC4);
}

#[test]
fn ctrl1_fields_read_back() {
    for o in ALL_ODR_XL {
        for f in ALL_FS_XL {
            for b in [Bw0Xl::Hz1k5, Bw0Xl::Hz400] {
                for lpf in [false, true] {
                    let v = Ctrl1Struct::new(b, lpf, f, o).value;
                    assert_eq!(Bw0Xl::from_bits(v & 1), b);
                    assert_eq!((v >> 1) & 1 == 1, lpf);
                    assert_eq!(FsXl::from_bits((v >> 2) & 3), f);
                    assert_eq!(OdrXl::from_bits(v >> 4), o);
                }
            }
        }
    }
}

#[test]
fn ctrl2_packing() {
    assert_eq!(Ctrl2Struct::new(FsG::Dps500, OdrG::Hz104).value, 0x44);
    assert_eq!(Ctrl2Struct::new(FsG::Dps2000, OdrG::Hz6k66).value, 0xAC);
    assert_eq!(Ctrl2Struct::new(FsG::Dps125, OdrG::Hz12_5).value, 0x12);
    assert_eq!(Ctrl2Struct::new(FsG::Reserved, OdrG::Reserved).value, 0xBE);
}

#[test]
fn ctrl2_fields_read_back() {
    for o in ALL_ODR_G {
        for f in ALL_FS_G {
            let v = Ctrl2Struct::new(f, o).value;
            assert_eq!(v & 1, 0);
            assert_eq!(FsG::from_bits((v >> 1) & 7), f);
            assert_eq!(OdrG::from_bits(v >> 4), o);
        }
    }
}

#[test]
fn ctrl3c_default_and_reset_bit() {
    let mut c = Ctrl3CStruct::default();
    assert_eq!(c.value, 0x04);
    c.set_sw_reset(true);
    assert_eq!(c.value, 0x05);
    c.set_sw_reset(false);
    assert_eq!(c.value, 0x04);
    let mut all = Ctrl3CStruct::new(true, true, true, true, true, true, true, true);
    assert_eq!(all.value, 0xFF);
    all.set_sw_reset(false);
    assert_eq!(all.value, 0xFE);
    assert_eq!(Ctrl3CStruct::new(false, false, false, false, false, false, false, true).value, 0x80);
    assert_eq!(Ctrl3CStruct::new(false, true, false, true, false, true, false, false).value, 0x2A);
}

#[test]
fn status_register_flags() {
    let s = StatusRegStruct::from(0x07u8);
    assert!(s.xlda() && s.gda() && s.tda());
    let s = StatusRegStruct::from(0xF8u8);
    assert!(!s.xlda() && !s.gda() && !s.tda());
    let s = StatusRegStruct::from(0x01u8);
    assert!(s.xlda() && !s.gda() && !s.tda());
    let s = StatusRegStruct::from(0x02u8);
    assert!(!s.xlda() && s.gda() && !s.tda());
    let s = StatusRegStruct::from(0x04u8);
    assert!(!s.xlda() && !s.gda() && s.tda());
}

#[test]
fn wider_range_has_coarser_sensitivity() {
    let xl = [(FsXl::G2, 2), (FsXl::G4, 4), (FsXl::G8, 8), (FsXl::G16, 16)];
    for (a, ra) in xl {
        for (b, rb) in xl {
            if ra < rb {
                assert!(a.sensitivity_ug_lsb() < b.sensitivity_ug_lsb());
            }
        }
    }
    let g = [
        (FsG::Dps125, 125),
        (FsG::Dps245, 245),
        (FsG::Dps500, 500),
        (FsG::Dps1000, 1000),
        (FsG::Dps2000, 2000),
    ];
    for (a, ra) in g {
        for (b, rb) in g {
            if ra < rb {
                assert!(a.sensitivity_udps_lsb() < b.sensitivity_udps_lsb());
            }
        }
    }
}
