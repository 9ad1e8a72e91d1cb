use vstd::arithmetic::power2::pow2;
use vstd::prelude::*;

verus! {

/// Addresses of the registers the driver reads and writes.
#[derive(Clone, Copy, PartialEq, Eq, Structural, Debug)]
pub enum RegisterAddress {
    WhoAmI,
    Ctrl1Xl,
    Ctrl2G,
    Ctrl3C,
    StatusReg,
    OutTempL,
    OutTempH,
    /// gyro pitch rate low
    OutXLG,
    /// gyro pitch rate high
    OutXHG,
    /// gyro roll rate low
    OutYLG,
    /// gyro roll rate high
    OutYHG,
    /// gyro yaw rate low
    OutZLG,
    /// gyro yaw rate high
    OutZHG,
    /// accelerometer x low
    OutXLXl,
    /// accelerometer x high
    OutXHXl,
    /// accelerometer y low
    OutYLXl,
    /// accelerometer y high
    OutYHXl,
    /// accelerometer z low
    OutZLXl,
    /// accelerometer z high
    OutZHXl,
}

impl RegisterAddress {
    /// The address byte of the register on the bus.
    pub open spec fn spec_addr(self) -> u8 {
        match self {
            RegisterAddress::WhoAmI => 0x0F,
            RegisterAddress::Ctrl1Xl => 0x10,
            RegisterAddress::Ctrl2G => 0x11,
            RegisterAddress::Ctrl3C => 0x12,
            RegisterAddress::StatusReg => 0x1E,
            RegisterAddress::OutTempL => 0x20,
            RegisterAddress::OutTempH => 0x21,
            RegisterAddress::OutXLG => 0x22,
            RegisterAddress::OutXHG => 0x23,
            RegisterAddress::OutYLG => 0x24,
            RegisterAddress::OutYHG => 0x25,
            RegisterAddress::OutZLG => 0x26,
            RegisterAddress::OutZHG => 0x27,
            RegisterAddress::OutXLXl => 0x28,
            RegisterAddress::OutXHXl => 0x29,
            RegisterAddress::OutYLXl => 0x2A,
            RegisterAddress::OutYHXl => 0x2B,
            RegisterAddress::OutZLXl => 0x2C,
            RegisterAddress::OutZHXl => 0x2D,
        }
    }

    pub fn addr(self) -> (r: u8)
        ensures
            r == self.spec_addr(),
    {
        match self {
            RegisterAddress::WhoAmI => 0x0F,
            RegisterAddress::Ctrl1Xl => 0x10,
            RegisterAddress::Ctrl2G => 0x11,
            RegisterAddress::Ctrl3C => 0x12,
            RegisterAddress::StatusReg => 0x1E,
            RegisterAddress::OutTempL => 0x20,
            RegisterAddress::OutTempH => 0x21,
            RegisterAddress::OutXLG => 0x22,
            RegisterAddress::OutXHG => 0x23,
            RegisterAddress::OutYLG => 0x24,
            RegisterAddress::OutYHG => 0x25,
            RegisterAddress::OutZLG => 0x26,
            RegisterAddress::OutZHG => 0x27,
            RegisterAddress::OutXLXl => 0x28,
            RegisterAddress::OutXHXl => 0x29,
            RegisterAddress::OutYLXl => 0x2A,
            RegisterAddress::OutYHXl => 0x2B,
            RegisterAddress::OutZLXl => 0x2C,
            RegisterAddress::OutZHXl => 0x2D,
        }
    }
}

/// Accelerometer output data rate: the 4-bit `ODR_XL` field of `CTRL1_XL`.
/// Codes 12 to 15 are not assigned; they read back as `Reserved`, whose own code is 12.
#[derive(Clone, Copy, PartialEq, Eq, Structural, Debug)]
pub enum OdrXl {
    PowerDown,
    Hz12_5,
    Hz26,
    Hz52,
    Hz104,
    Hz208,
    Hz416,
    Hz833,
    Hz1k66,
    Hz3k33,
    Hz6k66,
    Hz1_6,
    Reserved,
}

impl OdrXl {
    /// The 4-bit code of the rate.
    pub open spec fn spec_bits(self) -> u8 {
        match self {
            OdrXl::PowerDown => 0,
            OdrXl::Hz12_5 => 1,
            OdrXl::Hz26 => 2,
            OdrXl::Hz52 => 3,
            OdrXl::Hz104 => 4,
            OdrXl::Hz208 => 5,
            OdrXl::Hz416 => 6,
            OdrXl::Hz833 => 7,
            OdrXl::Hz1k66 => 8,
            OdrXl::Hz3k33 => 9,
            OdrXl::Hz6k66 => 10,
            OdrXl::Hz1_6 => 11,
            OdrXl::Reserved => 12,
        }
    }

    /// The rate a 4-bit code stands for; unassigned codes give `Reserved`.
    pub open spec fn spec_from_bits(b: u8) -> OdrXl {
        if b == 0 {
            OdrXl::PowerDown
        } else if b == 1 {
            OdrXl::Hz12_5
        } else if b == 2 {
            OdrXl::Hz26
        } else if b == 3 {
            OdrXl::Hz52
        } else if b == 4 {
            OdrXl::Hz104
        } else if b == 5 {
            OdrXl::Hz208
        } else if b == 6 {
            OdrXl::Hz416
        } else if b == 7 {
            OdrXl::Hz833
        } else if b == 8 {
            OdrXl::Hz1k66
        } else if b == 9 {
            OdrXl::Hz3k33
        } else if b == 10 {
            OdrXl::Hz6k66
        } else if b == 11 {
            OdrXl::Hz1_6
        } else {
            OdrXl::Reserved
        }
    }

    /// Nominal sampling rate in tenths of a hertz; 0 where the sensor does not sample.
    pub open spec fn rate_dhz(self) -> int {
        match self {
            OdrXl::PowerDown => 0,
            OdrXl::Hz12_5 => 125,
            OdrXl::Hz26 => 260,
            OdrXl::Hz52 => 520,
            OdrXl::Hz104 => 1040,
            OdrXl::Hz208 => 2080,
            OdrXl::Hz416 => 4160,
            OdrXl::Hz833 => 8330,
            OdrXl::Hz1k66 => 16600,
            OdrXl::Hz3k33 => 33300,
            OdrXl::Hz6k66 => 66600,
            OdrXl::Hz1_6 => 16,
            OdrXl::Reserved => 0,
        }
    }

    /// Whether the setting makes the sensor sample at all.
    pub open spec fn is_sampling(self) -> bool {
        self != OdrXl::PowerDown && self != OdrXl::Reserved
    }

    /// The rate chosen for a request of at least `freq_hz` hertz.
    pub open spec fn spec_new_at_least(freq_hz: u16) -> OdrXl {
        if freq_hz <= 12 {
            OdrXl::Hz12_5
        } else if freq_hz <= 26 {
            OdrXl::Hz26
        } else if freq_hz <= 52 {
            OdrXl::Hz52
        } else if freq_hz <= 104 {
            OdrXl::Hz104
        } else if freq_hz <= 208 {
            OdrXl::Hz208
        } else if freq_hz <= 416 {
            OdrXl::Hz416
        } else if freq_hz <= 833 {
            OdrXl::Hz833
        } else if freq_hz <= 1660 {
            OdrXl::Hz1k66
        } else if freq_hz <= 3330 {
            OdrXl::Hz3k33
        } else {
            OdrXl::Hz6k66
        }
    }

    pub fn bits(self) -> (r: u8)
        ensures
            r == self.spec_bits(),
            r < 16,
    {
        match self {
            OdrXl::PowerDown => 0,
            OdrXl::Hz12_5 => 1,
            OdrXl::Hz26 => 2,
            OdrXl::Hz52 => 3,
            OdrXl::Hz104 => 4,
            OdrXl::Hz208 => 5,
            OdrXl::Hz416 => 6,
            OdrXl::Hz833 => 7,
            OdrXl::Hz1k66 => 8,
            OdrXl::Hz3k33 => 9,
            OdrXl::Hz6k66 => 10,
            OdrXl::Hz1_6 => 11,
            OdrXl::Reserved => 12,
        }
    }

    pub fn from_bits(b: u8) -> (r: OdrXl)
        requires
            b < 16,
        ensures
            r == OdrXl::spec_from_bits(b),
    {
        match b {
            0 => OdrXl::PowerDown,
            1 => OdrXl::Hz12_5,
            2 => OdrXl::Hz26,
            3 => OdrXl::Hz52,
            4 => OdrXl::Hz104,
            5 => OdrXl::Hz208,
            6 => OdrXl::Hz416,
            7 => OdrXl::Hz833,
            8 => OdrXl::Hz1k66,
            9 => OdrXl::Hz3k33,
            10 => OdrXl::Hz6k66,
            11 => OdrXl::Hz1_6,
            _ => OdrXl::Reserved,
        }
    }

    /// The slowest of the regular rates (12.5 Hz up to 6.66 kHz) that is at least
    /// `freq_hz`, or 6.66 kHz when the request is above every rate.
    pub fn new_at_least(freq_hz: u16) -> (r: OdrXl)
        ensures
            r == OdrXl::spec_new_at_least(freq_hz),
            r.is_sampling(),
    {
        if freq_hz <= 12 {
            OdrXl::Hz12_5
        } else if freq_hz <= 26 {
            OdrXl::Hz26
        } else if freq_hz <= 52 {
            OdrXl::Hz52
        } else if freq_hz <= 104 {
            OdrXl::Hz104
        } else if freq_hz <= 208 {
            OdrXl::Hz208
        } else if freq_hz <= 416 {
            OdrXl::Hz416
        } else if freq_hz <= 833 {
            OdrXl::Hz833
        } else if freq_hz <= 1660 {
            OdrXl::Hz1k66
        } else if freq_hz <= 3330 {
            OdrXl::Hz3k33
        } else {
            OdrXl::Hz6k66
        }
    }
}


/// A request between 2 Hz and the fastest rate gets the slowest rate that is at least
/// the request; a request above the fastest rate gets the fastest rate.
pub proof fn lemma_odr_xl_new_at_least_is_slowest_sufficient(freq_hz: u16)
    ensures
        2 <= freq_hz <= 6660 ==> {
            &&& OdrXl::spec_new_at_least(freq_hz).rate_dhz() >= 10 * freq_hz
            &&& forall|o: OdrXl|
                o.is_sampling() && o.rate_dhz() >= 10 * freq_hz ==> OdrXl::spec_new_at_least(
                    freq_hz,
                ).rate_dhz() <= #[trigger] o.rate_dhz()
        },
        freq_hz > 6660 ==> forall|o: OdrXl|
            o.is_sampling() ==> #[trigger] o.rate_dhz() <= OdrXl::spec_new_at_least(
                freq_hz,
            ).rate_dhz(),
{
}


/// Accelerometer full-scale range: the 2-bit `FS_XL` field of `CTRL1_XL`.
#[derive(Clone, Copy, PartialEq, Eq, Structural, Debug)]
pub enum FsXl {
    G2,
    G16,
    G4,
    G8,
}

impl FsXl {
    pub open spec fn spec_bits(self) -> u8 {
        match self {
            FsXl::G2 => 0,
            FsXl::G16 => 1,
            FsXl::G4 => 2,
            FsXl::G8 => 3,
        }
    }

    pub open spec fn spec_from_bits(b: u8) -> FsXl {
        if b == 0 {
            FsXl::G2
        } else if b == 1 {
            FsXl::G16
        } else if b == 2 {
            FsXl::G4
        } else {
            FsXl::G8
        }
    }

    /// The measuring range, in g either side of zero.
    pub open spec fn range_g(self) -> int {
        match self {
            FsXl::G2 => 2,
            FsXl::G16 => 16,
            FsXl::G4 => 4,
            FsXl::G8 => 8,
        }
    }

    /// The datasheet sensitivity, in micro-g per least significant bit.
    pub open spec fn spec_sensitivity_ug_lsb(self) -> u32 {
        match self {
            FsXl::G2 => 61,
            FsXl::G4 => 122,
            FsXl::G8 => 244,
            FsXl::G16 => 488,
        }
    }

    pub fn bits(self) -> (r: u8)
        ensures
            r == self.spec_bits(),
            r < 4,
    {
        match self {
            FsXl::G2 => 0,
            FsXl::G16 => 1,
            FsXl::G4 => 2,
            FsXl::G8 => 3,
        }
    }

    pub fn from_bits(b: u8) -> (r: FsXl)
        requires
            b < 4,
        ensures
            r == FsXl::spec_from_bits(b),
    {
        match b {
            0 => FsXl::G2,
            1 => FsXl::G16,
            2 => FsXl::G4,
            _ => FsXl::G8,
        }
    }

    /// The datasheet sensitivity of the range, in micro-g per least significant bit
    /// (0.061, 0.122, 0.244 and 0.488 mg/LSB for 2, 4, 8 and 16 g).
    pub fn sensitivity_ug_lsb(&self) -> (r: u32)
        ensures
            r == self.spec_sensitivity_ug_lsb(),
    {
        match self {
            FsXl::G2 => 61,
            FsXl::G4 => 122,
            FsXl::G8 => 244,
            FsXl::G16 => 488,
        }
    }
}

/// Accelerometer anti-aliasing filter bandwidth: the `BW0_XL` bit of `CTRL1_XL`.
#[derive(Clone, Copy, PartialEq, Eq, Structural, Debug)]
pub enum Bw0Xl {
    Hz1k5,
    Hz400,
}

impl Bw0Xl {
    pub open spec fn spec_bits(self) -> u8 {
        match self {
            Bw0Xl::Hz1k5 => 0,
            Bw0Xl::Hz400 => 1,
        }
    }

    pub open spec fn spec_from_bits(b: u8) -> Bw0Xl {
        if b == 0 {
            Bw0Xl::Hz1k5
        } else {
            Bw0Xl::Hz400
        }
    }

    pub fn bits(self) -> (r: u8)
        ensures
            r == self.spec_bits(),
            r < 2,
    {
        match self {
            Bw0Xl::Hz1k5 => 0,
            Bw0Xl::Hz400 => 1,
        }
    }

    pub fn from_bits(b: u8) -> (r: Bw0Xl)
        requires
            b < 2,
        ensures
            r == Bw0Xl::spec_from_bits(b),
    {
        if b == 0 {
            Bw0Xl::Hz1k5
        } else {
            Bw0Xl::Hz400
        }
    }
}

/// Gyroscope output data rate: the 4-bit `ODR_G` field of `CTRL2_G`.
/// Codes 11 to 15 are not assigned; they read back as `Reserved`, whose own code is 11.
#[derive(Clone, Copy, PartialEq, Eq, Structural, Debug)]
pub enum OdrG {
    PowerDown,
    Hz12_5,
    Hz26,
    Hz52,
    Hz104,
    Hz208,
    Hz416,
    Hz833,
    Hz1k66,
    Hz3k33,
    Hz6k66,
    Reserved,
}

impl OdrG {
    pub open spec fn spec_bits(self) -> u8 {
        match self {
            OdrG::PowerDown => 0,
            OdrG::Hz12_5 => 1,
            OdrG::Hz26 => 2,
            OdrG::Hz52 => 3,
            OdrG::Hz104 => 4,
            OdrG::Hz208 => 5,
            OdrG::Hz416 => 6,
            OdrG::Hz833 => 7,
            OdrG::Hz1k66 => 8,
            OdrG::Hz3k33 => 9,
            OdrG::Hz6k66 => 10,
            OdrG::Reserved => 11,
        }
    }

    pub open spec fn spec_from_bits(b: u8) -> OdrG {
        if b == 0 {
            OdrG::PowerDown
        } else if b == 1 {
            OdrG::Hz12_5
        } else if b == 2 {
            OdrG::Hz26
        } else if b == 3 {
            OdrG::Hz52
        } else if b == 4 {
            OdrG::Hz104
        } else if b == 5 {
            OdrG::Hz208
        } else if b == 6 {
            OdrG::Hz416
        } else if b == 7 {
            OdrG::Hz833
        } else if b == 8 {
            OdrG::Hz1k66
        } else if b == 9 {
            OdrG::Hz3k33
        } else if b == 10 {
            OdrG::Hz6k66
        } else {
            OdrG::Reserved
        }
    }

    /// Nominal sampling rate in tenths of a hertz; 0 where the sensor does not sample.
    pub open spec fn rate_dhz(self) -> int {
        match self {
            OdrG::PowerDown => 0,
            OdrG::Hz12_5 => 125,
            OdrG::Hz26 => 260,
            OdrG::Hz52 => 520,
            OdrG::Hz104 => 1040,
            OdrG::Hz208 => 2080,
            OdrG::Hz416 => 4160,
            OdrG::Hz833 => 8330,
            OdrG::Hz1k66 => 16600,
            OdrG::Hz3k33 => 33300,
            OdrG::Hz6k66 => 66600,
            OdrG::Reserved => 0,
        }
    }

    pub open spec fn is_sampling(self) -> bool {
        self != OdrG::PowerDown && self != OdrG::Reserved
    }

    pub open spec fn spec_new_at_least(freq_hz: u16) -> OdrG {
        if freq_hz <= 12 {
            OdrG::Hz12_5
        } else if freq_hz <= 26 {
            OdrG::Hz26
        } else if freq_hz <= 52 {
            OdrG::Hz52
        } else if freq_hz <= 104 {
            OdrG::Hz104
        } else if freq_hz <= 208 {
            OdrG::Hz208
        } else if freq_hz <= 416 {
            OdrG::Hz416
        } else if freq_hz <= 833 {
            OdrG::Hz833
        } else if freq_hz <= 1660 {
            OdrG::Hz1k66
        } else if freq_hz <= 3330 {
            OdrG::Hz3k33
        } else {
            OdrG::Hz6k66
        }
    }

    pub fn bits(self) -> (r: u8)
        ensures
            r == self.spec_bits(),
            r < 16,
    {
        match self {
            OdrG::PowerDown => 0,
            OdrG::Hz12_5 => 1,
            OdrG::Hz26 => 2,
            OdrG::Hz52 => 3,
            OdrG::Hz104 => 4,
            OdrG::Hz208 => 5,
            OdrG::Hz416 => 6,
            OdrG::Hz833 => 7,
            OdrG::Hz1k66 => 8,
            OdrG::Hz3k33 => 9,
            OdrG::Hz6k66 => 10,
            OdrG::Reserved => 11,
        }
    }

    pub fn from_bits(b: u8) -> (r: OdrG)
        requires
            b < 16,
        ensures
            r == OdrG::spec_from_bits(b),
    {
        match b {
            0 => OdrG::PowerDown,
            1 => OdrG::Hz12_5,
            2 => OdrG::Hz26,
            3 => OdrG::Hz52,
            4 => OdrG::Hz104,
            5 => OdrG::Hz208,
            6 => OdrG::Hz416,
            7 => OdrG::Hz833,
            8 => OdrG::Hz1k66,
            9 => OdrG::Hz3k33,
            10 => OdrG::Hz6k66,
            _ => OdrG::Reserved,
        }
    }

    /// The slowest rate (12.5 Hz up to 6.66 kHz) that is at least `freq_hz`,
    /// or 6.66 kHz when the request is above every rate.
    pub fn new_at_least(freq_hz: u16) -> (r: OdrG)
        ensures
            r == OdrG::spec_new_at_least(freq_hz),
            r.is_sampling(),
    {
        if freq_hz <= 12 {
            OdrG::Hz12_5
        } else if freq_hz <= 26 {
            OdrG::Hz26
        } else if freq_hz <= 52 {
            OdrG::Hz52
        } else if freq_hz <= 104 {
            OdrG::Hz104
        } else if freq_hz <= 208 {
            OdrG::Hz208
        } else if freq_hz <= 416 {
            OdrG::Hz416
        } else if freq_hz <= 833 {
            OdrG::Hz833
        } else if freq_hz <= 1660 {
            OdrG::Hz1k66
        } else if freq_hz <= 3330 {
            OdrG::Hz3k33
        } else {
            OdrG::Hz6k66
        }
    }
}

/// A request up to the fastest rate gets the slowest rate that is at least the
/// request; a request above the fastest rate gets the fastest rate.
pub proof fn lemma_odr_g_new_at_least_is_slowest_sufficient(freq_hz: u16)
    ensures
        1 <= freq_hz <= 6660 ==> {
            &&& OdrG::spec_new_at_least(freq_hz).rate_dhz() >= 10 * freq_hz
            &&& forall|o: OdrG|
                o.is_sampling() && o.rate_dhz() >= 10 * freq_hz ==> OdrG::spec_new_at_least(
                    freq_hz,
                ).rate_dhz() <= #[trigger] o.rate_dhz()
        },
        freq_hz > 6660 ==> forall|o: OdrG|
            o.is_sampling() ==> #[trigger] o.rate_dhz() <= OdrG::spec_new_at_least(
                freq_hz,
            ).rate_dhz(),
{
}

/// Gyroscope full-scale range: the 3-bit `FS_G` field of `CTRL2_G` (with `FS_125`
/// as its lowest bit). Codes 3, 5 and 7 are not assigned; they read back as
/// `Reserved`, whose own code is 7.
#[derive(Clone, Copy, PartialEq, Eq, Structural, Debug)]
pub enum FsG {
    Dps125,
    Dps245,
    Dps500,
    Dps1000,
    Dps2000,
    Reserved,
}

impl FsG {
    pub open spec fn spec_bits(self) -> u8 {
        match self {
            FsG::Dps125 => 1,
            FsG::Dps245 => 0,
            FsG::Dps500 => 2,
            FsG::Dps1000 => 4,
            FsG::Dps2000 => 6,
            FsG::Reserved => 7,
        }
    }

    pub open spec fn spec_from_bits(b: u8) -> FsG {
        if b == 1 {
            FsG::Dps125
        } else if b == 0 {
            FsG::Dps245
        } else if b == 2 {
            FsG::Dps500
        } else if b == 4 {
            FsG::Dps1000
        } else if b == 6 {
            FsG::Dps2000
        } else {
            FsG::Reserved
        }
    }

    /// The measuring range in degrees per second either side of zero; 0 for `Reserved`.
    pub open spec fn range_dps(self) -> int {
        match self {
            FsG::Dps125 => 125,
            FsG::Dps245 => 245,
            FsG::Dps500 => 500,
            FsG::Dps1000 => 1000,
            FsG::Dps2000 => 2000,
            FsG::Reserved => 0,
        }
    }

    /// The datasheet sensitivity, in micro-degrees per second per least significant bit.
    pub open spec fn spec_sensitivity_udps_lsb(self) -> u32 {
        match self {
            FsG::Dps125 => 4375,
            FsG::Dps245 => 8750,
            FsG::Dps500 => 17500,
            FsG::Dps1000 => 35000,
            FsG::Dps2000 => 70000,
            FsG::Reserved => 0,
        }
    }

    pub fn bits(self) -> (r: u8)
        ensures
            r == self.spec_bits(),
            r < 8,
    {
        match self {
            FsG::Dps125 => 1,
            FsG::Dps245 => 0,
            FsG::Dps500 => 2,
            FsG::Dps1000 => 4,
            FsG::Dps2000 => 6,
            FsG::Reserved => 7,
        }
    }

    pub fn from_bits(b: u8) -> (r: FsG)
        requires
            b < 8,
        ensures
            r == FsG::spec_from_bits(b),
    {
        match b {
            1 => FsG::Dps125,
            0 => FsG::Dps245,
            2 => FsG::Dps500,
            4 => FsG::Dps1000,
            6 => FsG::Dps2000,
            _ => FsG::Reserved,
        }
    }

    /// The datasheet sensitivity of the range, in micro-degrees per second per least
    /// significant bit (4.375 up to 70 mdps/LSB); 0 for `Reserved`.
    pub fn sensitivity_udps_lsb(&self) -> (r: u32)
        ensures
            r == self.spec_sensitivity_udps_lsb(),
    {
        match self {
            FsG::Dps125 => 4375,
            FsG::Dps245 => 8750,
            FsG::Dps500 => 17500,
            FsG::Dps1000 => 35000,
            FsG::Dps2000 => 70000,
            FsG::Reserved => 0,
        }
    }
}

/// Every setting reads back as itself from its own code.
pub proof fn lemma_field_codes_decode_to_their_setting(
    odr_xl: OdrXl,
    fs_xl: FsXl,
    bw0_xl: Bw0Xl,
    odr_g: OdrG,
    fs_g: FsG,
)
    ensures
        OdrXl::spec_from_bits(odr_xl.spec_bits()) == odr_xl,
        FsXl::spec_from_bits(fs_xl.spec_bits()) == fs_xl,
        Bw0Xl::spec_from_bits(bw0_xl.spec_bits()) == bw0_xl,
        OdrG::spec_from_bits(odr_g.spec_bits()) == odr_g,
        FsG::spec_from_bits(fs_g.spec_bits()) == fs_g,
{
}

/// A code reads back as a setting whose own code is that code exactly when the code is
/// assigned (or is the code of `Reserved`).
pub proof fn lemma_assigned_codes_survive_decoding(b: u8)
    ensures
        b < 16 ==> (OdrXl::spec_from_bits(b).spec_bits() == b <==> b <= 12),
        b < 4 ==> FsXl::spec_from_bits(b).spec_bits() == b,
        b < 2 ==> Bw0Xl::spec_from_bits(b).spec_bits() == b,
        b < 16 ==> (OdrG::spec_from_bits(b).spec_bits() == b <==> b <= 11),
        b < 8 ==> (FsG::spec_from_bits(b).spec_bits() == b <==> b != 3 && b != 5),
{
}

/// A wider range has a coarser resolution: the sensitivity grows with the range.
pub proof fn lemma_sensitivity_grows_with_range(a: FsXl, b: FsXl, c: FsG, d: FsG)
    ensures
        a.range_g() < b.range_g() ==> a.spec_sensitivity_ug_lsb() < b.spec_sensitivity_ug_lsb(),
        c != FsG::Reserved && d != FsG::Reserved && c.range_dps() < d.range_dps()
            ==> c.spec_sensitivity_udps_lsb() < d.spec_sensitivity_udps_lsb(),
        a.spec_sensitivity_ug_lsb() * 32768 <= a.range_g() * 1000000 < (
        a.spec_sensitivity_ug_lsb() + 1) * 32768,
{
}


/// `0` or `1` for a flag bit.
pub open spec fn flag_bit(b: bool) -> int {
    if b {
        1
    } else {
        0
    }
}

/// The `CTRL1_XL` register: `BW0_XL` in bit 0, `LPF1_BW_SEL` in bit 1, `FS_XL` in
/// bits 2-3 and `ODR_XL` in bits 4-7.
#[derive(Clone, Copy, PartialEq, Eq, Structural, Debug)]
pub struct Ctrl1Struct {
    pub value: u8,
}

impl Ctrl1Struct {
    /// The register byte holding the given fields.
    pub open spec fn spec_value(bw0_xl: Bw0Xl, lpf1_bw_sel: bool, fs_xl: FsXl, odr_xl: OdrXl) -> u8 {
        (bw0_xl.spec_bits() + 2 * flag_bit(lpf1_bw_sel) + 4 * fs_xl.spec_bits() + 16
            * odr_xl.spec_bits()) as u8
    }

    pub open spec fn spec_bw0_xl(self) -> Bw0Xl {
        Bw0Xl::spec_from_bits(self.value % 2)
    }

    pub open spec fn spec_lpf1_bw_sel(self) -> bool {
        (self.value / 2) % 2 == 1
    }

    pub open spec fn spec_fs_xl(self) -> FsXl {
        FsXl::spec_from_bits((self.value / 4) % 4)
    }

    pub open spec fn spec_odr_xl(self) -> OdrXl {
        OdrXl::spec_from_bits(self.value / 16)
    }

    pub fn new(bw0_xl: Bw0Xl, lpf1_bw_sel: bool, fs_xl: FsXl, odr_xl: OdrXl) -> (r: Self)
        ensures
            r.value == Ctrl1Struct::spec_value(bw0_xl, lpf1_bw_sel, fs_xl, odr_xl),
    {
        let lpf: u8 = if lpf1_bw_sel {
            1
        } else {
            0
        };
        let value: u8 = bw0_xl.bits() + 2 * lpf + 4 * fs_xl.bits() + 16 * odr_xl.bits();
        Ctrl1Struct { value }
    }
}

/// The fields packed into `CTRL1_XL` read back as the settings they were packed from.
pub proof fn lemma_ctrl1_fields_read_back(
    bw0_xl: Bw0Xl,
    lpf1_bw_sel: bool,
    fs_xl: FsXl,
    odr_xl: OdrXl,
)
    ensures
        ({
            let c = Ctrl1Struct { value: Ctrl1Struct::spec_value(bw0_xl, lpf1_bw_sel, fs_xl, odr_xl) };
            &&& c.spec_bw0_xl() == bw0_xl
            &&& c.spec_lpf1_bw_sel() == lpf1_bw_sel
            &&& c.spec_fs_xl() == fs_xl
            &&& c.spec_odr_xl() == odr_xl
        }),
{
}

/// The `CTRL2_G` register: a reserved zero bit 0, `FS_G` (with `FS_125`) in bits 1-3
/// and `ODR_G` in bits 4-7.
#[derive(Clone, Copy, PartialEq, Eq, Structural, Debug)]
pub struct Ctrl2Struct {
    pub value: u8,
}

impl Ctrl2Struct {
    pub open spec fn spec_value(fs_g: FsG, odr_g: OdrG) -> u8 {
        (2 * fs_g.spec_bits() + 16 * odr_g.spec_bits()) as u8
    }

    pub open spec fn spec_fs_g(self) -> FsG {
        FsG::spec_from_bits((self.value / 2) % 8)
    }

    pub open spec fn spec_odr_g(self) -> OdrG {
        OdrG::spec_from_bits(self.value / 16)
    }

    pub fn new(fs_g: FsG, odr_g: OdrG) -> (r: Self)
        ensures
            r.value == Ctrl2Struct::spec_value(fs_g, odr_g),
    {
        let value: u8 = 2 * fs_g.bits() + 16 * odr_g.bits();
        Ctrl2Struct { value }
    }
}

/// The fields packed into `CTRL2_G` read back as the settings they were packed from,
/// and the reserved bit stays zero.
pub proof fn lemma_ctrl2_fields_read_back(fs_g: FsG, odr_g: OdrG)
    ensures
        ({
            let c = Ctrl2Struct { value: Ctrl2Struct::spec_value(fs_g, odr_g) };
            &&& c.spec_fs_g() == fs_g
            &&& c.spec_odr_g() == odr_g
            &&& c.value % 2 == 0
        }),
{
}

/// The `CTRL3_C` register: `SW_RESET`, `BLE`, `IF_INC`, `SIM`, `PP_OD`, `H_LACTIVE`,
/// `BDU` and `BOOT` in bits 0 to 7.
#[derive(Clone, Copy, PartialEq, Eq, Structural, Debug)]
pub struct Ctrl3CStruct {
    pub value: u8,
}

impl Ctrl3CStruct {
    pub open spec fn spec_value(
        sw_reset: bool,
        ble: bool,
        if_inc: bool,
        sim: bool,
        pp_od: bool,
        h_lactive: bool,
        bdu: bool,
        boot: bool,
    ) -> u8 {
        (flag_bit(sw_reset) + 2 * flag_bit(ble) + 4 * flag_bit(if_inc) + 8 * flag_bit(sim) + 16
            * flag_bit(pp_od) + 32 * flag_bit(h_lactive) + 64 * flag_bit(bdu) + 128 * flag_bit(
            boot,
        )) as u8
    }

    pub open spec fn spec_sw_reset(self) -> bool {
        self.value % 2 == 1
    }

    /// The register with its `SW_RESET` bit removed: the other seven flags.
    pub open spec fn spec_other_flags(self) -> u8 {
        self.value / 2
    }

    pub fn new(
        sw_reset: bool,
        ble: bool,
        if_inc: bool,
        sim: bool,
        pp_od: bool,
        h_lactive: bool,
        bdu: bool,
        boot: bool,
    ) -> (r: Self)
        ensures
            r.value == Ctrl3CStruct::spec_value(
                sw_reset,
                ble,
                if_inc,
                sim,
                pp_od,
                h_lactive,
                bdu,
                boot,
            ),
    {
        let mut value: u8 = 0;
        if sw_reset {
            value = value + 1;
        }
        if ble {
            value = value + 2;
        }
        if if_inc {
            value = value + 4;
        }
        if sim {
            value = value + 8;
        }
        if pp_od {
            value = value + 16;
        }
        if h_lactive {
            value = value + 32;
        }
        if bdu {
            value = value + 64;
        }
        if boot {
            value = value + 128;
        }
        Ctrl3CStruct { value }
    }

    /// The power-on configuration: only `IF_INC` (register address auto-increment) set.
    pub fn default() -> (r: Self)
        ensures
            r.value == Ctrl3CStruct::spec_value(false, false, true, false, false, false, false, false),
            r.value == 0x04,
    {
        Ctrl3CStruct::new(false, false, true, false, false, false, false, false)
    }

    /// Sets or clears `SW_RESET`, leaving the other flags as they were.
    pub fn set_sw_reset(&mut self, value: bool)
        ensures
            final(self).spec_sw_reset() == value,
            final(self).spec_other_flags() == old(self).spec_other_flags(),
            final(self).value == 2 * old(self).spec_other_flags() + flag_bit(value),
    {
        let upper: u8 = self.value / 2;
        let low: u8 = if value {
            1
        } else {
            0
        };
        self.value = 2 * upper + low;
    }
}

/// The `STATUS_REG` register: `XLDA`, `GDA` and `TDA` (new accelerometer, gyroscope
/// and temperature data) in bits 0 to 2, the upper five bits reserved.
#[derive(Clone, Copy, PartialEq, Eq, Structural, Debug)]
pub struct StatusRegStruct {
    pub value: u8,
}

impl StatusRegStruct {
    pub open spec fn spec_xlda(self) -> bool {
        self.value % 2 == 1
    }

    pub open spec fn spec_gda(self) -> bool {
        (self.value / 2) % 2 == 1
    }

    pub open spec fn spec_tda(self) -> bool {
        (self.value / 4) % 2 == 1
    }

    pub fn xlda(&self) -> (r: bool)
        ensures
            r == self.spec_xlda(),
    {
        self.value % 2 == 1
    }

    pub fn gda(&self) -> (r: bool)
        ensures
            r == self.spec_gda(),
    {
        (self.value / 2) % 2 == 1
    }

    pub fn tda(&self) -> (r: bool)
        ensures
            r == self.spec_tda(),
    {
        (self.value / 4) % 2 == 1
    }
}

impl From<u8> for StatusRegStruct {
    fn from(value: u8) -> (r: Self) {
        StatusRegStruct { value }
    }
}

impl vstd::std_specs::convert::FromSpecImpl<u8> for StatusRegStruct {
    open spec fn obeys_from_spec() -> bool {
        true
    }

    open spec fn from_spec(v: u8) -> Self {
        StatusRegStruct { value: v }
    }
}


/// The accelerometer rate codes follow the datasheet's doubling scheme: code 0 powers
/// the sensor down; the regular rates take codes 1 to 10, code `k` running at
/// 12.5 Hz times 2^(k-1) (the nominal rates lie up to 5% above that); the low-power
/// 1.6 Hz rate takes the next code, 11.
pub proof fn lemma_odr_xl_code_follows_rate(o: OdrXl)
    ensures
        (o == OdrXl::PowerDown) == (o.spec_bits() == 0),
        (o == OdrXl::Hz1_6) == (o.spec_bits() == 11),
        o.is_sampling() && o != OdrXl::Hz1_6 ==> {
            &&& 1 <= o.spec_bits() <= 10
            &&& 125 * pow2((o.spec_bits() - 1) as nat) <= o.rate_dhz()
            &&& 100 * o.rate_dhz() < 105 * 125 * pow2((o.spec_bits() - 1) as nat)
        },
{
    vstd::arithmetic::power2::lemma2_to64();
    let k: nat = (o.spec_bits() - 1) as nat;
    match o {
        OdrXl::Hz12_5 => assert(k == 0),
        OdrXl::Hz26 => assert(k == 1),
        OdrXl::Hz52 => assert(k == 2),
        OdrXl::Hz104 => assert(k == 3),
        OdrXl::Hz208 => assert(k == 4),
        OdrXl::Hz416 => assert(k == 5),
        OdrXl::Hz833 => assert(k == 6),
        OdrXl::Hz1k66 => assert(k == 7),
        OdrXl::Hz3k33 => assert(k == 8),
        OdrXl::Hz6k66 => assert(k == 9),
        _ => {},
    }
}

/// Of two regular accelerometer rates, the faster one has the larger code.
pub proof fn lemma_odr_xl_codes_ascend_with_rate(a: OdrXl, b: OdrXl)
    requires
        a.is_sampling(),
        a != OdrXl::Hz1_6,
        b.is_sampling(),
        b != OdrXl::Hz1_6,
    ensures
        (a.spec_bits() < b.spec_bits()) == (a.rate_dhz() < b.rate_dhz()),
{
}

/// The gyroscope rate codes follow the datasheet's doubling scheme: code 0 powers the
/// sensor down; the rates take codes 1 to 10, code `k` running at 12.5 Hz times
/// 2^(k-1) (the nominal rates lie up to 5% above that).
pub proof fn lemma_odr_g_code_follows_rate(o: OdrG)
    ensures
        (o == OdrG::PowerDown) == (o.spec_bits() == 0),
        o.is_sampling() ==> {
            &&& 1 <= o.spec_bits() <= 10
            &&& 125 * pow2((o.spec_bits() - 1) as nat) <= o.rate_dhz()
            &&& 100 * o.rate_dhz() < 105 * 125 * pow2((o.spec_bits() - 1) as nat)
        },
{
    vstd::arithmetic::power2::lemma2_to64();
    let k: nat = (o.spec_bits() - 1) as nat;
    match o {
        OdrG::Hz12_5 => assert(k == 0),
        OdrG::Hz26 => assert(k == 1),
        OdrG::Hz52 => assert(k == 2),
        OdrG::Hz104 => assert(k == 3),
        OdrG::Hz208 => assert(k == 4),
        OdrG::Hz416 => assert(k == 5),
        OdrG::Hz833 => assert(k == 6),
        OdrG::Hz1k66 => assert(k == 7),
        OdrG::Hz3k33 => assert(k == 8),
        OdrG::Hz6k66 => assert(k == 9),
        _ => {},
    }
}

/// Of two gyroscope rates, the faster one has the larger code.
pub proof fn lemma_odr_g_codes_ascend_with_rate(a: OdrG, b: OdrG)
    requires
        a.is_sampling(),
        b.is_sampling(),
    ensures
        (a.spec_bits() < b.spec_bits()) == (a.rate_dhz() < b.rate_dhz()),
{
}

/// The accelerometer range codes: code 1 is 16 g; the other codes hold 2, 4 and 8 g in
/// ascending order, code `c` giving 2^c g from code 2 on.
pub proof fn lemma_fs_xl_code_follows_range(a: FsXl, b: FsXl)
    ensures
        (a.spec_bits() == 1) == (a.range_g() == 16),
        a.spec_bits() >= 2 ==> a.range_g() == pow2(a.spec_bits() as nat),
        a.spec_bits() != 1 && b.spec_bits() != 1 ==> (a.spec_bits() < b.spec_bits()) == (
        a.range_g() < b.range_g()),
{
    vstd::arithmetic::power2::lemma2_to64();
}

/// The gyroscope range codes: the lowest bit (`FS_125`) selects 125 dps; otherwise the
/// code is even and the range doubles with each step of the upper two bits, from
/// 245 dps at 0 (nominally 250 dps times 2^(code/2), the lowest one 245).
pub proof fn lemma_fs_g_code_follows_range(f: FsG)
    ensures
        f != FsG::Reserved ==> ((f.spec_bits() % 2 == 1) == (f.range_dps() == 125)),
        f != FsG::Reserved && f != FsG::Dps125 ==> {
            &&& f.spec_bits() % 2 == 0
            &&& 245 * pow2((f.spec_bits() / 2) as nat) <= f.range_dps()
            &&& f.range_dps() <= 250 * pow2((f.spec_bits() / 2) as nat)
        },
{
    vstd::arithmetic::power2::lemma2_to64();
}

/// The gyroscope sensitivity doubles with each doubling of the range: from
/// 8.75 mdps/LSB at 245 dps it is 8750 µdps/LSB times 2^(code/2), and 125 dps has half
/// the sensitivity of 245 dps.
pub proof fn lemma_fs_g_sensitivity_doubles_with_range(f: FsG)
    ensures
        f != FsG::Reserved && f != FsG::Dps125 ==> f.spec_sensitivity_udps_lsb() == 8750 * pow2(
            (f.spec_bits() / 2) as nat,
        ),
        2 * FsG::Dps125.spec_sensitivity_udps_lsb() == FsG::Dps245.spec_sensitivity_udps_lsb(),
{
    vstd::arithmetic::power2::lemma2_to64();
}

impl Bw0Xl {
    /// The anti-aliasing filter bandwidth in hertz.
    pub open spec fn bandwidth_hz(self) -> int {
        match self {
            Bw0Xl::Hz1k5 => 1500,
            Bw0Xl::Hz400 => 400,
        }
    }
}

/// `BW0_XL` set selects the narrower anti-aliasing band.
pub proof fn lemma_bw0_xl_code_follows_bandwidth(b: Bw0Xl)
    ensures
        (b.spec_bits() == 1) == (b.bandwidth_hz() < 1500),
{
}

/// The register map: the three control registers are consecutive, and the output
/// registers form one block of consecutive addresses — temperature low and high, then
/// gyroscope x, y, z and accelerometer x, y, z, each low byte before its high byte.
pub proof fn lemma_register_blocks_are_consecutive()
    ensures
        RegisterAddress::Ctrl2G.spec_addr() == RegisterAddress::Ctrl1Xl.spec_addr() + 1,
        RegisterAddress::Ctrl3C.spec_addr() == RegisterAddress::Ctrl2G.spec_addr() + 1,
        RegisterAddress::OutTempH.spec_addr() == RegisterAddress::OutTempL.spec_addr() + 1,
        RegisterAddress::OutXLG.spec_addr() == RegisterAddress::OutTempH.spec_addr() + 1,
        RegisterAddress::OutXHG.spec_addr() == RegisterAddress::OutXLG.spec_addr() + 1,
        RegisterAddress::OutYLG.spec_addr() == RegisterAddress::OutXHG.spec_addr() + 1,
        RegisterAddress::OutYHG.spec_addr() == RegisterAddress::OutYLG.spec_addr() + 1,
        RegisterAddress::OutZLG.spec_addr() == RegisterAddress::OutYHG.spec_addr() + 1,
        RegisterAddress::OutZHG.spec_addr() == RegisterAddress::OutZLG.spec_addr() + 1,
        RegisterAddress::OutXLXl.spec_addr() == RegisterAddress::OutZHG.spec_addr() + 1,
        RegisterAddress::OutXHXl.spec_addr() == RegisterAddress::OutXLXl.spec_addr() + 1,
        RegisterAddress::OutYLXl.spec_addr() == RegisterAddress::OutXHXl.spec_addr() + 1,
        RegisterAddress::OutYHXl.spec_addr() == RegisterAddress::OutYLXl.spec_addr() + 1,
        RegisterAddress::OutZLXl.spec_addr() == RegisterAddress::OutYHXl.spec_addr() + 1,
        RegisterAddress::OutZHXl.spec_addr() == RegisterAddress::OutZLXl.spec_addr() + 1,
{
}

/// Bit positions in `CTRL1_XL`: bit 0 is `BW0_XL`, bit 1 `LPF1_BW_SEL`, bits 2-3
/// `FS_XL` and bits 4-7 `ODR_XL`.
pub proof fn lemma_ctrl1_bit_positions(bw0_xl: Bw0Xl, lpf1_bw_sel: bool, fs_xl: FsXl, odr_xl: OdrXl)
    ensures
        ({
            let v = Ctrl1Struct::spec_value(bw0_xl, lpf1_bw_sel, fs_xl, odr_xl);
            &&& v >> 4u8 == odr_xl.spec_bits()
            &&& (v >> 2u8) & 3u8 == fs_xl.spec_bits()
            &&& ((v >> 1u8) & 1u8 == 1u8) == lpf1_bw_sel
            &&& v & 1u8 == bw0_xl.spec_bits()
        }),
{
    let a: u8 = bw0_xl.spec_bits();
    let b: u8 = if lpf1_bw_sel {
        1
    } else {
        0
    };
    let c: u8 = fs_xl.spec_bits();
    let d: u8 = odr_xl.spec_bits();
    let v: u8 = Ctrl1Struct::spec_value(bw0_xl, lpf1_bw_sel, fs_xl, odr_xl);
    assert(v == a + 2 * b + 4 * c + 16 * d);
    assert(v >> 4u8 == d && (v >> 2u8) & 3u8 == c && (v >> 1u8) & 1u8 == b && v & 1u8 == a)
        by (bit_vector)
        requires
            a < 2,
            b < 2,
            c < 4,
            d < 16,
            v == a + 2 * b + 4 * c + 16 * d,
    ;
}

/// Bit positions in `CTRL2_G`: bit 0 reserved (zero), bits 1-3 `FS_G` with `FS_125`,
/// bits 4-7 `ODR_G`.
pub proof fn lemma_ctrl2_bit_positions(fs_g: FsG, odr_g: OdrG)
    ensures
        ({
            let v = Ctrl2Struct::spec_value(fs_g, odr_g);
            &&& v >> 4u8 == odr_g.spec_bits()
            &&& (v >> 1u8) & 7u8 == fs_g.spec_bits()
            &&& v & 1u8 == 0
        }),
{
    let c: u8 = fs_g.spec_bits();
    let d: u8 = odr_g.spec_bits();
    let v: u8 = Ctrl2Struct::spec_value(fs_g, odr_g);
    assert(v == 2 * c + 16 * d);
    assert(v >> 4u8 == d && (v >> 1u8) & 7u8 == c && v & 1u8 == 0) by (bit_vector)
        requires
            c < 8,
            d < 16,
            v == 2 * c + 16 * d,
    ;
}

/// Bit positions in `CTRL3_C`: `SW_RESET` is bit 0, `BLE` 1, `IF_INC` 2, `SIM` 3,
/// `PP_OD` 4, `H_LACTIVE` 5, `BDU` 6 and `BOOT` 7.
pub proof fn lemma_ctrl3c_bit_positions(
    sw_reset: bool,
    ble: bool,
    if_inc: bool,
    sim: bool,
    pp_od: bool,
    h_lactive: bool,
    bdu: bool,
    boot: bool,
)
    ensures
        ({
            let v = Ctrl3CStruct::spec_value(sw_reset, ble, if_inc, sim, pp_od, h_lactive, bdu, boot);
            &&& (v & 1u8 == 1u8) == sw_reset
            &&& ((v >> 1u8) & 1u8 == 1u8) == ble
            &&& ((v >> 2u8) & 1u8 == 1u8) == if_inc
            &&& ((v >> 3u8) & 1u8 == 1u8) == sim
            &&& ((v >> 4u8) & 1u8 == 1u8) == pp_od
            &&& ((v >> 5u8) & 1u8 == 1u8) == h_lactive
            &&& ((v >> 6u8) & 1u8 == 1u8) == bdu
            &&& ((v >> 7u8) & 1u8 == 1u8) == boot
        }),
{
    let b0: u8 = flag_bit(sw_reset) as u8;
    let b1: u8 = flag_bit(ble) as u8;
    let b2: u8 = flag_bit(if_inc) as u8;
    let b3: u8 = flag_bit(sim) as u8;
    let b4: u8 = flag_bit(pp_od) as u8;
    let b5: u8 = flag_bit(h_lactive) as u8;
    let b6: u8 = flag_bit(bdu) as u8;
    let b7: u8 = flag_bit(boot) as u8;
    let v: u8 = Ctrl3CStruct::spec_value(sw_reset, ble, if_inc, sim, pp_od, h_lactive, bdu, boot);
    assert(v == b0 + 2 * b1 + 4 * b2 + 8 * b3 + 16 * b4 + 32 * b5 + 64 * b6 + 128 * b7);
    assert({
        &&& v & 1u8 == b0
        &&& (v >> 1u8) & 1u8 == b1
        &&& (v >> 2u8) & 1u8 == b2
        &&& (v >> 3u8) & 1u8 == b3
        &&& (v >> 4u8) & 1u8 == b4
        &&& (v >> 5u8) & 1u8 == b5
        &&& (v >> 6u8) & 1u8 == b6
        &&& (v >> 7u8) & 1u8 == b7
    }) by (bit_vector)
        requires
            b0 < 2,
            b1 < 2,
            b2 < 2,
            b3 < 2,
            b4 < 2,
            b5 < 2,
            b6 < 2,
            b7 < 2,
            v == b0 + 2 * b1 + 4 * b2 + 8 * b3 + 16 * b4 + 32 * b5 + 64 * b6 + 128 * b7,
    ;
}

/// Changing `SW_RESET` touches bit 0 only.
pub proof fn lemma_set_sw_reset_touches_bit_zero(before: u8, flag: bool)
    ensures
        ({
            let after = (2 * (before / 2) + flag_bit(flag)) as u8;
            &&& after & 0xFEu8 == before & 0xFEu8
            &&& (after & 1u8 == 1u8) == flag
        }),
{
    let f: u8 = flag_bit(flag) as u8;
    let after: u8 = (2 * (before / 2) + flag_bit(flag)) as u8;
    assert(after == 2 * (before / 2) + f);
    assert(after & 0xFEu8 == before & 0xFEu8 && after & 1u8 == f) by (bit_vector)
        requires
            f < 2,
            after == 2 * (before / 2) + f,
    ;
}

/// Bit positions in `STATUS_REG`: `XLDA` is bit 0, `GDA` bit 1, `TDA` bit 2.
pub proof fn lemma_status_bit_positions(s: StatusRegStruct)
    ensures
        s.spec_xlda() == (s.value & 1u8 == 1u8),
        s.spec_gda() == ((s.value >> 1u8) & 1u8 == 1u8),
        s.spec_tda() == ((s.value >> 2u8) & 1u8 == 1u8),
{
    let v: u8 = s.value;
    assert((v % 2 == 1) == (v & 1u8 == 1u8) && ((v / 2) % 2 == 1) == ((v >> 1u8) & 1u8 == 1u8)
        && ((v / 4) % 2 == 1) == ((v >> 2u8) & 1u8 == 1u8)) by (bit_vector);
}

} // verus!
