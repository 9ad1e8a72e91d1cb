use vstd::arithmetic::power2::pow2;
use vstd::prelude::*;

use crate::registers::{
    Bw0Xl, Ctrl1Struct, Ctrl2Struct, Ctrl3CStruct, FsG, FsXl, OdrG, OdrXl, RegisterAddress,
    StatusRegStruct,
};

verus! {

/// The device's 7-bit I2C address with SA0 tied low.
pub const LSM6DS3TR_ID: u8 = 0x6A;

/// The content of `WHO_AM_I` on this chip.
pub const WHO_AM_I_ID: u8 = 0x6A;

/// An I2C bus together with the address of the device on it.
pub struct I2cTransport<I2cType> {
    pub i2c: I2cType,
    pub address: u8,
}

/// Which sensors have produced data not yet read, from `STATUS_REG`.
#[derive(Clone, Copy, PartialEq, Eq, Structural, Debug)]
pub struct NewDataAvailable {
    pub temp: bool,
    pub gyro: bool,
    pub accelerometer: bool,
}

/// Why a reading in physical units could not be given.
#[derive(Clone, Copy, PartialEq, Eq, Debug)]
pub enum NormalizationError<TransportError> {
    /// The bus transfer failed.
    Transport(TransportError),
    /// The sensor's full-scale range has not been configured, so the scale is unknown.
    NotConfigured,
}

impl<TransportError> From<TransportError> for NormalizationError<TransportError> {
    fn from(err: TransportError) -> (r: Self) {
        NormalizationError::Transport(err)
    }
}

impl<TransportError> vstd::std_specs::convert::FromSpecImpl<TransportError> for NormalizationError<TransportError> {
    open spec fn obeys_from_spec() -> bool {
        true
    }

    open spec fn from_spec(v: TransportError) -> Self {
        NormalizationError::Transport(v)
    }
}

/// One transfer on the bus: write one byte to a register, or read `len` bytes
/// starting at a register (the device steps through consecutive registers).
#[derive(Clone, Copy, PartialEq, Eq, Structural, Debug)]
pub enum BusOp {
    Write { register: u8, value: u8 },
    Read { register: u8, len: usize },
}

/// Reads `WHO_AM_I`.
pub fn read_whoami_op() -> (r: BusOp)
    ensures
        r == (BusOp::Read { register: RegisterAddress::WhoAmI.spec_addr(), len: 1 }),
        r == (BusOp::Read { register: 0x0F, len: 1 }),
{
    BusOp::Read { register: RegisterAddress::WhoAmI.addr(), len: 1 }
}

/// Whether a `WHO_AM_I` value is the one this chip reports.
pub fn is_expected_whoami(id: u8) -> (r: bool)
    ensures
        r == (id == WHO_AM_I_ID),
{
    id == WHO_AM_I_ID
}

/// The software reset: `CTRL3_C` written with `SW_RESET` and the power-on `IF_INC` set.
pub fn reset_op() -> (r: BusOp)
    ensures
        r == (BusOp::Write {
            register: RegisterAddress::Ctrl3C.spec_addr(),
            value: Ctrl3CStruct::spec_value(true, false, true, false, false, false, false, false),
        }),
        r == (BusOp::Write { register: 0x12, value: 0x05 }),
{
    let mut ctrl3 = Ctrl3CStruct::default();
    ctrl3.set_sw_reset(true);
    BusOp::Write { register: RegisterAddress::Ctrl3C.addr(), value: ctrl3.value }
}

/// The accelerometer configuration: `CTRL1_XL` with the given rate and range, the
/// 1.5 kHz anti-aliasing bandwidth and `LPF1_BW_SEL` clear.
pub fn config_xl_op(odr: OdrXl, fs: FsXl) -> (r: BusOp)
    ensures
        r == (BusOp::Write {
            register: RegisterAddress::Ctrl1Xl.spec_addr(),
            value: Ctrl1Struct::spec_value(Bw0Xl::Hz1k5, false, fs, odr),
        }),
        r matches BusOp::Write { register, value } && register == 0x10 && value >> 4u8
            == odr.spec_bits() && (value >> 2u8) & 3u8 == fs.spec_bits() && value & 3u8 == 0,
{
    proof {
        crate::registers::lemma_ctrl1_bit_positions(Bw0Xl::Hz1k5, false, fs, odr);
        let v: u8 = Ctrl1Struct::spec_value(Bw0Xl::Hz1k5, false, fs, odr);
        assert(v & 3u8 == 0) by (bit_vector)
            requires
                v & 1u8 == 0,
                (v >> 1u8) & 1u8 != 1u8,
        ;
    }
    let ctrl1 = Ctrl1Struct::new(Bw0Xl::Hz1k5, false, fs, odr);
    BusOp::Write { register: RegisterAddress::Ctrl1Xl.addr(), value: ctrl1.value }
}

/// The gyroscope configuration: `CTRL2_G` with the given rate and range.
pub fn config_g_op(odr: OdrG, fs: FsG) -> (r: BusOp)
    ensures
        r == (BusOp::Write {
            register: RegisterAddress::Ctrl2G.spec_addr(),
            value: Ctrl2Struct::spec_value(fs, odr),
        }),
        r matches BusOp::Write { register, value } && register == 0x11 && value >> 4u8
            == odr.spec_bits() && (value >> 1u8) & 7u8 == fs.spec_bits() && value & 1u8 == 0,
{
    proof {
        crate::registers::lemma_ctrl2_bit_positions(fs, odr);
    }
    let ctrl2 = Ctrl2Struct::new(fs, odr);
    BusOp::Write { register: RegisterAddress::Ctrl2G.addr(), value: ctrl2.value }
}

/// The configuration writes program exactly what was asked for: the byte written to
/// `CTRL1_XL` reads back as the requested rate and range, the 1.5 kHz bandwidth and
/// `LPF1_BW_SEL` clear; the byte written to `CTRL2_G` reads back as the requested rate
/// and range with its reserved bit clear.
pub proof fn lemma_configuration_writes_read_back(odr_xl: OdrXl, fs_xl: FsXl, odr_g: OdrG, fs_g: FsG)
    ensures
        ({
            let c = Ctrl1Struct { value: Ctrl1Struct::spec_value(Bw0Xl::Hz1k5, false, fs_xl, odr_xl) };
            &&& c.spec_odr_xl() == odr_xl
            &&& c.spec_fs_xl() == fs_xl
            &&& c.spec_bw0_xl() == Bw0Xl::Hz1k5
            &&& !c.spec_lpf1_bw_sel()
        }),
        ({
            let c = Ctrl2Struct { value: Ctrl2Struct::spec_value(fs_g, odr_g) };
            &&& c.spec_odr_g() == odr_g
            &&& c.spec_fs_g() == fs_g
            &&& c.value % 2 == 0
        }),
{
    crate::registers::lemma_ctrl1_fields_read_back(Bw0Xl::Hz1k5, false, fs_xl, odr_xl);
    crate::registers::lemma_ctrl2_fields_read_back(fs_g, odr_g);
}

/// The rate code the configuration writes put in the upper four bits is the datasheet
/// code of the requested rate: for a regular rate, code `k` in 1..=10 with the rate
/// between 12.5 Hz times 2^(k-1) and 5% above it; 0 for power-down; 11 for the
/// accelerometer's 1.6 Hz low-power rate.
pub proof fn lemma_configuration_writes_datasheet_rate_codes(
    odr_xl: OdrXl,
    fs_xl: FsXl,
    odr_g: OdrG,
    fs_g: FsG,
)
    ensures
        ({
            let k = Ctrl1Struct::spec_value(Bw0Xl::Hz1k5, false, fs_xl, odr_xl) >> 4u8;
            &&& (odr_xl == OdrXl::PowerDown) == (k == 0)
            &&& (odr_xl == OdrXl::Hz1_6) == (k == 11)
            &&& odr_xl.is_sampling() && odr_xl != OdrXl::Hz1_6 ==> {
                &&& 1 <= k <= 10
                &&& 125 * pow2((k - 1) as nat) <= odr_xl.rate_dhz()
                &&& 100 * odr_xl.rate_dhz() < 105 * 125 * pow2((k - 1) as nat)
            }
        }),
        ({
            let k = Ctrl2Struct::spec_value(fs_g, odr_g) >> 4u8;
            &&& (odr_g == OdrG::PowerDown) == (k == 0)
            &&& odr_g.is_sampling() ==> {
                &&& 1 <= k <= 10
                &&& 125 * pow2((k - 1) as nat) <= odr_g.rate_dhz()
                &&& 100 * odr_g.rate_dhz() < 105 * 125 * pow2((k - 1) as nat)
            }
        }),
{
    crate::registers::lemma_ctrl1_bit_positions(Bw0Xl::Hz1k5, false, fs_xl, odr_xl);
    crate::registers::lemma_ctrl2_bit_positions(fs_g, odr_g);
    crate::registers::lemma_odr_xl_code_follows_rate(odr_xl);
    crate::registers::lemma_odr_g_code_follows_rate(odr_g);
}

/// Reads `STATUS_REG`.
pub fn new_data_op() -> (r: BusOp)
    ensures
        r == (BusOp::Read { register: RegisterAddress::StatusReg.spec_addr(), len: 1 }),
        r == (BusOp::Read { register: 0x1E, len: 1 }),
{
    BusOp::Read { register: RegisterAddress::StatusReg.addr(), len: 1 }
}

/// Reads the two temperature bytes, `OUT_TEMP_L` then `OUT_TEMP_H`.
pub fn read_temp_raw_op() -> (r: BusOp)
    ensures
        r == (BusOp::Read { register: RegisterAddress::OutTempL.spec_addr(), len: 2 }),
        r == (BusOp::Read { register: 0x20, len: 2 }),
{
    BusOp::Read { register: RegisterAddress::OutTempL.addr(), len: 2 }
}

/// Reads the six accelerometer bytes, x, y and z, low byte first.
pub fn read_xl_raw_op() -> (r: BusOp)
    ensures
        r == (BusOp::Read { register: RegisterAddress::OutXLXl.spec_addr(), len: 6 }),
        r == (BusOp::Read { register: 0x28, len: 6 }),
{
    BusOp::Read { register: RegisterAddress::OutXLXl.addr(), len: 6 }
}

/// Reads the six gyroscope bytes, pitch, roll and yaw rate, low byte first.
pub fn read_g_raw_op() -> (r: BusOp)
    ensures
        r == (BusOp::Read { register: RegisterAddress::OutXLG.spec_addr(), len: 6 }),
        r == (BusOp::Read { register: 0x22, len: 6 }),
{
    BusOp::Read { register: RegisterAddress::OutXLG.addr(), len: 6 }
}

impl NewDataAvailable {
    /// The flags of a `STATUS_REG` byte.
    pub fn from_status(status: u8) -> (r: NewDataAvailable)
        ensures
            r.accelerometer == (StatusRegStruct { value: status }).spec_xlda(),
            r.gyro == (StatusRegStruct { value: status }).spec_gda(),
            r.temp == (StatusRegStruct { value: status }).spec_tda(),
            r.accelerometer == (status % 2 == 1),
            r.gyro == ((status / 2) % 2 == 1),
            r.temp == ((status / 4) % 2 == 1),
    {
        let status_reg = StatusRegStruct::from(status);
        NewDataAvailable {
            temp: status_reg.tda(),
            gyro: status_reg.gda(),
            accelerometer: status_reg.xlda(),
        }
    }
}

/// The signed 16-bit value of two bytes, low byte first (two's complement).
pub open spec fn spec_i16_from_le(lo: u8, hi: u8) -> int {
    let u = lo + 256 * hi;
    if u >= 32768 {
        u - 65536
    } else {
        u
    }
}

/// The low byte of a signed 16-bit value.
pub open spec fn spec_le_low(v: i16) -> u8 {
    ((v + 65536) % 65536 % 256) as u8
}

/// The high byte of a signed 16-bit value.
pub open spec fn spec_le_high(v: i16) -> u8 {
    ((v + 65536) % 65536 / 256) as u8
}

/// The value of two bytes, low byte first, as a signed 16-bit integer.
pub fn i16_from_le_bytes(lo: u8, hi: u8) -> (r: i16)
    ensures
        r == spec_i16_from_le(lo, hi),
{
    let u: u32 = lo as u32 + 256 * (hi as u32);
    if u >= 32768 {
        let s: i32 = u as i32 - 65536;
        s as i16
    } else {
        u as i16
    }
}

/// Little-endian decoding is a one-to-one correspondence between byte pairs and
/// signed 16-bit values: every value has exactly one pair that decodes to it.
pub proof fn lemma_i16_le_round_trip(v: i16, lo: u8, hi: u8)
    ensures
        spec_i16_from_le(spec_le_low(v), spec_le_high(v)) == v,
        spec_le_low(spec_i16_from_le(lo, hi) as i16) == lo,
        spec_le_high(spec_i16_from_le(lo, hi) as i16) == hi,
{
}

/// The raw temperature of the bytes read from `OUT_TEMP_L`.
pub fn temp_raw_from_bytes(buffer: [u8; 2]) -> (r: i16)
    ensures
        r == spec_i16_from_le(buffer[0], buffer[1]),
{
    i16_from_le_bytes(buffer[0], buffer[1])
}

/// The three axes of the six bytes read from an output block.
pub fn triple_from_bytes(buffer: [u8; 6]) -> (r: (i16, i16, i16))
    ensures
        r.0 == spec_i16_from_le(buffer[0], buffer[1]),
        r.1 == spec_i16_from_le(buffer[2], buffer[3]),
        r.2 == spec_i16_from_le(buffer[4], buffer[5]),
{
    let x = i16_from_le_bytes(buffer[0], buffer[1]);
    let y = i16_from_le_bytes(buffer[2], buffer[3]);
    let z = i16_from_le_bytes(buffer[4], buffer[5]);
    (x, y, z)
}


/// What a configuration slot holds after a configuration write: the requested setting
/// when the write went through, the previous content when it failed.
pub open spec fn configured_after<C, E>(before: Option<C>, requested: C, written: Result<(), E>) -> Option<C> {
    match written {
        Ok(()) => Some(requested),
        Err(_) => before,
    }
}

/// The scale a normalized reading uses: the configured range, or `NotConfigured`.
pub open spec fn scale_of<O, F, E>(config: Option<(O, F)>) -> Result<F, NormalizationError<E>> {
    match config {
        Some((_, fs)) => Ok(fs),
        None => Err(NormalizationError::NotConfigured),
    }
}

/// The LSM6DS3TR-C driver state: the bus it talks over and the accelerometer and
/// gyroscope settings last written successfully.
pub struct Lsm6ds3tr<TransportType> {
    transport: TransportType,
    xl_config: Option<(OdrXl, FsXl)>,
    g_config: Option<(OdrG, FsG)>,
}

impl<I2cType> Lsm6ds3tr<I2cTransport<I2cType>> {
    /// A device on `i2c` at the address it has with SA0 low, with nothing configured.
    pub fn new(i2c: I2cType) -> (r: Self)
        ensures
            r.spec_transport() == (I2cTransport { i2c, address: LSM6DS3TR_ID }),
            r.spec_transport().address == 0x6A,
            r.spec_xl_config() == None::<(OdrXl, FsXl)>,
            r.spec_g_config() == None::<(OdrG, FsG)>,
    {
        Lsm6ds3tr {
            transport: I2cTransport { i2c, address: LSM6DS3TR_ID },
            xl_config: None,
            g_config: None,
        }
    }
}

impl<TransportType> Lsm6ds3tr<TransportType> {
    pub closed spec fn spec_transport(&self) -> TransportType {
        self.transport
    }

    /// The accelerometer rate and range last written successfully.
    pub closed spec fn spec_xl_config(&self) -> Option<(OdrXl, FsXl)> {
        self.xl_config
    }

    /// The gyroscope rate and range last written successfully.
    pub closed spec fn spec_g_config(&self) -> Option<(OdrG, FsG)> {
        self.g_config
    }

    /// The bus, for carrying out a transfer; the settings stay as they are.
    pub fn transport(&mut self) -> (t: &mut TransportType)
        ensures
            *t == old(self).spec_transport(),
            final(self).spec_transport() == *final(t),
            final(self).spec_xl_config() == old(self).spec_xl_config(),
            final(self).spec_g_config() == old(self).spec_g_config(),
    {
        &mut self.transport
    }

    /// The accelerometer rate and range last written successfully.
    pub fn xl_config(&self) -> (r: Option<(OdrXl, FsXl)>)
        ensures
            r == self.spec_xl_config(),
    {
        self.xl_config
    }

    /// The gyroscope rate and range last written successfully.
    pub fn g_config(&self) -> (r: Option<(OdrG, FsG)>)
        ensures
            r == self.spec_g_config(),
    {
        self.g_config
    }

    /// Records the outcome of the `CTRL1_XL` write of `config_xl_op(odr, fs)`: the
    /// setting is kept only when the write went through; the outcome is handed back.
    pub fn finish_config_xl<E>(&mut self, odr: OdrXl, fs: FsXl, written: Result<(), E>) -> (r: Result<(), E>)
        ensures
            r == written,
            final(self).spec_xl_config() == configured_after(old(self).spec_xl_config(), (odr, fs), written),
            final(self).spec_g_config() == old(self).spec_g_config(),
            final(self).spec_transport() == old(self).spec_transport(),
    {
        if written.is_ok() {
            self.xl_config = Some((odr, fs));
        }
        written
    }

    /// Records the outcome of the `CTRL2_G` write of `config_g_op(odr, fs)`: the
    /// setting is kept only when the write went through; the outcome is handed back.
    pub fn finish_config_g<E>(&mut self, odr: OdrG, fs: FsG, written: Result<(), E>) -> (r: Result<(), E>)
        ensures
            r == written,
            final(self).spec_g_config() == configured_after(old(self).spec_g_config(), (odr, fs), written),
            final(self).spec_xl_config() == old(self).spec_xl_config(),
            final(self).spec_transport() == old(self).spec_transport(),
    {
        if written.is_ok() {
            self.g_config = Some((odr, fs));
        }
        written
    }

    /// The range by which accelerometer readings are scaled, or `NotConfigured`
    /// when no accelerometer configuration has been written.
    pub fn xl_scale<E>(&self) -> (r: Result<FsXl, NormalizationError<E>>)
        ensures
            r == scale_of::<OdrXl, FsXl, E>(self.spec_xl_config()),
    {
        match self.xl_config {
            Some((_, fs)) => Ok(fs),
            None => Err(NormalizationError::NotConfigured),
        }
    }

    /// The range by which gyroscope readings are scaled, or `NotConfigured`
    /// when no gyroscope configuration has been written.
    pub fn g_scale<E>(&self) -> (r: Result<FsG, NormalizationError<E>>)
        ensures
            r == scale_of::<OdrG, FsG, E>(self.spec_g_config()),
    {
        match self.g_config {
            Some((_, fs)) => Ok(fs),
            None => Err(NormalizationError::NotConfigured),
        }
    }
}

/// A normalized reading is refused as `NotConfigured` until a configuration write
/// has gone through; after one, it uses the range just written; a failed write leaves
/// the scale as it was.
pub proof fn lemma_scale_follows_successful_configuration<O, F, E>(
    before: Option<(O, F)>,
    odr: O,
    fs: F,
    written: Result<(), E>,
)
    ensures
        scale_of::<O, F, E>(None) == Err::<F, NormalizationError<E>>(NormalizationError::NotConfigured),
        written is Ok ==> scale_of::<O, F, E>(configured_after(before, (odr, fs), written)) == Ok::<F, NormalizationError<E>>(fs),
        written is Err ==> scale_of::<O, F, E>(configured_after(before, (odr, fs), written)) == scale_of::<O, F, E>(before),
{
}

} // verus!
