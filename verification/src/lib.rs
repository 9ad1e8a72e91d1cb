//! Register-level model and control logic for the LSM6DS3TR-C inertial measurement unit.
//!
//! `registers` holds the bit layout of the control and status registers and the
//! selectable rates and ranges; `driver` holds the device state, the bus operations
//! each request needs and the decoding of what the device answers.
pub mod registers;
pub mod driver;

pub use registers::{
    Bw0Xl, Ctrl1Struct, Ctrl2Struct, Ctrl3CStruct, FsG, FsXl, OdrG, OdrXl, RegisterAddress,
    StatusRegStruct,
};
pub use driver::{
    config_g_op, config_xl_op, i16_from_le_bytes, is_expected_whoami, new_data_op, read_g_raw_op,
    read_temp_raw_op, read_whoami_op, read_xl_raw_op, reset_op, temp_raw_from_bytes,
    triple_from_bytes, BusOp, I2cTransport, Lsm6ds3tr, NewDataAvailable, NormalizationError,
    LSM6DS3TR_ID, WHO_AM_I_ID,
};
