# lsm6ds3tr

Control logic for the LSM6DS3TR-C accelerometer/gyroscope, verified with Verus.

- `src/registers.rs`: the register map, the rate and range settings with their bit
  codes, the packing of `CTRL1_XL`, `CTRL2_G`, `CTRL3_C` and the decoding of
  `STATUS_REG`, the choice of the slowest sufficient output data rate, and the
  datasheet sensitivities in integer units.
- `src/driver.rs`: the driver state (bus plus last successful configurations), the bus
  transfer each request needs, the decoding of the bytes read, and the rule that a
  reading in physical units needs a configured range.
- `app/lib.rs`: the asynchronous transport trait, its I2C implementation over
  `embedded-hal-async`, the async driver methods that carry out the transfers, and the
  floating-point conversions.
