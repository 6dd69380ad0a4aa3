//! Interfaces for timed delays, serial ports, SPI and I2C buses whose
//! operations are futures, and the adapters that turn a driver able to
//! attempt one byte at a time into such operations.
pub mod attempt;
pub mod delay;
pub mod i2c;
pub mod prelude;
pub mod serial;
pub mod spi;
