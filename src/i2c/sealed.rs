use vstd::prelude::*;

verus! {

/// Closes [`crate::i2c::I2cAddressType`] to the address types of this crate.
pub trait Sealed {}

} // verus!
