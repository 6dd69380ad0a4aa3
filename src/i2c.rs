//! I2C bus interfaces and range-checked slave addresses.
use vstd::prelude::*;
use vstd::std_specs::convert::{FromSpec, FromSpecImpl, TryFromSpec, TryFromSpecImpl};

mod sealed;

verus! {

/// An address kind that the I2C interfaces accept: 7-bit or 10-bit.
pub trait I2cAddressType: sealed::Sealed {}

/// A raw value does not fit the address width.
#[derive(Debug, Clone, Copy, PartialEq, Eq, Structural)]
pub struct AddressRangeError;

/// The largest 7-bit address.
pub const MAX_ADDRESS_7BIT: u8 = 0x7f;

/// The largest 10-bit address.
pub const MAX_ADDRESS_10BIT: u16 = 0x3ff;

/// A 7-bit I2C address
pub struct I2cAddress7Bit(u8);

impl I2cAddress7Bit {
    #[verifier::type_invariant]
    spec fn in_range(self) -> bool {
        self.0 <= MAX_ADDRESS_7BIT
    }
}

impl View for I2cAddress7Bit {
    type V = u8;

    closed spec fn view(&self) -> u8 {
        self.0
    }
}

impl TryFrom<u8> for I2cAddress7Bit {
    type Error = AddressRangeError;

    fn try_from(address: u8) -> (r: Result<Self, Self::Error>) {
        if address <= MAX_ADDRESS_7BIT {
            let a = I2cAddress7Bit(address);
            proof {
                assert(a@ == address);
                let c = choose|b: I2cAddress7Bit| b@ == address;
                assert(c.0 == a.0);
            }
            Ok(a)
        } else {
            Err(AddressRangeError)
        }
    }
}

impl TryFromSpecImpl<u8> for I2cAddress7Bit {
    open spec fn obeys_try_from_spec() -> bool {
        true
    }

    open spec fn try_from_spec(v: u8) -> Result<Self, AddressRangeError> {
        if v <= MAX_ADDRESS_7BIT {
            Ok(choose|a: I2cAddress7Bit| a@ == v)
        } else {
            Err(AddressRangeError)
        }
    }
}

impl From<I2cAddress7Bit> for u8 {
    fn from(address: I2cAddress7Bit) -> (r: u8) {
        address.0
    }
}

impl FromSpecImpl<I2cAddress7Bit> for u8 {
    open spec fn obeys_from_spec() -> bool {
        true
    }

    open spec fn from_spec(a: I2cAddress7Bit) -> u8 {
        a@
    }
}

impl sealed::Sealed for I2cAddress7Bit {}

impl I2cAddressType for I2cAddress7Bit {}

/// A raw value becomes a 7-bit address exactly when it is at most 127, and
/// that address converts back to the same value.
pub proof fn lemma_address_7bit_round_trip(v: u8)
    ensures
        <I2cAddress7Bit as TryFromSpec<u8>>::try_from_spec(v) is Ok <==> v <= MAX_ADDRESS_7BIT,
        v <= MAX_ADDRESS_7BIT ==> <u8 as FromSpec<I2cAddress7Bit>>::from_spec(
            <I2cAddress7Bit as TryFromSpec<u8>>::try_from_spec(v)->Ok_0,
        ) == v,
{
    if v <= MAX_ADDRESS_7BIT {
        assert(I2cAddress7Bit(v)@ == v);
    }
}

/// A 10-bit I2C address
pub struct I2cAddress10Bit(u16);

impl I2cAddress10Bit {
    #[verifier::type_invariant]
    spec fn in_range(self) -> bool {
        self.0 <= MAX_ADDRESS_10BIT
    }
}

impl View for I2cAddress10Bit {
    type V = u16;

    closed spec fn view(&self) -> u16 {
        self.0
    }
}

impl TryFrom<u16> for I2cAddress10Bit {
    type Error = AddressRangeError;

    fn try_from(address: u16) -> (r: Result<Self, Self::Error>) {
        if address <= MAX_ADDRESS_10BIT {
            let a = I2cAddress10Bit(address);
            proof {
                assert(a@ == address);
                let c = choose|b: I2cAddress10Bit| b@ == address;
                assert(c.0 == a.0);
            }
            Ok(a)
        } else {
            Err(AddressRangeError)
        }
    }
}

impl TryFromSpecImpl<u16> for I2cAddress10Bit {
    open spec fn obeys_try_from_spec() -> bool {
        true
    }

    open spec fn try_from_spec(v: u16) -> Result<Self, AddressRangeError> {
        if v <= MAX_ADDRESS_10BIT {
            Ok(choose|a: I2cAddress10Bit| a@ == v)
        } else {
            Err(AddressRangeError)
        }
    }
}

impl From<I2cAddress10Bit> for u16 {
    fn from(address: I2cAddress10Bit) -> (r: u16) {
        address.0
    }
}

impl FromSpecImpl<I2cAddress10Bit> for u16 {
    open spec fn obeys_from_spec() -> bool {
        true
    }

    open spec fn from_spec(a: I2cAddress10Bit) -> u16 {
        a@
    }
}

impl sealed::Sealed for I2cAddress10Bit {}

impl I2cAddressType for I2cAddress10Bit {}

/// A raw value becomes a 10-bit address exactly when it is at most 1023, and
/// that address converts back to the same value.
pub proof fn lemma_address_10bit_round_trip(v: u16)
    ensures
        <I2cAddress10Bit as TryFromSpec<u16>>::try_from_spec(v) is Ok <==> v <= MAX_ADDRESS_10BIT,
        v <= MAX_ADDRESS_10BIT ==> <u16 as FromSpec<I2cAddress10Bit>>::from_spec(
            <I2cAddress10Bit as TryFromSpec<u16>>::try_from_spec(v)->Ok_0,
        ) == v,
{
    if v <= MAX_ADDRESS_10BIT {
        assert(I2cAddress10Bit(v)@ == v);
    }
}

/// I2C transfer: writes bytes to a slave, then reads bytes back from it.
pub trait AsyncI2cTransfer<A: I2cAddressType> {
    /// Transfer error
    type Error;

    /// Transfer future for polling on completion
    type TransferFuture<'f>: core::future::Future<Output = Result<(), Self::Error>> where Self: 'f;

    /// Sends `tx_data` to the slave at `address`, then fills `rx_data` with the
    /// bytes that it sends back
    fn async_transfer<'a>(&'a mut self, address: A, tx_data: &'a [u8], rx_data: &'a mut [u8]) -> Self::TransferFuture<'a>;
}

/// I2C write
pub trait AsyncI2cWrite<A: I2cAddressType> {
    /// Write error
    type Error;

    /// Write future for polling on completion
    type WriteFuture<'f>: core::future::Future<Output = Result<(), Self::Error>> where Self: 'f;

    /// Sends bytes to the slave, ignoring all the incoming bytes
    fn async_write<'a>(&'a mut self, address: A, data: &'a [u8]) -> Self::WriteFuture<'a>;
}

} // verus!
