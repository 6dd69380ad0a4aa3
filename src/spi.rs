//! SPI bus interfaces.
use vstd::prelude::*;

pub mod transfer;

verus! {

/// SPI transfer
pub trait AsyncTransfer {
    /// Transfer error
    type Error;

    /// Transfer future for polling on completion
    type TransferFuture<'t>: core::future::Future<Output = Result<(), Self::Error>> where Self: 't;

    /// Sends each byte of `data` to the slave and overwrites it with the byte
    /// received in its place.
    fn async_transfer<'a>(&'a mut self, data: &'a mut [u8]) -> Self::TransferFuture<'a>;
}

/// SPI write
pub trait AsyncWrite {
    /// Write error
    type Error;

    /// Write future for polling on completion
    type WriteFuture<'t>: core::future::Future<Output = Result<(), Self::Error>> where Self: 't;

    /// Sends bytes to the slave, ignoring all the incoming bytes
    fn async_write<'a>(&'a mut self, data: &'a [u8]) -> Self::WriteFuture<'a>;
}

/// SPI write (iterator version)
pub trait AsyncWriteIter<I: Iterator<Item = u8>> {
    /// Write error
    type Error;

    /// Write future for polling on completion
    type WriteIterFuture<'t>: core::future::Future<Output = Result<(), Self::Error>> where
        Self: 't,
        I: 't,
    ;

    /// Sends the bytes that `data` yields to the slave, ignoring all the
    /// incoming bytes. The iterator's type is a parameter of the trait, so that
    /// the future can hold the iterator without a trait object.
    fn async_write_iter<'a>(&'a mut self, data: &'a mut I) -> Self::WriteIterFuture<'a>;
}

} // verus!
