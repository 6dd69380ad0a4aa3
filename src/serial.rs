//! Serial port interfaces, and the progress model shared by the default
//! read and write adapters.
use vstd::prelude::*;
use crate::attempt::Outcome;

pub mod read;
pub mod write;

verus! {

/// Read half of a serial interface
pub trait AsyncRead {
    /// Read error
    type Error;

    /// Read byte future for polling on completion
    type ReadByteFuture<'f>: core::future::Future<Output = Result<u8, Self::Error>> where Self: 'f;

    /// Read future for polling on completion
    type ReadFuture<'f>: core::future::Future<Output = Result<(), Self::Error>> where Self: 'f;

    /// Reads a single byte from the serial interface
    fn async_read_byte(&mut self) -> Self::ReadByteFuture<'_>;

    /// Fills `data` with bytes read from the serial interface
    fn async_read<'a>(&'a mut self, data: &'a mut [u8]) -> Self::ReadFuture<'a>;
}

/// Write half of a serial interface
pub trait AsyncWrite {
    /// Write error
    type Error;

    /// Write byte future for polling on completion
    type WriteByteFuture<'f>: core::future::Future<Output = Result<(), Self::Error>> where Self: 'f;

    /// Write future for polling on completion
    type WriteFuture<'f>: core::future::Future<Output = Result<(), Self::Error>> where Self: 'f;

    /// Flush future for polling on completion
    type FlushFuture<'f>: core::future::Future<Output = Result<(), Self::Error>> where Self: 'f;

    /// Writes a single byte to the serial interface.
    /// When the future completes, data may not be fully transmitted.
    /// Call `flush` to ensure that no data is left buffered.
    fn async_write_byte(&mut self, byte: u8) -> Self::WriteByteFuture<'_>;

    /// Writes an array of bytes to the serial interface.
    /// When the future completes, data may not be fully transmitted.
    /// Call `flush` to ensure that no data is left buffered.
    fn async_write<'a>(&'a mut self, data: &'a [u8]) -> Self::WriteFuture<'a>;

    /// Ensures that none of the previously written words are still buffered
    fn async_flush(&mut self) -> Self::FlushFuture<'_>;
}

/// Abstract state of a buffered serial operation: how many bytes have been
/// processed, and whether the result has been reported.
pub struct CursorView {
    pub offset: nat,
    pub finished: bool,
}

/// The state after one single-byte attempt with the given outcome.
pub open spec fn cursor_next(s: CursorView, o: Outcome) -> CursorView {
    if s.finished {
        s
    } else {
        match o {
            Outcome::Done => CursorView { offset: s.offset + 1, ..s },
            Outcome::Failed => CursorView { finished: true, ..s },
            Outcome::NotReady => s,
        }
    }
}

/// The state after a run of attempts with the given outcomes, in order.
pub open spec fn cursor_run(s: CursorView, os: Seq<Outcome>) -> CursorView
    decreases os.len(),
{
    if os.len() == 0 {
        s
    } else {
        cursor_run(cursor_next(s, os[0]), os.drop_first())
    }
}

/// Along any run of attempts the cursor never decreases, and it grows by one
/// for each accepted byte at most.
pub proof fn lemma_cursor_monotonic(s: CursorView, os: Seq<Outcome>)
    ensures
        s.offset <= cursor_run(s, os).offset <= s.offset + os.len(),
    decreases os.len(),
{
    if os.len() > 0 {
        lemma_cursor_monotonic(cursor_next(s, os[0]), os.drop_first());
    }
}

/// Attempts that all report not-ready leave the state as it was.
pub proof fn lemma_cursor_not_ready_idempotent(s: CursorView, os: Seq<Outcome>)
    requires
        forall|k: int| 0 <= k < os.len() ==> os[k] == Outcome::NotReady,
    ensures
        cursor_run(s, os) == s,
    decreases os.len(),
{
    if os.len() > 0 {
        lemma_cursor_not_ready_idempotent(s, os.drop_first());
    }
}

/// A failure ends the operation: whatever is attempted afterwards, the state
/// stays the failed one.
pub proof fn lemma_cursor_failure_is_final(s: CursorView, os: Seq<Outcome>)
    requires
        !s.finished,
    ensures
        cursor_next(s, Outcome::Failed).finished,
        cursor_run(cursor_next(s, Outcome::Failed), os) == cursor_next(s, Outcome::Failed),
    decreases os.len(),
{
    if os.len() > 0 {
        lemma_cursor_failure_is_final(s, os.drop_first());
    }
}

} // verus!
