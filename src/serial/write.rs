//! The default serial write adapters.
use vstd::prelude::*;
use crate::attempt::{
    Attempt, Event, Step, outcome_of, settle, settled, single_event, stop_events, unit_event,
};
use crate::serial::{CursorView, cursor_next};

verus! {

/// Opt-in to the default write adapters.
///
/// A driver that can attempt to write one byte and attempt to flush
/// implements this trait; [`DefaultWriteByteFuture`], [`DefaultWriteFuture`]
/// and [`DefaultFlushFuture`] then drive writes over it. An implementation
/// promises that each attempt adds its own entry to [`Default::log`] and
/// changes nothing else there.
pub trait Default {
    /// The driver's own error.
    type Error;

    /// Every write and flush attempt made on this driver so far, in order. A
    /// driver verified against this trait overrides it: the default, always
    /// empty, cannot meet the contracts of `try_write` and `try_flush`.
    closed spec fn log(&self) -> Seq<Event> {
        Seq::empty()
    }

    /// Attempts to write one byte.
    fn try_write(&mut self, byte: u8) -> (r: Attempt<(), Self::Error>)
        ensures
            final(self).log() == old(self).log().push(unit_event(r, Event::Sent(byte))),
    ;

    /// Attempts to make sure that no written byte is still buffered.
    fn try_flush(&mut self) -> (r: Attempt<(), Self::Error>)
        ensures
            final(self).log() == old(self).log().push(unit_event(r, Event::Flushed)),
    ;
}

/// The log entries of sending the bytes at positions `from` up to `to` of
/// `data`, in order.
pub open spec fn sent_events(data: Seq<u8>, from: nat, to: nat) -> Seq<Event> {
    Seq::new((to - from) as nat, |k: int| Event::Sent(data[from + k]))
}

/// A resumption of a buffered write whose log gained only one not-ready
/// attempt sent nothing, left the cursor where it was and asks to be
/// resumed.
pub proof fn lemma_write_not_ready_no_progress<E>(log0: Seq<Event>, data: Seq<u8>, from: nat, to: nat, r: Step<(), E>)
    requires
        from <= to,
        log0 + sent_events(data, from, to) + stop_events(r) == log0.push(Event::NotReady),
    ensures
        to == from,
        r is Pending,
{
    let ev = sent_events(data, from, to);
    let all = log0 + ev + stop_events(r);
    assert(all.len() == log0.len() + 1);
    assert(all[log0.len() as int] == Event::NotReady);
    if to > from {
        assert(all[log0.len() as int] == ev[0]);
    } else {
        assert(all[log0.len() as int] == stop_events(r)[0]);
    }
}

/// Records the outcome of a single-shot attempt: the flag is set when the
/// result is reported.
fn settle_once<E>(finished: &mut bool, outcome: Attempt<(), E>) -> (r: Step<(), E>)
    ensures
        r == settled(outcome),
        *final(finished) == (*old(finished) || !(outcome is NotReady)),
{
    let r = settle(outcome);
    if !matches!(r, Step::Pending) {
        *finished = true;
    }
    r
}

/// A single-byte write in progress.
pub struct DefaultWriteByteFuture {
    byte: u8,
    finished: bool,
}

impl DefaultWriteByteFuture {
    /// A write of `byte` that has attempted nothing yet.
    pub fn new(byte: u8) -> (r: Self)
        ensures
            r.byte_spec() == byte,
            !r.is_done(),
    {
        DefaultWriteByteFuture { byte, finished: false }
    }

    /// The byte to write.
    pub closed spec fn byte_spec(&self) -> u8 {
        self.byte
    }

    /// Whether the result has been reported.
    pub closed spec fn is_done(&self) -> bool {
        self.finished
    }

    /// The byte to write.
    pub fn byte(&self) -> (r: u8)
        ensures
            r == self.byte_spec(),
    {
        self.byte
    }

    /// Whether the result has been reported.
    pub fn is_finished(&self) -> (r: bool)
        ensures
            r == self.is_done(),
    {
        self.finished
    }

    /// Records the outcome of one write attempt and reports it.
    pub fn resume<E>(&mut self, outcome: Attempt<(), E>) -> (r: Step<(), E>)
        requires
            !old(self).is_done(),
        ensures
            r == settled(outcome),
            final(self).is_done() == !(outcome is NotReady),
            final(self).byte_spec() == old(self).byte_spec(),
    {
        settle_once(&mut self.finished, outcome)
    }

    /// One resumption: a single attempt to write the byte. A write that has
    /// already reported its result attempts nothing and reports `Spent`.
    pub fn poll<S: Default>(&mut self, serial: &mut S) -> (r: Step<(), S::Error>)
        ensures
            final(self).byte_spec() == old(self).byte_spec(),
            old(self).is_done() ==> r is Spent && final(self).is_done() && *final(serial)
                == *old(serial),
            !old(self).is_done() ==> {
                &&& !(r is Spent)
                &&& final(self).is_done() == (r is Ready)
                &&& final(serial).log() == old(serial).log().push(
                    single_event(r, Event::Sent(old(self).byte_spec())),
                )
            },
    {
        if self.finished {
            return Step::Spent;
        }
        let outcome = serial.try_write(self.byte);
        self.resume(outcome)
    }
}

/// A write of the caller's whole buffer, in progress.
pub struct DefaultWriteFuture {
    offset: usize,
    finished: bool,
}

impl View for DefaultWriteFuture {
    type V = CursorView;

    closed spec fn view(&self) -> CursorView {
        CursorView { offset: self.offset as nat, finished: self.finished }
    }
}

impl DefaultWriteFuture {
    /// A write that has sent nothing yet.
    pub fn new() -> (r: Self)
        ensures
            r@ == (CursorView { offset: 0, finished: false }),
    {
        DefaultWriteFuture { offset: 0, finished: false }
    }

    /// Bytes of the buffer accepted by the driver so far.
    pub fn offset(&self) -> (r: usize)
        ensures
            r == self@.offset,
    {
        self.offset
    }

    /// Whether the result has been reported.
    pub fn is_finished(&self) -> (r: bool)
        ensures
            r == self@.finished,
    {
        self.finished
    }

    /// Records the outcome of one attempt to write the next byte.
    ///
    /// Returns `None` when the write goes on at once, and otherwise what this
    /// resumption reports.
    pub fn resume<E>(&mut self, len: usize, outcome: Attempt<(), E>) -> (r: Option<Step<(), E>>)
        requires
            !old(self)@.finished,
            old(self)@.offset < len,
        ensures
            final(self)@ == cursor_next(old(self)@, outcome_of(outcome)),
            r == match outcome {
                Attempt::Done(_) => None,
                Attempt::Failed(e) => Some(Step::Ready(Err(e))),
                Attempt::NotReady => Some(Step::<(), E>::Pending),
            },
    {
        match outcome {
            Attempt::Done(()) => {
                self.offset = self.offset + 1;
                None
            },
            Attempt::Failed(e) => {
                self.finished = true;
                Some(Step::<(), E>::Ready(Err(e)))
            },
            Attempt::NotReady => Some(Step::Pending),
        }
    }

    /// One resumption: writes byte after byte of `data` until all are
    /// accepted, the driver fails or the driver is not ready.
    ///
    /// Each byte is offered to the driver at the cursor, which advances when
    /// the driver accepts it; the resumption stops only at the end of the
    /// buffer or at the first attempt that did not succeed. A write that has
    /// already reported its result attempts nothing and reports `Spent`.
    pub fn poll<S: Default>(&mut self, serial: &mut S, data: &[u8]) -> (r: Step<(), S::Error>)
        requires
            old(self)@.offset <= data@.len(),
        ensures
            old(self)@.offset <= final(self)@.offset <= data@.len(),
            old(self)@.finished ==> {
                &&& r is Spent
                &&& final(self)@ == old(self)@
                &&& *final(serial) == *old(serial)
            },
            !old(self)@.finished ==> {
                &&& final(serial).log() == old(serial).log() + sent_events(
                    data@,
                    old(self)@.offset,
                    final(self)@.offset,
                ) + stop_events(r)
                &&& match r {
                    Step::Ready(Ok(())) => final(self)@.finished && final(self)@.offset == data@.len(),
                    Step::Ready(Err(_)) => final(self)@.finished && final(self)@.offset < data@.len(),
                    Step::Pending => !final(self)@.finished && final(self)@.offset < data@.len(),
                    Step::Spent => false,
                }
            },
            !old(self)@.finished && old(self)@.offset == data@.len() ==> r == Step::<(), S::Error>::Ready(Ok(()))
                && *final(serial) == *old(serial),
    {
        if self.finished {
            return Step::Spent;
        }
        let ghost s0 = self@;
        let ghost log0 = serial.log();
        if self.offset == data.len() {
            self.finished = true;
            return Step::Ready(Ok(()));
        }
        while self.offset < data.len()
            invariant
                s0 == old(self)@,
                log0 == old(serial).log(),
                !s0.finished,
                !self@.finished,
                s0.offset <= self@.offset <= data@.len(),
                serial.log() == log0 + sent_events(data@, s0.offset, self@.offset as nat),
            decreases data@.len() - self@.offset,
        {
            let ghost o1 = self@.offset;
            let outcome = serial.try_write(data[self.offset]);
            let ghost ev = unit_event(outcome, Event::Sent(data@[o1 as int]));
            let step = self.resume(data.len(), outcome);
            proof {
                if self@.offset == o1 + 1 {
                    assert(sent_events(data@, s0.offset, self@.offset as nat) =~= sent_events(
                        data@,
                        s0.offset,
                        o1,
                    ).push(ev));
                } else {
                    assert(sent_events(data@, s0.offset, self@.offset as nat) =~= sent_events(
                        data@,
                        s0.offset,
                        o1,
                    ));
                }
            }
            match step {
                Some(step) => {
                    assert(serial.log() =~= log0 + sent_events(data@, s0.offset, self@.offset as nat)
                        + stop_events(step));
                    return step;
                },
                None => {},
            }
        }
        assert(serial.log() =~= log0 + sent_events(data@, s0.offset, self@.offset as nat)
            + stop_events(Step::<(), S::Error>::Ready(Ok(()))));
        self.finished = true;
        Step::Ready(Ok(()))
    }
}

/// A flush in progress.
pub struct DefaultFlushFuture {
    finished: bool,
}

impl DefaultFlushFuture {
    /// A flush that has attempted nothing yet.
    pub fn new() -> (r: Self)
        ensures
            !r.is_done(),
    {
        DefaultFlushFuture { finished: false }
    }

    /// Whether the result has been reported.
    pub closed spec fn is_done(&self) -> bool {
        self.finished
    }

    /// Whether the result has been reported.
    pub fn is_finished(&self) -> (r: bool)
        ensures
            r == self.is_done(),
    {
        self.finished
    }

    /// Records the outcome of one flush attempt and reports it.
    pub fn resume<E>(&mut self, outcome: Attempt<(), E>) -> (r: Step<(), E>)
        requires
            !old(self).is_done(),
        ensures
            r == settled(outcome),
            final(self).is_done() == !(outcome is NotReady),
    {
        settle_once(&mut self.finished, outcome)
    }

    /// One resumption: a single flush attempt. A flush that has already
    /// reported its result attempts nothing and reports `Spent`.
    pub fn poll<S: Default>(&mut self, serial: &mut S) -> (r: Step<(), S::Error>)
        ensures
            old(self).is_done() ==> r is Spent && final(self).is_done() && *final(serial)
                == *old(serial),
            !old(self).is_done() ==> {
                &&& !(r is Spent)
                &&& final(self).is_done() == (r is Ready)
                &&& final(serial).log() == old(serial).log().push(single_event(r, Event::Flushed))
            },
    {
        if self.finished {
            return Step::Spent;
        }
        let outcome = serial.try_flush();
        self.resume(outcome)
    }
}

} // verus!
