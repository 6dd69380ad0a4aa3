//! The default serial read adapters.
use vstd::prelude::*;
use crate::attempt::{
    Attempt, Event, Step, outcome_of, receive_event, settle, settled, single_event, stop_events,
};
use crate::serial::{CursorView, cursor_next};

verus! {

/// Opt-in to the default read adapters.
///
/// A driver that can attempt to read one byte implements this trait;
/// [`DefaultReadByteFuture`] and [`DefaultReadFuture`] then drive reads over it.
/// An implementation promises that each attempt adds its own entry to
/// [`Default::log`] and changes nothing else there.
pub trait Default {
    /// The driver's own error.
    type Error;

    /// Every read attempt made on this driver so far, in order. A driver
    /// verified against this trait overrides it: the default, always empty,
    /// cannot meet the contract of `try_read`.
    closed spec fn log(&self) -> Seq<Event> {
        Seq::empty()
    }

    /// Attempts to read one byte.
    fn try_read(&mut self) -> (r: Attempt<u8, Self::Error>)
        ensures
            final(self).log() == old(self).log().push(receive_event(r)),
    ;
}

/// The log entries of the bytes stored at positions `from` up to `to` of
/// `data`, in order.
pub open spec fn received_events(data: Seq<u8>, from: nat, to: nat) -> Seq<Event> {
    Seq::new((to - from) as nat, |k: int| Event::Received(data[from + k]))
}

/// A resumption of a buffered read whose log gained only one not-ready
/// attempt stored nothing, left the cursor where it was and asks to be
/// resumed.
pub proof fn lemma_read_not_ready_no_progress<E>(log0: Seq<Event>, data: Seq<u8>, from: nat, to: nat, r: Step<(), E>)
    requires
        from <= to,
        log0 + received_events(data, from, to) + stop_events(r) == log0.push(Event::NotReady),
    ensures
        to == from,
        r is Pending,
{
    let ev = received_events(data, from, to);
    let all = log0 + ev + stop_events(r);
    assert(all.len() == log0.len() + 1);
    assert(all[log0.len() as int] == Event::NotReady);
    if to > from {
        assert(all[log0.len() as int] == ev[0]);
    } else {
        assert(all[log0.len() as int] == stop_events(r)[0]);
    }
}

/// A single-byte read in progress.
pub struct DefaultReadByteFuture {
    finished: bool,
}

impl DefaultReadByteFuture {
    /// A read that has attempted nothing yet.
    pub fn new() -> (r: Self)
        ensures
            !r.is_done(),
    {
        DefaultReadByteFuture { finished: false }
    }

    /// Whether the result has been reported.
    pub closed spec fn is_done(&self) -> bool {
        self.finished
    }

    /// Whether the result has been reported.
    pub fn is_finished(&self) -> (r: bool)
        ensures
            r == self.is_done(),
    {
        self.finished
    }

    /// Records the outcome of one read attempt and reports it.
    pub fn resume<E>(&mut self, outcome: Attempt<u8, E>) -> (r: Step<u8, E>)
        requires
            !old(self).is_done(),
        ensures
            r == settled(outcome),
            final(self).is_done() == !(outcome is NotReady),
    {
        let r = settle(outcome);
        if !matches!(r, Step::Pending) {
            self.finished = true;
        }
        r
    }

    /// One resumption: a single read attempt. A read that has already
    /// reported its result attempts nothing and reports `Spent`.
    pub fn poll<S: Default>(&mut self, serial: &mut S) -> (r: Step<u8, S::Error>)
        ensures
            old(self).is_done() ==> r is Spent && final(self).is_done() && *final(serial)
                == *old(serial),
            !old(self).is_done() ==> {
                &&& !(r is Spent)
                &&& final(self).is_done() == (r is Ready)
                &&& final(serial).log() == old(serial).log().push(
                    single_event(r, Event::Received(match r {
                        Step::Ready(Ok(b)) => b,
                        _ => 0u8,
                    })),
                )
            },
    {
        if self.finished {
            return Step::Spent;
        }
        let outcome = serial.try_read();
        self.resume(outcome)
    }
}

/// A read that fills the caller's whole buffer, in progress.
pub struct DefaultReadFuture {
    offset: usize,
    finished: bool,
}

impl View for DefaultReadFuture {
    type V = CursorView;

    closed spec fn view(&self) -> CursorView {
        CursorView { offset: self.offset as nat, finished: self.finished }
    }
}

impl DefaultReadFuture {
    /// A read that has not yet touched its buffer.
    pub fn new() -> (r: Self)
        ensures
            r@ == (CursorView { offset: 0, finished: false }),
    {
        DefaultReadFuture { offset: 0, finished: false }
    }

    /// Bytes of the buffer filled so far.
    pub fn offset(&self) -> (r: usize)
        ensures
            r == self@.offset,
    {
        self.offset
    }

    /// Whether the result has been reported.
    pub fn is_finished(&self) -> (r: bool)
        ensures
            r == self@.finished,
    {
        self.finished
    }

    /// Records the outcome of one read attempt for the next unfilled byte; a
    /// read byte is stored there.
    ///
    /// Returns `None` when the read goes on at once, and otherwise what this
    /// resumption reports.
    pub fn resume<E>(&mut self, data: &mut [u8], outcome: Attempt<u8, E>) -> (r: Option<Step<(), E>>)
        requires
            !old(self)@.finished,
            old(self)@.offset < old(data)@.len(),
        ensures
            final(self)@ == cursor_next(old(self)@, outcome_of(outcome)),
            final(data)@ == match outcome {
                Attempt::Done(b) => old(data)@.update(old(self)@.offset as int, b),
                _ => old(data)@,
            },
            r == match outcome {
                Attempt::Done(_) => None,
                Attempt::Failed(e) => Some(Step::Ready(Err(e))),
                Attempt::NotReady => Some(Step::<(), E>::Pending),
            },
    {
        match outcome {
            Attempt::Done(b) => {
                data[self.offset] = b;
                self.offset = self.offset + 1;
                None
            },
            Attempt::Failed(e) => {
                self.finished = true;
                Some(Step::<(), E>::Ready(Err(e)))
            },
            Attempt::NotReady => Some(Step::Pending),
        }
    }

    /// One resumption: reads byte after byte into `data` until it is full,
    /// the driver fails or the driver is not ready.
    ///
    /// Every successful read is stored at the cursor, which then advances;
    /// the resumption stops only at the end of the buffer or at the first
    /// attempt that did not succeed. Bytes read before a failure stay in
    /// `data`. A read that has already reported its result attempts nothing
    /// and reports `Spent`.
    pub fn poll<S: Default>(&mut self, serial: &mut S, data: &mut [u8]) -> (r: Step<(), S::Error>)
        requires
            old(self)@.offset <= old(data)@.len(),
        ensures
            final(data)@.len() == old(data)@.len(),
            old(self)@.offset <= final(self)@.offset <= old(data)@.len(),
            forall|i: int|
                0 <= i < old(data)@.len() && !(old(self)@.offset <= i < final(self)@.offset)
                    ==> #[trigger] final(data)@[i] == old(data)@[i],
            old(self)@.finished ==> {
                &&& r is Spent
                &&& final(self)@ == old(self)@
                &&& final(data)@ == old(data)@
                &&& *final(serial) == *old(serial)
            },
            !old(self)@.finished ==> {
                &&& final(serial).log() == old(serial).log() + received_events(
                    final(data)@,
                    old(self)@.offset,
                    final(self)@.offset,
                ) + stop_events(r)
                &&& match r {
                    Step::Ready(Ok(())) => final(self)@.finished && final(self)@.offset == old(data)@.len(),
                    Step::Ready(Err(_)) => final(self)@.finished && final(self)@.offset < old(data)@.len(),
                    Step::Pending => !final(self)@.finished && final(self)@.offset < old(data)@.len(),
                    Step::Spent => false,
                }
            },
            !old(self)@.finished && old(self)@.offset == old(data)@.len() ==> r == Step::<(), S::Error>::Ready(Ok(()))
                && *final(serial) == *old(serial),
    {
        if self.finished {
            return Step::Spent;
        }
        let ghost d0 = data@;
        let ghost s0 = self@;
        let ghost log0 = serial.log();
        if self.offset == data.len() {
            self.finished = true;
            return Step::Ready(Ok(()));
        }
        while self.offset < data.len()
            invariant
                d0 == old(data)@,
                s0 == old(self)@,
                log0 == old(serial).log(),
                !s0.finished,
                !self@.finished,
                data@.len() == d0.len(),
                s0.offset <= self@.offset <= d0.len(),
                forall|i: int|
                    0 <= i < d0.len() && !(s0.offset <= i < self@.offset)
                        ==> #[trigger] data@[i] == d0[i],
                serial.log() == log0 + received_events(data@, s0.offset, self@.offset as nat),
            decreases d0.len() - self@.offset,
        {
            let ghost d1 = data@;
            let ghost o1 = self@.offset;
            let outcome = serial.try_read();
            let ghost ev = receive_event(outcome);
            let step = self.resume(data, outcome);
            proof {
                if self@.offset == o1 + 1 {
                    assert(ev == Event::Received(data@[o1 as int]));
                    assert(received_events(data@, s0.offset, self@.offset as nat) =~= received_events(
                        d1,
                        s0.offset,
                        o1,
                    ).push(ev));
                } else {
                    assert(received_events(data@, s0.offset, self@.offset as nat) =~= received_events(
                        d1,
                        s0.offset,
                        o1,
                    ));
                }
            }
            match step {
                Some(step) => {
                    assert(serial.log() =~= log0 + received_events(data@, s0.offset, self@.offset as nat)
                        + stop_events(step));
                    return step;
                },
                None => {},
            }
        }
        assert(serial.log() =~= log0 + received_events(data@, s0.offset, self@.offset as nat)
            + stop_events(Step::<(), S::Error>::Ready(Ok(()))));
        self.finished = true;
        Step::Ready(Ok(()))
    }
}

} // verus!
