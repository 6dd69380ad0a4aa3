//! The default full-duplex transfer: a state machine that alternates one
//! send attempt and one receive attempt per byte of the caller's buffer.
use vstd::prelude::*;
use crate::attempt::{Attempt, Event, Outcome, Step, outcome_of, receive_event, stop_events, unit_event};

verus! {

/// Opt-in to the default transfer adapter.
///
/// A driver that can attempt to send one byte and attempt to receive one byte
/// implements this trait; [`DefaultTransferFuture`] then drives a whole
/// in-place transfer over it. An implementation promises that each attempt
/// adds its own entry to [`Default::log`] and changes nothing else there.
pub trait Default {
    /// The driver's own error.
    type Error;

    /// Every send and receive attempt made on this driver so far, in order. A
    /// driver verified against this trait overrides it: the default, always
    /// empty, cannot meet the contracts of `try_send` and `try_receive`.
    closed spec fn log(&self) -> Seq<Event> {
        Seq::empty()
    }

    /// Attempts to send one byte.
    fn try_send(&mut self, byte: u8) -> (r: Attempt<(), Self::Error>)
        ensures
            final(self).log() == old(self).log().push(unit_event(r, Event::Sent(byte))),
    ;

    /// Attempts to receive the byte clocked in by the last accepted send.
    fn try_receive(&mut self) -> (r: Attempt<u8, Self::Error>)
        ensures
            final(self).log() == old(self).log().push(receive_event(r)),
    ;
}

/// The log entries of half-steps `from` up to `to` of a transfer: the even
/// half-step `2 * i` sends byte `i` of the buffer as it was before, and the
/// odd one `2 * i + 1` receives byte `i` of the buffer as it ends up.
pub open spec fn transfer_events(before: Seq<u8>, after: Seq<u8>, from: nat, to: nat) -> Seq<Event> {
    Seq::new(
        (to - from) as nat,
        |k: int|
            if (from + k) % 2 == 0 {
                Event::Sent(before[(from + k) / 2])
            } else {
                Event::Received(after[(from + k) / 2])
            },
    )
}

/// A resumption of a transfer whose log gained only one not-ready attempt
/// made no half-step, so the cursor and the phase are as they were, and
/// asks to be resumed.
pub proof fn lemma_transfer_not_ready_no_progress<E>(
    log0: Seq<Event>,
    before: Seq<u8>,
    after: Seq<u8>,
    s0: TransferView,
    s1: TransferView,
    r: Step<(), E>,
)
    requires
        half_steps(s0) <= half_steps(s1),
        log0 + transfer_events(before, after, half_steps(s0), half_steps(s1)) + stop_events(r)
            == log0.push(Event::NotReady),
    ensures
        s1.offset == s0.offset,
        s1.phase == s0.phase,
        r is Pending,
{
    let ev = transfer_events(before, after, half_steps(s0), half_steps(s1));
    let all = log0 + ev + stop_events(r);
    assert(all.len() == log0.len() + 1);
    assert(all[log0.len() as int] == Event::NotReady);
    if half_steps(s1) > half_steps(s0) {
        assert(all[log0.len() as int] == ev[0]);
    } else {
        assert(all[log0.len() as int] == stop_events(r)[0]);
    }
}

/// Which half of the current byte slot comes next.
#[derive(PartialEq, Eq, Structural, Clone, Copy, Debug)]
pub enum Phase {
    Sending,
    Receiving,
}

/// Abstract state of a transfer: the cursor, the phase and whether the
/// result has been reported.
pub struct TransferView {
    pub offset: nat,
    pub phase: Phase,
    pub finished: bool,
}

/// Half-steps completed: two per byte slot, one for the send and one for the
/// receive.
pub open spec fn half_steps(s: TransferView) -> nat {
    2 * s.offset + if s.phase == Phase::Receiving { 1nat } else { 0nat }
}

/// A state is consistent with a buffer of `len` bytes when the cursor stays
/// within it and a slot is only being received while it exists.
pub open spec fn transfer_wf(s: TransferView, len: nat) -> bool {
    &&& s.offset <= len
    &&& s.phase == Phase::Receiving ==> s.offset < len
}

/// The state after one primitive attempt with the given outcome.
pub open spec fn transfer_next(s: TransferView, o: Outcome) -> TransferView {
    if s.finished {
        s
    } else {
        match o {
            Outcome::Done => match s.phase {
                Phase::Sending => TransferView { phase: Phase::Receiving, ..s },
                Phase::Receiving => TransferView { offset: s.offset + 1, phase: Phase::Sending, ..s },
            },
            Outcome::Failed => TransferView { finished: true, ..s },
            Outcome::NotReady => s,
        }
    }
}

/// The state after a run of attempts with the given outcomes, in order.
pub open spec fn transfer_run(s: TransferView, os: Seq<Outcome>) -> TransferView
    decreases os.len(),
{
    if os.len() == 0 {
        s
    } else {
        transfer_run(transfer_next(s, os[0]), os.drop_first())
    }
}

/// Along any run of attempts the cursor and the count of completed
/// half-steps never decrease.
pub proof fn lemma_transfer_progress_monotonic(s: TransferView, os: Seq<Outcome>)
    ensures
        s.offset <= transfer_run(s, os).offset,
        half_steps(s) <= half_steps(transfer_run(s, os)),
    decreases os.len(),
{
    if os.len() > 0 {
        lemma_transfer_progress_monotonic(transfer_next(s, os[0]), os.drop_first());
    }
}

/// Once the send for slot `i` has been accepted, no later state sends slot
/// `i` again: the transfer never returns to the sending half of that slot.
pub proof fn lemma_transfer_sends_slot_once(s: TransferView, os: Seq<Outcome>, i: nat)
    requires
        (s.offset == i && s.phase == Phase::Receiving) || s.offset > i,
    ensures
        !(transfer_run(s, os).offset == i && transfer_run(s, os).phase == Phase::Sending),
{
    lemma_transfer_progress_monotonic(s, os);
}

/// Attempts that all report not-ready leave the cursor and the phase as they
/// were.
pub proof fn lemma_transfer_not_ready_idempotent(s: TransferView, os: Seq<Outcome>)
    requires
        forall|k: int| 0 <= k < os.len() ==> os[k] == Outcome::NotReady,
    ensures
        transfer_run(s, os) == s,
    decreases os.len(),
{
    if os.len() > 0 {
        lemma_transfer_not_ready_idempotent(s, os.drop_first());
    }
}

/// A failure ends the transfer: whatever is attempted afterwards, the state
/// stays the failed one.
pub proof fn lemma_transfer_failure_is_final(s: TransferView, os: Seq<Outcome>)
    requires
        !s.finished,
    ensures
        transfer_next(s, Outcome::Failed).finished,
        transfer_run(transfer_next(s, Outcome::Failed), os) == transfer_next(s, Outcome::Failed),
    decreases os.len(),
{
    if os.len() > 0 {
        lemma_transfer_failure_is_final(s, os.drop_first());
    }
}

/// An in-place SPI transfer in progress: each byte of the buffer is sent and
/// then overwritten with the byte received in its place.
pub struct DefaultTransferFuture {
    offset: usize,
    phase: Phase,
    finished: bool,
}

impl View for DefaultTransferFuture {
    type V = TransferView;

    closed spec fn view(&self) -> TransferView {
        TransferView { offset: self.offset as nat, phase: self.phase, finished: self.finished }
    }
}

impl DefaultTransferFuture {
    /// A transfer that has not yet touched its buffer.
    pub fn new() -> (r: Self)
        ensures
            r@ == (TransferView { offset: 0, phase: Phase::Sending, finished: false }),
    {
        DefaultTransferFuture { offset: 0, phase: Phase::Sending, finished: false }
    }

    /// Bytes of the buffer fully exchanged so far.
    pub fn offset(&self) -> (r: usize)
        ensures
            r == self@.offset,
    {
        self.offset
    }

    /// The half of the current slot that comes next.
    pub fn phase(&self) -> (r: Phase)
        ensures
            r == self@.phase,
    {
        self.phase
    }

    /// Whether the result has been reported.
    pub fn is_finished(&self) -> (r: bool)
        ensures
            r == self@.finished,
    {
        self.finished
    }

    /// Records the outcome of a send attempt for the current slot.
    ///
    /// Returns `None` when the transfer goes on at once, and otherwise what
    /// this resumption reports.
    pub fn resume_send<E>(&mut self, outcome: Attempt<(), E>) -> (r: Option<Step<(), E>>)
        requires
            !old(self)@.finished,
            old(self)@.phase == Phase::Sending,
        ensures
            final(self)@ == transfer_next(old(self)@, outcome_of(outcome)),
            r == match outcome {
                Attempt::Done(_) => None,
                Attempt::Failed(e) => Some(Step::<(), E>::Ready(Err(e))),
                Attempt::NotReady => Some(Step::Pending),
            },
    {
        match outcome {
            Attempt::Done(()) => {
                self.phase = Phase::Receiving;
                None
            },
            Attempt::Failed(e) => {
                self.finished = true;
                Some(Step::Ready(Err(e)))
            },
            Attempt::NotReady => Some(Step::Pending),
        }
    }

    /// Records the outcome of a receive attempt for the current slot; a
    /// received byte replaces the slot's byte in `data`.
    ///
    /// Returns `None` when the transfer goes on at once, and otherwise what
    /// this resumption reports.
    pub fn resume_receive<E>(&mut self, data: &mut [u8], outcome: Attempt<u8, E>) -> (r: Option<
        Step<(), E>,
    >)
        requires
            !old(self)@.finished,
            old(self)@.phase == Phase::Receiving,
            transfer_wf(old(self)@, old(data)@.len()),
        ensures
            final(self)@ == transfer_next(old(self)@, outcome_of(outcome)),
            final(data)@ == match outcome {
                Attempt::Done(b) => old(data)@.update(old(self)@.offset as int, b),
                _ => old(data)@,
            },
            r == match outcome {
                Attempt::Done(_) => None,
                Attempt::Failed(e) => Some(Step::<(), E>::Ready(Err(e))),
                Attempt::NotReady => Some(Step::<(), E>::Pending),
            },
    {
        match outcome {
            Attempt::Done(b) => {
                data[self.offset] = b;
                self.offset = self.offset + 1;
                self.phase = Phase::Sending;
                None
            },
            Attempt::Failed(e) => {
                self.finished = true;
                Some(Step::Ready(Err(e)))
            },
            Attempt::NotReady => Some(Step::Pending),
        }
    }

    /// One resumption: attempts send and receive, alternating, until the
    /// buffer is exhausted, the driver fails or the driver is not ready.
    ///
    /// Progress is one half-step per successful attempt, and the resumption
    /// stops only at the end of the buffer or at the first attempt that did
    /// not succeed. A transfer that has already reported its result attempts
    /// nothing and reports `Spent`.
    pub fn poll<S: Default>(&mut self, spi: &mut S, data: &mut [u8]) -> (r: Step<(), S::Error>)
        requires
            transfer_wf(old(self)@, old(data)@.len()),
        ensures
            final(data)@.len() == old(data)@.len(),
            transfer_wf(final(self)@, final(data)@.len()),
            half_steps(old(self)@) <= half_steps(final(self)@),
            old(self)@.offset <= final(self)@.offset,
            forall|i: int|
                0 <= i < old(data)@.len() && !(old(self)@.offset <= i < final(self)@.offset)
                    ==> #[trigger] final(data)@[i] == old(data)@[i],
            old(self)@.finished ==> {
                &&& r is Spent
                &&& final(self)@ == old(self)@
                &&& final(data)@ == old(data)@
                &&& *final(spi) == *old(spi)
            },
            !old(self)@.finished ==> {
                &&& final(spi).log() == old(spi).log() + transfer_events(
                    old(data)@,
                    final(data)@,
                    half_steps(old(self)@),
                    half_steps(final(self)@),
                ) + stop_events(r)
                &&& match r {
                    Step::Ready(Ok(())) => final(self)@.finished && final(self)@.offset == old(data)@.len(),
                    Step::Ready(Err(_)) => final(self)@.finished && final(self)@.offset < old(data)@.len(),
                    Step::Pending => !final(self)@.finished && final(self)@.offset < old(data)@.len(),
                    Step::Spent => false,
                }
            },
            !old(self)@.finished && old(self)@.offset == old(data)@.len() ==> r == Step::<(), S::Error>::Ready(Ok(()))
                && *final(spi) == *old(spi),
    {
        if self.finished {
            return Step::Spent;
        }
        let ghost d0 = data@;
        let ghost s0 = self@;
        let ghost log0 = spi.log();
        if self.offset == data.len() {
            self.finished = true;
            return Step::Ready(Ok(()));
        }
        while self.offset < data.len()
            invariant
                d0 == old(data)@,
                s0 == old(self)@,
                log0 == old(spi).log(),
                !s0.finished,
                data@.len() == d0.len(),
                !self@.finished,
                s0.offset <= self@.offset,
                transfer_wf(self@, d0.len()),
                half_steps(s0) <= half_steps(self@),
                forall|i: int|
                    0 <= i < d0.len() && !(s0.offset <= i < self@.offset)
                        ==> #[trigger] data@[i] == d0[i],
                spi.log() == log0 + transfer_events(d0, data@, half_steps(s0), half_steps(self@)),
            decreases 2 * d0.len() - half_steps(self@),
        {
            let ghost h1 = half_steps(self@);
            let ghost d1 = data@;
            let ghost o1 = self@.offset;
            match self.phase {
                Phase::Sending => {
                    let byte = data[self.offset];
                    let outcome = spi.try_send(byte);
                    let ghost ev = unit_event(outcome, Event::Sent(byte));
                    let step = self.resume_send(outcome);
                    proof {
                        if half_steps(self@) == h1 + 1 {
                            assert(h1 == 2 * o1);
                            assert(transfer_events(d0, data@, half_steps(s0), half_steps(self@))
                                =~= transfer_events(d0, d1, half_steps(s0), h1).push(ev));
                        } else {
                            assert(transfer_events(d0, data@, half_steps(s0), half_steps(self@))
                                =~= transfer_events(d0, d1, half_steps(s0), h1));
                        }
                    }
                    match step {
                        Some(step) => {
                            assert(spi.log() =~= log0 + transfer_events(d0, data@, half_steps(s0), half_steps(self@))
                                + stop_events(step));
                            return step;
                        },
                        None => {},
                    }
                },
                Phase::Receiving => {
                    let outcome = spi.try_receive();
                    let ghost ev = receive_event(outcome);
                    let step = self.resume_receive(data, outcome);
                    proof {
                        if half_steps(self@) == h1 + 1 {
                            assert(h1 == 2 * o1 + 1);
                            assert(ev == Event::Received(data@[o1 as int]));
                            assert forall|k: int| 0 <= k < h1 - half_steps(s0) implies
                                #[trigger] transfer_events(d0, data@, half_steps(s0), half_steps(self@))[k]
                                == transfer_events(d0, d1, half_steps(s0), h1)[k] by {
                                let h = half_steps(s0) + k;
                                if h % 2 == 1 {
                                    assert(h / 2 < o1);
                                }
                            }
                            assert(transfer_events(d0, data@, half_steps(s0), half_steps(self@))
                                =~= transfer_events(d0, d1, half_steps(s0), h1).push(ev));
                        } else {
                            assert(transfer_events(d0, data@, half_steps(s0), half_steps(self@))
                                =~= transfer_events(d0, d1, half_steps(s0), h1));
                        }
                    }
                    match step {
                        Some(step) => {
                            assert(spi.log() =~= log0 + transfer_events(d0, data@, half_steps(s0), half_steps(self@))
                                + stop_events(step));
                            return step;
                        },
                        None => {},
                    }
                },
            }
        }
        assert(spi.log() =~= log0 + transfer_events(d0, data@, half_steps(s0), half_steps(self@))
            + stop_events(Step::<(), S::Error>::Ready(Ok(()))));
        self.finished = true;
        Step::Ready(Ok(()))
    }
}

} // verus!
