//! Outcomes of a single-attempt driver primitive, and of one resumption of a
//! suspendable operation.
use vstd::prelude::*;

verus! {

/// What one attempt of a single-unit driver primitive reported.
pub enum Attempt<T, E> {
    /// The unit was processed; carries its value.
    Done(T),
    /// The driver reported an error.
    Failed(E),
    /// The driver could not act now; try again later.
    NotReady,
}

/// What one resumption of an in-flight operation reports to its scheduler.
pub enum Step<T, E> {
    /// The operation is over, with its result.
    Ready(Result<T, E>),
    /// The operation is blocked: resume it again at the next opportunity.
    Pending,
    /// The operation had already reported its result; nothing was attempted.
    Spent,
}

/// The kind of an attempt's outcome, without its payload.
#[derive(PartialEq, Eq, Structural, Clone, Copy)]
pub enum Outcome {
    Done,
    Failed,
    NotReady,
}

pub open spec fn outcome_of<T, E>(a: Attempt<T, E>) -> Outcome {
    match a {
        Attempt::Done(_) => Outcome::Done,
        Attempt::Failed(_) => Outcome::Failed,
        Attempt::NotReady => Outcome::NotReady,
    }
}

/// One attempt made on a driver, as it appears in the driver's log.
#[derive(PartialEq, Eq, Structural, Clone, Copy)]
pub enum Event {
    /// The driver accepted this byte for sending.
    Sent(u8),
    /// The driver handed out this received byte.
    Received(u8),
    /// The driver confirmed that nothing written is still buffered.
    Flushed,
    /// The driver was not ready; nothing happened.
    NotReady,
    /// The driver reported an error.
    Failed,
}

/// The log entry of an attempt to receive one byte.
pub open spec fn receive_event<E>(a: Attempt<u8, E>) -> Event {
    match a {
        Attempt::Done(b) => Event::Received(b),
        Attempt::Failed(_) => Event::Failed,
        Attempt::NotReady => Event::NotReady,
    }
}

/// The log entry of an attempt whose success is the event `done`.
pub open spec fn unit_event<E>(a: Attempt<(), E>, done: Event) -> Event {
    match a {
        Attempt::Done(()) => done,
        Attempt::Failed(_) => Event::Failed,
        Attempt::NotReady => Event::NotReady,
    }
}

/// What a buffered operation's last attempt logged, given how the
/// resumption ended: nothing after the last success when it completed, and
/// the failed or not-ready attempt that stopped it otherwise.
pub open spec fn stop_events<T, E>(r: Step<T, E>) -> Seq<Event> {
    match r {
        Step::Ready(Ok(_)) => Seq::empty(),
        Step::Ready(Err(_)) => seq![Event::Failed],
        Step::Pending => seq![Event::NotReady],
        Step::Spent => Seq::empty(),
    }
}

/// The log entry of a single-shot attempt, given what the resumption
/// reported and the event that its success logs.
pub open spec fn single_event<T, E>(r: Step<T, E>, done: Event) -> Event {
    match r {
        Step::Ready(Ok(_)) => done,
        Step::Ready(Err(_)) => Event::Failed,
        _ => Event::NotReady,
    }
}

/// The resumption result that a single attempt settles: its value or its
/// error when it happened, and a request to be resumed when it did not.
pub open spec fn settled<T, E>(a: Attempt<T, E>) -> Step<T, E> {
    match a {
        Attempt::Done(v) => Step::Ready(Ok(v)),
        Attempt::Failed(e) => Step::Ready(Err(e)),
        Attempt::NotReady => Step::Pending,
    }
}

/// Turns the outcome of a single attempt into the result of a resumption.
pub fn settle<T, E>(a: Attempt<T, E>) -> (r: Step<T, E>)
    ensures
        r == settled(a),
{
    match a {
        Attempt::Done(v) => Step::Ready(Ok(v)),
        Attempt::Failed(e) => Step::Ready(Err(e)),
        Attempt::NotReady => Step::Pending,
    }
}

} // verus!
