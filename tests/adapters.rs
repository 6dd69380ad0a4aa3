use async_embedded_traits::attempt::{settle, Attempt, Step};
use async_embedded_traits::serial::read::{self, DefaultReadByteFuture, DefaultReadFuture};
use async_embedded_traits::serial::write::{
    DefaultFlushFuture, DefaultWriteByteFuture, DefaultWriteFuture,
};
use async_embedded_traits::spi::transfer::{self, DefaultTransferFuture, Phase};

#[derive(Debug, PartialEq)]
struct Fault(u8);

/// A scripted driver: each attempt takes the next outcome kind from `script`
/// (true = ready, false = not ready); `fail_at` makes that attempt fail.
struct Scripted {
    script: Vec<bool>,
    attempts: usize,
    fail_at: Option<usize>,
    incoming: Vec<u8>,
    received_from: usize,
    sent: Vec<u8>,
    flushed: usize,
}

impl Scripted {
    fn new(script: Vec<bool>, incoming: Vec<u8>) -> Self {
        Scripted { script, attempts: 0, fail_at: None, incoming, received_from: 0, sent: vec![], flushed: 0 }
    }

    fn always_ready(incoming: Vec<u8>) -> Self {
        Scripted::new(vec![true; 64], incoming)
    }

    fn next<T>(&mut self, value: impl FnOnce(&mut Self) -> T) -> Attempt<T, Fault> {
        let k = self.attempts;
        self.attempts += 1;
        if self.fail_at == Some(k) {
            return Attempt::Failed(Fault(k as u8));
        }
        if self.script[k] {
            Attempt::Done(value(self))
        } else {
            Attempt::NotReady
        }
    }
}

impl read::Default for Scripted {
    type Error = Fault;

    fn try_read(&mut self) -> Attempt<u8, Fault> {
        self.next(|s| {
            let b = s.incoming[s.received_from];
            s.received_from += 1;
            b
        })
    }
}

impl async_embedded_traits::serial::write::Default for Scripted {
    type Error = Fault;

    fn try_write(&mut self, byte: u8) -> Attempt<(), Fault> {
        self.next(|s| s.sent.push(byte))
    }

    fn try_flush(&mut self) -> Attempt<(), Fault> {
        self.next(|s| s.flushed += 1)
    }
}

impl transfer::Default for Scripted {
    type Error = Fault;

    fn try_send(&mut self, byte: u8) -> Attempt<(), Fault> {
        self.next(|s| s.sent.push(byte))
    }

    fn try_receive(&mut self) -> Attempt<u8, Fault> {
        self.next(|s| {
            let b = s.incoming[s.received_from];
            s.received_from += 1;
            b
        })
    }
}

fn alternating(n: usize) -> Vec<bool> {
    (0..n).map(|k| k % 2 == 1).collect()
}

#[test]
fn spi_transfer_not_ready_once_per_attempt() {
    let mut spi = Scripted::new(alternating(12), vec![0xa1, 0xb2, 0xc3]);
    let mut data = [1u8, 2, 3];
    let mut fut = DefaultTransferFuture::new();
    let mut pending = 0;
    let result = loop {
        match fut.poll(&mut spi, &mut data) {
            Step::Pending => pending += 1,
            Step::Ready(r) => break r,
            Step::Spent => panic!("spent"),
        }
    };
    assert_eq!(result, Ok(()));
    assert_eq!(pending, 6);
    assert_eq!(data, [0xa1, 0xb2, 0xc3]);
    assert_eq!(spi.sent, vec![1, 2, 3]);
    assert_eq!(spi.attempts, 12);
}

#[test]
fn spi_transfer_ready_driver_completes_in_one_poll() {
    let mut spi = Scripted::always_ready(vec![9, 8, 7, 6]);
    let mut data = [1u8, 2, 3, 4];
    let mut fut = DefaultTransferFuture::new();
    assert!(matches!(fut.poll(&mut spi, &mut data), Step::Ready(Ok(()))));
    assert_eq!(data, [9, 8, 7, 6]);
    assert_eq!(spi.sent, vec![1, 2, 3, 4]);
    assert!(fut.is_finished());
    assert_eq!(fut.offset(), 4);
}

#[test]
fn spi_transfer_empty_buffer_attempts_nothing() {
    let mut spi = Scripted::always_ready(vec![]);
    let mut data: [u8; 0] = [];
    let mut fut = DefaultTransferFuture::new();
    assert!(matches!(fut.poll(&mut spi, &mut data), Step::Ready(Ok(()))));
    assert_eq!(spi.attempts, 0);
}

#[test]
fn spi_transfer_not_ready_keeps_phase() {
    // The send of the first byte is accepted, then the receive is not ready.
    let mut spi = Scripted::new(vec![true, false, false, true, true, true], vec![5, 6]);
    let mut data = [1u8, 2];
    let mut fut = DefaultTransferFuture::new();
    assert!(matches!(fut.poll(&mut spi, &mut data), Step::Pending));
    assert_eq!((fut.offset(), fut.phase()), (0, Phase::Receiving));
    assert!(matches!(fut.poll(&mut spi, &mut data), Step::Pending));
    assert_eq!((fut.offset(), fut.phase()), (0, Phase::Receiving));
    assert!(matches!(fut.poll(&mut spi, &mut data), Step::Ready(Ok(()))));
    assert_eq!(spi.sent, vec![1, 2]);
    assert_eq!(data, [5, 6]);
}

#[test]
fn spi_transfer_failure_is_final() {
    let mut spi = Scripted::always_ready(vec![5, 6, 7]);
    spi.fail_at = Some(3);
    let mut data = [1u8, 2, 3];
    let mut fut = DefaultTransferFuture::new();
    match fut.poll(&mut spi, &mut data) {
        Step::Ready(Err(e)) => assert_eq!(e, Fault(3)),
        _ => panic!("expected the driver's error"),
    }
    // The first slot was exchanged before the failing receive of the second.
    assert_eq!(data, [5, 2, 3]);
    assert_eq!(spi.attempts, 4);
    assert!(matches!(fut.poll(&mut spi, &mut data), Step::Spent));
    assert_eq!(spi.attempts, 4);
}

#[test]
fn spi_resume_steps() {
    let mut fut = DefaultTransferFuture::new();
    let mut data = [4u8];
    assert!(matches!(fut.resume_send::<Fault>(Attempt::NotReady), Some(Step::Pending)));
    assert_eq!(fut.phase(), Phase::Sending);
    assert!(fut.resume_send::<Fault>(Attempt::Done(())).is_none());
    assert_eq!(fut.phase(), Phase::Receiving);
    assert!(fut.resume_receive::<Fault>(&mut data, Attempt::Done(40)).is_none());
    assert_eq!((fut.offset(), fut.phase()), (1, Phase::Sending));
    assert_eq!(data, [40]);
}

#[test]
fn serial_read_fills_buffer() {
    let mut serial = Scripted::new(vec![true, false, true, true, false, true], vec![10, 20, 30, 40]);
    let mut data = [0u8; 4];
    let mut fut = DefaultReadFuture::new();
    assert!(matches!(fut.poll(&mut serial, &mut data), Step::Pending));
    assert_eq!(fut.offset(), 1);
    assert!(matches!(fut.poll(&mut serial, &mut data), Step::Pending));
    assert_eq!(fut.offset(), 3);
    assert!(matches!(fut.poll(&mut serial, &mut data), Step::Ready(Ok(()))));
    assert_eq!(data, [10, 20, 30, 40]);
    assert!(matches!(fut.poll(&mut serial, &mut data), Step::Spent));
    assert_eq!(serial.attempts, 6);
}

#[test]
fn serial_read_error_keeps_partial_bytes() {
    let mut serial = Scripted::always_ready(vec![10, 20, 30]);
    serial.fail_at = Some(2);
    let mut data = [0u8; 3];
    let mut fut = DefaultReadFuture::new();
    match fut.poll(&mut serial, &mut data) {
        Step::Ready(Err(e)) => assert_eq!(e, Fault(2)),
        _ => panic!("expected the driver's error"),
    }
    assert_eq!(data, [10, 20, 0]);
    assert!(matches!(fut.poll(&mut serial, &mut data), Step::Spent));
    assert_eq!(serial.attempts, 3);
}

#[test]
fn serial_read_empty_buffer() {
    let mut serial = Scripted::always_ready(vec![]);
    let mut data: [u8; 0] = [];
    let mut fut = DefaultReadFuture::new();
    assert!(matches!(fut.poll(&mut serial, &mut data), Step::Ready(Ok(()))));
    assert_eq!(serial.attempts, 0);
}

#[test]
fn serial_read_byte() {
    let mut serial = Scripted::new(vec![false, true], vec![77]);
    let mut fut = DefaultReadByteFuture::new();
    assert!(matches!(fut.poll(&mut serial), Step::Pending));
    assert!(!fut.is_finished());
    assert!(matches!(fut.poll(&mut serial), Step::Ready(Ok(77))));
    assert!(fut.is_finished());
    assert!(matches!(fut.poll(&mut serial), Step::Spent));
    assert_eq!(serial.attempts, 2);
}

#[test]
fn serial_write_sends_each_byte_once() {
    let mut serial = Scripted::new(vec![true, false, true, false, true], vec![]);
    let data = [1u8, 2, 3];
    let mut fut = DefaultWriteFuture::new();
    assert!(matches!(fut.poll(&mut serial, &data), Step::Pending));
    assert!(matches!(fut.poll(&mut serial, &data), Step::Pending));
    assert!(matches!(fut.poll(&mut serial, &data), Step::Ready(Ok(()))));
    assert_eq!(serial.sent, vec![1, 2, 3]);
    assert_eq!(fut.offset(), 3);
}

#[test]
fn serial_write_failure_is_final() {
    let mut serial = Scripted::always_ready(vec![]);
    serial.fail_at = Some(1);
    let data = [1u8, 2, 3];
    let mut fut = DefaultWriteFuture::new();
    match fut.poll(&mut serial, &data) {
        Step::Ready(Err(e)) => assert_eq!(e, Fault(1)),
        _ => panic!("expected the driver's error"),
    }
    assert_eq!(serial.sent, vec![1]);
    assert!(matches!(fut.poll(&mut serial, &data), Step::Spent));
    assert_eq!(serial.attempts, 2);
}

#[test]
fn serial_write_byte_and_flush() {
    let mut serial = Scripted::new(vec![false, true, false, true], vec![]);
    let mut fut = DefaultWriteByteFuture::new(0x55);
    assert_eq!(fut.byte(), 0x55);
    assert!(matches!(fut.poll(&mut serial), Step::Pending));
    assert!(matches!(fut.poll(&mut serial), Step::Ready(Ok(()))));
    assert_eq!(serial.sent, vec![0x55]);
    let mut flush = DefaultFlushFuture::new();
    assert!(matches!(flush.poll(&mut serial), Step::Pending));
    assert!(matches!(flush.poll(&mut serial), Step::Ready(Ok(()))));
    assert!(flush.is_finished());
    assert!(matches!(flush.poll(&mut serial), Step::Spent));
    assert_eq!(serial.flushed, 1);
}

#[test]
fn flush_error_is_reported() {
    let mut serial = Scripted::always_ready(vec![]);
    serial.fail_at = Some(0);
    let mut flush = DefaultFlushFuture::new();
    match flush.poll(&mut serial) {
        Step::Ready(Err(e)) => assert_eq!(e, Fault(0)),
        _ => panic!("expected the driver's error"),
    }
    assert!(matches!(flush.poll(&mut serial), Step::Spent));
}

#[test]
fn settle_maps_each_outcome() {
    assert!(matches!(settle::<u8, Fault>(Attempt::Done(3)), Step::Ready(Ok(3))));
    assert!(matches!(settle::<u8, Fault>(Attempt::Failed(Fault(1))), Step::Ready(Err(Fault(1)))));
    assert!(matches!(settle::<u8, Fault>(Attempt::NotReady), Step::Pending));
}

#[test]
fn spi_cursor_never_decreases() {
    let script = vec![false, true, true, false, false, true, true, false, true, true];
    let mut spi = Scripted::new(script, vec![1, 2, 3]);
    let mut data = [7u8, 8, 9];
    let mut fut = DefaultTransferFuture::new();
    let half = |f: &DefaultTransferFuture| {
        2 * f.offset() + if f.phase() == Phase::Receiving { 1 } else { 0 }
    };
    let mut seen = vec![half(&fut)];
    loop {
        let step = fut.poll(&mut spi, &mut data);
        assert!(fut.offset() <= data.len());
        seen.push(half(&fut));
        if !matches!(step, Step::Pending) {
            assert!(matches!(step, Step::Ready(Ok(()))));
            break;
        }
    }
    assert!(seen.windows(2).all(|w| w[0] <= w[1]));
    assert_eq!(seen, vec![0, 0, 2, 2, 4, 6]);
    assert_eq!(data, [1, 2, 3]);
}
