//! The non-blocking surface of a candidate connection: offering a control frame or opening a
//! stream, and taking a received frame or an accepted stream. Each checks that the connection
//! is still open and that the item fits before it touches a bounded queue, hands an item that
//! was refused back to the caller unchanged, and marks the connection terminal on the failures
//! that end it; a terminal connection stays terminal.

use vstd::prelude::*;

use crate::candidate::TerminalFlag;

verus! {

/// Why a frame or an opening frame was refused; the item comes back with the refusal.
#[derive(Debug, Clone, PartialEq, Eq)]
pub enum OfferError<F> {
    Full(F),
    TooLarge(F),
    Closed(F),
}

/// Why a bounded queue, or the pool of stream slots, did not take an item.
#[derive(Debug, Clone, PartialEq, Eq)]
pub enum QueueRejection<F> {
    Full(F),
    Closed(F),
}

/// What a non-blocking receive from a bounded queue gave.
#[derive(Debug, Clone, PartialEq, Eq)]
pub enum QueueReceipt<T> {
    Item(T),
    Empty,
    Disconnected,
}

/// Why nothing was taken.
#[derive(Debug, Clone, Copy, PartialEq, Eq, Structural)]
pub enum TakeError {
    Empty,
    Closed,
}

/// The non-blocking surface of one candidate connection, with the flag that marks the
/// connection terminal. Once terminal it stays terminal, and every later offer, open or take
/// answers `Closed` without touching a queue.
pub struct ConnectionSurface {
    terminal: TerminalFlag,
}

impl View for ConnectionSurface {
    type V = bool;

    /// Whether the connection is terminal.
    closed spec fn view(&self) -> bool {
        self.terminal@
    }
}

impl ConnectionSurface {
    /// A surface for a connection that is open.
    pub fn new() -> (r: Self)
        ensures
            !r@,
    {
        ConnectionSurface { terminal: TerminalFlag::new() }
    }

    pub fn is_terminal(&self) -> (r: bool)
        ensures
            r == self@,
    {
        self.terminal.is_terminal()
    }

    /// Marks the connection terminal (it was closed, or its peer closed it); true only for the
    /// call that changed it.
    pub fn mark_terminal(&mut self) -> (first: bool)
        ensures
            final(self)@,
            first == !old(self)@,
    {
        self.terminal.mark_terminal()
    }

    /// Offers a control frame of at most `max` bytes to the outbound queue with `enqueue`. A
    /// terminal connection refuses it as closed and a frame over the limit as too large, both
    /// without touching the queue; otherwise the queue decides, and a closed queue makes the
    /// connection terminal.
    pub fn offer_control_frame<Q>(&mut self, frame: Vec<u8>, max: usize, enqueue: Q) -> (r: Result<
        (),
        OfferError<Vec<u8>>,
    >) where Q: FnOnce(Vec<u8>) -> Result<(), QueueRejection<Vec<u8>>>
        requires
            forall|f: Vec<u8>| enqueue.requires((f,)),
        ensures
            old(self)@ ==> final(self)@ && r == Err::<(), _>(OfferError::Closed(frame)),
            !old(self)@ && frame.len() > max ==> !final(self)@ && r == Err::<(), _>(
                OfferError::TooLarge(frame),
            ),
            !old(self)@ && frame.len() <= max ==> exists|out: Result<(), QueueRejection<Vec<u8>>>|
                #![trigger enqueue.ensures((frame,), out)]
                enqueue.ensures((frame,), out) && match out {
                    Ok(()) => r == Ok::<(), OfferError<Vec<u8>>>(()) && !final(self)@,
                    Err(QueueRejection::Full(f)) => r == Err::<(), _>(OfferError::Full(f))
                        && !final(self)@,
                    Err(QueueRejection::Closed(f)) => r == Err::<(), _>(OfferError::Closed(f))
                        && final(self)@,
                },
    {
        if self.terminal.is_terminal() {
            return Err(OfferError::Closed(frame));
        }
        if frame.len() > max {
            return Err(OfferError::TooLarge(frame));
        }
        let ghost offered = frame;
        let out = enqueue(frame);
        assert(enqueue.ensures((offered,), out));
        match out {
            Ok(()) => Ok(()),
            Err(QueueRejection::Full(f)) => Err(OfferError::Full(f)),
            Err(QueueRejection::Closed(f)) => {
                self.terminal.mark_terminal();
                Err(OfferError::Closed(f))
            },
        }
    }

    /// Opens an outgoing stream whose opening frame is at most `max` bytes with `open`, which
    /// takes a stream slot and starts the stream's task. A terminal connection refuses as
    /// closed and an opening frame over the limit as too large, without taking a slot;
    /// otherwise `open` decides: no free slot is `Full`, a connection that stopped taking tasks
    /// is `Closed`, each with the opening frame handed back. Opening never changes whether the
    /// connection is terminal.
    pub fn open_stream<H, O>(&self, opening: Vec<u8>, max: usize, open: O) -> (r: Result<
        H,
        OfferError<Vec<u8>>,
    >) where O: FnOnce(Vec<u8>) -> Result<H, QueueRejection<Vec<u8>>>
        requires
            forall|f: Vec<u8>| open.requires((f,)),
        ensures
            self@ ==> r == Err::<H, _>(OfferError::Closed(opening)),
            !self@ && opening.len() > max ==> r == Err::<H, _>(OfferError::TooLarge(opening)),
            !self@ && opening.len() <= max ==> exists|out: Result<H, QueueRejection<Vec<u8>>>|
                #![trigger open.ensures((opening,), out)]
                open.ensures((opening,), out) && r == match out {
                    Ok(h) => Ok::<H, OfferError<Vec<u8>>>(h),
                    Err(QueueRejection::Full(f)) => Err(OfferError::Full(f)),
                    Err(QueueRejection::Closed(f)) => Err(OfferError::Closed(f)),
                },
    {
        if self.terminal.is_terminal() {
            return Err(OfferError::Closed(opening));
        }
        if opening.len() > max {
            return Err(OfferError::TooLarge(opening));
        }
        let ghost offered = opening;
        let out = open(opening);
        assert(open.ensures((offered,), out));
        match out {
            Ok(h) => Ok(h),
            Err(QueueRejection::Full(f)) => Err(OfferError::Full(f)),
            Err(QueueRejection::Closed(f)) => Err(OfferError::Closed(f)),
        }
    }

    /// Takes the next received item with `receive`. A terminal connection gives `Closed`
    /// without receiving. An empty queue gives `Closed` if the connection was closed meanwhile
    /// (as `closed_meanwhile` tells; the connection is then terminal) and `Empty` otherwise;
    /// a queue whose sender is gone gives `Closed` and makes the connection terminal.
    pub fn take_received<T, R, N>(&mut self, receive: R, closed_meanwhile: N) -> (r: Result<
        T,
        TakeError,
    >) where R: FnOnce() -> QueueReceipt<T>, N: FnOnce() -> bool
        requires
            receive.requires(()),
            closed_meanwhile.requires(()),
        ensures
            old(self)@ ==> final(self)@ && r == Err::<T, _>(TakeError::Closed),
            !old(self)@ ==> exists|got: QueueReceipt<T>|
                #![trigger receive.ensures((), got)]
                receive.ensures((), got) && match got {
                    QueueReceipt::Item(t) => r == Ok::<T, TakeError>(t) && !final(self)@,
                    QueueReceipt::Disconnected => r == Err::<T, _>(TakeError::Closed)
                        && final(self)@,
                    QueueReceipt::Empty => exists|now: bool|
                        #![trigger closed_meanwhile.ensures((), now)]
                        closed_meanwhile.ensures((), now) && final(self)@ == now && r == Err::<
                            T,
                            _,
                        >(
                            if now {
                                TakeError::Closed
                            } else {
                                TakeError::Empty
                            },
                        ),
                },
    {
        if self.terminal.is_terminal() {
            return Err(TakeError::Closed);
        }
        let got = receive();
        match got {
            QueueReceipt::Item(t) => Ok(t),
            QueueReceipt::Disconnected => {
                self.terminal.mark_terminal();
                Err(TakeError::Closed)
            },
            QueueReceipt::Empty => {
                let now = closed_meanwhile();
                if now {
                    self.terminal.mark_terminal();
                    Err(TakeError::Closed)
                } else {
                    Err(TakeError::Empty)
                }
            },
        }
    }
}

} // verus!
