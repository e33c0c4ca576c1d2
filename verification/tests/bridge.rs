use std::cell::RefCell;
use std::collections::VecDeque;

use crosslab_runtime::bridge::{
    ConnectionSurface, OfferError, QueueReceipt, QueueRejection, TakeError,
};

fn bounded_enqueue<'a>(
    queue: &'a RefCell<VecDeque<Vec<u8>>>,
    capacity: usize,
) -> impl FnOnce(Vec<u8>) -> Result<(), QueueRejection<Vec<u8>>> + 'a {
    move |frame| {
        let mut queue = queue.borrow_mut();
        if queue.len() >= capacity {
            Err(QueueRejection::Full(frame))
        } else {
            queue.push_back(frame);
            Ok(())
        }
    }
}

#[test]
fn oversized_control_frame_comes_back_without_queueing() {
    let queue = RefCell::new(VecDeque::new());
    let mut surface = ConnectionSurface::new();
    let frame = vec![0x55; 5];
    assert_eq!(
        surface.offer_control_frame(frame.clone(), 4, bounded_enqueue(&queue, 1)),
        Err(OfferError::TooLarge(frame))
    );
    assert!(queue.borrow().is_empty());
    assert!(!surface.is_terminal());

    let exact = vec![0x66; 4];
    assert_eq!(surface.offer_control_frame(exact.clone(), 4, bounded_enqueue(&queue, 1)), Ok(()));
    assert_eq!(queue.borrow().front(), Some(&exact));
}

#[test]
fn full_control_queue_hands_the_frame_back_in_order() {
    let queue = RefCell::new(VecDeque::new());
    let mut surface = ConnectionSurface::new();
    assert_eq!(surface.offer_control_frame(vec![1], 8, bounded_enqueue(&queue, 1)), Ok(()));
    assert_eq!(
        surface.offer_control_frame(vec![2], 8, bounded_enqueue(&queue, 1)),
        Err(OfferError::Full(vec![2]))
    );
    assert_eq!(queue.borrow_mut().pop_front(), Some(vec![1]));
    assert_eq!(surface.offer_control_frame(vec![2], 8, bounded_enqueue(&queue, 1)), Ok(()));
    assert_eq!(queue.borrow_mut().pop_front(), Some(vec![2]));
    assert!(!surface.is_terminal());
}

#[test]
fn closed_queue_makes_the_connection_terminal_for_good() {
    let queue = RefCell::new(VecDeque::new());
    let mut surface = ConnectionSurface::new();
    assert_eq!(
        surface.offer_control_frame(vec![0x72], 8, |f| Err(QueueRejection::Closed(f))),
        Err(OfferError::Closed(vec![0x72]))
    );
    assert!(surface.is_terminal());
    assert_eq!(
        surface.offer_control_frame(vec![0x71], 8, bounded_enqueue(&queue, 4)),
        Err(OfferError::Closed(vec![0x71]))
    );
    assert!(queue.borrow().is_empty());
    assert_eq!(surface.take_received(|| QueueReceipt::Item(7u8), || false), Err(TakeError::Closed));
    assert_eq!(
        surface.open_stream(vec![1], 8, |o: Vec<u8>| Ok::<_, QueueRejection<Vec<u8>>>(o.len())),
        Err(OfferError::Closed(vec![1]))
    );
}

#[test]
fn marked_terminal_connection_answers_closed() {
    let mut surface = ConnectionSurface::new();
    assert_eq!(surface.take_received(|| QueueReceipt::<u8>::Empty, || false), Err(TakeError::Empty));
    assert!(surface.mark_terminal());
    assert!(!surface.mark_terminal());
    let frame = vec![0x71];
    assert_eq!(
        surface.offer_control_frame(frame.clone(), 8, |f| {
            let _ = f;
            Ok(())
        }),
        Err(OfferError::Closed(frame))
    );
    assert_eq!(surface.take_received(|| QueueReceipt::Item(1u8), || false), Err(TakeError::Closed));
}

#[test]
fn stream_open_checks_before_taking_a_slot() {
    let surface = ConnectionSurface::new();
    let taken = RefCell::new(0usize);
    let take_slot = |opening: Vec<u8>| {
        *taken.borrow_mut() += 1;
        Ok::<_, QueueRejection<Vec<u8>>>(opening.len())
    };
    assert_eq!(surface.open_stream(vec![0; 9], 8, take_slot), Err(OfferError::TooLarge(vec![0; 9])));
    assert_eq!(*taken.borrow(), 0);
    assert_eq!(surface.open_stream(vec![0; 8], 8, |o: Vec<u8>| Ok::<_, QueueRejection<Vec<u8>>>(o.len())), Ok(8));
    assert_eq!(
        surface.open_stream::<usize, _>(vec![1], 8, |o| Err(QueueRejection::Full(o))),
        Err(OfferError::Full(vec![1]))
    );
    assert_eq!(
        surface.open_stream::<usize, _>(vec![2], 8, |o| Err(QueueRejection::Closed(o))),
        Err(OfferError::Closed(vec![2]))
    );
    assert!(!surface.is_terminal());
}

#[test]
fn taking_distinguishes_empty_closed_and_disconnected() {
    let mut surface = ConnectionSurface::new();
    assert_eq!(surface.take_received(|| QueueReceipt::Item(7u8), || true), Ok(7));
    assert_eq!(surface.take_received(|| QueueReceipt::<u8>::Empty, || false), Err(TakeError::Empty));
    assert!(!surface.is_terminal());
    assert_eq!(surface.take_received(|| QueueReceipt::<u8>::Empty, || true), Err(TakeError::Closed));
    assert!(surface.is_terminal());

    let mut other = ConnectionSurface::new();
    assert_eq!(other.take_received(|| QueueReceipt::<u8>::Disconnected, || false), Err(TakeError::Closed));
    assert!(other.is_terminal());
    assert_eq!(other.take_received(|| QueueReceipt::<u8>::Empty, || false), Err(TakeError::Closed));
}
