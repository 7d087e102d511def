use nusb::transfer::{Queue, SubmitOutcome};
use nusb::{Completion, TransferError};

fn issued(o: SubmitOutcome<Vec<u8>>) -> u64 {
    match o {
        SubmitOutcome::Issued { id, .. } => id,
        _ => panic!("transfer not issued"),
    }
}

#[test]
fn completions_come_out_in_submission_order() {
    let mut q: Queue<Vec<u8>> = Queue::new(8);
    let t1 = issued(q.submit(vec![1]));
    let t2 = issued(q.submit(vec![2]));
    let t3 = issued(q.submit(vec![3]));
    assert_eq!((t1, t2, t3), (0, 1, 2));
    q.notify(t3, Completion { data: vec![30], status: Ok(()) });
    assert!(q.next_complete().is_none());
    q.notify(t1, Completion { data: vec![10], status: Ok(()) });
    q.notify(t2, Completion { data: vec![20], status: Err(TransferError::Stall) });
    let c = q.next_complete().unwrap();
    assert_eq!(c.data, vec![10]);
    let c = q.next_complete().unwrap();
    assert_eq!(c.data, vec![20]);
    assert_eq!(c.status, Err(TransferError::Stall));
    let c = q.next_complete().unwrap();
    assert_eq!(c.data, vec![30]);
    assert!(q.next_complete().is_none());
    assert_eq!(q.pending(), 0);
}

#[test]
fn drain_one_submit_one() {
    let mut q: Queue<Vec<u8>> = Queue::new(2);
    let a = issued(q.submit(vec![]));
    let b = issued(q.submit(vec![]));
    q.notify(a, Completion { data: vec![1], status: Ok(()) });
    assert_eq!(q.next_complete().unwrap().data, vec![1]);
    let c = issued(q.submit(vec![]));
    assert_eq!(c, 2);
    q.notify(c, Completion { data: vec![3], status: Ok(()) });
    q.notify(b, Completion { data: vec![2], status: Ok(()) });
    assert_eq!(q.next_complete().unwrap().data, vec![2]);
    assert_eq!(q.next_complete().unwrap().data, vec![3]);
}

#[test]
fn full_queue_hands_buffer_back() {
    let mut q: Queue<Vec<u8>> = Queue::new(1);
    issued(q.submit(vec![1]));
    match q.submit(vec![2, 2]) {
        SubmitOutcome::Full(b) => assert_eq!(b, vec![2, 2]),
        _ => panic!("expected a refusal"),
    }
    assert_eq!(q.pending(), 1);
    let mut z: Queue<Vec<u8>> = Queue::new(0);
    assert!(matches!(z.submit(vec![]), SubmitOutcome::Full(_)));
}

#[test]
fn disconnect_with_two_outstanding() {
    let mut q: Queue<Vec<u8>> = Queue::new(4);
    let a = issued(q.submit(vec![0; 4]));
    let b = issued(q.submit(vec![0; 4]));
    q.disconnect();
    assert!(q.is_disconnected());
    q.notify(b, Completion { data: vec![0; 4], status: Err(TransferError::Disconnected) });
    q.notify(a, Completion { data: vec![1; 4], status: Err(TransferError::Disconnected) });
    let first = q.next_complete().unwrap();
    assert_eq!(first.status, Err(TransferError::Disconnected));
    assert_eq!(first.data, vec![1; 4]);
    let second = q.next_complete().unwrap();
    assert_eq!(second.status, Err(TransferError::Disconnected));
    assert_eq!(second.data, vec![0; 4]);
}

#[test]
fn submission_after_disconnect_completes_at_once() {
    let mut q: Queue<Vec<u8>> = Queue::new(4);
    let a = issued(q.submit(vec![1]));
    q.disconnect();
    match q.submit(vec![2]) {
        SubmitOutcome::Disconnected { id } => assert_eq!(id, 1),
        _ => panic!("expected an immediate completion"),
    }
    assert!(q.next_complete().is_none());
    q.notify(a, Completion { data: vec![1], status: Err(TransferError::Disconnected) });
    assert_eq!(q.next_complete().unwrap().data, vec![1]);
    let c = q.next_complete().unwrap();
    assert_eq!(c.data, vec![2]);
    assert_eq!(c.status, Err(TransferError::Disconnected));
}

#[test]
fn cancel_all_keeps_every_completion() {
    let mut q: Queue<Vec<u8>> = Queue::new(4);
    let a = issued(q.submit(vec![1]));
    let b = issued(q.submit(vec![2]));
    let c = issued(q.submit(vec![3]));
    q.notify(b, Completion { data: vec![2], status: Ok(()) });
    assert_eq!(q.cancel_all(), vec![a, c]);
    assert_eq!(q.cancel_all(), Vec::<u64>::new());
    assert!(q.is_outstanding(a));
    assert!(!q.is_outstanding(b));
    assert!(!q.is_outstanding(7));
    q.notify(c, Completion { data: vec![3], status: Err(TransferError::Cancelled) });
    q.notify(a, Completion { data: vec![1], status: Err(TransferError::Cancelled) });
    assert_eq!(q.next_complete().unwrap().status, Err(TransferError::Cancelled));
    let second = q.next_complete().unwrap();
    assert_eq!(second.status, Ok(()));
    assert_eq!(second.data, vec![2]);
    assert_eq!(q.next_complete().unwrap().data, vec![3]);
}
