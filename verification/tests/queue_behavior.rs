use transcript_relay::queue::Dequeued;
use transcript_relay::queue::EnqueueError;
use transcript_relay::queue::IngressQueue;
use transcript_relay::queue::forward_pending;
use transcript_relay::queue::relay_chunks_in_order;

#[test]
fn fifo_order_is_kept() {
    let mut q = IngressQueue::new(10);
    q.enqueue(vec![1u8, 2]).unwrap();
    q.enqueue(vec![3u8]).unwrap();
    q.enqueue(vec![4u8, 5, 6]).unwrap();
    match q.dequeue() {
        Dequeued::Chunk(c) => assert_eq!(c, vec![1u8, 2]),
        _ => panic!("expected a chunk"),
    }
    match q.dequeue() {
        Dequeued::Chunk(c) => assert_eq!(c, vec![3u8]),
        _ => panic!("expected a chunk"),
    }
    match q.dequeue() {
        Dequeued::Chunk(c) => assert_eq!(c, vec![4u8, 5, 6]),
        _ => panic!("expected a chunk"),
    }
    assert!(matches!(q.dequeue(), Dequeued::Pending));
}

#[test]
fn full_queue_rejects_without_dropping() {
    let mut q = IngressQueue::new(2);
    q.enqueue(vec![1u8]).unwrap();
    q.enqueue(vec![2u8]).unwrap();
    assert_eq!(q.enqueue(vec![3u8]), Err(EnqueueError::Full));
    assert_eq!(q.buffered_len(), 2);
    match q.dequeue() {
        Dequeued::Chunk(c) => assert_eq!(c, vec![1u8]),
        _ => panic!("expected a chunk"),
    }
    match q.dequeue() {
        Dequeued::Chunk(c) => assert_eq!(c, vec![2u8]),
        _ => panic!("expected a chunk"),
    }
}

#[test]
fn closed_queue_rejects_enqueue() {
    let mut q = IngressQueue::new(4);
    q.enqueue(vec![9u8]).unwrap();
    q.close();
    assert_eq!(q.enqueue(vec![10u8]), Err(EnqueueError::Closed));
    match q.dequeue() {
        Dequeued::Chunk(c) => assert_eq!(c, vec![9u8]),
        _ => panic!("buffered chunks survive closing"),
    }
    assert!(matches!(q.dequeue(), Dequeued::Closed));
}

#[test]
fn empty_open_queue_is_pending() {
    let mut q = IngressQueue::new(4);
    assert!(matches!(q.dequeue(), Dequeued::Pending));
    assert_eq!(q.buffered_len(), 0);
}

#[test]
fn close_is_idempotent() {
    let mut q = IngressQueue::new(4);
    q.close();
    q.close();
    assert!(matches!(q.dequeue(), Dequeued::Closed));
}

#[test]
fn submitted_run_reaches_sink_in_order() {
    let mut q = IngressQueue::new(8);
    q.enqueue(vec![7u8]).unwrap();
    let run: Vec<Vec<u8>> = vec![vec![10u8], vec![11u8, 11], vec![12u8]];
    let mut sink: Vec<Vec<u8>> = Vec::new();
    relay_chunks_in_order(&mut q, run.clone(), &mut sink);
    let mut expected = vec![vec![7u8]];
    expected.extend(run);
    assert_eq!(sink, expected);
    assert_eq!(q.buffered_len(), 0);
}

#[test]
fn forwarding_drains_in_submission_order() {
    let mut q = IngressQueue::new(8);
    let chunks: Vec<Vec<u8>> = vec![vec![0u8], vec![1u8, 1], vec![2u8, 2, 2], vec![], vec![5u8]];
    for c in &chunks {
        q.enqueue(c.clone()).unwrap();
    }
    let mut sink: Vec<Vec<u8>> = vec![vec![255u8]];
    forward_pending(&mut q, &mut sink);
    assert_eq!(sink.len(), 6);
    assert_eq!(sink[0], vec![255u8]);
    for (i, c) in chunks.iter().enumerate() {
        assert_eq!(&sink[i + 1], c);
    }
    assert_eq!(q.buffered_len(), 0);
}
