use posthog_rs::batching::{Action, Signal};
use posthog_rs::options::{
    ClientOptionsBuilderError, DEFAULT_FLUSH_AT, DEFAULT_FLUSH_INTERVAL_MS, QUEUE_BATCHES,
    DEFAULT_REQUEST_TIMEOUT_SECONDS,
};
use posthog_rs::{ClientOptions, ClientOptionsBuilder, Error, EventQueue};
use std::sync::mpsc::{sync_channel, Receiver, TryRecvError, TrySendError};

const MS: u64 = 1_000_000;

/// Runs the worker's decisions for `options` over what `rx` holds: an empty
/// queue lets the wait run out (the clock jumps to the deadline), a
/// disconnected one ends the run. Returns the batches handed out for sending.
fn drain(options: &ClientOptions, rx: &Receiver<u32>, step_ms: u64) -> Vec<Vec<u32>> {
    let mut batcher = options.batcher::<u32>();
    let mut now: u64 = 0;
    let mut sent = Vec::new();
    let mut action = batcher.step(Signal::CycleStart, now);
    loop {
        action = match action {
            Action::Receive { secs, subsec_nanos } => match rx.try_recv() {
                Ok(event) => {
                    now += step_ms * MS;
                    batcher.step(Signal::Received(event), now)
                }
                Err(TryRecvError::Empty) => {
                    now += secs * 1_000 * MS + subsec_nanos as u64;
                    batcher.step(Signal::TimedOut, now)
                }
                Err(TryRecvError::Disconnected) => batcher.step(Signal::Disconnected, now),
            },
            Action::Send(batch) => {
                sent.push(batch);
                batcher.step(Signal::CycleStart, now)
            }
            Action::Restart => return sent,
            Action::SendFinal(batch) => {
                sent.push(batch);
                return sent;
            }
            Action::Stop => return sent,
        };
    }
}

fn test_options(flush_at: usize, flush_interval_ms: u64) -> ClientOptions {
    ClientOptionsBuilder::default()
        .api_key("test_key".to_string())
        .api_endpoint("http://127.0.0.1/batch/".to_string())
        .flush_at(flush_at)
        .flush_interval_ms(flush_interval_ms)
        .build()
        .unwrap()
}

fn connection_message(r: Result<(), Error>) -> String {
    match r {
        Err(Error::Connection(m)) => m,
        other => panic!("expected a connection error, got {:?}", other),
    }
}

#[test]
fn test_capture_queues_event() {
    let (tx, rx) = sync_channel(4);
    let queue = EventQueue::new(tx);
    assert!(!queue.is_closed());
    assert!(queue.capture(42u32).is_ok());
    assert_eq!(rx.try_recv().unwrap(), 42);
}

#[test]
fn test_capture_after_worker_gone() {
    let (tx, rx) = sync_channel::<u32>(4);
    drop(rx);
    let queue = EventQueue::new(tx);
    assert_eq!(connection_message(queue.capture(1)), "Event queue closed");
}

#[test]
fn test_capture_after_shutdown() {
    let (tx, rx) = sync_channel::<u32>(4);
    let mut queue = EventQueue::new(tx);
    queue.close();
    assert!(queue.is_closed());
    assert_eq!(connection_message(queue.capture(1)), "Client has been shut down");
    assert!(rx.try_recv().is_err());
}

#[test]
fn test_capture_batch_empty_on_shut_down_queue() {
    let (tx, _rx) = sync_channel::<u32>(1);
    let mut queue = EventQueue::new(tx);
    queue.close();
    assert!(queue.capture_batch(Vec::new()).is_ok());
}

#[test]
fn test_capture_batch_on_shut_down_queue() {
    let (tx, rx) = sync_channel::<u32>(4);
    let mut queue = EventQueue::new(tx);
    queue.close();
    assert_eq!(connection_message(queue.capture_batch(vec![1, 2])), "Client has been shut down");
    assert!(rx.try_recv().is_err());
}

#[test]
fn test_capture_batch_worker_gone() {
    let (tx, rx) = sync_channel::<u32>(4);
    drop(rx);
    let queue = EventQueue::new(tx);
    assert_eq!(connection_message(queue.capture_batch(vec![1, 2, 3])), "Event queue closed");
}

#[test]
fn test_close_lets_worker_drain_then_disconnect() {
    let (tx, rx) = sync_channel(4);
    let mut queue = EventQueue::new(tx);
    queue.capture(1u32).unwrap();
    queue.capture(2u32).unwrap();
    queue.close();
    assert_eq!(rx.recv().unwrap(), 1);
    assert_eq!(rx.recv().unwrap(), 2);
    assert!(rx.recv().is_err());
}

#[test]
fn test_error_constructors() {
    assert_eq!(connection_message(Err(Error::shut_down())), "Client has been shut down");
    assert_eq!(connection_message(Err(Error::queue_closed())), "Event queue closed");
}

#[test]
fn test_capture_batch_method() {
    let options = test_options(10, 10000);
    let (tx, rx) = sync_channel(options.queue_capacity().unwrap());
    let queue = EventQueue::new(tx);
    let events: Vec<u32> = (0..10).collect();
    assert!(queue.capture_batch(events).is_ok());
    let sent = drain(&options, &rx, 1);
    assert_eq!(sent, vec![(0..10).collect::<Vec<u32>>()]);
}

#[test]
fn test_default_configuration() {
    let options = ClientOptionsBuilder::default()
        .api_key("test_key".to_string())
        .api_endpoint("http://127.0.0.1/batch/".to_string())
        .build()
        .unwrap();
    assert_eq!(options.flush_at, 100);
    assert_eq!(options.flush_interval_ms, 500);
    let (tx, rx) = sync_channel(options.queue_capacity().unwrap());
    let queue = EventQueue::new(tx);
    for i in 0..5 {
        queue.capture(i).unwrap();
    }
    // Five events, far short of 100: the batch goes out when the 500 ms run out.
    let mut batcher = options.batcher::<u32>();
    let mut action = batcher.step(Signal::CycleStart, 0);
    for i in 0..5u64 {
        assert!(matches!(action, Action::Receive { .. }));
        action = batcher.step(Signal::Received(rx.try_recv().unwrap()), (i + 1) * MS);
    }
    match action {
        Action::Receive { secs, subsec_nanos } => {
            assert_eq!(secs, 0);
            assert_eq!(subsec_nanos, 495_000_000);
        }
        _ => panic!("expected a wait"),
    }
    assert!(matches!(rx.try_recv(), Err(TryRecvError::Empty)));
    match batcher.step(Signal::TimedOut, 500 * MS) {
        Action::Send(batch) => assert_eq!(batch, vec![0, 1, 2, 3, 4]),
        _ => panic!("expected one batch after the flush interval"),
    }
}

#[test]
fn test_error_handling() {
    // flush_at 3, interval 100 ms: three events, then three more, give two
    // batches from the same worker; a failed send does not stop it, it simply
    // begins the next cycle.
    let options = test_options(3, 100);
    let (tx, rx) = sync_channel(options.queue_capacity().unwrap());
    let queue = EventQueue::new(tx);
    let mut batcher = options.batcher::<u32>();
    let mut sent = Vec::new();
    for round in 0..2u32 {
        for i in 0..3 {
            queue.capture(round * 3 + i).unwrap();
        }
        let mut now: u64 = (round as u64) * 1000 * MS;
        let mut action = batcher.step(Signal::CycleStart, now);
        loop {
            action = match action {
                Action::Receive { .. } => {
                    now += MS;
                    batcher.step(Signal::Received(rx.try_recv().unwrap()), now)
                }
                Action::Send(batch) => {
                    // The send fails (the server answers 500); the worker goes on.
                    sent.push(batch);
                    break;
                }
                _ => panic!("unexpected action"),
            };
        }
    }
    assert_eq!(sent, vec![vec![0, 1, 2], vec![3, 4, 5]]);
    let mut queue = queue;
    queue.close();
    assert!(matches!(batcher.step(Signal::CycleStart, 3000 * MS), Action::Receive { .. }));
    assert!(matches!(rx.try_recv(), Err(TryRecvError::Disconnected)));
    assert!(matches!(batcher.step(Signal::Disconnected, 3001 * MS), Action::Stop));
}

#[test]
fn test_backpressure() {
    let options = ClientOptionsBuilder::default()
        .api_key("test_key".to_string())
        .flush_at(5)
        .max_queue_size(10)
        .flush_interval_ms(10000)
        .build()
        .unwrap();
    assert_eq!(options.queue_capacity(), Some(10));
    let (tx, rx) = sync_channel(options.queue_capacity().unwrap());
    let probe = tx.clone();
    let mut queue = EventQueue::new(tx);
    let mut batcher = options.batcher::<u32>();
    let mut now: u64 = 0;
    let mut action = batcher.step(Signal::CycleStart, now);
    let mut sent: Vec<Vec<u32>> = Vec::new();
    let mut next: u32 = 0;
    // Twenty events through a queue of ten: capturing fills the queue, the
    // worker takes what it holds, and capturing resumes.
    while next < 20 {
        while next < 20 && (next as usize) - sent.concat().len() - batcher.pending() < 10 {
            queue.capture(next).unwrap();
            next += 1;
        }
        assert!(next == 20 || matches!(probe.try_send(99), Err(TrySendError::Full(99))));
        while let Ok(event) = rx.try_recv() {
            now += MS;
            action = match action {
                Action::Receive { .. } => batcher.step(Signal::Received(event), now),
                _ => panic!("unexpected action"),
            };
            if let Action::Send(batch) = action {
                sent.push(batch);
                action = batcher.step(Signal::CycleStart, now);
            }
        }
    }
    drop(probe);
    queue.close();
    assert!(matches!(rx.try_recv(), Err(TryRecvError::Disconnected)));
    assert!(matches!(batcher.step(Signal::Disconnected, now), Action::Stop));
    assert_eq!(sent.len(), 4);
    assert_eq!(sent.concat(), (0..20).collect::<Vec<u32>>());
}

#[test]
fn test_capacity_defaults_to_ten_batches() {
    let options = test_options(5, 10000);
    assert_eq!(options.max_queue_size, None);
    assert_eq!(options.queue_capacity(), Some(50));
    let mut huge = test_options(usize::MAX / QUEUE_BATCHES + 1, 10);
    assert_eq!(huge.queue_capacity(), None);
    huge.max_queue_size = Some(7);
    assert_eq!(huge.queue_capacity(), Some(7));
}

#[test]
fn test_default_options() {
    let options = ClientOptions::new("test_key".to_string());
    assert_eq!(options.api_key, "test_key");
    assert_eq!(options.api_endpoint, "https://us.i.posthog.com/i/v0/e/");
    assert_eq!(options.request_timeout_seconds, DEFAULT_REQUEST_TIMEOUT_SECONDS);
    assert_eq!(options.flush_at, DEFAULT_FLUSH_AT);
    assert_eq!(options.flush_interval_ms, DEFAULT_FLUSH_INTERVAL_MS);
    assert_eq!(options.max_queue_size, None);
    assert_eq!(options.queue_capacity(), Some(1000));
    assert_eq!(DEFAULT_FLUSH_AT, 100);
    assert_eq!(DEFAULT_FLUSH_INTERVAL_MS, 500);
    assert_eq!(QUEUE_BATCHES, 10);
    assert_eq!(DEFAULT_REQUEST_TIMEOUT_SECONDS, 30);
    let from_key = ClientOptions::from_api_key("phc_key");
    assert_eq!(from_key.api_key, "phc_key");
    assert_eq!(from_key.queue_capacity(), Some(1000));
}

#[test]
fn test_builder_needs_api_key() {
    let r = ClientOptionsBuilder::default().flush_at(5).build();
    assert!(matches!(r, Err(ClientOptionsBuilderError::MissingApiKey)));
}

#[test]
fn test_builder_settings() {
    let options = ClientOptionsBuilder::default()
        .api_key("k".to_string())
        .api_endpoint("e".to_string())
        .request_timeout_seconds(7)
        .flush_at(2)
        .flush_interval_ms(1000)
        .max_queue_size(3)
        .build()
        .unwrap();
    assert_eq!(options.api_key, "k");
    assert_eq!(options.api_endpoint, "e");
    assert_eq!(options.request_timeout_seconds, 7);
    assert_eq!(options.flush_at, 2);
    assert_eq!(options.flush_interval_ms, 1000);
    assert_eq!(options.max_queue_size, Some(3));
    assert_eq!(options.queue_capacity(), Some(3));
    let mut batcher = options.batcher::<u8>();
    assert!(matches!(batcher.step(Signal::CycleStart, 0), Action::Receive { secs: 1, subsec_nanos: 0 }));
    batcher.step(Signal::Received(1), 1);
    match batcher.step(Signal::Received(2), 2) {
        Action::Send(b) => assert_eq!(b, vec![1, 2]),
        _ => panic!("expected a full batch"),
    }
}
