use thread_supervisor::thread_message::ThreadMessage;
use thread_supervisor::thread_watcher::{Batch, ThreadHandle, ThreadWatcher};

fn queue_message(sender: u64, text: &str, at: i64) -> ThreadMessage {
    ThreadMessage::new(sender, text.to_string(), at)
}

fn queue_for(thread: u64) -> ThreadWatcher {
    ThreadWatcher::new(ThreadHandle { id: thread, title: "help".to_string(), owner: 5 })
}

fn contents(batch: Batch) -> Vec<String> {
    match batch {
        Batch::Messages(items) => items.iter().map(|m| m.content().to_string()).collect(),
        Batch::Empty => panic!("the queue was empty"),
        Batch::Closed => panic!("the queue was closed"),
    }
}

#[test]
fn message_keeps_what_it_was_made_with() {
    let message = queue_message(7, "hello", 1_700_000_000);
    assert_eq!(message.sender(), 7);
    assert_eq!(message.content(), "hello");
    assert_eq!(message.received_at(), 1_700_000_000);
    let copy = message.duplicate();
    assert_eq!(copy.sender(), 7);
    assert_eq!(copy.content(), "hello");
    assert_eq!(copy.received_at(), 1_700_000_000);
}

#[test]
fn new_queue_is_open_and_empty() {
    let mut watcher = queue_for(42);
    assert_eq!(watcher.channel().id, 42);
    assert_eq!(watcher.channel().title, "help");
    assert_eq!(watcher.channel().owner, 5);
    assert!(matches!(watcher.dequeue_batch(16), Batch::Empty));
}

#[test]
fn messages_come_out_in_the_order_they_went_in() {
    let mut watcher = queue_for(1);
    assert!(watcher.enqueue(queue_message(7, "first", 10)).is_ok());
    assert!(watcher.enqueue(queue_message(8, "second", 11)).is_ok());
    assert!(watcher.enqueue(queue_message(7, "third", 12)).is_ok());
    match watcher.dequeue_batch(16) {
        Batch::Messages(items) => {
            assert_eq!(items.len(), 3);
            assert_eq!(items[0].content(), "first");
            assert_eq!(items[0].sender(), 7);
            assert_eq!(items[0].received_at(), 10);
            assert_eq!(items[1].content(), "second");
            assert_eq!(items[1].sender(), 8);
            assert_eq!(items[1].received_at(), 11);
            assert_eq!(items[2].content(), "third");
            assert_eq!(items[2].received_at(), 12);
        }
        _ => panic!("three messages wait"),
    }
    assert!(matches!(watcher.dequeue_batch(16), Batch::Empty));
}

#[test]
fn batch_is_cut_at_the_limit() {
    let mut watcher = queue_for(1);
    for (index, text) in ["a", "b", "c", "d", "e"].iter().enumerate() {
        assert!(watcher.enqueue(queue_message(2, text, index as i64)).is_ok());
    }
    assert_eq!(contents(watcher.dequeue_batch(2)), vec!["a", "b"]);
    assert_eq!(contents(watcher.dequeue_batch(2)), vec!["c", "d"]);
    assert_eq!(contents(watcher.dequeue_batch(2)), vec!["e"]);
    assert!(matches!(watcher.dequeue_batch(2), Batch::Empty));
}

#[test]
fn batch_of_one_takes_the_oldest() {
    let mut watcher = queue_for(1);
    assert!(watcher.enqueue(queue_message(2, "old", 1)).is_ok());
    assert!(watcher.enqueue(queue_message(2, "new", 2)).is_ok());
    assert_eq!(contents(watcher.dequeue_batch(1)), vec!["old"]);
    assert_eq!(contents(watcher.dequeue_batch(1)), vec!["new"]);
}

#[test]
fn read_for_no_items_takes_nothing() {
    let mut watcher = queue_for(1);
    assert!(matches!(watcher.dequeue_batch(0), Batch::Empty));
    assert!(watcher.enqueue(queue_message(2, "kept", 1)).is_ok());
    assert!(matches!(watcher.dequeue_batch(0), Batch::Empty));
    assert_eq!(contents(watcher.dequeue_batch(16)), vec!["kept"]);
    watcher.close();
    assert!(matches!(watcher.dequeue_batch(0), Batch::Empty));
    assert!(matches!(watcher.dequeue_batch(1), Batch::Closed));
}

#[test]
fn interleaved_writes_and_reads_keep_the_order() {
    let mut watcher = queue_for(1);
    assert!(watcher.enqueue(queue_message(2, "1", 1)).is_ok());
    assert!(watcher.enqueue(queue_message(2, "2", 2)).is_ok());
    assert_eq!(contents(watcher.dequeue_batch(1)), vec!["1"]);
    assert!(watcher.enqueue(queue_message(2, "3", 3)).is_ok());
    assert_eq!(contents(watcher.dequeue_batch(16)), vec!["2", "3"]);
}

#[test]
fn closed_queue_reports_closure_on_enqueue() {
    let mut watcher = queue_for(1);
    watcher.close();
    match watcher.enqueue(queue_message(9, "late", 3)) {
        Ok(()) => panic!("a closed queue took a message"),
        Err(error) => {
            assert_eq!(error.rejected.sender(), 9);
            assert_eq!(error.rejected.content(), "late");
            assert_eq!(error.rejected.received_at(), 3);
        }
    }
    assert!(matches!(watcher.dequeue_batch(16), Batch::Closed));
}

#[test]
fn closed_queue_is_drained_once_and_then_reports_closure() {
    let mut watcher = queue_for(1);
    assert!(watcher.enqueue(queue_message(2, "a", 1)).is_ok());
    assert!(watcher.enqueue(queue_message(2, "b", 2)).is_ok());
    assert!(watcher.enqueue(queue_message(2, "c", 3)).is_ok());
    watcher.close();
    assert!(watcher.enqueue(queue_message(2, "d", 4)).is_err());
    assert_eq!(contents(watcher.dequeue_batch(2)), vec!["a", "b"]);
    assert_eq!(contents(watcher.dequeue_batch(2)), vec!["c"]);
    assert!(matches!(watcher.dequeue_batch(2), Batch::Closed));
    assert!(matches!(watcher.dequeue_batch(2), Batch::Closed));
}

#[test]
fn closing_twice_is_closing_once() {
    let mut watcher = queue_for(1);
    assert!(watcher.enqueue(queue_message(2, "a", 1)).is_ok());
    watcher.close();
    watcher.close();
    assert_eq!(contents(watcher.dequeue_batch(16)), vec!["a"]);
    assert!(matches!(watcher.dequeue_batch(16), Batch::Closed));
}

#[test]
fn many_messages_are_neither_lost_nor_doubled() {
    let mut watcher = queue_for(1);
    for n in 0..100u64 {
        assert!(watcher.enqueue(queue_message(n + 1, &n.to_string(), n as i64)).is_ok());
    }
    let mut seen: Vec<String> = Vec::new();
    loop {
        match watcher.dequeue_batch(16) {
            Batch::Messages(items) => {
                assert!(!items.is_empty());
                assert!(items.len() <= 16);
                for item in items {
                    seen.push(item.content().to_string());
                }
            }
            Batch::Empty => break,
            Batch::Closed => panic!("the queue was never closed"),
        }
    }
    let expected: Vec<String> = (0..100u64).map(|n| n.to_string()).collect();
    assert_eq!(seen, expected);
}
