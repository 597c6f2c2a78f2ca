use runtime::mailbox::{Mailbox, RpcQueue, RPC_QUEUE_CAPACITY};

#[test]
fn new_mailbox_is_empty() {
    let mailbox = Mailbox::new();
    assert_eq!(mailbox.receive(), 0);
}

#[test]
fn receive_does_not_clear() {
    let mut mailbox = Mailbox::new();
    mailbox.send(0x4000_1000);
    assert_eq!(mailbox.receive(), 0x4000_1000);
    assert_eq!(mailbox.receive(), 0x4000_1000);
}

#[test]
fn receive_then_acknowledge_leaves_zero() {
    let mut mailbox = Mailbox::new();
    mailbox.send(0x4000_1000);
    assert_eq!(mailbox.receive(), 0x4000_1000);
    mailbox.acknowledge();
    assert_eq!(mailbox.receive(), 0);
}

#[test]
fn acknowledge_of_an_empty_mailbox_is_harmless() {
    let mut mailbox = Mailbox::new();
    mailbox.acknowledge();
    assert_eq!(mailbox.receive(), 0);
    mailbox.send(8);
    assert_eq!(mailbox.receive(), 8);
}

#[test]
fn try_send_refuses_an_occupied_mailbox() {
    let mut mailbox = Mailbox::new();
    assert!(mailbox.try_send(16));
    assert!(!mailbox.try_send(32));
    assert_eq!(mailbox.receive(), 16);
    mailbox.acknowledge();
    assert!(mailbox.try_send(32));
    assert_eq!(mailbox.receive(), 32);
}

#[test]
fn try_send_refuses_the_null_message() {
    let mut mailbox = Mailbox::new();
    assert!(!mailbox.try_send(0));
    assert_eq!(mailbox.receive(), 0);
}

#[test]
fn queue_is_first_in_first_out() {
    let mut queue = RpcQueue::new();
    assert!(queue.empty());
    assert_eq!(queue.dequeue(), None);
    assert_eq!(queue.enqueue(1), Ok(()));
    assert_eq!(queue.enqueue(2), Ok(()));
    assert_eq!(queue.enqueue(3), Ok(()));
    assert!(!queue.empty());
    assert_eq!(queue.dequeue(), Some(1));
    assert_eq!(queue.dequeue(), Some(2));
    assert_eq!(queue.dequeue(), Some(3));
    assert_eq!(queue.dequeue(), None);
}

#[test]
fn full_queue_hands_the_call_back() {
    let mut queue = RpcQueue::new();
    for call in 0..RPC_QUEUE_CAPACITY {
        assert!(!queue.full());
        assert_eq!(queue.enqueue(call + 1), Ok(()));
    }
    assert!(queue.full());
    assert_eq!(queue.enqueue(999), Err(999));
    assert_eq!(queue.dequeue(), Some(1));
    assert_eq!(queue.enqueue(999), Ok(()));
}

#[test]
fn queue_wraps_around() {
    let mut queue = RpcQueue::new();
    for round in 0..(3 * RPC_QUEUE_CAPACITY) {
        assert_eq!(queue.enqueue(round), Ok(()));
        assert_eq!(queue.enqueue(round + 1000), Ok(()));
        assert_eq!(queue.dequeue(), Some(round));
        assert_eq!(queue.dequeue(), Some(round + 1000));
    }
    assert!(queue.empty());
}

#[test]
fn pending_follows_the_slot() {
    let mut mailbox = Mailbox::new();
    assert!(!mailbox.pending());
    mailbox.send(4);
    assert!(mailbox.pending());
    mailbox.acknowledge();
    assert!(!mailbox.pending());
}
