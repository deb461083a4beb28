use bot_relay::buffer::PendingBuffer;
use bot_relay::pool::ConnectionPool;

#[test]
fn new_buffer_is_empty() {
    let mut buffer = PendingBuffer::new();
    assert!(buffer.is_empty());
    assert_eq!(buffer.len(), 0);
    assert_eq!(buffer.take_next(), None);
    assert!(buffer.is_empty());
}

#[test]
fn buffer_hands_out_in_arrival_order() {
    let mut buffer = PendingBuffer::new();
    buffer.enqueue("a".to_string());
    buffer.enqueue("b".to_string());
    buffer.enqueue("c".to_string());
    assert_eq!(buffer.len(), 3);
    assert!(!buffer.is_empty());
    assert_eq!(buffer.take_next(), Some("a".to_string()));
    assert_eq!(buffer.take_next(), Some("b".to_string()));
    assert_eq!(buffer.len(), 1);
    assert_eq!(buffer.take_next(), Some("c".to_string()));
    assert_eq!(buffer.take_next(), None);
}

#[test]
fn requeued_message_is_taken_next() {
    let mut buffer = PendingBuffer::new();
    buffer.enqueue("a".to_string());
    buffer.enqueue("b".to_string());
    let taken = buffer.take_next().unwrap();
    buffer.enqueue("c".to_string());
    buffer.requeue(taken);
    assert_eq!(buffer.len(), 3);
    assert_eq!(buffer.take_next(), Some("a".to_string()));
    assert_eq!(buffer.take_next(), Some("b".to_string()));
    assert_eq!(buffer.take_next(), Some("c".to_string()));
    assert_eq!(buffer.take_next(), None);
}

#[test]
fn requeue_into_empty_buffer() {
    let mut buffer = PendingBuffer::new();
    buffer.requeue("only".to_string());
    assert_eq!(buffer.len(), 1);
    assert_eq!(buffer.take_next(), Some("only".to_string()));
    assert!(buffer.is_empty());
}

#[test]
fn buffer_keeps_equal_messages_apart() {
    let mut buffer = PendingBuffer::new();
    buffer.enqueue("same".to_string());
    buffer.enqueue("same".to_string());
    assert_eq!(buffer.len(), 2);
    assert_eq!(buffer.take_next(), Some("same".to_string()));
    assert_eq!(buffer.len(), 1);
}

#[test]
fn new_pool_is_empty() {
    let mut pool: ConnectionPool<u32> = ConnectionPool::new();
    assert!(pool.is_empty());
    assert_eq!(pool.len(), 0);
    assert_eq!(pool.active(), None);
    pool.evict_active();
    assert!(pool.is_empty());
    assert_eq!(pool.active(), None);
}

#[test]
fn newest_registration_is_active() {
    let mut pool = ConnectionPool::new();
    pool.register(1u32);
    assert_eq!(pool.active(), Some(&1));
    pool.register(2u32);
    assert_eq!(pool.active(), Some(&2));
    pool.register(3u32);
    assert_eq!(pool.active(), Some(&3));
    assert_eq!(pool.len(), 3);
    assert!(!pool.is_empty());
}

#[test]
fn active_does_not_remove() {
    let mut pool = ConnectionPool::new();
    pool.register("ws".to_string());
    assert_eq!(pool.active(), Some(&"ws".to_string()));
    assert_eq!(pool.active(), Some(&"ws".to_string()));
    assert_eq!(pool.len(), 1);
}

#[test]
fn eviction_promotes_the_next_most_recent() {
    let mut pool = ConnectionPool::new();
    pool.register(1u32);
    pool.register(2u32);
    pool.register(3u32);
    pool.evict_active();
    assert_eq!(pool.active(), Some(&2));
    assert_eq!(pool.len(), 2);
    pool.register(4u32);
    assert_eq!(pool.active(), Some(&4));
    pool.evict_active();
    pool.evict_active();
    assert_eq!(pool.active(), Some(&1));
    pool.evict_active();
    assert_eq!(pool.active(), None);
    assert!(pool.is_empty());
}

#[test]
fn pool_keeps_equal_handles_apart() {
    let mut pool = ConnectionPool::new();
    pool.register(7u32);
    pool.register(7u32);
    assert_eq!(pool.len(), 2);
    pool.evict_active();
    assert_eq!(pool.len(), 1);
    assert_eq!(pool.active(), Some(&7));
}
