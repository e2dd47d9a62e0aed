use nyxs_owl::memory_optimized::{CacheOptimizedCircularBuffer, CompactPrice, MemoryPool, TIMESTAMP_EPOCH};

fn buffer_average(buffer: &CacheOptimizedCircularBuffer<f64>) -> f64 {
    if buffer.is_empty() {
        return 0.0;
    }
    let items = buffer.recent_slice(buffer.len());
    items.iter().map(|v| **v).sum::<f64>() / items.len() as f64
}

fn compact_price_new(price: f64, volume: u64, timestamp: u64) -> CompactPrice {
    CompactPrice::new_scaled((price * 10000.0).round() as u32, volume, timestamp)
}

fn compact_price_value(p: &CompactPrice) -> f64 {
    p.price_scaled() as f64 / 10000.0
}

#[test]
fn test_memory_pool() {
    let mut pool = MemoryPool::<f64>::new(100);

    let vec1 = pool.get();
    assert_eq!(vec1.capacity(), 100);

    pool.return_vec(vec1);
    assert_eq!(pool.pool_size(), 1);

    let vec2 = pool.get();
    assert_eq!(vec2.capacity(), 100);
    assert_eq!(pool.pool_size(), 0);
}

#[test]
fn test_compact_price() {
    let price = 123.4567;
    let volume = 5000;
    let timestamp = 1609459200;

    let compact = compact_price_new(price, volume, timestamp);

    assert!((compact_price_value(&compact) - 123.4567).abs() < 1e-4);
    assert_eq!(compact.volume(), volume);
    assert_eq!(compact.timestamp(), timestamp);

    assert!(CompactPrice::memory_size() < 16);
}

#[test]
fn test_circular_buffer() {
    let mut buffer = CacheOptimizedCircularBuffer::new(3);

    buffer.push(1.0f64);
    buffer.push(2.0f64);
    buffer.push(3.0f64);

    assert_eq!(buffer.len(), 3);
    assert!(buffer.is_full());

    buffer.push(4.0f64);
    assert_eq!(buffer.len(), 3);

    let avg = buffer_average(&buffer);
    assert!((avg - 3.0).abs() < 1e-6);
}

#[test]
fn memory_pool_drops_oversized_and_clears() {
    let mut pool = MemoryPool::<u8>::new(4);
    assert!(pool.keeps(8));
    assert!(!pool.keeps(9));
    let big: Vec<u8> = Vec::with_capacity(64);
    pool.return_vec(big);
    assert_eq!(pool.pool_size(), 0);
    let mut small = pool.get();
    small.push(1);
    pool.return_vec(small);
    assert_eq!(pool.pool_size(), 1);
    let again = pool.get();
    assert!(again.is_empty());
    pool.return_vec(again);
    pool.clear();
    assert_eq!(pool.pool_size(), 0);
}

#[test]
fn compact_price_saturates() {
    let p = CompactPrice::new_scaled(7, u64::MAX, TIMESTAMP_EPOCH + (u32::MAX as u64) + 10);
    assert_eq!(p.volume(), u32::MAX as u64);
    assert_eq!(p.timestamp(), TIMESTAMP_EPOCH + u32::MAX as u64);
    assert_eq!(p.price_scaled(), 7);
    let q = CompactPrice::new_scaled(0, 12, TIMESTAMP_EPOCH);
    assert_eq!(q.timestamp(), TIMESTAMP_EPOCH);
    assert_eq!(q.volume(), 12);
}

#[test]
fn circular_buffer_keeps_last_window() {
    let mut b: CacheOptimizedCircularBuffer<u64> = CacheOptimizedCircularBuffer::new(3);
    assert!(b.is_empty());
    assert_eq!(b.sum(), 0);
    for x in 1..=7u64 {
        b.push(x);
    }
    let recent: Vec<u64> = b.recent_slice(10).into_iter().copied().collect();
    assert_eq!(recent, vec![5, 6, 7]);
    let two: Vec<u64> = b.recent_slice(2).into_iter().copied().collect();
    assert_eq!(two, vec![6, 7]);
    assert_eq!(b.sum(), 18);
    assert!(b.recent_slice(0).is_empty());
}

#[test]
fn circular_buffer_partial_fill() {
    let mut b: CacheOptimizedCircularBuffer<i32> = CacheOptimizedCircularBuffer::new(4);
    b.push(10);
    b.push(-3);
    assert_eq!(b.len(), 2);
    assert!(!b.is_full());
    let all: Vec<i32> = b.recent_slice(5).into_iter().copied().collect();
    assert_eq!(all, vec![10, -3]);
    assert_eq!(b.sum(), 7);
    let zero: CacheOptimizedCircularBuffer<i32> = CacheOptimizedCircularBuffer::new(0);
    assert_eq!(zero.len(), 0);
    assert!(zero.is_empty());
}

#[test]
fn memory_pool_hands_back_most_recent() {
    let mut pool = MemoryPool::<u32>::new(4);
    let first: Vec<u32> = Vec::with_capacity(2);
    let second: Vec<u32> = Vec::with_capacity(8);
    pool.return_vec(first);
    pool.return_vec(second);
    assert_eq!(pool.pool_size(), 2);
    let got = pool.get();
    assert!(got.capacity() >= 8);
    assert!(got.is_empty());
    let next = pool.get();
    assert!(next.capacity() >= 2 && next.capacity() < 8);
    assert_eq!(pool.pool_size(), 0);
}

#[test]
fn memory_pool_keep_returned_by_capacity() {
    let mut pool = MemoryPool::<u8>::new(4);
    pool.keep_returned(Vec::new(), 9);
    assert_eq!(pool.pool_size(), 0);
    pool.keep_returned(Vec::with_capacity(5), 8);
    assert_eq!(pool.pool_size(), 1);
    let v = pool.get();
    assert!(v.capacity() >= 5);
    assert_eq!(pool.pool_size(), 0);
}

#[test]
fn circular_buffer_sum_of_window() {
    let mut buffer = CacheOptimizedCircularBuffer::new(3);
    for x in [1.0f64, 2.0, 3.0, 4.0] {
        buffer.push(x);
    }
    assert_eq!(buffer.sum(), 9.0);
    assert!(buffer.is_full());
    assert_eq!(buffer.len(), 3);
    let mut c: CacheOptimizedCircularBuffer<u64> = CacheOptimizedCircularBuffer::new(4);
    for k in 1..=3u64 {
        c.push(k);
        assert_eq!(c.len() as u64, k);
        assert!(!c.is_full());
    }
    c.push(4);
    assert!(c.is_full());
}
