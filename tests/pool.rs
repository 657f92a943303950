use bytes::BytesMut;
use rust_media_server::pool::{recycle, MemoryPool};

#[test]
fn test_memory_pool() {
    let pool = MemoryPool::new(1024 * 1024, 64 * 1024);

    let buffer1 = pool.acquire();
    assert_eq!(buffer1.capacity(), 64 * 1024);

    pool.release(buffer1);
    let buffer2 = pool.acquire();
    assert_eq!(buffer2.capacity(), 64 * 1024);
}

#[test]
fn pool_release_clears_contents() {
    let pool = MemoryPool::new(64, 64);
    assert_eq!(pool.initial_buffers(), 1);
    let mut buffer = pool.acquire();
    buffer.extend_from_slice(b"stale data");
    pool.release(buffer);
    let again = pool.acquire();
    assert_eq!(again.len(), 0);
    assert!(again.capacity() >= 64);
}

#[test]
fn pool_cycles_keep_capacity() {
    let pool = MemoryPool::new(0, 4096);
    for _ in 0..10 {
        let mut b = pool.acquire();
        assert!(b.capacity() >= 4096);
        assert_eq!(b.len(), 0);
        b.extend_from_slice(&[1, 2, 3]);
        pool.release(b);
    }
}

#[test]
fn pool_empty_allocates_fresh() {
    let pool = MemoryPool::new(100, 1000);
    assert_eq!(pool.initial_buffers(), 0);
    let b = pool.acquire();
    assert!(b.capacity() >= 1000);
}

#[test]
fn recycle_drops_shrunk_buffer() {
    let small = BytesMut::with_capacity(16);
    assert!(recycle(small, 1024).is_none());
    let mut big = BytesMut::with_capacity(2048);
    big.extend_from_slice(b"abc");
    let kept = recycle(big, 1024).unwrap();
    assert_eq!(kept.len(), 0);
    assert!(kept.capacity() >= 2048);
}
