use lakgves::pool::ConnectionPool;
use lakgves::pool::connection_count_from_config;

#[test]
fn round_robin_fresh_counter_is_cyclic() {
    let mut pool = ConnectionPool::new(vec![10u64, 20u64, 30u64, 40u64]);
    let mut indices = Vec::new();
    for _ in 0..9 {
        indices.push(pool.get_stream_index());
    }
    assert_eq!(indices, vec![0, 1, 2, 3, 0, 1, 2, 3, 0]);
}

#[test]
fn pool_of_two_third_acquire_reuses_first() {
    let mut pool = ConnectionPool::new(vec![10u64, 20u64]);
    let a = pool.get_stream_index();
    let b = pool.get_stream_index();
    let c = pool.get_stream_index();
    assert_eq!((a, b, c), (0, 1, 0));
}

#[test]
fn get_stream_returns_selected_connection() {
    let mut pool = ConnectionPool::new(vec![10u64, 20u64]);
    assert_eq!(*pool.get_stream(), 10);
    assert_eq!(*pool.get_stream(), 20);
    assert_eq!(*pool.get_stream(), 10);
}

#[test]
fn pool_of_one_always_selects_it() {
    let mut pool = ConnectionPool::new(vec![77u8]);
    assert_eq!(pool.get_stream_index(), 0);
    assert_eq!(pool.get_stream_index(), 0);
    assert_eq!(*pool.get_stream(), 77);
}

#[test]
fn connection_count_accepts_only_positive_values() {
    assert_eq!(connection_count_from_config(1), Some(1));
    assert_eq!(connection_count_from_config(8), Some(8));
    assert_eq!(connection_count_from_config(0), None);
    assert_eq!(connection_count_from_config(-3), None);
    assert_eq!(connection_count_from_config(i64::MAX), Some(i64::MAX as usize));
}
