use mempool::{Pool, SharedPool};

fn assert_sync<T: Sync>() {}

#[test]
fn pools_are_sync() {
    assert_sync::<Pool<String, Box<dyn Fn() -> String + Send + Sync>>>();
    assert_sync::<SharedPool<String, Box<dyn Fn() -> String + Send + Sync>>>();
}
