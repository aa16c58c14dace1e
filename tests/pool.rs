use mempool::affinity::{observe_claim, route, step, Action, Route};
use mempool::cache::Cache;
use mempool::spares::Spares;
use mempool::{Pool, SharedPool};
use std::sync::atomic::AtomicUsize;
use std::sync::atomic::Ordering::SeqCst;
use std::sync::Arc;

#[derive(Debug, Eq, PartialEq)]
struct Dummy(usize);

type CreateFn<T> = Box<dyn Fn() -> T + Send + Sync + 'static>;

fn dummy() -> CreateFn<Dummy> {
    let count = AtomicUsize::new(0);
    Box::new(move || Dummy(count.fetch_add(1, SeqCst)))
}

#[test]
fn empty() {
    let pool = Pool::new(dummy());
    assert_eq!(&Dummy(0), &*pool.get(1));
}

#[test]
fn reuse() {
    // Multiple accesses from the same thread don't create new values.
    let pool = Pool::new(dummy());
    {
        assert_eq!(&Dummy(0), &*pool.get(1));
    }
    assert_eq!(&Dummy(0), &*pool.get(1));
    assert_eq!(&Dummy(0), &*pool.get(1));
}

#[test]
fn no_reuse() {
    // A pool's values aren't shared between threads: the init function is
    // called when another thread identity asks for a value.
    let pool = Arc::new(Pool::new(dummy()));
    let val = pool.get(1);
    assert_eq!(&Dummy(0), &*val);

    let pool2 = pool.clone();
    assert_eq!(&Dummy(1), &*pool2.get(2));
}

#[test]
fn each_thread_keeps_its_value() {
    let pool = Pool::new(dummy());
    assert_eq!(&Dummy(0), &*pool.get(7));
    assert_eq!(&Dummy(1), &*pool.get(3));
    assert_eq!(&Dummy(2), &*pool.get(4));
    assert_eq!(&Dummy(1), &*pool.get(3));
    assert_eq!(&Dummy(0), &*pool.get(7));
    assert_eq!(&Dummy(2), &*pool.get(4));
}

#[test]
fn owner_value_is_shared_by_owner_calls_only() {
    let pool = Pool::new(dummy());
    let a = pool.get(5);
    let b = pool.get(5);
    let c = pool.get(6);
    assert!(Arc::ptr_eq(&a, &b));
    assert!(!Arc::ptr_eq(&a, &c));
    assert!(Arc::ptr_eq(&c, &pool.get(6)));
}

#[test]
fn routes() {
    assert_eq!(route(4, 4), Route::Owner);
    assert_eq!(route(0, 4), Route::Claim);
    assert_eq!(route(3, 4), Route::Fallback);
}

#[test]
fn cache_publish_keeps_first_value() {
    let mut cache: Cache<u32> = Cache::new();
    assert!(cache.lookup(2).is_none());
    assert_eq!(*cache.publish(2, Arc::new(10)), 10);
    assert_eq!(*cache.publish(2, Arc::new(20)), 10);
    assert_eq!(cache.lookup(2).map(|v| *v), Some(10));
    assert!(cache.lookup(3).is_none());
}

#[test]
fn spares_are_last_in_first_out() {
    let mut s = Spares::new();
    assert_eq!(s.pop(), None);
    s.push(1u8);
    s.push(2u8);
    assert_eq!(s.len(), 2);
    assert_eq!(s.pop(), Some(2));
    assert_eq!(s.pop(), Some(1));
    assert_eq!(s.pop(), None);
    assert_eq!(s.len(), 0);
}

#[test]
fn shared_reuse_then_growth() {
    let pool = SharedPool::new(dummy());
    let g = pool.acquire();
    assert_eq!(&Dummy(0), g.value());
    g.release();
    let first = pool.acquire();
    assert_eq!(&Dummy(0), first.value());
    let second = pool.acquire();
    assert_eq!(&Dummy(1), second.value());
    assert_eq!(&Dummy(0), first.value());
    first.release();
    second.release();
}

#[test]
fn shared_single_thread_builds_once() {
    let pool = SharedPool::new(dummy());
    for _ in 0..10 {
        let g = pool.acquire();
        assert_eq!(&Dummy(0), g.value());
        g.release();
    }
}

#[test]
fn shared_values_out_are_distinct() {
    let pool = SharedPool::new(dummy());
    let a = pool.acquire();
    let b = pool.acquire();
    let c = pool.acquire();
    assert_eq!(&Dummy(0), a.value());
    assert_eq!(&Dummy(1), b.value());
    assert_eq!(&Dummy(2), c.value());
    a.release();
    c.release();
    // The most recently returned spare comes out first.
    let d = pool.acquire();
    let e = pool.acquire();
    let f = pool.acquire();
    assert_eq!(&Dummy(2), d.value());
    assert_eq!(&Dummy(0), e.value());
    assert_eq!(&Dummy(3), f.value());
    b.release();
    d.release();
    e.release();
    f.release();
}

#[test]
fn steps() {
    assert_eq!(step(4, 4, false), Action::ServeOwner);
    assert_eq!(step(0, 4, false), Action::ServeOwner);
    assert_eq!(step(3, 4, true), Action::ServeCached);
    assert_eq!(step(3, 4, false), Action::Build);
}

#[test]
fn claim_outcomes() {
    assert_eq!(observe_claim(Ok(0)), 0);
    assert_eq!(observe_claim(Err(6)), 6);
}

#[test]
fn serve_carries_out_each_action() {
    let pool = Pool::new(dummy());
    assert_eq!(&Dummy(0), &*pool.get(1));
    assert_eq!(&Dummy(0), &*pool.serve(Action::ServeOwner, 2, None));
    let kept = Arc::new(Dummy(40));
    assert_eq!(&Dummy(40), &*pool.serve(Action::ServeCached, 2, Some(kept)));
    assert_eq!(&Dummy(1), &*pool.serve(Action::Build, 2, None));
    assert_eq!(&Dummy(1), &*pool.get(2));
    // A value built once the mapping already holds one for the identity is
    // not published: the kept value is served.
    assert_eq!(&Dummy(1), &*pool.serve(Action::Build, 2, None));
    assert_eq!(&Dummy(1), &*pool.get(2));
}

#[test]
fn reuse_or_build_prefers_the_spare() {
    let pool = SharedPool::new(dummy());
    assert_eq!(pool.reuse_or_build(Some(Dummy(9))), Dummy(9));
    assert_eq!(pool.reuse_or_build(None), Dummy(0));
    assert_eq!(pool.reuse_or_build(None), Dummy(1));
}
