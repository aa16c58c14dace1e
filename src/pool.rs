//! The thread-affine pool: a pre-built value for the thread that touches the
//! pool first, and one lazily built value per other thread behind a lock.

use crate::affinity::{observe_claim, route, step, Action, Route, UNOWNED};
use crate::cache::Cache;
use std::sync::atomic::{AtomicUsize, Ordering};
use std::sync::Arc;
use vstd::prelude::*;
use vstd::rwlock::RwLock;

verus! {

/// Every value in `m` was produced by `create`.
pub open spec fn built_by<T, F: Fn() -> T>(create: F, m: Map<usize, Arc<T>>) -> bool {
    forall|k: usize| #[trigger] m.contains_key(k) ==> create.ensures((), *m[k])
}

/// A fast memory pool.
///
/// A pool is `Sync` where its values and its initialization function are:
/// values are handed out as `Arc<T>`, so a pool of values that are not
/// `Sync` (such as a `RefCell`) cannot be shared between threads.
#[verifier::reject_recursive_types(T)]
pub struct Pool<T, F: Fn() -> T> {
    create: F,
    owner: AtomicUsize,
    owner_val: Arc<T>,
    global: RwLock<Cache<T>, spec_fn(Cache<T>) -> bool>,
}

impl<T, F: Fn() -> T> Pool<T, F> {
    #[verifier::type_invariant]
    spec fn wf(self) -> bool {
        &&& self.create.requires(())
        &&& self.create.ensures((), *self.owner_val)
        &&& forall|c: Cache<T>| #[trigger] self.global.inv(c) <==> built_by(self.create, c@)
    }

    /// The initialization function that the pool was made with.
    pub closed spec fn constructor(&self) -> F {
        self.create
    }

    /// The value reserved for the pool's owner thread.
    pub closed spec fn owner_value(&self) -> T {
        *self.owner_val
    }

    /// Create a new memory pool with the given initialization function. The
    /// function is called once, to build the owner's value.
    pub fn new(create: F) -> (p: Self)
        requires
            create.requires(()),
        ensures
            p.constructor() == create,
            create.ensures((), p.owner_value()),
    {
        let v = create();
        let ghost pred = |c: Cache<T>| built_by(create, c@);
        let global = RwLock::new(Cache::new(), Ghost(pred));
        Pool { create, owner: AtomicUsize::new(UNOWNED), owner_val: Arc::new(v), global }
    }

    /// Get a value from the pool for the thread whose identity is `id`.
    ///
    /// The thread that holds the owner slot, or claims it while it is free,
    /// is served the owner's value with no lock taken. Any other thread is
    /// served the value kept for its identity in the mapping, built with the
    /// initialization function on its first access. Each decision is made by
    /// [`route`], [`observe_claim`] and [`step`], whose results follow the
    /// model [`access`](crate::affinity::access); which branch a call takes
    /// depends on other threads, so this contract says only where the value
    /// came from.
    pub fn get(&self, id: usize) -> (r: Arc<T>)
        requires
            id != UNOWNED,
        ensures
            self.constructor().ensures((), *r),
    {
        proof {
            use_type_invariant(self);
        }
        let seen = self.owner.load(Ordering::Relaxed);
        match route(seen, id) {
            Route::Owner => self.owner_val.clone(),
            _ => self.get_slow(seen, id),
        }
    }

    fn get_slow(&self, seen: usize, id: usize) -> (r: Arc<T>)
        ensures
            self.constructor().ensures((), *r),
    {
        proof {
            use_type_invariant(self);
        }
        let observed = if route(seen, id) == Route::Claim {
            observe_claim(
                self.owner.compare_exchange(UNOWNED, id, Ordering::Relaxed, Ordering::Relaxed),
            )
        } else {
            seen
        };
        let cached = if route(observed, id) == Route::Fallback {
            let read = self.global.acquire_read();
            let found = read.borrow().lookup(id);
            read.release_read();
            found
        } else {
            None
        };
        self.serve(step(observed, id, cached.is_some()), id, cached)
    }

    /// Carries out the action `a` for thread `id`, where `cached` is what
    /// its lookup in the mapping found. A value built here is published
    /// under `id` unless the mapping has one for `id` by then, which is
    /// served instead; the constructor runs outside the lock.
    pub fn serve(&self, a: Action, id: usize, cached: Option<Arc<T>>) -> (r: Arc<T>)
        requires
            a == Action::ServeCached ==> cached is Some,
            cached is Some ==> self.constructor().ensures((), *cached.unwrap()),
        ensures
            a == Action::ServeOwner ==> *r == self.owner_value(),
            a == Action::ServeCached ==> r == cached.unwrap(),
            self.constructor().ensures((), *r),
    {
        proof {
            use_type_invariant(self);
        }
        match a {
            Action::ServeOwner => self.owner_val.clone(),
            Action::ServeCached => cached.unwrap(),
            Action::Build => {
                let v = Arc::new((self.create)());
                let (mut cache, write) = self.global.acquire_write();
                let r = cache.publish(id, v);
                write.release_write(cache);
                r
            },
        }
    }
}

} // verus!
