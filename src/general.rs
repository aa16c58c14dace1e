//! The general pool: one shared stack of spares behind a lock, from which
//! any thread takes a value and to which it gives the value back.

use crate::spares::Spares;
use vstd::prelude::*;
use vstd::rwlock::RwLock;

verus! {

/// Every value in `s` was produced by `create`.
pub open spec fn all_built_by<T, F: Fn() -> T>(create: F, s: Seq<T>) -> bool {
    forall|i: int| 0 <= i < s.len() ==> create.ensures((), #[trigger] s[i])
}

/// A pool of reusable values, shared by any number of threads. It grows to
/// as many values as were out at once, and never shrinks.
#[verifier::reject_recursive_types(T)]
pub struct SharedPool<T, F: Fn() -> T> {
    create: F,
    spares: RwLock<Spares<T>, spec_fn(Spares<T>) -> bool>,
}

/// A value taken from a [`SharedPool`], owned by its holder alone until it
/// is given back with [`Guard::release`]. A guard dropped without release
/// keeps its value from the pool, which builds another when it runs short.
#[verifier::reject_recursive_types(T)]
pub struct Guard<'a, T, F: Fn() -> T> {
    pool: &'a SharedPool<T, F>,
    value: T,
}

impl<T, F: Fn() -> T> SharedPool<T, F> {
    #[verifier::type_invariant]
    spec fn wf(self) -> bool {
        &&& self.create.requires(())
        &&& forall|s: Spares<T>| #[trigger] self.spares.inv(s) <==> all_built_by(self.create, s@)
    }

    /// The initialization function that the pool was made with.
    pub closed spec fn constructor(&self) -> F {
        self.create
    }

    /// A pool with no spares, which builds its values with `create`.
    pub fn new(create: F) -> (p: Self)
        requires
            create.requires(()),
        ensures
            p.constructor() == create,
    {
        let ghost pred = |s: Spares<T>| all_built_by(create, s@);
        let spares = RwLock::new(Spares::new(), Ghost(pred));
        SharedPool { create, spares }
    }

    /// Takes the most recently returned spare, or builds a new value where
    /// there is none. The constructor runs outside the lock.
    pub fn acquire(&self) -> (g: Guard<'_, T, F>)
        ensures
            g.pool() == *self,
            self.constructor().ensures((), g@),
    {
        proof {
            use_type_invariant(self);
        }
        let (mut spares, handle) = self.spares.acquire_write();
        let ghost before = spares@;
        let top = spares.pop();
        proof {
            if before.len() > 0 {
                assert(self.constructor().ensures((), before[before.len() - 1]));
            }
        }
        handle.release_write(spares);
        let value = self.reuse_or_build(top);
        Guard { pool: self, value }
    }

    /// The spare `top` taken from the stack, or a new value where the stack
    /// had none.
    pub fn reuse_or_build(&self, top: Option<T>) -> (v: T)
        requires
            top is Some ==> self.constructor().ensures((), top.unwrap()),
        ensures
            top is Some ==> v == top.unwrap(),
            self.constructor().ensures((), v),
    {
        proof {
            use_type_invariant(self);
        }
        match top {
            Some(v) => v,
            None => (self.create)(),
        }
    }

    /// Pushes `v` onto the spares.
    fn put(&self, v: T)
        requires
            self.constructor().ensures((), v),
    {
        proof {
            use_type_invariant(self);
        }
        let (mut spares, handle) = self.spares.acquire_write();
        spares.push(v);
        handle.release_write(spares);
    }
}

impl<'a, T, F: Fn() -> T> View for Guard<'a, T, F> {
    type V = T;

    closed spec fn view(&self) -> T {
        self.value
    }
}

impl<'a, T, F: Fn() -> T> Guard<'a, T, F> {
    #[verifier::type_invariant]
    spec fn wf(self) -> bool {
        self.pool.constructor().ensures((), self.value)
    }

    /// The pool that the value came from.
    pub closed spec fn pool(&self) -> SharedPool<T, F> {
        *self.pool
    }

    /// The value held.
    pub fn value(&self) -> (r: &T)
        ensures
            *r == self@,
    {
        &self.value
    }

    /// Gives the value back to its pool. The guard is consumed, so a value
    /// goes back once.
    pub fn release(self) {
        proof {
            use_type_invariant(&self);
        }
        let Guard { pool, value } = self;
        pool.put(value);
    }
}

} // verus!
