//! A thread-safe memory pool that hands out reusable values.
//!
//! [`Pool`] serves the first thread that touches it a pre-built value without
//! taking any lock, and every other thread a value of its own behind a lock.
//! [`SharedPool`] keeps one stack of spares that any thread takes from and
//! gives back to through a [`Guard`].

pub mod affinity;
pub mod cache;
pub mod general;
pub mod pool;
pub mod spares;
pub mod stock;

pub use general::{Guard, SharedPool};
pub use pool::Pool;
