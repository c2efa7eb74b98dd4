//! The pool itself: a lock-protected LIFO stack of spare values.

use vstd::prelude::*;

use crate::lock;
use crate::reusable::{Reusable, ReusableOwned};
use std::sync::Arc;

verus! {

/// A thread-safe store of reusable values.
///
/// The values sit on a stack behind a mutex; pulls pop the top and attaches
/// push onto it, so the most recently returned value is the next one handed
/// out.  The stack is shared between threads and may change between any two
/// calls on the same pool, so the contracts here speak of the guards handed
/// out, not of the stack's contents; the stack discipline itself is stated
/// and proved in `model`.
#[verifier::reject_recursive_types(T)]
pub struct Pool<T> {
    objects: parking_lot::Mutex<Vec<T>>,
}

impl<T> Pool<T> {
    /// Builds a pool holding `cap` values, each made by one call of `init`.
    /// `cap` may be zero; the pool is then empty until values are attached.
    pub fn new<F: Fn() -> T>(cap: usize, init: F) -> (pool: Pool<T>)
        requires
            call_requires(init, ()),
    {
        let mut items: Vec<T> = Vec::new();
        let mut i: usize = 0;
        while i < cap
            invariant
                i <= cap,
                items@.len() == i as int,
                call_requires(init, ()),
                forall|j: int|
                    0 <= j < items@.len() ==> call_ensures(init, (), #[trigger] items@[j]),
            decreases cap - i,
        {
            items.push(init());
            i = i + 1;
        }
        Pool { objects: lock::mutex_new(items) }
    }

    /// Wraps an existing vector as the stack, in order: the last element of
    /// the vector is the top of the stack and the first value pulled.
    pub fn from_vec(v: Vec<T>) -> Pool<T> {
        Pool { objects: lock::mutex_new(v) }
    }

    /// How many spare values the stack held at the instant the lock was
    /// taken.  Another thread may pull or attach immediately afterwards, so
    /// the answer can be stale by the time the caller sees it.
    pub fn len(&self) -> usize {
        lock::lock_len(&self.objects)
    }

    /// Whether the stack held no spare value at the instant the lock was
    /// taken; stale in the same way as `len`.
    pub fn is_empty(&self) -> bool {
        self.len() == 0
    }

    /// Pops the top of the stack and wraps it in a borrowed guard, or
    /// returns `None` when the pool is saturated.  Never blocks on an empty
    /// pool and never builds a new value.
    pub fn try_pull(&self) -> (r: Option<Reusable<'_, T>>)
        ensures
            r matches Some(g) ==> g.wf() && g.pool_of() == *self,
    {
        match lock::lock_pop(&self.objects) {
            Some(data) => Some(Reusable::new(self, data)),
            None => None,
        }
    }

    /// Wraps what a pull of the stack yielded: the pulled value when there
    /// was one, and a value freshly built by `fallback` when the stack had
    /// none to give.  `pull` hands this function the outcome of its pop.
    pub fn wrap_or_build<F: Fn() -> T>(&self, pulled: Option<T>, fallback: F) -> (r: Reusable<
        '_,
        T,
    >)
        requires
            pulled is None ==> call_requires(fallback, ()),
        ensures
            r.wf(),
            r.pool_of() == *self,
            pulled matches Some(t) ==> r.value() == t,
            pulled is None ==> call_ensures(fallback, (), r.value()),
    {
        match pulled {
            Some(t) => Reusable::new(self, t),
            None => Reusable::new(self, fallback()),
        }
    }

    /// Like `try_pull`, but on a saturated pool the guard wraps a value
    /// freshly built by `fallback`.  The new value is not counted by the
    /// pool until the guard is dropped or the value attached.
    pub fn pull<F: Fn() -> T>(&self, fallback: F) -> (r: Reusable<'_, T>)
        requires
            call_requires(fallback, ()),
        ensures
            r.wf(),
            r.pool_of() == *self,
    {
        let pulled = lock::lock_pop(&self.objects);
        self.wrap_or_build(pulled, fallback)
    }

    /// Like `try_pull`, but for a pool behind a shared handle: the guard
    /// holds its own handle to the pool and may outlive this call frame.
    pub fn try_pull_owned(self: &Arc<Self>) -> (r: Option<ReusableOwned<T>>)
        ensures
            r matches Some(g) ==> g.wf() && g.pool_of() == *self,
    {
        match lock::lock_pop(&(**self).objects) {
            Some(data) => Some(ReusableOwned::new(lock::arc_clone(self), data)),
            None => None,
        }
    }

    /// As `wrap_or_build`, for the owned guard: wraps what a pull of the
    /// stack yielded, falling back to a freshly built value.
    pub fn wrap_or_build_owned<F: Fn() -> T>(self: &Arc<Self>, pulled: Option<T>, fallback: F) -> (r:
        ReusableOwned<T>)
        requires
            pulled is None ==> call_requires(fallback, ()),
        ensures
            r.wf(),
            r.pool_of() == *self,
            pulled matches Some(t) ==> r.value() == t,
            pulled is None ==> call_ensures(fallback, (), r.value()),
    {
        match pulled {
            Some(t) => ReusableOwned::new(lock::arc_clone(self), t),
            None => ReusableOwned::new(lock::arc_clone(self), fallback()),
        }
    }

    /// Like `pull`, but returns an owned guard, as `try_pull_owned` does.
    pub fn pull_owned<F: Fn() -> T>(self: &Arc<Self>, fallback: F) -> (r: ReusableOwned<T>)
        requires
            call_requires(fallback, ()),
        ensures
            r.wf(),
            r.pool_of() == *self,
    {
        let pulled = lock::lock_pop(&(**self).objects);
        self.wrap_or_build_owned(pulled, fallback)
    }

    /// Places the value on top of the stack: the pool then holds one more
    /// value, and that value is the next one pulled.  Used both by the
    /// guards' automatic return and for manual reattachment after `detach`.
    pub fn attach(&self, t: T)
        opens_invariants none
        no_unwind
    {
        lock::lock_push(&self.objects, t);
    }
}

} // verus!
