//! The two guard types: they hold one value each and return it to the pool
//! when they go out of scope, unless `detach` took the value out first.

use vstd::prelude::*;

use crate::pool::Pool;
use std::sync::Arc;

verus! {

/// A borrowed guard: one value pulled from (or handed to) a pool, plus a
/// reference to that pool.  On scope exit the value is attached back; both
/// `detach` and the return consume the guard, so the return fires exactly
/// once, and never after a detach.
#[verifier::reject_recursive_types(T)]
pub struct Reusable<'a, T> {
    pool: &'a Pool<T>,
    data: Option<T>,
}

impl<'a, T> Reusable<'a, T> {
    /// A guard is live while it still holds its value.  Every guard a
    /// caller can reach is live: the value only leaves through `detach` or
    /// the return on scope exit, and each of those consumes the guard.
    pub closed spec fn wf(self) -> bool {
        self.data is Some
    }

    /// The value the guard holds.
    pub closed spec fn value(self) -> T {
        self.data->Some_0
    }

    /// The pool the value returns to.
    pub closed spec fn pool_of(self) -> Pool<T> {
        *self.pool
    }

    /// Wraps a value under a new guard: on scope exit the value is attached
    /// to `pool`, whether or not it was pulled from there.
    pub fn new(pool: &'a Pool<T>, t: T) -> (r: Self)
        ensures
            r.wf(),
            r.value() == t,
            r.pool_of() == *pool,
    {
        Reusable { pool, data: Some(t) }
    }

    /// Takes the value out, unchanged, and hands it to the caller together
    /// with the pool reference.  The automatic return is thereby disabled:
    /// the pool holds one value fewer until the caller attaches it again,
    /// and permanently if the caller never does.
    pub fn detach(self) -> (r: (&'a Pool<T>, T))
        requires
            self.wf(),
        ensures
            r.1 == self.value(),
            *r.0 == self.pool_of(),
    {
        let mut this = self;
        let pool = this.pool;
        let mut taken: Option<T> = None;
        core::mem::swap(&mut taken, &mut this.data);
        match taken {
            Some(t) => (pool, t),
            None => unreached(),
        }
    }

    /// Read access to the held value.
    pub fn get(&self) -> (r: &T)
        requires
            self.wf(),
        ensures
            *r == self.value(),
    {
        match &self.data {
            Some(t) => t,
            None => unreached(),
        }
    }

    /// Write access to the held value; the guard returns whatever the
    /// caller leaves behind the reference.
    pub fn get_mut(&mut self) -> (r: &mut T)
        requires
            old(self).wf(),
        ensures
            *r == old(self).value(),
            final(self).wf(),
            final(self).value() == *final(r),
            final(self).pool_of() == old(self).pool_of(),
    {
        match &mut self.data {
            Some(t) => t,
            None => unreached(),
        }
    }
}

impl<'a, T> Drop for Reusable<'a, T> {
    /// The automatic return: a guard still holding its value attaches it to
    /// the pool; a detached guard holds nothing and attaches nothing.
    fn drop(&mut self)
        opens_invariants none
        no_unwind
    {
        let mut taken: Option<T> = None;
        core::mem::swap(&mut taken, &mut self.data);
        if let Some(t) = taken {
            self.pool.attach(t);
        }
    }
}

/// An owned guard: like `Reusable`, but it holds a shared handle to the
/// pool instead of a borrowed reference, so it can be moved across threads
/// or stored beyond the frame that pulled it.
#[verifier::reject_recursive_types(T)]
pub struct ReusableOwned<T> {
    pool: Option<Arc<Pool<T>>>,
    data: Option<T>,
}

impl<T> ReusableOwned<T> {
    /// As for `Reusable`: every guard a caller can reach still holds both
    /// its value and its pool handle.
    pub closed spec fn wf(self) -> bool {
        self.data is Some && self.pool is Some
    }

    /// The value the guard holds.
    pub closed spec fn value(self) -> T {
        self.data->Some_0
    }

    /// The shared handle to the pool the value returns to.
    pub closed spec fn pool_of(self) -> Arc<Pool<T>> {
        self.pool->Some_0
    }

    /// Wraps a value under a new owned guard: on scope exit the value is
    /// attached to the pool behind `pool`.
    pub fn new(pool: Arc<Pool<T>>, t: T) -> (r: Self)
        ensures
            r.wf(),
            r.value() == t,
            r.pool_of() == pool,
    {
        ReusableOwned { pool: Some(pool), data: Some(t) }
    }

    /// Takes the value out, unchanged, and hands it to the caller together
    /// with the shared pool handle, disabling the automatic return exactly
    /// as `Reusable::detach` does.
    pub fn detach(self) -> (r: (Arc<Pool<T>>, T))
        requires
            self.wf(),
        ensures
            r.1 == self.value(),
            r.0 == self.pool_of(),
    {
        let mut this = self;
        let mut pool_taken: Option<Arc<Pool<T>>> = None;
        let mut data_taken: Option<T> = None;
        core::mem::swap(&mut pool_taken, &mut this.pool);
        core::mem::swap(&mut data_taken, &mut this.data);
        match (pool_taken, data_taken) {
            (Some(p), Some(t)) => (p, t),
            _ => unreached(),
        }
    }

    /// Read access to the held value.
    pub fn get(&self) -> (r: &T)
        requires
            self.wf(),
        ensures
            *r == self.value(),
    {
        match &self.data {
            Some(t) => t,
            None => unreached(),
        }
    }

    /// Write access to the held value; the guard returns whatever the
    /// caller leaves behind the reference.
    pub fn get_mut(&mut self) -> (r: &mut T)
        requires
            old(self).wf(),
        ensures
            *r == old(self).value(),
            final(self).wf(),
            final(self).value() == *final(r),
            final(self).pool_of() == old(self).pool_of(),
    {
        match &mut self.data {
            Some(t) => t,
            None => unreached(),
        }
    }
}

impl<T> Drop for ReusableOwned<T> {
    /// The automatic return, as for `Reusable`; the shared pool handle is
    /// released afterwards, when the guard's fields are dropped.
    fn drop(&mut self)
        opens_invariants none
        no_unwind
    {
        let mut taken: Option<T> = None;
        core::mem::swap(&mut taken, &mut self.data);
        if let Some(t) = taken {
            match &self.pool {
                Some(p) => (**p).attach(t),
                None => {},
            }
        }
    }
}

} // verus!
