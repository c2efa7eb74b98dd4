//! The trusted boundary around `parking_lot`.
//!
//! The pool keeps its stack of spare values inside a `parking_lot` mutex, so
//! every stack access in this crate goes through one of the small functions
//! below.  Each one acquires the lock, performs a single stack operation, and
//! releases the lock before returning.  The stack behind the lock is shared
//! between threads and may change between any two calls, so these functions
//! promise nothing about which values are present; the sequential behaviour
//! of the stack itself is stated and proved over the model in `model`.

use vstd::prelude::*;

verus! {

/// `parking_lot::Mutex` is an alias for this type of the `lock_api` crate.
#[verifier::external_type_specification]
#[verifier::external_body]
#[verifier::reject_recursive_types(R)]
#[verifier::reject_recursive_types(T)]
pub struct ExMutex<R, T: ?Sized>(lock_api::Mutex<R, T>);

/// The raw lock that `parking_lot` plugs into `lock_api::Mutex`.
#[verifier::external_type_specification]
#[verifier::external_body]
pub struct ExRawMutex(parking_lot::RawMutex);

/// Relies on `lock_api::Mutex::new`: wraps the vector as the initial stack
/// behind a fresh, unlocked mutex.
#[verifier::external_body]
pub(crate) fn mutex_new<T>(items: Vec<T>) -> parking_lot::Mutex<Vec<T>> {
    parking_lot::Mutex::new(items)
}

/// Relies on `lock_api::Mutex::lock` and `Vec::pop`: removes and returns the
/// top of the locked stack, or returns `None` when the stack is empty.
#[verifier::external_body]
pub(crate) fn lock_pop<T>(m: &parking_lot::Mutex<Vec<T>>) -> Option<T> {
    m.lock().pop()
}

/// Relies on `lock_api::Mutex::lock` and `Vec::push`: places the value on top
/// of the locked stack.  Neither call unwinds: the raw lock blocks or
/// deadlocks rather than fail, and growing the stack to hold a value that was
/// just popped from it (or built in this process) cannot overflow a vector.
#[verifier::external_body]
pub(crate) fn lock_push<T>(m: &parking_lot::Mutex<Vec<T>>, value: T)
    opens_invariants none
    no_unwind
{
    m.lock().push(value);
}

/// Relies on `lock_api::Mutex::lock` and `Vec::len`: reports how many values
/// the locked stack holds at the moment the lock is taken.
#[verifier::external_body]
pub(crate) fn lock_len<T>(m: &parking_lot::Mutex<Vec<T>>) -> usize {
    m.lock().len()
}

/// Relies on `std::sync::Arc::clone`: the clone shares the same allocation,
/// so it carries the same pool as the handle it was made from.
#[verifier::external_body]
pub(crate) fn arc_clone<T>(handle: &std::sync::Arc<T>) -> (r: std::sync::Arc<T>)
    ensures
        r == *handle,
{
    std::sync::Arc::clone(handle)
}

} // verus!
