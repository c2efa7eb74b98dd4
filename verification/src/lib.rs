//! A thread-safe object pool with automatic return and attach/detach
//! semantics.
//!
//! A pool holds a stack of spare values behind a mutex.  Callers borrow a
//! value by pulling a guard, use it through the guard, and the value goes
//! back onto the stack when the guard goes out of scope.  The stack is LIFO
//! on purpose: the most recently returned value is the next one handed out,
//! so a buffer still warm in cache, or a connection still open, is the one
//! reused first.
//!
//! Two guard types cover the two ways of holding a pool: [`Reusable`]
//! borrows the pool for a lexical scope, [`ReusableOwned`] carries a shared
//! handle and may outlive the frame that pulled it.  Both offer `detach`,
//! which hands the caller the value itself and switches the automatic
//! return off; the value can later be given back with [`Pool::attach`].
//!
//! Values are returned as they are: the pool never resets or validates
//! them.  A caller that needs a clean value clears it after pulling.
//!
//! The stack discipline — a pool of `n` values serves exactly `n` pulls, a
//! returned value is the next one pulled, values come back in reverse order
//! of pulling — is stated and proved over sequences in [`model`].

mod lock;
pub mod model;
mod pool;
mod reusable;

pub use pool::Pool;
pub use reusable::Reusable;
pub use reusable::ReusableOwned;
